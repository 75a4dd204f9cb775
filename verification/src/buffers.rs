//! Byte buffers of the `bytes` crate.
//!
//! As for `Vec` in vstd, running out of memory is left out of the contracts.
use bytes::{Bytes, BytesMut};
use vstd::prelude::*;

verus! {

#[verifier::external_type_specification]
#[verifier::external_body]
pub struct ExBytesMut(BytesMut);

#[verifier::external_type_specification]
#[verifier::external_body]
pub struct ExBytes(Bytes);

/// The bytes that a growable buffer holds.
pub uninterp spec fn octets(buf: BytesMut) -> Seq<u8>;

/// The bytes that a frozen buffer holds.
pub uninterp spec fn frozen(buf: Bytes) -> Seq<u8>;

/// `BytesMut::new` gives an empty buffer.
pub assume_specification[ BytesMut::new ]() -> (buf: BytesMut)
    ensures
        octets(buf) == Seq::<u8>::empty(),
;

/// `BytesMut::is_empty` tells whether the buffer holds no byte.
pub assume_specification[ BytesMut::is_empty ](buf: &BytesMut) -> (r: bool)
    ensures
        r == (octets(*buf).len() == 0),
;

/// `BytesMut::extend_from_slice` appends the slice.
pub assume_specification[ BytesMut::extend_from_slice ](buf: &mut BytesMut, extend: &[u8])
    ensures
        octets(*final(buf)) == octets(*old(buf)) + extend@,
;

/// `BytesMut::freeze` keeps the bytes.
pub assume_specification[ BytesMut::freeze ](buf: BytesMut) -> (r: Bytes)
    ensures
        frozen(r) == octets(buf),
;

/// Calls `BytesMut::from` on a slice, which copies the slice.
#[verifier::external_body]
pub(crate) fn copied(data: &[u8]) -> (buf: BytesMut)
    ensures
        octets(buf) == data@,
{
    BytesMut::from(data)
}

/// Calls `BytesMut::deref`, which borrows the bytes that the buffer holds.
#[verifier::external_body]
pub(crate) fn borrowed(buf: &BytesMut) -> (data: &[u8])
    ensures
        data@ == octets(*buf),
{
    std::ops::Deref::deref(buf)
}

} // verus!
