//! NAL units of an H.264 bitstream, and what the `h264-reader` crate reads out of them.
//!
//! The parsers of `h264-reader` do arithmetic in 32 bits that overflows on extreme input. Exactly
//! what leads there is refused before they are called: [`readable`], [`groups_overflow`] and
//! [`qs_overflows`] say what that is.
use crate::buffers;
use bytes::BytesMut;
use h264_reader::nal::pps::{PicParamSetId, PicParameterSet, PpsError};
use h264_reader::nal::slice::{SliceFamily, SliceHeader, SliceHeaderError};
use h264_reader::nal::sps::{SeqParamSetId, SeqParameterSet, SpsError};
use h264_reader::nal::{Nal, NalHeader, NalHeaderError, RefNal, RefNalReader};
use h264_reader::rbsp::{BitRead, BitReaderError};
use h264_reader::Context;
use std::io::{BufRead, Read};
use vstd::prelude::*;

verus! {

/// How many bytes one read takes out of a NAL unit at most.
pub const WINDOW: usize = 1024;

/// What is known of a NAL unit: its bytes so far, in the pieces in which they arrived, and whether
/// the unit has ended.
pub struct NalModel {
    pub chunks: Seq<Seq<u8>>,
    pub complete: bool,
}

impl NalModel {
    /// There is at least a header byte, and no piece is empty.
    pub open spec fn well_formed(self) -> bool {
        &&& self.chunks.len() > 0
        &&& forall|i: int| 0 <= i < self.chunks.len() ==> (#[trigger] self.chunks[i]).len() > 0
    }

    /// The first byte, which is the NAL header.
    pub open spec fn header(self) -> u8 {
        self.chunks[0][0]
    }
}

/// A NAL unit as far as it has arrived.
#[derive(Debug, PartialEq, Eq)]
pub struct NalUnit {
    pub chunks: Vec<Vec<u8>>,
    pub complete: bool,
}

impl View for NalUnit {
    type V = NalModel;

    open spec fn view(&self) -> NalModel {
        NalModel {
            chunks: Seq::new(self.chunks@.len(), |i: int| self.chunks@[i]@),
            complete: self.complete,
        }
    }
}

/// The kinds of NAL unit that a stream import tells apart.
#[derive(Debug, Clone, Copy, PartialEq, Eq, Structural)]
pub enum NalKind {
    /// Slice of a picture that is not an IDR picture.
    NonIdrSlice,
    /// Slice of an IDR picture.
    IdrSlice,
    /// Sequence parameter set.
    Sps,
    /// Picture parameter set.
    Pps,
    /// Anything else.
    Other,
}

/// The kind of NAL unit that `nal_unit_type` (the low five bits of the header) stands for.
pub open spec fn kind_of_type(nal_unit_type: u8) -> NalKind {
    if nal_unit_type == 1 {
        NalKind::NonIdrSlice
    } else if nal_unit_type == 5 {
        NalKind::IdrSlice
    } else if nal_unit_type == 7 {
        NalKind::Sps
    } else if nal_unit_type == 8 {
        NalKind::Pps
    } else {
        NalKind::Other
    }
}

/// The kind of a NAL unit with this header byte; `None` when the forbidden bit is set.
pub open spec fn kind_of_header(header: u8) -> Option<NalKind> {
    if header & 0x80 != 0 {
        None
    } else {
        Some(kind_of_type(header & 0x1f))
    }
}

/// Families of slices.
#[derive(Debug, Clone, Copy, PartialEq, Eq, Structural)]
pub enum SliceKind {
    P,
    B,
    I,
    SP,
    SI,
}

#[verifier::external_type_specification]
#[verifier::external_body]
pub struct ExSeqParameterSet(SeqParameterSet);

#[verifier::external_type_specification]
#[verifier::external_body]
pub struct ExPicParameterSet(PicParameterSet);

#[verifier::external_type_specification]
#[verifier::external_body]
pub struct ExSpsError(SpsError);

#[verifier::external_type_specification]
#[verifier::external_body]
pub struct ExPpsError(PpsError);

#[verifier::external_type_specification]
#[verifier::external_body]
pub struct ExSliceHeaderError(SliceHeaderError);

#[verifier::external_type_specification]
#[verifier::external_body]
pub struct ExBitReaderError(BitReaderError);

#[verifier::external_type_specification]
#[verifier::external_body]
pub struct ExContext(Context);

#[verifier::external_type_specification]
#[verifier::external_body]
pub struct ExNalHeader(NalHeader);

#[verifier::external_type_specification]
#[verifier::external_body]
pub struct ExNalHeaderError(NalHeaderError);

#[verifier::external_type_specification]
#[verifier::external_body]
pub struct ExRefNal<'a>(RefNal<'a>);

#[verifier::external_type_specification]
#[verifier::external_body]
pub struct ExRefNalReader<'a>(RefNalReader<'a>);

#[verifier::external_type_specification]
#[verifier::external_body]
pub struct ExIoError(std::io::Error);

/// The pieces that a borrowed NAL unit holds, and whether it is complete.
pub uninterp spec fn held(nal: RefNal<'_>) -> NalModel;

/// The pieces that a reader has yet to hand out, and whether the unit is complete.
pub uninterp spec fn unread(reader: RefNalReader<'_>) -> NalModel;

/// The byte that a NAL header holds.
pub uninterp spec fn header_byte(header: NalHeader) -> u8;

/// The sequence parameter sets that a context holds, by their id.
pub uninterp spec fn held_sps(ctx: Context) -> Map<u8, SeqParameterSet>;

/// The picture parameter sets that a context holds, by their id.
pub uninterp spec fn held_pps(ctx: Context) -> Map<u8, PicParameterSet>;

/// The id of a sequence parameter set.
pub uninterp spec fn sps_id(sps: SeqParameterSet) -> u8;

/// The id of a picture parameter set.
pub uninterp spec fn pps_id(pps: PicParameterSet) -> u8;

/// What `SeqParameterSet::from_bits` reads out of a NAL unit; `None` where it fails.
pub uninterp spec fn parsed_sps(nal: NalModel) -> Option<SeqParameterSet>;

/// What `PicParameterSet::from_bits` reads out of a NAL unit, given the sequence parameter sets;
/// `None` where it fails.
pub uninterp spec fn parsed_pps(sps: Map<u8, SeqParameterSet>, nal: NalModel) -> Option<
    PicParameterSet,
>;

/// The slice family that `SliceHeader::from_bits` reads out of a NAL unit with the given header,
/// given the parameter sets; `None` where it fails.
pub uninterp spec fn parsed_slice(
    sps: Map<u8, SeqParameterSet>,
    pps: Map<u8, PicParameterSet>,
    nal: NalModel,
    header: u8,
) -> Option<SliceKind>;

/// The slice type and the id of the picture parameter set, which are the second and the third
/// Exp-Golomb code of a slice; `None` where `BitRead::read_ue` fails on one of the three.
pub uninterp spec fn slice_codes(nal: NalModel) -> Option<(u32, u32)>;

/// The id of the sequence parameter set, the number of slice groups less one, and the code behind
/// it, which with several slice groups is their map type, as they stand in a picture parameter set;
/// `None` where `BitRead::read_ue` or `BitRead::read_bool` fails on the way.
pub uninterp spec fn pps_codes(nal: NalModel) -> Option<(u32, u32, u32)>;

/// The field `slice_qs_delta` of a slice with this header that names these parameter sets, as
/// `SliceHeader::from_bits` tells it; `None` where the slice has none, or where something else in its
/// header is refused.
pub uninterp spec fn qs_delta(
    sps: SeqParameterSet,
    pps: PicParameterSet,
    nal: NalModel,
    header: u8,
) -> Option<i32>;

/// The id of the sequence parameter set that a picture parameter set refers to.
pub uninterp spec fn pps_sps_id(pps: PicParameterSet) -> u8;

/// The field `pic_init_qs_minus26` of a picture parameter set.
pub uninterp spec fn pps_init_qs(pps: PicParameterSet) -> i32;

/// The fields `pic_width_in_mbs_minus1` and `pic_height_in_map_units_minus1` of a sequence
/// parameter set.
pub uninterp spec fn sps_map_units(sps: SeqParameterSet) -> (u32, u32);

/// The `profile_idc` of the profile of a sequence parameter set.
pub uninterp spec fn sps_profile(sps: SeqParameterSet) -> u8;

/// The reserved bits of the constraint flags of a sequence parameter set.
pub uninterp spec fn sps_constraints(sps: SeqParameterSet) -> u8;

/// The `level_idc` of a sequence parameter set.
pub uninterp spec fn sps_level(sps: SeqParameterSet) -> u8;

/// The bytes of each slice.
pub open spec fn slice_bytes(slices: Seq<&[u8]>) -> Seq<Seq<u8>> {
    Seq::new(slices.len(), |i: int| slices[i]@)
}

/// `RefNal::new` borrows the pieces of a NAL unit. It panics on an empty first piece, and its
/// documentation asks that no other piece be empty.
pub assume_specification<'a>[ RefNal::<'a>::new ](
    head: &'a [u8],
    tail: &'a [&'a [u8]],
    complete: bool,
) -> (nal: RefNal<'a>)
    requires
        head@.len() > 0,
        forall|i: int| 0 <= i < tail@.len() ==> (#[trigger] tail@[i])@.len() > 0,
    ensures
        held(nal) == (NalModel { chunks: seq![head@] + slice_bytes(tail@), complete }),
;

/// Calls `Nal::reader` on a borrowed NAL unit: the reader starts at the first byte.
#[verifier::external_body]
fn nal_reader<'a>(nal: &RefNal<'a>) -> (reader: RefNalReader<'a>)
    ensures
        unread(reader) == held(*nal),
{
    nal.reader()
}

/// Calls `Nal::is_complete` on a borrowed NAL unit.
#[verifier::external_body]
fn nal_is_complete(nal: &RefNal<'_>) -> (r: bool)
    ensures
        r == held(*nal).complete,
{
    nal.is_complete()
}

/// Calls `BufRead::fill_buf` on a reader of a NAL unit and copies what it lends: the current piece,
/// nothing at the end of a complete unit, and an error at the end of an incomplete one.
#[verifier::external_body]
fn fill_buf(reader: &mut RefNalReader<'_>) -> (r: Result<Vec<u8>, std::io::Error>)
    ensures
        unread(*final(reader)) == unread(*old(reader)),
        match r {
            Ok(piece) => if unread(*old(reader)).chunks.len() > 0 {
                piece@ == unread(*old(reader)).chunks[0]
            } else {
                unread(*old(reader)).complete && piece@.len() == 0
            },
            Err(_) => unread(*old(reader)).chunks.len() == 0 && !unread(*old(reader)).complete,
        },
{
    reader.fill_buf().map(|piece| piece.to_vec())
}

/// Calls `BufRead::consume` on a reader of a NAL unit, with the length of the current piece: the
/// reader goes on to the next piece.
#[verifier::external_body]
fn consume(reader: &mut RefNalReader<'_>, amount: usize)
    requires
        unread(*old(reader)).chunks.len() > 0,
        amount == unread(*old(reader)).chunks[0].len(),
    ensures
        unread(*final(reader)) == (NalModel {
            chunks: unread(*old(reader)).chunks.skip(1),
            complete: unread(*old(reader)).complete,
        }),
{
    reader.consume(amount)
}

/// What a window of bytes holds after a read out of `piece`: the front of the piece, and behind it
/// whatever stood there before.
pub open spec fn overwritten(window: Seq<u8>, piece: Seq<u8>) -> Seq<u8> {
    if piece.len() > window.len() {
        piece.take(window.len() as int)
    } else {
        piece + window.skip(piece.len() as int)
    }
}

/// What is left of the pieces after a read of at most `WINDOW` bytes.
pub open spec fn after_read(chunks: Seq<Seq<u8>>) -> Seq<Seq<u8>> {
    if chunks[0].len() > WINDOW {
        chunks.update(0, chunks[0].skip(WINDOW as int))
    } else {
        chunks.skip(1)
    }
}

/// Calls `Read::read` on a reader of a NAL unit: it copies out of the current piece only, as much
/// as the window takes, and leaves the rest of the window as it is. At the end of a complete unit
/// it copies nothing; at the end of an incomplete one it fails.
#[verifier::external_body]
fn read_window(reader: &mut RefNalReader<'_>, window: &mut [u8; WINDOW]) -> (r: Result<
    usize,
    std::io::Error,
>)
    ensures
        unread(*final(reader)).complete == unread(*old(reader)).complete,
        unread(*old(reader)).chunks.len() > 0 ==> {
            let piece = unread(*old(reader)).chunks[0];
            &&& r matches Ok(n)
            &&& n == (if piece.len() > WINDOW {
                WINDOW as nat
            } else {
                piece.len()
            })
            &&& final(window)@ == overwritten(old(window)@, piece)
            &&& unread(*final(reader)).chunks == after_read(unread(*old(reader)).chunks)
        },
        unread(*old(reader)).chunks.len() == 0 ==> {
            &&& unread(*old(reader)).complete ==> (r matches Ok(n) && n == 0)
            &&& !unread(*old(reader)).complete ==> r is Err
            &&& final(window)@ == old(window)@
            &&& unread(*final(reader)).chunks == unread(*old(reader)).chunks
        },
{
    reader.read(window)
}

/// Calls `Nal::header` on a borrowed NAL unit, which takes the first byte and fails exactly when
/// its top bit, the forbidden zero bit, is set.
#[verifier::external_body]
fn nal_header(nal: &RefNal<'_>) -> (r: Result<NalHeader, NalHeaderError>)
    requires
        held(*nal).well_formed(),
    ensures
        match r {
            Ok(header) => held(*nal).header() & 0x80 == 0 && header_byte(header) == held(
                *nal,
            ).header(),
            Err(_) => held(*nal).header() & 0x80 != 0,
        },
{
    nal.header()
}

/// Calls `NalHeader::nal_unit_type` and `UnitType::id`, which give the low five bits of the header.
#[verifier::external_body]
fn unit_type_id(header: NalHeader) -> (id: u8)
    ensures
        id == header_byte(header) & 0x1f,
{
    header.nal_unit_type().id()
}

/// The kind of NAL unit that a `nal_unit_type` stands for.
fn kind_of(nal_unit_type: u8) -> (kind: NalKind)
    ensures
        kind == kind_of_type(nal_unit_type),
{
    match nal_unit_type {
        1 => NalKind::NonIdrSlice,
        5 => NalKind::IdrSlice,
        7 => NalKind::Sps,
        8 => NalKind::Pps,
        _ => NalKind::Other,
    }
}

/// How many zero bytes the bytes end in, when every byte 3 is left out.
pub open spec fn zero_tail(bytes: Seq<u8>) -> nat
    decreases bytes.len(),
{
    if bytes.len() == 0 {
        0
    } else if bytes.last() == 0 {
        zero_tail(bytes.drop_last()) + 1
    } else if bytes.last() == 3 {
        zero_tail(bytes.drop_last())
    } else {
        0
    }
}

/// How many zero bytes in a row are too many: their bits, with those of the bytes on either side,
/// are more than 32 bits count.
pub const ZERO_RUN: usize = 0x1fff_fffe;

/// Whether 32 bits count the zero bits of each run in the payload of a unit, as the readers of bits
/// do. The payload is the unit without its header and some of its bytes 3.
pub open spec fn readable(nal: NalModel) -> bool {
    forall|n: int|
        0 <= n <= nal_bytes(nal).len() ==> #[trigger] zero_tail(nal_bytes(nal).take(n)) < ZERO_RUN
}

/// Calls `SeqParameterSet::from_bits` on the bits of a NAL unit.
#[verifier::external_body]
fn sps_from_bits(nal: &RefNal<'_>) -> (r: Result<SeqParameterSet, SpsError>)
    requires
        readable(held(*nal)),
    ensures
        match r {
            Ok(sps) => parsed_sps(held(*nal)) == Some(sps),
            Err(_) => parsed_sps(held(*nal)) is None,
        },
{
    SeqParameterSet::from_bits(nal.rbsp_bits())
}

/// Whether a sequence parameter set was read out of some NAL unit.
pub open spec fn sps_read(sps: SeqParameterSet) -> bool {
    exists|nal: NalModel| readable(nal) && #[trigger] parsed_sps(nal) == Some(sps)
}

/// Whether a picture parameter set was read out of some NAL unit.
pub open spec fn pps_read(pps: PicParameterSet) -> bool {
    exists|sps: Map<u8, SeqParameterSet>, nal: NalModel|
        readable(nal) && #[trigger] parsed_pps(sps, nal) == Some(pps)
}

/// Whether all parameter sets were read out of NAL units.
pub open spec fn all_read(
    sps: Map<u8, SeqParameterSet>,
    pps: Map<u8, PicParameterSet>,
) -> bool {
    &&& forall|id: u8| #[trigger] sps.contains_key(id) ==> sps_read(sps[id])
    &&& forall|id: u8| #[trigger] pps.contains_key(id) ==> pps_read(pps[id])
}

/// Reads the fields `pic_width_in_mbs_minus1` and `pic_height_in_map_units_minus1`.
#[verifier::external_body]
fn map_units(sps: &SeqParameterSet) -> (r: (u32, u32))
    ensures
        r == sps_map_units(*sps),
{
    (sps.pic_width_in_mbs_minus1, sps.pic_height_in_map_units_minus1)
}

/// Calls `Context::sps_by_id` with the id that `SeqParamSetId::from_u32` makes of a number, which it
/// does of numbers up to 31.
#[verifier::external_body]
fn sps_by_id(ctx: &Context, id: u32) -> (r: Option<&SeqParameterSet>)
    ensures
        match r {
            Some(sps) => id <= 31 && held_sps(*ctx).contains_key(id as u8) && held_sps(*ctx)[id as u8]
                == *sps,
            None => id > 31 || !held_sps(*ctx).contains_key(id as u8),
        },
{
    ctx.sps_by_id(SeqParamSetId::from_u32(id).ok()?)
}

/// Calls `Context::pps_by_id` with the id that `PicParamSetId::from_u32` makes of a number, which it
/// does of numbers up to 255.
#[verifier::external_body]
fn pps_by_id(ctx: &Context, id: u32) -> (r: Option<&PicParameterSet>)
    ensures
        match r {
            Some(pps) => id <= 255 && held_pps(*ctx).contains_key(id as u8)
                && held_pps(*ctx)[id as u8] == *pps,
            None => id > 255 || !held_pps(*ctx).contains_key(id as u8),
        },
{
    ctx.pps_by_id(PicParamSetId::from_u32(id).ok()?)
}

/// Calls `SeqParamSetId::id` on the field `seq_parameter_set_id`, a number up to 31.
#[verifier::external_body]
fn sps_id_of(pps: &PicParameterSet) -> (r: u8)
    ensures
        r == pps_sps_id(*pps),
        r <= 31,
{
    pps.seq_parameter_set_id.id()
}

/// Reads the field `pic_init_qs_minus26`.
#[verifier::external_body]
fn init_qs_of(pps: &PicParameterSet) -> (r: i32)
    ensures
        r == pps_init_qs(*pps),
{
    pps.pic_init_qs_minus26
}

/// Whether 32 bits count the map units of a picture.
pub open spec fn fits(sps: SeqParameterSet) -> bool {
    (sps_map_units(sps).0 + 1) * (sps_map_units(sps).1 + 1) <= u32::MAX
}

/// Whether 32 bits count the map units of a picture.
fn size_fits(sps: &SeqParameterSet) -> (r: bool)
    ensures
        r == fits(*sps),
{
    let (width, height) = map_units(sps);
    assert(0 <= (width + 1) * (height + 1) <= 0x1_0000_0000 * 0x1_0000_0000) by (nonlinear_arith)
        requires
            0 <= width <= 0xffff_ffff,
            0 <= height <= 0xffff_ffff,
    ;
    let units: u128 = (width as u128 + 1) * (height as u128 + 1);
    units <= 0xffff_ffff
}

/// Calls `BitRead::read_ue` and `BitRead::read_bool` on the bits of a NAL unit, in the order of the
/// fields of a picture parameter set.
#[verifier::external_body]
fn read_pps_codes(nal: &RefNal<'_>) -> (r: Result<(u32, u32, u32), BitReaderError>)
    requires
        readable(held(*nal)),
    ensures
        match r {
            Ok(codes) => pps_codes(held(*nal)) == Some(codes),
            Err(_) => pps_codes(held(*nal)) is None,
        },
{
    let mut bits = nal.rbsp_bits();
    bits.read_ue("pic_parameter_set_id")?;
    let sps_id = bits.read_ue("seq_parameter_set_id")?;
    bits.read_bool("entropy_coding_mode_flag")?;
    bits.read_bool("bottom_field_pic_order_in_frame_present_flag")?;
    let groups = bits.read_ue("num_slice_groups_minus1")?;
    Ok((sps_id, groups, bits.read_ue("slice_group_map_type")?))
}

/// Whether slice groups of this map type are checked against the size of the picture.
pub open spec fn sized_groups(groups_minus1: u32, map_type: u32) -> bool {
    0 < groups_minus1 <= 7 && (map_type == 0 || 2 <= map_type <= 5)
}

/// Whether reading a picture parameter set multiplies the width of a picture by its height and 32
/// bits do not hold the product.
pub open spec fn groups_overflow(sps: Map<u8, SeqParameterSet>, nal: NalModel) -> bool {
    match pps_codes(nal) {
        Some(codes) => {
            &&& sized_groups(codes.1, codes.2)
            &&& codes.0 <= 31
            &&& sps.contains_key(codes.0 as u8)
            &&& !fits(sps[codes.0 as u8])
        },
        None => false,
    }
}

/// Calls `PicParameterSet::from_bits` on the bits of a NAL unit. Of the context it reads only the
/// sequence parameter sets. It fails where they lack the one that the unit refers to, so always
/// where there is none.
#[verifier::external_body]
fn pps_from_bits(ctx: &Context, nal: &RefNal<'_>) -> (r: Result<PicParameterSet, PpsError>)
    requires
        readable(held(*nal)),
        all_read(held_sps(*ctx), held_pps(*ctx)),
        !groups_overflow(held_sps(*ctx), held(*nal)),
    ensures
        match r {
            Ok(pps) => parsed_pps(held_sps(*ctx), held(*nal)) == Some(pps),
            Err(_) => parsed_pps(held_sps(*ctx), held(*nal)) is None,
        },
        held_sps(*ctx) == no_sps() ==> r is Err,
{
    PicParameterSet::from_bits(ctx, nal.rbsp_bits())
}

/// Calls `BitRead::read_ue` three times on the bits of a NAL unit and takes the second and the third
/// code.
#[verifier::external_body]
fn read_slice_codes(nal: &RefNal<'_>) -> (r: Result<(u32, u32), BitReaderError>)
    requires
        readable(held(*nal)),
    ensures
        match r {
            Ok(codes) => slice_codes(held(*nal)) == Some(codes),
            Err(_) => slice_codes(held(*nal)) is None,
        },
{
    let mut bits = nal.rbsp_bits();
    bits.read_ue("first_mb_in_slice")?;
    let slice_type = bits.read_ue("slice_type")?;
    Ok((slice_type, bits.read_ue("pic_parameter_set_id")?))
}

/// The family that a slice type stands for.
pub open spec fn family_of(slice_type: u32) -> Option<SliceKind> {
    if slice_type == 0 || slice_type == 5 {
        Some(SliceKind::P)
    } else if slice_type == 1 || slice_type == 6 {
        Some(SliceKind::B)
    } else if slice_type == 2 || slice_type == 7 {
        Some(SliceKind::I)
    } else if slice_type == 3 || slice_type == 8 {
        Some(SliceKind::SP)
    } else if slice_type == 4 || slice_type == 9 {
        Some(SliceKind::SI)
    } else {
        None
    }
}

/// Whether slices of this type switch between streams. Only they have the field `slice_qs_delta`.
pub open spec fn switches(slice_type: u32) -> bool {
    family_of(slice_type) == Some(SliceKind::SP) || family_of(slice_type) == Some(SliceKind::SI)
}

/// Calls `SliceHeader::from_bits` on the bits of a NAL unit, against the two sets alone, and with
/// the least value that the field `pic_init_qs_minus26` can have. The sum of 26, that field and
/// `slice_qs_delta` is then the delta itself. `SliceHeader::slice_qs` holds it where it is accepted
/// and `SliceHeaderError::InvalidSliceQsDelta` where it is not.
#[verifier::external_body]
fn read_qs_delta(
    sps: &SeqParameterSet,
    pps: &PicParameterSet,
    nal: &RefNal<'_>,
    header: NalHeader,
) -> (r: Option<i32>)
    requires
        readable(held(*nal)),
        sps_read(*sps),
        pps_read(*pps),
    ensures
        r == qs_delta(*sps, *pps, held(*nal), header_byte(header)),
{
    let mut ctx = Context::new();
    ctx.put_seq_param_set(sps.clone());
    ctx.put_pic_param_set(PicParameterSet { pic_init_qs_minus26: -26, ..pps.clone() });
    match SliceHeader::from_bits(&ctx, &mut nal.rbsp_bits(), header) {
        Ok((slice, _, _)) => slice.slice_qs.map(|qs| qs as i32),
        Err(SliceHeaderError::InvalidSliceQsDelta(delta)) => Some(delta),
        Err(_) => None,
    }
}

/// Whether reading a slice header adds up 26, `pic_init_qs_minus26` and `slice_qs_delta` and 32 bits
/// do not hold the sum.
pub open spec fn qs_overflows(
    sps: Map<u8, SeqParameterSet>,
    pps: Map<u8, PicParameterSet>,
    nal: NalModel,
    header: u8,
) -> bool {
    match slice_codes(nal) {
        Some(codes) => {
            let named = pps[codes.1 as u8];
            &&& switches(codes.0)
            &&& codes.1 <= 255
            &&& pps.contains_key(codes.1 as u8)
            &&& sps.contains_key(pps_sps_id(named))
            &&& match qs_delta(sps[pps_sps_id(named)], named, nal, header) {
                Some(delta) => 26 + pps_init_qs(named) + delta > i32::MAX,
                None => false,
            }
        },
        None => false,
    }
}

/// Calls `SliceHeader::from_bits` on the bits of a NAL unit and takes the slice family, which goes by
/// the slice type.
#[verifier::external_body]
fn slice_from_bits(ctx: &Context, nal: &RefNal<'_>, header: NalHeader) -> (r: Result<
    SliceKind,
    SliceHeaderError,
>)
    requires
        readable(held(*nal)),
        all_read(held_sps(*ctx), held_pps(*ctx)),
        !qs_overflows(held_sps(*ctx), held_pps(*ctx), held(*nal), header_byte(header)),
    ensures
        match r {
            Ok(kind) => parsed_slice(
                held_sps(*ctx),
                held_pps(*ctx),
                held(*nal),
                header_byte(header),
            ) == Some(kind),
            Err(_) => parsed_slice(
                held_sps(*ctx),
                held_pps(*ctx),
                held(*nal),
                header_byte(header),
            ) is None,
        },
        r matches Ok(kind) ==> (slice_codes(held(*nal)) matches Some(codes) && family_of(codes.0)
            == Some(kind)),
{
    let (slice, _, _) = SliceHeader::from_bits(ctx, &mut nal.rbsp_bits(), header)?;
    Ok(match slice.slice_type.family {
        SliceFamily::P => SliceKind::P,
        SliceFamily::B => SliceKind::B,
        SliceFamily::I => SliceKind::I,
        SliceFamily::SP => SliceKind::SP,
        SliceFamily::SI => SliceKind::SI,
    })
}

/// No sequence parameter set.
pub open spec fn no_sps() -> Map<u8, SeqParameterSet> {
    Map::empty()
}

/// No picture parameter set.
pub open spec fn no_pps() -> Map<u8, PicParameterSet> {
    Map::empty()
}

/// `Context::new` gives a context without parameter sets.
pub assume_specification[ Context::new ]() -> (ctx: Context)
    ensures
        held_sps(ctx) == no_sps(),
        held_pps(ctx) == no_pps(),
;

/// `Context::put_seq_param_set` stores the set under its id, in place of an earlier one.
pub assume_specification[ Context::put_seq_param_set ](ctx: &mut Context, sps: SeqParameterSet)
    ensures
        held_sps(*final(ctx)) == held_sps(*old(ctx)).insert(sps_id(sps), sps),
        held_pps(*final(ctx)) == held_pps(*old(ctx)),
;

/// `Context::put_pic_param_set` stores the set under its id, in place of an earlier one.
pub assume_specification[ Context::put_pic_param_set ](ctx: &mut Context, pps: PicParameterSet)
    ensures
        held_sps(*final(ctx)) == held_sps(*old(ctx)),
        held_pps(*final(ctx)) == held_pps(*old(ctx)).insert(pps_id(pps), pps),
;

/// The parameter sets that slices are read against, by their ids.
pub struct ParamSets {
    pub sps: Map<u8, SeqParameterSet>,
    pub pps: Map<u8, PicParameterSet>,
}

/// Parameter sets that were read out of NAL units.
pub struct ParameterSets {
    ctx: Context,
}

impl View for ParameterSets {
    type V = ParamSets;

    closed spec fn view(&self) -> ParamSets {
        ParamSets { sps: held_sps(self.ctx), pps: held_pps(self.ctx) }
    }
}

impl ParameterSets {
    #[verifier::type_invariant]
    spec fn well_formed(self) -> bool {
        all_read(held_sps(self.ctx), held_pps(self.ctx))
    }

    /// No parameter sets.
    pub fn new() -> (sets: ParameterSets)
        ensures
            sets@ == (ParamSets { sps: no_sps(), pps: no_pps() }),
    {
        ParameterSets { ctx: Context::new() }
    }

    /// Stores a sequence parameter set under its id, in place of an earlier one.
    pub fn put_sps(&mut self, sps: SeqParameterSet)
        requires
            sps_read(sps),
        ensures
            final(self)@ == (ParamSets {
                sps: old(self)@.sps.insert(sps_id(sps), sps),
                pps: old(self)@.pps,
            }),
    {
        proof {
            use_type_invariant(&*self);
        }
        let mut ctx = Context::new();
        std::mem::swap(&mut ctx, &mut self.ctx);
        ctx.put_seq_param_set(sps);
        self.ctx = ctx;
    }

    /// Stores a picture parameter set under its id, in place of an earlier one.
    pub fn put_pps(&mut self, pps: PicParameterSet)
        requires
            pps_read(pps),
        ensures
            final(self)@ == (ParamSets {
                sps: old(self)@.sps,
                pps: old(self)@.pps.insert(pps_id(pps), pps),
            }),
    {
        proof {
            use_type_invariant(&*self);
        }
        let mut ctx = Context::new();
        std::mem::swap(&mut ctx, &mut self.ctx);
        ctx.put_pic_param_set(pps);
        self.ctx = ctx;
    }
}

/// Calls `SeqParameterSet::profile` and `Profile::profile_idc`.
#[verifier::external_body]
pub(crate) fn profile_idc(sps: &SeqParameterSet) -> (r: u8)
    ensures
        r == sps_profile(*sps),
{
    sps.profile().profile_idc()
}

/// Calls `ConstraintFlags::reserved_zero_two_bits`, which keeps two bits.
#[verifier::external_body]
pub(crate) fn reserved_zero_two_bits(sps: &SeqParameterSet) -> (r: u8)
    ensures
        r == sps_constraints(*sps),
        r <= 3,
{
    sps.constraint_flags.reserved_zero_two_bits()
}

/// Reads the field `level_idc`.
#[verifier::external_body]
pub(crate) fn level_idc(sps: &SeqParameterSet) -> (r: u8)
    ensures
        r == sps_level(*sps),
{
    sps.level_idc
}

/// Copies the pieces of a borrowed NAL unit.
pub fn collect(nal: &RefNal<'_>) -> (unit: NalUnit)
    requires
        held(*nal).well_formed(),
    ensures
        unit@ == held(*nal),
{
    let mut reader = nal_reader(nal);
    let mut chunks: Vec<Vec<u8>> = Vec::new();
    let complete = nal_is_complete(nal);
    let ghost whole = held(*nal);
    loop
        invariant
            whole.well_formed(),
            complete == whole.complete,
            unread(reader).complete == whole.complete,
            chunks@.len() <= whole.chunks.len(),
            unread(reader).chunks == whole.chunks.skip(chunks@.len() as int),
            forall|i: int| 0 <= i < chunks@.len() ==> (#[trigger] chunks@[i])@ == whole.chunks[i],
        ensures
            chunks@.len() == whole.chunks.len(),
        decreases unread(reader).chunks.len(),
    {
        match fill_buf(&mut reader) {
            Ok(piece) => {
                if piece.is_empty() {
                    proof {
                        if unread(reader).chunks.len() > 0 {
                            assert(unread(reader).chunks[0] == whole.chunks[chunks@.len() as int]);
                        }
                    }
                    break;
                }
                consume(&mut reader, piece.len());
                chunks.push(piece);
                assert(unread(reader).chunks == whole.chunks.skip(chunks@.len() as int));
            },
            Err(_) => {
                break;
            },
        }
    }
    let unit = NalUnit { chunks, complete };
    assert(unit@.chunks == whole.chunks);
    unit
}

/// The bytes of a NAL unit: its pieces one behind the other.
pub open spec fn nal_bytes(nal: NalModel) -> Seq<u8> {
    nal.chunks.flatten()
}

/// A unit has its header as first byte, and a unit that arrived in one piece is that piece.
pub proof fn law_unit_is_kept_whole(nal: NalModel)
    requires
        nal.well_formed(),
    ensures
        nal_bytes(nal).len() > 0,
        nal_bytes(nal)[0] == nal.header(),
        nal.chunks.len() == 1 ==> nal_bytes(nal) == nal.chunks[0],
{
    assert(nal.chunks.first() == nal.chunks[0]);
    if nal.chunks.len() == 1 {
        assert(nal.chunks.drop_first().flatten() == Seq::<u8>::empty());
        assert(nal_bytes(nal) == nal.chunks[0]);
    }
}

/// Where the pieces of a unit are cut does not change its bytes.
pub proof fn law_cut_does_not_matter(
    front: Seq<Seq<u8>>,
    left: Seq<u8>,
    right: Seq<u8>,
    back: Seq<Seq<u8>>,
)
    ensures
        (front + seq![left, right] + back).flatten() == (front + seq![left + right]
            + back).flatten(),
    decreases front.len(),
{
    let two = front + seq![left, right] + back;
    let one = front + seq![left + right] + back;
    if front.len() == 0 {
        assert(two.first() == left);
        assert(one.first() == left + right);
        assert(two.drop_first() == seq![right] + back);
        assert(two.drop_first().first() == right);
        assert(two.drop_first().drop_first() == back);
        assert(two.drop_first().flatten() == right + back.flatten());
        assert(one.drop_first() == back);
        assert(left + (right + back.flatten()) == left + right + back.flatten());
    } else {
        law_cut_does_not_matter(front.drop_first(), left, right, back);
        assert(two.first() == one.first());
        assert(two.drop_first() == front.drop_first() + seq![left, right] + back);
        assert(one.drop_first() == front.drop_first() + seq![left + right] + back);
    }
}

/// What a read takes and what it leaves are together what there was.
proof fn lemma_after_read(chunks: Seq<Seq<u8>>)
    requires
        chunks.len() > 0,
    ensures
        ({
            let piece = chunks[0];
            let taken = if piece.len() > WINDOW {
                piece.take(WINDOW as int)
            } else {
                piece
            };
            taken + after_read(chunks).flatten() == chunks.flatten()
        }),
{
    let piece = chunks[0];
    let rest = after_read(chunks);
    if piece.len() > WINDOW {
        assert(rest.first() == piece.skip(WINDOW as int));
        assert(rest.drop_first() == chunks.drop_first());
        assert(piece.take(WINDOW as int) + (piece.skip(WINDOW as int)
            + chunks.drop_first().flatten()) == piece + chunks.drop_first().flatten());
    } else {
        assert(rest == chunks.drop_first());
    }
}

/// The sequence parameter set that a NAL unit holds; `None` where it cannot be read.
pub open spec fn sps_of(nal: NalModel) -> Option<SeqParameterSet> {
    if readable(nal) {
        parsed_sps(nal)
    } else {
        None
    }
}

/// The picture parameter set that a NAL unit holds; `None` where it cannot be read.
pub open spec fn pps_of(sps: Map<u8, SeqParameterSet>, nal: NalModel) -> Option<PicParameterSet> {
    if readable(nal) && !groups_overflow(sps, nal) {
        parsed_pps(sps, nal)
    } else {
        None
    }
}

/// The family of the slice that a NAL unit holds; `None` where its header or its slice header cannot
/// be read.
pub open spec fn slice_of(sets: ParamSets, nal: NalModel) -> Option<SliceKind> {
    if nal.header() & 0x80 == 0 && readable(nal) && !qs_overflows(
        sets.sps,
        sets.pps,
        nal,
        nal.header(),
    ) {
        parsed_slice(sets.sps, sets.pps, nal, nal.header())
    } else {
        None
    }
}

/// A slice that does not switch between streams is read as it is: only switching slices have a sum
/// that can overflow.
pub proof fn law_ordinary_slices_are_read(sets: ParamSets, nal: NalModel)
    requires
        nal.header() & 0x80 == 0,
        readable(nal),
        slice_codes(nal) matches Some(codes) ==> !switches(codes.0),
    ensures
        slice_of(sets, nal) == parsed_slice(sets.sps, sets.pps, nal, nal.header()),
{
}

/// Against sequence parameter sets whose picture sizes 32 bits hold, every picture parameter set is
/// read as it is.
pub proof fn law_ordinary_sets_are_read(sps: Map<u8, SeqParameterSet>, nal: NalModel)
    requires
        readable(nal),
        forall|id: u8| #[trigger] sps.contains_key(id) ==> fits(sps[id]),
    ensures
        pps_of(sps, nal) == parsed_pps(sps, nal),
{
}

proof fn lemma_zero_tail_bound(bytes: Seq<u8>)
    ensures
        zero_tail(bytes) <= bytes.len(),
    decreases bytes.len(),
{
    if bytes.len() > 0 {
        lemma_zero_tail_bound(bytes.drop_last());
    }
}

/// A unit with fewer bytes than the longest run of zeros is readable.
pub proof fn law_short_units_are_readable(nal: NalModel)
    requires
        nal_bytes(nal).len() < ZERO_RUN,
    ensures
        readable(nal),
{
    assert forall|n: int| 0 <= n <= nal_bytes(nal).len() implies #[trigger] zero_tail(
        nal_bytes(nal).take(n),
    ) < ZERO_RUN by {
        lemma_zero_tail_bound(nal_bytes(nal).take(n));
    }
}

impl NalUnit {
    proof fn lemma_borrowed(&self, tail: Seq<&[u8]>)
        requires
            self@.well_formed(),
            slice_bytes(tail) == self@.chunks.skip(1),
        ensures
            self.chunks@[0]@.len() > 0,
            forall|i: int| 0 <= i < tail.len() ==> (#[trigger] tail[i])@.len() > 0,
            seq![self.chunks@[0]@] + slice_bytes(tail) == self@.chunks,
    {
        assert(self.chunks@[0]@ == self@.chunks[0]);
        assert forall|i: int| 0 <= i < tail.len() implies (#[trigger] tail[i])@.len() > 0 by {
            assert(slice_bytes(tail).len() == tail.len());
            assert(slice_bytes(tail)[i] == tail[i]@);
            assert(self@.chunks.skip(1)[i] == self@.chunks[i + 1]);
        }
        assert(seq![self.chunks@[0]@] + slice_bytes(tail) == self@.chunks);
    }

    /// The pieces after the first.
    fn tail(&self) -> (tail: Vec<&[u8]>)
        requires
            self@.well_formed(),
        ensures
            slice_bytes(tail@) == self@.chunks.skip(1),
    {
        let mut tail: Vec<&[u8]> = Vec::new();
        let mut i: usize = 1;
        while i < self.chunks.len()
            invariant
                1 <= i <= self.chunks@.len(),
                tail@.len() == i - 1,
                forall|j: int| 0 <= j < tail@.len() ==> (#[trigger] tail@[j])@ == self@.chunks[j + 1],
            decreases self.chunks@.len() - i,
        {
            tail.push(self.chunks[i].as_slice());
            i = i + 1;
        }
        assert(slice_bytes(tail@) == self@.chunks.skip(1));
        tail
    }

    /// The kind of the unit; `None` when its header has the forbidden bit set.
    pub fn kind(&self) -> (kind: Option<NalKind>)
        requires
            self@.well_formed(),
        ensures
            kind == kind_of_header(self@.header()),
    {
        let tail = self.tail();
        proof {
            self.lemma_borrowed(tail@);
        }
        let nal = RefNal::new(self.chunks[0].as_slice(), tail.as_slice(), self.complete);
        match nal_header(&nal) {
            Ok(header) => Some(kind_of(unit_type_id(header))),
            Err(_) => None,
        }
    }

    /// Whether the unit has fewer bytes than the longest run of zeros.
    fn is_short(&self) -> (r: bool)
        ensures
            r ==> nal_bytes(self@).len() < ZERO_RUN,
    {
        let mut total: usize = 0;
        let mut i: usize = 0;
        assert(self@.chunks.take(0).flatten().len() == 0);
        while i < self.chunks.len()
            invariant
                i <= self.chunks@.len(),
                total < ZERO_RUN,
                total == self@.chunks.take(i as int).flatten().len(),
            decreases self.chunks@.len() - i,
        {
            if self.chunks[i].len() >= ZERO_RUN - total {
                return false;
            }
            proof {
                let longer = self@.chunks.take(i as int + 1);
                assert(longer.drop_last() == self@.chunks.take(i as int));
                assert(longer.last() == self.chunks@[i as int]@);
                longer.lemma_flatten_and_flatten_alt_are_equivalent();
                longer.drop_last().lemma_flatten_and_flatten_alt_are_equivalent();
            }
            total = total + self.chunks[i].len();
            i = i + 1;
        }
        assert(self@.chunks.take(i as int) == self@.chunks);
        true
    }

    /// Whether 32 bits count the zero bits of each run in the payload.
    pub fn is_readable(&self) -> (r: bool)
        requires
            self@.well_formed(),
        ensures
            r == readable(self@),
    {
        if self.is_short() {
            proof {
                law_short_units_are_readable(self@);
            }
            return true;
        }
        let buf = self.bytes();
        let bytes = buffers::borrowed(&buf);
        let mut zeros: usize = 0;
        let mut i: usize = 0;
        assert(bytes@.take(0).len() == 0);
        while i < bytes.len()
            invariant
                bytes@ == nal_bytes(self@),
                i <= bytes@.len(),
                zeros < ZERO_RUN,
                zeros == zero_tail(bytes@.take(i as int)),
                forall|n: int| 0 <= n <= i ==> #[trigger] zero_tail(bytes@.take(n)) < ZERO_RUN,
            decreases bytes@.len() - i,
        {
            let ghost longer = bytes@.take(i as int + 1);
            assert(longer.drop_last() == bytes@.take(i as int));
            assert(longer.last() == bytes@[i as int]);
            if bytes[i] == 0 {
                zeros = zeros + 1;
            } else if bytes[i] != 3 {
                zeros = 0;
            }
            if zeros >= ZERO_RUN {
                assert(zero_tail(bytes@.take(i as int + 1)) >= ZERO_RUN);
                return false;
            }
            i = i + 1;
        }
        true
    }

    /// The sequence parameter set that the unit holds.
    pub fn sps(&self) -> (sps: Option<SeqParameterSet>)
        requires
            self@.well_formed(),
        ensures
            sps == sps_of(self@),
            sps matches Some(sps) ==> sps_read(sps),
    {
        if !self.is_readable() {
            return None;
        }
        let tail = self.tail();
        proof {
            self.lemma_borrowed(tail@);
        }
        let nal = RefNal::new(self.chunks[0].as_slice(), tail.as_slice(), self.complete);
        match sps_from_bits(&nal) {
            Ok(sps) => {
                assert(parsed_sps(self@) == Some(sps));
                Some(sps)
            },
            Err(_) => None,
        }
    }

    /// The picture parameter set that the unit holds, read against the sequence parameter sets.
    pub fn pps(&self, sets: &ParameterSets) -> (pps: Option<PicParameterSet>)
        requires
            self@.well_formed(),
        ensures
            pps == pps_of(sets@.sps, self@),
            pps matches Some(pps) ==> pps_read(pps),
            sets@.sps == no_sps() ==> pps is None,
    {
        if !self.is_readable() {
            return None;
        }
        let tail = self.tail();
        proof {
            use_type_invariant(sets);
            self.lemma_borrowed(tail@);
        }
        let nal = RefNal::new(self.chunks[0].as_slice(), tail.as_slice(), self.complete);
        if let Ok((id, groups, map_type)) = read_pps_codes(&nal) {
            if 0 < groups && groups <= 7 && (map_type == 0 || 2 <= map_type && map_type <= 5) {
                if let Some(sps) = sps_by_id(&sets.ctx, id) {
                    if !size_fits(sps) {
                        return None;
                    }
                }
            }
        }
        match pps_from_bits(&sets.ctx, &nal) {
            Ok(pps) => {
                assert(parsed_pps(sets@.sps, self@) == Some(pps));
                Some(pps)
            },
            Err(_) => None,
        }
    }

    /// The family of the slice that the unit holds, read against the parameter sets.
    pub fn slice(&self, sets: &ParameterSets) -> (kind: Option<SliceKind>)
        requires
            self@.well_formed(),
        ensures
            kind == slice_of(sets@, self@),
    {
        if !self.is_readable() {
            return None;
        }
        let tail = self.tail();
        proof {
            use_type_invariant(sets);
            self.lemma_borrowed(tail@);
        }
        let nal = RefNal::new(self.chunks[0].as_slice(), tail.as_slice(), self.complete);
        match nal_header(&nal) {
            Ok(header) => {
                if let Ok((slice_type, id)) = read_slice_codes(&nal) {
                    if slice_type == 3 || slice_type == 4 || slice_type == 8 || slice_type == 9 {
                        if let Some(pps) = pps_by_id(&sets.ctx, id) {
                            if let Some(sps) = sps_by_id(&sets.ctx, sps_id_of(pps) as u32) {
                                if let Some(delta) = read_qs_delta(sps, pps, &nal, header) {
                                    let sum: i64 = 26 + init_qs_of(pps) as i64 + delta as i64;
                                    if sum > 0x7fff_ffff {
                                        return None;
                                    }
                                }
                            }
                        }
                    }
                }
                match slice_from_bits(&sets.ctx, &nal, header) {
                    Ok(kind) => Some(kind),
                    Err(_) => None,
                }
            },
            Err(_) => None,
        }
    }

    /// The bytes of the unit, read window by window.
    pub fn bytes(&self) -> (buf: BytesMut)
        requires
            self@.well_formed(),
        ensures
            buffers::octets(buf) == nal_bytes(self@),
    {
        let tail = self.tail();
        proof {
            self.lemma_borrowed(tail@);
        }
        let nal = RefNal::new(self.chunks[0].as_slice(), tail.as_slice(), self.complete);
        let mut reader = nal_reader(&nal);
        let mut full = BytesMut::new();
        let mut window = [0u8;WINDOW];
        assert(buffers::octets(full) + unread(reader).chunks.flatten() == nal_bytes(self@));
        loop
            invariant
                window@.len() == WINDOW,
                forall|i: int|
                    0 <= i < unread(reader).chunks.len() ==> (
                    #[trigger] unread(reader).chunks[i]).len() > 0,
                buffers::octets(full) + unread(reader).chunks.flatten() == nal_bytes(self@),
            ensures
                unread(reader).chunks.len() == 0,
            decreases
                    unread(reader).chunks.len(),
                    (if unread(reader).chunks.len() > 0 {
                        unread(reader).chunks[0].len()
                    } else {
                        0
                    }),
        {
            let ghost chunks = unread(reader).chunks;
            let ghost before = buffers::octets(full);
            let n: usize = match read_window(&mut reader, &mut window) {
                Ok(n) => n,
                Err(_) => {
                    break;
                },
            };
            if n == 0 {
                break;
            }
            let taken = vstd::slice::slice_subrange(window.as_slice(), 0, n);
            full.extend_from_slice(taken);
            proof {
                lemma_after_read(chunks);
                if chunks[0].len() > WINDOW {
                    assert(taken@ == chunks[0].take(WINDOW as int));
                } else {
                    assert(taken@ == chunks[0]);
                }
                assert(buffers::octets(full) + unread(reader).chunks.flatten() == before + (taken@
                    + unread(reader).chunks.flatten()));
            }
        }
        assert(unread(reader).chunks.flatten() == Seq::<u8>::empty());
        full
    }
}

/// What is known of a unit is what it holds.
pub proof fn law_unit_is_what_it_holds(unit: NalUnit)
    ensures
        unit@.complete == unit.complete,
        unit@.chunks.len() == unit.chunks@.len(),
        forall|i: int| 0 <= i < unit.chunks@.len() ==> #[trigger] unit@.chunks[i] == unit.chunks@[i]@,
        nal_bytes(unit@) == unit@.chunks.flatten(),
        unit.chunks@.len() > 0 && unit.chunks@[0]@.len() > 0 ==> unit@.header()
            == unit.chunks@[0]@[0],
{
}

/// The kind of a unit goes by the low five bits of its header, unless the top bit is set. One header
/// has one kind.
pub proof fn law_kind_goes_by_the_header(header: u8)
    ensures
        kind_of_header(header) is None <==> header & 0x80 != 0,
        kind_of_header(header) == Some(NalKind::NonIdrSlice) <==> header & 0x80 == 0 && header & 0x1f
            == 1,
        kind_of_header(header) == Some(NalKind::IdrSlice) <==> header & 0x80 == 0 && header & 0x1f
            == 5,
        kind_of_header(header) == Some(NalKind::Sps) <==> header & 0x80 == 0 && header & 0x1f == 7,
        kind_of_header(header) == Some(NalKind::Pps) <==> header & 0x80 == 0 && header & 0x1f == 8,
        kind_of_type(header & 0x1f) == NalKind::NonIdrSlice <==> header & 0x1f == 1,
        kind_of_type(header & 0x1f) == NalKind::IdrSlice <==> header & 0x1f == 5,
        kind_of_type(header & 0x1f) == NalKind::Sps <==> header & 0x1f == 7,
        kind_of_type(header & 0x1f) == NalKind::Pps <==> header & 0x1f == 8,
{
}

/// Slice types repeat after five, end at nine, and the five families come in the order P, B, I, SP,
/// SI.
pub proof fn law_families_repeat(slice_type: u32)
    ensures
        slice_type >= 10 <==> family_of(slice_type) is None,
        slice_type < 5 ==> family_of(slice_type) == family_of((slice_type + 5) as u32),
        family_of(0) == Some(SliceKind::P),
        family_of(1) == Some(SliceKind::B),
        family_of(2) == Some(SliceKind::I),
        family_of(3) == Some(SliceKind::SP),
        family_of(4) == Some(SliceKind::SI),
        switches(slice_type) <==> slice_type == 3 || slice_type == 4 || slice_type == 8 || slice_type
            == 9,
{
}

/// Every sequence parameter set that the parser accepts in a unit of less than half a gigabyte is
/// found, and no other.
pub proof fn law_every_sps_is_found(nal: NalModel)
    requires
        nal.chunks.flatten().len() < 0x1fff_fffe,
    ensures
        readable(nal),
        sps_of(nal) == parsed_sps(nal),
{
    assert forall|n: int| 0 <= n <= nal_bytes(nal).len() implies #[trigger] zero_tail(
        nal_bytes(nal).take(n),
    ) < ZERO_RUN by {
        lemma_zero_tail_bound(nal_bytes(nal).take(n));
    }
}

/// Every picture parameter set that the parser accepts in such a unit is found, unless it has two to
/// eight slice groups of the map types 0 or 2 to 5 and names a sequence parameter set whose width
/// times height is 2^32 or more.
pub proof fn law_every_pps_is_found(sps: Map<u8, SeqParameterSet>, nal: NalModel)
    requires
        nal.chunks.flatten().len() < 0x1fff_fffe,
        !(pps_codes(nal) matches Some(codes) && 1 <= codes.1 && codes.1 <= 7 && (codes.2 == 0 || (2
            <= codes.2 && codes.2 <= 5)) && codes.0 <= 31 && sps.contains_key(codes.0 as u8) && (
        sps_map_units(sps[codes.0 as u8]).0 + 1) * (sps_map_units(sps[codes.0 as u8]).1 + 1)
            >= 0x1_0000_0000),
    ensures
        pps_of(sps, nal) == parsed_pps(sps, nal),
{
    law_every_sps_is_found(nal);
}

/// Every slice header that the parser accepts in such a unit is read, whatever its family, unless it
/// is of an SP or SI slice and 26, the initial value of the picture parameter set and the delta add
/// up to 2^31 or more. A unit with the forbidden bit set holds no slice.
pub proof fn law_every_slice_is_read(sets: ParamSets, nal: NalModel)
    requires
        nal.chunks.flatten().len() < 0x1fff_fffe,
        !(slice_codes(nal) matches Some(codes) && (codes.0 == 3 || codes.0 == 4 || codes.0 == 8
            || codes.0 == 9) && codes.1 <= 255 && sets.pps.contains_key(codes.1 as u8)
            && sets.sps.contains_key(pps_sps_id(sets.pps[codes.1 as u8])) && (qs_delta(
            sets.sps[pps_sps_id(sets.pps[codes.1 as u8])],
            sets.pps[codes.1 as u8],
            nal,
            nal.header(),
        ) matches Some(delta) && 26 + pps_init_qs(sets.pps[codes.1 as u8]) + delta >= 0x8000_0000)),
    ensures
        nal.header() & 0x80 == 0 ==> slice_of(sets, nal) == parsed_slice(
            sets.sps,
            sets.pps,
            nal,
            nal.header(),
        ),
        nal.header() & 0x80 != 0 ==> slice_of(sets, nal) is None,
{
    law_every_sps_is_found(nal);
}

/// To begin with there is no parameter set of any id.
pub proof fn law_no_sets_to_begin_with(id: u8)
    ensures
        !no_sps().contains_key(id),
        !no_pps().contains_key(id),
{
}

} // verus!
