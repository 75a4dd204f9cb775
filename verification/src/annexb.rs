//! Annex B byte streams: NAL units behind start codes.
use crate::bitstream::{self, NalModel, NalUnit};
use h264_reader::annexb::AnnexBReader;
use h264_reader::nal::RefNal;
use h264_reader::push::{NalAccumulator, NalInterest};
use std::sync::mpsc::channel;
use vstd::prelude::*;

verus! {

/// A push parser of Annex B that buffers every NAL unit until its end.
#[verifier::external_body]
pub struct NalSplitter {
    reader: AnnexBReader<NalAccumulator<Box<dyn FnMut(RefNal<'_>) -> NalInterest + Send>>>,
}

/// The chunks that a splitter has been given, in order.
pub uninterp spec fn pushed(splitter: NalSplitter) -> Seq<Seq<u8>>;

/// The NAL units that `AnnexBReader::push` reports for `chunk` when the chunks `before` went
/// through the reader first and every unit is buffered until its end. A unit that goes on past the
/// chunk is reported as far as it is known, and again with a later chunk.
pub uninterp spec fn reported_units(before: Seq<Seq<u8>>, chunk: Seq<u8>) -> Seq<NalModel>;

/// What is known of each unit.
pub open spec fn models(units: Seq<NalUnit>) -> Seq<NalModel> {
    Seq::new(units.len(), |i: int| units[i]@)
}

impl NalSplitter {
    /// Calls `AnnexBReader::accumulate`: the reader has been given nothing.
    #[verifier::external_body]
    pub(crate) fn new() -> (splitter: NalSplitter)
        ensures
            pushed(splitter) == Seq::<Seq<u8>>::empty(),
    {
        let buffer_all = |_nal: RefNal<'_>| NalInterest::Buffer;
        NalSplitter { reader: AnnexBReader::accumulate(Box::new(buffer_all)) }
    }

    /// Calls `AnnexBReader::push`, which reports the units of the chunk in the order of the stream.
    /// What it reports is a function of this chunk and the ones before. Every unit has a first byte
    /// and no empty piece.
    #[verifier::external_body]
    pub(crate) fn push(&mut self, chunk: &[u8]) -> (units: Vec<NalUnit>)
        ensures
            pushed(*final(self)) == pushed(*old(self)).push(chunk@),
            models(units@) == reported_units(pushed(*old(self)), chunk@),
            forall|i: int| 0 <= i < units@.len() ==> (#[trigger] units@[i])@.well_formed(),
    {
        let (sender, units) = channel();
        *self.reader.nal_handler_mut() = Box::new(move |nal: RefNal<'_>| {
            let _ = sender.send(bitstream::collect(&nal));
            NalInterest::Buffer
        });
        self.reader.push(chunk);
        units.try_iter().collect()
    }
}

/// There is one model per unit, and each is that of its unit.
pub proof fn law_models_are_of_the_units(units: Seq<NalUnit>)
    ensures
        models(units).len() == units.len(),
        forall|i: int| 0 <= i < units.len() ==> #[trigger] models(units)[i] == units[i]@,
{
}

} // verus!
