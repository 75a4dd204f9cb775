//! What holds of every H.264 stream import.
use super::h264::{self, FrameModel, H264ParserError, InitModel, ReadModel};
use crate::annexb;
use crate::bitstream::{self, NalKind, NalModel, ParamSets, SliceKind};
use crate::buffers;
use crate::clock;
use h264_reader::nal::pps::PicParameterSet;
use h264_reader::nal::sps::SeqParameterSet;
use std::time::Instant;
use vstd::prelude::*;

verus! {

/// Every report is of a NAL unit with a header.
pub open spec fn all_well_formed(nals: Seq<NalModel>) -> bool {
    forall|i: int| 0 <= i < nals.len() ==> (#[trigger] nals[i]).well_formed()
}

/// The search for parameter sets finds the same whether reports come in one
/// batch or in two.
pub proof fn law_init_in_batches(m: InitModel, front: Seq<NalModel>, back: Seq<NalModel>)
    ensures
        h264::init_units(m, front + back) == h264::init_units(h264::init_units(m, front), back),
    decreases back.len(),
{
    if back.len() == 0 {
        assert(front + back == front);
    } else {
        law_init_in_batches(m, front, back.drop_last());
        assert((front + back).drop_last() == front + back.drop_last());
        assert((front + back).last() == back.last());
    }
}

/// What the search has found it does not lose: parameter sets keep their ids taken, and a known
/// codec stays known. A search that has ended does not start again.
pub proof fn law_init_progress_stays(m: InitModel, nals: Seq<NalModel>)
    ensures
        ({
            let found = h264::init_units(m, nals);
            &&& m.codec is Some ==> found.codec is Some
            &&& !m.searching() ==> !found.searching()
            &&& m.sets.sps.dom().subset_of(found.sets.sps.dom())
            &&& m.sets.pps.dom().subset_of(found.sets.pps.dom())
            &&& found.pushed == m.pushed
        }),
    decreases nals.len(),
{
    if nals.len() > 0 {
        law_init_progress_stays(m, nals.drop_last());
    }
}

/// Whether a report gives the codec: it ends a sequence parameter set that can be used.
pub open spec fn gives_codec(m: InitModel, nal: NalModel) -> bool {
    &&& !m.ignoring
    &&& bitstream::kind_of_header(nal.header()) == Some(NalKind::Sps)
    &&& h264::complete_sps(nal) is Some
}

/// A codec is found exactly when some report gives it: the import fails at the end of a stream only
/// where no sequence parameter set that can be used has ended.
pub proof fn law_codec_found_iff_given(m: InitModel, nals: Seq<NalModel>)
    requires
        m.codec is None,
    ensures
        h264::init_units(m, nals).codec is Some <==> exists|i: int|
            0 <= i < nals.len() && #[trigger] gives_codec(h264::init_units(m, nals.take(i)), nals[i]),
    decreases nals.len(),
{
    if nals.len() > 0 {
        let front = nals.drop_last();
        law_codec_found_iff_given(m, front);
        law_init_progress_stays(h264::init_units(m, front), seq![nals.last()]);
        assert forall|i: int| 0 <= i < front.len() implies front.take(i) == nals.take(i) by {}
        let last = nals.len() - 1;
        assert(nals.take(last) == front);
        if h264::init_units(m, front).codec is Some {
            let i = choose|i: int|
                0 <= i < front.len() && #[trigger] gives_codec(
                    h264::init_units(m, front.take(i)),
                    front[i],
                );
            assert(front.take(i) == nals.take(i));
            assert(gives_codec(h264::init_units(m, nals.take(i)), nals[i]));
        } else if h264::init_units(m, nals).codec is Some {
            assert(gives_codec(h264::init_units(m, nals.take(last)), nals[last]));
        } else {
            assert forall|i: int| 0 <= i < nals.len() implies !#[trigger] gives_codec(
                h264::init_units(m, nals.take(i)),
                nals[i],
            ) by {
                if i < last {
                    assert(front.take(i) == nals.take(i));
                    assert(!gives_codec(h264::init_units(m, front.take(i)), front[i]));
                }
            }
        }
    }
}

/// A parameter set may arrive in any number of reports: the search waits for its end. Until then it
/// is as it was.
pub proof fn law_init_waits_for_the_end(m: InitModel, part: NalModel)
    requires
        !m.ignoring,
        !part.complete,
        bitstream::kind_of_header(part.header()) == Some(NalKind::Sps)
            || bitstream::kind_of_header(part.header()) == Some(NalKind::Pps),
    ensures
        h264::init_unit(m, part) == m,
{
}

/// What reading gathers is the same whether reports come in one batch or in two.
pub proof fn law_read_in_batches(m: ReadModel, front: Seq<NalModel>, back: Seq<NalModel>)
    ensures
        h264::read_units(m, front + back) == h264::read_units(h264::read_units(m, front), back),
    decreases back.len(),
{
    if back.len() == 0 {
        assert(front + back == front);
    } else {
        law_read_in_batches(m, front, back.drop_last());
        assert((front + back).drop_last() == front + back.drop_last());
        assert((front + back).last() == back.last());
    }
}

/// The frames of two batches of reports are the frames of the first, then those of the second.
pub proof fn law_frames_in_batches(
    m: ReadModel,
    sets: ParamSets,
    front: Seq<NalModel>,
    back: Seq<NalModel>,
    front_clock: Seq<u128>,
    back_clock: Seq<u128>,
)
    requires
        front_clock.len() == front.len(),
        back_clock.len() == back.len(),
    ensures
        h264::frames_of(m, sets, front + back, front_clock + back_clock) == h264::frames_of(
            m,
            sets,
            front,
            front_clock,
        ) + h264::frames_of(h264::read_units(m, front), sets, back, back_clock),
    decreases back.len(),
{
    if back.len() == 0 {
        assert(front + back == front);
        assert(front_clock + back_clock == front_clock);
    } else {
        let short = back.drop_last();
        let clock = front_clock + back_clock;
        law_frames_in_batches(m, sets, front, short, front_clock, back_clock.drop_last());
        law_read_in_batches(m, front, short);
        assert((front + back).drop_last() == front + short);
        assert((front + back).last() == back.last());
        assert(clock[front.len() + back.len() - 1] == back_clock[back.len() - 1]);
        h264::lemma_frames_of_clock(
            m,
            sets,
            front + short,
            front_clock + back_clock.drop_last(),
            clock,
        );
        h264::lemma_frames_of_clock(
            h264::read_units(m, front),
            sets,
            short,
            back_clock.drop_last(),
            back_clock,
        );
    }
}

/// A NAL unit that has not ended gives no frame and leaves what was gathered as it is: at most it
/// is set aside as being of no interest.
pub proof fn law_incomplete_is_inert(m: ReadModel, sets: ParamSets, nal: NalModel, micros: u128)
    requires
        !nal.complete,
    ensures
        h264::frame_of(m, sets, nal, micros) is None,
        h264::read_unit(m, nal) == (ReadModel {
            ignoring: h264::read_unit(m, nal).ignoring,
            ..m
        }),
{
}

/// A NAL unit is set aside to its end: once it has ended, the next one is looked at.
pub proof fn law_complete_ends_ignoring(m: ReadModel, nal: NalModel)
    requires
        nal.complete,
    ensures
        !h264::read_unit(m, nal).ignoring,
{
}

/// Parameter sets once gathered stay at hand, a first keyframe once seen stays seen, and after the
/// first keyframe both parameter sets are at hand.
pub proof fn law_progress_stays(m: ReadModel, nals: Seq<NalModel>)
    requires
        m.well_formed(),
        all_well_formed(nals),
    ensures
        h264::read_units(m, nals).well_formed(),
        m.has_sets() ==> h264::read_units(m, nals).has_sets(),
        m.first_keyframe ==> h264::read_units(m, nals).first_keyframe,
        h264::read_units(m, nals).pushed == m.pushed,
    decreases nals.len(),
{
    if nals.len() > 0 {
        law_progress_stays(m, nals.drop_last());
        bitstream::law_unit_is_kept_whole(nals.last());
    }
}

/// The frame of a report: a keyframe holds both parameter sets and the slice, each behind a start
/// code; another frame holds the slice behind a start code.
pub proof fn law_frame_layout(m: ReadModel, sets: ParamSets, nal: NalModel, micros: u128)
    ensures
        h264::frame_of(m, sets, nal, micros) matches Some(frame) ==> {
            let code = h264::start_code();
            let slice = bitstream::nal_bytes(nal);
            &&& nal.complete
            &&& frame.timestamp_micros == h264::timestamp(micros)
            &&& frame.payload.take(4) == code
            &&& frame.keyframe ==> {
                &&& m.has_sets()
                &&& frame.payload == code + m.sps + code + m.pps + code + slice
            }
            &&& !frame.keyframe ==> frame.payload == code + slice
        },
{
    if let Some(frame) = h264::frame_of(m, sets, nal, micros) {
        assert(frame.payload.take(4) == h264::start_code());
    }
}

/// An IDR slice gives a keyframe whenever both parameter sets are at hand.
pub proof fn law_idr_gives_keyframe(m: ReadModel, sets: ParamSets, nal: NalModel, micros: u128)
    requires
        nal.complete,
        !m.ignoring,
        m.has_sets(),
        bitstream::kind_of_header(nal.header()) == Some(NalKind::IdrSlice),
    ensures
        h264::frame_of(m, sets, nal, micros) matches Some(frame) && frame.keyframe,
        h264::read_unit(m, nal).first_keyframe,
{
}

/// The first frame is a keyframe, and it takes a complete IDR slice that finds both parameter sets
/// for a frame to be made at all.
pub proof fn law_first_frame_is_keyframe(
    m: ReadModel,
    sets: ParamSets,
    nals: Seq<NalModel>,
    clock: Seq<u128>,
)
    requires
        !m.first_keyframe,
    ensures
        h264::frames_of(m, sets, nals, clock).len() > 0 ==> {
            &&& h264::frames_of(m, sets, nals, clock)[0].keyframe
            &&& h264::read_units(m, nals).first_keyframe
            &&& exists|i: int|
                0 <= i < nals.len() && #[trigger] opens_stream(h264::read_units(m, nals.take(i)), nals[i])
        },
        h264::read_units(m, nals).first_keyframe ==> h264::frames_of(m, sets, nals, clock).len()
            > 0,
    decreases nals.len(),
{
    if nals.len() > 0 {
        let front = nals.drop_last();
        law_first_frame_is_keyframe(m, sets, front, clock);
        let frames = h264::frames_of(m, sets, nals, clock);
        if h264::frames_of(m, sets, front, clock).len() > 0 {
            let i = choose|i: int|
                0 <= i < front.len() && #[trigger] opens_stream(
                    h264::read_units(m, front.take(i)),
                    front[i],
                );
            assert(front.take(i) == nals.take(i));
            assert(opens_stream(h264::read_units(m, nals.take(i)), nals[i]));
        } else if frames.len() > 0 {
            let i = nals.len() - 1;
            assert(nals.take(i) == front);
            assert(opens_stream(h264::read_units(m, nals.take(i)), nals[i]));
        }
    }
}

/// A complete IDR slice that finds both parameter sets.
pub open spec fn opens_stream(m: ReadModel, nal: NalModel) -> bool {
    &&& nal.complete
    &&& !m.ignoring
    &&& m.has_sets()
    &&& bitstream::kind_of_header(nal.header()) == Some(NalKind::IdrSlice)
}

/// A stream without an IDR slice gives no frame.
pub proof fn law_no_frame_without_idr(
    m: ReadModel,
    sets: ParamSets,
    nals: Seq<NalModel>,
    clock: Seq<u128>,
)
    requires
        !m.first_keyframe,
        forall|i: int|
            0 <= i < nals.len() ==> bitstream::kind_of_header((#[trigger] nals[i]).header()) != Some(
                NalKind::IdrSlice,
            ),
    ensures
        h264::frames_of(m, sets, nals, clock).len() == 0,
{
    law_first_frame_is_keyframe(m, sets, nals, clock);
}

/// Timestamps that never go down in one chunk, nor in the next, never go down over both.
pub proof fn law_timestamps_across_chunks(
    front: Seq<FrameModel>,
    back: Seq<FrameModel>,
    start: u128,
    between: u128,
    end: u128,
)
    requires
        h264::stamped_in_order(front, start, between),
        h264::stamped_in_order(back, between, end),
    ensures
        h264::stamped_in_order(front + back, start, end),
{
    if end <= u64::MAX {
        let both = front + back;
        assert forall|i: int| 0 <= i < both.len() implies start <= (
        #[trigger] both[i]).timestamp_micros <= end by {
            if i < front.len() {
                assert(both[i] == front[i]);
            } else {
                assert(both[i] == back[i - front.len()]);
            }
        }
        assert forall|i: int, j: int| 0 <= i <= j < both.len() implies (
        #[trigger] both[i]).timestamp_micros <= (#[trigger] both[j]).timestamp_micros by {
            if j < front.len() {
                assert(both[i] == front[i] && both[j] == front[j]);
            } else if i >= front.len() {
                assert(both[i] == back[i - front.len()] && both[j] == back[j - front.len()]);
            } else {
                assert(both[i] == front[i] && both[j] == back[j - front.len()]);
            }
        }
    }
}

/// What can become of an import with one call.
pub enum ImportStep {
    /// It stays as it is: the search goes on, a call fails, or frames are read.
    Unchanged,
    /// The search ends and the codec is noted.
    Noted(h264::H264),
    /// The track is published.
    Published(ParamSets),
}

/// An import after one call.
pub open spec fn import_step(m: h264::ImportModel, step: ImportStep) -> h264::ImportModel {
    match step {
        ImportStep::Unchanged => m,
        ImportStep::Noted(codec) => m.noted(codec),
        ImportStep::Published(sets) => m.holding(sets),
    }
}

/// An import after one call after the other.
pub open spec fn import_after(m: h264::ImportModel, steps: Seq<ImportStep>) -> h264::ImportModel
    decreases steps.len(),
{
    if steps.len() == 0 {
        m
    } else {
        import_step(import_after(m, steps.drop_last()), steps.last())
    }
}

/// Whether a track was published only where a codec was noted, as
/// [`h264::PublishRequest::published`] asks.
pub open spec fn import_proper(m: h264::ImportModel, steps: Seq<ImportStep>) -> bool
    decreases steps.len(),
{
    steps.len() > 0 ==> {
        &&& import_proper(m, steps.drop_last())
        &&& steps.last() is Published ==> import_after(m, steps.drop_last()).codec is Some
    }
}

/// Whatever is done with an import, it holds parameter sets only with a codec, and it keeps its
/// width and height.
pub proof fn law_sets_only_with_codec(width: u32, height: u32, steps: Seq<ImportStep>)
    requires
        import_proper(h264::import_start(width, height), steps),
    ensures
        ({
            let m = import_after(h264::import_start(width, height), steps);
            &&& m.well_formed()
            &&& m.sets is Some ==> m.codec is Some
            &&& m.width == width
            &&& m.height == height
        }),
    decreases steps.len(),
{
    if steps.len() > 0 {
        law_sets_only_with_codec(width, height, steps.drop_last());
    }
}

/// Reading after one chunk after the other; `lasts[i]` is the latest clock reading after the `i`-th.
pub open spec fn read_chunks(m: ReadModel, chunks: Seq<Seq<u8>>, lasts: Seq<u128>) -> ReadModel
    decreases chunks.len(),
{
    if chunks.len() == 0 {
        m
    } else {
        ReadModel {
            last_micros: lasts[chunks.len() - 1],
            ..h264::read_chunk(read_chunks(m, chunks.drop_last(), lasts), chunks.last())
        }
    }
}

/// The frames that one chunk after the other gives, the `i`-th at the clock readings `clocks[i]`.
pub open spec fn stream_frames(
    m: ReadModel,
    sets: ParamSets,
    chunks: Seq<Seq<u8>>,
    clocks: Seq<Seq<u128>>,
    lasts: Seq<u128>,
) -> Seq<FrameModel>
    decreases chunks.len(),
{
    if chunks.len() == 0 {
        Seq::empty()
    } else {
        stream_frames(m, sets, chunks.drop_last(), clocks, lasts) + h264::chunk_frames(
            read_chunks(m, chunks.drop_last(), lasts),
            sets,
            chunks.last(),
            clocks[chunks.len() - 1],
        )
    }
}

/// Whether there is a clock reading per report, and the readings run on from chunk to chunk.
pub open spec fn clocks_run(
    m: ReadModel,
    chunks: Seq<Seq<u8>>,
    clocks: Seq<Seq<u128>>,
    lasts: Seq<u128>,
) -> bool
    decreases chunks.len(),
{
    chunks.len() > 0 ==> {
        let front = read_chunks(m, chunks.drop_last(), lasts);
        let clock = clocks[chunks.len() - 1];
        &&& clocks_run(m, chunks.drop_last(), clocks, lasts)
        &&& clock.len() == annexb::reported_units(front.pushed, chunks.last()).len()
        &&& h264::clock_runs(clock, front.last_micros, lasts[chunks.len() - 1])
    }
}

/// However a stream is cut into chunks, the first frame of all is a keyframe, and there are frames
/// exactly when a first keyframe was seen.
pub proof fn law_stream_opens_with_keyframe(
    start: Instant,
    sets: ParamSets,
    chunks: Seq<Seq<u8>>,
    clocks: Seq<Seq<u128>>,
    lasts: Seq<u128>,
)
    ensures
        ({
            let frames = stream_frames(h264::read_start(start), sets, chunks, clocks, lasts);
            &&& frames.len() > 0 <==> read_chunks(
                h264::read_start(start),
                chunks,
                lasts,
            ).first_keyframe
            &&& frames.len() > 0 ==> frames[0].keyframe
        }),
    decreases chunks.len(),
{
    if chunks.len() > 0 {
        let front = chunks.drop_last();
        law_stream_opens_with_keyframe(start, sets, front, clocks, lasts);
        let m = read_chunks(h264::read_start(start), front, lasts);
        let nals = annexb::reported_units(m.pushed, chunks.last());
        let clock = clocks[chunks.len() - 1];
        if m.first_keyframe {
            lemma_keyframe_stays(m, nals);
        } else {
            law_first_frame_is_keyframe(m, sets, nals, clock);
        }
    }
}

/// However a stream is cut into chunks, timestamps never go down over all of it, as long as 64 bits
/// hold the clock.
pub proof fn law_stream_in_order(
    start: Instant,
    sets: ParamSets,
    chunks: Seq<Seq<u8>>,
    clocks: Seq<Seq<u128>>,
    lasts: Seq<u128>,
)
    requires
        clocks_run(h264::read_start(start), chunks, clocks, lasts),
    ensures
        h264::stamped_in_order(
            stream_frames(h264::read_start(start), sets, chunks, clocks, lasts),
            0,
            read_chunks(h264::read_start(start), chunks, lasts).last_micros,
        ),
    decreases chunks.len(),
{
    if chunks.len() > 0 {
        let front = chunks.drop_last();
        law_stream_in_order(start, sets, front, clocks, lasts);
        let m = read_chunks(h264::read_start(start), front, lasts);
        let nals = annexb::reported_units(m.pushed, chunks.last());
        let clock = clocks[chunks.len() - 1];
        let last = lasts[chunks.len() - 1];
        h264::lemma_stamped_in_order(m, sets, nals, clock, m.last_micros, last);
        law_timestamps_across_chunks(
            stream_frames(h264::read_start(start), sets, front, clocks, lasts),
            h264::chunk_frames(m, sets, chunks.last(), clock),
            0,
            m.last_micros,
            last,
        );
    }
}

proof fn lemma_keyframe_stays(m: ReadModel, nals: Seq<NalModel>)
    requires
        m.first_keyframe,
    ensures
        h264::read_units(m, nals).first_keyframe,
    decreases nals.len(),
{
    if nals.len() > 0 {
        lemma_keyframe_stays(m, nals.drop_last());
    }
}

/// A frame is made of exactly the complete units that are not passed over and hold an IDR slice that
/// finds both parameter sets, or another slice that can be read, of any family, after the first
/// keyframe.
pub proof fn law_which_units_make_frames(m: ReadModel, sets: ParamSets, nal: NalModel, micros: u128)
    ensures
        h264::frame_of(m, sets, nal, micros) is Some <==> {
            &&& nal.complete
            &&& !m.ignoring
            &&& nal.header() & 0x80 == 0
            &&& {
                ||| nal.header() & 0x1f == 5 && m.sps.len() > 0 && m.pps.len() > 0
                ||| nal.header() & 0x1f == 1 && m.first_keyframe && match bitstream::slice_of(
                    sets,
                    nal,
                ) {
                    Some(kind) => kind != SliceKind::I || (m.sps.len() > 0 && m.pps.len() > 0),
                    None => false,
                }
            }
        },
{
}

/// After the first keyframe, every complete slice of another than an IDR picture whose header can be
/// read makes one frame, whatever its family. It is a keyframe exactly when the family is I; of any
/// other family, the frame is a start code and the bytes of the unit.
pub proof fn law_every_slice_makes_a_frame(
    m: ReadModel,
    sets: ParamSets,
    nal: NalModel,
    micros: u128,
    kind: SliceKind,
)
    requires
        m.first_keyframe,
        m.sps.len() > 0,
        m.pps.len() > 0,
        !m.ignoring,
        nal.complete,
        nal.header() & 0x80 == 0,
        nal.header() & 0x1f == 1,
        bitstream::slice_of(sets, nal) == Some(kind),
    ensures
        h264::frame_of(m, sets, nal, micros) matches Some(frame) && {
            &&& frame.keyframe <==> kind == SliceKind::I
            &&& kind != SliceKind::I ==> frame.payload == seq![0u8, 0u8, 0u8, 1u8]
                + nal.chunks.flatten()
        },
{
}

/// What a frame holds: its time in microseconds as far as 64 bits hold it, whether it stands alone,
/// and its units behind start codes, with the parameter sets in front exactly when it stands alone.
/// Only an IDR slice or a slice of the family I stands alone.
pub proof fn law_what_a_frame_holds(m: ReadModel, sets: ParamSets, nal: NalModel, micros: u128)
    ensures
        h264::frame_of(m, sets, nal, micros) matches Some(frame) ==> {
            let code = seq![0u8, 0u8, 0u8, 1u8];
            &&& (micros - frame.timestamp_micros) % 0x1_0000_0000_0000_0000 == 0
            &&& micros <= u64::MAX ==> frame.timestamp_micros == micros
            &&& frame.keyframe <==> (nal.header() & 0x1f == 5 || bitstream::slice_of(sets, nal)
                == Some(SliceKind::I))
            &&& frame.keyframe ==> frame.payload == code + m.sps + code + m.pps + code
                + nal.chunks.flatten()
            &&& !frame.keyframe ==> frame.payload == code + nal.chunks.flatten()
        },
{
}

/// What a unit leaves behind in reading. A complete parameter set replaces the one of its kind. A
/// complete IDR slice that finds both sets is a first keyframe. A unit is passed over to its end when
/// its header is refused or it is neither a slice nor a parameter set. Nothing else changes.
pub proof fn law_what_a_unit_leaves(m: ReadModel, nal: NalModel)
    ensures
        ({
            let after = h264::read_unit(m, nal);
            let seen = !m.ignoring && nal.complete && nal.header() & 0x80 == 0;
            let unit_type = nal.header() & 0x1f;
            &&& after.sps == (if seen && unit_type == 7 {
                nal.chunks.flatten()
            } else {
                m.sps
            })
            &&& after.pps == (if seen && unit_type == 8 {
                nal.chunks.flatten()
            } else {
                m.pps
            })
            &&& after.first_keyframe == (m.first_keyframe || (seen && unit_type == 5 && m.sps.len()
                > 0 && m.pps.len() > 0))
            &&& after.ignoring == (!nal.complete && (m.ignoring || nal.header() & 0x80 != 0 || !(
            unit_type == 1 || unit_type == 5 || unit_type == 7 || unit_type == 8)))
            &&& after.pushed == m.pushed
            &&& after.start == m.start
            &&& after.last_micros == m.last_micros
        }),
{
}

/// One report makes the frame that its unit makes and leaves what its unit leaves; no report makes
/// and changes nothing.
pub proof fn law_one_report_at_a_time(m: ReadModel, sets: ParamSets, nal: NalModel, micros: u128)
    ensures
        h264::read_units(m, Seq::empty()) == m,
        h264::frames_of(m, sets, Seq::empty(), Seq::empty()) == Seq::<FrameModel>::empty(),
        h264::read_units(m, seq![nal]) == h264::read_unit(m, nal),
        h264::frames_of(m, sets, seq![nal], seq![micros]) == (match h264::frame_of(
            m,
            sets,
            nal,
            micros,
        ) {
            Some(frame) => seq![frame],
            None => Seq::<FrameModel>::empty(),
        }),
{
    let nals = seq![nal];
    assert(nals.drop_last() == Seq::<NalModel>::empty());
    assert(h264::read_units(m, nals.drop_last()) == m);
    assert(h264::frames_of(m, sets, nals.drop_last(), seq![micros]) == Seq::<FrameModel>::empty());
    assert(seq![micros][0] == micros);
    match h264::frame_of(m, sets, nal, micros) {
        Some(frame) => {
            assert(Seq::<FrameModel>::empty().push(frame) == seq![frame]);
        },
        None => {},
    }
}

/// A chunk is noted behind the chunks before it, and what it does is what the units do that the
/// splitter reports for it.
pub proof fn law_a_chunk_is_its_units(
    m: ReadModel,
    sets: ParamSets,
    chunk: Seq<u8>,
    clock: Seq<u128>,
)
    ensures
        ({
            let after = h264::read_chunk(m, chunk);
            let units = h264::read_units(m, annexb::reported_units(m.pushed, chunk));
            &&& after.pushed == m.pushed.push(chunk)
            &&& after.sps == units.sps
            &&& after.pps == units.pps
            &&& after.first_keyframe == units.first_keyframe
            &&& after.ignoring == units.ignoring
            &&& after.start == m.start
        }),
        h264::chunk_frames(m, sets, chunk, clock) == h264::frames_of(
            m,
            sets,
            annexb::reported_units(m.pushed, chunk),
            clock,
        ),
{
    lemma_start_stays(m, annexb::reported_units(m.pushed, chunk));
}

proof fn lemma_start_stays(m: ReadModel, nals: Seq<NalModel>)
    ensures
        h264::read_units(m, nals).start == m.start,
    decreases nals.len(),
{
    if nals.len() > 0 {
        lemma_start_stays(m, nals.drop_last());
    }
}

/// The frames made of a chunk are those of its units, one clock reading per unit. Each reading is what
/// the clock showed, or the one before where it showed less. The readings never go back, start no
/// earlier than the latest one before and end with the latest one after.
#[verifier::rlimit(60)]
#[verifier::spinoff_prover]
pub proof fn law_a_chunk_makes_its_frames(
    frames: Seq<FrameModel>,
    m: ReadModel,
    sets: ParamSets,
    chunk: Seq<u8>,
    last_micros: u128,
)
    requires
        h264::made_from_chunk(frames, m, sets, chunk, last_micros),
    ensures
        exists|clock: Seq<u128>|
            {
                &&& frames == #[trigger] h264::frames_of(
                    m,
                    sets,
                    annexb::reported_units(m.pushed, chunk),
                    clock,
                )
                &&& clock.len() == annexb::reported_units(m.pushed, chunk).len()
                &&& forall|i: int, j: int| 0 <= i <= j < clock.len() ==> clock[i] <= clock[j]
                &&& forall|i: int|
                    0 <= i < clock.len() ==> m.last_micros <= #[trigger] clock[i] <= last_micros
                &&& clock.len() == 0 ==> last_micros == m.last_micros
                &&& forall|i: int|
                    0 <= i < clock.len() ==> exists|now: u128| #[trigger]
                        clock::showed(m.start, now) && now <= #[trigger] clock[i] && (clock[i]
                            == now || clock[i] == (if i == 0 {
                            m.last_micros
                        } else {
                            clock[i - 1]
                        }))
            },
{
    let clock = choose|clock: Seq<u128>| #[trigger]
        h264::chunk_frames(m, sets, chunk, clock) == frames && clock.len()
            == annexb::reported_units(m.pushed, chunk).len() && h264::clock_runs(
            clock,
            m.last_micros,
            last_micros,
        ) && h264::clock_shown(m.start, m.last_micros, clock);
    assert forall|i: int| 0 <= i < clock.len() implies exists|now: u128| #[trigger]
        clock::showed(m.start, now) && now <= #[trigger] clock[i] && (clock[i] == now || clock[i] == (
        if i == 0 {
            m.last_micros
        } else {
            clock[i - 1]
        })) by {
        assert(h264::reading_shown(
            m.start,
            (if i == 0 {
                m.last_micros
            } else {
                clock[i - 1]
            }),
            clock[i],
        ));
    }
    assert(frames == h264::frames_of(m, sets, annexb::reported_units(m.pushed, chunk), clock));
    assert forall|i: int| 0 <= i < clock.len() implies m.last_micros <= #[trigger] clock[i]
        <= last_micros by {
        assert(clock[i] <= clock[clock.len() - 1]);
    }
}

/// Frames stamped in order have timestamps that never go down and lie between the two readings.
pub proof fn law_stamps_never_go_down(
    frames: Seq<FrameModel>,
    from: u128,
    to: u128,
    i: int,
    j: int,
)
    requires
        h264::stamped_in_order(frames, from, to),
        to <= u64::MAX,
        0 <= i <= j < frames.len(),
    ensures
        from <= frames[i].timestamp_micros,
        frames[i].timestamp_micros <= frames[j].timestamp_micros,
        frames[j].timestamp_micros <= to,
{
}

/// A frame is known by what it holds, and a list of frames frame by frame.
pub proof fn law_frames_are_what_they_hold(frames: Seq<h264::Frame>)
    ensures
        h264::frame_models(frames).len() == frames.len(),
        forall|i: int|
            0 <= i < frames.len() ==> {
                let model = #[trigger] h264::frame_models(frames)[i];
                &&& model.timestamp_micros == frames[i].timestamp_micros
                &&& model.keyframe == frames[i].keyframe
                &&& model.payload == buffers::frozen(frames[i].payload)
            },
{
}

/// A run starts with nothing gathered, nothing seen and the clock at zero.
pub proof fn law_reading_starts_empty(start: Instant)
    ensures
        ({
            let m = h264::read_start(start);
            &&& m.sps.len() == 0 && m.pps.len() == 0
            &&& !m.first_keyframe && !m.ignoring
            &&& m.pushed.len() == 0
            &&& m.start == start
            &&& m.last_micros == 0
        }),
{
}

/// A search starts with nothing found.
pub proof fn law_search_starts_empty(id: u8)
    ensures
        ({
            let m = h264::init_start();
            &&& !m.sets.sps.contains_key(id) && !m.sets.pps.contains_key(id)
            &&& m.codec is None
            &&& !m.found_sps && !m.found_pps && !m.ignoring
            &&& m.pushed.len() == 0
            &&& m.searching()
        }),
{
}

/// The search wants more of the stream exactly until it has a parameter set of each kind.
pub proof fn law_search_wants_both_kinds(m: InitModel)
    ensures
        m.searching() <==> (!m.found_sps || !m.found_pps),
{
}

/// What a unit that ends a sequence parameter set does to the search: the set is stored under its id
/// and the codec is, field by field, what the set says.
pub proof fn law_codec_is_what_the_set_says(m: InitModel, nal: NalModel, sps: SeqParameterSet)
    requires
        !m.ignoring,
        nal.complete,
        nal.header() & 0x80 == 0,
        nal.header() & 0x1f == 7,
        bitstream::sps_of(nal) == Some(sps),
    ensures
        ({
            let found = h264::init_unit(m, nal);
            &&& found.codec matches Some(codec)
            &&& codec.profile == bitstream::sps_profile(sps)
            &&& codec.constraints == bitstream::sps_constraints(sps)
            &&& codec.level == bitstream::sps_level(sps)
            &&& found.sets.sps == m.sets.sps.insert(bitstream::sps_id(sps), sps)
            &&& found.sets.pps == m.sets.pps
            &&& found.found_sps
            &&& found.found_pps == m.found_pps
            &&& !found.ignoring
            &&& found.pushed == m.pushed
        }),
{
}

/// What a unit that ends a picture parameter set does to the search: the set is stored under its id.
pub proof fn law_picture_set_is_stored(m: InitModel, nal: NalModel, pps: PicParameterSet)
    requires
        !m.ignoring,
        nal.complete,
        nal.header() & 0x80 == 0,
        nal.header() & 0x1f == 8,
        bitstream::pps_of(m.sets.sps, nal) == Some(pps),
    ensures
        ({
            let found = h264::init_unit(m, nal);
            &&& found.sets.pps == m.sets.pps.insert(bitstream::pps_id(pps), pps)
            &&& found.sets.sps == m.sets.sps
            &&& found.codec == m.codec
            &&& found.found_pps
            &&& found.found_sps == m.found_sps
            &&& !found.ignoring
            &&& found.pushed == m.pushed
        }),
{
}

/// A unit that does not end a parameter set that can be read changes nothing of what was found. It is
/// passed over to its end when its header is refused or it is no parameter set.
pub proof fn law_other_units_find_nothing(m: InitModel, nal: NalModel)
    requires
        m.ignoring || !nal.complete || nal.header() & 0x80 != 0 || !(nal.header() & 0x1f == 7
            && bitstream::sps_of(nal) is Some || nal.header() & 0x1f == 8 && bitstream::pps_of(
            m.sets.sps,
            nal,
        ) is Some),
    ensures
        ({
            let found = h264::init_unit(m, nal);
            let unit_type = nal.header() & 0x1f;
            &&& found.sets == m.sets
            &&& found.codec == m.codec
            &&& found.found_sps == m.found_sps
            &&& found.found_pps == m.found_pps
            &&& found.pushed == m.pushed
            &&& found.ignoring == (!nal.complete && (m.ignoring || nal.header() & 0x80 != 0 || !(
            unit_type == 7 || unit_type == 8)))
        }),
{
}

/// One report does to the search what its unit does, no report does nothing, and a chunk does what
/// the units do that the splitter reports for it.
pub proof fn law_search_by_units(m: InitModel, nal: NalModel, chunk: Seq<u8>)
    ensures
        h264::init_units(m, Seq::empty()) == m,
        h264::init_units(m, seq![nal]) == h264::init_unit(m, nal),
        ({
            let after = h264::init_chunk(m, chunk);
            let units = h264::init_units(m, annexb::reported_units(m.pushed, chunk));
            &&& after.pushed == m.pushed.push(chunk)
            &&& after.sets == units.sets
            &&& after.codec == units.codec
            &&& after.found_sps == units.found_sps
            &&& after.found_pps == units.found_pps
            &&& after.ignoring == units.ignoring
        }),
{
    assert(seq![nal].drop_last() == Seq::<NalModel>::empty());
    assert(h264::init_units(m, seq![nal].drop_last()) == m);
}

/// The track that is announced: the name `video0`, priority two, the codec of the stream, the size of
/// the import, and nothing else.
pub proof fn law_what_is_announced(
    video: h264::Video,
    codec: h264::H264,
    width: u32,
    height: u32,
)
    requires
        video.announces(codec, width, height),
    ensures
        video.track.name@ == seq!['v', 'i', 'd', 'e', 'o', '0'],
        video.track.priority == 2,
        video.codec.profile == codec.profile,
        video.codec.constraints == codec.constraints,
        video.codec.level == codec.level,
        video.resolution.width == width,
        video.resolution.height == height,
        video.description is None,
        video.bitrate is None,
{
    reveal_strlit("video0");
    assert(video.track.name@ == seq!['v', 'i', 'd', 'e', 'o', '0']);
}

/// Noting a codec and publishing a track each set one thing; frames can be read once both are done.
pub proof fn law_import_becomes_ready(m: h264::ImportModel, codec: h264::H264, sets: ParamSets)
    ensures
        m.noted(codec).codec == Some(codec),
        m.noted(codec).sets == m.sets,
        m.noted(codec).width == m.width && m.noted(codec).height == m.height,
        m.holding(sets).sets == Some(sets),
        m.holding(sets).codec == m.codec,
        m.holding(sets).width == m.width && m.holding(sets).height == m.height,
        m.noted(codec).holding(sets).initialized(),
        m.initialized() <==> m.codec is Some && m.sets is Some,
{
}

/// An import starts with its size and nothing else.
pub proof fn law_import_starts_empty(width: u32, height: u32)
    ensures
        ({
            let m = h264::import_start(width, height);
            &&& m.codec is None && m.sets is None && !m.initialized()
            &&& m.width == width && m.height == height
        }),
{
}

/// The message of an error is a text for its kind and then its detail, unchanged.
pub proof fn law_error_texts(detail: String)
    ensures
        h264::ImportError::Parser(H264ParserError::NalHeaderError(detail)).text()
            == "Failed to parse NAL header: "@ + detail@,
        h264::ImportError::Parser(H264ParserError::SpsParseError(detail)).text()
            == "Failed to parse SPS: "@ + detail@,
        h264::ImportError::Parser(H264ParserError::PpsParseError(detail)).text()
            == "Failed to parse PPS: "@ + detail@,
        h264::ImportError::Parser(H264ParserError::NalReadError(detail)).text()
            == "Failed to read NAL: "@ + detail@,
        h264::ImportError::Parser(H264ParserError::SliceHeaderError(detail)).text()
            == "Failed to parse slice header: "@ + detail@,
        h264::ImportError::Parser(H264ParserError::FrameSendError(detail)).text()
            == "Failed to send frame: "@ + detail@,
        h264::ImportError::Parser(H264ParserError::TrackPublishError(detail)).text()
            == "Failed to publish track: "@ + detail@,
        h264::ImportError::Parser(H264ParserError::LockError(detail)).text() == "Lock error: "@
            + detail@,
        h264::ImportError::NoSps.text() == "Failed to find valid SPS in input!"@,
        h264::ImportError::NotInitialized.text() == "AnnexBImport not initialized"@,
{
}

/// The message of a parser error is the same alone and as the error of an import.
pub proof fn law_parser_error_keeps_its_text(error: H264ParserError)
    ensures
        h264::ImportError::Parser(error).text() == error.prefix() + error.detail(),
{
}

} // verus!
