//! Import of an H.264 Annex B stream into a MoQ broadcast.
//!
//! An import runs in two stages. [`AnnexBStreamImport::init_from`] looks for a sequence parameter
//! set and says which video track to publish. [`AnnexBStreamImport::read_from`] then makes frames
//! of the slices. Both take the stream chunk by chunk; the caller fetches the chunks, publishes the
//! track and writes the frames.
use crate::annexb::{self, NalSplitter};
use crate::bitstream::{self, NalKind, NalModel, NalUnit, ParamSets, ParameterSets, SliceKind};
use crate::buffers;
use crate::clock;
use crate::text;
use bytes::{Bytes, BytesMut};
use h264_reader::nal::pps::PicParameterSet;
use h264_reader::nal::sps::SeqParameterSet;
use std::time::Instant;
use vstd::prelude::*;
use vstd::string::*;

verus! {

/// Errors of H.264 parsing.
#[derive(Debug, PartialEq, Eq)]
pub enum H264ParserError {
    /// A NAL unit header was refused.
    NalHeaderError(String),
    /// A sequence parameter set was refused.
    SpsParseError(String),
    /// A picture parameter set was refused.
    PpsParseError(String),
    /// The data of a NAL unit could not be read.
    NalReadError(String),
    /// A slice header was refused.
    SliceHeaderError(String),
    /// A frame could not be sent to the track.
    FrameSendError(String),
    /// The track could not be published.
    TrackPublishError(String),
    /// The broadcast could not be locked.
    LockError(String),
}

impl H264ParserError {
    /// What the message says before the detail.
    pub open spec fn prefix(self) -> Seq<char> {
        match self {
            H264ParserError::NalHeaderError(_) => "Failed to parse NAL header: "@,
            H264ParserError::SpsParseError(_) => "Failed to parse SPS: "@,
            H264ParserError::PpsParseError(_) => "Failed to parse PPS: "@,
            H264ParserError::NalReadError(_) => "Failed to read NAL: "@,
            H264ParserError::SliceHeaderError(_) => "Failed to parse slice header: "@,
            H264ParserError::FrameSendError(_) => "Failed to send frame: "@,
            H264ParserError::TrackPublishError(_) => "Failed to publish track: "@,
            H264ParserError::LockError(_) => "Lock error: "@,
        }
    }

    /// The detail that the error carries.
    pub open spec fn detail(self) -> Seq<char> {
        match self {
            H264ParserError::NalHeaderError(detail) => detail@,
            H264ParserError::SpsParseError(detail) => detail@,
            H264ParserError::PpsParseError(detail) => detail@,
            H264ParserError::NalReadError(detail) => detail@,
            H264ParserError::SliceHeaderError(detail) => detail@,
            H264ParserError::FrameSendError(detail) => detail@,
            H264ParserError::TrackPublishError(detail) => detail@,
            H264ParserError::LockError(detail) => detail@,
        }
    }

    /// The text of the error.
    pub fn message(&self) -> (r: String)
        ensures
            r@ == self.prefix() + self.detail(),
    {
        match self {
            H264ParserError::NalHeaderError(detail) => text::joined(
                "Failed to parse NAL header: ",
                detail.as_str(),
            ),
            H264ParserError::SpsParseError(detail) => text::joined(
                "Failed to parse SPS: ",
                detail.as_str(),
            ),
            H264ParserError::PpsParseError(detail) => text::joined(
                "Failed to parse PPS: ",
                detail.as_str(),
            ),
            H264ParserError::NalReadError(detail) => text::joined(
                "Failed to read NAL: ",
                detail.as_str(),
            ),
            H264ParserError::SliceHeaderError(detail) => text::joined(
                "Failed to parse slice header: ",
                detail.as_str(),
            ),
            H264ParserError::FrameSendError(detail) => text::joined(
                "Failed to send frame: ",
                detail.as_str(),
            ),
            H264ParserError::TrackPublishError(detail) => text::joined(
                "Failed to publish track: ",
                detail.as_str(),
            ),
            H264ParserError::LockError(detail) => text::joined("Lock error: ", detail.as_str()),
        }
    }
}

/// Why an import stopped.
#[derive(Debug, PartialEq, Eq)]
pub enum ImportError {
    /// The stream ended before a valid sequence parameter set.
    NoSps,
    /// Frames were asked for before the import was initialized.
    NotInitialized,
    /// An error of the parser.
    Parser(H264ParserError),
}

impl ImportError {
    /// What the text of the error is.
    pub open spec fn text(self) -> Seq<char> {
        match self {
            ImportError::NoSps => "Failed to find valid SPS in input!"@,
            ImportError::NotInitialized => "AnnexBImport not initialized"@,
            ImportError::Parser(error) => error.prefix() + error.detail(),
        }
    }

    /// The text of the error.
    pub fn message(&self) -> (r: String)
        ensures
            r@ == self.text(),
    {
        match self {
            ImportError::NoSps => "Failed to find valid SPS in input!".to_owned(),
            ImportError::NotInitialized => "AnnexBImport not initialized".to_owned(),
            ImportError::Parser(error) => error.message(),
        }
    }
}

/// The H.264 codec string of a track: profile, constraints and level.
#[derive(Debug, Clone, Copy, PartialEq, Eq, Structural)]
pub struct H264 {
    pub profile: u8,
    pub constraints: u8,
    pub level: u8,
}

/// Width and height in pixels.
#[derive(Debug, Clone, Copy, PartialEq, Eq, Structural)]
pub struct Dimensions {
    pub width: u32,
    pub height: u32,
}

/// The name of a track and its priority.
#[derive(Debug, PartialEq, Eq)]
pub struct Track {
    pub name: String,
    pub priority: i8,
}

/// A video track as a catalog lists it.
#[derive(Debug, PartialEq, Eq)]
pub struct Video {
    pub track: Track,
    pub codec: H264,
    pub description: Option<Bytes>,
    pub resolution: Dimensions,
    pub bitrate: Option<u64>,
}

impl Video {
    /// Whether this is the track that an import publishes for the codec and the resolution.
    pub open spec fn announces(self, codec: H264, width: u32, height: u32) -> bool {
        &&& self.track.name@ == "video0"@
        &&& self.track.priority == 2
        &&& self.codec == codec
        &&& self.description is None
        &&& self.resolution == (Dimensions { width, height })
        &&& self.bitrate is None
    }
}

/// A frame as it is written to a track.
#[derive(Debug, PartialEq, Eq)]
pub struct Frame {
    /// Microseconds since the import began to read.
    pub timestamp_micros: u64,
    pub keyframe: bool,
    pub payload: Bytes,
}

/// What a frame holds.
pub struct FrameModel {
    pub timestamp_micros: u64,
    pub keyframe: bool,
    pub payload: Seq<u8>,
}

impl View for Frame {
    type V = FrameModel;

    open spec fn view(&self) -> FrameModel {
        FrameModel {
            timestamp_micros: self.timestamp_micros,
            keyframe: self.keyframe,
            payload: buffers::frozen(self.payload),
        }
    }
}

/// The codec that a sequence parameter set stands for.
pub open spec fn codec_of(sps: SeqParameterSet) -> H264 {
    H264 {
        profile: bitstream::sps_profile(sps),
        constraints: bitstream::sps_constraints(sps),
        level: bitstream::sps_level(sps),
    }
}

/// What the search for parameter sets has found.
pub struct InitModel {
    pub sets: ParamSets,
    /// The codec of the last valid sequence parameter set.
    pub codec: Option<H264>,
    pub found_sps: bool,
    pub found_pps: bool,
    /// The current NAL unit was found to be of no interest; its rest is passed over.
    pub ignoring: bool,
    /// The chunks of the stream so far.
    pub pushed: Seq<Seq<u8>>,
}

impl InitModel {
    /// A codec is known exactly when a sequence parameter set was found, and no picture parameter
    /// set is found before.
    pub open spec fn well_formed(self) -> bool {
        &&& self.found_sps <==> self.codec is Some
        &&& self.found_pps ==> self.found_sps
        &&& !self.found_sps ==> self.sets.sps == bitstream::no_sps()
        &&& self.codec matches Some(codec) ==> codec.constraints <= 3
    }

    /// The search goes on until parameter sets of both kinds were found.
    pub open spec fn searching(self) -> bool {
        !(self.found_sps && self.found_pps)
    }
}

/// The state before the first chunk.
pub open spec fn init_start() -> InitModel {
    InitModel {
        sets: ParamSets { sps: bitstream::no_sps(), pps: bitstream::no_pps() },
        codec: None,
        found_sps: false,
        found_pps: false,
        ignoring: false,
        pushed: Seq::empty(),
    }
}

/// A NAL unit of no interest: the rest of it, if any, is passed over.
pub open spec fn init_ignored(m: InitModel, nal: NalModel) -> InitModel {
    InitModel { ignoring: !nal.complete, ..m }
}

/// The sequence parameter set of a unit that has ended.
pub open spec fn complete_sps(nal: NalModel) -> Option<SeqParameterSet> {
    if nal.complete {
        bitstream::sps_of(nal)
    } else {
        None
    }
}

/// The picture parameter set of a unit that has ended.
pub open spec fn complete_pps(sps: Map<u8, SeqParameterSet>, nal: NalModel) -> Option<
    PicParameterSet,
> {
    if nal.complete {
        bitstream::pps_of(sps, nal)
    } else {
        None
    }
}

/// The search after one more report of a NAL unit. A parameter set is read once its unit has ended.
/// A valid sequence parameter set is stored and gives the codec; a valid picture parameter set is
/// stored.
pub open spec fn init_unit(m: InitModel, nal: NalModel) -> InitModel {
    if m.ignoring {
        init_ignored(m, nal)
    } else {
        match bitstream::kind_of_header(nal.header()) {
            Some(NalKind::Sps) => match complete_sps(nal) {
                Some(sps) => InitModel {
                    sets: ParamSets {
                        sps: m.sets.sps.insert(bitstream::sps_id(sps), sps),
                        pps: m.sets.pps,
                    },
                    codec: Some(codec_of(sps)),
                    found_sps: true,
                    ..m
                },
                None => m,
            },
            Some(NalKind::Pps) => match complete_pps(m.sets.sps, nal) {
                Some(pps) => InitModel {
                    sets: ParamSets {
                        sps: m.sets.sps,
                        pps: m.sets.pps.insert(bitstream::pps_id(pps), pps),
                    },
                    found_pps: true,
                    ..m
                },
                None => m,
            },
            _ => init_ignored(m, nal),
        }
    }
}

/// The search after one report after the other.
pub open spec fn init_units(m: InitModel, nals: Seq<NalModel>) -> InitModel
    decreases nals.len(),
{
    if nals.len() == 0 {
        m
    } else {
        init_unit(init_units(m, nals.drop_last()), nals.last())
    }
}

/// The search after one more chunk of the stream.
pub open spec fn init_chunk(m: InitModel, chunk: Seq<u8>) -> InitModel {
    InitModel {
        pushed: m.pushed.push(chunk),
        ..init_units(m, annexb::reported_units(m.pushed, chunk))
    }
}

/// A search for the parameter sets of a stream.
pub struct InitSession {
    sets: ParameterSets,
    codec: Option<H264>,
    found_sps: bool,
    found_pps: bool,
    ignoring: bool,
    splitter: NalSplitter,
}

impl View for InitSession {
    type V = InitModel;

    closed spec fn view(&self) -> InitModel {
        InitModel {
            sets: self.sets@,
            codec: self.codec,
            found_sps: self.found_sps,
            found_pps: self.found_pps,
            ignoring: self.ignoring,
            pushed: annexb::pushed(self.splitter),
        }
    }
}

impl InitSession {
    /// A search that has seen nothing.
    pub fn new() -> (session: InitSession)
        ensures
            session@ == init_start(),
            session@.well_formed(),
    {
        InitSession {
            sets: ParameterSets::new(),
            codec: None,
            found_sps: false,
            found_pps: false,
            ignoring: false,
            splitter: NalSplitter::new(),
        }
    }

    /// Whether more of the stream is wanted.
    pub fn searching(&self) -> (r: bool)
        ensures
            r == self@.searching(),
    {
        !(self.found_sps && self.found_pps)
    }

    /// Takes one report of a NAL unit.
    pub fn observe(&mut self, unit: &NalUnit)
        requires
            old(self)@.well_formed(),
            unit@.well_formed(),
        ensures
            final(self)@ == init_unit(old(self)@, unit@),
            final(self)@.well_formed(),
            !old(self)@.ignoring && unit.complete && unit@.header() & 0x80 == 0 && unit@.header()
                & 0x1f == 7 ==> match bitstream::sps_of(unit@) {
                Some(sps) => {
                    &&& final(self)@.codec matches Some(codec)
                    &&& codec.profile == bitstream::sps_profile(sps)
                    &&& codec.constraints == bitstream::sps_constraints(sps)
                    &&& codec.level == bitstream::sps_level(sps)
                },
                None => final(self)@.codec == old(self)@.codec,
            },
    {
        if self.ignoring {
            self.ignoring = !unit.complete;
            return;
        }
        match unit.kind() {
            Some(NalKind::Sps) => {
                if unit.complete {
                    if let Some(sps) = unit.sps() {
                        let codec = H264 {
                            profile: bitstream::profile_idc(&sps),
                            constraints: bitstream::reserved_zero_two_bits(&sps),
                            level: bitstream::level_idc(&sps),
                        };
                        self.sets.put_sps(sps);
                        self.codec = Some(codec);
                        self.found_sps = true;
                    }
                }
            },
            Some(NalKind::Pps) => {
                if unit.complete {
                    if let Some(pps) = unit.pps(&self.sets) {
                        self.sets.put_pps(pps);
                        self.found_pps = true;
                    }
                }
            },
            _ => {
                self.ignoring = !unit.complete;
            },
        }
    }

    /// Takes one chunk of the stream.
    pub fn push(&mut self, chunk: &[u8])
        requires
            old(self)@.well_formed(),
        ensures
            final(self)@ == init_chunk(old(self)@, chunk@),
            final(self)@.well_formed(),
    {
        let ghost before = self@;
        let units = self.splitter.push(chunk);
        let ghost nals = annexb::reported_units(before.pushed, chunk@);
        let ghost pushed = annexb::pushed(self.splitter);
        let mut i: usize = 0;
        while i < units.len()
            invariant
                i <= units@.len(),
                annexb::models(units@) == nals,
                forall|j: int| 0 <= j < units@.len() ==> (#[trigger] units@[j])@.well_formed(),
                self@ == (InitModel { pushed, ..init_units(before, nals.take(i as int)) }),
                self@.well_formed(),
            decreases units@.len() - i,
        {
            self.observe(&units[i]);
            proof {
                let front = nals.take(i as int + 1);
                assert(front.drop_last() == nals.take(i as int));
                assert(front.last() == units@[i as int]@);
            }
            i = i + 1;
        }
        assert(nals.take(i as int) == nals);
    }
}

/// What an import knows.
pub struct ImportModel {
    pub codec: Option<H264>,
    pub sets: Option<ParamSets>,
    pub width: u32,
    pub height: u32,
}

impl ImportModel {
    /// Frames can be read.
    pub open spec fn initialized(self) -> bool {
        self.codec is Some && self.sets is Some
    }

    /// Parameter sets are held only with a codec.
    pub open spec fn well_formed(self) -> bool {
        self.sets is Some ==> self.codec is Some
    }

    /// The import once the codec of its stream is noted.
    pub open spec fn noted(self, codec: H264) -> ImportModel {
        ImportModel { codec: Some(codec), ..self }
    }

    /// The import once its track is published.
    pub open spec fn holding(self, sets: ParamSets) -> ImportModel {
        ImportModel { sets: Some(sets), ..self }
    }
}

/// An import that has seen nothing.
pub open spec fn import_start(width: u32, height: u32) -> ImportModel {
    ImportModel { codec: None, sets: None, width, height }
}

/// Import of an H.264 Annex B stream into a MoQ broadcast.
pub struct AnnexBStreamImport {
    codec: Option<H264>,
    sets: Option<ParameterSets>,
    width: u32,
    height: u32,
}

impl View for AnnexBStreamImport {
    type V = ImportModel;

    closed spec fn view(&self) -> ImportModel {
        ImportModel {
            codec: self.codec,
            sets: match self.sets {
                Some(sets) => Some(sets@),
                None => None,
            },
            width: self.width,
            height: self.height,
        }
    }
}

/// A track to publish before the import can read frames.
pub struct PublishRequest {
    /// The track.
    pub video: Video,
    /// The parameter sets that the import will read slices against.
    pub sets: ParameterSets,
}

/// What to do next for [`AnnexBStreamImport::init_from`].
pub enum InitAction {
    /// Fetch the next chunk of the stream and hand it in with the session.
    NextInput(InitSession),
    /// Lock the broadcast and publish the track.
    Publish(PublishRequest),
    /// Give up.
    Failed(ImportError),
}

impl AnnexBStreamImport {
    /// An import for a stream of the given size in pixels.
    pub fn new(width: u32, height: u32) -> (import: AnnexBStreamImport)
        ensures
            import@ == import_start(width, height),
            import@.well_formed(),
    {
        AnnexBStreamImport { codec: None, sets: None, width, height }
    }

    /// The codec of the stream, once it is noted.
    pub fn codec(&self) -> (codec: Option<H264>)
        ensures
            codec == self@.codec,
    {
        self.codec
    }

    /// Goes on with the search for parameter sets: `input` is the next chunk of the stream, or
    /// `None` at its end. With parameter sets of both kinds, or at the end of the stream with a
    /// sequence parameter set alone, the codec is noted and the track is to be published. At the end
    /// of the stream without a sequence parameter set the import fails.
    pub fn init_from(&mut self, session: InitSession, input: Option<&[u8]>) -> (action: InitAction)
        requires
            session@.well_formed(),
        ensures
            old(self)@.well_formed() ==> final(self)@.well_formed(),
            ({
                let found = match input {
                    Some(chunk) => init_chunk(session@, chunk@),
                    None => session@,
                };
                match action {
                    InitAction::NextInput(next) => {
                        &&& input is Some && found.searching()
                        &&& next@ == found
                        &&& next@.well_formed()
                        &&& final(self)@ == old(self)@
                    },
                    InitAction::Publish(request) => {
                        &&& input is None || !found.searching()
                        &&& found.codec matches Some(codec)
                        &&& request.video.announces(codec, old(self)@.width, old(self)@.height)
                        &&& request.sets@ == found.sets
                        &&& final(self)@ == old(self)@.noted(codec)
                    },
                    InitAction::Failed(error) => {
                        &&& input is None
                        &&& found.codec is None
                        &&& error == ImportError::NoSps
                        &&& final(self)@ == old(self)@
                    },
                }
            }),
    {
        let mut session = session;
        if let Some(chunk) = input {
            session.push(chunk);
            if session.searching() {
                return InitAction::NextInput(session);
            }
        }
        match session.codec {
            Some(codec) => {
                self.codec = Some(codec);
                let video = Video {
                    track: Track { name: "video0".to_owned(), priority: 2 },
                    codec,
                    description: None,
                    resolution: Dimensions { width: self.width, height: self.height },
                    bitrate: None,
                };
                InitAction::Publish(PublishRequest { video, sets: session.sets })
            },
            None => InitAction::Failed(ImportError::NoSps),
        }
    }
}

impl PublishRequest {
    /// Takes the answer to locking the broadcast; on failure, its text.
    pub fn locked(self, reply: Result<(), String>) -> (r: Result<PublishRequest, ImportError>)
        ensures
            match reply {
                Ok(_) => r == Ok::<PublishRequest, ImportError>(self),
                Err(detail) => r matches Err(ImportError::Parser(H264ParserError::LockError(text)))
                    && text@ == detail@,
            },
    {
        match reply {
            Ok(_) => Ok(self),
            Err(detail) => Err(ImportError::Parser(H264ParserError::LockError(detail))),
        }
    }

    /// Takes the answer to publishing the track; on failure, its text. With the track published the
    /// import, whose codec is noted by then, holds the parameter sets.
    pub fn published(self, import: &mut AnnexBStreamImport, reply: Result<(), String>) -> (r: Result<
        (),
        ImportError,
    >)
        requires
            old(import)@.codec is Some,
        ensures
            old(import)@.well_formed() ==> final(import)@.well_formed(),
            match reply {
                Ok(_) => {
                    &&& r is Ok
                    &&& final(import)@ == old(import)@.holding(self.sets@)
                    &&& final(import)@.initialized()
                },
                Err(detail) => {
                    &&& r matches Err(ImportError::Parser(H264ParserError::TrackPublishError(text)))
                        && text@ == detail@
                    &&& final(import)@ == old(import)@
                },
            },
    {
        match reply {
            Ok(_) => {
                import.sets = Some(self.sets);
                Ok(())
            },
            Err(detail) => Err(ImportError::Parser(H264ParserError::TrackPublishError(detail))),
        }
    }
}

/// What reading has gathered.
pub struct ReadModel {
    /// The bytes of the last sequence parameter set.
    pub sps: Seq<u8>,
    /// The bytes of the last picture parameter set.
    pub pps: Seq<u8>,
    /// An IDR picture was seen after both parameter sets.
    pub first_keyframe: bool,
    /// The current NAL unit was found to be of no interest; its rest is passed over.
    pub ignoring: bool,
    /// The chunks of the stream so far.
    pub pushed: Seq<Seq<u8>>,
    /// When the run started.
    pub start: Instant,
    /// The latest clock reading, in microseconds since the start.
    pub last_micros: u128,
}

impl ReadModel {
    /// Both parameter sets are at hand.
    pub open spec fn has_sets(self) -> bool {
        self.sps.len() > 0 && self.pps.len() > 0
    }

    /// After the first keyframe both parameter sets are at hand.
    pub open spec fn well_formed(self) -> bool {
        self.first_keyframe ==> self.has_sets()
    }
}

/// The state before the first chunk of a run.
pub open spec fn read_start(start: Instant) -> ReadModel {
    ReadModel {
        sps: Seq::empty(),
        pps: Seq::empty(),
        first_keyframe: false,
        ignoring: false,
        pushed: Seq::empty(),
        start,
        last_micros: 0,
    }
}

/// The bytes before each NAL unit of a payload.
pub open spec fn start_code() -> Seq<u8> {
    seq![0u8, 0u8, 0u8, 1u8]
}

/// A count of microseconds as a timestamp, which wraps at 64 bits.
pub open spec fn timestamp(micros: u128) -> u64 {
    (micros % 0x1_0000_0000_0000_0000) as u64
}

/// The frame of a slice that depends on others: the slice alone.
pub open spec fn delta_frame(nal: NalModel, micros: u128) -> FrameModel {
    FrameModel {
        timestamp_micros: timestamp(micros),
        keyframe: false,
        payload: start_code() + bitstream::nal_bytes(nal),
    }
}

/// The frame of a slice that stands alone: the parameter sets, then the slice.
pub open spec fn key_frame(m: ReadModel, nal: NalModel, micros: u128) -> FrameModel {
    FrameModel {
        timestamp_micros: timestamp(micros),
        keyframe: true,
        payload: start_code() + m.sps + start_code() + m.pps + start_code()
            + bitstream::nal_bytes(nal),
    }
}

/// Reading after one more report of a NAL unit.
pub open spec fn read_unit(m: ReadModel, nal: NalModel) -> ReadModel {
    let kind = bitstream::kind_of_header(nal.header());
    if m.ignoring || kind is None || kind == Some(NalKind::Other) {
        ReadModel { ignoring: !nal.complete, ..m }
    } else if !nal.complete {
        m
    } else {
        match kind {
            Some(NalKind::Pps) => ReadModel { pps: bitstream::nal_bytes(nal), ..m },
            Some(NalKind::Sps) => ReadModel { sps: bitstream::nal_bytes(nal), ..m },
            Some(NalKind::IdrSlice) => ReadModel {
                first_keyframe: m.first_keyframe || m.has_sets(),
                ..m
            },
            _ => m,
        }
    }
}

/// The frame that a report of a NAL unit gives. Only a complete slice gives one: an IDR slice when
/// both parameter sets are at hand, another slice after the first keyframe.
pub open spec fn frame_of(m: ReadModel, sets: ParamSets, nal: NalModel, micros: u128) -> Option<
    FrameModel,
> {
    if m.ignoring || !nal.complete {
        None
    } else {
        match bitstream::kind_of_header(nal.header()) {
            Some(NalKind::NonIdrSlice) => if m.first_keyframe {
                match bitstream::slice_of(sets, nal) {
                    Some(SliceKind::I) => if m.has_sets() {
                        Some(key_frame(m, nal, micros))
                    } else {
                        None
                    },
                    Some(_) => Some(delta_frame(nal, micros)),
                    None => None,
                }
            } else {
                None
            },
            Some(NalKind::IdrSlice) => if m.has_sets() {
                Some(key_frame(m, nal, micros))
            } else {
                None
            },
            _ => None,
        }
    }
}

/// Reading after one report after the other.
pub open spec fn read_units(m: ReadModel, nals: Seq<NalModel>) -> ReadModel
    decreases nals.len(),
{
    if nals.len() == 0 {
        m
    } else {
        read_unit(read_units(m, nals.drop_last()), nals.last())
    }
}

/// The frames that one report after the other gives, the `i`-th at the clock reading `clock[i]`.
pub open spec fn frames_of(
    m: ReadModel,
    sets: ParamSets,
    nals: Seq<NalModel>,
    clock: Seq<u128>,
) -> Seq<FrameModel>
    decreases nals.len(),
{
    if nals.len() == 0 {
        Seq::empty()
    } else {
        let front = frames_of(m, sets, nals.drop_last(), clock);
        match frame_of(
            read_units(m, nals.drop_last()),
            sets,
            nals.last(),
            clock[nals.len() - 1],
        ) {
            Some(frame) => front.push(frame),
            None => front,
        }
    }
}

/// What each frame holds.
pub open spec fn frame_models(frames: Seq<Frame>) -> Seq<FrameModel> {
    Seq::new(frames.len(), |i: int| frames[i]@)
}

/// A run through the frames of a stream.
pub struct ReadSession {
    start: Instant,
    sps: BytesMut,
    pps: BytesMut,
    first_keyframe: bool,
    ignoring: bool,
    splitter: NalSplitter,
    last_micros: u128,
}

impl View for ReadSession {
    type V = ReadModel;

    closed spec fn view(&self) -> ReadModel {
        ReadModel {
            sps: buffers::octets(self.sps),
            pps: buffers::octets(self.pps),
            first_keyframe: self.first_keyframe,
            ignoring: self.ignoring,
            pushed: annexb::pushed(self.splitter),
            start: self.start,
            last_micros: self.last_micros,
        }
    }
}

/// What to do next for [`AnnexBStreamImport::read_from`].
pub enum ReadAction {
    /// Write the frames to the track in this order, then hand in the next chunk.
    WriteFrames(Vec<Frame>),
    /// The stream has ended.
    Finished,
}

/// Appends a start code and a NAL unit.
fn push_nal(payload: &mut BytesMut, nal: &[u8])
    ensures
        buffers::octets(*final(payload)) == buffers::octets(*old(payload)) + start_code() + nal@,
{
    let code = [0u8, 0u8, 0u8, 1u8];
    assert(code@ == start_code());
    payload.extend_from_slice(code.as_slice());
    payload.extend_from_slice(nal);
}

/// A count of microseconds as a timestamp.
fn timestamp_of(micros: u128) -> (r: u64)
    ensures
        r == timestamp(micros),
{
    assert(micros as u64 == micros % 0x1_0000_0000_0000_0000) by (bit_vector);
    #[verifier::truncate]
    (micros as u64)
}

impl ReadSession {
    /// A run that starts now.
    fn new() -> (session: ReadSession)
        ensures
            session@ == read_start(session@.start),
    {
        ReadSession {
            start: Instant::now(),
            sps: BytesMut::new(),
            pps: BytesMut::new(),
            first_keyframe: false,
            ignoring: false,
            splitter: NalSplitter::new(),
            last_micros: 0,
        }
    }

    /// The frame of a slice that stands alone.
    fn key_frame(&self, unit: &NalUnit, elapsed_micros: u128) -> (frame: Frame)
        requires
            unit@.well_formed(),
        ensures
            frame@ == key_frame(self@, unit@, elapsed_micros),
    {
        let slice = unit.bytes();
        let mut payload = BytesMut::new();
        push_nal(&mut payload, buffers::borrowed(&self.sps));
        push_nal(&mut payload, buffers::borrowed(&self.pps));
        push_nal(&mut payload, buffers::borrowed(&slice));
        proof {
            assert(buffers::octets(payload) == key_frame(self@, unit@, elapsed_micros).payload);
        }
        Frame {
            timestamp_micros: timestamp_of(elapsed_micros),
            keyframe: true,
            payload: payload.freeze(),
        }
    }

    /// Takes one report of a NAL unit, `elapsed_micros` after the start.
    pub fn observe(&mut self, sets: &ParameterSets, unit: &NalUnit, elapsed_micros: u128) -> (frame:
        Option<Frame>)
        requires
            unit@.well_formed(),
        ensures
            final(self)@ == read_unit(old(self)@, unit@),
            old(self)@.well_formed() ==> final(self)@.well_formed(),
            match frame {
                Some(frame) => frame_of(old(self)@, sets@, unit@, elapsed_micros) == Some(
                    frame@,
                ),
                None => frame_of(old(self)@, sets@, unit@, elapsed_micros) is None,
            },
            frame is Some <==> {
                &&& unit.complete
                &&& !old(self)@.ignoring
                &&& unit@.header() & 0x80 == 0
                &&& {
                    ||| unit@.header() & 0x1f == 5 && old(self)@.sps.len() > 0 && old(
                        self,
                    )@.pps.len() > 0
                    ||| unit@.header() & 0x1f == 1 && old(self)@.first_keyframe && match bitstream::slice_of(
                        sets@,
                        unit@,
                    ) {
                        Some(kind) => kind != SliceKind::I || (old(self)@.sps.len() > 0 && old(
                            self,
                        )@.pps.len() > 0),
                        None => false,
                    }
                }
            },
            frame matches Some(frame) ==> {
                &&& frame.keyframe <==> (unit@.header() & 0x1f == 5 || bitstream::slice_of(
                    sets@,
                    unit@,
                ) == Some(SliceKind::I))
                &&& buffers::frozen(frame.payload) == (if frame.keyframe {
                    seq![0u8, 0u8, 0u8, 1u8] + old(self)@.sps + seq![0u8, 0u8, 0u8, 1u8] + old(
                        self,
                    )@.pps + seq![0u8, 0u8, 0u8, 1u8] + unit@.chunks.flatten()
                } else {
                    seq![0u8, 0u8, 0u8, 1u8] + unit@.chunks.flatten()
                })
            },
    {
        if self.ignoring {
            self.ignoring = !unit.complete;
            return None;
        }
        match unit.kind() {
            Some(NalKind::Pps) => {
                if unit.complete {
                    self.pps = unit.bytes();
                }
                None
            },
            Some(NalKind::Sps) => {
                if unit.complete {
                    self.sps = unit.bytes();
                }
                None
            },
            Some(NalKind::NonIdrSlice) => {
                if unit.complete && self.first_keyframe {
                    match unit.slice(sets) {
                        Some(SliceKind::I) => {
                            if !self.pps.is_empty() && !self.sps.is_empty() {
                                Some(self.key_frame(unit, elapsed_micros))
                            } else {
                                None
                            }
                        },
                        Some(_) => {
                            let slice = unit.bytes();
                            let mut payload = BytesMut::new();
                            push_nal(&mut payload, buffers::borrowed(&slice));
                            proof {
                                assert(buffers::octets(payload) == delta_frame(
                                    unit@,
                                    elapsed_micros,
                                ).payload);
                            }
                            Some(
                                Frame {
                                    timestamp_micros: timestamp_of(elapsed_micros),
                                    keyframe: false,
                                    payload: payload.freeze(),
                                },
                            )
                        },
                        None => None,
                    }
                } else {
                    None
                }
            },
            Some(NalKind::IdrSlice) => {
                if unit.complete && !self.pps.is_empty() && !self.sps.is_empty() {
                    let frame = self.key_frame(unit, elapsed_micros);
                    self.first_keyframe = true;
                    Some(frame)
                } else {
                    None
                }
            },
            _ => {
                self.ignoring = !unit.complete;
                None
            },
        }
    }
}

/// Reading after one more chunk of the stream.
pub open spec fn read_chunk(m: ReadModel, chunk: Seq<u8>) -> ReadModel {
    ReadModel {
        pushed: m.pushed.push(chunk),
        ..read_units(m, annexb::reported_units(m.pushed, chunk))
    }
}

/// The frames of one more chunk of the stream, with one clock reading per report.
pub open spec fn chunk_frames(
    m: ReadModel,
    sets: ParamSets,
    chunk: Seq<u8>,
    clock: Seq<u128>,
) -> Seq<FrameModel> {
    frames_of(m, sets, annexb::reported_units(m.pushed, chunk), clock)
}

/// Whether clock readings run from `from` to `to` and never go back.
pub open spec fn clock_runs(clock: Seq<u128>, from: u128, to: u128) -> bool {
    &&& forall|i: int, j: int| 0 <= i <= j < clock.len() ==> clock[i] <= clock[j]
    &&& forall|i: int| 0 <= i < clock.len() ==> from <= #[trigger] clock[i]
    &&& to == (if clock.len() > 0 {
        clock.last()
    } else {
        from
    })
}

/// Whether each reading is what the clock showed when it was taken or, where the clock showed less
/// than the reading before, that reading again.
pub open spec fn clock_shown(start: Instant, from: u128, clock: Seq<u128>) -> bool {
    forall|i: int|
        0 <= i < clock.len() ==> reading_shown(
            start,
            (if i == 0 {
                from
            } else {
                clock[i - 1]
            }),
            #[trigger] clock[i],
        )
}

/// Whether a reading after `before` is what the clock showed, or `before` where it showed no more.
pub open spec fn reading_shown(start: Instant, before: u128, micros: u128) -> bool {
    exists|now: u128| #[trigger]
        clock::showed(start, now) && micros == (if now > before {
            now
        } else {
            before
        })
}

/// Whether these are the frames of one more chunk, with clock readings that run on from the latest
/// one to `last_micros`.
pub open spec fn made_from_chunk(
    frames: Seq<FrameModel>,
    m: ReadModel,
    sets: ParamSets,
    chunk: Seq<u8>,
    last_micros: u128,
) -> bool {
    exists|clock: Seq<u128>| #[trigger]
        chunk_frames(m, sets, chunk, clock) == frames && clock.len() == annexb::reported_units(
            m.pushed,
            chunk,
        ).len() && clock_runs(clock, m.last_micros, last_micros) && clock_shown(
            m.start,
            m.last_micros,
            clock,
        )
}

/// Whether timestamps lie between two clock readings and never go down, as long as 64 bits hold the
/// clock.
pub open spec fn stamped_in_order(frames: Seq<FrameModel>, from: u128, to: u128) -> bool {
    &&& from <= to
    &&& to <= u64::MAX ==> {
        &&& forall|i: int, j: int|
            0 <= i <= j < frames.len() ==> (#[trigger] frames[i]).timestamp_micros <= (
            #[trigger] frames[j]).timestamp_micros
        &&& forall|i: int|
            0 <= i < frames.len() ==> from <= (#[trigger] frames[i]).timestamp_micros <= to
    }
}

/// Frames made at clock readings that never go back are stamped in order.
pub proof fn lemma_stamped_in_order(
    m: ReadModel,
    sets: ParamSets,
    nals: Seq<NalModel>,
    clock: Seq<u128>,
    from: u128,
    to: u128,
)
    requires
        clock.len() == nals.len(),
        clock_runs(clock, from, to),
    ensures
        stamped_in_order(frames_of(m, sets, nals, clock), from, to),
    decreases nals.len(),
{
    if nals.len() > 0 {
        assert(from <= clock[clock.len() - 1]);
    }
    if nals.len() > 0 && to <= u64::MAX {
        let front = nals.drop_last();
        let short = clock.drop_last();
        let mid = if short.len() > 0 {
            short.last()
        } else {
            from
        };
        assert(clock_runs(short, from, mid));
        lemma_stamped_in_order(m, sets, front, short, from, mid);
        lemma_frames_of_clock(m, sets, front, short, clock);
        let made = frames_of(m, sets, front, clock);
        let frames = frames_of(m, sets, nals, clock);
        assert(mid <= to);
        assert(timestamp(clock.last()) == clock.last());
        assert forall|i: int| 0 <= i < frames.len() implies from <= (
        #[trigger] frames[i]).timestamp_micros <= to by {
            if i < made.len() {
                assert(frames[i] == made[i]);
            }
        }
        assert forall|i: int, j: int| 0 <= i <= j < frames.len() implies (
        #[trigger] frames[i]).timestamp_micros <= (#[trigger] frames[j]).timestamp_micros by {
            if i < made.len() {
                assert(frames[i] == made[i]);
            }
            if j < made.len() {
                assert(frames[j] == made[j]);
            }
        }
    }
}

/// The time that a frame made now carries: what the clock shows, and never less than what it showed
/// before.
pub fn tick(last: u128, now: u128) -> (r: u128)
    ensures
        r == (if now > last {
            now
        } else {
            last
        }),
{
    if now > last {
        now
    } else {
        last
    }
}

impl ReadSession {
    /// Takes one chunk of the stream; the frames carry the time at which they were made.
    #[verifier::rlimit(60)]
    #[verifier::spinoff_prover]
    fn push(&mut self, sets: &ParameterSets, chunk: &[u8]) -> (frames: Vec<Frame>)
        ensures
            final(self)@ == (ReadModel {
                last_micros: final(self)@.last_micros,
                ..read_chunk(old(self)@, chunk@)
            }),
            old(self)@.well_formed() ==> final(self)@.well_formed(),
            made_from_chunk(
                frame_models(frames@),
                old(self)@,
                sets@,
                chunk@,
                final(self)@.last_micros,
            ),
            stamped_in_order(
                frame_models(frames@),
                old(self)@.last_micros,
                final(self)@.last_micros,
            ),
    {
        let ghost before = self@;
        let ghost held = sets@;
        let units = self.splitter.push(chunk);
        let ghost nals = annexb::reported_units(before.pushed, chunk@);
        let ghost pushed = annexb::pushed(self.splitter);
        let ghost mut clock: Seq<u128> = Seq::empty();
        let mut frames: Vec<Frame> = Vec::new();
        let mut i: usize = 0;
        proof {
            assert(nals.take(0).len() == 0);
            assert(frame_models(frames@) == frames_of(before, held, nals.take(0), clock));
        }
        while i < units.len()
            invariant
                i <= units@.len(),
                annexb::models(units@) == nals,
                forall|j: int| 0 <= j < units@.len() ==> (#[trigger] units@[j])@.well_formed(),
                self@ == (ReadModel {
                    pushed,
                    last_micros: self@.last_micros,
                    ..read_units(before, nals.take(i as int))
                }),
                before.well_formed() ==> self@.well_formed(),
                held == sets@,
                clock.len() == i,
                clock_runs(clock, before.last_micros, self@.last_micros),
                self@.start == before.start,
                clock_shown(before.start, before.last_micros, clock),
                frame_models(frames@) == frames_of(before, held, nals.take(i as int), clock),
            decreases units@.len() - i,
        {
            let now: u128 = clock::reading(&self.start);
            let elapsed_micros: u128 = tick(self.last_micros, now);
            assert(reading_shown(before.start, self.last_micros, elapsed_micros));
            self.last_micros = elapsed_micros;
            let ghost front = nals.take(i as int);
            let ghost gathered = read_units(before, front);
            let ghost made = frame_models(frames@);
            let frame = self.observe(sets, &units[i], elapsed_micros);
            proof {
                let longer = nals.take(i as int + 1);
                assert(longer.drop_last() == front);
                assert(longer.last() == units@[i as int]@);
                let ticks = clock.push(elapsed_micros);
                lemma_frames_of_clock(before, held, front, clock, ticks);
                assert(frame_of(
                    (ReadModel { pushed, last_micros: elapsed_micros, ..gathered }),
                    held,
                    longer.last(),
                    elapsed_micros,
                ) == frame_of(gathered, held, longer.last(), elapsed_micros));
                clock = ticks;
            }
            if let Some(frame) = frame {
                frames.push(frame);
                assert(frame_models(frames@) == made.push(frame@));
            }
            i = i + 1;
        }
        proof {
            assert(nals.take(i as int) == nals);
            assert(frame_models(frames@) == chunk_frames(before, held, chunk@, clock));
            lemma_stamped_in_order(
                before,
                held,
                nals,
                clock,
                before.last_micros,
                self@.last_micros,
            );
        }
        frames
    }
}

/// Only the clock readings up to the number of reports count.
pub proof fn lemma_frames_of_clock(
    m: ReadModel,
    sets: ParamSets,
    nals: Seq<NalModel>,
    clock: Seq<u128>,
    longer: Seq<u128>,
)
    requires
        clock.len() >= nals.len(),
        longer.len() >= nals.len(),
        forall|i: int| 0 <= i < nals.len() ==> clock[i] == longer[i],
    ensures
        frames_of(m, sets, nals, clock) == frames_of(m, sets, nals, longer),
    decreases nals.len(),
{
    if nals.len() > 0 {
        lemma_frames_of_clock(m, sets, nals.drop_last(), clock, longer);
    }
}

impl AnnexBStreamImport {
    /// Begins to read frames. The import has to be initialized.
    pub fn begin_read(&self) -> (r: Result<ReadSession, ImportError>)
        ensures
            match r {
                Ok(session) => self@.initialized() && session@ == read_start(session@.start),
                Err(error) => !self@.initialized() && error == ImportError::NotInitialized,
            },
    {
        if self.sets.is_none() || self.codec.is_none() {
            return Err(ImportError::NotInitialized);
        }
        Ok(ReadSession::new())
    }

    /// Goes on reading frames: `input` is the next chunk of the stream, or `None` at its end. The
    /// frames are those of the slices that the chunk completes, in the order of the stream. Each is
    /// stamped with what the clock showed, and timestamps never go down, neither within a chunk nor
    /// from chunk to chunk; beyond that nothing is said of the clock.
    pub fn read_from(&self, session: &mut ReadSession, input: Option<&[u8]>) -> (r: Result<
        ReadAction,
        ImportError,
    >)
        ensures
            old(session)@.well_formed() ==> final(session)@.well_formed(),
            match r {
                Ok(ReadAction::WriteFrames(frames)) => {
                    &&& self@.initialized()
                    &&& input matches Some(chunk)
                    &&& final(session)@ == (ReadModel {
                        last_micros: final(session)@.last_micros,
                        ..read_chunk(old(session)@, chunk@)
                    })
                    &&& made_from_chunk(
                        frame_models(frames@),
                        old(session)@,
                        self@.sets->0,
                        chunk@,
                        final(session)@.last_micros,
                    )
                    &&& stamped_in_order(
                        frame_models(frames@),
                        old(session)@.last_micros,
                        final(session)@.last_micros,
                    )
                },
                Ok(ReadAction::Finished) => {
                    &&& self@.initialized()
                    &&& input is None
                    &&& final(session)@ == old(session)@
                },
                Err(error) => {
                    &&& !self@.initialized()
                    &&& error == ImportError::NotInitialized
                    &&& final(session)@ == old(session)@
                },
            },
    {
        if self.codec.is_none() {
            return Err(ImportError::NotInitialized);
        }
        match &self.sets {
            Some(sets) => match input {
                Some(chunk) => Ok(ReadAction::WriteFrames(session.push(sets, chunk))),
                None => Ok(ReadAction::Finished),
            },
            None => Err(ImportError::NotInitialized),
        }
    }
}

} // verus!
