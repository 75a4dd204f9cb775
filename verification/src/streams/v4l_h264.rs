//! H.264 from a V4L2 capture device.
//!
//! A stream is a state machine. The caller performs the action that is due and hands back what came
//! of it as an event; [`run_v4l_stream`] says what is due next. First the device is opened and asked
//! for its formats until it offers the wanted one. Then it is opened for good, mapped and asked for
//! its frame size, and an encoder is opened. From then on frames are captured, encoded and sent.
use crate::encoders::{EncodedFrame, EncoderConfig, EncoderOpening, EncoderType};
use crate::encoders::{FfmpegOptions, H264Encoder, H264EncoderError, InputType, OpenStep};
use crate::text;
use bytes::BytesMut;
use vstd::prelude::*;
use vstd::string::*;

verus! {

/// Errors of a V4L2 stream.
#[derive(Debug, PartialEq, Eq)]
pub enum V4lStreamError {
    /// The device could not be opened.
    DeviceOpenError(String),
    /// The formats of the device could not be listed.
    DeviceFormatError(String),
    /// The buffers of the device could not be mapped.
    MmapStreamError(String),
    /// The current format of the device could not be read.
    GetFormatError(String),
    /// The encoder could not be opened.
    EncoderCreationError(H264EncoderError),
    /// A frame could not be encoded.
    FrameEncodingError(H264EncoderError),
    /// The device handed out no frame.
    StreamIterationError(String),
    /// The receiver of the encoded frames is gone; these bytes were not sent.
    ChannelSendError(BytesMut),
}

impl V4lStreamError {
    /// What the text of the error is.
    pub open spec fn text(self) -> Seq<char> {
        match self {
            V4lStreamError::DeviceOpenError(detail) => "Failed to open V4L device: "@ + detail@,
            V4lStreamError::DeviceFormatError(detail) => "Failed to get V4L formats: "@ + detail@,
            V4lStreamError::MmapStreamError(detail) => "Failed to create MmapStream: "@ + detail@,
            V4lStreamError::GetFormatError(detail) => "Failed to get V4L format: "@ + detail@,
            V4lStreamError::EncoderCreationError(error) => "Failed to create H264 encoder: "@
                + error.text(),
            V4lStreamError::FrameEncodingError(error) => "Error encoding frame: "@ + error.text(),
            V4lStreamError::StreamIterationError(detail) => "Stream iteration error: "@ + detail@,
            V4lStreamError::ChannelSendError(_) => "Channel send error: channel closed"@,
        }
    }

    /// The text of the error.
    pub fn message(&self) -> (r: String)
        ensures
            r@ == self.text(),
    {
        match self {
            V4lStreamError::DeviceOpenError(detail) => text::joined(
                "Failed to open V4L device: ",
                detail.as_str(),
            ),
            V4lStreamError::DeviceFormatError(detail) => text::joined(
                "Failed to get V4L formats: ",
                detail.as_str(),
            ),
            V4lStreamError::MmapStreamError(detail) => text::joined(
                "Failed to create MmapStream: ",
                detail.as_str(),
            ),
            V4lStreamError::GetFormatError(detail) => text::joined(
                "Failed to get V4L format: ",
                detail.as_str(),
            ),
            V4lStreamError::EncoderCreationError(error) => {
                let detail = error.message();
                text::joined("Failed to create H264 encoder: ", detail.as_str())
            },
            V4lStreamError::FrameEncodingError(error) => {
                let detail = error.message();
                text::joined("Error encoding frame: ", detail.as_str())
            },
            V4lStreamError::StreamIterationError(detail) => text::joined(
                "Stream iteration error: ",
                detail.as_str(),
            ),
            V4lStreamError::ChannelSendError(_) => "Channel send error: channel closed".to_owned(),
        }
    }
}

/// A four-character code of a pixel format.
#[derive(Debug, Clone, Copy, PartialEq, Eq)]
pub struct FourCC {
    pub repr: [u8; 4],
}

impl View for FourCC {
    type V = Seq<u8>;

    open spec fn view(&self) -> Seq<u8> {
        self.repr@
    }
}

impl FourCC {
    /// The code with these characters.
    pub fn new(repr: &[u8; 4]) -> (r: FourCC)
        ensures
            r@ == repr@,
    {
        FourCC { repr: *repr }
    }

    /// Whether both codes have the same characters.
    pub fn same(&self, other: &FourCC) -> (r: bool)
        ensures
            r == (self@ == other@),
    {
        let same = self.repr[0] == other.repr[0] && self.repr[1] == other.repr[1] && self.repr[2]
            == other.repr[2] && self.repr[3] == other.repr[3];
        proof {
            if same {
                assert(self@ == other@);
            }
        }
        same
    }
}

/// Configuration of a stream.
#[derive(Debug, PartialEq, Eq)]
pub struct V4lH264Config {
    /// Width of the encoded video in pixels.
    pub output_width: u32,
    /// Height of the encoded video in pixels.
    pub output_height: u32,
    /// Target bits per second.
    pub bitrate: usize,
    /// Pixel format of the captured frames.
    pub input_type: InputType,
    /// The format that the device has to offer.
    pub v4l_fourcc: FourCC,
    /// Path of the device.
    pub video_dev: String,
}

/// The call that is due.
#[derive(Debug, Clone, Copy, PartialEq, Eq, Structural)]
pub enum Phase {
    /// Open the device to ask for its formats.
    Probe,
    /// List the formats.
    List,
    /// Wait a second before the device is probed again.
    Wait,
    /// Open the device to capture.
    Open,
    /// Map the buffers of the device.
    MapStream,
    /// Read the current format.
    ReadFormat,
    /// Open the encoder.
    OpenEncoder,
    /// Capture a frame.
    Capture,
    /// Encode the captured frame.
    Encode,
    /// Send the encoded frame.
    Send,
    /// Nothing: the stream has failed.
    Stopped,
}

/// What came of a call.
pub enum V4lEvent<'a> {
    /// The device was opened.
    DeviceOpened(Result<(), String>),
    /// The formats were listed.
    Formats(Result<Vec<FourCC>, String>),
    /// A second has passed.
    Waited,
    /// The buffers were mapped.
    StreamMapped(Result<(), String>),
    /// The width and the height of the current format were read.
    FormatRead(Result<(u32, u32), String>),
    /// The encoder was opened.
    EncoderOpened(Result<(), H264EncoderError>),
    /// A buffer was filled; of its bytes, this many are used.
    Captured(Result<(&'a [u8], u32), String>),
    /// The frame was encoded; the encoder may hold it back.
    Encoded(Result<Option<EncodedFrame>, H264EncoderError>),
    /// The frame was sent, or comes back.
    Sent(Result<(), BytesMut>),
}

/// What to do next.
pub enum V4lAction<'a> {
    /// Open the device.
    OpenDevice,
    /// List the formats of the device.
    ListFormats,
    /// Wait this many seconds.
    Wait(u64),
    /// Map the buffers of the device.
    MapStream,
    /// Read the current format of the device.
    ReadFormat,
    /// Open the encoder.
    OpenEncoder(EncoderOpening),
    /// Capture a frame.
    Capture,
    /// Encode raw input with a timestamp.
    Encode(i64, &'a [u8]),
    /// Send the bytes.
    Send(BytesMut),
    /// Give up.
    Stop(V4lStreamError),
}

/// What a stream knows.
pub struct StreamModel {
    pub cfg: V4lH264Config,
    /// The options for the encoder, until it is opened.
    pub options: Seq<(String, String)>,
    pub phase: Phase,
    /// The timestamp of the next frame.
    pub pts: i64,
}

/// A stream that has done nothing.
pub open spec fn started(cfg: V4lH264Config, options: Seq<(String, String)>) -> StreamModel {
    StreamModel { cfg, options, phase: Phase::Probe, pts: 0 }
}

/// Capture, encoding and sending of the frames of a device.
pub struct V4lH264Stream {
    cfg: V4lH264Config,
    options: FfmpegOptions,
    phase: Phase,
    pts: i64,
}

impl View for V4lH264Stream {
    type V = StreamModel;

    closed spec fn view(&self) -> StreamModel {
        StreamModel { cfg: self.cfg, options: self.options@, phase: self.phase, pts: self.pts }
    }
}

impl V4lH264Stream {
    /// A stream that has done nothing. The first call that is due is to open the device.
    pub fn new(cfg: V4lH264Config, ffmpeg_opts: FfmpegOptions) -> (stream: V4lH264Stream)
        ensures
            stream@ == (StreamModel { cfg, options: ffmpeg_opts@, phase: Phase::Probe, pts: 0 }),
            stream@ == started(cfg, ffmpeg_opts@),
    {
        V4lH264Stream { cfg, options: ffmpeg_opts, phase: Phase::Probe, pts: 0 }
    }

    /// The path of the device.
    pub fn device(&self) -> (path: &str)
        ensures
            path@ == self@.cfg.video_dev@,
    {
        self.cfg.video_dev.as_str()
    }

    /// The call that is due.
    pub fn phase(&self) -> (phase: Phase)
        ensures
            phase == self@.phase,
    {
        self.phase
    }
}

/// Whether the list holds the code.
pub open spec fn offers(formats: Seq<FourCC>, code: FourCC) -> bool {
    exists|i: int| 0 <= i < formats.len() && (#[trigger] formats[i])@ == code@
}

/// Whether an event answers the call that is due. No more bytes of a buffer are used than it has,
/// and a timestamp follows the current one.
pub open spec fn answers(m: StreamModel, event: V4lEvent<'_>) -> bool {
    match event {
        V4lEvent::DeviceOpened(_) => m.phase == Phase::Probe || m.phase == Phase::Open,
        V4lEvent::Formats(_) => m.phase == Phase::List,
        V4lEvent::Waited => m.phase == Phase::Wait,
        V4lEvent::StreamMapped(_) => m.phase == Phase::MapStream,
        V4lEvent::FormatRead(_) => m.phase == Phase::ReadFormat,
        V4lEvent::EncoderOpened(_) => m.phase == Phase::OpenEncoder,
        V4lEvent::Captured(reply) => m.phase == Phase::Capture && (reply matches Ok(captured)
            ==> captured.1 <= captured.0@.len()),
        V4lEvent::Encoded(_) => m.phase == Phase::Encode && m.pts < i64::MAX,
        V4lEvent::Sent(_) => m.phase == Phase::Send && m.pts < i64::MAX,
    }
}

/// The call that is due after an event.
pub open spec fn next_phase(m: StreamModel, event: V4lEvent<'_>) -> Phase {
    match event {
        V4lEvent::DeviceOpened(Ok(_)) => if m.phase == Phase::Probe {
            Phase::List
        } else {
            Phase::MapStream
        },
        V4lEvent::Formats(Ok(formats)) => if offers(formats@, m.cfg.v4l_fourcc) {
            Phase::Open
        } else {
            Phase::Wait
        },
        V4lEvent::Waited => Phase::Probe,
        V4lEvent::StreamMapped(Ok(_)) => Phase::ReadFormat,
        V4lEvent::FormatRead(Ok(_)) => Phase::OpenEncoder,
        V4lEvent::EncoderOpened(Ok(_)) => Phase::Capture,
        V4lEvent::Captured(Ok(_)) => Phase::Encode,
        V4lEvent::Encoded(Ok(Some(_))) => Phase::Send,
        V4lEvent::Encoded(Ok(None)) => Phase::Capture,
        V4lEvent::Sent(Ok(_)) => Phase::Capture,
        _ => Phase::Stopped,
    }
}

/// Whether an event ends the work on a frame: the encoder holds it back, or it is sent.
pub open spec fn finishes_frame(event: V4lEvent<'_>) -> bool {
    event matches V4lEvent::Encoded(Ok(None)) || event matches V4lEvent::Sent(Ok(_))
}

/// The stream after an event.
pub open spec fn next_model(m: StreamModel, event: V4lEvent<'_>) -> StreamModel {
    StreamModel {
        phase: next_phase(m, event),
        pts: if finishes_frame(event) {
            (m.pts + 1) as i64
        } else {
            m.pts
        },
        options: if event matches V4lEvent::FormatRead(Ok(_)) {
            Seq::empty()
        } else {
            m.options
        },
        ..m
    }
}

/// Whether `config` is the encoder for frames of this size: software encoding at fifteen frames per
/// second, with FFmpeg's choice of groups of pictures and B-frames.
pub open spec fn encodes(config: EncoderConfig, cfg: V4lH264Config, width: u32, height: u32) -> bool {
    &&& config.input_width == width
    &&& config.input_height == height
    &&& config.output_width == cfg.output_width
    &&& config.output_height == cfg.output_height
    &&& config.framerate == 15
    &&& config.gop is None
    &&& config.bitrate == cfg.bitrate
    &&& !config.disable_b_frames
    &&& config.enc_type == EncoderType::X264
    &&& config.input_type@ == cfg.input_type@
}

/// Whether an action is what an event calls for.
pub open spec fn calls_for(m: StreamModel, event: V4lEvent<'_>, action: V4lAction<'_>) -> bool {
    match event {
        V4lEvent::DeviceOpened(Ok(_)) => if m.phase == Phase::Probe {
            action is ListFormats
        } else {
            action is MapStream
        },
        V4lEvent::DeviceOpened(Err(detail)) => action matches V4lAction::Stop(
            V4lStreamError::DeviceOpenError(text),
        ) && text@ == detail@,
        V4lEvent::Formats(Ok(formats)) => if offers(formats@, m.cfg.v4l_fourcc) {
            action is OpenDevice
        } else {
            action == V4lAction::Wait(1)
        },
        V4lEvent::Formats(Err(detail)) => action matches V4lAction::Stop(
            V4lStreamError::DeviceFormatError(text),
        ) && text@ == detail@,
        V4lEvent::Waited => action is OpenDevice,
        V4lEvent::StreamMapped(Ok(_)) => action is ReadFormat,
        V4lEvent::StreamMapped(Err(detail)) => action matches V4lAction::Stop(
            V4lStreamError::MmapStreamError(text),
        ) && text@ == detail@,
        V4lEvent::FormatRead(Ok(size)) => {
            &&& action matches V4lAction::OpenEncoder(opening)
            &&& encodes(opening.config, m.cfg, size.0, size.1)
            &&& opening.options@ == m.options
            &&& opening.step == OpenStep::FindCodec
        },
        V4lEvent::FormatRead(Err(detail)) => action matches V4lAction::Stop(
            V4lStreamError::GetFormatError(text),
        ) && text@ == detail@,
        V4lEvent::EncoderOpened(Ok(_)) => action is Capture,
        V4lEvent::EncoderOpened(Err(error)) => action == V4lAction::Stop(
            V4lStreamError::EncoderCreationError(error),
        ),
        V4lEvent::Captured(Ok(captured)) => {
            &&& action matches V4lAction::Encode(pts, input)
            &&& pts == m.pts
            &&& input@ == captured.0@.take(captured.1 as int)
        },
        V4lEvent::Captured(Err(detail)) => action matches V4lAction::Stop(
            V4lStreamError::StreamIterationError(text),
        ) && text@ == detail@,
        V4lEvent::Encoded(Ok(Some(frame))) => action == V4lAction::Send(frame.nal_bytes),
        V4lEvent::Encoded(Ok(None)) => action is Capture,
        V4lEvent::Encoded(Err(error)) => action == V4lAction::Stop(
            V4lStreamError::FrameEncodingError(error),
        ),
        V4lEvent::Sent(Ok(_)) => action is Capture,
        V4lEvent::Sent(Err(bytes)) => action == V4lAction::Stop(
            V4lStreamError::ChannelSendError(bytes),
        ),
    }
}

/// Whether the list holds the code.
fn listed(formats: &Vec<FourCC>, code: &FourCC) -> (r: bool)
    ensures
        r == offers(formats@, *code),
{
    let mut i: usize = 0;
    while i < formats.len()
        invariant
            i <= formats@.len(),
            forall|j: int| 0 <= j < i ==> (#[trigger] formats@[j])@ != code@,
        decreases formats@.len() - i,
    {
        if formats[i].same(code) {
            assert(formats@[i as int]@ == code@);
            return true;
        }
        i = i + 1;
    }
    false
}

impl V4lH264Stream {
    /// The encoder for frames of this size.
    fn open_encoder(&mut self, width: u32, height: u32) -> (opening: EncoderOpening)
        ensures
            encodes(opening.config, old(self)@.cfg, width, height),
            opening.options@ == old(self)@.options,
            opening.step == OpenStep::FindCodec,
            final(self)@ == (StreamModel { options: Seq::empty(), ..old(self)@ }),
    {
        let config = EncoderConfig {
            input_width: width,
            input_height: height,
            output_width: self.cfg.output_width,
            output_height: self.cfg.output_height,
            framerate: 15,
            gop: None,
            bitrate: self.cfg.bitrate,
            disable_b_frames: false,
            enc_type: EncoderType::X264,
            input_type: self.cfg.input_type.clone(),
        };
        let mut options: FfmpegOptions = Vec::new();
        std::mem::swap(&mut options, &mut self.options);
        H264Encoder::new(config, options)
    }
}

/// Takes what came of the call that was due and says what to do next.
pub fn run_v4l_stream<'a>(stream: &mut V4lH264Stream, event: V4lEvent<'a>) -> (action: V4lAction<'a>)
    requires
        answers(old(stream)@, event),
    ensures
        final(stream)@ == next_model(old(stream)@, event),
        calls_for(old(stream)@, event, action),
        event matches V4lEvent::Captured(Ok(captured)) ==> (action matches V4lAction::Encode(pts, input)
            && {
            &&& pts == old(stream)@.pts
            &&& input@.len() == captured.1
            &&& forall|i: int| 0 <= i < captured.1 ==> #[trigger] input@[i] == captured.0@[i]
        }),
{
    let (phase, action) = match event {
        V4lEvent::DeviceOpened(Ok(_)) => match stream.phase {
            Phase::Probe => (Phase::List, V4lAction::ListFormats),
            _ => (Phase::MapStream, V4lAction::MapStream),
        },
        V4lEvent::DeviceOpened(Err(detail)) => (
            Phase::Stopped,
            V4lAction::Stop(V4lStreamError::DeviceOpenError(detail)),
        ),
        V4lEvent::Formats(Ok(formats)) => {
            if listed(&formats, &stream.cfg.v4l_fourcc) {
                (Phase::Open, V4lAction::OpenDevice)
            } else {
                (Phase::Wait, V4lAction::Wait(1))
            }
        },
        V4lEvent::Formats(Err(detail)) => (
            Phase::Stopped,
            V4lAction::Stop(V4lStreamError::DeviceFormatError(detail)),
        ),
        V4lEvent::Waited => (Phase::Probe, V4lAction::OpenDevice),
        V4lEvent::StreamMapped(Ok(_)) => (Phase::ReadFormat, V4lAction::ReadFormat),
        V4lEvent::StreamMapped(Err(detail)) => (
            Phase::Stopped,
            V4lAction::Stop(V4lStreamError::MmapStreamError(detail)),
        ),
        V4lEvent::FormatRead(Ok(size)) => (
            Phase::OpenEncoder,
            V4lAction::OpenEncoder(stream.open_encoder(size.0, size.1)),
        ),
        V4lEvent::FormatRead(Err(detail)) => (
            Phase::Stopped,
            V4lAction::Stop(V4lStreamError::GetFormatError(detail)),
        ),
        V4lEvent::EncoderOpened(Ok(_)) => (Phase::Capture, V4lAction::Capture),
        V4lEvent::EncoderOpened(Err(error)) => (
            Phase::Stopped,
            V4lAction::Stop(V4lStreamError::EncoderCreationError(error)),
        ),
        V4lEvent::Captured(Ok(captured)) => {
            let input = vstd::slice::slice_subrange(captured.0, 0, captured.1 as usize);
            assert(input@ == captured.0@.take(captured.1 as int));
            (Phase::Encode, V4lAction::Encode(stream.pts, input))
        },
        V4lEvent::Captured(Err(detail)) => (
            Phase::Stopped,
            V4lAction::Stop(V4lStreamError::StreamIterationError(detail)),
        ),
        V4lEvent::Encoded(Ok(Some(frame))) => (Phase::Send, V4lAction::Send(frame.nal_bytes)),
        V4lEvent::Encoded(Ok(None)) => {
            stream.pts = stream.pts + 1;
            (Phase::Capture, V4lAction::Capture)
        },
        V4lEvent::Encoded(Err(error)) => (
            Phase::Stopped,
            V4lAction::Stop(V4lStreamError::FrameEncodingError(error)),
        ),
        V4lEvent::Sent(Ok(_)) => {
            stream.pts = stream.pts + 1;
            (Phase::Capture, V4lAction::Capture)
        },
        V4lEvent::Sent(Err(bytes)) => (
            Phase::Stopped,
            V4lAction::Stop(V4lStreamError::ChannelSendError(bytes)),
        ),
    };
    stream.phase = phase;
    action
}

} // verus!
