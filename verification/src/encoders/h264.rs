//! H.264 encoding with FFmpeg.
//!
//! The library decides and the caller performs: opening an encoder, encoding a frame and draining
//! are each a run of steps. A step says which call into FFmpeg is due; the caller makes the call and
//! hands the answer back. A failed call is handed back as the text of its error; a failed request
//! for a packet is told apart further, see [`CallError`].
use crate::buffers;
use crate::text;
use bytes::BytesMut;
use vstd::prelude::*;
use vstd::string::*;

verus! {

/// Options for the FFmpeg encoder as key-value pairs; a later value of a key replaces an earlier
/// one.
pub type FfmpegOptions = Vec<(String, String)>;

/// A pixel format, by the name that FFmpeg gives it, such as `bgr24`.
#[derive(Debug, PartialEq, Eq)]
pub struct InputType {
    pub name: String,
}

impl View for InputType {
    type V = Seq<char>;

    open spec fn view(&self) -> Seq<char> {
        self.name@
    }
}

impl InputType {
    /// The format with this name.
    pub fn new(name: &str) -> (r: InputType)
        ensures
            r@ == name@,
    {
        InputType { name: name.to_owned() }
    }
}

impl Clone for InputType {
    fn clone(&self) -> (r: InputType)
        ensures
            r@ == self@,
    {
        InputType { name: self.name.as_str().to_owned() }
    }
}

/// The H.264 encoders.
#[derive(Debug, Clone, Copy, PartialEq, Eq, Structural)]
pub enum EncoderType {
    /// Software encoder.
    X264,
    /// Encoder on an NVIDIA GPU.
    H264Nvenc,
    /// Encoder on an NVIDIA Jetson with NVMPI support.
    H264Nvmpi,
}

impl EncoderType {
    /// The name by which FFmpeg finds the codec.
    pub open spec fn codec_name(self) -> Seq<char> {
        match self {
            EncoderType::X264 => "libx264"@,
            EncoderType::H264Nvenc => "h264_nvenc"@,
            EncoderType::H264Nvmpi => "h264_nvmpi"@,
        }
    }

    /// The name by which FFmpeg finds the codec.
    pub fn as_str(&self) -> (name: &'static str)
        ensures
            name@ == self.codec_name(),
    {
        match self {
            EncoderType::X264 => "libx264",
            EncoderType::H264Nvenc => "h264_nvenc",
            EncoderType::H264Nvmpi => "h264_nvmpi",
        }
    }

    /// The encoder whose codec has this name.
    pub fn from_name(name: &str) -> (r: Option<EncoderType>)
        ensures
            match r {
                Some(kind) => kind.codec_name() == name@,
                None => forall|kind: EncoderType| #[trigger] kind.codec_name() != name@,
            },
    {
        let name = name.to_owned();
        if name == EncoderType::X264.as_str().to_owned() {
            Some(EncoderType::X264)
        } else if name == EncoderType::H264Nvenc.as_str().to_owned() {
            Some(EncoderType::H264Nvenc)
        } else if name == EncoderType::H264Nvmpi.as_str().to_owned() {
            Some(EncoderType::H264Nvmpi)
        } else {
            None
        }
    }
}

/// Configuration of an encoder.
#[derive(Debug, PartialEq, Eq)]
pub struct EncoderConfig {
    /// Width of the input frames in pixels.
    pub input_width: u32,
    /// Height of the input frames in pixels.
    pub input_height: u32,
    /// Width of the encoded output in pixels.
    pub output_width: u32,
    /// Height of the encoded output in pixels.
    pub output_height: u32,
    /// Frames per second.
    pub framerate: u32,
    /// Size of a group of pictures, the distance between I-frames.
    pub gop: Option<u32>,
    /// Target bits per second.
    pub bitrate: usize,
    /// Whether B-frames are disabled.
    pub disable_b_frames: bool,
    /// The encoder to use.
    pub enc_type: EncoderType,
    /// Pixel format of the input frames.
    pub input_type: InputType,
}

impl Clone for EncoderConfig {
    fn clone(&self) -> (r: EncoderConfig)
        ensures
            r.input_width == self.input_width,
            r.input_height == self.input_height,
            r.output_width == self.output_width,
            r.output_height == self.output_height,
            r.framerate == self.framerate,
            r.gop == self.gop,
            r.bitrate == self.bitrate,
            r.disable_b_frames == self.disable_b_frames,
            r.enc_type == self.enc_type,
            r.input_type@ == self.input_type@,
    {
        EncoderConfig {
            input_width: self.input_width,
            input_height: self.input_height,
            output_width: self.output_width,
            output_height: self.output_height,
            framerate: self.framerate,
            gop: self.gop,
            bitrate: self.bitrate,
            disable_b_frames: self.disable_b_frames,
            enc_type: self.enc_type,
            input_type: self.input_type.clone(),
        }
    }
}

/// Errors of encoding.
#[derive(Debug, PartialEq, Eq)]
pub enum H264EncoderError {
    /// A presentation timestamp lies before the one before it.
    PTSNotMonotonic { prev_pts: i64, curr_pts: i64 },
    /// A call into FFmpeg failed with this text.
    FfmpegError(String),
    /// The codec context could not be allocated.
    AvCodecAllocContextError,
    /// The codec was not found.
    CodecNotFound(String),
    /// The video encoder could not be created.
    EncoderCreationFailed,
    /// A frame could not be scaled.
    ScalingError(String),
    /// A frame could not be encoded.
    FrameEncodeError(String),
    /// The data of a frame could not be read.
    FrameDataReadError(String),
}

impl H264EncoderError {
    /// What the text of the error is.
    pub open spec fn text(self) -> Seq<char> {
        match self {
            H264EncoderError::PTSNotMonotonic { prev_pts, curr_pts } => {
                "PTS was not monotonically increasing: previous PTS: "@ + text::signed_decimal(
                    prev_pts as int,
                ) + " > PTS: "@ + text::signed_decimal(curr_pts as int)
            },
            H264EncoderError::FfmpegError(detail) => "ffmpeg error: "@ + detail@,
            H264EncoderError::AvCodecAllocContextError => "failed to alloc avcodec context"@,
            H264EncoderError::CodecNotFound(name) => "codec not found: "@ + name@,
            H264EncoderError::EncoderCreationFailed => "failed to create video encoder"@,
            H264EncoderError::ScalingError(detail) => "scaling error: "@ + detail@,
            H264EncoderError::FrameEncodeError(detail) => "frame encoding error: "@ + detail@,
            H264EncoderError::FrameDataReadError(detail) => "frame data read error: "@ + detail@,
        }
    }

    /// The text of the error.
    pub fn message(&self) -> (r: String)
        ensures
            r@ == self.text(),
    {
        match self {
            H264EncoderError::PTSNotMonotonic { prev_pts, curr_pts } => {
                let mut out = "PTS was not monotonically increasing: previous PTS: ".to_owned();
                text::push_signed(&mut out, *prev_pts);
                out.append(" > PTS: ");
                text::push_signed(&mut out, *curr_pts);
                out
            },
            H264EncoderError::FfmpegError(detail) => text::joined(
                "ffmpeg error: ",
                detail.as_str(),
            ),
            H264EncoderError::AvCodecAllocContextError => {
                "failed to alloc avcodec context".to_owned()
            },
            H264EncoderError::CodecNotFound(name) => text::joined(
                "codec not found: ",
                name.as_str(),
            ),
            H264EncoderError::EncoderCreationFailed => {
                "failed to create video encoder".to_owned()
            },
            H264EncoderError::ScalingError(detail) => text::joined(
                "scaling error: ",
                detail.as_str(),
            ),
            H264EncoderError::FrameEncodeError(detail) => text::joined(
                "frame encoding error: ",
                detail.as_str(),
            ),
            H264EncoderError::FrameDataReadError(detail) => text::joined(
                "frame data read error: ",
                detail.as_str(),
            ),
        }
    }
}

/// What an encoder knows.
pub struct EncoderModel {
    /// The timestamp of the frame before.
    pub prev_pts: Option<i64>,
    pub input_type: Seq<char>,
    pub input_width: u32,
    pub input_height: u32,
    pub output_width: u32,
    pub output_height: u32,
}

/// An opened encoder.
pub struct H264Encoder {
    prev_pts: Option<i64>,
    input_type: InputType,
    input_width: u32,
    input_height: u32,
    output_width: u32,
    output_height: u32,
}

impl View for H264Encoder {
    type V = EncoderModel;

    closed spec fn view(&self) -> EncoderModel {
        EncoderModel {
            prev_pts: self.prev_pts,
            input_type: self.input_type@,
            input_width: self.input_width,
            input_height: self.input_height,
            output_width: self.output_width,
            output_height: self.output_height,
        }
    }
}

/// The encoder that a configuration opens.
pub open spec fn opened(config: EncoderConfig) -> EncoderModel {
    EncoderModel {
        prev_pts: None,
        input_type: config.input_type@,
        input_width: config.input_width,
        input_height: config.input_height,
        output_width: config.output_width,
        output_height: config.output_height,
    }
}

/// The calls that open an encoder, in their order.
#[derive(Debug, Clone, Copy, PartialEq, Eq, Structural)]
pub enum OpenStep {
    /// Find the codec by its name.
    FindCodec,
    /// Allocate a context for the codec.
    AllocContext,
    /// Make a video encoder of the context.
    CreateEncoder,
    /// Set up the video encoder and open it with the options.
    OpenEncoder,
    /// Create the scaler.
    CreateScaler,
}

/// What is set on a video encoder before it is opened.
#[derive(Debug, PartialEq, Eq)]
pub struct EncoderSettings {
    pub width: u32,
    pub height: u32,
    pub format: InputType,
    /// Numerator and denominator.
    pub frame_rate: (i32, i32),
    /// Numerator and denominator.
    pub time_base: (i32, i32),
    pub bit_rate: usize,
    /// `None` leaves FFmpeg's default.
    pub max_b_frames: Option<usize>,
    /// `None` leaves FFmpeg's default.
    pub gop: Option<u32>,
}

/// How a scaler interpolates.
#[derive(Debug, Clone, Copy, PartialEq, Eq, Structural)]
pub enum ScalingFlag {
    Bilinear,
}

/// What a scaler is created with.
#[derive(Debug, PartialEq, Eq)]
pub struct ScalerSettings {
    pub input_format: InputType,
    pub input_width: u32,
    pub input_height: u32,
    pub output_format: InputType,
    pub output_width: u32,
    pub output_height: u32,
    pub flag: ScalingFlag,
}

impl EncoderSettings {
    /// Whether these are the settings that a configuration asks for.
    pub open spec fn follows(self, config: EncoderConfig) -> bool {
        &&& self.width == config.output_width
        &&& self.height == config.output_height
        &&& self.format@ == "yuv420p"@
        &&& self.frame_rate.0 == as_signed(config.framerate)
        &&& self.frame_rate.1 == 1
        &&& self.time_base.0 == 1
        &&& self.time_base.1 == as_signed(config.framerate)
        &&& self.bit_rate == config.bitrate
        &&& self.max_b_frames == (if config.disable_b_frames {
            Some(0usize)
        } else {
            None
        })
        &&& self.gop == config.gop
    }
}

impl ScalerSettings {
    /// Whether this is the scaler that a configuration asks for.
    pub open spec fn follows(self, config: EncoderConfig) -> bool {
        &&& self.input_format@ == config.input_type@
        &&& self.input_width == config.input_width
        &&& self.input_height == config.input_height
        &&& self.output_format@ == "yuv420p"@
        &&& self.output_width == config.output_width
        &&& self.output_height == config.output_height
        &&& self.flag == ScalingFlag::Bilinear
    }
}

/// The bits of `n` as a signed number.
pub open spec fn as_signed(n: u32) -> int {
    if n <= i32::MAX {
        n as int
    } else {
        n - 0x1_0000_0000
    }
}

fn signed(n: u32) -> (r: i32)
    ensures
        r == as_signed(n),
{
    assert(n <= 0x7fff_ffff ==> n as i32 == n) by (bit_vector);
    assert(n > 0x7fff_ffff ==> n as i32 == n - 0x1_0000_0000) by (bit_vector);
    #[verifier::truncate]
    (n as i32)
}

/// An encoder that is being opened.
pub struct EncoderOpening {
    pub config: EncoderConfig,
    /// The options to open the video encoder with.
    pub options: FfmpegOptions,
    /// The call that is due.
    pub step: OpenStep,
}

/// What to do next to open an encoder.
pub enum OpenAction {
    /// Make the call that is due and hand in its answer.
    Call(EncoderOpening),
    /// The encoder is open.
    Ready(H264Encoder),
    /// Give up.
    Failed(H264EncoderError),
}

impl H264Encoder {
    /// Begins to open an encoder.
    pub fn new(ec: EncoderConfig, extra_ffmpeg_opts: FfmpegOptions) -> (opening: EncoderOpening)
        ensures
            opening == (EncoderOpening {
                config: ec,
                options: extra_ffmpeg_opts,
                step: OpenStep::FindCodec,
            }),
    {
        EncoderOpening { config: ec, options: extra_ffmpeg_opts, step: OpenStep::FindCodec }
    }
}

/// The call after this one; `None` after the last.
pub open spec fn next_step(step: OpenStep) -> Option<OpenStep> {
    match step {
        OpenStep::FindCodec => Some(OpenStep::AllocContext),
        OpenStep::AllocContext => Some(OpenStep::CreateEncoder),
        OpenStep::CreateEncoder => Some(OpenStep::OpenEncoder),
        OpenStep::OpenEncoder => Some(OpenStep::CreateScaler),
        OpenStep::CreateScaler => None,
    }
}

/// Whether `error` is what a failed call gives.
pub open spec fn step_error(
    config: EncoderConfig,
    step: OpenStep,
    detail: Seq<char>,
    error: H264EncoderError,
) -> bool {
    match step {
        OpenStep::FindCodec => error matches H264EncoderError::CodecNotFound(name) && name@
            == config.enc_type.codec_name(),
        OpenStep::AllocContext => error == H264EncoderError::AvCodecAllocContextError,
        OpenStep::CreateEncoder => error == H264EncoderError::EncoderCreationFailed,
        OpenStep::OpenEncoder => error matches H264EncoderError::FfmpegError(text) && text@
            == detail,
        OpenStep::CreateScaler => error matches H264EncoderError::FfmpegError(text) && text@
            == detail,
    }
}

impl EncoderOpening {
    /// The name of the codec to find.
    pub fn codec_name(&self) -> (name: &'static str)
        ensures
            name@ == self.config.enc_type.codec_name(),
    {
        self.config.enc_type.as_str()
    }

    /// What to set on the video encoder before it is opened. The output is planar YUV 4:2:0, the
    /// time base is one frame, and only what the configuration asks for is set of B-frames and
    /// groups of pictures.
    pub fn settings(&self) -> (settings: EncoderSettings)
        ensures
            settings.width == self.config.output_width,
            settings.height == self.config.output_height,
            settings.format@ == "yuv420p"@,
            settings.frame_rate.0 == as_signed(self.config.framerate),
            settings.frame_rate.1 == 1,
            settings.time_base.0 == 1,
            settings.time_base.1 == as_signed(self.config.framerate),
            settings.bit_rate == self.config.bitrate,
            settings.max_b_frames == (if self.config.disable_b_frames {
                Some(0usize)
            } else {
                None
            }),
            settings.gop == self.config.gop,
            settings.follows(self.config),
    {
        EncoderSettings {
            width: self.config.output_width,
            height: self.config.output_height,
            format: InputType::new("yuv420p"),
            frame_rate: (signed(self.config.framerate), 1),
            time_base: (1, signed(self.config.framerate)),
            bit_rate: self.config.bitrate,
            max_b_frames: if self.config.disable_b_frames {
                Some(0)
            } else {
                None
            },
            gop: self.config.gop,
        }
    }

    /// What to create the scaler with: it takes input frames to output frames, bilinearly.
    pub fn scaler(&self) -> (scaler: ScalerSettings)
        ensures
            scaler.input_format@ == self.config.input_type@,
            scaler.input_width == self.config.input_width,
            scaler.input_height == self.config.input_height,
            scaler.output_format@ == "yuv420p"@,
            scaler.output_width == self.config.output_width,
            scaler.output_height == self.config.output_height,
            scaler.flag == ScalingFlag::Bilinear,
            scaler.follows(self.config),
    {
        ScalerSettings {
            input_format: self.config.input_type.clone(),
            input_width: self.config.input_width,
            input_height: self.config.input_height,
            output_format: InputType::new("yuv420p"),
            output_width: self.config.output_width,
            output_height: self.config.output_height,
            flag: ScalingFlag::Bilinear,
        }
    }

    /// Takes the answer of the call that was due; on failure, the text of its error.
    pub fn answered(self, reply: Result<(), String>) -> (action: OpenAction)
        ensures
            match (reply, next_step(self.step)) {
                (Ok(_), Some(step)) => action == OpenAction::Call(
                    (EncoderOpening { step, ..self }),
                ),
                (Ok(_), None) => action matches OpenAction::Ready(encoder) && encoder@ == opened(
                    self.config,
                ),
                (Err(detail), _) => action matches OpenAction::Failed(error) && step_error(
                    self.config,
                    self.step,
                    detail@,
                    error,
                ),
            },
    {
        match reply {
            Ok(_) => {
                let step = match self.step {
                    OpenStep::FindCodec => OpenStep::AllocContext,
                    OpenStep::AllocContext => OpenStep::CreateEncoder,
                    OpenStep::CreateEncoder => OpenStep::OpenEncoder,
                    OpenStep::OpenEncoder => OpenStep::CreateScaler,
                    OpenStep::CreateScaler => {
                        return OpenAction::Ready(
                            H264Encoder {
                                prev_pts: None,
                                input_type: self.config.input_type,
                                input_width: self.config.input_width,
                                input_height: self.config.input_height,
                                output_width: self.config.output_width,
                                output_height: self.config.output_height,
                            },
                        );
                    },
                };
                OpenAction::Call(EncoderOpening { config: self.config, options: self.options, step })
            },
            Err(detail) => OpenAction::Failed(
                match self.step {
                    OpenStep::FindCodec => H264EncoderError::CodecNotFound(
                        self.config.enc_type.as_str().to_owned(),
                    ),
                    OpenStep::AllocContext => H264EncoderError::AvCodecAllocContextError,
                    OpenStep::CreateEncoder => H264EncoderError::EncoderCreationFailed,
                    OpenStep::OpenEncoder => H264EncoderError::FfmpegError(detail),
                    OpenStep::CreateScaler => H264EncoderError::FfmpegError(detail),
                },
            ),
        }
    }
}

/// Whether a frame with this timestamp may follow: not if both timestamps are known and time would
/// run backwards.
pub open spec fn accepts(prev_pts: Option<i64>, pts: Option<i64>) -> bool {
    match (prev_pts, pts) {
        (Some(prev), Some(curr)) => prev <= curr,
        _ => true,
    }
}

/// An encoder after a frame with this timestamp: it notes the timestamp, unless it refuses it.
pub open spec fn after_encode(m: EncoderModel, pts: Option<i64>) -> EncoderModel {
    if accepts(m.prev_pts, pts) {
        EncoderModel { prev_pts: pts, ..m }
    } else {
        m
    }
}

/// A frame to stamp with a timestamp and to send to the encoder.
pub struct SendFrame {
    pub pts: Option<i64>,
}

/// What an encoder handed out.
pub struct Packet<'a> {
    pub data: Option<&'a [u8]>,
    pub is_key: bool,
    pub duration: i64,
    pub pts: Option<i64>,
}

/// An encoded frame.
#[derive(Debug, PartialEq, Eq)]
pub struct EncodedFrame {
    /// The bytes of the NAL units.
    pub nal_bytes: BytesMut,
    /// Whether this is a keyframe.
    pub is_keyframe: bool,
    /// Duration in the time base of the encoder.
    pub duration: i64,
    /// Presentation timestamp.
    pub pts: Option<i64>,
}

/// What an encoded frame holds.
pub struct EncodedModel {
    pub nal_bytes: Seq<u8>,
    pub is_keyframe: bool,
    pub duration: i64,
    pub pts: Option<i64>,
}

impl View for EncodedFrame {
    type V = EncodedModel;

    open spec fn view(&self) -> EncodedModel {
        EncodedModel {
            nal_bytes: buffers::octets(self.nal_bytes),
            is_keyframe: self.is_keyframe,
            duration: self.duration,
            pts: self.pts,
        }
    }
}

/// Why an encoder handed out no packet.
#[derive(Debug, PartialEq, Eq)]
pub enum CallError {
    /// It wants more frames first (`EAGAIN`).
    Again,
    /// It has been drained (`AVERROR_EOF`).
    EndOfFile,
    /// Another error, with this text.
    Other(String),
}

/// What came of asking an encoder for a packet.
pub enum Retrieved {
    Frame(EncodedModel),
    /// Nothing is ready, which is no error.
    Nothing,
    /// The call failed with this text.
    Failed(Seq<char>),
}

/// The texts of other errors by which an encoder says that nothing is ready.
pub open spec fn says_not_ready(detail: Seq<char>) -> bool {
    ||| text::occurs(detail, "encoder buffer full"@)
    ||| text::occurs(detail, "encoder flushed"@)
    ||| text::occurs(detail, "again"@)
}

/// What an answer to a request for a packet comes to. A packet without data counts as nothing, and
/// so do an encoder that wants more frames and one that has been drained.
pub open spec fn retrieved(reply: Result<Packet<'_>, CallError>) -> Retrieved {
    match reply {
        Ok(packet) => match packet.data {
            Some(data) => Retrieved::Frame(
                EncodedModel {
                    nal_bytes: data@,
                    is_keyframe: packet.is_key,
                    duration: packet.duration,
                    pts: packet.pts,
                },
            ),
            None => Retrieved::Nothing,
        },
        Err(CallError::Again) => Retrieved::Nothing,
        Err(CallError::EndOfFile) => Retrieved::Nothing,
        Err(CallError::Other(detail)) => if says_not_ready(detail@) {
            Retrieved::Nothing
        } else {
            Retrieved::Failed(detail@)
        },
    }
}

impl H264Encoder {
    /// Checks the timestamp of the next frame and notes it. A timestamp before the one of the frame
    /// before is refused, and the encoder is as it was.
    pub fn encode(&mut self, pts: Option<i64>) -> (r: Result<SendFrame, H264EncoderError>)
        ensures
            r is Ok <==> accepts(old(self)@.prev_pts, pts),
            final(self)@ == after_encode(old(self)@, pts),
            match r {
                Ok(frame) => {
                    &&& accepts(old(self)@.prev_pts, pts)
                    &&& frame.pts == pts
                    &&& final(self)@ == (EncoderModel { prev_pts: pts, ..old(self)@ })
                },
                Err(error) => {
                    &&& !accepts(old(self)@.prev_pts, pts)
                    &&& error == (H264EncoderError::PTSNotMonotonic {
                        prev_pts: old(self)@.prev_pts->0,
                        curr_pts: pts->0,
                    })
                    &&& final(self)@ == old(self)@
                },
            },
    {
        if let Some(prev_pts) = self.prev_pts {
            if let Some(curr_pts) = pts {
                if prev_pts > curr_pts {
                    return Err(H264EncoderError::PTSNotMonotonic { prev_pts, curr_pts });
                }
            }
        }
        self.prev_pts = pts;
        Ok(SendFrame { pts })
    }

    /// Judges the answer to a request for a packet.
    pub fn retrieve_nal(reply: Result<Packet<'_>, CallError>) -> (r: Result<
        Option<EncodedFrame>,
        H264EncoderError,
    >)
        ensures
            match r {
                Ok(Some(frame)) => retrieved(reply) == Retrieved::Frame(frame@),
                Ok(None) => retrieved(reply) == Retrieved::Nothing,
                Err(H264EncoderError::FfmpegError(detail)) => retrieved(reply) == Retrieved::Failed(
                    detail@,
                ),
                Err(_) => false,
            },
            match reply {
                Ok(packet) => match packet.data {
                    Some(data) => r matches Ok(Some(frame)) && {
                        &&& buffers::octets(frame.nal_bytes) == data@
                        &&& frame.is_keyframe == packet.is_key
                        &&& frame.duration == packet.duration
                        &&& frame.pts == packet.pts
                    },
                    None => r matches Ok(None),
                },
                Err(CallError::Again) => r matches Ok(None),
                Err(CallError::EndOfFile) => r matches Ok(None),
                Err(CallError::Other(_)) => !(r matches Ok(Some(_))),
            },
    {
        match reply {
            Ok(packet) => match packet.data {
                Some(data) => Ok(
                    Some(
                        EncodedFrame {
                            nal_bytes: buffers::copied(data),
                            is_keyframe: packet.is_key,
                            duration: packet.duration,
                            pts: packet.pts,
                        },
                    ),
                ),
                None => Ok(None),
            },
            Err(CallError::Again) => Ok(None),
            Err(CallError::EndOfFile) => Ok(None),
            Err(CallError::Other(detail)) => {
                if text::contains(detail.as_str(), "encoder buffer full") || text::contains(
                    detail.as_str(),
                    "encoder flushed",
                ) || text::contains(detail.as_str(), "again") {
                    Ok(None)
                } else {
                    Err(H264EncoderError::FfmpegError(detail))
                }
            },
        }
    }
}

impl SendFrame {
    /// Takes the answer to sending the frame. Once it is sent, a packet is to be asked for.
    pub fn sent(self, reply: Result<(), String>) -> (r: Result<(), H264EncoderError>)
        ensures
            match reply {
                Ok(_) => r is Ok,
                Err(detail) => r matches Err(H264EncoderError::FrameEncodeError(text)) && text@
                    == detail@,
            },
    {
        match reply {
            Ok(_) => Ok(()),
            Err(detail) => Err(H264EncoderError::FrameEncodeError(detail)),
        }
    }
}

/// The shape of a frame.
#[derive(Debug, PartialEq, Eq)]
pub struct FrameShape {
    pub format: InputType,
    pub width: u32,
    pub height: u32,
}

/// A frame to fill with input and the frame that the scaler makes of it.
#[derive(Debug, PartialEq, Eq)]
pub struct FramePair {
    pub input: FrameShape,
    pub output: FrameShape,
}

impl FramePair {
    /// Whether input of this size is scaled to the output of an encoder.
    pub open spec fn scales(self, m: EncoderModel, width: int, height: int) -> bool {
        &&& self.input.format@ == m.input_type
        &&& self.input.width == width
        &&& self.input.height == height
        &&& self.output.format@ == "yuv420p"@
        &&& self.output.width == m.output_width
        &&& self.output.height == m.output_height
    }
}

/// Why an encoder makes no frames for raw input: a dimension that FFmpeg cannot take, the first of
/// them in this order.
pub open spec fn raw_refusal(m: EncoderModel) -> Option<Seq<char>> {
    if m.output_width > i32::MAX {
        Some("Invalid output width"@)
    } else if m.output_height > i32::MAX {
        Some("Invalid output height"@)
    } else if m.input_width > i32::MAX {
        Some("Invalid input width"@)
    } else if m.input_height > i32::MAX {
        Some("Invalid input height"@)
    } else {
        None
    }
}

/// Where the `i`-th plane starts when planes of these sizes lie one behind the other.
pub open spec fn plane_start(planes: Seq<usize>, i: int) -> nat
    decreases i,
{
    if i <= 0 {
        0
    } else {
        plane_start(planes, i - 1) + planes[i - 1] as nat
    }
}

/// Whether the `i`-th plane is the first that `len` bytes do not fill.
pub open spec fn first_short(planes: Seq<usize>, len: nat, i: int) -> bool {
    &&& 0 <= i < planes.len()
    &&& plane_start(planes, i) <= len < plane_start(planes, i + 1)
}

/// Whether the slices are the planes of the input, one behind the other.
pub open spec fn cuts(slices: Seq<Seq<u8>>, input: Seq<u8>, planes: Seq<usize>) -> bool {
    &&& slices.len() == planes.len()
    &&& plane_start(planes, planes.len() as int) <= input.len()
    &&& forall|i: int|
        0 <= i < planes.len() ==> #[trigger] slices[i] == input.subrange(
            plane_start(planes, i) as int,
            plane_start(planes, i + 1) as int,
        )
}

/// The text for input that ends before `end`.
pub open spec fn too_small(len: nat, end: nat) -> Seq<char> {
    "Input buffer too small: "@ + text::decimal(len) + " < "@ + text::decimal(end)
}

/// Plane starts do not go down.
pub proof fn lemma_plane_start_monotonic(planes: Seq<usize>, i: int, j: int)
    requires
        0 <= i <= j,
    ensures
        plane_start(planes, i) <= plane_start(planes, j),
    decreases j - i,
{
    if i < j {
        lemma_plane_start_monotonic(planes, i, j - 1);
    }
}

fn frame_encode_error(detail: &str) -> (error: H264EncoderError)
    ensures
        error matches H264EncoderError::FrameEncodeError(text) && text@ == detail@,
{
    H264EncoderError::FrameEncodeError(detail.to_owned())
}

fn too_small_error(len: usize, end: usize) -> (error: H264EncoderError)
    ensures
        error matches H264EncoderError::FrameEncodeError(text) && text@ == too_small(
            len as nat,
            end as nat,
        ),
{
    let mut out = "Input buffer too small: ".to_owned();
    text::push_decimal(&mut out, len as u64);
    out.append(" < ");
    text::push_decimal(&mut out, end as u64);
    H264EncoderError::FrameEncodeError(out)
}

impl H264Encoder {
    /// The frames for raw input: of the input format and size, and of the output size.
    pub fn encode_raw(&self) -> (r: Result<FramePair, H264EncoderError>)
        ensures
            match r {
                Ok(pair) => {
                    &&& raw_refusal(self@) is None
                    &&& pair.input.format@ == self@.input_type
                    &&& pair.input.width == self@.input_width
                    &&& pair.input.height == self@.input_height
                    &&& pair.scales(self@, self@.input_width as int, self@.input_height as int)
                    &&& pair.output.format@ == "yuv420p"@
                    &&& pair.output.width == self@.output_width
                    &&& pair.output.height == self@.output_height
                },
                Err(H264EncoderError::FrameEncodeError(detail)) => raw_refusal(self@) == Some(
                    detail@,
                ),
                Err(_) => false,
            },
            r is Ok <==> self@.output_width <= i32::MAX && self@.output_height <= i32::MAX
                && self@.input_width <= i32::MAX && self@.input_height <= i32::MAX,
    {
        if self.output_width > 0x7fff_ffff {
            return Err(frame_encode_error("Invalid output width"));
        }
        if self.output_height > 0x7fff_ffff {
            return Err(frame_encode_error("Invalid output height"));
        }
        if self.input_width > 0x7fff_ffff {
            return Err(frame_encode_error("Invalid input width"));
        }
        if self.input_height > 0x7fff_ffff {
            return Err(frame_encode_error("Invalid input height"));
        }
        Ok(
            FramePair {
                input: FrameShape {
                    format: self.input_type.clone(),
                    width: self.input_width,
                    height: self.input_height,
                },
                output: FrameShape {
                    format: InputType::new("yuv420p"),
                    width: self.output_width,
                    height: self.output_height,
                },
            },
        )
    }

    /// The frames for an image matrix: of the input format and the size of the matrix, and of the
    /// output size.
    pub fn encode_mat(&self, cols: i32, rows: i32) -> (r: Result<FramePair, H264EncoderError>)
        ensures
            match r {
                Ok(pair) => {
                    &&& cols >= 0 && rows >= 0
                    &&& pair.input.format@ == self@.input_type
                    &&& pair.input.width == cols
                    &&& pair.input.height == rows
                    &&& pair.scales(self@, cols as int, rows as int)
                    &&& pair.output.format@ == "yuv420p"@
                    &&& pair.output.width == self@.output_width
                    &&& pair.output.height == self@.output_height
                },
                Err(H264EncoderError::FrameEncodeError(detail)) => if cols < 0 {
                    detail@ == "Invalid width"@
                } else {
                    rows < 0 && detail@ == "Invalid height"@
                },
                Err(_) => false,
            },
    {
        if cols < 0 {
            return Err(frame_encode_error("Invalid width"));
        }
        if rows < 0 {
            return Err(frame_encode_error("Invalid height"));
        }
        Ok(
            FramePair {
                input: FrameShape {
                    format: self.input_type.clone(),
                    width: cols as u32,
                    height: rows as u32,
                },
                output: FrameShape {
                    format: InputType::new("yuv420p"),
                    width: self.output_width,
                    height: self.output_height,
                },
            },
        )
    }
}

impl FramePair {
    /// Cuts raw input into the planes of the input frame, which lie one behind the other. What
    /// follows the last of several planes is left over; a single plane takes no more than it holds.
    pub fn split_planes<'a>(input: &'a [u8], planes: &[usize]) -> (r: Result<
        Vec<&'a [u8]>,
        H264EncoderError,
    >)
        requires
            planes@.len() > 0,
            plane_start(planes@, planes@.len() as int) <= usize::MAX,
            planes@.len() == 1 ==> input@.len() <= planes@[0],
        ensures
            match r {
                Ok(slices) => {
                    &&& plane_start(planes@, planes@.len() as int) <= input@.len()
                    &&& slices@.len() == planes@.len()
                    &&& forall|i: int|
                        0 <= i < planes@.len() ==> (#[trigger] slices@[i])@ == input@.subrange(
                            plane_start(planes@, i) as int,
                            plane_start(planes@, i + 1) as int,
                        )
                    &&& cuts(
                        Seq::new(slices@.len(), |i: int| slices@[i]@),
                        input@,
                        planes@,
                    )
                },
                Err(H264EncoderError::FrameEncodeError(detail)) => exists|i: int| #[trigger]
                    first_short(planes@, input@.len(), i) && detail@ == too_small(
                        input@.len(),
                        plane_start(planes@, i + 1),
                    ),
                Err(_) => false,
            },
    {
        let mut slices: Vec<&'a [u8]> = Vec::new();
        let mut start: usize = 0;
        let mut i: usize = 0;
        while i < planes.len()
            invariant
                i <= planes@.len(),
                plane_start(planes@, planes@.len() as int) <= usize::MAX,
                start == plane_start(planes@, i as int),
                start <= input@.len(),
                slices@.len() == i,
                forall|j: int|
                    0 <= j < i ==> (#[trigger] slices@[j])@ == input@.subrange(
                        plane_start(planes@, j) as int,
                        plane_start(planes@, j + 1) as int,
                    ),
            decreases planes@.len() - i,
        {
            proof {
                lemma_plane_start_monotonic(planes@, i as int + 1, planes@.len() as int);
                assert(plane_start(planes@, i as int + 1) == plane_start(planes@, i as int)
                    + planes@[i as int] as nat);
            }
            let end: usize = start + planes[i];
            if end > input.len() {
                assert(first_short(planes@, input@.len(), i as int));
                return Err(too_small_error(input.len(), end));
            }
            slices.push(vstd::slice::slice_subrange(input, start, end));
            start = end;
            i = i + 1;
        }
        Ok(slices)
    }

    /// Takes the answer to reading the data of an image matrix; on failure, its text.
    pub fn mat_data<'a>(data: Result<&'a [u8], String>) -> (r: Result<&'a [u8], H264EncoderError>)
        ensures
            match data {
                Ok(bytes) => r == Ok::<&[u8], H264EncoderError>(bytes),
                Err(detail) => r matches Err(H264EncoderError::FrameDataReadError(text)) && text@
                    == detail@,
            },
    {
        match data {
            Ok(bytes) => Ok(bytes),
            Err(detail) => Err(H264EncoderError::FrameDataReadError(detail)),
        }
    }

    /// Takes the answer to scaling the input frame to the output frame; on failure, its text. The
    /// output frame is then encoded.
    pub fn scaled(self, encoder: &mut H264Encoder, pts: Option<i64>, reply: Result<(), String>) -> (r:
        Result<SendFrame, H264EncoderError>)
        ensures
            r is Ok <==> reply is Ok && accepts(old(encoder)@.prev_pts, pts),
            final(encoder)@ == (if reply is Ok {
                after_encode(old(encoder)@, pts)
            } else {
                old(encoder)@
            }),
            match (reply, r) {
                (Ok(_), Ok(frame)) => {
                    &&& accepts(old(encoder)@.prev_pts, pts)
                    &&& frame.pts == pts
                    &&& final(encoder)@ == (EncoderModel { prev_pts: pts, ..old(encoder)@ })
                },
                (Ok(_), Err(error)) => {
                    &&& !accepts(old(encoder)@.prev_pts, pts)
                    &&& error == (H264EncoderError::PTSNotMonotonic {
                        prev_pts: old(encoder)@.prev_pts->0,
                        curr_pts: pts->0,
                    })
                    &&& final(encoder)@ == old(encoder)@
                },
                (Err(detail), Err(H264EncoderError::ScalingError(text))) => {
                    &&& text@ == detail@
                    &&& final(encoder)@ == old(encoder)@
                },
                (Err(_), _) => false,
            },
    {
        match reply {
            Ok(_) => encoder.encode(pts),
            Err(detail) => Err(H264EncoderError::ScalingError(detail)),
        }
    }
}

/// What each encoded frame holds.
pub open spec fn encoded_models(frames: Seq<EncodedFrame>) -> Seq<EncodedModel> {
    Seq::new(frames.len(), |i: int| frames[i]@)
}

/// An encoder that has been told the end of the stream and is asked for packets until none comes.
pub struct Drain {
    frames: Vec<EncodedFrame>,
}

impl View for Drain {
    type V = Seq<EncodedModel>;

    closed spec fn view(&self) -> Seq<EncodedModel> {
        encoded_models(self.frames@)
    }
}

/// What to do next to drain an encoder.
pub enum DrainAction {
    /// Ask for a packet and hand in the answer.
    Receive(Drain),
    /// All frames are out.
    Done(Vec<EncodedFrame>),
    /// Give up.
    Failed(H264EncoderError),
}

impl H264Encoder {
    /// Takes the answer to telling the encoder the end of the stream, and begins to drain it.
    pub fn drain(self, reply: Result<(), String>) -> (r: Result<Drain, H264EncoderError>)
        ensures
            match reply {
                Ok(_) => r matches Ok(drain) && drain@.len() == 0,
                Err(detail) => r matches Err(H264EncoderError::FfmpegError(text)) && text@
                    == detail@,
            },
    {
        match reply {
            Ok(_) => Ok(Drain { frames: Vec::new() }),
            Err(detail) => Err(H264EncoderError::FfmpegError(detail)),
        }
    }
}

impl Drain {
    /// Takes the answer to a request for a packet. A frame is put behind those before it, and
    /// nothing ends the drain.
    pub fn received(self, reply: Result<Packet<'_>, CallError>) -> (action: DrainAction)
        ensures
            match retrieved(reply) {
                Retrieved::Frame(frame) => action matches DrainAction::Receive(drain) && drain@
                    == self@.push(frame),
                Retrieved::Nothing => action matches DrainAction::Done(frames) && encoded_models(
                    frames@,
                ) == self@,
                Retrieved::Failed(detail) => action matches DrainAction::Failed(
                    H264EncoderError::FfmpegError(text),
                ) && text@ == detail,
            },
            reply matches Ok(packet) ==> match packet.data {
                Some(data) => action matches DrainAction::Receive(drain) && {
                    &&& drain@.len() == self@.len() + 1
                    &&& drain@.drop_last() == self@
                    &&& drain@.last().nal_bytes == data@
                    &&& drain@.last().is_keyframe == packet.is_key
                    &&& drain@.last().duration == packet.duration
                    &&& drain@.last().pts == packet.pts
                },
                None => action matches DrainAction::Done(frames) && encoded_models(frames@)
                    == self@,
            },
            reply matches Err(CallError::EndOfFile) ==> (action matches DrainAction::Done(frames)
                && encoded_models(frames@) == self@),
    {
        let mut frames = self.frames;
        match H264Encoder::retrieve_nal(reply) {
            Ok(Some(frame)) => {
                frames.push(frame);
                assert(encoded_models(frames@) == self@.push(frame@));
                DrainAction::Receive(Drain { frames })
            },
            Ok(None) => DrainAction::Done(frames),
            Err(error) => DrainAction::Failed(error),
        }
    }
}

} // verus!
