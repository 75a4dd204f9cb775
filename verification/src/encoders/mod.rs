//! Video encoders: H.264 through FFmpeg, in software or on NVIDIA hardware.
pub mod h264;
pub mod laws;

pub use h264::{
    CallError, Drain, DrainAction, EncodedFrame, EncoderConfig, EncoderOpening, EncoderSettings,
    EncoderType, FfmpegOptions, FramePair, FrameShape, H264Encoder, H264EncoderError, InputType,
    OpenAction, OpenStep, Packet, ScalerSettings, ScalingFlag, SendFrame,
};
