//! Video streams: H.264 from a V4L2 capture device.
pub mod laws;
pub mod v4l_h264;

pub use v4l_h264::{
    run_v4l_stream, FourCC, Phase, V4lAction, V4lEvent, V4lH264Config, V4lH264Stream,
    V4lStreamError,
};
