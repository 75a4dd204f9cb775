//! Video streaming utilities.
//!
//! The crate holds the decisions of three tools and leaves the devices, codecs and networks to
//! its caller:
//!
//! - [`parsers`]: cuts an H.264 Annex B stream into NAL units and makes MoQ frames of them;
//! - [`encoders`]: configures an FFmpeg H.264 encoder and judges what it answers;
//! - [`streams`]: drives a V4L2 capture device and an encoder, step by step.
pub mod annexb;
pub mod bitstream;
pub mod buffers;
pub mod clock;
pub mod encoders;
pub mod parsers;
pub mod streams;
pub mod text;
