//! Video stream parsers: H.264 in Annex B format, for MoQ broadcasts.
pub mod h264;
pub mod laws;

pub use h264::{
    AnnexBStreamImport, Dimensions, Frame, H264ParserError, ImportError, InitAction, InitSession,
    PublishRequest, ReadAction, ReadSession, Track, Video, H264,
};
