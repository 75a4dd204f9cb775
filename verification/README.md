# ffutility

Video streaming utilities: import of H.264 Annex B streams into MoQ broadcasts, H.264 encoding with
FFmpeg, and capture from V4L2 devices.

- `src/` is the library, verified with Verus. It holds the decisions: which NAL units make which
  frames, what an encoder is set up with and what its answers mean, and what a capture stream does
  next. `parsers/laws.rs`, `encoders/laws.rs` and `streams/laws.rs` state what holds of whole runs.
- `app/` performs the calls that the library asks for, on MoQ, FFmpeg, OpenCV and V4L2.
- `tests/` runs the library.

What is trusted of the crates `h264-reader` and `bytes` and of the standard library is stated where it
is called: in `src/bitstream.rs`, `src/annexb.rs`, `src/buffers.rs`, `src/clock.rs` and `src/text.rs`.
