use bytes::BytesMut;
use ffutility::encoders::{EncodedFrame, EncoderType, H264EncoderError, InputType, OpenStep};
use ffutility::streams::{
    run_v4l_stream, FourCC, Phase, V4lAction, V4lEvent, V4lH264Config, V4lH264Stream,
    V4lStreamError,
};

fn stream() -> V4lH264Stream {
    let config = V4lH264Config {
        output_width: 1280,
        output_height: 720,
        bitrate: 500_000,
        input_type: InputType::new("bgr24"),
        v4l_fourcc: FourCC::new(b"BGR3"),
        video_dev: String::from("/dev/video0"),
    };
    V4lH264Stream::new(config, vec![(String::from("preset"), String::from("superfast"))])
}

fn fail<T>() -> Result<T, String> {
    Err(String::from("x"))
}

fn encoded(bytes: &[u8]) -> EncodedFrame {
    EncodedFrame {
        nal_bytes: BytesMut::from(bytes),
        is_keyframe: false,
        duration: 1,
        pts: None,
    }
}

/// Runs a stream up to the phase, with everything going well.
fn run_to(phase: Phase) -> V4lH264Stream {
    let mut stream = stream();
    while stream.phase() != phase {
        let event = match stream.phase() {
            Phase::Probe | Phase::Open => V4lEvent::DeviceOpened(Ok(())),
            Phase::List => V4lEvent::Formats(Ok(vec![FourCC::new(b"BGR3")])),
            Phase::MapStream => V4lEvent::StreamMapped(Ok(())),
            Phase::ReadFormat => V4lEvent::FormatRead(Ok((640, 480))),
            Phase::OpenEncoder => V4lEvent::EncoderOpened(Ok(())),
            Phase::Capture => V4lEvent::Captured(Ok((&[1, 2, 3], 2))),
            Phase::Encode => V4lEvent::Encoded(Ok(Some(encoded(&[9])))),
            _ => panic!("phase is out of the way"),
        };
        run_v4l_stream(&mut stream, event);
    }
    stream
}

fn stop(phase: Phase, event: V4lEvent<'_>) -> String {
    let mut stream = run_to(phase);
    match run_v4l_stream(&mut stream, event) {
        V4lAction::Stop(error) => {
            assert_eq!(stream.phase(), Phase::Stopped);
            error.message()
        }
        _ => panic!("expected the stream to stop"),
    }
}

#[test]
fn stream_starts_with_the_device() {
    let stream = stream();
    assert_eq!(stream.phase(), Phase::Probe);
    assert_eq!(stream.device(), "/dev/video0");
}

#[test]
fn codes_are_compared_by_character() {
    assert!(FourCC::new(b"BGR3").same(&FourCC::new(b"BGR3")));
    for other in [b"XGR3", b"BXR3", b"BGX3", b"BGR4"] {
        assert!(!FourCC::new(b"BGR3").same(&FourCC::new(other)));
    }
}

#[test]
fn device_is_probed_until_it_offers_the_format() {
    let mut stream = stream();
    for formats in [vec![], vec![FourCC::new(b"MJPG"), FourCC::new(b"YUYV")]] {
        assert!(matches!(
            run_v4l_stream(&mut stream, V4lEvent::DeviceOpened(Ok(()))),
            V4lAction::ListFormats
        ));
        assert!(matches!(
            run_v4l_stream(&mut stream, V4lEvent::Formats(Ok(formats))),
            V4lAction::Wait(1)
        ));
        assert!(matches!(
            run_v4l_stream(&mut stream, V4lEvent::Waited),
            V4lAction::OpenDevice
        ));
        assert_eq!(stream.phase(), Phase::Probe);
    }
    run_v4l_stream(&mut stream, V4lEvent::DeviceOpened(Ok(())));
    let formats = vec![FourCC::new(b"MJPG"), FourCC::new(b"BGR3")];
    assert!(matches!(
        run_v4l_stream(&mut stream, V4lEvent::Formats(Ok(formats))),
        V4lAction::OpenDevice
    ));
    assert_eq!(stream.phase(), Phase::Open);
}

#[test]
fn device_is_set_up_step_by_step() {
    let mut stream = run_to(Phase::Open);
    assert!(matches!(
        run_v4l_stream(&mut stream, V4lEvent::DeviceOpened(Ok(()))),
        V4lAction::MapStream
    ));
    assert!(matches!(
        run_v4l_stream(&mut stream, V4lEvent::StreamMapped(Ok(()))),
        V4lAction::ReadFormat
    ));
    let opening = match run_v4l_stream(&mut stream, V4lEvent::FormatRead(Ok((640, 480)))) {
        V4lAction::OpenEncoder(opening) => opening,
        _ => panic!("expected to open the encoder"),
    };
    assert_eq!(opening.step, OpenStep::FindCodec);
    assert_eq!(opening.options.len(), 1);
    assert_eq!(opening.options[0].1, "superfast");
    assert_eq!((opening.config.input_width, opening.config.input_height), (640, 480));
    assert_eq!((opening.config.output_width, opening.config.output_height), (1280, 720));
    assert_eq!(opening.config.framerate, 15);
    assert_eq!(opening.config.gop, None);
    assert_eq!(opening.config.bitrate, 500_000);
    assert!(!opening.config.disable_b_frames);
    assert_eq!(opening.config.enc_type, EncoderType::X264);
    assert_eq!(opening.config.input_type.name, "bgr24");
    assert!(matches!(
        run_v4l_stream(&mut stream, V4lEvent::EncoderOpened(Ok(()))),
        V4lAction::Capture
    ));
}

#[test]
fn timestamps_count_the_captured_frames() {
    let mut stream = run_to(Phase::Capture);
    for expected in 0..5i64 {
        match run_v4l_stream(&mut stream, V4lEvent::Captured(Ok((&[1, 2, 3], 2)))) {
            V4lAction::Encode(pts, input) => {
                assert_eq!(pts, expected);
                assert_eq!(input, &[1, 2]);
            }
            _ => panic!("expected a frame to encode"),
        }
        if expected % 2 == 0 {
            assert!(matches!(
                run_v4l_stream(&mut stream, V4lEvent::Encoded(Ok(None))),
                V4lAction::Capture
            ));
        } else {
            match run_v4l_stream(&mut stream, V4lEvent::Encoded(Ok(Some(encoded(&[4, 5]))))) {
                V4lAction::Send(bytes) => assert_eq!(&bytes[..], &[4, 5]),
                _ => panic!("expected bytes to send"),
            }
            assert!(matches!(
                run_v4l_stream(&mut stream, V4lEvent::Sent(Ok(()))),
                V4lAction::Capture
            ));
        }
    }
}

#[test]
fn each_failure_stops_the_stream() {
    let encoder_error = || H264EncoderError::EncoderCreationFailed;
    assert_eq!(
        stop(Phase::Probe, V4lEvent::DeviceOpened(fail())),
        "Failed to open V4L device: x"
    );
    assert_eq!(stop(Phase::List, V4lEvent::Formats(fail())), "Failed to get V4L formats: x");
    assert_eq!(stop(Phase::Open, V4lEvent::DeviceOpened(fail())), "Failed to open V4L device: x");
    assert_eq!(
        stop(Phase::MapStream, V4lEvent::StreamMapped(fail())),
        "Failed to create MmapStream: x"
    );
    assert_eq!(
        stop(Phase::ReadFormat, V4lEvent::FormatRead(fail())),
        "Failed to get V4L format: x"
    );
    assert_eq!(
        stop(Phase::OpenEncoder, V4lEvent::EncoderOpened(Err(encoder_error()))),
        "Failed to create H264 encoder: failed to create video encoder"
    );
    assert_eq!(stop(Phase::Capture, V4lEvent::Captured(fail())), "Stream iteration error: x");
    assert_eq!(
        stop(Phase::Encode, V4lEvent::Encoded(Err(encoder_error()))),
        "Error encoding frame: failed to create video encoder"
    );
    assert_eq!(
        stop(Phase::Send, V4lEvent::Sent(Err(BytesMut::from(&[1u8][..])))),
        "Channel send error: channel closed"
    );
}

#[test]
fn unsent_bytes_come_back() {
    let mut stream = run_to(Phase::Send);
    let unsent = BytesMut::from(&[7u8, 8][..]);
    match run_v4l_stream(&mut stream, V4lEvent::Sent(Err(unsent))) {
        V4lAction::Stop(V4lStreamError::ChannelSendError(bytes)) => {
            assert_eq!(&bytes[..], &[7, 8]);
        }
        _ => panic!("expected the stream to stop"),
    }
}
