use ffutility::encoders::{
    CallError, Drain, DrainAction, EncoderConfig, EncoderType, FramePair, H264Encoder, H264EncoderError,
    InputType, OpenAction, OpenStep, Packet, ScalingFlag,
};

fn config() -> EncoderConfig {
    EncoderConfig {
        input_width: 640,
        input_height: 480,
        output_width: 1280,
        output_height: 720,
        framerate: 15,
        gop: None,
        bitrate: 500_000,
        disable_b_frames: false,
        enc_type: EncoderType::X264,
        input_type: InputType::new("bgr24"),
    }
}

fn opened(config: EncoderConfig) -> H264Encoder {
    let mut opening = H264Encoder::new(config, Vec::new());
    for _ in 0..5 {
        match opening.answered(Ok(())) {
            OpenAction::Call(next) => opening = next,
            OpenAction::Ready(encoder) => return encoder,
            OpenAction::Failed(error) => panic!("{}", error.message()),
        }
    }
    panic!("too many steps")
}

fn packet(data: &[u8]) -> Packet<'_> {
    Packet { data: Some(data), is_key: true, duration: 1, pts: Some(3) }
}

fn failure<T>(text: &str) -> Result<T, String> {
    Err(String::from(text))
}

fn other<T>(text: &str) -> Result<T, CallError> {
    Err(CallError::Other(String::from(text)))
}

fn drain() -> Drain {
    match opened(config()).drain(Ok(())) {
        Ok(drain) => drain,
        Err(error) => panic!("{}", error.message()),
    }
}

#[test]
fn codec_names() {
    assert_eq!(EncoderType::X264.as_str(), "libx264");
    assert_eq!(EncoderType::H264Nvenc.as_str(), "h264_nvenc");
    assert_eq!(EncoderType::H264Nvmpi.as_str(), "h264_nvmpi");
    for kind in [EncoderType::X264, EncoderType::H264Nvenc, EncoderType::H264Nvmpi] {
        assert_eq!(EncoderType::from_name(kind.as_str()), Some(kind));
    }
    assert_eq!(EncoderType::from_name("libx265"), None);
    assert_eq!(config().clone(), config());
}

#[test]
fn opening_takes_five_calls_in_order() {
    let options = vec![(String::from("preset"), String::from("superfast"))];
    let mut opening = H264Encoder::new(config(), options);
    let mut steps = vec![opening.step];
    loop {
        match opening.answered(Ok(())) {
            OpenAction::Call(next) => {
                assert_eq!(next.options.len(), 1);
                assert_eq!(next.options[0].0, "preset");
                steps.push(next.step);
                opening = next;
            }
            OpenAction::Ready(_) => break,
            OpenAction::Failed(error) => panic!("{}", error.message()),
        }
    }
    assert_eq!(
        steps,
        vec![
            OpenStep::FindCodec,
            OpenStep::AllocContext,
            OpenStep::CreateEncoder,
            OpenStep::OpenEncoder,
            OpenStep::CreateScaler,
        ]
    );
}

#[test]
fn each_failed_call_has_its_error() {
    let expected = [
        "codec not found: h264_nvenc",
        "failed to alloc avcodec context",
        "failed to create video encoder",
        "ffmpeg error: x",
        "ffmpeg error: x",
    ];
    for (failing, message) in expected.iter().enumerate() {
        let mut opening = H264Encoder::new(
            EncoderConfig { enc_type: EncoderType::H264Nvenc, ..config() },
            Vec::new(),
        );
        for _ in 0..failing {
            opening = match opening.answered(Ok(())) {
                OpenAction::Call(next) => next,
                _ => panic!("expected a further call"),
            };
        }
        match opening.answered(failure("x")) {
            OpenAction::Failed(error) => assert_eq!(&error.message(), message),
            _ => panic!("expected a failure"),
        }
    }
}

#[test]
fn settings_of_the_encoder() {
    let opening = H264Encoder::new(config(), Vec::new());
    assert_eq!(opening.codec_name(), "libx264");
    let settings = opening.settings();
    assert_eq!((settings.width, settings.height), (1280, 720));
    assert_eq!(settings.format, InputType::new("yuv420p"));
    assert_eq!(settings.frame_rate, (15, 1));
    assert_eq!(settings.time_base, (1, 15));
    assert_eq!(settings.bit_rate, 500_000);
    assert_eq!(settings.max_b_frames, None);
    assert_eq!(settings.gop, None);
    let asked = EncoderConfig {
        framerate: u32::MAX,
        gop: Some(30),
        disable_b_frames: true,
        ..config()
    };
    let settings = H264Encoder::new(asked, Vec::new()).settings();
    assert_eq!(settings.max_b_frames, Some(0));
    assert_eq!(settings.gop, Some(30));
    assert_eq!(settings.frame_rate, (-1, 1));
    assert_eq!(settings.time_base, (1, -1));
}

#[test]
fn settings_of_the_scaler() {
    let scaler = H264Encoder::new(config(), Vec::new()).scaler();
    assert_eq!(scaler.input_format.name, "bgr24");
    assert_eq!((scaler.input_width, scaler.input_height), (640, 480));
    assert_eq!(scaler.output_format.name, "yuv420p");
    assert_eq!((scaler.output_width, scaler.output_height), (1280, 720));
    assert_eq!(scaler.flag, ScalingFlag::Bilinear);
}

#[test]
fn timestamps_do_not_go_back() {
    let mut encoder = opened(config());
    assert_eq!(encoder.encode(Some(5)).unwrap_or_else(|_| panic!()).pts, Some(5));
    assert!(encoder.encode(Some(5)).is_ok());
    match encoder.encode(Some(-4)) {
        Err(error) => {
            assert_eq!(error, H264EncoderError::PTSNotMonotonic { prev_pts: 5, curr_pts: -4 });
            assert_eq!(
                error.message(),
                "PTS was not monotonically increasing: previous PTS: 5 > PTS: -4"
            );
        }
        Ok(_) => panic!("expected a refusal"),
    }
    assert!(encoder.encode(Some(4)).is_err());
    assert!(encoder.encode(Some(6)).is_ok());
}

#[test]
fn frame_without_timestamp_lets_any_follow() {
    let mut encoder = opened(config());
    assert!(encoder.encode(Some(5)).is_ok());
    assert_eq!(encoder.encode(None).unwrap_or_else(|_| panic!()).pts, None);
    assert!(encoder.encode(Some(1)).is_ok());
}

#[test]
fn sending_a_frame() {
    let mut encoder = opened(config());
    let frame = encoder.encode(Some(0)).unwrap_or_else(|_| panic!());
    assert!(frame.sent(Ok(())).is_ok());
    let frame = encoder.encode(Some(1)).unwrap_or_else(|_| panic!());
    match frame.sent(failure("x")) {
        Err(error) => assert_eq!(error.message(), "frame encoding error: x"),
        Ok(_) => panic!("expected a failure"),
    }
}

#[test]
fn packet_becomes_a_frame() {
    let frame = H264Encoder::retrieve_nal(Ok(packet(&[1, 2, 3]))).unwrap().unwrap();
    assert_eq!(&frame.nal_bytes[..], &[1, 2, 3]);
    assert!(frame.is_keyframe);
    assert_eq!(frame.duration, 1);
    assert_eq!(frame.pts, Some(3));
}

#[test]
fn nothing_ready_is_no_error() {
    let empty = Packet { data: None, is_key: false, duration: 0, pts: None };
    assert_eq!(H264Encoder::retrieve_nal(Ok(empty)), Ok(None));
    for text in ["encoder buffer full", "the encoder flushed.", "Try again later", "again"] {
        assert_eq!(H264Encoder::retrieve_nal(other(text)), Ok(None));
    }
    assert_eq!(H264Encoder::retrieve_nal(Err(CallError::Again)), Ok(None));
    assert_eq!(H264Encoder::retrieve_nal(Err(CallError::EndOfFile)), Ok(None));
    for text in ["", "Again", "encoder buffer  full", "Invalid data"] {
        assert_eq!(
            H264Encoder::retrieve_nal(other(text)),
            Err(H264EncoderError::FfmpegError(String::from(text)))
        );
    }
}

#[test]
fn frames_for_raw_input() {
    let pair = opened(config()).encode_raw().unwrap();
    assert_eq!(pair.input.format.name, "bgr24");
    assert_eq!((pair.input.width, pair.input.height), (640, 480));
    assert_eq!(pair.output.format.name, "yuv420p");
    assert_eq!((pair.output.width, pair.output.height), (1280, 720));
}

#[test]
fn dimensions_that_are_too_large() {
    let big = 0x8000_0000u32;
    let all = EncoderConfig {
        input_width: big,
        input_height: big,
        output_width: big,
        output_height: big,
        ..config()
    };
    let message = |c: EncoderConfig| opened(c).encode_raw().unwrap_err().message();
    assert_eq!(message(all), "frame encoding error: Invalid output width");
    assert_eq!(
        message(EncoderConfig { output_height: big, input_width: big, ..config() }),
        "frame encoding error: Invalid output height"
    );
    assert_eq!(
        message(EncoderConfig { input_width: big, input_height: big, ..config() }),
        "frame encoding error: Invalid input width"
    );
    assert_eq!(
        message(EncoderConfig { input_height: big, ..config() }),
        "frame encoding error: Invalid input height"
    );
    assert!(opened(EncoderConfig { input_height: big - 1, ..config() }).encode_raw().is_ok());
}

#[test]
fn frames_for_a_matrix() {
    let encoder = opened(config());
    let pair = encoder.encode_mat(320, 0).unwrap();
    assert_eq!((pair.input.width, pair.input.height), (320, 0));
    assert_eq!((pair.output.width, pair.output.height), (1280, 720));
    assert_eq!(encoder.encode_mat(640, 480), encoder.encode_raw());
    assert_eq!(
        encoder.encode_mat(-1, -1).unwrap_err().message(),
        "frame encoding error: Invalid width"
    );
    assert_eq!(
        encoder.encode_mat(0, -1).unwrap_err().message(),
        "frame encoding error: Invalid height"
    );
    assert_eq!(FramePair::mat_data(Ok(&[7])), Ok(&[7u8][..]));
    assert_eq!(
        FramePair::mat_data(failure("x")).unwrap_err().message(),
        "frame data read error: x"
    );
}

#[test]
fn planes_are_cut_one_behind_the_other() {
    let input = [1, 2, 3, 4, 5, 6, 7];
    let slices = FramePair::split_planes(&input, &[4, 1, 1]).unwrap();
    assert_eq!(slices, vec![&[1u8, 2, 3, 4][..], &[5][..], &[6][..]]);
    assert_eq!(slices.concat(), &input[..6]);
    assert_eq!(FramePair::split_planes(&input, &[7]).unwrap(), vec![&input[..]]);
}

#[test]
fn input_that_is_too_small() {
    let message = |planes: &[usize]| {
        FramePair::split_planes(&[0; 10], planes).unwrap_err().message()
    };
    assert_eq!(message(&[11]), "frame encoding error: Input buffer too small: 10 < 11");
    assert_eq!(message(&[8, 4, 4]), "frame encoding error: Input buffer too small: 10 < 12");
    assert_eq!(message(&[8, 2, 90]), "frame encoding error: Input buffer too small: 10 < 100");
}

#[test]
fn scaled_frame_is_encoded() {
    let mut encoder = opened(config());
    let pair = encoder.encode_raw().unwrap();
    let frame = pair.scaled(&mut encoder, Some(3), Ok(())).unwrap_or_else(|_| panic!());
    assert_eq!(frame.pts, Some(3));
    let pair = encoder.encode_raw().unwrap();
    match pair.scaled(&mut encoder, Some(9), failure("x")) {
        Err(error) => assert_eq!(error.message(), "scaling error: x"),
        Ok(_) => panic!("expected a failure"),
    }
    let pair = encoder.encode_raw().unwrap();
    assert!(pair.scaled(&mut encoder, Some(2), Ok(())).is_err());
    let pair = encoder.encode_raw().unwrap();
    assert!(pair.scaled(&mut encoder, Some(4), Ok(())).is_ok());
}

#[test]
fn drain_hands_out_the_frames_in_order() {
    let mut drain = drain();
    for byte in 1..4u8 {
        drain = match drain.received(Ok(packet(&[byte]))) {
            DrainAction::Receive(drain) => drain,
            _ => panic!("expected to read on"),
        };
    }
    match drain.received(other("encoder flushed")) {
        DrainAction::Done(frames) => {
            let bytes: Vec<u8> = frames.iter().map(|frame| frame.nal_bytes[0]).collect();
            assert_eq!(bytes, vec![1, 2, 3]);
        }
        _ => panic!("expected the frames"),
    }
}

#[test]
fn drain_ends_at_the_end_of_the_file() {
    let drain = match drain().received(Ok(packet(&[1]))) {
        DrainAction::Receive(drain) => drain,
        _ => panic!("expected to read on"),
    };
    match drain.received(Err(CallError::EndOfFile)) {
        DrainAction::Done(frames) => {
            assert_eq!(frames.len(), 1);
            assert_eq!(&frames[0].nal_bytes[..], &[1]);
        }
        _ => panic!("expected the frames"),
    }
}

#[test]
fn drain_fails_with_the_encoder() {
    match opened(config()).drain(failure("x")) {
        Err(error) => assert_eq!(error.message(), "ffmpeg error: x"),
        Ok(_) => panic!("expected a failure"),
    }
    match drain().received(other("Invalid data")) {
        DrainAction::Failed(error) => assert_eq!(error.message(), "ffmpeg error: Invalid data"),
        _ => panic!("expected a failure"),
    }
}

#[test]
fn extreme_timestamps_in_a_message() {
    let error = H264EncoderError::PTSNotMonotonic { prev_pts: i64::MAX, curr_pts: i64::MIN };
    assert_eq!(
        error.message(),
        format!(
            "PTS was not monotonically increasing: previous PTS: {} > PTS: {}",
            i64::MAX,
            i64::MIN
        )
    );
}
