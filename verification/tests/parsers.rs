use ffutility::bitstream::{NalKind, NalUnit, ParameterSets, SliceKind};
use ffutility::parsers::h264::tick;
use ffutility::parsers::{
    AnnexBStreamImport, Frame, H264ParserError, ImportError, InitAction, InitSession,
    PublishRequest, ReadAction, ReadSession, H264,
};

/// Baseline profile, level 3.0, one macroblock; both reserved bits of the constraints set.
const SPS: [u8; 6] = [0x67, 0x42, 0x03, 0x1e, 0xda, 0x79];
const PPS: [u8; 4] = [0x68, 0xce, 0x38, 0x80];
const IDR: [u8; 3] = [0x65, 0x88, 0x84];
const P_SLICE: [u8; 4] = [0x01, 0xe0, 0x60, 0xaa];
const I_SLICE: [u8; 4] = [0x01, 0xb8, 0x60, 0x55];
/// Supplemental enhancement information.
const SEI: [u8; 3] = [0x06, 0x05, 0x80];
const CODE: [u8; 4] = [0, 0, 0, 1];

fn annexb(units: &[&[u8]]) -> Vec<u8> {
    let mut out = Vec::new();
    for unit in units {
        out.extend_from_slice(&CODE);
        out.extend_from_slice(unit);
    }
    out.extend_from_slice(&CODE);
    out
}

fn key_payload(sps: &[u8], pps: &[u8], slice: &[u8]) -> Vec<u8> {
    let mut out = Vec::new();
    for unit in [sps, pps, slice] {
        out.extend_from_slice(&CODE);
        out.extend_from_slice(unit);
    }
    out
}

fn delta_payload(slice: &[u8]) -> Vec<u8> {
    let mut out = CODE.to_vec();
    out.extend_from_slice(slice);
    out
}

fn whole(unit: &[u8]) -> NalUnit {
    NalUnit { chunks: vec![unit.to_vec()], complete: true }
}

fn part(unit: &[u8]) -> NalUnit {
    NalUnit { chunks: vec![unit.to_vec()], complete: false }
}

fn sets() -> ParameterSets {
    let mut sets = ParameterSets::new();
    sets.put_sps(whole(&SPS).sps().unwrap());
    let pps = whole(&PPS).pps(&sets).unwrap();
    sets.put_pps(pps);
    sets
}

fn publish(import: &mut AnnexBStreamImport, chunk: &[u8]) -> PublishRequest {
    match import.init_from(InitSession::new(), Some(chunk)) {
        InitAction::Publish(request) => request,
        _ => panic!("expected a track to publish"),
    }
}

fn initialized() -> AnnexBStreamImport {
    let mut import = AnnexBStreamImport::new(1280, 720);
    let request = publish(&mut import, &annexb(&[&SPS, &PPS]));
    assert!(request.published(&mut import, Ok(())).is_ok());
    import
}

fn begin(import: &AnnexBStreamImport) -> ReadSession {
    match import.begin_read() {
        Ok(session) => session,
        Err(error) => panic!("{}", error.message()),
    }
}

fn read(import: &AnnexBStreamImport, session: &mut ReadSession, chunk: &[u8]) -> Vec<Frame> {
    match import.read_from(session, Some(chunk)) {
        Ok(ReadAction::WriteFrames(frames)) => frames,
        _ => panic!("expected frames"),
    }
}

#[test]
fn kinds_go_by_the_header() {
    assert_eq!(whole(&SPS).kind(), Some(NalKind::Sps));
    assert_eq!(whole(&PPS).kind(), Some(NalKind::Pps));
    assert_eq!(whole(&IDR).kind(), Some(NalKind::IdrSlice));
    assert_eq!(whole(&P_SLICE).kind(), Some(NalKind::NonIdrSlice));
    assert_eq!(whole(&SEI).kind(), Some(NalKind::Other));
    assert_eq!(whole(&[0xe7]).kind(), None);
}

#[test]
fn slices_are_told_apart() {
    let sets = sets();
    assert_eq!(whole(&P_SLICE).slice(&sets), Some(SliceKind::P));
    assert_eq!(whole(&I_SLICE).slice(&sets), Some(SliceKind::I));
    assert_eq!(whole(&P_SLICE).slice(&ParameterSets::new()), None);
    assert_eq!(whole(&[0x81, 0xe0, 0x60]).slice(&sets), None);
}

#[test]
fn picture_parameter_set_needs_its_sequence_parameter_set() {
    assert!(whole(&PPS).pps(&ParameterSets::new()).is_none());
    assert!(whole(&[0x67, 0x42]).sps().is_none());
}

#[test]
fn units_are_kept_whole() {
    for len in [1, 3, 1023, 1024, 1025, 1500, 2048, 5000] {
        let unit: Vec<u8> = (0..len as u32).map(|i| (i % 251) as u8).collect();
        assert_eq!(&whole(&unit).bytes()[..], &unit[..]);
        assert_eq!(&part(&unit).bytes()[..], &unit[..]);
    }
}

#[test]
fn pieces_are_joined() {
    let long = vec![7u8; 1500];
    let unit = NalUnit { chunks: vec![vec![0x65, 1, 2], long.clone(), vec![9]], complete: true };
    assert_eq!(&unit.bytes()[..], &[&[0x65, 1, 2][..], &long[..], &[9][..]].concat()[..]);
}

/// A sequence parameter set of 131070 by 131070 macroblocks: their product does not fit into 32 bits.
fn oversized_sps() -> Vec<u8> {
    let mut bits = String::from("110110100");
    let size = "0".repeat(16) + "1" + &"1".repeat(15) + "0";
    bits += &size;
    bits += &size;
    bits += "11001";
    while bits.len() % 8 != 0 {
        bits.push('0');
    }
    let mut unit = vec![0x67, 0x42, 0x03, 0x1e];
    for byte in bits.as_bytes().chunks(8) {
        unit.push(byte.iter().fold(0u8, |sum, bit| sum * 2 + (bit - b'0')));
    }
    unit
}

/// Two slice groups with run lengths.
const RUN_PPS: [u8; 4] = [0x68, 0xc5, 0xf1, 0xc4];
/// Two dispersed slice groups.
const DISPERSED_PPS: [u8; 4] = [0x68, 0xc4, 0xb1, 0xc4];

#[test]
fn oversized_picture_gives_its_codec() {
    let unit = oversized_sps();
    let sps = whole(&unit).sps().unwrap();
    assert_eq!(sps.pic_width_in_mbs_minus1, 131069);
    assert_eq!(sps.pic_height_in_map_units_minus1, 131069);
    let mut import = AnnexBStreamImport::new(16, 16);
    let request = publish(&mut import, &annexb(&[&unit, &PPS]));
    assert_eq!(request.video.codec, H264 { profile: 66, constraints: 3, level: 30 });
}

#[test]
fn slice_groups_need_a_picture_size_that_fits() {
    let small = sets();
    assert!(whole(&RUN_PPS).pps(&small).is_some());
    assert!(whole(&DISPERSED_PPS).pps(&small).is_some());
    let mut large = ParameterSets::new();
    large.put_sps(whole(&oversized_sps()).sps().unwrap());
    assert!(whole(&RUN_PPS).pps(&large).is_none());
    assert!(whole(&DISPERSED_PPS).pps(&large).is_some());
    assert!(whole(&PPS).pps(&large).is_some());
}

#[test]
fn switching_slices_are_read() {
    let sets = sets();
    let sp = [0x01, 0x92, 0x06, 0x5f, 0, 0, 3, 0, 0, 3, 1, 0x80];
    assert_eq!(whole(&sp).slice(&sets), Some(SliceKind::SP));
    let si = [0x01, 0x96, 0x1d, 0xaa, 0, 0, 3, 0, 0x80];
    assert_eq!(whole(&si).slice(&sets), Some(SliceKind::SI));
    let import = initialized();
    let mut session = begin(&import);
    let frames = read(&import, &mut session, &annexb(&[&SPS, &PPS, &IDR, &sp, &si]));
    assert_eq!(frames.len(), 3);
    assert!(!frames[1].keyframe);
    assert_eq!(&frames[1].payload[..], &delta_payload(&sp)[..]);
    assert!(!frames[2].keyframe);
    assert_eq!(&frames[2].payload[..], &delta_payload(&si)[..]);
}

#[test]
fn switching_slice_whose_sum_overflows_is_refused() {
    // The field slice_qs_delta is i32::MAX.
    let si = [0x01, 0x96, 0x10, 0, 0, 3, 0, 0x1f, 0xff, 0xff, 0xff, 0xd8];
    assert_eq!(whole(&si).slice(&sets()), None);
}

#[test]
fn ordinary_units_are_readable() {
    assert!(whole(&SPS).is_readable());
    assert!(whole(&vec![0u8; 100_000]).is_readable());
}

#[test]
fn clock_does_not_go_back() {
    assert_eq!(tick(5, 7), 7);
    assert_eq!(tick(7, 5), 7);
    assert_eq!(tick(0, 0), 0);
}

#[test]
fn init_publishes_the_track() {
    let mut import = AnnexBStreamImport::new(1280, 720);
    let request = publish(&mut import, &annexb(&[&SPS, &PPS]));
    assert_eq!(request.video.track.name, "video0");
    assert_eq!(request.video.track.priority, 2);
    assert_eq!(request.video.codec, H264 { profile: 66, constraints: 3, level: 30 });
    assert_eq!(request.video.resolution.width, 1280);
    assert_eq!(request.video.resolution.height, 720);
    assert!(request.video.description.is_none());
    assert!(request.video.bitrate.is_none());
    let request = match request.locked(Ok(())) {
        Ok(request) => request,
        Err(error) => panic!("{}", error.message()),
    };
    assert!(import.begin_read().is_err());
    assert!(request.published(&mut import, Ok(())).is_ok());
    assert!(import.begin_read().is_ok());
}

#[test]
fn init_reads_on_until_a_sequence_parameter_set() {
    let mut import = AnnexBStreamImport::new(16, 16);
    let session = match import.init_from(InitSession::new(), Some(&annexb(&[&SEI, &PPS]))) {
        InitAction::NextInput(session) => session,
        _ => panic!("expected to read on"),
    };
    assert!(session.searching());
    assert_eq!(import.codec(), None);
    let rest = annexb(&[&SPS, &PPS]);
    match import.init_from(session, Some(&rest[4..])) {
        InitAction::Publish(request) => assert_eq!(request.video.codec.level, 30),
        _ => panic!("expected a track to publish"),
    }
}

#[test]
fn init_waits_for_both_kinds_of_parameter_sets() {
    let mut import = AnnexBStreamImport::new(16, 16);
    let session = match import.init_from(InitSession::new(), Some(&annexb(&[&SPS]))) {
        InitAction::NextInput(session) => session,
        _ => panic!("expected to read on"),
    };
    let rest = [&PPS[..], &CODE[..]].concat();
    let request = match import.init_from(session, Some(&rest)) {
        InitAction::Publish(request) => request,
        _ => panic!("expected a track to publish"),
    };
    assert_eq!(whole(&P_SLICE).slice(&request.sets), Some(SliceKind::P));
}

#[test]
fn init_publishes_without_picture_parameter_set_at_the_end() {
    let mut import = AnnexBStreamImport::new(16, 16);
    let session = match import.init_from(InitSession::new(), Some(&annexb(&[&SPS]))) {
        InitAction::NextInput(session) => session,
        _ => panic!("expected to read on"),
    };
    match import.init_from(session, None) {
        InitAction::Publish(request) => assert_eq!(request.video.codec.level, 30),
        _ => panic!("expected a track to publish"),
    }
    assert_eq!(import.codec(), Some(H264 { profile: 66, constraints: 3, level: 30 }));
}

#[test]
fn init_finds_parameter_sets_however_the_stream_is_cut() {
    let stream = annexb(&[&SEI, &SPS, &PPS]);
    for size in 1..stream.len() {
        let mut session = InitSession::new();
        for chunk in stream.chunks(size) {
            session.push(chunk);
        }
        assert!(!session.searching());
    }
}

#[test]
fn init_waits_for_the_end_of_a_parameter_set() {
    let mut session = InitSession::new();
    session.observe(&part(&SPS[..2]));
    session.observe(&whole(&SPS));
    session.observe(&part(&PPS));
    assert!(session.searching());
    session.observe(&whole(&PPS));
    assert!(!session.searching());
}

#[test]
fn init_passes_over_the_rest_of_an_ignored_unit() {
    let mut session = InitSession::new();
    session.observe(&whole(&SPS));
    session.observe(&part(&SEI));
    session.observe(&part(&PPS));
    session.observe(&whole(&PPS));
    assert!(session.searching());
    session.observe(&whole(&PPS));
    assert!(!session.searching());
}

#[test]
fn init_fails_at_the_end_of_the_stream() {
    let mut import = AnnexBStreamImport::new(16, 16);
    match import.init_from(InitSession::new(), None) {
        InitAction::Failed(error) => {
            assert_eq!(error, ImportError::NoSps);
            assert_eq!(error.message(), "Failed to find valid SPS in input!");
        }
        _ => panic!("expected a failure"),
    }
}

#[test]
fn init_in_one_batch_or_two() {
    let mut one = InitSession::new();
    one.observe(&whole(&SEI));
    one.observe(&whole(&SPS));
    one.observe(&whole(&PPS));
    let mut two = InitSession::new();
    two.push(&annexb(&[&SEI]));
    two.push(&[&SPS[..], &CODE[..], &PPS[..], &CODE[..]].concat());
    assert_eq!(one.searching(), two.searching());
    assert!(!two.searching());
}

#[test]
fn lock_and_publish_failures_are_told() {
    let mut import = AnnexBStreamImport::new(16, 16);
    let request = publish(&mut import, &annexb(&[&SPS, &PPS]));
    match request.locked(Err(String::from("poisoned"))) {
        Err(error) => assert_eq!(error.message(), "Lock error: poisoned"),
        Ok(_) => panic!("expected a failure"),
    }
    let request = publish(&mut import, &annexb(&[&SPS, &PPS]));
    match request.published(&mut import, Err(String::from("duplicate"))) {
        Err(error) => assert_eq!(error.message(), "Failed to publish track: duplicate"),
        Ok(_) => panic!("expected a failure"),
    }
    match import.begin_read() {
        Err(error) => assert_eq!(error.message(), "AnnexBImport not initialized"),
        Ok(_) => panic!("expected a failure"),
    }
}

#[test]
fn reading_needs_initialization() {
    let ready = initialized();
    let mut session = begin(&ready);
    let import = AnnexBStreamImport::new(16, 16);
    match import.read_from(&mut session, Some(&IDR)) {
        Err(error) => assert_eq!(error, ImportError::NotInitialized),
        Ok(_) => panic!("expected a failure"),
    }
}

#[test]
fn reading_ends_with_the_stream() {
    let import = initialized();
    let mut session = begin(&import);
    assert!(matches!(import.read_from(&mut session, None), Ok(ReadAction::Finished)));
}

#[test]
fn frames_of_a_stream() {
    let import = initialized();
    let mut session = begin(&import);
    let stream = annexb(&[&SPS, &PPS, &SEI, &IDR, &P_SLICE, &I_SLICE]);
    let frames = read(&import, &mut session, &stream);
    assert_eq!(frames.len(), 3);
    assert!(frames[0].keyframe);
    assert_eq!(&frames[0].payload[..], &key_payload(&SPS, &PPS, &IDR)[..]);
    assert!(!frames[1].keyframe);
    assert_eq!(&frames[1].payload[..], &delta_payload(&P_SLICE)[..]);
    assert!(frames[2].keyframe);
    assert_eq!(&frames[2].payload[..], &key_payload(&SPS, &PPS, &I_SLICE)[..]);
    assert!(frames[0].timestamp_micros <= frames[1].timestamp_micros);
    assert!(frames[1].timestamp_micros <= frames[2].timestamp_micros);
}

#[test]
fn first_frame_is_a_keyframe_however_the_stream_is_cut() {
    let import = initialized();
    let stream = annexb(&[&P_SLICE, &IDR, &SPS, &P_SLICE, &PPS, &I_SLICE, &IDR, &P_SLICE]);
    for size in 1..stream.len() {
        let mut session = begin(&import);
        let mut frames = Vec::new();
        for chunk in stream.chunks(size) {
            frames.extend(read(&import, &mut session, chunk));
        }
        assert_eq!(frames.len(), 2);
        assert!(frames[0].keyframe);
        assert_eq!(&frames[0].payload[..], &key_payload(&SPS, &PPS, &IDR)[..]);
        assert!(!frames[1].keyframe);
        assert_eq!(&frames[1].payload[..], &delta_payload(&P_SLICE)[..]);
        assert!(frames[0].timestamp_micros <= frames[1].timestamp_micros);
    }
}

#[test]
fn no_frame_without_parameter_sets_or_idr() {
    let import = initialized();
    let mut session = begin(&import);
    assert!(read(&import, &mut session, &annexb(&[&IDR, &P_SLICE])).is_empty());
    let mut session = begin(&import);
    assert!(read(&import, &mut session, &annexb(&[&SPS, &PPS, &I_SLICE])).is_empty());
}

#[test]
fn frames_of_chosen_times() {
    let sets = sets();
    let import = initialized();
    let mut session = begin(&import);
    assert!(session.observe(&sets, &whole(&SPS), 1).is_none());
    assert!(session.observe(&sets, &whole(&PPS), 2).is_none());
    assert!(session.observe(&sets, &part(&IDR), 3).is_none());
    let frame = session.observe(&sets, &whole(&IDR), 40_000).unwrap();
    assert_eq!(frame.timestamp_micros, 40_000);
    let frame = session.observe(&sets, &whole(&P_SLICE), (1u128 << 64) + 7).unwrap();
    assert_eq!(frame.timestamp_micros, 7);
}

#[test]
fn slice_that_cannot_be_read_gives_no_frame() {
    let import = initialized();
    let mut session = begin(&import);
    let sets = sets();
    assert!(session.observe(&sets, &whole(&SPS), 0).is_none());
    assert!(session.observe(&sets, &whole(&PPS), 0).is_none());
    assert!(session.observe(&sets, &whole(&IDR), 0).is_some());
    assert!(session.observe(&sets, &whole(&[0x01]), 0).is_none());
    assert!(session.observe(&ParameterSets::new(), &whole(&P_SLICE), 0).is_none());
    assert!(session.observe(&sets, &whole(&P_SLICE), 0).is_some());
}

#[test]
fn unit_of_no_interest_is_passed_over_to_its_end() {
    let import = initialized();
    let mut session = begin(&import);
    let sets = sets();
    assert!(session.observe(&sets, &whole(&SPS), 0).is_none());
    assert!(session.observe(&sets, &whole(&PPS), 0).is_none());
    assert!(session.observe(&sets, &part(&SEI), 0).is_none());
    assert!(session.observe(&sets, &whole(&IDR), 0).is_none());
    assert!(session.observe(&sets, &whole(&IDR), 0).is_some());
    assert!(session.observe(&sets, &part(&[0xe5]), 0).is_none());
    assert!(session.observe(&sets, &whole(&IDR), 0).is_none());
    assert!(session.observe(&sets, &whole(&IDR), 0).is_some());
}

#[test]
fn later_parameter_sets_replace_earlier_ones() {
    let import = initialized();
    let mut session = begin(&import);
    let sets = sets();
    let other = [0x67, 1, 2];
    assert!(session.observe(&sets, &whole(&SPS), 0).is_none());
    assert!(session.observe(&sets, &whole(&PPS), 0).is_none());
    assert!(session.observe(&sets, &whole(&other), 0).is_none());
    let frame = session.observe(&sets, &whole(&IDR), 0).unwrap();
    assert_eq!(&frame.payload[..], &key_payload(&other, &PPS, &IDR)[..]);
}

#[test]
fn parser_error_messages() {
    let detail = || String::from("x");
    let cases = [
        (H264ParserError::NalHeaderError(detail()), "Failed to parse NAL header: x"),
        (H264ParserError::SpsParseError(detail()), "Failed to parse SPS: x"),
        (H264ParserError::PpsParseError(detail()), "Failed to parse PPS: x"),
        (H264ParserError::NalReadError(detail()), "Failed to read NAL: x"),
        (H264ParserError::SliceHeaderError(detail()), "Failed to parse slice header: x"),
        (H264ParserError::FrameSendError(detail()), "Failed to send frame: x"),
        (H264ParserError::TrackPublishError(detail()), "Failed to publish track: x"),
        (H264ParserError::LockError(detail()), "Lock error: x"),
    ];
    for (error, message) in cases {
        assert_eq!(error.message(), message);
        assert_eq!(ImportError::Parser(error).message(), message);
    }
}
