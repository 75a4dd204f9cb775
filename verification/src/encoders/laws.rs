//! What holds of every run of an encoder.
use super::h264::{self, CallError, EncodedModel, EncoderType, OpenStep, Packet, Retrieved};
use crate::buffers;
use crate::text;
use vstd::prelude::*;

verus! {

/// The timestamps out of `ptss` that an encoder accepts, one call after the other: a refused call
/// leaves the encoder as it was.
pub open spec fn accepted(prev_pts: Option<i64>, ptss: Seq<i64>) -> Seq<i64>
    decreases ptss.len(),
{
    if ptss.len() == 0 {
        Seq::empty()
    } else if h264::accepts(prev_pts, Some(ptss[0])) {
        seq![ptss[0]] + accepted(Some(ptss[0]), ptss.skip(1))
    } else {
        accepted(prev_pts, ptss.skip(1))
    }
}

/// The timestamps that an encoder accepts never go down, nor below the one it started with.
pub proof fn law_accepted_in_order(prev_pts: Option<i64>, ptss: Seq<i64>)
    ensures
        ({
            let taken = accepted(prev_pts, ptss);
            &&& forall|i: int, j: int| 0 <= i <= j < taken.len() ==> taken[i] <= taken[j]
            &&& prev_pts matches Some(prev) ==> forall|i: int|
                0 <= i < taken.len() ==> prev <= #[trigger] taken[i]
        }),
    decreases ptss.len(),
{
    if ptss.len() > 0 {
        if h264::accepts(prev_pts, Some(ptss[0])) {
            law_accepted_in_order(Some(ptss[0]), ptss.skip(1));
            let rest = accepted(Some(ptss[0]), ptss.skip(1));
            let taken = accepted(prev_pts, ptss);
            assert forall|i: int, j: int| 0 <= i <= j < taken.len() implies taken[i] <= taken[j] by {
                if i > 0 {
                    assert(taken[i] == rest[i - 1]);
                    assert(taken[j] == rest[j - 1]);
                } else if j > 0 {
                    assert(taken[j] == rest[j - 1]);
                }
            }
            if let Some(prev) = prev_pts {
                assert forall|i: int| 0 <= i < taken.len() implies prev <= #[trigger] taken[i] by {
                    assert(taken[0] <= taken[i]);
                }
            }
        } else {
            law_accepted_in_order(prev_pts, ptss.skip(1));
            assert(accepted(prev_pts, ptss) == accepted(prev_pts, ptss.skip(1)));
        }
    } else {
        assert(accepted(prev_pts, ptss).len() == 0);
    }
}

/// Timestamps that never go down are all accepted.
pub proof fn law_ordered_all_accepted(prev_pts: Option<i64>, ptss: Seq<i64>)
    requires
        forall|i: int, j: int| 0 <= i <= j < ptss.len() ==> ptss[i] <= ptss[j],
        prev_pts matches Some(prev) ==> forall|i: int|
            0 <= i < ptss.len() ==> prev <= #[trigger] ptss[i],
    ensures
        accepted(prev_pts, ptss) == ptss,
    decreases ptss.len(),
{
    if ptss.len() > 0 {
        let rest = ptss.skip(1);
        assert forall|i: int, j: int| 0 <= i <= j < rest.len() implies rest[i] <= rest[j] by {
            assert(rest[i] == ptss[i + 1]);
            assert(rest[j] == ptss[j + 1]);
        }
        assert forall|i: int| 0 <= i < rest.len() implies ptss[0] <= #[trigger] rest[i] by {
            assert(rest[i] == ptss[i + 1]);
        }
        law_ordered_all_accepted(Some(ptss[0]), rest);
        assert(seq![ptss[0]] + rest == ptss);
    }
}

/// A frame without a timestamp is never refused, and any timestamp may follow it.
pub proof fn law_untimed_frames_pass(pts: Option<i64>)
    ensures
        h264::accepts(pts, None),
        h264::accepts(None, pts),
{
}

/// Whether `steps` are the calls of a successful opening from `step` on.
pub open spec fn opening_run(step: OpenStep, steps: Seq<OpenStep>) -> bool
    decreases steps.len(),
{
    &&& steps.len() > 0
    &&& steps[0] == step
    &&& match h264::next_step(step) {
        Some(next) => opening_run(next, steps.skip(1)),
        None => steps.len() == 1,
    }
}

/// An encoder is opened by five calls, each once and in this order.
pub proof fn law_opening_order(steps: Seq<OpenStep>)
    ensures
        opening_run(OpenStep::FindCodec, steps) <==> steps == seq![
            OpenStep::FindCodec,
            OpenStep::AllocContext,
            OpenStep::CreateEncoder,
            OpenStep::OpenEncoder,
            OpenStep::CreateScaler,
        ],
{
    reveal_with_fuel(opening_run, 6);
    let order = seq![
        OpenStep::FindCodec,
        OpenStep::AllocContext,
        OpenStep::CreateEncoder,
        OpenStep::OpenEncoder,
        OpenStep::CreateScaler,
    ];
    if opening_run(OpenStep::FindCodec, steps) {
        assert(steps == order);
    }
    if steps == order {
        assert(steps.skip(1).skip(1).skip(1).skip(1).len() == 1);
    }
}

/// The planes of an input frame meet without gap or overlap, and together they are the front of the
/// input.
pub proof fn law_planes_cover_input(input: Seq<u8>, planes: Seq<usize>, slices: Seq<Seq<u8>>)
    requires
        h264::cuts(slices, input, planes),
    ensures
        slices.len() == planes.len(),
        forall|i: int| 0 <= i < planes.len() ==> (#[trigger] slices[i]).len() == planes[i],
        slices.flatten().len() <= input.len(),
        slices.flatten() == input.take(slices.flatten().len() as int),
        slices.flatten().len() == h264::plane_start(planes, planes.len() as int),
{
    assert forall|i: int| 0 <= i < planes.len() implies (#[trigger] slices[i]).len() == planes[i] by {
        h264::lemma_plane_start_monotonic(planes, i + 1, planes.len() as int);
        assert(h264::plane_start(planes, i + 1) == h264::plane_start(planes, i) + planes[i] as nat);
    }
    lemma_planes_joined(input, planes, slices, slices.len() as int);
    assert(slices.take(slices.len() as int) == slices);
}

proof fn lemma_planes_joined(input: Seq<u8>, planes: Seq<usize>, slices: Seq<Seq<u8>>, n: int)
    requires
        0 <= n <= planes.len(),
        slices.len() == planes.len(),
        h264::plane_start(planes, planes.len() as int) <= input.len(),
        forall|i: int|
            0 <= i < planes.len() ==> #[trigger] slices[i] == input.subrange(
                h264::plane_start(planes, i) as int,
                h264::plane_start(planes, i + 1) as int,
            ),
    ensures
        slices.take(n).flatten() == input.take(h264::plane_start(planes, n) as int),
    decreases n,
{
    let front = slices.take(n);
    h264::lemma_plane_start_monotonic(planes, n, planes.len() as int);
    if n == 0 {
        assert(front == Seq::<Seq<u8>>::empty());
        assert(front.flatten() == Seq::<u8>::empty());
    } else {
        lemma_planes_joined(input, planes, slices, n - 1);
        h264::lemma_plane_start_monotonic(planes, n - 1, n);
        assert(front.drop_last() == slices.take(n - 1));
        front.lemma_flatten_and_flatten_alt_are_equivalent();
        front.drop_last().lemma_flatten_and_flatten_alt_are_equivalent();
        assert(front.last() == slices[n - 1]);
        assert(input.take(h264::plane_start(planes, n - 1) as int) + slices[n - 1] == input.take(
            h264::plane_start(planes, n) as int,
        ));
    }
}

/// At most one plane is the first that the input does not fill, and there is one exactly when the
/// input is shorter than the planes.
pub proof fn law_one_plane_is_short(planes: Seq<usize>, len: nat)
    ensures
        forall|i: int, j: int|
            #[trigger] h264::first_short(planes, len, i) && #[trigger] h264::first_short(
                planes,
                len,
                j,
            ) ==> i == j,
        len < h264::plane_start(planes, planes.len() as int) <==> exists|i: int| #[trigger]
            h264::first_short(planes, len, i),
{
    assert forall|i: int, j: int|
        #[trigger] h264::first_short(planes, len, i) && #[trigger] h264::first_short(
            planes,
            len,
            j,
        ) implies i == j by {
        if i < j {
            h264::lemma_plane_start_monotonic(planes, i + 1, j);
        } else if j < i {
            h264::lemma_plane_start_monotonic(planes, j + 1, i);
        }
    }
    if exists|i: int| #[trigger] h264::first_short(planes, len, i) {
        let i = choose|i: int| #[trigger] h264::first_short(planes, len, i);
        h264::lemma_plane_start_monotonic(planes, i + 1, planes.len() as int);
    }
    if len < h264::plane_start(planes, planes.len() as int) {
        lemma_some_plane_is_short(planes, len, planes.len() as int);
    }
}

proof fn lemma_some_plane_is_short(planes: Seq<usize>, len: nat, n: int)
    requires
        0 <= n <= planes.len(),
        len < h264::plane_start(planes, n),
    ensures
        exists|i: int| #[trigger] h264::first_short(planes, len, i),
    decreases n,
{
    if len < h264::plane_start(planes, n - 1) {
        lemma_some_plane_is_short(planes, len, n - 1);
    } else {
        assert(h264::first_short(planes, len, n - 1));
    }
}

/// Where a drain stands.
pub enum DrainState {
    /// These frames are out, and more are asked for.
    Running(Seq<EncodedModel>),
    /// These frames are all.
    Done(Seq<EncodedModel>),
    Failed(Seq<char>),
}

/// The drain after one more answer, as [`h264::Drain::received`] takes it.
pub open spec fn drain_step(state: DrainState, answer: Retrieved) -> DrainState {
    match state {
        DrainState::Running(frames) => match answer {
            Retrieved::Frame(frame) => DrainState::Running(frames.push(frame)),
            Retrieved::Nothing => DrainState::Done(frames),
            Retrieved::Failed(detail) => DrainState::Failed(detail),
        },
        _ => state,
    }
}

/// The drain after one answer after the other.
pub open spec fn drain_all(answers: Seq<Retrieved>) -> DrainState
    decreases answers.len(),
{
    if answers.len() == 0 {
        DrainState::Running(Seq::empty())
    } else {
        drain_step(drain_all(answers.drop_last()), answers.last())
    }
}

/// A drain hands out every frame that comes before the first empty answer, in their order, and
/// nothing else.
pub proof fn law_drain_keeps_order(frames: Seq<EncodedModel>)
    ensures
        drain_all(
            Seq::new(frames.len(), |i: int| Retrieved::Frame(frames[i])).push(Retrieved::Nothing),
        ) == DrainState::Done(frames),
{
    let answers = Seq::new(frames.len(), |i: int| Retrieved::Frame(frames[i]));
    lemma_drain_running(frames);
    assert(answers.push(Retrieved::Nothing).drop_last() == answers);
}

proof fn lemma_drain_running(frames: Seq<EncodedModel>)
    ensures
        drain_all(Seq::new(frames.len(), |i: int| Retrieved::Frame(frames[i])))
            == DrainState::Running(frames),
    decreases frames.len(),
{
    let answers = Seq::new(frames.len(), |i: int| Retrieved::Frame(frames[i]));
    if frames.len() == 0 {
        assert(frames == Seq::<EncodedModel>::empty());
    } else {
        let front = frames.drop_last();
        lemma_drain_running(front);
        assert(answers.drop_last() == Seq::new(front.len(), |i: int| Retrieved::Frame(front[i])));
        assert(front.push(frames.last()) == frames);
    }
}

/// A failed request is an error only when it is neither to be repeated nor the end of the drain, and
/// its text says neither that the buffer is full, nor that the encoder is flushed, nor to try again;
/// the error then carries the text.
pub proof fn law_failures_are_told_apart(error: CallError)
    ensures
        h264::retrieved(Err(error)) == (match error {
            CallError::Other(detail) if !text::occurs(detail@, "encoder buffer full"@)
                && !text::occurs(detail@, "encoder flushed"@) && !text::occurs(
                detail@,
                "again"@,
            ) => Retrieved::Failed(detail@),
            _ => Retrieved::Nothing,
        }),
{
}

/// Every packet with data becomes a frame that holds the data and what the packet says of it, be it a
/// keyframe or not; a packet without data is nothing.
pub proof fn law_every_packet_with_data_is_a_frame(packet: Packet<'_>)
    ensures
        packet.data matches Some(data) ==> (h264::retrieved(Ok(packet)) matches Retrieved::Frame(frame)
            && {
            &&& frame.nal_bytes == data@
            &&& frame.is_keyframe == packet.is_key
            &&& frame.duration == packet.duration
            &&& frame.pts == packet.pts
        }),
        packet.data is None ==> h264::retrieved(Ok(packet)) == Retrieved::Nothing,
{
}

/// An encoder that gives packets with data and then the end of the file is drained with success: the
/// frames of all packets come out, in their order, each with the data of its packet.
pub proof fn law_drain_to_end_of_file(packets: Seq<Packet<'_>>)
    requires
        forall|i: int| 0 <= i < packets.len() ==> (#[trigger] packets[i]).data is Some,
    ensures
        drain_all(
            Seq::new(packets.len(), |i: int| h264::retrieved(Ok(packets[i]))).push(
                h264::retrieved(Err(CallError::EndOfFile)),
            ),
        ) matches DrainState::Done(frames) && {
            &&& frames.len() == packets.len()
            &&& forall|i: int|
                0 <= i < packets.len() ==> {
                    &&& (#[trigger] frames[i]).nal_bytes == packets[i].data->0@
                    &&& frames[i].is_keyframe == packets[i].is_key
                    &&& frames[i].duration == packets[i].duration
                    &&& frames[i].pts == packets[i].pts
                }
        },
{
    let frames = Seq::new(
        packets.len(),
        |i: int|
            EncodedModel {
                nal_bytes: packets[i].data->0@,
                is_keyframe: packets[i].is_key,
                duration: packets[i].duration,
                pts: packets[i].pts,
            },
    );
    let answers = Seq::new(packets.len(), |i: int| h264::retrieved(Ok(packets[i])));
    assert(answers == Seq::new(frames.len(), |i: int| Retrieved::Frame(frames[i])));
    law_drain_keeps_order(frames);
}

/// The name of an encoder leads back to it: what [`EncoderType::from_name`] answers to the name of
/// `kind` is `kind`.
pub proof fn law_name_leads_back(kind: EncoderType, name: Seq<char>, answer: Option<EncoderType>)
    requires
        name == kind.codec_name(),
        match answer {
            Some(found) => found.codec_name() == name,
            None => forall|other: EncoderType| #[trigger] other.codec_name() != name,
        },
    ensures
        answer == Some(kind),
{
    if let Some(found) = answer {
        law_codec_names_differ(found, kind);
    }
}

/// Encoders are told apart by their codec names.
pub proof fn law_codec_names_differ(a: EncoderType, b: EncoderType)
    ensures
        a.codec_name() == b.codec_name() <==> a == b,
{
    reveal_strlit("libx264");
    reveal_strlit("h264_nvenc");
    reveal_strlit("h264_nvmpi");
    assert("libx264"@.len() == 7);
    assert("h264_nvenc"@.len() == 10);
    assert("h264_nvmpi"@.len() == 10);
    assert("h264_nvenc"@[7] == 'e');
    assert("h264_nvmpi"@[7] == 'm');
}

/// Raw input is refused exactly when some dimension is beyond what a signed 32-bit number holds.
pub proof fn law_only_huge_dimensions_are_refused(m: h264::EncoderModel)
    ensures
        h264::raw_refusal(m) is None <==> m.output_width < 0x8000_0000 && m.output_height
            < 0x8000_0000 && m.input_width < 0x8000_0000 && m.input_height < 0x8000_0000,
        h264::raw_refusal(m) == Some("Invalid output width"@) <== m.output_width >= 0x8000_0000,
        h264::raw_refusal(m) == Some("Invalid output height"@) <== m.output_width < 0x8000_0000
            && m.output_height >= 0x8000_0000,
        h264::raw_refusal(m) == Some("Invalid input width"@) <== m.output_width < 0x8000_0000
            && m.output_height < 0x8000_0000 && m.input_width >= 0x8000_0000,
        h264::raw_refusal(m) == Some("Invalid input height"@) <== m.output_width < 0x8000_0000
            && m.output_height < 0x8000_0000 && m.input_width < 0x8000_0000 && m.input_height
            >= 0x8000_0000,
{
}

/// What is refused does not depend on the format or on the frame before.
pub proof fn law_refusal_goes_by_dimensions(m: h264::EncoderModel, n: h264::EncoderModel)
    requires
        m.output_width == n.output_width,
        m.output_height == n.output_height,
        m.input_width == n.input_width,
        m.input_height == n.input_height,
    ensures
        h264::raw_refusal(m) == h264::raw_refusal(n),
{
}

/// Of two known timestamps the second is accepted exactly when it is not before the first.
pub proof fn law_time_does_not_run_back(prev: i64, curr: i64)
    ensures
        h264::accepts(Some(prev), Some(curr)) <==> prev <= curr,
{
}

/// An opened encoder knows the sizes and the format of its configuration and no timestamp.
pub proof fn law_opened_as_configured(config: h264::EncoderConfig)
    ensures
        ({
            let m = h264::opened(config);
            &&& m.prev_pts is None
            &&& m.input_type == config.input_type.name@
            &&& m.input_width == config.input_width
            &&& m.input_height == config.input_height
            &&& m.output_width == config.output_width
            &&& m.output_height == config.output_height
        }),
{
}

/// A frame rate keeps its bits: as a signed number it is the same modulo 2^32, and the same altogether
/// below 2^31.
pub proof fn law_signed_keeps_the_bits(n: u32)
    ensures
        i32::MIN <= h264::as_signed(n) <= i32::MAX,
        (n - h264::as_signed(n)) % 0x1_0000_0000 == 0,
        n < 0x8000_0000 ==> h264::as_signed(n) == n,
{
}

/// Which error a failed call gives: the codec by its name, no context, no encoder, and for the last
/// two calls the text of the failure, unchanged.
pub proof fn law_errors_of_opening(
    config: h264::EncoderConfig,
    step: OpenStep,
    detail: Seq<char>,
    error: h264::H264EncoderError,
)
    requires
        h264::step_error(config, step, detail, error),
    ensures
        step == OpenStep::FindCodec ==> (error matches h264::H264EncoderError::CodecNotFound(name)
            && (config.enc_type == EncoderType::X264 ==> name@ == "libx264"@) && (config.enc_type
            == EncoderType::H264Nvenc ==> name@ == "h264_nvenc"@) && (config.enc_type
            == EncoderType::H264Nvmpi ==> name@ == "h264_nvmpi"@)),
        step == OpenStep::AllocContext ==> error
            == h264::H264EncoderError::AvCodecAllocContextError,
        step == OpenStep::CreateEncoder ==> error == h264::H264EncoderError::EncoderCreationFailed,
        step == OpenStep::OpenEncoder || step == OpenStep::CreateScaler ==> (
        error matches h264::H264EncoderError::FfmpegError(text) && text@ == detail),
{
}

/// The planes lie one behind the other from the start of the input, each as long as its size.
pub proof fn law_planes_follow_each_other(planes: Seq<usize>, i: int)
    requires
        0 <= i < planes.len(),
    ensures
        h264::plane_start(planes, 0) == 0,
        h264::plane_start(planes, i + 1) - h264::plane_start(planes, i) == planes[i],
{
}

/// The plane that is named as short ends behind the input, and those before it end within; the error
/// gives the length of the input and that end in digits.
pub proof fn law_short_plane_is_the_first(planes: Seq<usize>, len: nat, i: int)
    requires
        h264::first_short(planes, len, i),
    ensures
        0 <= i < planes.len(),
        len < h264::plane_start(planes, i + 1),
        forall|j: int| 0 <= j <= i ==> #[trigger] h264::plane_start(planes, j) <= len,
        h264::too_small(len, h264::plane_start(planes, i + 1)) == "Input buffer too small: "@
            + text::decimal(len) + " < "@ + text::decimal(h264::plane_start(planes, i + 1)),
{
    assert forall|j: int| 0 <= j <= i implies #[trigger] h264::plane_start(planes, j) <= len by {
        h264::lemma_plane_start_monotonic(planes, j, i);
    }
}

/// An encoded frame is known by what it holds, and a list of them frame by frame.
pub proof fn law_encoded_frames_are_what_they_hold(frames: Seq<h264::EncodedFrame>)
    ensures
        h264::encoded_models(frames).len() == frames.len(),
        forall|i: int|
            0 <= i < frames.len() ==> {
                let model = #[trigger] h264::encoded_models(frames)[i];
                &&& model.nal_bytes == buffers::octets(frames[i].nal_bytes)
                &&& model.is_keyframe == frames[i].is_keyframe
                &&& model.duration == frames[i].duration
                &&& model.pts == frames[i].pts
            },
{
}

/// The message of an error is a text for its kind and then its detail, unchanged; for timestamps
/// both numbers stand in it in digits.
pub proof fn law_error_texts(detail: String, prev_pts: i64, curr_pts: i64)
    ensures
        (h264::H264EncoderError::PTSNotMonotonic { prev_pts, curr_pts }).text()
            == "PTS was not monotonically increasing: previous PTS: "@ + text::signed_decimal(
            prev_pts as int,
        ) + " > PTS: "@ + text::signed_decimal(curr_pts as int),
        h264::H264EncoderError::FfmpegError(detail).text() == "ffmpeg error: "@ + detail@,
        h264::H264EncoderError::AvCodecAllocContextError.text()
            == "failed to alloc avcodec context"@,
        h264::H264EncoderError::CodecNotFound(detail).text() == "codec not found: "@ + detail@,
        h264::H264EncoderError::EncoderCreationFailed.text() == "failed to create video encoder"@,
        h264::H264EncoderError::ScalingError(detail).text() == "scaling error: "@ + detail@,
        h264::H264EncoderError::FrameEncodeError(detail).text() == "frame encoding error: "@
            + detail@,
        h264::H264EncoderError::FrameDataReadError(detail).text() == "frame data read error: "@
            + detail@,
{
}

/// The settings of an encoder are those of its configuration: output size, bitrate, frame rate and
/// its inverse as time base, planar YUV 4:2:0. B-frames are switched off exactly when the
/// configuration says so, and groups of pictures have the size it gives.
pub proof fn law_settings_follow_the_configuration(
    settings: h264::EncoderSettings,
    config: h264::EncoderConfig,
)
    requires
        settings.follows(config),
    ensures
        settings.width == config.output_width,
        settings.height == config.output_height,
        settings.format.name@ == "yuv420p"@,
        settings.bit_rate == config.bitrate,
        config.framerate < 0x8000_0000 ==> settings.frame_rate.0 == config.framerate,
        settings.frame_rate.1 == 1,
        settings.time_base.0 == settings.frame_rate.1,
        settings.time_base.1 == settings.frame_rate.0,
        settings.max_b_frames == Some(0usize) <==> config.disable_b_frames,
        settings.max_b_frames is None <==> !config.disable_b_frames,
        settings.gop == config.gop,
{
}

/// The scaler takes frames of the input to frames of the output, in format and size.
pub proof fn law_scaler_follows_the_configuration(
    scaler: h264::ScalerSettings,
    config: h264::EncoderConfig,
)
    requires
        scaler.follows(config),
    ensures
        scaler.input_format.name@ == config.input_type.name@,
        scaler.input_width == config.input_width,
        scaler.input_height == config.input_height,
        scaler.output_format.name@ == "yuv420p"@,
        scaler.output_width == config.output_width,
        scaler.output_height == config.output_height,
{
}

/// The frames of an encoder fit its scaler: what it gives is what the scaler gives, and input of the
/// configured size is what the scaler takes.
pub proof fn law_frames_fit_the_scaler(
    pair: h264::FramePair,
    scaler: h264::ScalerSettings,
    config: h264::EncoderConfig,
    m: h264::EncoderModel,
    width: int,
    height: int,
)
    requires
        scaler.follows(config),
        m.input_type == config.input_type.name@,
        m.input_width == config.input_width,
        m.input_height == config.input_height,
        m.output_width == config.output_width,
        m.output_height == config.output_height,
        pair.scales(m, width, height),
    ensures
        pair.output.format.name@ == scaler.output_format.name@,
        pair.output.width == scaler.output_width,
        pair.output.height == scaler.output_height,
        pair.input.format.name@ == scaler.input_format.name@,
        pair.input.width == width,
        pair.input.height == height,
        width == config.input_width && height == config.input_height ==> pair.input.width
            == scaler.input_width && pair.input.height == scaler.input_height,
{
}

/// An encoder that takes a frame notes its timestamp, also that it has none; one that refuses a frame
/// is as it was. Nothing else of it changes.
pub proof fn law_encoder_notes_timestamps(m: h264::EncoderModel, pts: Option<i64>)
    ensures
        ({
            let after = h264::after_encode(m, pts);
            let refused = m.prev_pts matches Some(prev) && pts matches Some(curr) && prev > curr;
            &&& refused ==> after.prev_pts == m.prev_pts
            &&& !refused ==> after.prev_pts == pts
            &&& after.input_type == m.input_type
            &&& after.input_width == m.input_width
            &&& after.input_height == m.input_height
            &&& after.output_width == m.output_width
            &&& after.output_height == m.output_height
        }),
{
}

} // verus!
