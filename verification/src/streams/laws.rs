//! What holds of every run of a capture stream.
use super::v4l_h264::{self, FourCC, Phase, StreamModel, V4lAction, V4lEvent, V4lH264Config};
use super::v4l_h264::V4lStreamError;
use crate::encoders::laws;
use crate::encoders::{EncodedFrame, EncoderType, H264EncoderError, OpenStep};
use bytes::BytesMut;
use vstd::prelude::*;

verus! {

/// The stream before the first event.
pub open spec fn start(cfg: V4lH264Config, options: Seq<(String, String)>) -> StreamModel {
    StreamModel { cfg, options, phase: Phase::Probe, pts: 0 }
}

/// The stream after one event after the other.
pub open spec fn after(m: StreamModel, events: Seq<V4lEvent<'_>>) -> StreamModel
    decreases events.len(),
{
    if events.len() == 0 {
        m
    } else {
        v4l_h264::next_model(after(m, events.drop_last()), events.last())
    }
}

/// Whether each event answers the call that was due.
pub open spec fn proper(m: StreamModel, events: Seq<V4lEvent<'_>>) -> bool
    decreases events.len(),
{
    events.len() > 0 ==> {
        &&& proper(m, events.drop_last())
        &&& v4l_h264::answers(after(m, events.drop_last()), events.last())
    }
}

/// How many frames were captured.
pub open spec fn captures(events: Seq<V4lEvent<'_>>) -> nat
    decreases events.len(),
{
    if events.len() == 0 {
        0
    } else {
        captures(events.drop_last()) + (if events.last() matches V4lEvent::Captured(Ok(_)) {
            1nat
        } else {
            0nat
        })
    }
}

/// A frame has been captured and is not done with.
pub open spec fn in_flight(phase: Phase) -> bool {
    phase == Phase::Encode || phase == Phase::Send
}

/// Timestamps count the captured frames from zero: as long as the stream has not failed, the next
/// timestamp is the number of frames captured, without the one in flight. So each frame is encoded
/// with the number of frames captured before it.
pub proof fn law_timestamps_count_frames(
    cfg: V4lH264Config,
    options: Seq<(String, String)>,
    events: Seq<V4lEvent<'_>>,
)
    requires
        proper(start(cfg, options), events),
    ensures
        ({
            let m = after(start(cfg, options), events);
            &&& m.pts >= 0
            &&& m.phase != Phase::Stopped ==> captures(events) == m.pts + (if in_flight(m.phase) {
                1int
            } else {
                0int
            })
        }),
    decreases events.len(),
{
    if events.len() > 0 {
        law_timestamps_count_frames(cfg, options, events.drop_last());
    }
}

/// Timestamps that count up from zero are never refused by an encoder.
pub proof fn law_timestamps_are_accepted(n: nat)
    requires
        n <= i64::MAX,
    ensures
        laws::accepted(None, Seq::new(n, |i: int| i as i64)) == Seq::new(n, |i: int| i as i64),
{
    laws::law_ordered_all_accepted(None, Seq::new(n, |i: int| i as i64));
}

/// Whether the device offered the wanted format at some point.
pub open spec fn was_offered(cfg: V4lH264Config, events: Seq<V4lEvent<'_>>) -> bool {
    exists|i: int|
        0 <= i < events.len() && (#[trigger] events[i] matches V4lEvent::Formats(Ok(formats))
            && v4l_h264::offers(formats@, cfg.v4l_fourcc))
}

/// A call that is made before the device is known to offer the wanted format.
pub open spec fn is_probing(phase: Phase) -> bool {
    phase == Phase::Probe || phase == Phase::List || phase == Phase::Wait
}

/// The device is not opened to capture before it has offered the wanted format; until then the
/// stream goes on probing or fails.
pub proof fn law_waits_for_format(
    cfg: V4lH264Config,
    options: Seq<(String, String)>,
    events: Seq<V4lEvent<'_>>,
)
    requires
        proper(start(cfg, options), events),
        !was_offered(cfg, events),
    ensures
        ({
            let m = after(start(cfg, options), events);
            &&& m.cfg == cfg
            &&& is_probing(m.phase) || m.phase == Phase::Stopped
            &&& m.pts == 0
        }),
    decreases events.len(),
{
    if events.len() > 0 {
        let front = events.drop_last();
        assert(!was_offered(cfg, front)) by {
            if was_offered(cfg, front) {
                let i = choose|i: int|
                    0 <= i < front.len() && (#[trigger] front[i] matches V4lEvent::Formats(
                        Ok(formats),
                    ) && v4l_h264::offers(formats@, cfg.v4l_fourcc));
                assert(events[i] == front[i]);
                assert(was_offered(cfg, events));
            }
        }
        law_waits_for_format(cfg, options, front);
        assert(events[events.len() - 1] == events.last());
    }
}

/// Nothing answers a stream that has failed: a failure is the end of it.
pub proof fn law_failure_is_final(m: StreamModel, event: V4lEvent<'_>)
    requires
        m.phase == Phase::Stopped,
    ensures
        !v4l_h264::answers(m, event),
{
}

/// The configuration never changes, and a timestamp once reached is not gone back on.
pub proof fn law_stream_keeps_config(m: StreamModel, event: V4lEvent<'_>)
    requires
        v4l_h264::answers(m, event),
    ensures
        v4l_h264::next_model(m, event).cfg == m.cfg,
        m.pts <= v4l_h264::next_model(m, event).pts <= m.pts + 1,
{
}

/// The input handed to the encoder is as long as the number of bytes used and is the front of the
/// captured buffer, byte by byte; it goes with the timestamp that is due.
pub proof fn law_used_bytes_are_encoded(
    m: StreamModel,
    buffer: &[u8],
    used: u32,
    action: V4lAction<'_>,
)
    requires
        used <= buffer@.len(),
        v4l_h264::calls_for(m, V4lEvent::Captured(Ok((buffer, used))), action),
    ensures
        action matches V4lAction::Encode(pts, input) && {
            &&& pts == m.pts
            &&& input@.len() == used
            &&& forall|i: int| 0 <= i < used ==> #[trigger] input@[i] == buffer@[i]
        },
        v4l_h264::next_model(m, V4lEvent::Captured(Ok((buffer, used)))) == (StreamModel {
            phase: Phase::Encode,
            ..m
        }),
{
}

/// What an encoder hands out is sent as it is, and the timestamp stays until it is sent. Once it is
/// sent, or if the encoder holds the frame back, the next frame is captured, one timestamp later.
pub proof fn law_encoded_bytes_are_sent(m: StreamModel, frame: EncodedFrame, action: V4lAction<'_>)
    requires
        m.pts < i64::MAX,
    ensures
        v4l_h264::calls_for(m, V4lEvent::Encoded(Ok(Some(frame))), action) ==> action
            == V4lAction::Send(frame.nal_bytes),
        v4l_h264::next_model(m, V4lEvent::Encoded(Ok(Some(frame)))) == (StreamModel {
            phase: Phase::Send,
            ..m
        }),
        v4l_h264::calls_for(m, V4lEvent::Encoded(Ok(None)), action) ==> action is Capture,
        v4l_h264::calls_for(m, V4lEvent::Sent(Ok(())), action) ==> action is Capture,
        ({
            let held_back = v4l_h264::next_model(m, V4lEvent::Encoded(Ok(None)));
            let sent = v4l_h264::next_model(m, V4lEvent::Sent(Ok(())));
            &&& held_back == sent
            &&& sent.phase == Phase::Capture
            &&& sent.pts == m.pts + 1
            &&& sent.cfg == m.cfg
            &&& sent.options == m.options
        }),
{
}

/// A device that offers the wanted format, by all four characters, is opened to capture; one that
/// does not is probed again after a second.
pub proof fn law_format_decides(m: StreamModel, formats: Vec<FourCC>, action: V4lAction<'_>)
    requires
        v4l_h264::calls_for(m, V4lEvent::Formats(Ok(formats)), action),
    ensures
        (exists|i: int|
            0 <= i < formats@.len() && (#[trigger] formats@[i]).repr@ == m.cfg.v4l_fourcc.repr@)
            ==> action is OpenDevice && v4l_h264::next_model(m, V4lEvent::Formats(Ok(formats)))
            == (StreamModel { phase: Phase::Open, ..m }),
        (forall|i: int|
            0 <= i < formats@.len() ==> (#[trigger] formats@[i]).repr@ != m.cfg.v4l_fourcc.repr@)
            ==> action == V4lAction::Wait(1) && v4l_h264::next_model(
            m,
            V4lEvent::Formats(Ok(formats)),
        ) == (StreamModel { phase: Phase::Wait, ..m }),
{
    if exists|i: int|
        0 <= i < formats@.len() && (#[trigger] formats@[i]).repr@ == m.cfg.v4l_fourcc.repr@ {
        let i = choose|i: int|
            0 <= i < formats@.len() && (#[trigger] formats@[i]).repr@ == m.cfg.v4l_fourcc.repr@;
        assert(formats@[i]@ == m.cfg.v4l_fourcc@);
        assert(v4l_h264::offers(formats@, m.cfg.v4l_fourcc));
    }
    if v4l_h264::offers(formats@, m.cfg.v4l_fourcc) {
        let i = choose|i: int|
            0 <= i < formats@.len() && (#[trigger] formats@[i])@ == m.cfg.v4l_fourcc@;
        assert(formats@[i].repr@ == m.cfg.v4l_fourcc.repr@);
    }
}

/// A device that was probed is asked for its formats, one that was opened to capture is mapped, then
/// asked for its format; after a wait it is probed again, and an open encoder is given frames.
pub proof fn law_order_of_setting_up(m: StreamModel, action: V4lAction<'_>)
    ensures
        m.phase == Phase::Probe && v4l_h264::calls_for(m, V4lEvent::DeviceOpened(Ok(())), action)
            ==> action is ListFormats,
        m.phase == Phase::Open && v4l_h264::calls_for(m, V4lEvent::DeviceOpened(Ok(())), action)
            ==> action is MapStream,
        v4l_h264::calls_for(m, V4lEvent::StreamMapped(Ok(())), action) ==> action is ReadFormat,
        v4l_h264::calls_for(m, V4lEvent::Waited, action) ==> action is OpenDevice,
        v4l_h264::calls_for(m, V4lEvent::EncoderOpened(Ok(())), action) ==> action is Capture,
        m.phase == Phase::Probe ==> v4l_h264::next_model(m, V4lEvent::DeviceOpened(Ok(()))) == (
        StreamModel { phase: Phase::List, ..m }),
        m.phase == Phase::Open ==> v4l_h264::next_model(m, V4lEvent::DeviceOpened(Ok(()))) == (
        StreamModel { phase: Phase::MapStream, ..m }),
        v4l_h264::next_model(m, V4lEvent::StreamMapped(Ok(()))) == (StreamModel {
            phase: Phase::ReadFormat,
            ..m
        }),
        v4l_h264::next_model(m, V4lEvent::Waited) == (StreamModel { phase: Phase::Probe, ..m }),
        v4l_h264::next_model(m, V4lEvent::EncoderOpened(Ok(()))) == (StreamModel {
            phase: Phase::Capture,
            ..m
        }),
{
}

/// The encoder takes frames of the size of the device in the configured format and gives frames of
/// the configured size and bitrate: in software, at fifteen frames per second, with FFmpeg's own
/// choice of groups of pictures and B-frames. It gets the options.
pub proof fn law_encoder_of_a_stream(
    m: StreamModel,
    width: u32,
    height: u32,
    action: V4lAction<'_>,
)
    requires
        v4l_h264::calls_for(m, V4lEvent::FormatRead(Ok((width, height))), action),
    ensures
        action matches V4lAction::OpenEncoder(opening) && {
            &&& opening.config.input_width == width
            &&& opening.config.input_height == height
            &&& opening.config.output_width == m.cfg.output_width
            &&& opening.config.output_height == m.cfg.output_height
            &&& opening.config.framerate == 15
            &&& opening.config.gop is None
            &&& opening.config.bitrate == m.cfg.bitrate
            &&& !opening.config.disable_b_frames
            &&& opening.config.enc_type == EncoderType::X264
            &&& opening.config.input_type.name@ == m.cfg.input_type.name@
            &&& opening.options@ == m.options
            &&& opening.step == OpenStep::FindCodec
        },
        v4l_h264::next_model(m, V4lEvent::FormatRead(Ok((width, height)))).phase
            == Phase::OpenEncoder,
        v4l_h264::next_model(m, V4lEvent::FormatRead(Ok((width, height)))).pts == m.pts,
        v4l_h264::next_model(m, V4lEvent::FormatRead(Ok((width, height)))).cfg == m.cfg,
{
}

/// Every failed call stops the stream with the error of that call, which carries what came back.
pub proof fn law_failures_stop(
    m: StreamModel,
    detail: String,
    error: H264EncoderError,
    bytes: BytesMut,
    action: V4lAction<'_>,
)
    ensures
        v4l_h264::calls_for(m, V4lEvent::DeviceOpened(Err(detail)), action) ==> (
        action matches V4lAction::Stop(V4lStreamError::DeviceOpenError(text)) && text@ == detail@),
        v4l_h264::calls_for(m, V4lEvent::Formats(Err(detail)), action) ==> (
        action matches V4lAction::Stop(V4lStreamError::DeviceFormatError(text)) && text@
            == detail@),
        v4l_h264::calls_for(m, V4lEvent::StreamMapped(Err(detail)), action) ==> (
        action matches V4lAction::Stop(V4lStreamError::MmapStreamError(text)) && text@ == detail@),
        v4l_h264::calls_for(m, V4lEvent::FormatRead(Err(detail)), action) ==> (
        action matches V4lAction::Stop(V4lStreamError::GetFormatError(text)) && text@ == detail@),
        v4l_h264::calls_for(m, V4lEvent::Captured(Err(detail)), action) ==> (
        action matches V4lAction::Stop(V4lStreamError::StreamIterationError(text)) && text@
            == detail@),
        v4l_h264::calls_for(m, V4lEvent::EncoderOpened(Err(error)), action) ==> action
            == V4lAction::Stop(V4lStreamError::EncoderCreationError(error)),
        v4l_h264::calls_for(m, V4lEvent::Encoded(Err(error)), action) ==> action == V4lAction::Stop(
            V4lStreamError::FrameEncodingError(error),
        ),
        v4l_h264::calls_for(m, V4lEvent::Sent(Err(bytes)), action) ==> action == V4lAction::Stop(
            V4lStreamError::ChannelSendError(bytes),
        ),
        v4l_h264::next_model(m, V4lEvent::DeviceOpened(Err(detail))).phase == Phase::Stopped,
        v4l_h264::next_model(m, V4lEvent::Formats(Err(detail))).phase == Phase::Stopped,
        v4l_h264::next_model(m, V4lEvent::StreamMapped(Err(detail))).phase == Phase::Stopped,
        v4l_h264::next_model(m, V4lEvent::FormatRead(Err(detail))).phase == Phase::Stopped,
        v4l_h264::next_model(m, V4lEvent::Captured(Err(detail))).phase == Phase::Stopped,
        v4l_h264::next_model(m, V4lEvent::EncoderOpened(Err(error))).phase == Phase::Stopped,
        v4l_h264::next_model(m, V4lEvent::Encoded(Err(error))).phase == Phase::Stopped,
        v4l_h264::next_model(m, V4lEvent::Sent(Err(bytes))).phase == Phase::Stopped,
{
}

/// Each call that is due is answered by any outcome of it: no outcome is left out but a buffer with
/// fewer bytes than are used of it, and a timestamp that none can follow.
pub proof fn law_every_outcome_is_an_answer(m: StreamModel, event: V4lEvent<'_>)
    ensures
        event is DeviceOpened ==> (v4l_h264::answers(m, event) <==> m.phase == Phase::Probe
            || m.phase == Phase::Open),
        event is Formats ==> (v4l_h264::answers(m, event) <==> m.phase == Phase::List),
        event is Waited ==> (v4l_h264::answers(m, event) <==> m.phase == Phase::Wait),
        event is StreamMapped ==> (v4l_h264::answers(m, event) <==> m.phase == Phase::MapStream),
        event is FormatRead ==> (v4l_h264::answers(m, event) <==> m.phase == Phase::ReadFormat),
        event is EncoderOpened ==> (v4l_h264::answers(m, event) <==> m.phase
            == Phase::OpenEncoder),
        event matches V4lEvent::Captured(Ok(captured)) ==> (v4l_h264::answers(m, event)
            <==> m.phase == Phase::Capture && captured.1 <= captured.0@.len()),
        event matches V4lEvent::Captured(Err(_)) ==> (v4l_h264::answers(m, event) <==> m.phase
            == Phase::Capture),
        event is Encoded ==> (v4l_h264::answers(m, event) <==> m.phase == Phase::Encode && m.pts
            < 0x7fff_ffff_ffff_ffff),
        event is Sent ==> (v4l_h264::answers(m, event) <==> m.phase == Phase::Send && m.pts
            < 0x7fff_ffff_ffff_ffff),
{
}

/// The message of an error is a text for its kind and then its detail, unchanged.
pub proof fn law_error_texts(detail: String, error: H264EncoderError, bytes: BytesMut)
    ensures
        V4lStreamError::DeviceOpenError(detail).text() == "Failed to open V4L device: "@ + detail@,
        V4lStreamError::DeviceFormatError(detail).text() == "Failed to get V4L formats: "@
            + detail@,
        V4lStreamError::MmapStreamError(detail).text() == "Failed to create MmapStream: "@
            + detail@,
        V4lStreamError::GetFormatError(detail).text() == "Failed to get V4L format: "@ + detail@,
        V4lStreamError::EncoderCreationError(error).text() == "Failed to create H264 encoder: "@
            + error.text(),
        V4lStreamError::FrameEncodingError(error).text() == "Error encoding frame: "@
            + error.text(),
        V4lStreamError::StreamIterationError(detail).text() == "Stream iteration error: "@
            + detail@,
        V4lStreamError::ChannelSendError(bytes).text() == "Channel send error: channel closed"@,
{
}

/// A stream starts by probing the device of its configuration, with its options and the timestamp
/// zero.
pub proof fn law_stream_starts_at_zero(cfg: V4lH264Config, options: Seq<(String, String)>)
    ensures
        v4l_h264::started(cfg, options) == start(cfg, options),
        v4l_h264::started(cfg, options).phase == Phase::Probe,
        v4l_h264::started(cfg, options).pts == 0,
        v4l_h264::started(cfg, options).cfg == cfg,
        v4l_h264::started(cfg, options).options == options,
{
}

} // verus!
