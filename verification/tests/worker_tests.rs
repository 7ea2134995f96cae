use retro_av::args::{AudioArgs, OutputArgs, PixelFormat, VideoArgs};
use retro_av::sink::{Frame, FrameData};
use retro_av::planes::{AudioPlane, VideoPlane};
use retro_av::timestamp::{rescale_pts, TimeBase};
use retro_av::worker::{
    dispatch_frame, flush_decision, ActiveStreams, FlushAction, FrameAction, Phase, PollOutcome,
    RejectReason, StageSignal, WorkerControl,
};

fn video_args() -> VideoArgs {
    VideoArgs { pixel_format: PixelFormat::Bgra, fps: 60, width: 640, height: 480 }
}

fn empty_video_frame(n: u64) -> Frame<FrameData> {
    Frame {
        data: FrameData::Video(VideoPlane { data: Vec::new(), width: 0, height: 0, pitch: 0 }),
        frame_number: n,
    }
}

fn empty_audio_frame(n: u64) -> Frame<FrameData> {
    Frame { data: FrameData::Audio(AudioPlane { data: Vec::new() }), frame_number: n }
}

#[test]
fn video_frame_while_uninitialized_is_rejected() {
    let state = WorkerControl::new();
    let action = dispatch_frame(&state, &empty_video_frame(3));
    assert_eq!(action, FrameAction::RejectFrame { reason: RejectReason::NoSession });
}

#[test]
fn video_frame_on_audio_only_session_is_rejected() {
    let state = WorkerControl {
        session: Some(ActiveStreams { video: false, audio: true }),
        draining: false,
        eos_sent: false,
        terminated: false,
    };
    let action = dispatch_frame(&state, &empty_video_frame(9));
    assert_eq!(action, FrameAction::RejectFrame { reason: RejectReason::NoVideoStream });
}

#[test]
fn audio_frame_on_video_only_session_is_rejected() {
    let state = WorkerControl {
        session: Some(ActiveStreams { video: true, audio: false }),
        draining: false,
        eos_sent: false,
        terminated: false,
    };
    let action = dispatch_frame(&state, &empty_audio_frame(4));
    assert_eq!(action, FrameAction::RejectFrame { reason: RejectReason::NoAudioStream });
}

#[test]
fn media_on_matching_stream_is_stamped_with_sequence_number() {
    let state = WorkerControl {
        session: Some(ActiveStreams { video: true, audio: true }),
        draining: false,
        eos_sent: false,
        terminated: false,
    };
    assert_eq!(dispatch_frame(&state, &empty_video_frame(17)), FrameAction::PushVideo { pts: 17 });
    assert_eq!(dispatch_frame(&state, &empty_audio_frame(5)), FrameAction::PushAudio { pts: 5 });
}

#[test]
fn second_configure_is_rejected_without_touching_state() {
    let state = WorkerControl {
        session: Some(ActiveStreams { video: true, audio: false }),
        draining: false,
        eos_sent: false,
        terminated: false,
    };
    let frame = Frame { data: FrameData::Configure(OutputArgs::Video(video_args())), frame_number: 8 };
    assert_eq!(dispatch_frame(&state, &frame), FrameAction::RejectConfigure);
}

#[test]
fn first_configure_builds_session() {
    let state = WorkerControl::new();
    let frame = Frame { data: FrameData::Configure(OutputArgs::Video(video_args())), frame_number: 0 };
    match dispatch_frame(&state, &frame) {
        FrameAction::BuildSession { .. } => {}
        other => panic!("expected a session build, got {:?}", other),
    }
}

#[test]
fn end_begins_drain() {
    let state = WorkerControl::new();
    let frame = Frame { data: FrameData::End, frame_number: 120 };
    assert_eq!(dispatch_frame(&state, &frame), FrameAction::BeginDrain);
}

fn draining_state() -> WorkerControl {
    WorkerControl {
        session: Some(ActiveStreams { video: true, audio: true }),
        draining: true,
        eos_sent: false,
        terminated: false,
    }
}

#[test]
fn flush_waits_while_a_filter_still_holds_frames() {
    // One filter-pull slot did not report empty this iteration: neither
    // end-of-stream nor the trailer may happen.
    let poll = PollOutcome::Blocked {
        video_filter: StageSignal::Eof,
        audio_filter: StageSignal::WouldBlock,
        video_encoder: StageSignal::WouldBlock,
        audio_encoder: StageSignal::WouldBlock,
    };
    assert_eq!(flush_decision(&draining_state(), true, &poll), FlushAction::KeepPolling);
}

#[test]
fn flush_signals_end_of_stream_once_filters_are_drained() {
    let poll = PollOutcome::Blocked {
        video_filter: StageSignal::WouldBlock,
        audio_filter: StageSignal::WouldBlock,
        video_encoder: StageSignal::WouldBlock,
        audio_encoder: StageSignal::Eof,
    };
    assert_eq!(flush_decision(&draining_state(), true, &poll), FlushAction::SignalEndOfStream);
}

#[test]
fn flush_does_not_resend_end_of_stream() {
    let mut state = draining_state();
    state.eos_sent = true;
    let poll = PollOutcome::Blocked {
        video_filter: StageSignal::WouldBlock,
        audio_filter: StageSignal::WouldBlock,
        video_encoder: StageSignal::WouldBlock,
        audio_encoder: StageSignal::Eof,
    };
    assert_eq!(flush_decision(&state, true, &poll), FlushAction::KeepPolling);
}

#[test]
fn flush_writes_trailer_only_when_both_encoders_finished() {
    let poll = PollOutcome::Blocked {
        video_filter: StageSignal::WouldBlock,
        audio_filter: StageSignal::WouldBlock,
        video_encoder: StageSignal::Eof,
        audio_encoder: StageSignal::Eof,
    };
    assert_eq!(flush_decision(&draining_state(), true, &poll), FlushAction::WriteTrailer);
}

#[test]
fn flush_waits_while_queue_not_empty_or_not_draining() {
    let poll = PollOutcome::Blocked {
        video_filter: StageSignal::WouldBlock,
        audio_filter: StageSignal::WouldBlock,
        video_encoder: StageSignal::Eof,
        audio_encoder: StageSignal::Eof,
    };
    assert_eq!(flush_decision(&draining_state(), false, &poll), FlushAction::KeepPolling);
    let mut idle = draining_state();
    idle.draining = false;
    assert_eq!(flush_decision(&idle, true, &poll), FlushAction::KeepPolling);
}

#[test]
fn phases_follow_the_protocol() {
    let mut state = WorkerControl::new();
    assert_eq!(state.phase(), Phase::Uninitialized);
    state.note_session_built(&OutputArgs::Video(video_args()));
    assert_eq!(state.phase(), Phase::Active);
    state.note_drain();
    assert_eq!(state.phase(), Phase::Draining);
    state.note_eos_sent();
    assert_eq!(state.phase(), Phase::Finalizing);
    state.note_terminated();
    assert_eq!(state.phase(), Phase::Terminated);
}

#[test]
fn rescale_between_equal_bases_is_identity() {
    let tb = TimeBase { num: 1, den: 60 };
    assert_eq!(rescale_pts(119, tb, tb), Some(119));
    assert_eq!(rescale_pts(-7, tb, tb), Some(-7));
    assert_eq!(rescale_pts(0, tb, tb), Some(0));
}

#[test]
fn rescale_scales_to_finer_base() {
    // 1 tick of 1/30 s is 3000 ticks of 1/90000 s.
    let from = TimeBase { num: 1, den: 30 };
    let to = TimeBase { num: 1, den: 90000 };
    assert_eq!(rescale_pts(1, from, to), Some(3000));
    assert_eq!(rescale_pts(10, from, to), Some(30000));
}

#[test]
fn rescale_rounds_to_nearest_with_ties_away_from_zero() {
    // 1 tick of 1/2 s in whole seconds is 0.5 s: ties go away from zero.
    let from = TimeBase { num: 1, den: 2 };
    let to = TimeBase { num: 1, den: 1 };
    assert_eq!(rescale_pts(1, from, to), Some(1));
    assert_eq!(rescale_pts(-1, from, to), Some(-1));
    // 1 tick of 1/3 s in whole seconds is 0.33 s: rounds down to zero.
    let third = TimeBase { num: 1, den: 3 };
    assert_eq!(rescale_pts(1, third, to), Some(0));
    assert_eq!(rescale_pts(2, third, to), Some(1));
}

#[test]
fn rescale_overflow_is_reported_not_wrapped() {
    let from = TimeBase { num: u32::MAX, den: 1 };
    let to = TimeBase { num: 1, den: u32::MAX };
    assert_eq!(rescale_pts(i64::MAX, from, to), None);
    assert_eq!(rescale_pts(i64::MIN, from, to), None);
}
