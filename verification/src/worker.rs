//! The encode worker's control state and its scheduling decisions.
//!
//! Each loop iteration dequeues at most one frame, dispatches it, then
//! evaluates the four stage slots — video filter-pull, audio filter-pull,
//! video encode-write, audio encode-write — in that fixed priority order,
//! stopping at the first stage that makes forward progress.  Once the
//! `End` marker has been observed and the queue is empty, the recorded
//! stage signals drive the flush protocol: end-of-stream may be sent to
//! the encoders only after both filter graphs report empty, and the
//! trailer is written only after both encoders confirm they are finished.
//!
//! The decisions are pure functions of the control state, one dequeued
//! frame and the recorded signals, so a backend driver and the in-memory
//! model exercise exactly the same proved logic.

use vstd::prelude::*;
use crate::args::OutputArgs;
use crate::sink::{Frame, FrameData};
use crate::timestamp::frame_pts;

verus! {

/// What a stage slot reported when it made no forward progress: the
/// backend has nothing right now but may later, or the stream is
/// permanently finished.
#[derive(Debug, Clone, Copy, PartialEq, Eq, Structural)]
pub enum StageSignal {
    WouldBlock,
    Eof,
}

/// One pass over the four stage slots in priority order: either some
/// stage made forward progress and evaluation stopped there, or every
/// slot recorded a signal.  A slot left unbound because its stream is
/// inactive records `WouldBlock` for a filter-pull (an empty graph) and
/// `Eof` for an encode-write (a finished encoder), so the flush checks
/// treat absent streams as already drained.
#[derive(Debug, Clone, Copy, PartialEq, Eq, Structural)]
pub enum PollOutcome {
    Progress,
    Blocked {
        video_filter: StageSignal,
        audio_filter: StageSignal,
        video_encoder: StageSignal,
        audio_encoder: StageSignal,
    },
}

/// Which streams the session was built with; a stream's two stage slots
/// are bound exactly when it is active, for the whole session lifetime.
#[derive(Debug, Clone, Copy, PartialEq, Eq, Structural)]
pub struct ActiveStreams {
    pub video: bool,
    pub audio: bool,
}

/// The streams a session built from these arguments carries.
pub open spec fn spec_streams_of(args: OutputArgs) -> ActiveStreams {
    ActiveStreams { video: args.spec_has_video(), audio: args.spec_has_audio() }
}

/// The streams a session built from these arguments carries.
pub fn streams_of(args: &OutputArgs) -> (s: ActiveStreams)
    ensures
        s == spec_streams_of(*args),
{
    ActiveStreams { video: args.has_video(), audio: args.has_audio() }
}

/// The worker's named states, derived from the control flags.
#[derive(Debug, Clone, Copy, PartialEq, Eq, Structural)]
pub enum Phase {
    Uninitialized,
    Active,
    Draining,
    Finalizing,
    Terminated,
}

/// The control state of the encode worker: whether a session exists and
/// with which streams, and how far the end-of-stream handshake has come.
#[derive(Debug, Clone, Copy, PartialEq, Eq, Structural)]
pub struct WorkerControl {
    /// `Some` once the first `Configure` has built a session.
    pub session: Option<ActiveStreams>,
    /// The `End` marker has been observed.
    pub draining: bool,
    /// End-of-stream was delivered to every active encoder.
    pub eos_sent: bool,
    /// The trailer protocol completed and the worker exited its loop.
    pub terminated: bool,
}

impl WorkerControl {
    /// The flags only ever move forward: end-of-stream is sent while
    /// draining, and termination ends a drain.
    pub open spec fn wf(self) -> bool {
        &&& (self.eos_sent ==> self.draining)
        &&& (self.terminated ==> self.draining)
    }

    pub open spec fn spec_phase(self) -> Phase {
        if self.terminated {
            Phase::Terminated
        } else if self.eos_sent {
            Phase::Finalizing
        } else if self.draining {
            Phase::Draining
        } else if self.session is Some {
            Phase::Active
        } else {
            Phase::Uninitialized
        }
    }

    pub fn phase(&self) -> (p: Phase)
        ensures
            p == self.spec_phase(),
    {
        if self.terminated {
            Phase::Terminated
        } else if self.eos_sent {
            Phase::Finalizing
        } else if self.draining {
            Phase::Draining
        } else if self.session.is_some() {
            Phase::Active
        } else {
            Phase::Uninitialized
        }
    }

    /// The worker before any frame arrived: no session, nothing pending.
    pub fn new() -> (w: WorkerControl)
        ensures
            w == (WorkerControl { session: None, draining: false, eos_sent: false, terminated: false }),
    {
        WorkerControl { session: None, draining: false, eos_sent: false, terminated: false }
    }

    /// Records the one successful session construction.
    pub fn note_session_built(&mut self, args: &OutputArgs)
        requires
            old(self).session is None,
        ensures
            *final(self) == (WorkerControl { session: Some(spec_streams_of(*args)), ..*old(self) }),
    {
        self.session = Some(streams_of(args));
    }

    /// Records that the `End` marker was observed.
    pub fn note_drain(&mut self)
        ensures
            *final(self) == (WorkerControl { draining: true, ..*old(self) }),
    {
        self.draining = true;
    }

    /// Records that every active encoder accepted end-of-stream.
    pub fn note_eos_sent(&mut self)
        requires
            old(self).draining,
        ensures
            *final(self) == (WorkerControl { eos_sent: true, ..*old(self) }),
    {
        self.eos_sent = true;
    }

    /// Records that the trailer protocol completed.
    pub fn note_terminated(&mut self)
        requires
            old(self).draining,
        ensures
            *final(self) == (WorkerControl { terminated: true, ..*old(self) }),
    {
        self.terminated = true;
    }
}

/// Why a frame was dropped instead of entering a pipeline.
#[derive(Debug, Clone, Copy, PartialEq, Eq, Structural)]
pub enum RejectReason {
    /// A media frame arrived before any session was built.
    NoSession,
    /// A video frame arrived but the session has no video stream.
    NoVideoStream,
    /// An audio frame arrived but the session has no audio stream.
    NoAudioStream,
}

/// What the worker does with one dequeued frame.
#[derive(Debug, Clone, Copy, PartialEq, Eq, Structural)]
pub enum FrameAction {
    /// Stamp the plane with `pts` and push it into the video filter graph.
    PushVideo { pts: i64 },
    /// Stamp the batch with `pts` and push it into the audio filter graph.
    PushAudio { pts: i64 },
    /// Attempt to build the session from these arguments.
    BuildSession { args: OutputArgs },
    /// A session already exists: log the rejection, change nothing.
    RejectConfigure,
    /// A media frame without a matching active stream: log and drop it.
    RejectFrame { reason: RejectReason },
    /// Switch to draining.
    BeginDrain,
}

/// How one dequeued frame is handled, as a function of the control state.
///
/// Presentation time is the frame's sequence number in both stream time
/// bases: one tick per video frame interval, and the audio stream's own
/// tick for audio batches.
pub open spec fn spec_dispatch(state: WorkerControl, frame: Frame<FrameData>) -> FrameAction {
    match frame.data {
        FrameData::Video(_) => {
            match state.session {
                Some(s) => if s.video {
                    FrameAction::PushVideo { pts: frame.frame_number as i64 }
                } else {
                    FrameAction::RejectFrame { reason: RejectReason::NoVideoStream }
                },
                None => FrameAction::RejectFrame { reason: RejectReason::NoSession },
            }
        },
        FrameData::Audio(_) => {
            match state.session {
                Some(s) => if s.audio {
                    FrameAction::PushAudio { pts: frame.frame_number as i64 }
                } else {
                    FrameAction::RejectFrame { reason: RejectReason::NoAudioStream }
                },
                None => FrameAction::RejectFrame { reason: RejectReason::NoSession },
            }
        },
        FrameData::Configure(args) => {
            if state.session is None {
                FrameAction::BuildSession { args }
            } else {
                FrameAction::RejectConfigure
            }
        },
        FrameData::End => FrameAction::BeginDrain,
    }
}

/// Decides what to do with one dequeued frame.  Media for an inactive or
/// unbuilt stream is rejected deterministically, never treated as an
/// impossible state; a `Configure` after the session exists is rejected
/// without touching the session.
pub fn dispatch_frame(state: &WorkerControl, frame: &Frame<FrameData>) -> (a: FrameAction)
    requires
        frame.frame_number <= i64::MAX as u64,
    ensures
        a == spec_dispatch(*state, *frame),
{
    match &frame.data {
        FrameData::Video(_) => {
            match state.session {
                Some(s) => if s.video {
                    FrameAction::PushVideo { pts: frame_pts(frame.frame_number) }
                } else {
                    FrameAction::RejectFrame { reason: RejectReason::NoVideoStream }
                },
                None => FrameAction::RejectFrame { reason: RejectReason::NoSession },
            }
        },
        FrameData::Audio(_) => {
            match state.session {
                Some(s) => if s.audio {
                    FrameAction::PushAudio { pts: frame_pts(frame.frame_number) }
                } else {
                    FrameAction::RejectFrame { reason: RejectReason::NoAudioStream }
                },
                None => FrameAction::RejectFrame { reason: RejectReason::NoSession },
            }
        },
        FrameData::Configure(args) => {
            if state.session.is_none() {
                FrameAction::BuildSession { args: *args }
            } else {
                FrameAction::RejectConfigure
            }
        },
        FrameData::End => FrameAction::BeginDrain,
    }
}

/// What the flush check does after the stages ran, when draining and the
/// input queue is empty.
#[derive(Debug, Clone, Copy, PartialEq, Eq, Structural)]
pub enum FlushAction {
    /// Both filter graphs are empty and both encoders confirmed `Eof`:
    /// write the trailer and terminate.
    WriteTrailer,
    /// Both filter graphs are empty but an encoder is not finished yet:
    /// send end-of-stream to every active encoder, once.
    SignalEndOfStream,
    /// Any other combination: keep polling.
    KeepPolling,
}

/// The end-of-stream/flush protocol, step by step.  An encoder must not
/// receive end-of-stream while its filter graph still holds frames, and
/// the trailer must not be written before every encoder confirmed `Eof`.
pub open spec fn spec_flush_decision(
    state: WorkerControl,
    queue_empty: bool,
    poll: PollOutcome,
) -> FlushAction {
    if !state.draining || !queue_empty {
        FlushAction::KeepPolling
    } else {
        match poll {
            PollOutcome::Progress => FlushAction::KeepPolling,
            PollOutcome::Blocked { video_filter, audio_filter, video_encoder, audio_encoder } => {
                if video_filter is WouldBlock && audio_filter is WouldBlock && video_encoder is Eof
                    && audio_encoder is Eof {
                    FlushAction::WriteTrailer
                } else if video_filter is WouldBlock && audio_filter is WouldBlock
                    && !state.eos_sent {
                    FlushAction::SignalEndOfStream
                } else {
                    FlushAction::KeepPolling
                }
            },
        }
    }
}

/// Decides the flush step for this iteration from the recorded stage
/// signals.
pub fn flush_decision(state: &WorkerControl, queue_empty: bool, poll: &PollOutcome) -> (a:
    FlushAction)
    ensures
        a == spec_flush_decision(*state, queue_empty, *poll),
{
    if !state.draining || !queue_empty {
        return FlushAction::KeepPolling;
    }
    match poll {
        PollOutcome::Progress => FlushAction::KeepPolling,
        PollOutcome::Blocked { video_filter, audio_filter, video_encoder, audio_encoder } => {
            if matches!(video_filter, StageSignal::WouldBlock) && matches!(
                audio_filter,
                StageSignal::WouldBlock,
            ) && matches!(video_encoder, StageSignal::Eof) && matches!(
                audio_encoder,
                StageSignal::Eof,
            ) {
                FlushAction::WriteTrailer
            } else if matches!(video_filter, StageSignal::WouldBlock) && matches!(
                audio_filter,
                StageSignal::WouldBlock,
            ) && !state.eos_sent {
                FlushAction::SignalEndOfStream
            } else {
                FlushAction::KeepPolling
            }
        },
    }
}

/// A media frame for a stream that is inactive or for which no session
/// exists is always rejected — dispatched to a structured drop, never to
/// a pipeline and never to an abort.
pub proof fn lemma_media_without_stream_rejected(state: WorkerControl, frame: Frame<FrameData>)
    requires
        frame.data is Video ==> !(state.session matches Some(s) && s.video),
        frame.data is Audio ==> !(state.session matches Some(s) && s.audio),
        frame.data is Video || frame.data is Audio,
    ensures
        spec_dispatch(state, frame) matches FrameAction::RejectFrame { .. },
{
}

/// Once a session exists, a further `Configure` is dispatched to a logged
/// rejection: no action that could build or replace a session results.
pub proof fn lemma_second_configure_rejected(state: WorkerControl, frame: Frame<FrameData>)
    requires
        state.session is Some,
        frame.data is Configure,
    ensures
        spec_dispatch(state, frame) == FrameAction::RejectConfigure,
{
}

/// End-of-stream is signalled only in an iteration in which both
/// filter-pull slots reported `WouldBlock` — that is, only once both
/// filter graphs are drained — and only while draining with an empty
/// input queue, and only once.
pub proof fn lemma_eos_only_after_filters_drained(
    state: WorkerControl,
    queue_empty: bool,
    poll: PollOutcome,
)
    requires
        spec_flush_decision(state, queue_empty, poll) == FlushAction::SignalEndOfStream,
    ensures
        poll matches PollOutcome::Blocked { video_filter, audio_filter, .. }
            && video_filter is WouldBlock && audio_filter is WouldBlock,
        state.draining && queue_empty,
        !state.eos_sent,
{
}

/// The trailer is written only in an iteration in which both filter
/// graphs reported empty and both encode-write slots reported `Eof`: no
/// encoded packet can still be waiting anywhere when the file is
/// finalized.
pub proof fn lemma_trailer_only_after_everything_drained(
    state: WorkerControl,
    queue_empty: bool,
    poll: PollOutcome,
)
    requires
        spec_flush_decision(state, queue_empty, poll) == FlushAction::WriteTrailer,
    ensures
        poll matches PollOutcome::Blocked { video_filter, audio_filter, video_encoder, audio_encoder }
            && video_filter is WouldBlock && audio_filter is WouldBlock && video_encoder is Eof
            && audio_encoder is Eof,
        state.draining && queue_empty,
{
}

} // verus!
