//! An in-memory model of the backend the worker drives: per-stream filter
//! graphs, encoders and a container, with the worker's drive loop run
//! against them.
//!
//! The model realizes exactly the primitives the backend contract names —
//! push and pull on a filter graph, submit, retrieve and end-of-stream on
//! an encoder, interleaved packet writes and a trailer on the container —
//! as plain queues of presentation times.  Running the proved scheduling
//! decisions against it shows the whole protocol end to end: every
//! accepted frame's timestamp reaches the container, in order, and the
//! trailer is written exactly once after everything drained.

use vstd::prelude::*;
use crate::args::{AudioArgs, OutputArgs, VideoArgs};
use crate::sink::{Frame, FrameData};
use crate::timestamp::{TimeBase, lemma_rescale_identity, rescale_pts};
use crate::worker::{
    ActiveStreams,
    FlushAction,
    FrameAction,
    PollOutcome,
    StageSignal,
    WorkerControl,
    dispatch_frame,
    flush_decision,
    spec_streams_of,
};

verus! {

/// A filter graph as the worker sees it: a queue of the presentation
/// times of the frames pushed in and not yet pulled out.  An empty graph
/// reports "nothing yet", never "finished".
#[derive(Debug)]
pub struct ModelFilterGraph {
    pub buffered: Vec<i64>,
}

impl ModelFilterGraph {
    pub open spec fn contents(self) -> Seq<i64> {
        self.buffered@
    }

    pub fn new() -> (g: ModelFilterGraph)
        ensures
            g.contents() == Seq::<i64>::empty(),
    {
        ModelFilterGraph { buffered: Vec::new() }
    }

    /// Accepts one frame into the graph.
    pub fn push(&mut self, pts: i64)
        ensures
            final(self).contents() == old(self).contents().push(pts),
    {
        self.buffered.push(pts);
    }

    /// Hands out the oldest buffered frame, or nothing when the graph is
    /// empty right now.
    pub fn pull(&mut self) -> (r: Option<i64>)
        ensures
            old(self).contents().len() == 0 ==> r is None && final(self).contents() == old(self).contents(),
            old(self).contents().len() > 0 ==> r == Some(old(self).contents()[0])
                && final(self).contents() == old(self).contents().skip(1),
    {
        if self.buffered.len() == 0 {
            None
        } else {
            let pts: i64 = self.buffered.remove(0);
            proof {
                assert(self.buffered@ =~= old(self).contents().skip(1));
            }
            Some(pts)
        }
    }
}

/// What retrieving a packet from an encoder yields.
#[derive(Debug, Clone, Copy, PartialEq, Eq, Structural)]
pub enum RetrieveOutcome {
    /// One encoded packet, carrying its presentation time.
    Packet(i64),
    /// Nothing right now; more input or an end-of-stream signal may
    /// produce more.
    Pending,
    /// The stream is permanently finished.
    Finished,
}

/// An encoder as the worker sees it: submitted frames become retrievable
/// packets in order, and after end-of-stream is received the encoder
/// reports finished once its queue is empty.
#[derive(Debug)]
pub struct ModelEncoder {
    pub pending: Vec<i64>,
    pub eos_received: bool,
}

impl ModelEncoder {
    pub open spec fn packets(self) -> Seq<i64> {
        self.pending@
    }

    pub open spec fn eos(self) -> bool {
        self.eos_received
    }

    pub fn new() -> (e: ModelEncoder)
        ensures
            e.packets() == Seq::<i64>::empty(),
            !e.eos(),
    {
        ModelEncoder { pending: Vec::new(), eos_received: false }
    }

    /// Accepts one frame for encoding; a finished encoder discards late
    /// frames instead of failing.
    pub fn submit(&mut self, pts: i64)
        ensures
            final(self).eos() == old(self).eos(),
            !old(self).eos() ==> final(self).packets() == old(self).packets().push(pts),
            old(self).eos() ==> final(self).packets() == old(self).packets(),
    {
        if !self.eos_received {
            self.pending.push(pts);
        }
    }

    /// Retrieves the oldest encoded packet; with nothing queued the
    /// encoder is either still waiting for input or, after end-of-stream,
    /// permanently finished.
    pub fn retrieve(&mut self) -> (r: RetrieveOutcome)
        ensures
            old(self).packets().len() > 0 ==> r == RetrieveOutcome::Packet(
                old(self).packets()[0],
            ) && final(self).packets() == old(self).packets().skip(1),
            old(self).packets().len() == 0 ==> final(self).packets() == old(self).packets() && r
                == (if old(self).eos() {
                RetrieveOutcome::Finished
            } else {
                RetrieveOutcome::Pending
            }),
            final(self).eos() == old(self).eos(),
    {
        if self.pending.len() == 0 {
            if self.eos_received {
                RetrieveOutcome::Finished
            } else {
                RetrieveOutcome::Pending
            }
        } else {
            let pts: i64 = self.pending.remove(0);
            proof {
                assert(self.pending@ =~= old(self).packets().skip(1));
            }
            RetrieveOutcome::Packet(pts)
        }
    }

    /// Delivers end-of-stream; an encoder that already received it
    /// reports so, which the flush protocol tolerates.
    pub fn signal_end(&mut self) -> (was_finished: bool)
        ensures
            final(self).packets() == old(self).packets(),
            final(self).eos(),
            was_finished == old(self).eos(),
    {
        let was: bool = self.eos_received;
        self.eos_received = true;
        was
    }
}

/// The output container: a header, interleaved packets tagged with their
/// stream index, and a trailer that finalizes the file.
#[derive(Debug)]
pub struct ModelContainer {
    pub header_written: bool,
    pub packets: Vec<(u32, i64)>,
    pub trailer_writes: u32,
}

impl ModelContainer {
    pub open spec fn packet_log(self) -> Seq<(u32, i64)> {
        self.packets@
    }

    pub fn new() -> (c: ModelContainer)
        ensures
            !c.header_written,
            c.packet_log() == Seq::<(u32, i64)>::empty(),
            c.trailer_writes == 0,
    {
        ModelContainer { header_written: false, packets: Vec::new(), trailer_writes: 0 }
    }

    pub fn write_header(&mut self)
        ensures
            *final(self) == (ModelContainer { header_written: true, ..*old(self) }),
    {
        self.header_written = true;
    }

    /// Appends one packet in interleaved order.
    pub fn write_interleaved(&mut self, stream_index: u32, pts: i64)
        requires
            old(self).header_written,
        ensures
            final(self).header_written,
            final(self).packet_log() == old(self).packet_log().push((stream_index, pts)),
            final(self).trailer_writes == old(self).trailer_writes,
    {
        self.packets.push((stream_index, pts));
    }

    /// Finalizes the file.
    pub fn write_trailer(&mut self)
        requires
            old(self).header_written,
            old(self).trailer_writes < u32::MAX,
        ensures
            final(self).header_written,
            final(self).packet_log() == old(self).packet_log(),
            final(self).trailer_writes == old(self).trailer_writes + 1,
    {
        self.trailer_writes = self.trailer_writes + 1;
    }
}

/// The video pipeline of a session: its filter graph, encoder, static
/// arguments and timestamp bookkeeping.  Packets are rescaled from the
/// encoder's time base to the stream's declared one before writing.
#[derive(Debug)]
pub struct VideoStage {
    pub filter: ModelFilterGraph,
    pub encoder: ModelEncoder,
    pub args: VideoArgs,
    pub enc_time_base: TimeBase,
    pub stream_time_base: TimeBase,
    pub stream_index: u32,
}

/// The audio pipeline of a session; audio packets are written in their
/// native time base.
#[derive(Debug)]
pub struct AudioStage {
    pub filter: ModelFilterGraph,
    pub encoder: ModelEncoder,
    pub args: AudioArgs,
    pub time_base: TimeBase,
    pub stream_index: u32,
}

/// A session over the model backend: built at most once, holding one
/// optional sub-context per stream and the output container.
#[derive(Debug)]
pub struct ModelSession {
    pub video: Option<VideoStage>,
    pub audio: Option<AudioStage>,
    pub container: ModelContainer,
}

impl ModelSession {
    pub open spec fn video_active(self) -> bool {
        self.video is Some
    }

    pub open spec fn audio_active(self) -> bool {
        self.audio is Some
    }

    pub open spec fn video_filter_q(self) -> Seq<i64> {
        match self.video {
            Some(v) => v.filter.contents(),
            None => Seq::empty(),
        }
    }

    pub open spec fn video_pending_q(self) -> Seq<i64> {
        match self.video {
            Some(v) => v.encoder.packets(),
            None => Seq::empty(),
        }
    }

    /// An absent stream counts as a finished encoder.
    pub open spec fn video_enc_eos(self) -> bool {
        match self.video {
            Some(v) => v.encoder.eos(),
            None => true,
        }
    }

    pub open spec fn audio_filter_q(self) -> Seq<i64> {
        match self.audio {
            Some(a) => a.filter.contents(),
            None => Seq::empty(),
        }
    }

    pub open spec fn audio_pending_q(self) -> Seq<i64> {
        match self.audio {
            Some(a) => a.encoder.packets(),
            None => Seq::empty(),
        }
    }

    pub open spec fn audio_enc_eos(self) -> bool {
        match self.audio {
            Some(a) => a.encoder.eos(),
            None => true,
        }
    }

    /// The video stream is the container's stream 0 when present.
    pub open spec fn video_index(self) -> u32 {
        0
    }

    /// The audio stream follows the video stream when both exist.
    pub open spec fn audio_index(self) -> u32 {
        match self.audio {
            Some(a) => a.stream_index,
            None => 0,
        }
    }

    pub open spec fn packet_log(self) -> Seq<(u32, i64)> {
        self.container.packet_log()
    }

    pub open spec fn wf(self) -> bool {
        &&& (self.video matches Some(v) ==> v.enc_time_base.wf() && v.stream_time_base
            == v.enc_time_base && v.stream_index == 0)
        &&& (self.audio matches Some(a) ==> a.time_base.wf() && a.stream_index == (
        if self.video is Some {
            1u32
        } else {
            0u32
        }))
        &&& (self.video is Some || self.audio is Some)
        &&& self.container.header_written
    }

    /// The streams, their arguments and bookkeeping are fixed for the
    /// session's lifetime; only queues, flags and the packet log move.
    pub open spec fn same_setup(self, other: Self) -> bool {
        &&& (self.video is Some <==> other.video is Some)
        &&& (match (self.video, other.video) {
            (Some(v1), Some(v2)) => v1.args == v2.args && v1.enc_time_base == v2.enc_time_base
                && v1.stream_time_base == v2.stream_time_base && v1.stream_index
                == v2.stream_index,
            _ => true,
        })
        &&& (self.audio is Some <==> other.audio is Some)
        &&& (match (self.audio, other.audio) {
            (Some(a1), Some(a2)) => a1.args == a2.args && a1.time_base == a2.time_base
                && a1.stream_index == a2.stream_index,
            _ => true,
        })
        &&& self.container.header_written == other.container.header_written
    }

    /// Builds a session from the configuration arguments: one sub-context
    /// per requested stream, stream indices assigned in order, and the
    /// container header written before any packet.
    pub fn build(args: &OutputArgs) -> (s: ModelSession)
        requires
            args.wf(),
        ensures
            s.wf(),
            s.video_active() == args.spec_has_video(),
            s.audio_active() == args.spec_has_audio(),
            s.video_filter_q() == Seq::<i64>::empty(),
            s.audio_filter_q() == Seq::<i64>::empty(),
            s.video_pending_q() == Seq::<i64>::empty(),
            s.audio_pending_q() == Seq::<i64>::empty(),
            s.video_active() ==> !s.video_enc_eos(),
            s.audio_active() ==> !s.audio_enc_eos(),
            s.packet_log() == Seq::<(u32, i64)>::empty(),
            s.container.trailer_writes == 0,
            s.audio_active() ==> s.audio_index() == (if args.spec_has_video() {
                1u32
            } else {
                0u32
            }),
    {
        let video: Option<VideoStage> = match args {
            OutputArgs::Video(v) | OutputArgs::AudioVideo(_, v) => {
                let tb: TimeBase = crate::timestamp::video_time_base(v.fps);
                Some(
                    VideoStage {
                        filter: ModelFilterGraph::new(),
                        encoder: ModelEncoder::new(),
                        args: *v,
                        enc_time_base: tb,
                        stream_time_base: tb,
                        stream_index: 0,
                    },
                )
            },
            OutputArgs::Audio(_) => None,
        };
        let has_video: bool = video.is_some();
        let audio: Option<AudioStage> = match args {
            OutputArgs::Audio(a) | OutputArgs::AudioVideo(a, _) => {
                let tb: TimeBase = crate::timestamp::audio_time_base(a.sample_rate);
                Some(
                    AudioStage {
                        filter: ModelFilterGraph::new(),
                        encoder: ModelEncoder::new(),
                        args: *a,
                        time_base: tb,
                        stream_index: if has_video {
                            1
                        } else {
                            0
                        },
                    },
                )
            },
            OutputArgs::Video(_) => None,
        };
        let mut container: ModelContainer = ModelContainer::new();
        container.write_header();
        ModelSession { video, audio, container }
    }

    /// Evaluates the four stage slots in fixed priority order — video
    /// filter-pull, audio filter-pull, video encode-write, audio
    /// encode-write — stopping at the first stage that makes forward
    /// progress.  When none does, every slot's recorded signal is
    /// returned; unbound slots resolve to `WouldBlock` for a filter and
    /// `Eof` for an encoder.
    pub fn poll_stages(&mut self) -> (out: PollOutcome)
        requires
            old(self).wf(),
        ensures
            final(self).wf(),
            old(self).same_setup(*final(self)),
            final(self).container.trailer_writes == old(self).container.trailer_writes,
            ({
                let o = *old(self);
                let f = *final(self);
                if o.video_active() && o.video_filter_q().len() > 0 {
                    &&& out == PollOutcome::Progress
                    &&& f.video_filter_q() == o.video_filter_q().skip(1)
                    &&& f.video_pending_q() == (if o.video_enc_eos() {
                        o.video_pending_q()
                    } else {
                        o.video_pending_q().push(o.video_filter_q()[0])
                    })
                    &&& f.video_enc_eos() == o.video_enc_eos()
                    &&& f.audio_filter_q() == o.audio_filter_q()
                    &&& f.audio_pending_q() == o.audio_pending_q()
                    &&& f.audio_enc_eos() == o.audio_enc_eos()
                    &&& f.packet_log() == o.packet_log()
                } else if o.audio_active() && o.audio_filter_q().len() > 0 {
                    &&& out == PollOutcome::Progress
                    &&& f.audio_filter_q() == o.audio_filter_q().skip(1)
                    &&& f.audio_pending_q() == (if o.audio_enc_eos() {
                        o.audio_pending_q()
                    } else {
                        o.audio_pending_q().push(o.audio_filter_q()[0])
                    })
                    &&& f.audio_enc_eos() == o.audio_enc_eos()
                    &&& f.video_filter_q() == o.video_filter_q()
                    &&& f.video_pending_q() == o.video_pending_q()
                    &&& f.video_enc_eos() == o.video_enc_eos()
                    &&& f.packet_log() == o.packet_log()
                } else if o.video_active() && o.video_pending_q().len() > 0 {
                    &&& out == PollOutcome::Progress
                    &&& f.video_pending_q() == o.video_pending_q().skip(1)
                    &&& f.packet_log() == o.packet_log().push(
                        (o.video_index(), o.video_pending_q()[0]),
                    )
                    &&& f.video_filter_q() == o.video_filter_q()
                    &&& f.video_enc_eos() == o.video_enc_eos()
                    &&& f.audio_filter_q() == o.audio_filter_q()
                    &&& f.audio_pending_q() == o.audio_pending_q()
                    &&& f.audio_enc_eos() == o.audio_enc_eos()
                } else if o.audio_active() && o.audio_pending_q().len() > 0 {
                    &&& out == PollOutcome::Progress
                    &&& f.audio_pending_q() == o.audio_pending_q().skip(1)
                    &&& f.packet_log() == o.packet_log().push(
                        (o.audio_index(), o.audio_pending_q()[0]),
                    )
                    &&& f.video_filter_q() == o.video_filter_q()
                    &&& f.video_pending_q() == o.video_pending_q()
                    &&& f.video_enc_eos() == o.video_enc_eos()
                    &&& f.audio_filter_q() == o.audio_filter_q()
                    &&& f.audio_enc_eos() == o.audio_enc_eos()
                } else {
                    &&& out == (PollOutcome::Blocked {
                        video_filter: StageSignal::WouldBlock,
                        audio_filter: StageSignal::WouldBlock,
                        video_encoder: if o.video_active() && !o.video_enc_eos() {
                            StageSignal::WouldBlock
                        } else {
                            StageSignal::Eof
                        },
                        audio_encoder: if o.audio_active() && !o.audio_enc_eos() {
                            StageSignal::WouldBlock
                        } else {
                            StageSignal::Eof
                        },
                    })
                    &&& f.video_filter_q() == o.video_filter_q()
                    &&& f.video_pending_q() == o.video_pending_q()
                    &&& f.video_enc_eos() == o.video_enc_eos()
                    &&& f.audio_filter_q() == o.audio_filter_q()
                    &&& f.audio_pending_q() == o.audio_pending_q()
                    &&& f.audio_enc_eos() == o.audio_enc_eos()
                    &&& f.packet_log() == o.packet_log()
                }
            }),
    {
        match &mut self.video {
            Some(v) => {
                match v.filter.pull() {
                    Some(pts) => {
                        v.encoder.submit(pts);
                        return PollOutcome::Progress;
                    },
                    None => {},
                }
            },
            None => {},
        }
        match &mut self.audio {
            Some(a) => {
                match a.filter.pull() {
                    Some(pts) => {
                        a.encoder.submit(pts);
                        return PollOutcome::Progress;
                    },
                    None => {},
                }
            },
            None => {},
        }
        let video_sig: StageSignal = match &mut self.video {
            Some(v) => {
                match v.encoder.retrieve() {
                    RetrieveOutcome::Packet(pts) => {
                        proof {
                            lemma_rescale_identity(pts as int, v.enc_time_base);
                        }
                        let rescaled: i64 = match rescale_pts(
                            pts,
                            v.enc_time_base,
                            v.stream_time_base,
                        ) {
                            Some(p) => p,
                            None => {
                                assert(false);
                                pts
                            },
                        };
                        self.container.write_interleaved(v.stream_index, rescaled);
                        return PollOutcome::Progress;
                    },
                    RetrieveOutcome::Pending => StageSignal::WouldBlock,
                    RetrieveOutcome::Finished => StageSignal::Eof,
                }
            },
            None => StageSignal::Eof,
        };
        let audio_sig: StageSignal = match &mut self.audio {
            Some(a) => {
                match a.encoder.retrieve() {
                    RetrieveOutcome::Packet(pts) => {
                        self.container.write_interleaved(a.stream_index, pts);
                        return PollOutcome::Progress;
                    },
                    RetrieveOutcome::Pending => StageSignal::WouldBlock,
                    RetrieveOutcome::Finished => StageSignal::Eof,
                }
            },
            None => StageSignal::Eof,
        };
        PollOutcome::Blocked {
            video_filter: StageSignal::WouldBlock,
            audio_filter: StageSignal::WouldBlock,
            video_encoder: video_sig,
            audio_encoder: audio_sig,
        }
    }

    /// Pushes a stamped video frame into the video filter graph.
    pub fn push_video(&mut self, pts: i64)
        requires
            old(self).wf(),
            old(self).video_active(),
        ensures
            final(self).wf(),
            old(self).same_setup(*final(self)),
            final(self).video_filter_q() == old(self).video_filter_q().push(pts),
            final(self).video_pending_q() == old(self).video_pending_q(),
            final(self).video_enc_eos() == old(self).video_enc_eos(),
            final(self).audio_filter_q() == old(self).audio_filter_q(),
            final(self).audio_pending_q() == old(self).audio_pending_q(),
            final(self).audio_enc_eos() == old(self).audio_enc_eos(),
            final(self).packet_log() == old(self).packet_log(),
            final(self).container.trailer_writes == old(self).container.trailer_writes,
    {
        match &mut self.video {
            Some(v) => v.filter.push(pts),
            None => {},
        }
    }

    /// Pushes a stamped audio batch into the audio filter graph.
    pub fn push_audio(&mut self, pts: i64)
        requires
            old(self).wf(),
            old(self).audio_active(),
        ensures
            final(self).wf(),
            old(self).same_setup(*final(self)),
            final(self).audio_filter_q() == old(self).audio_filter_q().push(pts),
            final(self).audio_pending_q() == old(self).audio_pending_q(),
            final(self).audio_enc_eos() == old(self).audio_enc_eos(),
            final(self).video_filter_q() == old(self).video_filter_q(),
            final(self).video_pending_q() == old(self).video_pending_q(),
            final(self).video_enc_eos() == old(self).video_enc_eos(),
            final(self).packet_log() == old(self).packet_log(),
            final(self).container.trailer_writes == old(self).container.trailer_writes,
    {
        match &mut self.audio {
            Some(a) => a.filter.push(pts),
            None => {},
        }
    }

    /// Sends one end-of-stream signal to each active encoder; an encoder
    /// that already received it is tolerated.
    pub fn signal_end_of_streams(&mut self)
        requires
            old(self).wf(),
        ensures
            final(self).wf(),
            old(self).same_setup(*final(self)),
            final(self).video_enc_eos(),
            final(self).audio_enc_eos(),
            final(self).video_filter_q() == old(self).video_filter_q(),
            final(self).video_pending_q() == old(self).video_pending_q(),
            final(self).audio_filter_q() == old(self).audio_filter_q(),
            final(self).audio_pending_q() == old(self).audio_pending_q(),
            final(self).packet_log() == old(self).packet_log(),
            final(self).container.trailer_writes == old(self).container.trailer_writes,
    {
        match &mut self.video {
            Some(v) => {
                let _was: bool = v.encoder.signal_end();
            },
            None => {},
        }
        match &mut self.audio {
            Some(a) => {
                let _was: bool = a.encoder.signal_end();
            },
            None => {},
        }
    }
}


/// One step of the session fold: the first `Configure` fixes the streams,
/// every later one is rejected.
pub open spec fn spec_session_step(
    cur: Option<ActiveStreams>,
    frame: Frame<FrameData>,
) -> Option<ActiveStreams> {
    match frame.data {
        FrameData::Configure(args) => if cur is None {
            Some(spec_streams_of(args))
        } else {
            cur
        },
        _ => cur,
    }
}

/// The session streams after the worker has consumed `frames`, starting
/// from session state `cur`.
pub open spec fn spec_session_after(
    cur: Option<ActiveStreams>,
    frames: Seq<Frame<FrameData>>,
) -> Option<ActiveStreams>
    decreases frames.len(),
{
    if frames.len() == 0 {
        cur
    } else {
        spec_session_after(spec_session_step(cur, frames[0]), frames.skip(1))
    }
}

/// Whether the `End` marker occurs in `frames`.
pub open spec fn spec_sees_end(frames: Seq<Frame<FrameData>>) -> bool
    decreases frames.len(),
{
    if frames.len() == 0 {
        false
    } else {
        frames[0].data is End || spec_sees_end(frames.skip(1))
    }
}

/// The presentation times of the video frames the worker accepts into the
/// video pipeline while consuming `frames` from session state `cur`, in
/// arrival order.
pub open spec fn spec_video_inputs(
    cur: Option<ActiveStreams>,
    frames: Seq<Frame<FrameData>>,
) -> Seq<i64>
    decreases frames.len(),
{
    if frames.len() == 0 {
        Seq::empty()
    } else {
        let rest = spec_video_inputs(spec_session_step(cur, frames[0]), frames.skip(1));
        if frames[0].data is Video && (cur matches Some(s) && s.video) {
            seq![frames[0].frame_number as i64] + rest
        } else {
            rest
        }
    }
}

/// The presentation times of the audio batches the worker accepts, in
/// arrival order.
pub open spec fn spec_audio_inputs(
    cur: Option<ActiveStreams>,
    frames: Seq<Frame<FrameData>>,
) -> Seq<i64>
    decreases frames.len(),
{
    if frames.len() == 0 {
        Seq::empty()
    } else {
        let rest = spec_audio_inputs(spec_session_step(cur, frames[0]), frames.skip(1));
        if frames[0].data is Audio && (cur matches Some(s) && s.audio) {
            seq![frames[0].frame_number as i64] + rest
        } else {
            rest
        }
    }
}

/// The frame numbers of the media frames the worker rejects: media before
/// any session, and media for a stream the session does not carry.
pub open spec fn spec_rejected_media(
    cur: Option<ActiveStreams>,
    frames: Seq<Frame<FrameData>>,
) -> Seq<u64>
    decreases frames.len(),
{
    if frames.len() == 0 {
        Seq::empty()
    } else {
        let rest = spec_rejected_media(spec_session_step(cur, frames[0]), frames.skip(1));
        let rejected = (frames[0].data is Video && !(cur matches Some(s) && s.video)) || (
        frames[0].data is Audio && !(cur matches Some(s) && s.audio));
        if rejected {
            seq![frames[0].frame_number] + rest
        } else {
            rest
        }
    }
}

/// The frame numbers of `Configure` frames rejected because a session
/// already exists.
pub open spec fn spec_rejected_configures(
    cur: Option<ActiveStreams>,
    frames: Seq<Frame<FrameData>>,
) -> Seq<u64>
    decreases frames.len(),
{
    if frames.len() == 0 {
        Seq::empty()
    } else {
        let rest = spec_rejected_configures(spec_session_step(cur, frames[0]), frames.skip(1));
        if frames[0].data is Configure && cur is Some {
            seq![frames[0].frame_number] + rest
        } else {
            rest
        }
    }
}

/// The presentation times written for one stream, in container order.
pub open spec fn spec_stream_pts(packets: Seq<(u32, i64)>, index: u32) -> Seq<i64>
    decreases packets.len(),
{
    if packets.len() == 0 {
        Seq::empty()
    } else {
        let rest = spec_stream_pts(packets.drop_last(), index);
        if packets.last().0 == index {
            rest.push(packets.last().1)
        } else {
            rest
        }
    }
}

/// Appending one packet extends exactly its own stream's sequence.
proof fn lemma_stream_pts_push(packets: Seq<(u32, i64)>, p: (u32, i64), index: u32)
    ensures
        spec_stream_pts(packets.push(p), index) == (if p.0 == index {
            spec_stream_pts(packets, index).push(p.1)
        } else {
            spec_stream_pts(packets, index)
        }),
{
    assert(packets.push(p).drop_last() =~= packets);
    assert(packets.push(p).last() == p);
}

/// Concatenation shuffles a trailing push into the head of the next
/// segment: both sides list the same elements in the same order.
proof fn lemma_concat_push_mid<A>(a: Seq<A>, b: Seq<A>, x: A, c: Seq<A>)
    ensures
        a + b.push(x) + c =~= a + b + (seq![x] + c),
{
}

/// The same shuffle without a leading segment.
proof fn lemma_push_front<A>(b: Seq<A>, x: A, c: Seq<A>)
    ensures
        b.push(x) + c =~= b + (seq![x] + c),
{
}

/// Everything the model run reports: the final control state, the session
/// with its container, what was rejected, and how often end-of-stream was
/// delivered.
pub struct RunOutcome {
    pub control: WorkerControl,
    pub session: Option<ModelSession>,
    pub rejected_media: Vec<u64>,
    pub rejected_configures: Vec<u64>,
    pub eos_signals: u32,
}

/// The loop measure: every iteration either consumes an input frame,
/// moves one item one stage forward, delivers end-of-stream, or exits.
pub open spec fn spec_run_measure(
    frames_left: int,
    session: Option<ModelSession>,
    eos_sent: bool,
) -> int {
    3 * frames_left + (match session {
        Some(ms) => 2 * (ms.video_filter_q().len() + ms.audio_filter_q().len()) as int + (
        ms.video_pending_q().len() + ms.audio_pending_q().len()) as int,
        None => 0int,
    }) + (if eos_sent {
        0int
    } else {
        1int
    })
}

/// The inputs the model run takes: frame numbers small enough to stamp
/// as 64-bit timestamps, and well-formed configuration arguments.
pub open spec fn spec_frames_ok(frames: Seq<Frame<FrameData>>) -> bool {
    forall|k: int|
        0 <= k < frames.len() ==> ((#[trigger] frames[k]).frame_number <= i64::MAX as u64 && (
        frames[k].data matches FrameData::Configure(a) ==> a.wf()))
}

/// What the session owes at every loop boundary: its static shape agrees
/// with the control state, nothing was finalized yet, and each active
/// stream satisfies the pipeline ledger — packets written, packets
/// pending in the encoder, frames buffered in the filter and inputs still
/// to come add up, in that order, to every input that stream accepts.
pub open spec fn spec_session_inv(
    control: WorkerControl,
    session: Option<ModelSession>,
    frames: Seq<Frame<FrameData>>,
    rem: Seq<Frame<FrameData>>,
) -> bool {
    match session {
        Some(ms) => {
            &&& ms.wf()
            &&& (control.session matches Some(acts) && ms.video_active() == acts.video
                && ms.audio_active() == acts.audio)
            &&& ms.container.trailer_writes == 0
            &&& (ms.video_active() ==> spec_stream_pts(ms.packet_log(), 0) + ms.video_pending_q()
                + ms.video_filter_q() + spec_video_inputs(control.session, rem)
                == spec_video_inputs(None, frames))
            &&& (ms.audio_active() ==> spec_stream_pts(ms.packet_log(), ms.audio_index())
                + ms.audio_pending_q() + ms.audio_filter_q() + spec_audio_inputs(
                control.session,
                rem,
            ) == spec_audio_inputs(None, frames))
            &&& ms.packet_log().len() == (if ms.video_active() {
                spec_stream_pts(ms.packet_log(), 0).len() as int
            } else {
                0int
            }) + (if ms.audio_active() {
                spec_stream_pts(ms.packet_log(), ms.audio_index()).len() as int
            } else {
                0int
            })
            &&& (control.eos_sent ==> ms.video_filter_q().len() == 0 && ms.audio_filter_q().len()
                == 0 && ms.video_enc_eos() && ms.audio_enc_eos())
            &&& (!control.eos_sent ==> (ms.video_active() ==> !ms.video_enc_eos()) && (
            ms.audio_active() ==> !ms.audio_enc_eos()))
        },
        None => {
            &&& spec_video_inputs(control.session, rem) == spec_video_inputs(None, frames)
            &&& spec_audio_inputs(control.session, rem) == spec_audio_inputs(None, frames)
            &&& !control.eos_sent
        },
    }
}

/// The loop invariant of the model run, over the input consumed so far.
pub open spec fn spec_run_inv(
    control: WorkerControl,
    session: Option<ModelSession>,
    rejected_media: Seq<u64>,
    rejected_configures: Seq<u64>,
    eos_signals: u32,
    frames: Seq<Frame<FrameData>>,
    i: int,
) -> bool {
    let rem = frames.skip(i);
    &&& 0 <= i <= frames.len()
    &&& control.wf()
    &&& !control.terminated
    &&& (session is Some) == (control.session is Some)
    &&& spec_session_after(control.session, rem) == spec_session_after(None, frames)
    &&& spec_sees_end(frames) == (control.draining || spec_sees_end(rem))
    &&& rejected_media + spec_rejected_media(control.session, rem) == spec_rejected_media(
        None,
        frames,
    )
    &&& rejected_configures + spec_rejected_configures(control.session, rem)
        == spec_rejected_configures(None, frames)
    &&& eos_signals == (if control.eos_sent {
        1u32
    } else {
        0u32
    })
    &&& (control.eos_sent ==> i == frames.len())
    &&& spec_session_inv(control, session, frames, rem)
}

/// Everything the completed run reports, stated over the whole input:
/// the session is the first `Configure`\'s and only that; the worker
/// drains and terminates exactly when `End` arrived; each stream\'s
/// packets are exactly its accepted inputs in order; the container holds
/// nothing else; the trailer and the end-of-stream handshake happen
/// exactly once, and only for a built session that saw `End`.
pub open spec fn spec_run_report_ok(out: RunOutcome, frames: Seq<Frame<FrameData>>) -> bool {
    &&& out.control.wf()
    &&& out.control.session == spec_session_after(None, frames)
    &&& out.control.draining == spec_sees_end(frames)
    &&& out.control.terminated == spec_sees_end(frames)
    &&& (out.session is Some) == (out.control.session is Some)
    &&& out.rejected_media@ == spec_rejected_media(None, frames)
    &&& out.rejected_configures@ == spec_rejected_configures(None, frames)
    &&& out.control.eos_sent == (spec_sees_end(frames) && spec_session_after(
        None,
        frames,
    ) is Some)
    &&& out.eos_signals == (if out.control.eos_sent {
        1u32
    } else {
        0u32
    })
    &&& (match out.session {
        Some(ms) => {
            &&& ms.wf()
            &&& (out.control.session matches Some(acts) && ms.video_active() == acts.video
                && ms.audio_active() == acts.audio)
            &&& (ms.video_active() ==> spec_stream_pts(ms.packet_log(), 0) == spec_video_inputs(
                None,
                frames,
            ))
            &&& (ms.audio_active() ==> spec_stream_pts(ms.packet_log(), ms.audio_index())
                == spec_audio_inputs(None, frames))
            &&& ms.packet_log().len() == (if ms.video_active() {
                spec_video_inputs(None, frames).len() as int
            } else {
                0int
            }) + (if ms.audio_active() {
                spec_audio_inputs(None, frames).len() as int
            } else {
                0int
            })
            &&& ms.container.trailer_writes == (if out.control.terminated {
                1u32
            } else {
                0u32
            })
        },
        None => true,
    })
}

/// With the whole input consumed and every queue drained, the per-stream
/// ledgers collapse: what was written is everything the stream accepted.
proof fn lemma_exit_collapse(
    control: WorkerControl,
    session: Option<ModelSession>,
    frames: Seq<Frame<FrameData>>,
    i: int,
)
    requires
        i == frames.len(),
        match session {
            Some(ms) => {
                &&& (ms.video_active() ==> spec_stream_pts(ms.packet_log(), 0)
                    + ms.video_pending_q() + ms.video_filter_q() + spec_video_inputs(
                    control.session,
                    frames.skip(i),
                ) == spec_video_inputs(None, frames))
                &&& (ms.audio_active() ==> spec_stream_pts(ms.packet_log(), ms.audio_index())
                    + ms.audio_pending_q() + ms.audio_filter_q() + spec_audio_inputs(
                    control.session,
                    frames.skip(i),
                ) == spec_audio_inputs(None, frames))
                &&& ms.video_filter_q().len() == 0
                &&& ms.audio_filter_q().len() == 0
                &&& ms.video_pending_q().len() == 0
                &&& ms.audio_pending_q().len() == 0
            },
            None => true,
        },
    ensures
        match session {
            Some(ms) => {
                &&& (ms.video_active() ==> spec_stream_pts(ms.packet_log(), 0)
                    == spec_video_inputs(None, frames))
                &&& (ms.audio_active() ==> spec_stream_pts(ms.packet_log(), ms.audio_index())
                    == spec_audio_inputs(None, frames))
            },
            None => true,
        },
{
    assert(frames.skip(i).len() == 0);
    match session {
        Some(ms) => {
            if ms.video_active() {
                assert(spec_stream_pts(ms.packet_log(), 0) + ms.video_pending_q()
                    + ms.video_filter_q() + spec_video_inputs(control.session, frames.skip(i))
                    =~= spec_stream_pts(ms.packet_log(), 0));
            }
            if ms.audio_active() {
                assert(spec_stream_pts(ms.packet_log(), ms.audio_index()) + ms.audio_pending_q()
                    + ms.audio_filter_q() + spec_audio_inputs(control.session, frames.skip(i))
                    =~= spec_stream_pts(ms.packet_log(), ms.audio_index()));
            }
        },
        None => {},
    }
}

/// Consumes one dequeued frame: dispatches it by the proved decision
/// function and applies the resulting action to the control state, the
/// session and the rejection logs.
#[verifier::rlimit(100)]
fn dispatch_step(
    control: &mut WorkerControl,
    session: &mut Option<ModelSession>,
    rejected_media: &mut Vec<u64>,
    rejected_configures: &mut Vec<u64>,
    frame: &Frame<FrameData>,
    Ghost(frames): Ghost<Seq<Frame<FrameData>>>,
    Ghost(i): Ghost<int>,
    Ghost(eos_signals): Ghost<u32>,
)
    requires
        spec_frames_ok(frames),
        0 <= i < frames.len(),
        *frame == frames[i],
        spec_run_inv(
            *old(control),
            *old(session),
            old(rejected_media)@,
            old(rejected_configures)@,
            eos_signals,
            frames,
            i,
        ),
    ensures
        spec_run_inv(
            *final(control),
            *final(session),
            final(rejected_media)@,
            final(rejected_configures)@,
            eos_signals,
            frames,
            i + 1,
        ),
        final(control).terminated == old(control).terminated,
        final(control).eos_sent == old(control).eos_sent,
        spec_run_measure(frames.len() - (i + 1), *final(session), final(control).eos_sent)
            < spec_run_measure(frames.len() - i, *old(session), old(control).eos_sent),
{
    let ghost rem: Seq<Frame<FrameData>> = frames.skip(i);
    proof {
        assert(rem.len() > 0);
        assert(rem[0] == frames[i]);
        assert(rem.skip(1) =~= frames.skip(i + 1));
    }
    let action: FrameAction = dispatch_frame(control, frame);
    match action {
        FrameAction::PushVideo { pts } => {
            match session {
                Some(ms) => {
                    let ghost sp0: Seq<i64> = spec_stream_pts(ms.packet_log(), 0);
                    let ghost vp0: Seq<i64> = ms.video_pending_q();
                    let ghost vf0: Seq<i64> = ms.video_filter_q();
                    ms.push_video(pts);
                    proof {
                        lemma_concat_push_mid(
                            sp0 + vp0,
                            vf0,
                            pts,
                            spec_video_inputs(control.session, rem.skip(1)),
                        );
                    }
                },
                None => {
                    assert(false);
                },
            }
        },
        FrameAction::PushAudio { pts } => {
            match session {
                Some(ms) => {
                    let ghost sp0: Seq<i64> = spec_stream_pts(ms.packet_log(), ms.audio_index());
                    let ghost ap0: Seq<i64> = ms.audio_pending_q();
                    let ghost af0: Seq<i64> = ms.audio_filter_q();
                    ms.push_audio(pts);
                    proof {
                        lemma_concat_push_mid(
                            sp0 + ap0,
                            af0,
                            pts,
                            spec_audio_inputs(control.session, rem.skip(1)),
                        );
                    }
                },
                None => {
                    assert(false);
                },
            }
        },
        FrameAction::BuildSession { args } => {
            let ms: ModelSession = ModelSession::build(&args);
            *session = Some(ms);
            control.note_session_built(&args);
        },
        FrameAction::RejectConfigure => {
            let ghost rc0: Seq<u64> = rejected_configures@;
            rejected_configures.push(frame.frame_number);
            proof {
                lemma_push_front(
                    rc0,
                    frame.frame_number,
                    spec_rejected_configures(control.session, rem.skip(1)),
                );
            }
        },
        FrameAction::RejectFrame { reason: _ } => {
            let ghost rm0: Seq<u64> = rejected_media@;
            rejected_media.push(frame.frame_number);
            proof {
                lemma_push_front(
                    rm0,
                    frame.frame_number,
                    spec_rejected_media(control.session, rem.skip(1)),
                );
            }
        },
        FrameAction::BeginDrain => {
            control.note_drain();
        },
    }
}

/// Drives the stage slots once, in priority order, and reports either
/// the progress made or the recorded per-slot signals; on a blocked pass
/// every queue has drained and nothing changed.
#[verifier::rlimit(100)]
fn poll_step(
    session: &mut Option<ModelSession>,
    Ghost(control): Ghost<WorkerControl>,
    Ghost(rm): Ghost<Seq<u64>>,
    Ghost(rc): Ghost<Seq<u64>>,
    Ghost(eos_signals): Ghost<u32>,
    Ghost(frames): Ghost<Seq<Frame<FrameData>>>,
    Ghost(i): Ghost<int>,
) -> (out: PollOutcome)
    requires
        spec_run_inv(control, *old(session), rm, rc, eos_signals, frames, i),
    ensures
        spec_run_inv(control, *final(session), rm, rc, eos_signals, frames, i),
        spec_run_measure(frames.len() - i, *final(session), control.eos_sent) <= spec_run_measure(
            frames.len() - i,
            *old(session),
            control.eos_sent,
        ),
        out == PollOutcome::Progress ==> spec_run_measure(
            frames.len() - i,
            *final(session),
            control.eos_sent,
        ) < spec_run_measure(frames.len() - i, *old(session), control.eos_sent),
        (out matches PollOutcome::Blocked { .. }) ==> (match *final(session) {
            Some(ms) => ms.video_filter_q().len() == 0 && ms.audio_filter_q().len() == 0
                && ms.video_pending_q().len() == 0 && ms.audio_pending_q().len() == 0,
            None => true,
        }),
        (out matches PollOutcome::Blocked { video_filter, audio_filter, video_encoder, audio_encoder }
            ==> video_filter is WouldBlock && audio_filter is WouldBlock && video_encoder == (
        if (match *final(session) {
            Some(ms) => ms.video_active() && !ms.video_enc_eos(),
            None => false,
        }) {
            StageSignal::WouldBlock
        } else {
            StageSignal::Eof
        }) && audio_encoder == (if (match *final(session) {
            Some(ms) => ms.audio_active() && !ms.audio_enc_eos(),
            None => false,
        }) {
            StageSignal::WouldBlock
        } else {
            StageSignal::Eof
        })),
{
    let ghost rem: Seq<Frame<FrameData>> = frames.skip(i);
    let ghost pre: Option<ModelSession> = *session;
    let outcome: PollOutcome = match session {
        Some(ms) => ms.poll_stages(),
        None => PollOutcome::Blocked {
            video_filter: StageSignal::WouldBlock,
            audio_filter: StageSignal::WouldBlock,
            video_encoder: StageSignal::Eof,
            audio_encoder: StageSignal::Eof,
        },
    };
    proof {
        let dv = spec_video_inputs(control.session, rem);
        let da = spec_audio_inputs(control.session, rem);
        match pre {
            Some(o) => {
                assert(*session is Some);
                let spv = spec_stream_pts(o.packet_log(), 0);
                let spa = spec_stream_pts(o.packet_log(), o.audio_index());
                if o.video_active() && o.video_filter_q().len() > 0 {
                    let h = o.video_filter_q()[0];
                    assert(spv + o.video_pending_q().push(h) + o.video_filter_q().skip(1) + dv
                        =~= spv + o.video_pending_q() + o.video_filter_q() + dv);
                } else if o.audio_active() && o.audio_filter_q().len() > 0 {
                    let h = o.audio_filter_q()[0];
                    assert(spa + o.audio_pending_q().push(h) + o.audio_filter_q().skip(1) + da
                        =~= spa + o.audio_pending_q() + o.audio_filter_q() + da);
                } else if o.video_active() && o.video_pending_q().len() > 0 {
                    let h = o.video_pending_q()[0];
                    lemma_stream_pts_push(o.packet_log(), (0u32, h), 0);
                    lemma_stream_pts_push(o.packet_log(), (0u32, h), o.audio_index());
                    assert(spv.push(h) + o.video_pending_q().skip(1) + o.video_filter_q() + dv
                        =~= spv + o.video_pending_q() + o.video_filter_q() + dv);
                } else if o.audio_active() && o.audio_pending_q().len() > 0 {
                    let h = o.audio_pending_q()[0];
                    lemma_stream_pts_push(o.packet_log(), (o.audio_index(), h), 0);
                    lemma_stream_pts_push(o.packet_log(), (o.audio_index(), h), o.audio_index());
                    assert(spa.push(h) + o.audio_pending_q().skip(1) + o.audio_filter_q() + da
                        =~= spa + o.audio_pending_q() + o.audio_filter_q() + da);
                }
            },
            None => {},
        }
    }
    outcome
}

/// Runs the worker loop over a fixed input queue against the model
/// backend, to completion: dequeue one frame, dispatch it, drive the
/// stages in priority order, and apply the flush protocol, until the
/// trailer is written or nothing can ever make progress again.
///
/// Everything the protocol owes is pinned by `spec_run_report_ok`.
#[verifier::rlimit(100)]
pub fn run_to_end(frames: &Vec<Frame<FrameData>>) -> (out: RunOutcome)
    requires
        spec_frames_ok(frames@),
    ensures
        spec_run_report_ok(out, frames@),
{
    let mut control: WorkerControl = WorkerControl::new();
    let mut session: Option<ModelSession> = None;
    let mut rejected_media: Vec<u64> = Vec::new();
    let mut rejected_configures: Vec<u64> = Vec::new();
    let mut eos_signals: u32 = 0;
    let mut i: usize = 0;
    proof {
        assert(frames@.skip(0) =~= frames@);
        assert(Seq::<u64>::empty() + spec_rejected_media(None, frames@) =~= spec_rejected_media(
            None,
            frames@,
        ));
        assert(Seq::<u64>::empty() + spec_rejected_configures(None, frames@)
            =~= spec_rejected_configures(None, frames@));
    }
    loop
        invariant_except_break
            spec_frames_ok(frames@),
            spec_run_inv(
                control,
                session,
                rejected_media@,
                rejected_configures@,
                eos_signals,
                frames@,
                i as int,
            ),
        ensures
            i == frames@.len(),
            spec_run_report_ok(
                (RunOutcome {
                    control,
                    session,
                    rejected_media,
                    rejected_configures,
                    eos_signals,
                }),
                frames@,
            ),
        decreases spec_run_measure(frames@.len() - i, session, control.eos_sent),
    {
        if i < frames.len() {
            let frame: &Frame<FrameData> = &frames[i];
            dispatch_step(
                &mut control,
                &mut session,
                &mut rejected_media,
                &mut rejected_configures,
                frame,
                Ghost(frames@),
                Ghost(i as int),
                Ghost(eos_signals),
            );
            i = i + 1;
        }
        let outcome: PollOutcome = poll_step(
            &mut session,
            Ghost(control),
            Ghost(rejected_media@),
            Ghost(rejected_configures@),
            Ghost(eos_signals),
            Ghost(frames@),
            Ghost(i as int),
        );
        let queue_empty: bool = i >= frames.len();
        match flush_decision(&control, queue_empty, &outcome) {
            FlushAction::WriteTrailer => {
                match &mut session {
                    Some(ms) => {
                        ms.container.write_trailer();
                    },
                    None => {},
                }
                control.note_terminated();
                proof {
                    lemma_exit_collapse(control, session, frames@, i as int);
                }
                break ;
            },
            FlushAction::SignalEndOfStream => {
                match &mut session {
                    Some(ms) => {
                        ms.signal_end_of_streams();
                    },
                    None => {
                        assert(false);
                    },
                }
                eos_signals = eos_signals + 1;
                control.note_eos_sent();
            },
            FlushAction::KeepPolling => {
                if queue_empty && !control.draining && matches!(
                    outcome,
                    PollOutcome::Blocked { .. },
                ) {
                    proof {
                        lemma_exit_collapse(control, session, frames@, i as int);
                    }
                    break ;
                }
            },
        }
    }
    RunOutcome { control, session, rejected_media, rejected_configures, eos_signals }
}

/// A sequence of timestamps that never decreases.
pub open spec fn spec_nondecreasing(s: Seq<i64>) -> bool {
    forall|a: int, b: int| 0 <= a <= b < s.len() ==> s[a] <= s[b]
}

/// Frame numbers that never decrease over the whole input.
pub open spec fn spec_frames_ordered(frames: Seq<Frame<FrameData>>) -> bool {
    forall|a: int, b: int|
        0 <= a <= b < frames.len() ==> (#[trigger] frames[a]).frame_number <= (
        #[trigger] frames[b]).frame_number
}

proof fn lemma_video_inputs_lower_bound(
    cur: Option<ActiveStreams>,
    frames: Seq<Frame<FrameData>>,
    b: i64,
)
    requires
        forall|k: int| 0 <= k < frames.len() ==> b <= (#[trigger] frames[k]).frame_number as i64,
    ensures
        forall|j: int|
            0 <= j < spec_video_inputs(cur, frames).len() ==> b <= #[trigger] spec_video_inputs(
                cur,
                frames,
            )[j],
    decreases frames.len(),
{
    if frames.len() > 0 {
        let nxt = spec_session_step(cur, frames[0]);
        assert forall|k: int|
            0 <= k < frames.skip(1).len() implies b <= (#[trigger] frames.skip(
            1,
        )[k]).frame_number as i64 by {
            assert(frames.skip(1)[k] == frames[k + 1]);
        }
        lemma_video_inputs_lower_bound(nxt, frames.skip(1), b);
        let out = spec_video_inputs(cur, frames);
        let rest_out = spec_video_inputs(nxt, frames.skip(1));
        let h = frames[0].frame_number as i64;
        if frames[0].data is Video && (cur matches Some(s2) && s2.video) {
            assert(out == seq![h] + rest_out);
            assert forall|j: int| 0 <= j < out.len() implies b <= out[j] by {
                if j == 0 {
                    assert(out[0] == h);
                    assert(b <= frames[0].frame_number as i64);
                } else {
                    assert(out[j] == rest_out[j - 1]);
                }
            }
        } else {
            assert(out == rest_out);
        }
    }
}

proof fn lemma_audio_inputs_lower_bound(
    cur: Option<ActiveStreams>,
    frames: Seq<Frame<FrameData>>,
    b: i64,
)
    requires
        forall|k: int| 0 <= k < frames.len() ==> b <= (#[trigger] frames[k]).frame_number as i64,
    ensures
        forall|j: int|
            0 <= j < spec_audio_inputs(cur, frames).len() ==> b <= #[trigger] spec_audio_inputs(
                cur,
                frames,
            )[j],
    decreases frames.len(),
{
    if frames.len() > 0 {
        let nxt = spec_session_step(cur, frames[0]);
        assert forall|k: int|
            0 <= k < frames.skip(1).len() implies b <= (#[trigger] frames.skip(
            1,
        )[k]).frame_number as i64 by {
            assert(frames.skip(1)[k] == frames[k + 1]);
        }
        lemma_audio_inputs_lower_bound(nxt, frames.skip(1), b);
        let out = spec_audio_inputs(cur, frames);
        let rest_out = spec_audio_inputs(nxt, frames.skip(1));
        let h = frames[0].frame_number as i64;
        if frames[0].data is Audio && (cur matches Some(s2) && s2.audio) {
            assert(out == seq![h] + rest_out);
            assert forall|j: int| 0 <= j < out.len() implies b <= out[j] by {
                if j == 0 {
                    assert(out[0] == h);
                    assert(b <= frames[0].frame_number as i64);
                } else {
                    assert(out[j] == rest_out[j - 1]);
                }
            }
        } else {
            assert(out == rest_out);
        }
    }
}

/// Within each stream, presentation times never decrease whenever the
/// producer\'s sequence numbers never decrease: what the worker accepts —
/// and therefore, by the run\'s contract, what is written to the
/// container — is ordered on both streams.
pub proof fn lemma_accepted_pts_ordered(cur: Option<ActiveStreams>, frames: Seq<Frame<FrameData>>)
    requires
        spec_frames_ok(frames),
        spec_frames_ordered(frames),
    ensures
        spec_nondecreasing(spec_video_inputs(cur, frames)),
        spec_nondecreasing(spec_audio_inputs(cur, frames)),
    decreases frames.len(),
{
    if frames.len() > 0 {
        let nxt = spec_session_step(cur, frames[0]);
        let rest = frames.skip(1);
        assert forall|k: int|
            0 <= k < rest.len() implies (frames[0].frame_number as i64) <= (#[trigger] rest[
            k]).frame_number as i64 by {
            assert(rest[k] == frames[k + 1]);
            assert(frames[0].frame_number <= frames[k + 1].frame_number);
            assert(frames[k + 1].frame_number <= i64::MAX as u64);
        }
        assert(spec_frames_ok(rest)) by {
            assert forall|k: int|
                0 <= k < rest.len() implies ((#[trigger] rest[k]).frame_number <= i64::MAX as u64
                && (rest[k].data matches FrameData::Configure(a) ==> a.wf())) by {
                assert(rest[k] == frames[k + 1]);
            }
        }
        assert(spec_frames_ordered(rest)) by {
            assert forall|a: int, b: int|
                0 <= a <= b < rest.len() implies (#[trigger] rest[a]).frame_number <= (
            #[trigger] rest[b]).frame_number by {
                assert(rest[a] == frames[a + 1]);
                assert(rest[b] == frames[b + 1]);
            }
        }
        lemma_accepted_pts_ordered(nxt, rest);
        lemma_video_inputs_lower_bound(nxt, rest, frames[0].frame_number as i64);
        lemma_audio_inputs_lower_bound(nxt, rest, frames[0].frame_number as i64);
    }
}

/// Within each stream of a completed run, the container\'s presentation
/// times never decrease whenever the producer\'s sequence numbers never
/// decreased: packets stand in the container in arrival order.
pub proof fn lemma_report_pts_ordered(out: RunOutcome, frames: Seq<Frame<FrameData>>)
    requires
        spec_run_report_ok(out, frames),
        spec_frames_ok(frames),
        spec_frames_ordered(frames),
    ensures
        out.session matches Some(ms) ==> {
            &&& (ms.video_active() ==> spec_nondecreasing(spec_stream_pts(ms.packet_log(), 0)))
            &&& (ms.audio_active() ==> spec_nondecreasing(
                spec_stream_pts(ms.packet_log(), ms.audio_index()),
            ))
        },
{
    lemma_accepted_pts_ordered(None, frames);
}

} // verus!
