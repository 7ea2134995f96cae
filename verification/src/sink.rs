//! Producer-facing ingestion: typed frames, the queue that carries them to
//! the encode worker, and the collector that batches audio and forwards
//! frame numbers.

use vstd::prelude::*;
use crate::args::OutputArgs;
use crate::planes::{AudioPlane, VideoPlane};

verus! {

/// One unit crossing the producer/worker boundary, tagged with the
/// producer's monotonic frame number.
#[derive(Debug)]
pub struct Frame<T> {
    pub data: T,
    pub frame_number: u64,
}

/// The payload of a frame: media data, the session configuration, or the
/// end-of-stream marker.
#[derive(Debug)]
pub enum FrameData {
    Video(VideoPlane),
    Audio(AudioPlane),
    Configure(OutputArgs),
    End,
}

/// The error every ingestion operation can fail with: the worker side of
/// the queue has terminated and the frame could not be delivered.
#[derive(Debug, Clone, Copy, PartialEq, Eq, Structural)]
pub struct QueueClosed;

/// Relies on crossbeam_channel::Sender: the producing end of a queue,
/// opaque here; frames only leave through the trusted send below.
#[verifier::external_type_specification]
#[verifier::external_body]
#[verifier::reject_recursive_types(T)]
pub struct ExSender<T>(crossbeam_channel::Sender<T>);

/// Relies on crossbeam_channel::Receiver: the consuming end of a queue,
/// opaque here; the worker task drains it outside the verified core.
#[verifier::external_type_specification]
#[verifier::external_body]
#[verifier::reject_recursive_types(T)]
pub struct ExReceiver<T>(crossbeam_channel::Receiver<T>);

/// Relies on crossbeam_channel::unbounded: both halves of one queue whose
/// sends never block the producer.
#[verifier::external_body]
fn channel_pair<T>() -> (pair: (crossbeam_channel::Sender<T>, crossbeam_channel::Receiver<T>)) {
    crossbeam_channel::unbounded()
}

/// Relies on crossbeam_channel::Sender::send: on an unbounded queue it
/// fails exactly when every receiver is gone; the queue-closed error of
/// this crate stands for that case.
#[verifier::external_body]
fn send_frame(tx: &crossbeam_channel::Sender<Frame<FrameData>>, frame: Frame<FrameData>) -> (r:
    Result<(), QueueClosed>) {
    match tx.send(frame) {
        Ok(()) => Ok(()),
        Err(_) => Err(QueueClosed),
    }
}

/// The two ends of the producer-to-worker queue; the worker takes the
/// output end, every producer handle clones the input end.
#[verifier::reject_recursive_types(T)]
pub struct Sink<T> {
    pub input: crossbeam_channel::Sender<T>,
    pub output: crossbeam_channel::Receiver<T>,
}

impl Default for Sink<Frame<FrameData>> {
    fn default() -> Self {
        let pair: (
            crossbeam_channel::Sender<Frame<FrameData>>,
            crossbeam_channel::Receiver<Frame<FrameData>>,
        ) = channel_pair();
        Sink { input: pair.0, output: pair.1 }
    }
}

/// Wraps raw callbacks into typed frames and enqueues them for the encode
/// worker, accumulating audio sample pairs between batch flushes.
pub struct RetroAVCollector {
    pub sink: Sink<Frame<FrameData>>,
    audio_buf: Vec<(i16, i16)>,
}

impl RetroAVCollector {
    /// The audio sample pairs accumulated and not yet flushed.
    pub closed spec fn audio_buffer(self) -> Seq<(i16, i16)> {
        self.audio_buf@
    }

    pub fn new() -> (c: RetroAVCollector)
        ensures
            c.audio_buffer() == Seq::<(i16, i16)>::empty(),
    {
        RetroAVCollector { sink: Sink::default(), audio_buf: Vec::new() }
    }

    /// Enqueues a `Configure` frame carrying the session arguments.
    pub fn configure(&mut self, output_args: &OutputArgs, frame_number: u64) -> (r: Result<
        (),
        QueueClosed,
    >)
        ensures
            final(self).audio_buffer() == old(self).audio_buffer(),
    {
        send_frame(
            &self.sink.input,
            Frame { data: FrameData::Configure(*output_args), frame_number },
        )
    }

    /// Wraps one raw pixel buffer into a `VideoPlane` frame and enqueues it.
    pub fn on_video_refresh(
        &mut self,
        data: &[u8],
        width: u32,
        height: u32,
        pitch: u32,
        frame_number: u64,
    ) -> (r: Result<(), QueueClosed>)
        ensures
            final(self).audio_buffer() == old(self).audio_buffer(),
    {
        let plane = VideoPlane {
            data: vstd::slice::slice_to_vec(data),
            width: width as usize,
            height: height as usize,
            pitch: pitch as usize,
        };
        send_frame(&self.sink.input, Frame { data: FrameData::Video(plane), frame_number })
    }

    /// Appends one sample pair to the accumulator; nothing is enqueued.
    pub fn on_audio_sample(&mut self, left: i16, right: i16, frame_number: u64)
        ensures
            final(self).audio_buffer() == old(self).audio_buffer().push((left, right)),
    {
        self.audio_buf.push((left, right));
    }

    /// De-interleaves a batch into ordered pairs, appends them, then
    /// flushes the whole accumulated buffer as one `AudioPlane` frame and
    /// clears the accumulator.  Returns the number of samples consumed.
    pub fn on_audio_sample_batch(&mut self, stereo_pcm: &[i16], frame_number: u64) -> (r: Result<
        usize,
        QueueClosed,
    >)
        ensures
            final(self).audio_buffer() == Seq::<(i16, i16)>::empty(),
            r matches Ok(n) ==> n == stereo_pcm@.len(),
    {
        let mut pairs: Vec<(i16, i16)> = crate::planes::deinterleave_pairs(stereo_pcm);
        self.audio_buf.append(&mut pairs);
        let sent: Result<(), QueueClosed> = self.send_audio_plane_if_ready(frame_number);
        match sent {
            Ok(()) => Ok(stereo_pcm.len()),
            Err(e) => Err(e),
        }
    }

    /// Takes the whole accumulated buffer out as one `AudioPlane`,
    /// leaving the accumulator empty.
    pub fn take_audio_plane(&mut self) -> (plane: AudioPlane)
        ensures
            plane.data@ == old(self).audio_buffer(),
            final(self).audio_buffer() == Seq::<(i16, i16)>::empty(),
    {
        let mut data: Vec<(i16, i16)> = Vec::new();
        std::mem::swap(&mut data, &mut self.audio_buf);
        AudioPlane { data }
    }

    /// Flushes the entire accumulated buffer as one `AudioPlane` frame
    /// tagged with `frame_number`; the flush policy is "whole buffer on
    /// every batch", with no rate-based chunking.
    pub fn send_audio_plane_if_ready(&mut self, frame_number: u64) -> (r: Result<(), QueueClosed>)
        ensures
            final(self).audio_buffer() == Seq::<(i16, i16)>::empty(),
    {
        let plane: AudioPlane = self.take_audio_plane();
        send_frame(&self.sink.input, Frame { data: FrameData::Audio(plane), frame_number })
    }

    /// Enqueues the `End` marker that switches the worker into draining.
    pub fn end(&mut self, frame_number: u64) -> (r: Result<(), QueueClosed>)
        ensures
            final(self).audio_buffer() == old(self).audio_buffer(),
    {
        send_frame(&self.sink.input, Frame { data: FrameData::End, frame_number })
    }
}

} // verus!
