use retro_av::args::{AudioArgs, OutputArgs, PixelFormat, VideoArgs};
use retro_av::pipeline::{run_to_end, ModelSession};
use retro_av::planes::{AudioPlane, VideoPlane};
use retro_av::sink::{Frame, FrameData, RetroAVCollector};
use retro_av::worker::{flush_decision, FlushAction, WorkerControl};

fn video_args() -> VideoArgs {
    VideoArgs { pixel_format: PixelFormat::Bgra, fps: 60, width: 640, height: 480 }
}

fn video_frame(n: u64) -> Frame<FrameData> {
    Frame {
        data: FrameData::Video(VideoPlane { data: Vec::new(), width: 640, height: 480, pitch: 0 }),
        frame_number: n,
    }
}

fn audio_frame(n: u64, pairs: Vec<(i16, i16)>) -> Frame<FrameData> {
    Frame { data: FrameData::Audio(AudioPlane { data: pairs }), frame_number: n }
}

fn stream_pts(session: &ModelSession, index: u32) -> Vec<i64> {
    session
        .container
        .packets
        .iter()
        .filter(|p| p.0 == index)
        .map(|p| p.1)
        .collect()
}

#[test]
fn video_session_writes_every_frame_and_one_trailer() {
    // 120 video frames, sequence 0..119: 120 presentation times in
    // increasing order, exactly one trailer write, clean termination.
    let mut frames: Vec<Frame<FrameData>> = Vec::new();
    frames.push(Frame {
        data: FrameData::Configure(OutputArgs::Video(video_args())),
        frame_number: 0,
    });
    for n in 0..120u64 {
        frames.push(video_frame(n));
    }
    frames.push(Frame { data: FrameData::End, frame_number: 120 });
    let out = run_to_end(&frames);
    assert!(out.control.terminated);
    assert!(out.control.draining);
    let session = out.session.expect("the session was built");
    assert_eq!(session.container.trailer_writes, 1);
    let pts = stream_pts(&session, 0);
    assert_eq!(pts.len(), 120);
    let expected: Vec<i64> = (0..120).collect();
    assert_eq!(pts, expected);
    assert_eq!(session.container.packets.len(), 120);
    assert!(out.rejected_media.is_empty());
    assert_eq!(out.eos_signals, 1);
}

#[test]
fn audio_session_writes_batch_before_trailer() {
    // One batch of 1470 interleaved samples is 735 pairs: one audio
    // plane is flushed by the collector and written before the trailer.
    let mut collector = RetroAVCollector::new();
    let receiver = collector.sink.output.clone();
    let samples: Vec<i16> = (0..1470).map(|i| i as i16).collect();
    assert_eq!(collector.on_audio_sample_batch(&samples, 1).unwrap(), 1470);

    let batch = receiver.try_recv().unwrap();
    match &batch.data {
        FrameData::Audio(plane) => assert_eq!(plane.data.len(), 735),
        other => panic!("expected an audio plane, got {:?}", other),
    }

    let mut frames: Vec<Frame<FrameData>> = Vec::new();
    frames.push(Frame {
        data: FrameData::Configure(OutputArgs::Audio(AudioArgs { sample_rate: 44100 })),
        frame_number: 0,
    });
    frames.push(batch);
    frames.push(Frame { data: FrameData::End, frame_number: 2 });
    let out = run_to_end(&frames);
    assert!(out.control.terminated);
    let session = out.session.expect("the session was built");
    assert_eq!(session.container.trailer_writes, 1);
    // The audio stream is stream 0 in an audio-only session.
    assert_eq!(stream_pts(&session, 0), vec![1]);
    assert_eq!(session.container.packets.len(), 1);
}

#[test]
fn end_with_buffered_filters_drains_before_signalling() {
    // The End marker arrives while both filter graphs still hold
    // buffered frames: end-of-stream must not be signalled until both
    // filter-pull slots report empty in the same iteration.
    let mut control = WorkerControl::new();
    let args = OutputArgs::AudioVideo(AudioArgs { sample_rate: 44100 }, video_args());
    let mut session = ModelSession::build(&args);
    control.note_session_built(&args);
    session.push_video(0);
    session.push_video(1);
    session.push_video(2);
    session.push_audio(0);
    session.push_audio(1);
    control.note_drain();

    let mut eos_signals = 0u32;
    let mut trailer_written = false;
    let mut iterations = 0u32;
    while !trailer_written {
        iterations += 1;
        assert!(iterations < 100, "the drain must terminate");
        let buffered_video = session.video.as_ref().unwrap().filter.buffered.len();
        let buffered_audio = session.audio.as_ref().unwrap().filter.buffered.len();
        let outcome = session.poll_stages();
        match flush_decision(&control, true, &outcome) {
            FlushAction::SignalEndOfStream => {
                assert_eq!(buffered_video, 0, "video filter drained before end-of-stream");
                assert_eq!(buffered_audio, 0, "audio filter drained before end-of-stream");
                session.signal_end_of_streams();
                eos_signals += 1;
                control.note_eos_sent();
            }
            FlushAction::WriteTrailer => {
                session.container.write_trailer();
                control.note_terminated();
                trailer_written = true;
            }
            FlushAction::KeepPolling => {}
        }
    }
    assert_eq!(eos_signals, 1);
    assert_eq!(session.container.trailer_writes, 1);
    assert_eq!(stream_pts(&session, 0), vec![0, 1, 2]);
    assert_eq!(stream_pts(&session, 1), vec![0, 1]);
}

#[test]
fn media_before_configure_is_rejected_not_fatal() {
    let frames = vec![
        video_frame(0),
        Frame { data: FrameData::Configure(OutputArgs::Video(video_args())), frame_number: 1 },
        video_frame(2),
        Frame { data: FrameData::End, frame_number: 3 },
    ];
    let out = run_to_end(&frames);
    assert!(out.control.terminated);
    assert_eq!(out.rejected_media, vec![0]);
    let session = out.session.expect("the session was built");
    assert_eq!(stream_pts(&session, 0), vec![2]);
    assert_eq!(session.container.trailer_writes, 1);
}

#[test]
fn audio_frames_on_video_only_session_are_rejected() {
    let frames = vec![
        Frame { data: FrameData::Configure(OutputArgs::Video(video_args())), frame_number: 0 },
        audio_frame(1, vec![(1, 1)]),
        video_frame(2),
        Frame { data: FrameData::End, frame_number: 3 },
    ];
    let out = run_to_end(&frames);
    assert!(out.control.terminated);
    assert_eq!(out.rejected_media, vec![1]);
    let session = out.session.expect("the session was built");
    assert_eq!(session.container.packets.len(), 1);
    assert_eq!(stream_pts(&session, 0), vec![2]);
}

#[test]
fn second_configure_does_not_replace_session() {
    let frames = vec![
        Frame { data: FrameData::Configure(OutputArgs::Video(video_args())), frame_number: 0 },
        Frame {
            data: FrameData::Configure(OutputArgs::Audio(AudioArgs { sample_rate: 48000 })),
            frame_number: 1,
        },
        video_frame(2),
        Frame { data: FrameData::End, frame_number: 3 },
    ];
    let out = run_to_end(&frames);
    assert_eq!(out.rejected_configures, vec![1]);
    let session = out.session.expect("the session was built");
    assert!(session.video.is_some(), "the first configuration stands");
    assert!(session.audio.is_none(), "no second session was created");
    assert_eq!(stream_pts(&session, 0), vec![2]);
}

#[test]
fn end_without_configure_terminates_without_trailer() {
    let frames = vec![Frame { data: FrameData::End, frame_number: 0 }];
    let out = run_to_end(&frames);
    assert!(out.control.terminated);
    assert!(out.session.is_none());
    assert_eq!(out.eos_signals, 0);
}

#[test]
fn no_end_means_no_trailer_and_no_termination() {
    let frames = vec![
        Frame { data: FrameData::Configure(OutputArgs::Video(video_args())), frame_number: 0 },
        video_frame(0),
        video_frame(1),
    ];
    let out = run_to_end(&frames);
    assert!(!out.control.terminated);
    assert_eq!(out.eos_signals, 0);
    let session = out.session.expect("the session was built");
    assert_eq!(session.container.trailer_writes, 0);
    // Everything that could be driven through the stages was written.
    assert_eq!(stream_pts(&session, 0), vec![0, 1]);
}

#[test]
fn both_streams_interleave_into_one_container() {
    let args = OutputArgs::AudioVideo(AudioArgs { sample_rate: 44100 }, video_args());
    let frames = vec![
        Frame { data: FrameData::Configure(args), frame_number: 0 },
        video_frame(0),
        audio_frame(0, vec![(1, 1)]),
        video_frame(1),
        audio_frame(1, vec![(2, 2)]),
        Frame { data: FrameData::End, frame_number: 2 },
    ];
    let out = run_to_end(&frames);
    assert!(out.control.terminated);
    let session = out.session.expect("the session was built");
    assert_eq!(session.container.trailer_writes, 1);
    assert_eq!(stream_pts(&session, 0), vec![0, 1]);
    assert_eq!(stream_pts(&session, 1), vec![0, 1]);
    assert_eq!(session.container.packets.len(), 4);
}

#[test]
fn empty_input_neither_terminates_nor_builds_a_session() {
    let frames: Vec<Frame<FrameData>> = Vec::new();
    let out = run_to_end(&frames);
    assert!(!out.control.terminated);
    assert!(out.session.is_none());
    assert!(out.rejected_media.is_empty());
    assert_eq!(out.eos_signals, 0);
}
