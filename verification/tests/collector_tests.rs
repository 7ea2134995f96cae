use retro_av::planes::{deinterleave_pairs, interleave_pairs, VideoPlane, copy_plane_rows};
use retro_av::sink::{FrameData, RetroAVCollector};

#[test]
fn deinterleave_orders_pairs() {
    let samples: Vec<i16> = vec![1, -1, 2, -2, 3, -3];
    let pairs = deinterleave_pairs(&samples);
    assert_eq!(pairs, vec![(1, -1), (2, -2), (3, -3)]);
}

#[test]
fn deinterleave_drops_trailing_odd_sample() {
    let samples: Vec<i16> = vec![10, 20, 30];
    let pairs = deinterleave_pairs(&samples);
    assert_eq!(pairs, vec![(10, 20)]);
}

#[test]
fn deinterleave_empty() {
    let samples: Vec<i16> = Vec::new();
    assert_eq!(deinterleave_pairs(&samples), Vec::new());
}

#[test]
fn interleave_restores_packed_layout() {
    let pairs: Vec<(i16, i16)> = vec![(5, 6), (7, 8)];
    let samples = interleave_pairs(&pairs);
    assert_eq!(samples, vec![5, 6, 7, 8]);
}

#[test]
fn interleave_round_trip() {
    let samples: Vec<i16> = vec![9, -9, 8, -8, 7, -7, 6, -6];
    let pairs = deinterleave_pairs(&samples);
    assert_eq!(interleave_pairs(&pairs), samples);
}

#[test]
fn audio_batch_flushes_pairs_in_order_and_clears() {
    let mut collector = RetroAVCollector::new();
    let receiver = collector.sink.output.clone();
    let samples: Vec<i16> = vec![1, 2, 3, 4, 5, 6];
    let consumed = collector.on_audio_sample_batch(&samples, 42).unwrap();
    assert_eq!(consumed, 6);
    let frame = receiver.try_recv().unwrap();
    assert_eq!(frame.frame_number, 42);
    match frame.data {
        FrameData::Audio(plane) => {
            assert_eq!(plane.data, vec![(1, 2), (3, 4), (5, 6)]);
        }
        other => panic!("expected an audio plane, got {:?}", other),
    }
    // The accumulator was cleared: the next batch carries only its own pairs.
    let more: Vec<i16> = vec![7, 8];
    collector.on_audio_sample_batch(&more, 43).unwrap();
    let frame = receiver.try_recv().unwrap();
    match frame.data {
        FrameData::Audio(plane) => assert_eq!(plane.data, vec![(7, 8)]),
        other => panic!("expected an audio plane, got {:?}", other),
    }
}

#[test]
fn single_samples_accumulate_until_batch_flush() {
    let mut collector = RetroAVCollector::new();
    let receiver = collector.sink.output.clone();
    collector.on_audio_sample(100, -100, 0);
    collector.on_audio_sample(200, -200, 0);
    assert!(receiver.try_recv().is_err(), "nothing is enqueued before a flush");
    collector.on_audio_sample_batch(&[300, -300], 7).unwrap();
    let frame = receiver.try_recv().unwrap();
    match frame.data {
        FrameData::Audio(plane) => {
            assert_eq!(plane.data, vec![(100, -100), (200, -200), (300, -300)]);
        }
        other => panic!("expected an audio plane, got {:?}", other),
    }
}

#[test]
fn video_refresh_wraps_plane() {
    let mut collector = RetroAVCollector::new();
    let receiver = collector.sink.output.clone();
    let pixels: Vec<u8> = vec![1, 2, 3, 4, 5, 6, 7, 8];
    collector.on_video_refresh(&pixels, 2, 2, 4, 11).unwrap();
    let frame = receiver.try_recv().unwrap();
    assert_eq!(frame.frame_number, 11);
    match frame.data {
        FrameData::Video(plane) => {
            assert_eq!(plane.data, pixels);
            assert_eq!(plane.width, 2);
            assert_eq!(plane.height, 2);
            assert_eq!(plane.pitch, 4);
        }
        other => panic!("expected a video plane, got {:?}", other),
    }
}

#[test]
fn row_copy_with_differing_pitch_copies_min_bytes_per_row() {
    // Source rows are 4 bytes apart, destination rows 3 bytes apart:
    // each row moves min(4, 3) = 3 bytes, and the padding byte of each
    // source row is never read into the destination.
    let src = VideoPlane {
        data: vec![1, 2, 3, 99, 4, 5, 6, 99],
        width: 3,
        height: 2,
        pitch: 4,
    };
    let mut dst: Vec<u8> = vec![0; 6];
    copy_plane_rows(&src, &mut dst, 3);
    assert_eq!(dst, vec![1, 2, 3, 4, 5, 6]);
}

#[test]
fn row_copy_with_wider_destination_leaves_padding_untouched() {
    // Source rows are 2 bytes apart, destination rows 4 bytes apart:
    // bytes beyond min(2, 4) = 2 in each destination row keep their
    // old value, as does everything past the copied rows.
    let src = VideoPlane {
        data: vec![1, 2, 3, 4],
        width: 2,
        height: 2,
        pitch: 2,
    };
    let mut dst: Vec<u8> = vec![9; 10];
    copy_plane_rows(&src, &mut dst, 4);
    assert_eq!(dst, vec![1, 2, 9, 9, 3, 4, 9, 9, 9, 9]);
}

#[test]
fn row_copy_identical_layout_is_a_full_copy() {
    let src = VideoPlane {
        data: vec![10, 20, 30, 40, 50, 60],
        width: 3,
        height: 2,
        pitch: 3,
    };
    let mut dst: Vec<u8> = vec![0; 6];
    copy_plane_rows(&src, &mut dst, 3);
    assert_eq!(dst, vec![10, 20, 30, 40, 50, 60]);
}
