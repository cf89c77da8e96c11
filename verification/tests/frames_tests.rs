use voice_to_robot::frames::FrameCursor;

/// The frame index that the cursor assigns to each of `n` samples.
fn frame_indices(channels: usize, n: usize) -> Vec<(u64, usize)> {
    let mut cursor = FrameCursor::new(channels);
    let mut out = Vec::new();
    for _ in 0..n {
        out.push((cursor.frame_index(), cursor.channel()));
        assert!(cursor.can_advance());
        cursor.advance();
    }
    out
}

#[test]
fn new_cursor_starts_at_frame_zero() {
    let c = FrameCursor::new(2);
    assert_eq!(c.frame_index(), 0);
    assert_eq!(c.channel(), 0);
    assert_eq!(c.channels(), 2);
    assert!(c.starts_frame());
}

#[test]
fn mono_stream_one_frame_per_sample() {
    let idx = frame_indices(1, 5);
    assert_eq!(idx, vec![(0, 0), (1, 0), (2, 0), (3, 0), (4, 0)]);
}

#[test]
fn stereo_channels_share_frame_index() {
    // 50 stereo frames: left and right of each frame share one frame index
    let idx = frame_indices(2, 100);
    for frame in 0..50 {
        let l = idx[frame * 2];
        let r = idx[frame * 2 + 1];
        assert_eq!(l.0, frame as u64);
        assert_eq!(r.0, frame as u64);
        assert_eq!(l.1, 0);
        assert_eq!(r.1, 1);
    }
}

#[test]
fn stereo_samples_make_frames() {
    // 200 interleaved samples make 100 frames
    let mut cursor = FrameCursor::new(2);
    let mut starts = 0;
    for _ in 0..200 {
        if cursor.starts_frame() {
            starts += 1;
        }
        cursor.advance();
    }
    assert_eq!(starts, 100);
    assert_eq!(cursor.frame_index(), 100);
    assert_eq!(cursor.channel(), 0);
}

#[test]
fn partial_last_frame_keeps_its_index() {
    // 7 samples of a 3-channel stream: the last sample is channel 0 of frame 2
    let idx = frame_indices(3, 7);
    assert_eq!(idx[6], (2, 0));
    assert_eq!(idx[5], (1, 2));
}

#[test]
fn frame_of_sample_is_quotient() {
    for channels in 1..6usize {
        let idx = frame_indices(channels, 40);
        for (n, &(frame, ch)) in idx.iter().enumerate() {
            assert_eq!(frame, (n / channels) as u64);
            assert_eq!(ch, n % channels);
        }
    }
}
