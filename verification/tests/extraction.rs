use sonic_spectra::extractor::extract_channels;

#[test]
fn stereo_extraction_splits_interleaved_frames() {
    // Interleaved stereo: (1.0, 2.0), (3.0, 4.0).
    let data = vec![
        1.0f32.to_bits(),
        2.0f32.to_bits(),
        3.0f32.to_bits(),
        4.0f32.to_bits(),
    ];
    let (left, right) = extract_channels(&data, 2, 2);
    assert_eq!(left, vec![1.0f32.to_bits(), 3.0f32.to_bits()]);
    assert_eq!(right, vec![2.0f32.to_bits(), 4.0f32.to_bits()]);
}

#[test]
fn stereo_short_buffer_pads_with_silence() {
    // Three samples cannot fill two full stereo frames plus two more: the
    // second frame is missing its right half, later frames are missing
    // entirely. Everything the hardware did not deliver reads as silence.
    let data = vec![1.0f32.to_bits(), 2.0f32.to_bits(), 3.0f32.to_bits()];
    let (left, right) = extract_channels(&data, 2, 4);
    assert_eq!(left, vec![1.0f32.to_bits(), 3.0f32.to_bits(), 0, 0]);
    assert_eq!(right, vec![2.0f32.to_bits(), 0, 0, 0]);
    assert_eq!(f32::from_bits(0), 0.0f32);
}

#[test]
fn indices_beyond_frame_count_are_silent_pairs() {
    let data = vec![7u32; 10];
    let (left, right) = extract_channels(&data, 2, 64);
    for i in 0..64 {
        if i * 2 < 10 {
            assert_eq!(left[i], 7);
            assert_eq!(right[i], 7);
        } else {
            assert_eq!((left[i], right[i]), (0, 0));
        }
    }
}

#[test]
fn mono_duplicates_to_both_channels() {
    let half = 0.5f32.to_bits();
    let data = vec![half, half, half];
    let (left, right) = extract_channels(&data, 1, 3);
    assert_eq!(left, vec![half, half, half]);
    assert_eq!(right, vec![half, half, half]);
    for &s in left.iter() {
        assert_eq!(f32::from_bits(s), 0.5f32);
    }
}

#[test]
fn mono_channels_agree_on_every_index() {
    let data: Vec<u32> = (0..13u32).collect();
    let (left, right) = extract_channels(&data, 1, 20);
    assert_eq!(left, right);
}

#[test]
fn extraction_with_many_channels_takes_first_two() {
    // Four interleaved channels: only the first two are kept.
    let data = vec![10, 11, 12, 13, 20, 21, 22, 23];
    let (left, right) = extract_channels(&data, 4, 2);
    assert_eq!(left, vec![10, 20]);
    assert_eq!(right, vec![11, 21]);
}
