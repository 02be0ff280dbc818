use sona_capture::downmix::{downmix_block, downmix_frame};

#[test]
fn identical_values_average_to_the_value() {
    // A frame of one repeated value across any channel count downmixes to
    // exactly that value.
    for channels in [1u32, 2, 3, 8] {
        for v in [0i32, 1, -1, 32768, -32768, 12345, -32767] {
            let frame = vec![v; channels as usize];
            assert_eq!(downmix_frame(&frame, 0, channels), v);
        }
    }
}

#[test]
fn mean_truncates_toward_zero() {
    assert_eq!(downmix_frame(&vec![1, 2, 3, 4], 0, 4), 2); // 10 / 4 = 2.5
    assert_eq!(downmix_frame(&vec![-1, -2], 0, 2), -1); // -3 / 2 = -1.5
    assert_eq!(downmix_frame(&vec![-1, -2, -3, -4], 0, 4), -2);
    assert_eq!(downmix_frame(&vec![7, -7], 0, 2), 0);
}

#[test]
fn silence_maps_to_silence() {
    let block = vec![0i32; 12];
    assert_eq!(downmix_block(&block, 3), vec![0i32; 4]);
}

#[test]
fn block_is_downmixed_frame_by_frame() {
    // Interleaved stereo: (10, 20), (30, 50), (-4, -6).
    let block = vec![10, 20, 30, 50, -4, -6];
    assert_eq!(downmix_block(&block, 2), vec![15, 40, -5]);
}

#[test]
fn trailing_partial_frame_is_dropped() {
    let block = vec![10, 20, 30];
    assert_eq!(downmix_block(&block, 2), vec![15]);
}

#[test]
fn mono_passes_through() {
    let block = vec![5, -9, 32768];
    assert_eq!(downmix_block(&block, 1), block);
}
