use sona_capture::device::{DeviceConfig, SampleFormat};
use sona_capture::engine::{
    CaptureEngine, EngineBuildError, DEFAULT_CHUNK_LEN, RING_BLOCKS, TARGET_RATE_HZ,
};
use sona_capture::resample::ResampleError;

fn stereo_48k() -> DeviceConfig {
    DeviceConfig { native_rate: 48000, channels: 2, format: SampleFormat::SignedInt16 }
}

#[test]
fn build_sizes_the_pipeline_from_the_device() {
    let e = match CaptureEngine::build(&stereo_48k(), TARGET_RATE_HZ, DEFAULT_CHUNK_LEN) {
        Ok(e) => e,
        Err(_) => panic!("valid device must build"),
    };
    assert_eq!(e.input_block_length(), 3072);
    assert_eq!(e.output_block_length(), 1024);
    assert_eq!(e.buffered_len(), 0);
}

#[test]
fn build_rejects_bad_devices_exactly() {
    let no_channels = DeviceConfig { native_rate: 48000, channels: 0, format: SampleFormat::Float32 };
    assert!(matches!(
        CaptureEngine::build(&no_channels, TARGET_RATE_HZ, DEFAULT_CHUNK_LEN),
        Err(EngineBuildError::NoChannels)
    ));
    let zero_rate = DeviceConfig { native_rate: 0, channels: 2, format: SampleFormat::SignedInt16 };
    assert!(matches!(
        CaptureEngine::build(&zero_rate, TARGET_RATE_HZ, DEFAULT_CHUNK_LEN),
        Err(EngineBuildError::Converter(ResampleError::ZeroRate))
    ));
    let slow = DeviceConfig { native_rate: 1, channels: 1, format: SampleFormat::SignedInt16 };
    assert!(matches!(
        CaptureEngine::build(&slow, TARGET_RATE_HZ, 1),
        Err(EngineBuildError::Converter(ResampleError::WindowTooSmall))
    ));
    // The input window itself fits in memory, but four of them do not.
    let wide = DeviceConfig { native_rate: 8, channels: 1, format: SampleFormat::SignedInt16 };
    assert!(matches!(
        CaptureEngine::build(&wide, 1, usize::MAX / 8),
        Err(EngineBuildError::BufferTooLarge)
    ));
}

#[test]
fn one_second_of_stereo_yields_one_second_of_mono_pcm() {
    // One second at 48000 Hz, 2 channels, delivered in 100 callback-sized
    // blocks of 480 frames, each frame a constant full-scale value: the
    // produced chunks must total the target rate's worth of samples to
    // within one converter window, none longer than the desired output
    // length, and every sample must encode full scale without overflow.
    let mut e = match CaptureEngine::build(&stereo_48k(), TARGET_RATE_HZ, DEFAULT_CHUNK_LEN) {
        Ok(e) => e,
        Err(_) => panic!("valid device must build"),
    };
    let full_scale = (1.0f32 * 32768.0) as i32;
    let delivery = vec![full_scale; 480 * 2];
    let mut total: usize = 0;
    for _ in 0..100 {
        for chunk in e.process_block(&delivery) {
            assert!(chunk.len() <= DEFAULT_CHUNK_LEN);
            assert!(!chunk.is_empty());
            assert!(chunk.iter().all(|&s| s == 32767));
            total += chunk.len();
        }
    }
    let window = DEFAULT_CHUNK_LEN;
    let expect = TARGET_RATE_HZ as usize;
    assert!(total + window >= expect && total <= expect + window,
        "total {} not within one window of {}", total, expect);
    // What is short of a full input window stays buffered.
    assert!(e.buffered_len() < e.input_block_length());
}

#[test]
fn extremes_encode_clamped_through_the_pipeline() {
    // A synthetic block alternating exactly +1.0 and -1.0 across both
    // channels: the encoded output must be +32767 and -32767, never a
    // wrapped positive value.
    let mut e = match CaptureEngine::build(&stereo_48k(), TARGET_RATE_HZ, DEFAULT_CHUNK_LEN) {
        Ok(e) => e,
        Err(_) => panic!("valid device must build"),
    };
    let plus = (1.0f32 * 32768.0) as i32;
    let minus = (-1.0f32 * 32768.0) as i32;
    // Frames alternate +1.0 and -1.0; 3072 frames fill one input window.
    let mut delivery = Vec::new();
    for f in 0..3072 {
        let v = if f % 2 == 0 { plus } else { minus };
        delivery.push(v);
        delivery.push(v);
    }
    let chunks = e.process_block(&delivery);
    assert_eq!(chunks.len(), 1);
    assert_eq!(chunks[0].len(), 1024);
    for &s in &chunks[0] {
        assert!(s == 32767 || s == -32767);
        assert!(s > i16::MIN);
    }
    assert!(chunks[0].contains(&32767));
    assert!(chunks[0].contains(&-32767));
}

#[test]
fn short_deliveries_buffer_until_a_window_fills() {
    let mut e = match CaptureEngine::build(&stereo_48k(), TARGET_RATE_HZ, DEFAULT_CHUNK_LEN) {
        Ok(e) => e,
        Err(_) => panic!("valid device must build"),
    };
    // 1000 mono samples per delivery; the first three cannot fill the
    // 3072-sample window, the fourth can.
    let delivery = vec![100i32; 1000 * 2];
    for n in 1..=3 {
        assert!(e.process_block(&delivery).is_empty());
        assert_eq!(e.buffered_len(), n * 1000);
    }
    let chunks = e.process_block(&delivery);
    assert_eq!(chunks.len(), 1);
    assert_eq!(chunks[0].len(), 1024);
    assert!(chunks[0].iter().all(|&s| s == 100));
    assert_eq!(e.buffered_len(), 4000 - 3072);
}

#[test]
fn oversized_delivery_drops_newest_not_oldest() {
    // A single delivery larger than the whole ring: the buffer keeps the
    // oldest samples, drains full windows, and never blocks.
    let mut e = match CaptureEngine::build(&stereo_48k(), TARGET_RATE_HZ, DEFAULT_CHUNK_LEN) {
        Ok(e) => e,
        Err(_) => panic!("valid device must build"),
    };
    let cap = RING_BLOCKS * e.input_block_length();
    // Mono ramp longer than the ring capacity (mono channel count 1 here
    // would need a different config; use two identical channel values).
    let mut delivery = Vec::new();
    for i in 0..(cap + 5000) {
        let v = i as i32;
        delivery.push(v);
        delivery.push(v);
    }
    let chunks = e.process_block(&delivery);
    // Exactly the ring capacity survived, all from the front of the ramp:
    // no sample from the dropped tail (values >= cap) appears.
    assert_eq!(chunks.len(), RING_BLOCKS);
    assert_eq!(chunks[0][0], 0);
    for chunk in &chunks {
        assert_eq!(chunk.len(), DEFAULT_CHUNK_LEN);
        assert!(chunk.windows(2).all(|w| w[0] <= w[1]));
        assert!(chunk.iter().all(|&s| (s as usize) < cap));
    }
    assert_eq!(e.buffered_len(), 0);
}
