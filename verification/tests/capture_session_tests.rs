use sona_capture::device::{DeviceConfig, SampleFormat};
use sona_capture::engine::{EngineBuildError, DEFAULT_CHUNK_LEN, TARGET_RATE_HZ};
use sona_capture::resample::ResampleError;
use sona_capture::session::{CaptureSession, LifecyclePhase, StartDirective, StopDirective};

fn stereo_48k() -> DeviceConfig {
    DeviceConfig { native_rate: 48000, channels: 2, format: SampleFormat::SignedInt16 }
}

#[test]
fn session_owns_buffers_for_the_stream_lifetime() {
    let mut s = CaptureSession::new();
    assert!(!s.is_built());
    assert_eq!(s.start(&stereo_48k(), TARGET_RATE_HZ, DEFAULT_CHUNK_LEN),
        Ok(StartDirective::OpenStream));
    assert_eq!(s.phase(), LifecyclePhase::Starting);
    assert!(s.is_built());
    s.complete_start();
    assert_eq!(s.phase(), LifecyclePhase::Active);

    // The last stop frees the buffers deterministically.
    assert_eq!(s.stop(), StopDirective::CloseStream);
    assert_eq!(s.phase(), LifecyclePhase::Idle);
    assert!(!s.is_built());
}

#[test]
fn failed_build_leaves_the_session_idle_and_empty() {
    let mut s = CaptureSession::new();
    let bad = DeviceConfig { native_rate: 0, channels: 2, format: SampleFormat::SignedInt16 };
    assert_eq!(s.start(&bad, TARGET_RATE_HZ, DEFAULT_CHUNK_LEN),
        Err(EngineBuildError::Converter(ResampleError::ZeroRate)));
    assert_eq!(s.phase(), LifecyclePhase::Idle);
    assert!(!s.is_built());
    assert_eq!(s.stream_opens(), 0);
    // The session is still usable with a good device.
    assert_eq!(s.start(&stereo_48k(), TARGET_RATE_HZ, DEFAULT_CHUNK_LEN),
        Ok(StartDirective::OpenStream));
}

#[test]
fn aborted_stream_open_frees_the_buffers() {
    let mut s = CaptureSession::new();
    assert_eq!(s.start(&stereo_48k(), TARGET_RATE_HZ, DEFAULT_CHUNK_LEN),
        Ok(StartDirective::OpenStream));
    assert!(s.is_built());
    s.fail_start();
    assert_eq!(s.phase(), LifecyclePhase::Idle);
    assert!(!s.is_built());
    assert_eq!(s.stream_opens(), 0);
    assert_eq!(s.stream_closes(), 0);
}

#[test]
fn joined_consumers_share_one_stream() {
    let mut s = CaptureSession::new();
    assert_eq!(s.start(&stereo_48k(), TARGET_RATE_HZ, DEFAULT_CHUNK_LEN),
        Ok(StartDirective::OpenStream));
    s.complete_start();
    // A second and third consumer join without touching the hardware.
    assert_eq!(s.start(&stereo_48k(), TARGET_RATE_HZ, DEFAULT_CHUNK_LEN),
        Ok(StartDirective::AlreadyActive));
    assert_eq!(s.start(&stereo_48k(), TARGET_RATE_HZ, DEFAULT_CHUNK_LEN),
        Ok(StartDirective::AlreadyActive));
    assert_eq!(s.ref_count(), 3);
    assert_eq!(s.stream_opens(), 1);
    assert_eq!(s.stop(), StopDirective::StillActive);
    assert_eq!(s.stop(), StopDirective::StillActive);
    assert!(s.is_built());
    assert_eq!(s.stop(), StopDirective::CloseStream);
    assert_eq!(s.stream_closes(), 1);
    assert!(!s.is_built());
    // Idempotent from here on.
    assert_eq!(s.stop(), StopDirective::NoConsumers);
    assert_eq!(s.stream_closes(), 1);
}

#[test]
fn session_delivers_chunks_while_active() {
    let mut s = CaptureSession::new();
    assert_eq!(s.start(&stereo_48k(), TARGET_RATE_HZ, DEFAULT_CHUNK_LEN),
        Ok(StartDirective::OpenStream));
    s.complete_start();
    // One full input window of constant stereo frames.
    let delivery = vec![1000i32; 3072 * 2];
    let chunks = s.process(&delivery);
    assert_eq!(chunks.len(), 1);
    assert_eq!(chunks[0].len(), DEFAULT_CHUNK_LEN);
    assert!(chunks[0].iter().all(|&v| v == 1000));
    assert_eq!(s.stop(), StopDirective::CloseStream);
}
