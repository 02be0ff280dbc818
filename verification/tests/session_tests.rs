use sona_capture::session::{CaptureLifecycle, LifecyclePhase, StartDirective, StopDirective};

#[test]
fn stop_when_idle_is_a_successful_no_op() {
    // Idempotent stop: with the reference count already at zero the stop
    // succeeds, leaves the state idle and directs no hardware action,
    // indistinguishable from the state after a normal full stop.
    let mut s = CaptureLifecycle::new();
    assert_eq!(s.stop(), StopDirective::NoConsumers);
    assert_eq!(s.phase(), LifecyclePhase::Idle);
    assert_eq!(s.ref_count(), 0);
    assert_eq!(s.stream_opens(), 0);
    assert_eq!(s.stream_closes(), 0);
    // Again, after a full start/stop cycle.
    assert_eq!(s.begin_start(), StartDirective::OpenStream);
    s.complete_start();
    assert_eq!(s.stop(), StopDirective::CloseStream);
    assert_eq!(s.stop(), StopDirective::NoConsumers);
    assert_eq!(s.stop(), StopDirective::NoConsumers);
    assert_eq!(s.phase(), LifecyclePhase::Idle);
    assert_eq!(s.stream_opens(), 1);
    assert_eq!(s.stream_closes(), 1);
}

#[test]
fn n_starts_and_n_stops_open_and_close_once() {
    // Reference-count law, concretely: three starts direct exactly one
    // stream open; the stream stays open through the first two stops and
    // the third directs exactly one close.
    let mut s = CaptureLifecycle::new();
    assert_eq!(s.begin_start(), StartDirective::OpenStream);
    s.complete_start();
    assert_eq!(s.begin_start(), StartDirective::AlreadyActive);
    assert_eq!(s.begin_start(), StartDirective::AlreadyActive);
    assert_eq!(s.ref_count(), 3);
    assert_eq!(s.stream_opens(), 1);

    assert_eq!(s.stop(), StopDirective::StillActive);
    assert_eq!(s.stop(), StopDirective::StillActive);
    assert_eq!(s.phase(), LifecyclePhase::Active);
    assert_eq!(s.stream_closes(), 0);

    assert_eq!(s.stop(), StopDirective::CloseStream);
    assert_eq!(s.phase(), LifecyclePhase::Idle);
    assert_eq!(s.ref_count(), 0);
    assert_eq!(s.stream_opens(), 1);
    assert_eq!(s.stream_closes(), 1);
}

#[test]
fn failed_start_returns_to_idle() {
    let mut s = CaptureLifecycle::new();
    assert_eq!(s.begin_start(), StartDirective::OpenStream);
    assert_eq!(s.phase(), LifecyclePhase::Starting);
    s.fail_start();
    assert_eq!(s.phase(), LifecyclePhase::Idle);
    assert_eq!(s.ref_count(), 0);
    assert_eq!(s.stream_opens(), 0);
    assert_eq!(s.stream_closes(), 0);
    // The session is usable again after the surfaced failure.
    assert_eq!(s.begin_start(), StartDirective::OpenStream);
    s.complete_start();
    assert_eq!(s.phase(), LifecyclePhase::Active);
}

#[test]
fn start_while_starting_is_reported() {
    let mut s = CaptureLifecycle::new();
    assert_eq!(s.begin_start(), StartDirective::OpenStream);
    assert_eq!(s.begin_start(), StartDirective::StartInProgress);
    assert_eq!(s.phase(), LifecyclePhase::Starting);
    assert_eq!(s.ref_count(), 0);
}

#[test]
fn restart_after_full_stop_opens_again() {
    let mut s = CaptureLifecycle::new();
    for _ in 0..2 {
        assert_eq!(s.begin_start(), StartDirective::OpenStream);
        s.complete_start();
        assert_eq!(s.stop(), StopDirective::CloseStream);
    }
    assert_eq!(s.stream_opens(), 2);
    assert_eq!(s.stream_closes(), 2);
    assert_eq!(s.phase(), LifecyclePhase::Idle);
}
