use capture_preview::error::{CaptureError, TerminalStatus};
use capture_preview::session::{InnerCaptureState, SessionState, StartAction, StopAction};

#[test]
fn new_session_is_idle() {
    let s = InnerCaptureState::new();
    assert_eq!(s.state(), SessionState::Idle);
    assert!(!s.is_enabled());
    assert!(!s.holds_worker());
    assert_eq!(s.last_status(), None);
}

#[test]
fn start_twice_spawns_one_worker() {
    let mut s = InnerCaptureState::new();
    assert_eq!(s.start_capture(), StartAction::SpawnWorker);
    assert_eq!(s.state(), SessionState::Running);
    assert!(s.is_enabled());
    assert!(s.holds_worker());
    assert_eq!(s.start_capture(), StartAction::AlreadyActive);
    assert_eq!(s.state(), SessionState::Running);
    assert!(s.is_enabled());
}

#[test]
fn stop_twice_leaves_idle() {
    let mut s = InnerCaptureState::new();
    s.start_capture();
    assert_eq!(s.stop_capture(), StopAction::SignalAndJoin);
    assert_eq!(s.state(), SessionState::Stopping);
    assert!(!s.is_enabled());
    assert!(s.holds_worker());
    s.worker_joined(TerminalStatus::Stopped);
    assert_eq!(s.state(), SessionState::Idle);
    assert!(!s.holds_worker());
    assert_eq!(s.last_status(), Some(TerminalStatus::Stopped));
    assert_eq!(s.stop_capture(), StopAction::AlreadyIdle);
    assert_eq!(s.state(), SessionState::Idle);
    assert_eq!(s.last_status(), Some(TerminalStatus::Stopped));
}

#[test]
fn stop_when_idle_does_nothing() {
    let mut s = InnerCaptureState::new();
    assert_eq!(s.stop_capture(), StopAction::AlreadyIdle);
    assert_eq!(s.state(), SessionState::Idle);
    assert_eq!(s.last_status(), None);
}

#[test]
fn start_while_stopping_does_nothing() {
    let mut s = InnerCaptureState::new();
    s.start_capture();
    s.stop_capture();
    assert_eq!(s.start_capture(), StartAction::AlreadyActive);
    assert_eq!(s.state(), SessionState::Stopping);
    assert!(!s.is_enabled());
}

#[test]
fn join_is_recorded_only_while_stopping() {
    let mut s = InnerCaptureState::new();
    s.worker_joined(TerminalStatus::Stopped);
    assert_eq!(s.last_status(), None);
    s.start_capture();
    s.worker_joined(TerminalStatus::Stopped);
    assert_eq!(s.state(), SessionState::Running);
    assert_eq!(s.last_status(), None);
}

#[test]
fn failure_status_is_kept_until_the_next_start() {
    let mut s = InnerCaptureState::new();
    s.start_capture();
    s.stop_capture();
    s.worker_joined(TerminalStatus::Failed(CaptureError::FrameAcquisitionFailed));
    assert_eq!(
        s.last_status(),
        Some(TerminalStatus::Failed(CaptureError::FrameAcquisitionFailed))
    );
    assert_eq!(s.start_capture(), StartAction::SpawnWorker);
    assert_eq!(s.last_status(), None);
}
