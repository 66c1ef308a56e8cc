use capture_preview::capture_loop::{
    CaptureConfig, CaptureLoop, LoopAction, LoopEvent, LoopPhase, BACKOFF_MICROS, IMAGE_EVENT,
};
use capture_preview::error::{CaptureError, TerminalStatus};
use capture_preview::format::PixelFormat;
use capture_preview::frame::RawFrame;

fn bgra_frame(value: u8) -> RawFrame {
    RawFrame {
        format: PixelFormat::Bgra,
        width: 2,
        height: 2,
        stride: 8,
        data: vec![value; 16],
        display_time: 0,
    }
}

fn opened_loop() -> CaptureLoop {
    let mut l = CaptureLoop::new();
    assert_eq!(l.step(true, LoopEvent::Begin), LoopAction::CheckPlatform);
    assert_eq!(l.step(true, LoopEvent::Platform(true)), LoopAction::CheckPermission);
    assert_eq!(l.step(true, LoopEvent::Permission(true)), LoopAction::Open(CaptureConfig::preview()));
    assert_eq!(l.step(true, LoopEvent::Opened(true)), LoopAction::Pull);
    l
}

#[test]
fn session_configuration() {
    let c = CaptureConfig::preview();
    assert_eq!(c.fps, 30);
    assert_eq!(c.max_lines, 480);
    assert!(c.show_cursor);
    assert!(!c.show_highlight);
    assert!(!c.has_exclusions);
    assert_eq!(BACKOFF_MICROS, 8333);
    assert_eq!(IMAGE_EVENT, "image");
}

#[test]
fn startup_sequence_reaches_the_first_pull() {
    let l = opened_loop();
    assert_eq!(l.phase, LoopPhase::Pulling);
    assert_eq!(l.terminal_status(), None);
}

#[test]
fn unsupported_platform_ends_the_loop() {
    let mut l = CaptureLoop::new();
    l.step(true, LoopEvent::Begin);
    let status = TerminalStatus::Failed(CaptureError::PlatformUnsupported);
    assert_eq!(l.step(true, LoopEvent::Platform(false)), LoopAction::Exit(status));
    assert_eq!(l.terminal_status(), Some(status));
}

#[test]
fn denied_permission_ends_the_loop() {
    let mut l = CaptureLoop::new();
    l.step(true, LoopEvent::Begin);
    l.step(true, LoopEvent::Platform(true));
    let status = TerminalStatus::Failed(CaptureError::PermissionDenied);
    assert_eq!(l.step(true, LoopEvent::Permission(false)), LoopAction::Exit(status));
    assert_eq!(l.terminal_status(), Some(status));
}

#[test]
fn failed_open_ends_the_loop() {
    let mut l = CaptureLoop::new();
    l.step(true, LoopEvent::Begin);
    l.step(true, LoopEvent::Platform(true));
    l.step(true, LoopEvent::Permission(true));
    let status = TerminalStatus::Failed(CaptureError::SourceInitFailed);
    assert_eq!(l.step(true, LoopEvent::Opened(false)), LoopAction::Exit(status));
    assert_eq!(l.terminal_status(), Some(status));
}

#[test]
fn frame_is_emitted_as_preview() {
    let mut l = opened_loop();
    match l.step(true, LoopEvent::Frame(bgra_frame(7))) {
        LoopAction::Emit(p) => {
            assert_eq!((p.width, p.height), (160, 90));
            assert_eq!(p.image.len(), p.width as usize * p.height as usize * 4);
            assert!(p.image.iter().all(|b| *b == 7));
        }
        other => panic!("expected an emission, got {:?}", other),
    }
    assert_eq!(l.phase, LoopPhase::Emitting);
    assert_eq!(l.step(true, LoopEvent::Done), LoopAction::Pull);
}

#[test]
fn would_block_backs_off_and_retries() {
    let mut l = opened_loop();
    assert_eq!(l.step(true, LoopEvent::WouldBlock), LoopAction::Backoff(8333));
    assert_eq!(l.phase, LoopPhase::Pausing);
    assert_eq!(l.step(true, LoopEvent::Done), LoopAction::Pull);
    assert_eq!(l.terminal_status(), None);
}

#[test]
fn cleared_flag_closes_the_source() {
    let mut l = opened_loop();
    assert!(matches!(l.step(true, LoopEvent::Frame(bgra_frame(1))), LoopAction::Emit(_)));
    assert_eq!(l.step(false, LoopEvent::Done), LoopAction::Close);
    assert_eq!(l.step(false, LoopEvent::Done), LoopAction::Exit(TerminalStatus::Stopped));
    assert_eq!(l.terminal_status(), Some(TerminalStatus::Stopped));
}

#[test]
fn flag_cleared_before_the_first_pull() {
    let mut l = CaptureLoop::new();
    l.step(true, LoopEvent::Begin);
    l.step(true, LoopEvent::Platform(true));
    l.step(true, LoopEvent::Permission(true));
    assert_eq!(l.step(false, LoopEvent::Opened(true)), LoopAction::Close);
    assert_eq!(l.step(false, LoopEvent::Done), LoopAction::Exit(TerminalStatus::Stopped));
}

#[test]
fn in_flight_pull_is_still_processed_after_the_flag_clears() {
    let mut l = opened_loop();
    assert!(matches!(l.step(false, LoopEvent::Frame(bgra_frame(1))), LoopAction::Emit(_)));
    assert_eq!(l.step(false, LoopEvent::Done), LoopAction::Close);
}

#[test]
fn nothing_is_emitted_once_the_source_is_closing() {
    let mut l = opened_loop();
    assert!(matches!(l.step(false, LoopEvent::Frame(bgra_frame(1))), LoopAction::Emit(_)));
    assert_eq!(l.step(false, LoopEvent::Done), LoopAction::Close);
    assert_eq!(l.step(false, LoopEvent::Frame(bgra_frame(2))), LoopAction::Wait);
    assert_eq!(l.step(false, LoopEvent::Done), LoopAction::Exit(TerminalStatus::Stopped));
    assert_eq!(l.step(false, LoopEvent::Frame(bgra_frame(3))), LoopAction::Exit(TerminalStatus::Stopped));
}

#[test]
fn failure_on_third_pull_emits_two_frames() {
    let mut l = opened_loop();
    let mut emitted = 0;
    let mut action = LoopAction::Pull;
    for n in 1..=3u8 {
        assert_eq!(action, LoopAction::Pull);
        let event = if n == 3 { LoopEvent::PullFailed } else { LoopEvent::Frame(bgra_frame(n)) };
        action = l.step(true, event);
        if let LoopAction::Emit(_) = action {
            emitted += 1;
            action = l.step(true, LoopEvent::Done);
        }
    }
    let status = TerminalStatus::Failed(CaptureError::FrameAcquisitionFailed);
    assert_eq!(emitted, 2);
    assert_eq!(action, LoopAction::Close);
    assert_eq!(l.phase, LoopPhase::Closing(status));
    assert_eq!(l.step(true, LoopEvent::Done), LoopAction::Exit(status));
    assert_eq!(l.terminal_status(), Some(status));
}

#[test]
fn malformed_frame_ends_the_session() {
    let mut l = opened_loop();
    let mut bad = bgra_frame(0);
    bad.data.truncate(10);
    assert_eq!(l.step(true, LoopEvent::Frame(bad)), LoopAction::Close);
    let status = TerminalStatus::Failed(CaptureError::NormalizationFailed);
    assert_eq!(l.step(true, LoopEvent::Done), LoopAction::Exit(status));
}

#[test]
fn unreadable_frame_ends_the_session() {
    let mut l = opened_loop();
    assert_eq!(l.step(true, LoopEvent::Unreadable), LoopAction::Close);
    let status = TerminalStatus::Failed(CaptureError::NormalizationFailed);
    assert_eq!(l.step(true, LoopEvent::Done), LoopAction::Exit(status));
}

#[test]
fn finished_loop_stays_finished() {
    let mut l = opened_loop();
    l.step(true, LoopEvent::PullFailed);
    l.step(true, LoopEvent::Done);
    let status = TerminalStatus::Failed(CaptureError::FrameAcquisitionFailed);
    assert_eq!(l.step(true, LoopEvent::Frame(bgra_frame(1))), LoopAction::Exit(status));
    assert_eq!(l.step(true, LoopEvent::Begin), LoopAction::Exit(status));
    assert_eq!(l.step(false, LoopEvent::Done), LoopAction::Exit(status));
    assert_eq!(l.phase, LoopPhase::Finished(status));
}

#[test]
fn unexpected_event_is_ignored() {
    let mut l = CaptureLoop::new();
    assert_eq!(l.step(true, LoopEvent::Done), LoopAction::Wait);
    assert_eq!(l.phase, LoopPhase::Init);
    let mut l = opened_loop();
    assert_eq!(l.step(true, LoopEvent::Platform(true)), LoopAction::Wait);
    assert_eq!(l.phase, LoopPhase::Pulling);
}
