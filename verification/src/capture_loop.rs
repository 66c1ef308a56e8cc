use vstd::prelude::*;
use crate::downsample::{make_preview, preview_of};
use crate::error::{CaptureError, TerminalStatus};
use crate::frame::{PreviewFrame, RawFrame, PREVIEW_HEIGHT, PREVIEW_WIDTH};

verus! {

/// Pause after a pull that found no frame ready, in microseconds:
/// one 120th of a second.
pub const BACKOFF_MICROS: u64 = 8333;

/// Name of the event that carries each preview frame to the subscriber.
pub const IMAGE_EVENT: &'static str = "image";

/// How the capture source is opened.
#[derive(Clone, Copy, Debug, PartialEq, Eq, Structural)]
pub struct CaptureConfig {
    /// Target frame rate.
    pub fps: u32,
    /// Cap on the output resolution, in lines.
    pub max_lines: u32,
    pub show_cursor: bool,
    pub show_highlight: bool,
    /// Whether any target is excluded from the capture.
    pub has_exclusions: bool,
}

impl CaptureConfig {
    pub open spec fn spec_preview() -> CaptureConfig {
        CaptureConfig {
            fps: 30,
            max_lines: 480,
            show_cursor: true,
            show_highlight: false,
            has_exclusions: false,
        }
    }

    /// The configuration every session uses: 30 frames per second, at
    /// most 480 lines, cursor shown, no highlight, nothing excluded.
    pub fn preview() -> (c: CaptureConfig)
        ensures
            c == CaptureConfig::spec_preview(),
    {
        CaptureConfig {
            fps: 30,
            max_lines: 480,
            show_cursor: true,
            show_highlight: false,
            has_exclusions: false,
        }
    }
}

/// Which answer the loop is waiting for.
#[derive(Clone, Copy, Debug, PartialEq, Eq, Structural)]
pub enum LoopPhase {
    /// The worker has not begun.
    Init,
    CheckingPlatform,
    CheckingPermission,
    /// The capture source is being opened.
    Opening,
    /// A frame pull is in flight.
    Pulling,
    /// The back-off pause after an empty pull.
    Pausing,
    /// A preview frame is being handed to the subscriber.
    Emitting,
    /// The source is being closed; the loop will end with this status.
    Closing(TerminalStatus),
    /// The loop has ended with this status.
    Finished(TerminalStatus),
}

/// What the worker reports after it has carried out an action.
#[derive(Debug, PartialEq, Eq)]
pub enum LoopEvent {
    /// The worker has started.
    Begin,
    /// Whether the platform supports capture.
    Platform(bool),
    /// Whether capture is permitted.
    Permission(bool),
    /// Whether the source could be opened.
    Opened(bool),
    /// A pull delivered this frame.
    Frame(RawFrame),
    /// A pull delivered a frame whose buffers do not hold its image.
    Unreadable,
    /// A pull found no frame ready yet.
    WouldBlock,
    /// A pull failed for any other reason.
    PullFailed,
    /// A pause, an emission or the closing of the source is over.
    Done,
}

/// What the worker has to do next.
#[derive(Debug, PartialEq, Eq)]
pub enum LoopAction {
    CheckPlatform,
    CheckPermission,
    Open(CaptureConfig),
    Pull,
    /// Sleep for this many microseconds.
    Backoff(u64),
    /// Hand this frame to the subscriber.
    Emit(PreviewFrame),
    /// Stop and close the capture source.
    Close,
    /// Leave the loop and report this status.
    Exit(TerminalStatus),
    /// The event answers nothing the loop asked: keep waiting.
    Wait,
}

/// The abstract value of an action.
pub enum ActionView {
    CheckPlatform,
    CheckPermission,
    Open(CaptureConfig),
    Pull,
    Backoff(u64),
    Emit { image: Seq<u8>, width: u32, height: u32 },
    Close,
    Exit(TerminalStatus),
    Wait,
}

impl View for LoopAction {
    type V = ActionView;

    open spec fn view(&self) -> ActionView {
        match *self {
            LoopAction::CheckPlatform => ActionView::CheckPlatform,
            LoopAction::CheckPermission => ActionView::CheckPermission,
            LoopAction::Open(c) => ActionView::Open(c),
            LoopAction::Pull => ActionView::Pull,
            LoopAction::Backoff(us) => ActionView::Backoff(us),
            LoopAction::Emit(p) => ActionView::Emit {
                image: p.image@,
                width: p.width,
                height: p.height,
            },
            LoopAction::Close => ActionView::Close,
            LoopAction::Exit(s) => ActionView::Exit(s),
            LoopAction::Wait => ActionView::Wait,
        }
    }
}

/// Phase and action at the top of a loop iteration: pull while the flag
/// is set, close the source once it is cleared.
pub open spec fn resume(enabled: bool) -> (LoopPhase, ActionView) {
    if enabled {
        (LoopPhase::Pulling, ActionView::Pull)
    } else {
        (LoopPhase::Closing(TerminalStatus::Stopped), ActionView::Close)
    }
}

/// Phase and action after a failure while the source is open.
pub open spec fn fail_open(e: CaptureError) -> (LoopPhase, ActionView) {
    (LoopPhase::Closing(TerminalStatus::Failed(e)), ActionView::Close)
}

/// Phase and action after a failure before the source is open.
pub open spec fn fail_early(e: CaptureError) -> (LoopPhase, ActionView) {
    (LoopPhase::Finished(TerminalStatus::Failed(e)), ActionView::Exit(TerminalStatus::Failed(e)))
}

/// The transition function of the capture loop: the next phase and the
/// action to carry out, given the phase, the enable flag as read now,
/// and the event.
pub open spec fn transition(phase: LoopPhase, enabled: bool, event: LoopEvent) -> (
    LoopPhase,
    ActionView,
) {
    match (phase, event) {
        (LoopPhase::Init, LoopEvent::Begin) => (
            LoopPhase::CheckingPlatform,
            ActionView::CheckPlatform,
        ),
        (LoopPhase::CheckingPlatform, LoopEvent::Platform(supported)) => if supported {
            (LoopPhase::CheckingPermission, ActionView::CheckPermission)
        } else {
            fail_early(CaptureError::PlatformUnsupported)
        },
        (LoopPhase::CheckingPermission, LoopEvent::Permission(granted)) => if granted {
            (LoopPhase::Opening, ActionView::Open(CaptureConfig::spec_preview()))
        } else {
            fail_early(CaptureError::PermissionDenied)
        },
        (LoopPhase::Opening, LoopEvent::Opened(ok)) => if ok {
            resume(enabled)
        } else {
            fail_early(CaptureError::SourceInitFailed)
        },
        (LoopPhase::Pulling, LoopEvent::Frame(raw)) => if raw.well_formed() {
            (
                LoopPhase::Emitting,
                ActionView::Emit {
                    image: preview_of(raw.normalized(), raw.width, raw.height),
                    width: PREVIEW_WIDTH,
                    height: PREVIEW_HEIGHT,
                },
            )
        } else {
            fail_open(CaptureError::NormalizationFailed)
        },
        (LoopPhase::Pulling, LoopEvent::Unreadable) => fail_open(
            CaptureError::NormalizationFailed,
        ),
        (LoopPhase::Pulling, LoopEvent::WouldBlock) => (
            LoopPhase::Pausing,
            ActionView::Backoff(BACKOFF_MICROS),
        ),
        (LoopPhase::Pulling, LoopEvent::PullFailed) => fail_open(
            CaptureError::FrameAcquisitionFailed,
        ),
        (LoopPhase::Pausing, LoopEvent::Done) => resume(enabled),
        (LoopPhase::Emitting, LoopEvent::Done) => resume(enabled),
        (LoopPhase::Closing(status), LoopEvent::Done) => (
            LoopPhase::Finished(status),
            ActionView::Exit(status),
        ),
        (LoopPhase::Finished(status), _) => (LoopPhase::Finished(status), ActionView::Exit(status)),
        _ => (phase, ActionView::Wait),
    }
}

/// The decisions of one capture loop. The worker carries out each action
/// and reports back with the event that answers it.
#[derive(Debug)]
pub struct CaptureLoop {
    pub phase: LoopPhase,
}

impl CaptureLoop {
    pub fn new() -> (l: CaptureLoop)
        ensures
            l.phase == LoopPhase::Init,
    {
        CaptureLoop { phase: LoopPhase::Init }
    }

    /// The status the loop ended with, once it has ended.
    pub fn terminal_status(&self) -> (s: Option<TerminalStatus>)
        ensures
            s == match self.phase {
                LoopPhase::Finished(status) => Some(status),
                _ => None::<TerminalStatus>,
            },
    {
        match self.phase {
            LoopPhase::Finished(status) => Some(status),
            _ => None,
        }
    }

    fn resume(&mut self, enabled: bool) -> (action: LoopAction)
        ensures
            (final(self).phase, action@) == resume(enabled),
    {
        if enabled {
            self.phase = LoopPhase::Pulling;
            LoopAction::Pull
        } else {
            self.phase = LoopPhase::Closing(TerminalStatus::Stopped);
            LoopAction::Close
        }
    }

    fn fail_open(&mut self, e: CaptureError) -> (action: LoopAction)
        ensures
            (final(self).phase, action@) == fail_open(e),
    {
        self.phase = LoopPhase::Closing(TerminalStatus::Failed(e));
        LoopAction::Close
    }

    fn fail_early(&mut self, e: CaptureError) -> (action: LoopAction)
        ensures
            (final(self).phase, action@) == fail_early(e),
    {
        self.phase = LoopPhase::Finished(TerminalStatus::Failed(e));
        LoopAction::Exit(TerminalStatus::Failed(e))
    }

    /// Takes the event that answers the last action, with the enable
    /// flag as read now, and says what to do next.
    ///
    /// A pulled frame is normalised and resized here; the frame to emit
    /// always has the preview resolution and four bytes per pixel.
    pub fn step(&mut self, enabled: bool, event: LoopEvent) -> (action: LoopAction)
        ensures
            (final(self).phase, action@) == transition(old(self).phase, enabled, event),
            action matches LoopAction::Emit(p) ==> p.well_formed(),
    {
        match (self.phase, event) {
            (LoopPhase::Init, LoopEvent::Begin) => {
                self.phase = LoopPhase::CheckingPlatform;
                LoopAction::CheckPlatform
            },
            (LoopPhase::CheckingPlatform, LoopEvent::Platform(supported)) => {
                if supported {
                    self.phase = LoopPhase::CheckingPermission;
                    LoopAction::CheckPermission
                } else {
                    self.fail_early(CaptureError::PlatformUnsupported)
                }
            },
            (LoopPhase::CheckingPermission, LoopEvent::Permission(granted)) => {
                if granted {
                    self.phase = LoopPhase::Opening;
                    LoopAction::Open(CaptureConfig::preview())
                } else {
                    self.fail_early(CaptureError::PermissionDenied)
                }
            },
            (LoopPhase::Opening, LoopEvent::Opened(ok)) => {
                if ok {
                    self.resume(enabled)
                } else {
                    self.fail_early(CaptureError::SourceInitFailed)
                }
            },
            (LoopPhase::Pulling, LoopEvent::Frame(raw)) => {
                match make_preview(&raw) {
                    Ok(p) => {
                        self.phase = LoopPhase::Emitting;
                        LoopAction::Emit(p)
                    },
                    Err(e) => self.fail_open(e),
                }
            },
            (LoopPhase::Pulling, LoopEvent::Unreadable) => {
                self.fail_open(CaptureError::NormalizationFailed)
            },
            (LoopPhase::Pulling, LoopEvent::WouldBlock) => {
                self.phase = LoopPhase::Pausing;
                LoopAction::Backoff(BACKOFF_MICROS)
            },
            (LoopPhase::Pulling, LoopEvent::PullFailed) => {
                self.fail_open(CaptureError::FrameAcquisitionFailed)
            },
            (LoopPhase::Pausing, LoopEvent::Done) => self.resume(enabled),
            (LoopPhase::Emitting, LoopEvent::Done) => self.resume(enabled),
            (LoopPhase::Closing(status), LoopEvent::Done) => {
                self.phase = LoopPhase::Finished(status);
                LoopAction::Exit(status)
            },
            (LoopPhase::Finished(status), _) => LoopAction::Exit(status),
            _ => LoopAction::Wait,
        }
    }
}

/// Once the enable flag is cleared no further pull is asked for, so no
/// frame beyond the one in flight can be emitted.
pub proof fn lemma_no_pull_when_disabled(phase: LoopPhase, event: LoopEvent)
    ensures
        transition(phase, false, event).1 != ActionView::Pull,
        transition(phase, false, event).0 != LoopPhase::Pulling || phase == LoopPhase::Pulling,
{
}

/// A frame is emitted only in answer to a well-formed frame that a pull
/// delivered, and it always has the preview resolution and four bytes
/// per pixel of that size.
pub proof fn lemma_emit_only_on_frame(phase: LoopPhase, enabled: bool, event: LoopEvent)
    ensures
        transition(phase, enabled, event).1 is Emit ==> {
            &&& phase == LoopPhase::Pulling
            &&& event matches LoopEvent::Frame(raw)
            &&& raw.well_formed()
            &&& transition(phase, enabled, event).1 == (ActionView::Emit {
                image: preview_of(raw.normalized(), raw.width, raw.height),
                width: PREVIEW_WIDTH,
                height: PREVIEW_HEIGHT,
            })
        },
{
}

} // verus!
