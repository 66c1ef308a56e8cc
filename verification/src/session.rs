use vstd::prelude::*;
use crate::error::TerminalStatus;

verus! {

/// Where a capture session stands.
#[derive(Clone, Copy, Debug, PartialEq, Eq, Structural)]
pub enum SessionState {
    /// No worker exists.
    Idle,
    /// A worker runs the capture loop.
    Running,
    /// The worker was told to stop and has not been joined yet.
    Stopping,
}

/// What the caller of `start_capture` has to do next.
#[derive(Clone, Copy, Debug, PartialEq, Eq, Structural)]
pub enum StartAction {
    /// Spawn the worker that runs the capture loop.
    SpawnWorker,
    /// A session is active already: do nothing.
    AlreadyActive,
}

/// What the caller of `stop_capture` has to do next.
#[derive(Clone, Copy, Debug, PartialEq, Eq, Structural)]
pub enum StopAction {
    /// Clear the shared flag, join the worker, then report with
    /// `worker_joined`.
    SignalAndJoin,
    /// No session is active: do nothing.
    AlreadyIdle,
}

/// The abstract value of a session controller.
pub struct SessionModel {
    pub state: SessionState,
    /// The flag that the capture loop observes.
    pub enabled: bool,
    /// How the last session that was joined had ended.
    pub last_status: Option<TerminalStatus>,
}

impl SessionModel {
    pub open spec fn idle() -> SessionModel {
        SessionModel { state: SessionState::Idle, enabled: false, last_status: None }
    }

    /// The flag is set exactly while the session runs.
    pub open spec fn consistent(self) -> bool {
        self.enabled <==> self.state == SessionState::Running
    }

    /// Whether a worker exists that must be joined.
    pub open spec fn holds_worker(self) -> bool {
        self.state != SessionState::Idle
    }

    pub open spec fn start(self) -> SessionModel {
        if self.state == SessionState::Idle {
            SessionModel { state: SessionState::Running, enabled: true, last_status: None }
        } else {
            self
        }
    }

    pub open spec fn start_action(self) -> StartAction {
        if self.state == SessionState::Idle {
            StartAction::SpawnWorker
        } else {
            StartAction::AlreadyActive
        }
    }

    pub open spec fn signal_stop(self) -> SessionModel {
        if self.state == SessionState::Idle {
            self
        } else {
            SessionModel {
                state: SessionState::Stopping,
                enabled: false,
                last_status: self.last_status,
            }
        }
    }

    pub open spec fn stop_action(self) -> StopAction {
        if self.state == SessionState::Idle {
            StopAction::AlreadyIdle
        } else {
            StopAction::SignalAndJoin
        }
    }

    pub open spec fn joined(self, status: TerminalStatus) -> SessionModel {
        if self.state == SessionState::Stopping {
            SessionModel { state: SessionState::Idle, enabled: false, last_status: Some(status) }
        } else {
            self
        }
    }

    /// A whole stop: the signal, then the join of a worker that ended
    /// with `status`.
    pub open spec fn stop(self, status: TerminalStatus) -> SessionModel {
        self.signal_stop().joined(status)
    }
}

/// The controller of at most one capture session.
///
/// It decides; its caller owns the worker thread and the shared flag and
/// carries out what the returned actions say.
#[derive(Debug)]
pub struct InnerCaptureState {
    state: SessionState,
    enabled: bool,
    last_status: Option<TerminalStatus>,
}

impl View for InnerCaptureState {
    type V = SessionModel;

    closed spec fn view(&self) -> SessionModel {
        SessionModel { state: self.state, enabled: self.enabled, last_status: self.last_status }
    }
}

impl InnerCaptureState {
    #[verifier::type_invariant]
    spec fn flag_follows_state(&self) -> bool {
        self.enabled <==> self.state == SessionState::Running
    }

    pub fn new() -> (s: InnerCaptureState)
        ensures
            s@ == SessionModel::idle(),
    {
        InnerCaptureState { state: SessionState::Idle, enabled: false, last_status: None }
    }

    /// Begins a session unless one is active.
    pub fn start_capture(&mut self) -> (action: StartAction)
        ensures
            final(self)@ == old(self)@.start(),
            action == old(self)@.start_action(),
    {
        proof {
            use_type_invariant(&*self);
        }
        match self.state {
            SessionState::Idle => {
                *self = InnerCaptureState {
                    state: SessionState::Running,
                    enabled: true,
                    last_status: None,
                };
                StartAction::SpawnWorker
            },
            _ => StartAction::AlreadyActive,
        }
    }

    /// Tells an active session to stop. The session stays `Stopping`
    /// until `worker_joined` reports the worker's end.
    pub fn stop_capture(&mut self) -> (action: StopAction)
        ensures
            final(self)@ == old(self)@.signal_stop(),
            action == old(self)@.stop_action(),
    {
        proof {
            use_type_invariant(&*self);
        }
        match self.state {
            SessionState::Idle => StopAction::AlreadyIdle,
            _ => {
                *self = InnerCaptureState {
                    state: SessionState::Stopping,
                    enabled: false,
                    last_status: self.last_status,
                };
                StopAction::SignalAndJoin
            },
        }
    }

    /// Records that the worker of a stopping session has been joined and
    /// how its loop had ended.
    pub fn worker_joined(&mut self, status: TerminalStatus)
        ensures
            final(self)@ == old(self)@.joined(status),
    {
        proof {
            use_type_invariant(&*self);
        }
        match self.state {
            SessionState::Stopping => {
                *self = InnerCaptureState {
                    state: SessionState::Idle,
                    enabled: false,
                    last_status: Some(status),
                };
            },
            _ => {},
        }
    }

    /// The state; every controller keeps its flag in step with it.
    pub fn state(&self) -> (s: SessionState)
        ensures
            s == self@.state,
            self@.consistent(),
    {
        proof {
            use_type_invariant(self);
        }
        self.state
    }

    /// The value the shared enable flag must have.
    pub fn is_enabled(&self) -> (b: bool)
        ensures
            b == self@.enabled,
    {
        self.enabled
    }

    /// Whether a worker exists that must be joined.
    pub fn holds_worker(&self) -> (b: bool)
        ensures
            b == self@.holds_worker(),
    {
        match self.state {
            SessionState::Idle => false,
            _ => true,
        }
    }

    /// How the last joined session ended; `None` before the first stop
    /// and while a session is active that was started afresh.
    pub fn last_status(&self) -> (s: Option<TerminalStatus>)
        ensures
            s == self@.last_status,
    {
        self.last_status
    }
}

/// Starting twice is starting once: the second call changes nothing and
/// asks for no second worker, and a start from idle leaves the session
/// running.
pub proof fn lemma_start_idempotent(s: SessionModel)
    ensures
        s.start().start() == s.start(),
        s.start().start_action() == StartAction::AlreadyActive,
        s.state == SessionState::Idle ==> s.start().state == SessionState::Running,
        s.start().holds_worker(),
{
}

/// Stopping twice is stopping once: after a whole stop the session is
/// idle, and a second stop changes nothing and asks for no join.
pub proof fn lemma_stop_idempotent(s: SessionModel, first: TerminalStatus, second: TerminalStatus)
    ensures
        s.stop(first).state == SessionState::Idle,
        s.stop(first).stop(second) == s.stop(first),
        s.stop(first).stop_action() == StopAction::AlreadyIdle,
{
}

/// Every transition keeps the flag in step with the state.
pub proof fn lemma_transitions_consistent(s: SessionModel, status: TerminalStatus)
    requires
        s.consistent(),
    ensures
        SessionModel::idle().consistent(),
        s.start().consistent(),
        s.signal_stop().consistent(),
        s.joined(status).consistent(),
        s.stop(status).consistent(),
{
}

} // verus!
