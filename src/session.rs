use vstd::prelude::*;

use crate::faults::{is_fatal, should_continue, Fault};
use crate::report::SOFTWARE_MODE;

verus! {

/// Lifecycle of one device session.
#[derive(Debug, Clone, Copy, PartialEq, Eq, Structural)]
pub enum SessionState {
    Connecting,
    ModeHandshake,
    Ready,
    /// Read loop and keepalive loop, raced against cancellation.
    Running,
    Draining,
    Closed,
}

/// What the runner of a session reports back after doing an action.
#[derive(Debug, Clone, Copy, PartialEq, Eq, Structural)]
pub enum SessionEvent {
    /// The last action completed.
    Done,
    /// The last action failed.
    Failed(Fault),
    /// The session's cancellation signal fired.
    Cancelled,
}

/// The work the runner performs next.
#[derive(Debug, Clone, Copy, PartialEq, Eq, Structural)]
pub enum SessionAction {
    /// Open the transport handle.
    Open,
    /// Send the mode-set frame with this mode, then wait a short settle delay.
    SetMode(u8),
    /// Set the initial brightness, clear stale images and register the device
    /// with the host. A failure means that the device was not registered;
    /// `Cancelled` means that it was, but its session was ended meanwhile.
    Initialize,
    /// Read the next frame and forward its events, keeping the device alive.
    Serve,
    /// Shut the device down (errors ignored), deregister it and drop it from
    /// the registry.
    Teardown,
    /// Give up a session that never registered its device.
    Abort,
    /// Nothing to do.
    Idle,
}

/// State and action after one event.
pub open spec fn spec_step(handshake: bool, s: SessionState, e: SessionEvent) -> (
    SessionState,
    SessionAction,
) {
    match s {
        SessionState::Connecting => match e {
            SessionEvent::Done => if handshake {
                (SessionState::ModeHandshake, SessionAction::SetMode(SOFTWARE_MODE))
            } else {
                (SessionState::Ready, SessionAction::Initialize)
            },
            _ => (SessionState::Closed, SessionAction::Abort),
        },
        SessionState::ModeHandshake => match e {
            SessionEvent::Done => (SessionState::Ready, SessionAction::Initialize),
            _ => (SessionState::Closed, SessionAction::Abort),
        },
        SessionState::Ready => match e {
            SessionEvent::Done => (SessionState::Running, SessionAction::Serve),
            SessionEvent::Failed(_) => (SessionState::Closed, SessionAction::Abort),
            SessionEvent::Cancelled => (SessionState::Draining, SessionAction::Teardown),
        },
        SessionState::Running => match e {
            SessionEvent::Done => (SessionState::Running, SessionAction::Serve),
            SessionEvent::Failed(f) => if is_fatal(f) {
                (SessionState::Draining, SessionAction::Teardown)
            } else {
                (SessionState::Running, SessionAction::Serve)
            },
            SessionEvent::Cancelled => (SessionState::Draining, SessionAction::Teardown),
        },
        SessionState::Draining => match e {
            SessionEvent::Done => (SessionState::Closed, SessionAction::Idle),
            _ => (SessionState::Draining, SessionAction::Idle),
        },
        SessionState::Closed => (SessionState::Closed, SessionAction::Idle),
    }
}

/// The decisions of one device session: the runner performs each returned
/// action and hands back what happened.
#[derive(Debug, Clone, Copy, PartialEq, Eq, Structural)]
pub struct Session {
    pub state: SessionState,
    /// Whether the device needs the mode-set handshake after connecting.
    pub handshake: bool,
}

impl Session {
    /// A session about to connect; its first action is `Open`.
    pub fn new(handshake: bool) -> (r: (Session, SessionAction))
        ensures
            r.0 == (Session { state: SessionState::Connecting, handshake }),
            r.1 == SessionAction::Open,
    {
        (Session { state: SessionState::Connecting, handshake }, SessionAction::Open)
    }

    pub fn is_closed(&self) -> (r: bool)
        ensures
            r == (self.state == SessionState::Closed),
    {
        match self.state {
            SessionState::Closed => true,
            _ => false,
        }
    }

    /// Advances the session by one event and returns the next action.
    pub fn handle(&mut self, event: SessionEvent) -> (r: SessionAction)
        ensures
            final(self).handshake == old(self).handshake,
            (final(self).state, r) == spec_step(old(self).handshake, old(self).state, event),
    {
        let (state, action) = match self.state {
            SessionState::Connecting => match event {
                SessionEvent::Done => if self.handshake {
                    (SessionState::ModeHandshake, SessionAction::SetMode(SOFTWARE_MODE))
                } else {
                    (SessionState::Ready, SessionAction::Initialize)
                },
                _ => (SessionState::Closed, SessionAction::Abort),
            },
            SessionState::ModeHandshake => match event {
                SessionEvent::Done => (SessionState::Ready, SessionAction::Initialize),
                _ => (SessionState::Closed, SessionAction::Abort),
            },
            SessionState::Ready => match event {
                SessionEvent::Done => (SessionState::Running, SessionAction::Serve),
                SessionEvent::Failed(_) => (SessionState::Closed, SessionAction::Abort),
                SessionEvent::Cancelled => (SessionState::Draining, SessionAction::Teardown),
            },
            SessionState::Running => match event {
                SessionEvent::Done => (SessionState::Running, SessionAction::Serve),
                SessionEvent::Failed(f) => if should_continue(f) {
                    (SessionState::Running, SessionAction::Serve)
                } else {
                    (SessionState::Draining, SessionAction::Teardown)
                },
                SessionEvent::Cancelled => (SessionState::Draining, SessionAction::Teardown),
            },
            SessionState::Draining => match event {
                SessionEvent::Done => (SessionState::Closed, SessionAction::Idle),
                _ => (SessionState::Draining, SessionAction::Idle),
            },
            SessionState::Closed => (SessionState::Closed, SessionAction::Idle),
        };
        self.state = state;
        action
    }
}

/// States and actions that a run of events produces, one per event.
pub open spec fn run(handshake: bool, s: SessionState, events: Seq<SessionEvent>) -> Seq<
    (SessionState, SessionAction),
>
    decreases events.len(),
{
    if events.len() == 0 {
        Seq::empty()
    } else {
        let step = spec_step(handshake, s, events[0]);
        seq![step] + run(handshake, step.0, events.drop_first())
    }
}

/// Number of teardowns in a run.
pub open spec fn teardowns(steps: Seq<(SessionState, SessionAction)>) -> nat
    decreases steps.len(),
{
    if steps.len() == 0 {
        0
    } else {
        (if steps[0].1 == SessionAction::Teardown {
            1nat
        } else {
            0nat
        }) + teardowns(steps.drop_first())
    }
}

proof fn lemma_run_len(handshake: bool, s: SessionState, events: Seq<SessionEvent>)
    ensures
        run(handshake, s, events).len() == events.len(),
    decreases events.len(),
{
    if events.len() > 0 {
        lemma_run_len(handshake, spec_step(handshake, s, events[0]).0, events.drop_first());
    }
}

proof fn lemma_after_drain(handshake: bool, s: SessionState, events: Seq<SessionEvent>)
    requires
        s == SessionState::Draining || s == SessionState::Closed,
    ensures
        teardowns(run(handshake, s, events)) == 0,
        forall|i: int|
            0 <= i < events.len() ==> (#[trigger] run(handshake, s, events)[i]).0
                == SessionState::Draining || run(handshake, s, events)[i].0 == SessionState::Closed,
    decreases events.len(),
{
    if events.len() > 0 {
        let step = spec_step(handshake, s, events[0]);
        let rest = events.drop_first();
        lemma_after_drain(handshake, step.0, rest);
        lemma_run_len(handshake, step.0, rest);
        let steps = run(handshake, s, events);
        assert(steps.drop_first() =~= run(handshake, step.0, rest));
        assert forall|i: int| 0 <= i < events.len() implies (#[trigger] steps[i]).0
            == SessionState::Draining || steps[i].0 == SessionState::Closed by {
            if i > 0 {
                assert(steps[i] == run(handshake, step.0, rest)[i - 1]);
            }
        }
    }
}

/// Cancelling a running session tears it down exactly once, whatever events
/// follow, and it never returns to the running state.
pub proof fn lemma_cancel_drains_once(handshake: bool, events: Seq<SessionEvent>)
    requires
        events.len() > 0,
        events[0] == SessionEvent::Cancelled,
    ensures
        run(handshake, SessionState::Running, events)[0] == (
            SessionState::Draining,
            SessionAction::Teardown,
        ),
        teardowns(run(handshake, SessionState::Running, events)) == 1,
        forall|i: int|
            0 <= i < events.len() ==> (#[trigger] run(handshake, SessionState::Running, events)[i]).0
                != SessionState::Running,
{
    let steps = run(handshake, SessionState::Running, events);
    let rest = events.drop_first();
    lemma_after_drain(handshake, SessionState::Draining, rest);
    lemma_run_len(handshake, SessionState::Draining, rest);
    assert(steps.drop_first() =~= run(handshake, SessionState::Draining, rest));
    assert forall|i: int| 0 <= i < events.len() implies (#[trigger] steps[i]).0
        != SessionState::Running by {
        if i > 0 {
            assert(steps[i] == run(handshake, SessionState::Draining, rest)[i - 1]);
        }
    }
}

} // verus!
