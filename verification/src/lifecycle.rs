//! The lifecycle state of a terminal and the enforcement action that each
//! transition asks for.

use vstd::prelude::*;

verus! {

/// The externally visible state of the terminal.
#[derive(Clone, Copy, Debug, PartialEq, Eq, Structural)]
pub enum LifecycleState {
    /// No registration has succeeded yet.
    Unregistered,
    /// Registered, reachable and idle: the desktop is locked down.
    Online,
    /// A user session is running: the lockdown is lifted.
    SessionActive,
    /// The last heartbeat failed.
    Disconnected,
}

/// What a transition asks of the lockdown enforcer.
#[derive(Clone, Copy, Debug, PartialEq, Eq, Structural)]
pub enum EnforcerAction {
    /// Enforcement stays whatever it last was.
    Keep,
    /// Lock the desktop down.
    Enable,
    /// Lift the lockdown.
    Disable,
}

impl LifecycleState {
    /// The state that follows a heartbeat: a failure always records
    /// `Disconnected`; an acknowledgement records `Online` unless a session is
    /// active, which it leaves untouched.
    pub open spec fn after_heartbeat(self, acked: bool) -> LifecycleState {
        if !acked {
            LifecycleState::Disconnected
        } else if self is SessionActive {
            LifecycleState::SessionActive
        } else {
            LifecycleState::Online
        }
    }

    /// The enforcement action of a heartbeat: lockdown is re-applied exactly
    /// when an acknowledgement brings the terminal back from `Disconnected`
    /// or `Unregistered`; a failure never touches enforcement.
    pub open spec fn heartbeat_action(self, acked: bool) -> EnforcerAction {
        if acked && (self is Disconnected || self is Unregistered) {
            EnforcerAction::Enable
        } else {
            EnforcerAction::Keep
        }
    }

    /// Applies one heartbeat outcome to the visible state.
    pub fn on_heartbeat(self, acked: bool) -> (next: (LifecycleState, EnforcerAction))
        ensures
            next.0 == self.after_heartbeat(acked),
            next.1 == self.heartbeat_action(acked),
    {
        if !acked {
            (LifecycleState::Disconnected, EnforcerAction::Keep)
        } else {
            match self {
                LifecycleState::Online => (LifecycleState::Online, EnforcerAction::Keep),
                LifecycleState::SessionActive => (LifecycleState::SessionActive, EnforcerAction::Keep),
                LifecycleState::Unregistered | LifecycleState::Disconnected => (
                    LifecycleState::Online,
                    EnforcerAction::Enable,
                ),
            }
        }
    }
}

impl LifecycleState {
    /// The label under which a state is reported; `Unregistered` has none.
    pub open spec fn label(self) -> Option<Seq<char>> {
        match self {
            LifecycleState::Unregistered => None,
            LifecycleState::Online => Some("ONLINE"@),
            LifecycleState::SessionActive => Some("SESSION_ACTIVE"@),
            LifecycleState::Disconnected => Some("DISCONNECTED"@),
        }
    }

    /// The label under which a state is reported.
    pub fn status_label(self) -> (label: Option<&'static str>)
        ensures
            match label {
                Some(text) => self.label() == Some(text@),
                None => self.label() is None,
            },
    {
        match self {
            LifecycleState::Unregistered => None,
            LifecycleState::Online => Some("ONLINE"),
            LifecycleState::SessionActive => Some("SESSION_ACTIVE"),
            LifecycleState::Disconnected => Some("DISCONNECTED"),
        }
    }
}

} // verus!
