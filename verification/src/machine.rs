//! The transition system of the agent, as mathematics.
//!
//! A [`Machine`] is what the agent and the enforcer hold at one instant; an
//! [`Event`] is one outcome handed to the state machine. [`Machine::step`] is
//! the whole transition table, total over every pair of state and event, and
//! the executable transitions of this crate are proved to compute it. The
//! proof functions at the end state what holds of every run.

use vstd::prelude::*;
use crate::lifecycle::{EnforcerAction, LifecycleState};

verus! {

/// The identity that the backend assigned, as plain text.
#[verifier::ext_equal]
pub struct IdentityView {
    pub id: Seq<char>,
    pub name: Seq<char>,
    pub zone_id: Seq<char>,
}

/// What the agent holds: visible state, identity, and the bearer token of the
/// most recent successful login.
#[verifier::ext_equal]
pub struct AgentView {
    pub state: LifecycleState,
    pub identity: Option<IdentityView>,
    pub token: Option<Seq<char>>,
}

/// What the enforcer holds.
pub struct EnforcerView {
    pub enabled: bool,
    pub guard_started: bool,
}

/// Agent and enforcer together.
#[verifier::ext_equal]
pub struct Machine {
    pub agent: AgentView,
    pub enforcer: EnforcerView,
}

/// One outcome handed to the state machine.
pub enum Event {
    /// The backend accepted the registration and assigned this identity.
    RegistrationSucceeded(IdentityView),
    /// The registration attempt failed.
    RegistrationFailed,
    /// The backend acknowledged a heartbeat.
    HeartbeatSucceeded,
    /// A heartbeat failed.
    HeartbeatFailed,
    /// The backend authenticated a user and started a session; the token is
    /// the user's bearer credential.
    LoginSucceeded(Seq<char>),
    /// The process was told to shut down.
    Shutdown,
}

/// The four kinds of transition that touch enforcement.
pub enum Affecting {
    RegistrationSuccess,
    HeartbeatRecovery,
    LoginSuccess,
    Shutdown,
}

impl EnforcerAction {
    /// The enforcement flag after this action.
    pub open spec fn apply(self, enabled: bool) -> bool {
        match self {
            EnforcerAction::Keep => enabled,
            EnforcerAction::Enable => true,
            EnforcerAction::Disable => false,
        }
    }
}

impl EnforcerView {
    /// The enforcer after the flag was set.
    pub open spec fn with_mode(self, enabled: bool) -> EnforcerView {
        EnforcerView { enabled, guard_started: self.guard_started }
    }

    /// The enforcer after a transition's action.
    pub open spec fn after(self, action: EnforcerAction) -> EnforcerView {
        self.with_mode(action.apply(self.enabled))
    }
}

impl AgentView {
    /// The agent of a fresh process.
    pub open spec fn initial() -> AgentView {
        AgentView { state: LifecycleState::Unregistered, identity: None, token: None }
    }

    /// What every reachable agent satisfies: an identity implies a state past
    /// `Unregistered`, a token implies an identity, and an active session
    /// implies a token.
    pub open spec fn consistent(self) -> bool {
        &&& self.identity is Some ==> !(self.state is Unregistered)
        &&& self.token is Some ==> self.identity is Some
        &&& self.state is SessionActive ==> self.token is Some
    }

    /// The agent after an event.
    ///
    /// A registration takes effect only while no identity exists: the
    /// identity is assigned once. A login takes effect only once an identity
    /// exists. Shutdown ends the run and leaves the agent as it was.
    pub open spec fn after(self, event: Event) -> AgentView {
        match event {
            Event::RegistrationSucceeded(identity) => if self.identity is None {
                AgentView {
                    state: LifecycleState::Online,
                    identity: Some(identity),
                    token: self.token,
                }
            } else {
                self
            },
            Event::RegistrationFailed => self,
            Event::HeartbeatSucceeded => AgentView {
                state: self.state.after_heartbeat(true),
                ..self
            },
            Event::HeartbeatFailed => AgentView { state: self.state.after_heartbeat(false), ..self },
            Event::LoginSucceeded(token) => if self.identity is Some {
                AgentView {
                    state: LifecycleState::SessionActive,
                    identity: self.identity,
                    token: Some(token),
                }
            } else {
                self
            },
            Event::Shutdown => self,
        }
    }

    /// What an event asks of the enforcer.
    pub open spec fn action(self, event: Event) -> EnforcerAction {
        match event {
            Event::RegistrationSucceeded(_) => if self.identity is None {
                EnforcerAction::Enable
            } else {
                EnforcerAction::Keep
            },
            Event::RegistrationFailed => EnforcerAction::Keep,
            Event::HeartbeatSucceeded => self.state.heartbeat_action(true),
            Event::HeartbeatFailed => self.state.heartbeat_action(false),
            Event::LoginSucceeded(_) => if self.identity is Some {
                EnforcerAction::Disable
            } else {
                EnforcerAction::Keep
            },
            Event::Shutdown => EnforcerAction::Disable,
        }
    }

    /// Which kind of enforcement-affecting transition an event is in this
    /// state, if any.
    pub open spec fn affecting(self, event: Event) -> Option<Affecting> {
        if event is RegistrationSucceeded && self.identity is None {
            Some(Affecting::RegistrationSuccess)
        } else if event is HeartbeatSucceeded && (self.state is Disconnected
            || self.state is Unregistered) {
            Some(Affecting::HeartbeatRecovery)
        } else if event is LoginSucceeded && self.identity is Some {
            Some(Affecting::LoginSuccess)
        } else if event is Shutdown {
            Some(Affecting::Shutdown)
        } else {
            None
        }
    }
}

/// The events of a run of heartbeats, `true` for each acknowledgement.
pub open spec fn heartbeat_events(outcomes: Seq<bool>) -> Seq<Event> {
    Seq::new(
        outcomes.len(),
        |i: int|
            if outcomes[i] {
                Event::HeartbeatSucceeded
            } else {
                Event::HeartbeatFailed
            },
    )
}

impl Machine {
    /// The machine of a fresh process.
    pub open spec fn initial() -> Machine {
        Machine {
            agent: AgentView::initial(),
            enforcer: EnforcerView { enabled: false, guard_started: false },
        }
    }

    /// One transition.
    pub open spec fn step(self, event: Event) -> Machine {
        Machine {
            agent: self.agent.after(event),
            enforcer: self.enforcer.after(self.agent.action(event)),
        }
    }

    /// The machine after a sequence of events, first event first.
    pub open spec fn run(self, events: Seq<Event>) -> Machine
        decreases events.len(),
    {
        if events.len() == 0 {
            self
        } else {
            self.run(events.drop_last()).step(events.last())
        }
    }

    /// The kind of the most recent transition of a run that affected
    /// enforcement, if any did.
    pub open spec fn most_recent_affecting(self, events: Seq<Event>) -> Option<Affecting>
        decreases events.len(),
    {
        if events.len() == 0 {
            None
        } else {
            match self.run(events.drop_last()).agent.affecting(events.last()) {
                Some(kind) => Some(kind),
                None => self.most_recent_affecting(events.drop_last()),
            }
        }
    }
}

/// A transition asks for lockdown exactly when it is a registration success
/// or a heartbeat recovery, and lifts it exactly when it is a login success
/// or a shutdown.
pub proof fn action_matches_kind(agent: AgentView, event: Event)
    ensures
        agent.action(event) is Enable <==> (agent.affecting(event) matches Some(kind) && (kind
            is RegistrationSuccess || kind is HeartbeatRecovery)),
        agent.action(event) is Disable <==> (agent.affecting(event) matches Some(kind) && (kind
            is LoginSuccess || kind is Shutdown)),
        agent.action(event) is Keep <==> agent.affecting(event) is None,
{
}

/// After any run, enforcement is on if and only if the most recent
/// enforcement-affecting transition was a registration success or a heartbeat
/// recovery, and off if and only if it was a login success or a shutdown.
/// A run without such a transition leaves enforcement as it found it.
pub proof fn enforcement_follows_most_recent_transition(start: Machine, events: Seq<Event>)
    ensures
        match start.most_recent_affecting(events) {
            Some(Affecting::RegistrationSuccess) | Some(Affecting::HeartbeatRecovery) => start.run(
                events,
            ).enforcer.enabled,
            Some(Affecting::LoginSuccess) | Some(Affecting::Shutdown) => !start.run(
                events,
            ).enforcer.enabled,
            None => start.run(events).enforcer.enabled == start.enforcer.enabled,
        },
        start.run(events).enforcer.guard_started == start.enforcer.guard_started,
    decreases events.len(),
{
    if events.len() > 0 {
        enforcement_follows_most_recent_transition(start, events.drop_last());
        action_matches_kind(start.run(events.drop_last()).agent, events.last());
    }
}

/// Over any run of heartbeats the visible state after a failure is
/// `Disconnected`, and after an acknowledgement it is `Online`, unless a
/// session was active at the start and every heartbeat of the run was
/// acknowledged, in which case it is still `SessionActive`. Identity and
/// token are untouched.
pub proof fn heartbeats_settle_state(start: Machine, outcomes: Seq<bool>)
    ensures
        outcomes.len() > 0 && !outcomes.last() ==> start.run(
            heartbeat_events(outcomes),
        ).agent.state is Disconnected,
        outcomes.len() > 0 && outcomes.last() ==> start.run(
            heartbeat_events(outcomes),
        ).agent.state == if start.agent.state is SessionActive && (forall|i: int|
            0 <= i < outcomes.len() ==> outcomes[i]) {
            LifecycleState::SessionActive
        } else {
            LifecycleState::Online
        },
        start.run(heartbeat_events(outcomes)).agent.identity == start.agent.identity,
        start.run(heartbeat_events(outcomes)).agent.token == start.agent.token,
    decreases outcomes.len(),
{
    let events = heartbeat_events(outcomes);
    if outcomes.len() > 0 {
        let earlier = outcomes.drop_last();
        assert(events.drop_last() =~= heartbeat_events(earlier));
        heartbeats_settle_state(start, earlier);
        if outcomes.last() && earlier.len() > 0 {
            if start.agent.state is SessionActive && (forall|i: int|
                0 <= i < earlier.len() ==> earlier[i]) {
                assert forall|i: int| 0 <= i < outcomes.len() implies outcomes[i] by {
                    if i < earlier.len() {
                        assert(earlier[i]);
                    }
                }
            } else if earlier.last() {
                if start.agent.state is SessionActive {
                    let i = choose|i: int| 0 <= i < earlier.len() && !earlier[i];
                    assert(!outcomes[i]);
                }
            } else {
                assert(!outcomes[earlier.len() - 1]);
            }
        }
    }
}

/// Every run keeps an agent consistent, and an identity, once assigned, is
/// never replaced.
pub proof fn runs_keep_agents_consistent(start: Machine, events: Seq<Event>)
    requires
        start.agent.consistent(),
    ensures
        start.run(events).agent.consistent(),
        start.agent.identity is Some ==> start.run(events).agent.identity == start.agent.identity,
    decreases events.len(),
{
    if events.len() > 0 {
        runs_keep_agents_consistent(start, events.drop_last());
    }
}

} // verus!
