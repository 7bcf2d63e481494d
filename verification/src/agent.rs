//! The agent state machine: the one owner and only writer of the lifecycle
//! state, the identity and the session token.
//!
//! Each transition takes the enforcer, applies to it what the transition
//! table asks, and returns the policy write that the caller owes the
//! operating system.

use vstd::prelude::*;
use crate::backend::{final_status_call, Config, HeartbeatCall, HeartbeatError, RegistrationError};
use crate::enforcer::{set_kiosk_mode, task_mgr_policy, Enforcer, PolicyWrite};
use crate::lifecycle::{EnforcerAction, LifecycleState};
use crate::machine::{AgentView, Event, IdentityView, Machine};

verus! {

/// The identity that the backend assigned at registration.
#[derive(Clone, Debug, PartialEq, Eq)]
pub struct AgentIdentity {
    /// The identifier under which the backend knows this terminal.
    pub id: String,
    /// The display name.
    pub name: String,
    /// The zone that the terminal was placed in.
    pub zone_id: String,
}

impl View for AgentIdentity {
    type V = IdentityView;

    open spec fn view(&self) -> IdentityView {
        IdentityView { id: self.id@, name: self.name@, zone_id: self.zone_id@ }
    }
}

/// The state record of one agent.
#[derive(Debug)]
pub struct Agent {
    state: LifecycleState,
    identity: Option<AgentIdentity>,
    token: Option<String>,
}

impl View for Agent {
    type V = AgentView;

    closed spec fn view(&self) -> AgentView {
        AgentView {
            state: self.state,
            identity: match self.identity {
                Some(identity) => Some(identity@),
                None => None,
            },
            token: match self.token {
                Some(token) => Some(token@),
                None => None,
            },
        }
    }
}

/// What the main loop does on a tick.
#[derive(Clone, Debug, PartialEq, Eq)]
pub enum TickAction {
    /// No identity yet: attempt a registration.
    Register,
    /// Send a heartbeat for the terminal with this identifier.
    Heartbeat { pc_id: String },
}

/// What the caller owes at shutdown, in this order: the notice, if any, sent
/// without waiting on its outcome; then the policy write.
#[derive(Clone, Debug, PartialEq, Eq)]
pub struct ShutdownPlan {
    /// The offline notice; absent where the terminal never registered.
    pub notice: Option<HeartbeatCall>,
    /// The write that gives the task manager back.
    pub policy: PolicyWrite,
}

/// Agent and enforcer as one machine.
pub open spec fn machine(agent: &Agent, enforcer: &Enforcer) -> Machine {
    Machine { agent: agent@, enforcer: enforcer@ }
}

/// The policy write that an action owes: none where enforcement is kept.
pub open spec fn policy_for(action: EnforcerAction) -> Option<PolicyWrite> {
    match action {
        EnforcerAction::Keep => None,
        EnforcerAction::Enable => Some(task_mgr_policy(false)),
        EnforcerAction::Disable => Some(task_mgr_policy(true)),
    }
}

/// The event that a registration outcome is.
pub open spec fn registration_event(outcome: Result<AgentIdentity, RegistrationError>) -> Event {
    match outcome {
        Ok(identity) => Event::RegistrationSucceeded(identity@),
        Err(_) => Event::RegistrationFailed,
    }
}

/// The event that a heartbeat outcome is.
pub open spec fn heartbeat_event(outcome: Result<(), HeartbeatError>) -> Event {
    match outcome {
        Ok(_) => Event::HeartbeatSucceeded,
        Err(_) => Event::HeartbeatFailed,
    }
}

/// Applies a transition's action to the enforcer.
fn enforce(enforcer: &mut Enforcer, action: EnforcerAction) -> (write: Option<PolicyWrite>)
    ensures
        final(enforcer)@ == old(enforcer)@.after(action),
        write == policy_for(action),
{
    match action {
        EnforcerAction::Keep => None,
        EnforcerAction::Enable => Some(set_kiosk_mode(enforcer, true)),
        EnforcerAction::Disable => Some(set_kiosk_mode(enforcer, false)),
    }
}

impl Agent {
    /// The agent of a fresh process: unregistered, without identity or token.
    pub fn new() -> (agent: Agent)
        ensures
            agent@ == AgentView::initial(),
    {
        Agent { state: LifecycleState::Unregistered, identity: None, token: None }
    }

    /// The visible state.
    pub fn state(&self) -> (state: LifecycleState)
        ensures
            state == self@.state,
    {
        self.state
    }

    /// The identity, once a registration has succeeded.
    pub fn identity(&self) -> (identity: Option<&AgentIdentity>)
        ensures
            match identity {
                Some(found) => self@.identity == Some(found@),
                None => self@.identity is None,
            },
    {
        self.identity.as_ref()
    }

    /// The bearer token of the most recent successful login.
    pub fn token(&self) -> (token: Option<&String>)
        ensures
            match token {
                Some(found) => self@.token == Some(found@),
                None => self@.token is None,
            },
    {
        self.token.as_ref()
    }

    /// What to do on a tick: register while no identity exists, and send a
    /// heartbeat for it afterwards.
    pub fn on_tick(&self) -> (action: TickAction)
        ensures
            match action {
                TickAction::Register => self@.identity is None,
                TickAction::Heartbeat { pc_id } => self@.identity matches Some(identity)
                    && pc_id@ == identity.id,
            },
    {
        match &self.identity {
            None => TickAction::Register,
            Some(identity) => TickAction::Heartbeat { pc_id: identity.id.clone() },
        }
    }

    /// Takes the outcome of a registration attempt.
    ///
    /// The first success assigns the identity, records `Online` and enables
    /// lockdown. A failure changes nothing, and neither does a success that
    /// arrives once an identity exists.
    pub fn on_registration(
        &mut self,
        enforcer: &mut Enforcer,
        outcome: Result<AgentIdentity, RegistrationError>,
    ) -> (write: Option<PolicyWrite>)
        ensures
            machine(final(self), final(enforcer)) == machine(old(self), old(enforcer)).step(
                registration_event(outcome),
            ),
            write == policy_for(old(self)@.action(registration_event(outcome))),
    {
        match outcome {
            Ok(identity) => {
                if self.identity.is_none() {
                    self.identity = Some(identity);
                    self.state = LifecycleState::Online;
                    enforce(enforcer, EnforcerAction::Enable)
                } else {
                    None
                }
            },
            Err(_) => None,
        }
    }

    /// Takes the outcome of a heartbeat.
    ///
    /// A failure records `Disconnected` and leaves enforcement alone. An
    /// acknowledgement records `Online` unless a session is active, and
    /// enables lockdown where it ends a disconnection.
    pub fn on_heartbeat(&mut self, enforcer: &mut Enforcer, outcome: Result<(), HeartbeatError>) -> (write:
        Option<PolicyWrite>)
        ensures
            machine(final(self), final(enforcer)) == machine(old(self), old(enforcer)).step(
                heartbeat_event(outcome),
            ),
            write == policy_for(old(self)@.action(heartbeat_event(outcome))),
    {
        let (state, action) = self.state.on_heartbeat(outcome.is_ok());
        self.state = state;
        enforce(enforcer, action)
    }

    /// Takes a login whose session the backend has started.
    ///
    /// Stores the token, records `SessionActive` and lifts the lockdown,
    /// whatever the state was: of two logins the later one decides. Without
    /// an identity nothing changes.
    pub fn on_login(&mut self, enforcer: &mut Enforcer, token: String) -> (write: Option<PolicyWrite>)
        ensures
            machine(final(self), final(enforcer)) == machine(old(self), old(enforcer)).step(
                Event::LoginSucceeded(token@),
            ),
            write == policy_for(old(self)@.action(Event::LoginSucceeded(token@))),
    {
        if self.identity.is_some() {
            self.token = Some(token);
            self.state = LifecycleState::SessionActive;
            enforce(enforcer, EnforcerAction::Disable)
        } else {
            None
        }
    }

    /// Ends the run. Lockdown is lifted unconditionally, and a registered
    /// terminal owes the backend an `OFFLINE` notice.
    pub fn on_shutdown(self, enforcer: &mut Enforcer, config: &Config) -> (plan: ShutdownPlan)
        ensures
            final(enforcer)@ == machine(&self, old(enforcer)).step(Event::Shutdown).enforcer,
            !final(enforcer)@.enabled,
            Some(plan.policy) == policy_for(self@.action(Event::Shutdown)),
            match self@.identity {
                Some(identity) => plan.notice matches Some(call) && call.is_final(
                    config,
                    identity.id,
                    "OFFLINE"@,
                ),
                None => plan.notice is None,
            },
    {
        let notice = match &self.identity {
            Some(identity) => Some(final_status_call(config, identity.id.as_str(), "OFFLINE")),
            None => None,
        };
        let policy = set_kiosk_mode(enforcer, false);
        ShutdownPlan { notice, policy }
    }
}

} // verus!
