//! The local control service: the status read and the login, as the
//! companion interface on the same host asks for them.
//!
//! A login runs in two steps, with a network call after each. The caller
//! sends [`login_call`] and hands the reply to [`authorize_session`]; it sends
//! the session call that comes back and hands that reply to
//! [`complete_login`], which alone changes the agent.

use vstd::prelude::*;
use crate::agent::{machine, policy_for, Agent};
use crate::backend::{is_success, is_success_status, Ack, Config, Reply};
use crate::enforcer::{Enforcer, PolicyWrite};
use crate::lifecycle::LifecycleState;
use crate::machine::{AgentView, Event, Machine};

verus! {

/// A JSON value of the `serde_json` crate. The library carries such values
/// through and never looks inside one.
#[verifier::external_type_specification]
#[verifier::external_body]
pub struct ExJsonValue(serde_json::Value);

/// The credentials that the companion interface hands over.
#[derive(Clone, Debug, PartialEq, Eq)]
pub struct LoginRequest {
    pub identifier: String,
    pub password: String,
}

/// What the backend returns for a successful authentication, and what a
/// successful login returns to its caller.
#[derive(Debug, PartialEq, Eq)]
pub struct LoginResponse {
    /// The bearer credential of the user.
    pub access_token: String,
    /// The backend's description of the user.
    pub user: serde_json::Value,
}

/// The body of a session start.
#[derive(Clone, Debug, PartialEq, Eq)]
pub struct StartSessionRequest {
    pub pc_id: String,
    pub pricing_type: String,
}

/// A `POST` that authenticates a user.
#[derive(Clone, Debug, PartialEq, Eq)]
pub struct AuthCall {
    pub url: String,
    pub body: LoginRequest,
}

/// A `POST` that starts a session on one terminal.
#[derive(Clone, Debug, PartialEq, Eq)]
pub struct SessionCall {
    pub url: String,
    /// The value of the `Authorization` header.
    pub authorization: String,
    pub body: StartSessionRequest,
}

/// A login that has passed authentication and waits for its session.
#[derive(Debug, PartialEq, Eq)]
pub struct PendingLogin {
    /// The call that starts the session.
    pub call: SessionCall,
    /// The backend's login payload, returned to the caller once the session
    /// has started.
    pub payload: LoginResponse,
}

/// Why a login was refused. No refusal changes the agent.
#[derive(Clone, Copy, Debug, PartialEq, Eq)]
pub enum LoginError {
    /// The authentication request did not get through.
    Unreachable,
    /// The backend refused the credentials.
    Unauthorized,
    /// The backend accepted the credentials, but its payload could not be read.
    MalformedResponse,
    /// The terminal has no identity yet.
    NotRegistered,
    /// The session request did not get through.
    SessionStartFailed,
    /// The backend refused to start the session.
    SessionStartRefused,
}

/// How a login ended.
#[derive(Debug, PartialEq, Eq)]
pub struct LoginOutcome {
    /// The backend's login payload, or the reason for the refusal.
    pub result: Result<LoginResponse, LoginError>,
    /// The policy write that a successful login owes.
    pub policy: Option<PolicyWrite>,
}

/// The answer to a status read.
#[derive(Clone, Debug, PartialEq, Eq)]
pub struct StatusReport {
    /// The label of the visible state; absent while unregistered.
    pub status: Option<String>,
    /// The time of the read, RFC 3339, in UTC.
    pub timestamp: String,
}

impl LoginError {
    /// The HTTP status under which the refusal is reported: 502 where the
    /// backend was unreachable, 401 where it refused the credentials, and 500
    /// for everything else.
    pub open spec fn status(self) -> u16 {
        match self {
            LoginError::Unreachable => 502,
            LoginError::Unauthorized => 401,
            _ => 500,
        }
    }

    /// The text that is reported with the refusal.
    pub open spec fn text(self) -> Seq<char> {
        match self {
            LoginError::Unreachable => "Backend unreachable"@,
            LoginError::Unauthorized => "Invalid credentials"@,
            LoginError::MalformedResponse => "Invalid backend response"@,
            LoginError::NotRegistered => "Agent not registered"@,
            LoginError::SessionStartFailed => "Failed to start session"@,
            LoginError::SessionStartRefused => "Backend refused session"@,
        }
    }

    /// The HTTP status under which the refusal is reported.
    pub fn status_code(&self) -> (code: u16)
        ensures
            code == self.status(),
    {
        match self {
            LoginError::Unreachable => 502,
            LoginError::Unauthorized => 401,
            LoginError::MalformedResponse => 500,
            LoginError::NotRegistered => 500,
            LoginError::SessionStartFailed => 500,
            LoginError::SessionStartRefused => 500,
        }
    }

    /// The text that is reported with the refusal.
    pub fn message(&self) -> (message: &'static str)
        ensures
            message@ == self.text(),
    {
        match self {
            LoginError::Unreachable => "Backend unreachable",
            LoginError::Unauthorized => "Invalid credentials",
            LoginError::MalformedResponse => "Invalid backend response",
            LoginError::NotRegistered => "Agent not registered",
            LoginError::SessionStartFailed => "Failed to start session",
            LoginError::SessionStartRefused => "Backend refused session",
        }
    }
}

/// The text of an optional string.
pub open spec fn text_of(text: Option<String>) -> Option<Seq<char>> {
    match text {
        Some(text) => Some(text@),
        None => None,
    }
}

/// The RFC 3339 text, in UTC, of the instant `secs` seconds and `nanos`
/// nanoseconds after the Unix epoch, as the `chrono` crate writes it; `None`
/// for an instant that `chrono` cannot represent.
pub uninterp spec fn rfc3339_utc(secs: i64, nanos: u32) -> Option<Seq<char>>;

/// Formats an instant with `chrono`: `DateTime::from_timestamp`, which returns
/// `None` for seconds out of its range or an invalid nanosecond, followed by
/// `DateTime::to_rfc3339`. Nothing is claimed beyond that the text depends on
/// the two numbers alone.
#[verifier::external_body]
fn format_rfc3339(secs: i64, nanos: u32) -> (text: Option<String>)
    ensures
        text_of(text) == rfc3339_utc(secs, nanos),
{
    chrono::DateTime::from_timestamp(secs, nanos).map(|instant| instant.to_rfc3339())
}

impl StatusReport {
    /// The report of `state`, read at the instant that `timestamp` names.
    pub open spec fn is_report(&self, state: LifecycleState, timestamp: Seq<char>) -> bool {
        &&& text_of(self.status) == state.label()
        &&& self.timestamp@ == timestamp
    }
}

/// The report of a state under a timestamp that the caller has formatted.
pub fn status_report(state: LifecycleState, timestamp: String) -> (report: StatusReport)
    ensures
        report.is_report(state, timestamp@),
{
    let status = match state.status_label() {
        Some(label) => Some(String::from_str(label)),
        None => None,
    };
    StatusReport { status, timestamp }
}

/// Answers a status read made at `unix_secs` seconds and `nanos` nanoseconds
/// after the Unix epoch. The agent is only read. There is no report for an
/// instant that cannot be written as a timestamp.
pub fn get_status(agent: &Agent, unix_secs: i64, nanos: u32) -> (report: Option<StatusReport>)
    ensures
        match rfc3339_utc(unix_secs, nanos) {
            Some(timestamp) => report matches Some(found) && found.is_report(
                agent@.state,
                timestamp,
            ),
            None => report is None,
        },
{
    match format_rfc3339(unix_secs, nanos) {
        Some(timestamp) => Some(status_report(agent.state(), timestamp)),
        None => None,
    }
}

/// The address that credentials are posted to.
pub open spec fn auth_url(server_url: Seq<char>) -> Seq<char> {
    server_url + "/auth/login"@
}

/// The address that session starts are posted to.
pub open spec fn session_url(server_url: Seq<char>) -> Seq<char> {
    server_url + "/sessions/start"@
}

impl SessionCall {
    /// The one session start for this terminal and this bearer token: an open
    /// session, the default pricing mode.
    pub open spec fn is_for(&self, config: &Config, pc_id: Seq<char>, token: Seq<char>) -> bool {
        &&& self.url@ == session_url(config.server_url@)
        &&& self.authorization@ == "Bearer "@ + token
        &&& self.body.pc_id@ == pc_id
        &&& self.body.pricing_type@ == "OPEN"@
    }
}

/// The call that forwards the credentials to the backend, unchanged.
pub fn login_call(config: &Config, request: LoginRequest) -> (call: AuthCall)
    ensures
        call.url@ == auth_url(config.server_url@),
        call.body == request,
{
    let mut url = config.server_url.clone();
    url.append("/auth/login");
    AuthCall { url, body: request }
}

/// What an authentication reply amounts to: the payload where the backend
/// accepted the credentials and sent one.
pub open spec fn auth_outcome(reply: Reply<LoginResponse>) -> Result<LoginResponse, LoginError> {
    match reply {
        Reply::Unreachable => Err(LoginError::Unreachable),
        Reply::Responded { status, body } => if !is_success_status(status) {
            Err(LoginError::Unauthorized)
        } else {
            match body {
                Some(payload) => Ok(payload),
                None => Err(LoginError::MalformedResponse),
            }
        },
    }
}

/// Whether a login may go on to start a session: the authentication must
/// have succeeded, and the agent must hold an identity.
pub open spec fn session_gate(agent: AgentView, reply: Reply<LoginResponse>) -> Result<
    LoginResponse,
    LoginError,
> {
    match auth_outcome(reply) {
        Err(error) => Err(error),
        Ok(payload) => if agent.identity is Some {
            Ok(payload)
        } else {
            Err(LoginError::NotRegistered)
        },
    }
}

/// What a session reply amounts to: the refusal, if it is one.
pub open spec fn session_refusal(reply: Ack) -> Option<LoginError> {
    match reply {
        Ack::Unreachable => Some(LoginError::SessionStartFailed),
        Ack::Responded { status } => if is_success_status(status) {
            None
        } else {
            Some(LoginError::SessionStartRefused)
        },
    }
}

/// How a login that passed authentication ends: with the payload where the
/// agent holds an identity and the session was started.
pub open spec fn login_conclusion(agent: AgentView, payload: LoginResponse, reply: Ack) -> Result<
    LoginResponse,
    LoginError,
> {
    if agent.identity is None {
        Err(LoginError::NotRegistered)
    } else {
        match session_refusal(reply) {
            Some(error) => Err(error),
            None => Ok(payload),
        }
    }
}

/// The result of a whole login, from the two replies.
pub open spec fn login_result(agent: AgentView, auth: Reply<LoginResponse>, session: Ack) -> Result<
    LoginResponse,
    LoginError,
> {
    match session_gate(agent, auth) {
        Err(error) => Err(error),
        Ok(payload) => login_conclusion(agent, payload, session),
    }
}

/// The machine after a whole login: one `LoginSucceeded` transition where the
/// login succeeded, and no change at all where it was refused.
pub open spec fn after_login(start: Machine, auth: Reply<LoginResponse>, session: Ack) -> Machine {
    match login_result(start.agent, auth, session) {
        Ok(payload) => start.step(Event::LoginSucceeded(payload.access_token@)),
        Err(_) => start,
    }
}

/// Reads the authentication reply and decides whether a session may be
/// started.
///
/// An unreachable backend, refused credentials and an unreadable payload end
/// the login, in this order of precedence; so does an agent without
/// identity. Otherwise the session call for this terminal comes back,
/// authorized by the fresh token. The agent is only read.
pub fn authorize_session(agent: &Agent, config: &Config, reply: Reply<LoginResponse>) -> (pending:
    Result<PendingLogin, LoginError>)
    ensures
        match session_gate(agent@, reply) {
            Ok(payload) => {
                &&& pending matches Ok(found)
                &&& found.payload == payload
                &&& agent@.identity matches Some(identity)
                &&& found.call.is_for(config, identity.id, payload.access_token@)
            },
            Err(error) => pending == Err::<PendingLogin, LoginError>(error),
        },
{
    let payload = match reply {
        Reply::Unreachable => { return Err(LoginError::Unreachable); },
        Reply::Responded { status, body } => {
            if !is_success(status) {
                return Err(LoginError::Unauthorized);
            }
            match body {
                Some(payload) => payload,
                None => { return Err(LoginError::MalformedResponse); },
            }
        },
    };
    match agent.identity() {
        None => Err(LoginError::NotRegistered),
        Some(identity) => {
            let mut url = config.server_url.clone();
            url.append("/sessions/start");
            let mut authorization = String::from_str("Bearer ");
            authorization.append(payload.access_token.as_str());
            let call = SessionCall {
                url,
                authorization,
                body: StartSessionRequest {
                    pc_id: identity.id.clone(),
                    pricing_type: String::from_str("OPEN"),
                },
            };
            Ok(PendingLogin { call, payload })
        },
    }
}

/// Reads the session reply and ends the login.
///
/// Where the session was started, the token is stored, the state becomes
/// `SessionActive`, lockdown is lifted and the payload is returned. A session
/// that failed or was refused leaves agent and enforcer exactly as they
/// were, and the token is not stored.
pub fn complete_login(
    agent: &mut Agent,
    enforcer: &mut Enforcer,
    payload: LoginResponse,
    reply: Ack,
) -> (outcome: LoginOutcome)
    ensures
        outcome.result == login_conclusion(old(agent)@, payload, reply),
        machine(final(agent), final(enforcer)) == if outcome.result is Ok {
            machine(old(agent), old(enforcer)).step(Event::LoginSucceeded(payload.access_token@))
        } else {
            machine(old(agent), old(enforcer))
        },
        outcome.policy == if outcome.result is Ok {
            policy_for(old(agent)@.action(Event::LoginSucceeded(payload.access_token@)))
        } else {
            None
        },
{
    if agent.identity().is_none() {
        return LoginOutcome { result: Err(LoginError::NotRegistered), policy: None };
    }
    match reply {
        Ack::Unreachable => LoginOutcome {
            result: Err(LoginError::SessionStartFailed),
            policy: None,
        },
        Ack::Responded { status } => {
            if !is_success(status) {
                LoginOutcome { result: Err(LoginError::SessionStartRefused), policy: None }
            } else {
                let policy = agent.on_login(enforcer, payload.access_token.clone());
                LoginOutcome { result: Ok(payload), policy }
            }
        },
    }
}

/// A login made while the agent holds no identity, and whose credentials the
/// backend accepted, is refused as not registered, whatever the session reply
/// would have been, and changes nothing.
pub proof fn login_without_identity_is_refused(
    start: Machine,
    auth: Reply<LoginResponse>,
    session: Ack,
)
    requires
        start.agent.identity is None,
        auth_outcome(auth) is Ok,
    ensures
        login_result(start.agent, auth, session) == Err::<LoginResponse, LoginError>(
            LoginError::NotRegistered,
        ),
        after_login(start, auth, session) == start,
{
}

/// A refused login changes nothing, whatever the reason; a successful one
/// returns the backend's payload, stores its token, records `SessionActive`
/// and lifts the lockdown.
pub proof fn login_changes_state_only_on_success(
    start: Machine,
    auth: Reply<LoginResponse>,
    session: Ack,
)
    ensures
        login_result(start.agent, auth, session) is Err ==> after_login(start, auth, session)
            == start,
        login_result(start.agent, auth, session) matches Ok(payload) ==> {
            &&& auth_outcome(auth) == Ok::<LoginResponse, LoginError>(payload)
            &&& after_login(start, auth, session).agent.state is SessionActive
            &&& after_login(start, auth, session).agent.token == Some(payload.access_token@)
            &&& after_login(start, auth, session).agent.identity == start.agent.identity
            &&& !after_login(start, auth, session).enforcer.enabled
        },
{
}

} // verus!
