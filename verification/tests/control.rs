use agent_service::agent::{Agent, AgentIdentity};
use agent_service::backend::{Ack, Config, HeartbeatError, Reply};
use agent_service::control::{
    authorize_session, complete_login, get_status, login_call, status_report, LoginError,
    LoginRequest, LoginResponse,
};
use agent_service::enforcer::{Enforcer, PolicyWrite};
use agent_service::lifecycle::LifecycleState;

fn config() -> Config {
    Config {
        lan_id: "lan-7".to_string(),
        api_key: "key-123".to_string(),
        server_url: "http://backend.local:3000".to_string(),
        heartbeat_interval: 30,
        ui_path: "C:\\kiosk\\ui.exe".to_string(),
    }
}

fn online() -> (Agent, Enforcer) {
    let mut agent = Agent::new();
    let mut enforcer = Enforcer::new();
    let identity = AgentIdentity {
        id: "pc-1".to_string(),
        name: "Station 1".to_string(),
        zone_id: "zone-a".to_string(),
    };
    agent.on_registration(&mut enforcer, Ok(identity));
    (agent, enforcer)
}

fn payload(token: &str) -> LoginResponse {
    let mut user = serde_json::Map::new();
    user.insert("id".to_string(), serde_json::Value::from(7));
    user.insert("name".to_string(), serde_json::Value::from("Ada"));
    LoginResponse { access_token: token.to_string(), user: serde_json::Value::Object(user) }
}

fn accepted(token: &str) -> Reply<LoginResponse> {
    Reply::Responded { status: 200, body: Some(payload(token)) }
}

#[test]
fn login_call_forwards_the_credentials() {
    let request = LoginRequest { identifier: "ada@example.org".to_string(), password: "pw".to_string() };
    let call = login_call(&config(), request);
    assert_eq!(call.url, "http://backend.local:3000/auth/login");
    assert_eq!(call.body.identifier, "ada@example.org");
    assert_eq!(call.body.password, "pw");
}

#[test]
fn scenario_login_starts_a_session() {
    let (mut agent, mut enforcer) = online();
    assert!(enforcer.is_enabled());
    let pending = authorize_session(&agent, &config(), accepted("tok-abc")).unwrap();
    assert_eq!(pending.call.url, "http://backend.local:3000/sessions/start");
    assert_eq!(pending.call.authorization, "Bearer tok-abc");
    assert_eq!(pending.call.body.pc_id, "pc-1");
    assert_eq!(pending.call.body.pricing_type, "OPEN");
    assert_eq!(agent.state(), LifecycleState::Online);
    let outcome = complete_login(&mut agent, &mut enforcer, pending.payload, Ack::Responded { status: 201 });
    assert_eq!(outcome.result, Ok(payload("tok-abc")));
    assert_eq!(outcome.policy, Some(PolicyWrite { disable_task_mgr: 0 }));
    assert_eq!(agent.state(), LifecycleState::SessionActive);
    assert_eq!(agent.token(), Some(&"tok-abc".to_string()));
    assert!(!enforcer.is_enabled());
}

#[test]
fn scenario_login_with_refused_credentials() {
    let (mut agent, mut enforcer) = online();
    agent.on_heartbeat(&mut enforcer, Err(HeartbeatError::Transport));
    let refused = Reply::Responded { status: 401, body: None };
    assert_eq!(authorize_session(&agent, &config(), refused), Err(LoginError::Unauthorized));
    let refused_with_body = Reply::Responded { status: 403, body: Some(payload("tok")) };
    assert_eq!(authorize_session(&agent, &config(), refused_with_body), Err(LoginError::Unauthorized));
    assert_eq!(agent.state(), LifecycleState::Disconnected);
    assert!(agent.token().is_none());
    assert!(enforcer.is_enabled());
}

#[test]
fn login_with_unreachable_backend() {
    let (agent, _) = online();
    assert_eq!(authorize_session(&agent, &config(), Reply::Unreachable), Err(LoginError::Unreachable));
}

#[test]
fn login_with_unreadable_payload() {
    let (agent, _) = online();
    let reply = Reply::Responded { status: 200, body: None };
    assert_eq!(authorize_session(&agent, &config(), reply), Err(LoginError::MalformedResponse));
}

#[test]
fn login_without_identity_is_not_registered() {
    let mut agent = Agent::new();
    let mut enforcer = Enforcer::new();
    assert_eq!(authorize_session(&agent, &config(), accepted("tok")), Err(LoginError::NotRegistered));
    let outcome = complete_login(&mut agent, &mut enforcer, payload("tok"), Ack::Responded { status: 200 });
    assert_eq!(outcome.result, Err(LoginError::NotRegistered));
    assert_eq!(outcome.policy, None);
    assert_eq!(agent.state(), LifecycleState::Unregistered);
    assert!(agent.token().is_none());
    assert!(agent.identity().is_none());
    assert!(!enforcer.is_enabled());
}

#[test]
fn refused_credentials_take_precedence_over_missing_identity() {
    let agent = Agent::new();
    let refused = Reply::Responded { status: 401, body: None };
    assert_eq!(authorize_session(&agent, &config(), refused), Err(LoginError::Unauthorized));
    assert_eq!(authorize_session(&agent, &config(), Reply::Unreachable), Err(LoginError::Unreachable));
}

#[test]
fn failed_session_start_leaves_the_state() {
    let (mut agent, mut enforcer) = online();
    let outcome = complete_login(&mut agent, &mut enforcer, payload("tok"), Ack::Unreachable);
    assert_eq!(outcome.result, Err(LoginError::SessionStartFailed));
    assert_eq!(outcome.policy, None);
    assert_eq!(agent.state(), LifecycleState::Online);
    assert!(agent.token().is_none());
    assert!(enforcer.is_enabled());
}

#[test]
fn refused_session_start_leaves_the_state() {
    let (mut agent, mut enforcer) = online();
    let outcome = complete_login(&mut agent, &mut enforcer, payload("tok"), Ack::Responded { status: 409 });
    assert_eq!(outcome.result, Err(LoginError::SessionStartRefused));
    assert_eq!(outcome.policy, None);
    assert_eq!(agent.state(), LifecycleState::Online);
    assert!(agent.token().is_none());
    assert!(enforcer.is_enabled());
}

#[test]
fn login_from_disconnected_starts_a_session() {
    let (mut agent, mut enforcer) = online();
    agent.on_heartbeat(&mut enforcer, Err(HeartbeatError::Transport));
    let pending = authorize_session(&agent, &config(), accepted("tok")).unwrap();
    let outcome = complete_login(&mut agent, &mut enforcer, pending.payload, Ack::Responded { status: 200 });
    assert!(outcome.result.is_ok());
    assert_eq!(agent.state(), LifecycleState::SessionActive);
    assert!(!enforcer.is_enabled());
}

#[test]
fn of_two_logins_the_later_decides() {
    let (mut agent, mut enforcer) = online();
    let first = authorize_session(&agent, &config(), accepted("tok-1")).unwrap();
    let second = authorize_session(&agent, &config(), accepted("tok-2")).unwrap();
    complete_login(&mut agent, &mut enforcer, first.payload, Ack::Responded { status: 200 });
    complete_login(&mut agent, &mut enforcer, second.payload, Ack::Responded { status: 200 });
    assert_eq!(agent.token(), Some(&"tok-2".to_string()));
    assert_eq!(agent.state(), LifecycleState::SessionActive);
    assert!(!enforcer.is_enabled());
}

#[test]
fn login_errors_map_to_http() {
    assert_eq!(LoginError::Unreachable.status_code(), 502);
    assert_eq!(LoginError::Unauthorized.status_code(), 401);
    assert_eq!(LoginError::MalformedResponse.status_code(), 500);
    assert_eq!(LoginError::NotRegistered.status_code(), 500);
    assert_eq!(LoginError::SessionStartFailed.status_code(), 500);
    assert_eq!(LoginError::SessionStartRefused.status_code(), 500);
    assert_eq!(LoginError::Unreachable.message(), "Backend unreachable");
    assert_eq!(LoginError::Unauthorized.message(), "Invalid credentials");
    assert_eq!(LoginError::MalformedResponse.message(), "Invalid backend response");
    assert_eq!(LoginError::NotRegistered.message(), "Agent not registered");
    assert_eq!(LoginError::SessionStartFailed.message(), "Failed to start session");
    assert_eq!(LoginError::SessionStartRefused.message(), "Backend refused session");
}

#[test]
fn status_labels() {
    assert_eq!(LifecycleState::Unregistered.status_label(), None);
    assert_eq!(LifecycleState::Online.status_label(), Some("ONLINE"));
    assert_eq!(LifecycleState::SessionActive.status_label(), Some("SESSION_ACTIVE"));
    assert_eq!(LifecycleState::Disconnected.status_label(), Some("DISCONNECTED"));
}

#[test]
fn status_report_keeps_the_timestamp() {
    let report = status_report(LifecycleState::Disconnected, "2024-05-01T10:00:00+00:00".to_string());
    assert_eq!(report.status, Some("DISCONNECTED".to_string()));
    assert_eq!(report.timestamp, "2024-05-01T10:00:00+00:00");
}

#[test]
fn status_of_a_fresh_agent_is_null() {
    let agent = Agent::new();
    let report = get_status(&agent, 0, 0).unwrap();
    assert_eq!(report.status, None);
    assert_eq!(report.timestamp, "1970-01-01T00:00:00+00:00");
}

#[test]
fn status_read_formats_the_instant() {
    let (mut agent, mut enforcer) = online();
    let report = get_status(&agent, 1_700_000_000, 123_000_000).unwrap();
    assert_eq!(report.status, Some("ONLINE".to_string()));
    assert_eq!(report.timestamp, "2023-11-14T22:13:20.123+00:00");
    agent.on_login(&mut enforcer, "tok".to_string());
    let report = get_status(&agent, 1_700_000_000, 0).unwrap();
    assert_eq!(report.status, Some("SESSION_ACTIVE".to_string()));
    assert_eq!(report.timestamp, "2023-11-14T22:13:20+00:00");
    assert_eq!(agent.state(), LifecycleState::SessionActive);
}

#[test]
fn status_read_outside_the_calendar_has_no_report() {
    let agent = Agent::new();
    assert_eq!(get_status(&agent, i64::MAX, 0), None);
    assert_eq!(get_status(&agent, 0, 3_000_000_000), None);
}
