//! The backend client, without the network: the calls that the agent makes
//! and the typed outcome of each reply.
//!
//! A call is a value that names the address, the credential and the body of
//! one request. The caller sends it and hands back what came: no reply at
//! all, or a status code with the decoded body.

use vstd::prelude::*;
use crate::agent::AgentIdentity;

verus! {

/// The settings of one terminal.
#[derive(Clone, Debug, PartialEq, Eq)]
pub struct Config {
    /// The network that the terminal belongs to.
    pub lan_id: String,
    /// The credential sent with registrations and heartbeats.
    pub api_key: String,
    /// The base address of the backend, without a trailing slash.
    pub server_url: String,
    /// Seconds between two ticks.
    pub heartbeat_interval: u64,
    /// The executable of the companion interface.
    pub ui_path: String,
}

/// What identifies the machine on its network.
#[derive(Clone, Debug, PartialEq, Eq)]
pub struct PcMetadata {
    pub mac_address: String,
    pub ip_address: String,
    pub hostname: String,
}

/// The body of a registration.
#[derive(Clone, Debug, PartialEq, Eq)]
pub struct RegisterRequest {
    pub lan_id: String,
    pub mac_address: String,
    pub ip_address: String,
    pub hostname: String,
    pub agent_version: String,
    pub os: String,
}

/// The body of a heartbeat.
#[derive(Clone, Debug, PartialEq, Eq)]
pub struct HeartbeatRequest {
    /// The current network address; empty in the shutdown notice.
    pub ip_address: String,
    /// A status override; absent on every ordinary tick.
    pub status: Option<String>,
}

/// A `POST` that registers the machine.
#[derive(Clone, Debug, PartialEq, Eq)]
pub struct RegisterCall {
    pub url: String,
    /// The value of the `x-api-key` header.
    pub api_key: String,
    pub body: RegisterRequest,
}

/// A `PATCH` on the heartbeat address of one terminal.
#[derive(Clone, Debug, PartialEq, Eq)]
pub struct HeartbeatCall {
    pub url: String,
    /// The value of the `x-api-key` header.
    pub api_key: String,
    pub body: HeartbeatRequest,
}

/// What came back for a call whose reply carries a body.
#[derive(Clone, Debug, PartialEq, Eq)]
pub enum Reply<T> {
    /// The request did not get through, or timed out.
    Unreachable,
    /// The backend answered. `body` is the decoded payload, absent where the
    /// payload was missing or malformed.
    Responded { status: u16, body: Option<T> },
}

/// What came back for a call whose reply is read by its status alone.
#[derive(Clone, Copy, Debug, PartialEq, Eq)]
pub enum Ack {
    /// The request did not get through, or timed out.
    Unreachable,
    /// The backend answered with this status code.
    Responded { status: u16 },
}

/// Why a registration attempt failed. The attempt is repeated on the next
/// tick, whatever the reason.
#[derive(Clone, Copy, Debug, PartialEq, Eq)]
pub enum RegistrationError {
    /// The machine's addresses or name could not be read, so nothing was sent.
    Metadata,
    /// The request did not get through.
    Transport,
    /// The backend answered with a status outside 200..=299.
    Rejected { status: u16 },
    /// The backend accepted, but its payload held no identity.
    Malformed,
}

/// Why a heartbeat failed.
#[derive(Clone, Copy, Debug, PartialEq, Eq)]
pub enum HeartbeatError {
    /// The machine's current address could not be read, so nothing was sent.
    Metadata,
    /// The request did not get through.
    Transport,
    /// The backend answered with a status outside 200..=299.
    Rejected { status: u16 },
}

/// A status code that reports success: 200 to 299.
pub open spec fn is_success_status(status: u16) -> bool {
    200 <= status < 300
}

/// Whether a status code reports success.
pub fn is_success(status: u16) -> (ok: bool)
    ensures
        ok == is_success_status(status),
{
    300 > status && status >= 200
}

/// The address that registrations are posted to.
pub open spec fn register_url(server_url: Seq<char>) -> Seq<char> {
    server_url + "/pcs/register"@
}

/// The address that the heartbeats of one terminal are sent to.
pub open spec fn heartbeat_url(server_url: Seq<char>, pc_id: Seq<char>) -> Seq<char> {
    server_url + "/pcs/"@ + pc_id + "/heartbeat"@
}

impl RegisterCall {
    /// The one registration call for these settings and this machine.
    pub open spec fn is_for(
        &self,
        config: &Config,
        metadata: &PcMetadata,
        agent_version: Seq<char>,
        os: Seq<char>,
    ) -> bool {
        &&& self.url@ == register_url(config.server_url@)
        &&& self.api_key@ == config.api_key@
        &&& self.body.lan_id@ == config.lan_id@
        &&& self.body.mac_address@ == metadata.mac_address@
        &&& self.body.ip_address@ == metadata.ip_address@
        &&& self.body.hostname@ == metadata.hostname@
        &&& self.body.agent_version@ == agent_version
        &&& self.body.os@ == os
    }
}

impl HeartbeatCall {
    /// The heartbeat of an ordinary tick: the current address, no status
    /// override.
    pub open spec fn is_tick(&self, config: &Config, pc_id: Seq<char>, ip_address: Seq<char>) -> bool {
        &&& self.url@ == heartbeat_url(config.server_url@, pc_id)
        &&& self.api_key@ == config.api_key@
        &&& self.body.ip_address@ == ip_address
        &&& self.body.status is None
    }

    /// The notice sent at shutdown: an empty address and a status override.
    pub open spec fn is_final(&self, config: &Config, pc_id: Seq<char>, status: Seq<char>) -> bool {
        &&& self.url@ == heartbeat_url(config.server_url@, pc_id)
        &&& self.api_key@ == config.api_key@
        &&& self.body.ip_address@ == Seq::<char>::empty()
        &&& self.body.status matches Some(s) && s@ == status
    }
}

/// Builds the address of the heartbeats of one terminal.
fn build_heartbeat_url(config: &Config, pc_id: &str) -> (url: String)
    ensures
        url@ == heartbeat_url(config.server_url@, pc_id@),
{
    let mut url = config.server_url.clone();
    url.append("/pcs/");
    url.append(pc_id);
    url.append("/heartbeat");
    url
}

/// The registration of this machine: its fingerprint, the agent's version and
/// the name of the operating system, under the configured credential.
pub fn registration_call(
    config: &Config,
    metadata: PcMetadata,
    agent_version: &str,
    os: &str,
) -> (call: RegisterCall)
    ensures
        call.is_for(config, &metadata, agent_version@, os@),
{
    let mut url = config.server_url.clone();
    url.append("/pcs/register");
    RegisterCall {
        url,
        api_key: config.api_key.clone(),
        body: RegisterRequest {
            lan_id: config.lan_id.clone(),
            mac_address: metadata.mac_address,
            ip_address: metadata.ip_address,
            hostname: metadata.hostname,
            agent_version: String::from_str(agent_version),
            os: String::from_str(os),
        },
    }
}

/// The heartbeat of an ordinary tick for the terminal `pc_id`, reporting its
/// current address.
pub fn heartbeat_call(config: &Config, pc_id: &str, ip_address: String) -> (call: HeartbeatCall)
    ensures
        call.is_tick(config, pc_id@, ip_address@),
{
    HeartbeatCall {
        url: build_heartbeat_url(config, pc_id),
        api_key: config.api_key.clone(),
        body: HeartbeatRequest { ip_address, status: None },
    }
}

/// The notice that reports a terminal status, sent once, at shutdown. Its
/// reply is never read.
pub fn final_status_call(config: &Config, pc_id: &str, status: &str) -> (call: HeartbeatCall)
    ensures
        call.is_final(config, pc_id@, status@),
{
    HeartbeatCall {
        url: build_heartbeat_url(config, pc_id),
        api_key: config.api_key.clone(),
        body: HeartbeatRequest { ip_address: String::new(), status: Some(String::from_str(status)) },
    }
}

/// What a registration reply amounts to.
pub open spec fn registration_outcome(reply: Reply<AgentIdentity>) -> Result<
    AgentIdentity,
    RegistrationError,
> {
    match reply {
        Reply::Unreachable => Err(RegistrationError::Transport),
        Reply::Responded { status, body } => if !is_success_status(status) {
            Err(RegistrationError::Rejected { status })
        } else {
            match body {
                Some(identity) => Ok(identity),
                None => Err(RegistrationError::Malformed),
            }
        },
    }
}

/// Reads a registration reply: an identity where the backend accepted and
/// sent one, and otherwise the reason for the failure. A body that came with
/// a failing status is not looked at.
pub fn registration_result(reply: Reply<AgentIdentity>) -> (outcome: Result<
    AgentIdentity,
    RegistrationError,
>)
    ensures
        outcome == registration_outcome(reply),
{
    match reply {
        Reply::Unreachable => Err(RegistrationError::Transport),
        Reply::Responded { status, body } => {
            if !is_success(status) {
                Err(RegistrationError::Rejected { status })
            } else {
                match body {
                    Some(identity) => Ok(identity),
                    None => Err(RegistrationError::Malformed),
                }
            }
        },
    }
}

/// What a heartbeat reply amounts to.
pub open spec fn heartbeat_outcome(reply: Ack) -> Result<(), HeartbeatError> {
    match reply {
        Ack::Unreachable => Err(HeartbeatError::Transport),
        Ack::Responded { status } => if is_success_status(status) {
            Ok(())
        } else {
            Err(HeartbeatError::Rejected { status })
        },
    }
}

/// Reads a heartbeat reply: acknowledged on a status from 200 to 299, failed
/// on any other status and where nothing came back.
pub fn heartbeat_result(reply: Ack) -> (outcome: Result<(), HeartbeatError>)
    ensures
        outcome == heartbeat_outcome(reply),
{
    match reply {
        Ack::Unreachable => Err(HeartbeatError::Transport),
        Ack::Responded { status } => {
            if is_success(status) {
                Ok(())
            } else {
                Err(HeartbeatError::Rejected { status })
            }
        },
    }
}

} // verus!
