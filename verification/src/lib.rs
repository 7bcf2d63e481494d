//! Lifecycle and lockdown rules of a kiosk terminal agent.
//!
//! The agent registers a shared terminal with a management backend, reports
//! liveness by heartbeats, and keeps the desktop locked down whenever no
//! session is active. This crate holds the decisions: every function maps
//! plain values to plain values, and the caller performs the network and
//! operating-system work that the returned values describe.

pub mod agent;
pub mod backend;
pub mod control;
pub mod enforcer;
pub mod keyboard;
pub mod lifecycle;
pub mod machine;
