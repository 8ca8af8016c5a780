//! Core of a multi-tenant realtime WebSocket gateway: wire formats, tenant
//! policy, session and presence registries, and the egress planner.

pub mod app_state;
pub mod config;
pub mod context;
pub mod dispatch;
pub mod error;
pub mod ids;
pub mod infra;
pub mod obs;
pub mod policy;
pub mod protocol;
pub mod realtime;
pub mod services;
pub mod strings;
pub mod transport;
