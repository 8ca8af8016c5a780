//! Tenant policy: frame size, rate limits and allowlists, evaluated in that
//! order for every inbound frame.

pub mod allowlist;
pub mod bucket;
pub mod engine;
