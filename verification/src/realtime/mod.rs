//! Realtime runtime: session and presence registries and the egress planner.

pub mod ctx;
pub mod egress;
pub mod keyset;
pub mod presence;
pub mod sessions;
pub mod store;
pub mod types;
