//! Handshake defender: configuration and the bounded sweep of its
//! per-address table. The buckets themselves refill in fractions of a
//! token and live with the caller.

use vstd::prelude::*;

verus! {

/// Settings of the handshake defender.
#[derive(Debug, Clone, Copy, PartialEq, Eq, Structural)]
pub struct HandshakeConfig {
    /// Whether upgrades are limited at all.
    pub enabled: bool,
    /// Burst of the bucket shared by all addresses.
    pub global_burst: u32,
    /// Refill rate of the shared bucket, per second.
    pub global_rps: u32,
    /// Burst of the bucket of one address.
    pub per_ip_burst: u32,
    /// Refill rate of the bucket of one address, per second.
    pub per_ip_rps: u32,
    /// Number of addresses above which the table is swept.
    pub max_ip_entries: usize,
}

impl Default for HandshakeConfig {
    fn default() -> (c: HandshakeConfig)
        ensures
            c == (HandshakeConfig {
                enabled: true,
                global_burst: 200,
                global_rps: 100,
                per_ip_burst: 10,
                per_ip_rps: 5,
                max_ip_entries: 50_000,
            }),
    {
        HandshakeConfig {
            enabled: true,
            global_burst: 200,
            global_rps: 100,
            per_ip_burst: 10,
            per_ip_rps: 5,
            max_ip_entries: 50_000,
        }
    }
}

/// Most entries that one sweep looks at, so that the check that sweeps
/// does a bounded amount of work.
pub const SWEEP_VISITS: usize = 256;

/// Number of entries that a sweep of a table of `entries` addresses looks
/// at: all of them, up to the bound.
pub fn sweep_visits(entries: usize) -> (n: usize)
    ensures
        n == (if entries < SWEEP_VISITS { entries } else { SWEEP_VISITS }),
{
    if entries < SWEEP_VISITS {
        entries
    } else {
        SWEEP_VISITS
    }
}

/// Whether a check that finds `entries` addresses in the table sweeps it:
/// only above the configured number, and then for one draw in ten.
pub open spec fn sweeps(entries: usize, max_entries: usize, draw: u32) -> bool {
    entries > max_entries && draw % 100 < 10
}

/// Whether to sweep the table now. `draw` is any number that varies from
/// call to call.
pub fn sweep_due(entries: usize, max_entries: usize, draw: u32) -> (b: bool)
    ensures
        b == sweeps(entries, max_entries, draw),
{
    entries > max_entries && draw % 100 < 10
}

/// Whether a sweep keeps the entry for which `draw` was drawn: it drops
/// one draw in ten.
pub fn sweep_keeps(draw: u32) -> (b: bool)
    ensures
        b == (draw % 10 != 0),
{
    draw % 10 != 0
}

/// Capacity of a bucket made for a burst: at least one.
pub fn bucket_capacity(burst: u32) -> (c: u32)
    ensures
        c == (if burst == 0 { 1 } else { burst }),
{
    if burst == 0 {
        1
    } else {
        burst
    }
}

} // verus!
