//! Configuration schema, version 1.

use vstd::prelude::*;
use vstd::string::StringExecFns;
use crate::error::{fails_bad_request, WsPrismError};
use crate::strings::{is_blank, str_is_blank};

verus! {

/// Scope at which the inbound rate limit applies.
#[derive(Debug, Clone, Copy, PartialEq, Eq, Structural)]
pub enum RateLimitScope {
    /// One bucket shared by every connection of the tenant.
    Tenant,
    /// One bucket per connection.
    Connection,
    /// Both: the connection's bucket first, then the tenant's.
    Both,
}

/// How many sessions one user may hold.
#[derive(Debug, Clone, Copy, PartialEq, Eq, Structural)]
pub enum SessionMode {
    /// Exactly one session per user.
    Single,
    /// Up to `max_sessions_per_user` sessions per user.
    Multi,
}

/// What happens to a new session once the user's quota is reached.
#[derive(Debug, Clone, Copy, PartialEq, Eq, Structural)]
pub enum OnExceed {
    /// Refuse the new session.
    Deny,
    /// Evict the user's oldest session and admit the new one.
    KickOldest,
}

/// How Hot lane errors are reported.
#[derive(Debug, Clone, Copy, PartialEq, Eq, Structural)]
pub enum HotErrorMode {
    /// A `sys.error` envelope on the Ext lane.
    SysError,
    /// Nothing is sent.
    Silent,
}

/// Per-user session quota.
#[derive(Debug, Clone, Copy, PartialEq, Eq, Structural)]
pub struct SessionPolicy {
    pub mode: SessionMode,
    pub max_sessions_per_user: u32,
    pub on_exceed: OnExceed,
}

impl SessionPolicy {
    /// A single-session policy must cap the user at one session.
    pub open spec fn consistent(self) -> bool {
        self.mode == SessionMode::Single ==> self.max_sessions_per_user == 1
    }
}

impl Default for SessionPolicy {
    fn default() -> (p: SessionPolicy)
        ensures
            p == (SessionPolicy {
                mode: SessionMode::Multi,
                max_sessions_per_user: 4,
                on_exceed: OnExceed::Deny,
            }),
    {
        SessionPolicy { mode: SessionMode::Multi, max_sessions_per_user: 4, on_exceed: OnExceed::Deny }
    }
}

/// Default listen address.
pub fn default_listen() -> (s: String)
    ensures
        s@ == "0.0.0.0:8080"@,
{
    "0.0.0.0:8080".to_owned()
}

/// Default interval between heartbeat pings.
pub fn default_ping_interval_ms() -> (v: u64)
    ensures
        v == 20000,
{
    20000
}

/// Default idle timeout.
pub fn default_idle_timeout_ms() -> (v: u64)
    ensures
        v == 60000,
{
    60000
}

/// Default deadline for one socket write.
pub fn default_writer_send_timeout_ms() -> (v: u64)
    ensures
        v == 1500,
{
    1500
}

/// Default grace period of a drain.
pub fn default_drain_grace_ms() -> (v: u64)
    ensures
        v == 5000,
{
    5000
}

/// Default frame size limit, in bytes.
pub fn default_max_frame_bytes() -> (v: usize)
    ensures
        v == 4096,
{
    4096
}

/// Default refill rate of the inbound rate limit.
pub fn default_rate_limit_rps() -> (v: u32)
    ensures
        v == 200,
{
    200
}

/// Default burst of the inbound rate limit.
pub fn default_rate_limit_burst() -> (v: u32)
    ensures
        v == 400,
{
    400
}

/// Default Ext allowlist: joining and leaving rooms, nothing else.
pub fn default_ext_allowlist() -> (v: Vec<String>)
    ensures
        v.len() == 2,
        v[0]@ == "room:join"@,
        v[1]@ == "room:leave"@,
{
    let mut v: Vec<String> = Vec::new();
    v.push("room:join".to_owned());
    v.push("room:leave".to_owned());
    v
}

/// The `gateway` section.
#[derive(Debug, Clone)]
pub struct GatewaySection {
    pub listen: String,
    pub ping_interval_ms: u64,
    pub idle_timeout_ms: u64,
    pub writer_send_timeout_ms: u64,
    pub drain_grace_ms: u64,
}

/// The first rule that a `gateway` section breaks, in the order in which
/// the rules are checked.
pub enum GatewayFault {
    /// `ping_interval_ms` outside 5000..=120000.
    PingInterval,
    /// `idle_timeout_ms` outside 10000..=600000.
    IdleTimeout,
    /// `idle_timeout_ms` not above `ping_interval_ms`.
    IdleNotAbovePing,
    /// `writer_send_timeout_ms` outside 50..=60000.
    WriterTimeout,
    /// `drain_grace_ms` above 600000.
    DrainGrace,
}

impl GatewayFault {
    /// The message that reports the fault.
    pub open spec fn message(self) -> Seq<char> {
        match self {
            GatewayFault::PingInterval =>
                "gateway.ping_interval_ms must be between 5000 and 120000"@,
            GatewayFault::IdleTimeout =>
                "gateway.idle_timeout_ms must be between 10000 and 600000"@,
            GatewayFault::IdleNotAbovePing =>
                "gateway.idle_timeout_ms must be greater than ping_interval_ms"@,
            GatewayFault::WriterTimeout =>
                "gateway.writer_send_timeout_ms must be between 50 and 60000"@,
            GatewayFault::DrainGrace => "gateway.drain_grace_ms must be at most 600000"@,
        }
    }
}

impl GatewaySection {
    /// The first broken rule, if any.
    pub open spec fn fault(self) -> Option<GatewayFault> {
        if !(5000 <= self.ping_interval_ms <= 120000) {
            Some(GatewayFault::PingInterval)
        } else if !(10000 <= self.idle_timeout_ms <= 600000) {
            Some(GatewayFault::IdleTimeout)
        } else if self.idle_timeout_ms <= self.ping_interval_ms {
            Some(GatewayFault::IdleNotAbovePing)
        } else if !(50 <= self.writer_send_timeout_ms <= 60000) {
            Some(GatewayFault::WriterTimeout)
        } else if self.drain_grace_ms > 600000 {
            Some(GatewayFault::DrainGrace)
        } else {
            None
        }
    }

    /// Check the timing ranges. Succeeds iff no rule is broken; otherwise
    /// the error names the first broken rule.
    pub fn validate(&self) -> (res: Result<(), WsPrismError>)
        ensures
            match self.fault() {
                None => res is Ok,
                Some(f) => fails_bad_request(res, f.message()),
            },
    {
        if self.ping_interval_ms < 5000 || self.ping_interval_ms > 120000 {
            return Err(
                WsPrismError::BadRequest(
                    "gateway.ping_interval_ms must be between 5000 and 120000".to_owned(),
                ),
            );
        }
        if self.idle_timeout_ms < 10000 || self.idle_timeout_ms > 600000 {
            return Err(
                WsPrismError::BadRequest(
                    "gateway.idle_timeout_ms must be between 10000 and 600000".to_owned(),
                ),
            );
        }
        if self.idle_timeout_ms <= self.ping_interval_ms {
            return Err(
                WsPrismError::BadRequest(
                    "gateway.idle_timeout_ms must be greater than ping_interval_ms".to_owned(),
                ),
            );
        }
        if self.writer_send_timeout_ms < 50 || self.writer_send_timeout_ms > 60000 {
            return Err(
                WsPrismError::BadRequest(
                    "gateway.writer_send_timeout_ms must be between 50 and 60000".to_owned(),
                ),
            );
        }
        if self.drain_grace_ms > 600000 {
            return Err(
                WsPrismError::BadRequest("gateway.drain_grace_ms must be at most 600000".to_owned()),
            );
        }
        Ok(())
    }
}

impl Default for GatewaySection {
    fn default() -> (g: GatewaySection)
        ensures
            g.listen@ == "0.0.0.0:8080"@,
            g.ping_interval_ms == 20000,
            g.idle_timeout_ms == 60000,
            g.writer_send_timeout_ms == 1500,
            g.drain_grace_ms == 5000,
            g.fault() is None,
    {
        GatewaySection {
            listen: default_listen(),
            ping_interval_ms: default_ping_interval_ms(),
            idle_timeout_ms: default_idle_timeout_ms(),
            writer_send_timeout_ms: default_writer_send_timeout_ms(),
            drain_grace_ms: default_drain_grace_ms(),
        }
    }
}

/// Per-tenant limits. A cap of zero on sessions, users or rooms means that
/// the quantity is not capped.
#[derive(Debug, Clone, Copy, PartialEq, Eq, Structural)]
pub struct TenantLimits {
    pub max_frame_bytes: usize,
    pub max_sessions_total: u64,
    pub max_users_per_room: u64,
    pub max_rooms_per_user: u64,
    pub max_rooms_total: u64,
}

impl Default for TenantLimits {
    fn default() -> (l: TenantLimits)
        ensures
            l == (TenantLimits {
                max_frame_bytes: 4096,
                max_sessions_total: 0,
                max_users_per_room: 0,
                max_rooms_per_user: 0,
                max_rooms_total: 0,
            }),
    {
        TenantLimits {
            max_frame_bytes: default_max_frame_bytes(),
            max_sessions_total: 0,
            max_users_per_room: 0,
            max_rooms_per_user: 0,
            max_rooms_total: 0,
        }
    }
}

/// Tenant policy knobs. The defaults deny everything but joining and
/// leaving rooms.
#[derive(Debug, Clone)]
pub struct TenantPolicy {
    /// Refill rate of the inbound rate limit, in requests per second.
    pub rate_limit_rps: u32,
    /// Burst capacity of the inbound rate limit.
    pub rate_limit_burst: u32,
    /// Scope of the inbound rate limit.
    pub rate_limit_scope: RateLimitScope,
    /// Ext entries such as `room:join` or `chat:*`.
    pub ext_allowlist: Vec<String>,
    /// Hot entries such as `1:*` or `1:42`.
    pub hot_allowlist: Vec<String>,
    /// Per-user session quota.
    pub sessions: SessionPolicy,
    /// How Hot lane errors are reported.
    pub hot_error_mode: HotErrorMode,
    /// Whether a Hot frame needs an active room.
    pub hot_requires_active_room: bool,
}

impl Default for TenantPolicy {
    fn default() -> (p: TenantPolicy)
        ensures
            p.rate_limit_rps == 200,
            p.rate_limit_burst == 400,
            p.rate_limit_scope == RateLimitScope::Tenant,
            p.ext_allowlist.len() == 2,
            p.ext_allowlist[0]@ == "room:join"@,
            p.ext_allowlist[1]@ == "room:leave"@,
            p.hot_allowlist.len() == 0,
            p.sessions.consistent(),
            p.hot_error_mode == HotErrorMode::SysError,
            p.hot_requires_active_room,
    {
        TenantPolicy {
            rate_limit_rps: default_rate_limit_rps(),
            rate_limit_burst: default_rate_limit_burst(),
            rate_limit_scope: RateLimitScope::Tenant,
            ext_allowlist: default_ext_allowlist(),
            hot_allowlist: Vec::new(),
            sessions: SessionPolicy::default(),
            hot_error_mode: HotErrorMode::SysError,
            hot_requires_active_room: true,
        }
    }
}

/// One tenant.
#[derive(Debug, Clone)]
pub struct TenantConfig {
    pub id: String,
    pub limits: TenantLimits,
    pub policy: TenantPolicy,
}

/// The first rule that tenant `i` breaks.
pub enum TenantFault {
    /// The id is empty or blank.
    BlankId,
    /// An earlier tenant has the same id.
    DuplicateId,
    /// Single-session mode with a quota other than one.
    SingleQuota,
}

/// The first rule that tenant `i` of `tenants` breaks, if any.
pub open spec fn tenant_fault(tenants: Seq<TenantConfig>, i: int) -> Option<TenantFault> {
    if is_blank(tenants[i].id@) {
        Some(TenantFault::BlankId)
    } else if exists|j: int| 0 <= j < i && (#[trigger] tenants[j]).id@ == tenants[i].id@ {
        Some(TenantFault::DuplicateId)
    } else if !tenants[i].policy.sessions.consistent() {
        Some(TenantFault::SingleQuota)
    } else {
        None
    }
}

/// The message that reports a fault of tenant `id`.
pub open spec fn tenant_fault_message(f: TenantFault, id: Seq<char>) -> Seq<char> {
    match f {
        TenantFault::BlankId => "tenant.id must not be empty"@,
        TenantFault::DuplicateId => "duplicate tenant id: "@ + id,
        TenantFault::SingleQuota => "sessions.mode single requires max_sessions_per_user = 1: "@
            + id,
    }
}

/// The whole configuration.
#[derive(Debug, Clone)]
pub struct GatewayConfig {
    pub version: u32,
    pub gateway: GatewaySection,
    pub tenants: Vec<TenantConfig>,
}

impl GatewayConfig {
    /// Whether every rule holds: version 1, at least one tenant, every
    /// tenant sound, and a sound `gateway` section.
    pub open spec fn valid(self) -> bool {
        &&& self.version == 1
        &&& self.tenants.len() > 0
        &&& forall|i: int| 0 <= i < self.tenants.len() ==> tenant_fault(self.tenants@, i) is None
        &&& self.gateway.fault() is None
    }

    /// Validate the configuration. Rules are checked in this order: the
    /// version, that there is a tenant, each tenant in turn, then the
    /// `gateway` section. The error reports the first broken rule.
    #[verifier::loop_isolation(false)]
    pub fn validate(&self) -> (res: Result<(), WsPrismError>)
        ensures
            res is Ok <==> self.valid(),
            self.version != 1 ==> res matches Err(WsPrismError::UnsupportedVersion),
            self.version == 1 && self.tenants.len() == 0 ==> fails_bad_request(
                res,
                "tenants must not be empty"@,
            ),
            self.version == 1 && self.tenants.len() > 0 ==> forall|i: int|
                #![trigger tenant_fault(self.tenants@, i)]
                0 <= i < self.tenants.len() && tenant_fault(self.tenants@, i) is Some && (forall|
                    j: int,
                | 0 <= j < i ==> tenant_fault(self.tenants@, j) is None) ==> fails_bad_request(
                    res,
                    tenant_fault_message(tenant_fault(self.tenants@, i)->0, self.tenants[i].id@),
                ),
            self.version == 1 && self.tenants.len() > 0 && (forall|i: int|
                0 <= i < self.tenants.len() ==> tenant_fault(self.tenants@, i) is None) ==> (
            match self.gateway.fault() {
                None => res is Ok,
                Some(f) => fails_bad_request(res, f.message()),
            }),
    {
        if self.version != 1 {
            return Err(WsPrismError::UnsupportedVersion);
        }
        if self.tenants.len() == 0 {
            return Err(WsPrismError::BadRequest("tenants must not be empty".to_owned()));
        }
        let mut k: usize = 0;
        while k < self.tenants.len()
            invariant
                k <= self.tenants.len(),
                forall|i: int| 0 <= i < k ==> tenant_fault(self.tenants@, i) is None,
            decreases self.tenants.len() - k,
        {
            let t = &self.tenants[k];
            if str_is_blank(t.id.as_str()) {
                assert(tenant_fault(self.tenants@, k as int) == Some(TenantFault::BlankId));
                return Err(WsPrismError::BadRequest("tenant.id must not be empty".to_owned()));
            }
            let mut j: usize = 0;
            while j < k
                invariant
                    j <= k,
                    k < self.tenants.len(),
                    forall|i: int|
                        0 <= i < j ==> (#[trigger] self.tenants[i]).id@
                            != self.tenants[k as int].id@,
                decreases k - j,
            {
                if self.tenants[j].id == t.id {
                    assert(self.tenants@[j as int].id@ == self.tenants@[k as int].id@);
                    assert(tenant_fault(self.tenants@, k as int) == Some(TenantFault::DuplicateId));
                    let mut m = "duplicate tenant id: ".to_owned();
                    m.append(t.id.as_str());
                    return Err(WsPrismError::BadRequest(m));
                }
                j += 1;
            }
            let single = match t.policy.sessions.mode {
                SessionMode::Single => true,
                SessionMode::Multi => false,
            };
            if single && t.policy.sessions.max_sessions_per_user != 1 {
                assert(tenant_fault(self.tenants@, k as int) == Some(TenantFault::SingleQuota));
                let mut m = "sessions.mode single requires max_sessions_per_user = 1: ".to_owned();
                m.append(t.id.as_str());
                return Err(WsPrismError::BadRequest(m));
            }
            assert(tenant_fault(self.tenants@, k as int) is None);
            k += 1;
        }
        self.gateway.validate()
    }
}

} // verus!
