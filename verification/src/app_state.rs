//! Shared runtime state: configuration, compiled tenant policies, the
//! realtime core and the drain flag.

use vstd::prelude::*;
use vstd::string::StringExecFns;
use crate::config::schema::GatewayConfig;
use crate::error::{fails_bad_request, WsPrismError};
use crate::policy::allowlist::{ext_rule_of, hot_entry_of};
use crate::policy::engine::{policy_compile_error, TenantPolicyRuntime};
use crate::realtime::egress::{covers, Broadcast, RealtimeCore, CLOSE_GOING_AWAY};
use crate::realtime::types::WireView;
use crate::transport::admission;

verus! {

/// Whether every allowlist entry of tenant `i` of `cfg` is well formed.
pub open spec fn tenant_compiles(cfg: &GatewayConfig, i: int) -> bool {
    &&& forall|k: int|
        0 <= k < cfg.tenants[i].policy.ext_allowlist.len() ==> ext_rule_of(
            #[trigger] cfg.tenants[i].policy.ext_allowlist[k]@,
        ) is Some
    &&& forall|k: int|
        0 <= k < cfg.tenants[i].policy.hot_allowlist.len() ==> hot_entry_of(
            #[trigger] cfg.tenants[i].policy.hot_allowlist[k]@,
        ) is Rule
}

/// Whether `e` reports the first tenant of `cfg` whose allowlists do not
/// compile.
pub open spec fn reports_first_tenant(cfg: &GatewayConfig, e: WsPrismError) -> bool {
    exists|k: int|
        0 <= k < cfg.tenants.len() && !tenant_compiles(cfg, k) && (forall|i: int|
            0 <= i < k ==> tenant_compiles(cfg, i)) && policy_compile_error(
            &(#[trigger] cfg.tenants[k]).policy,
            e,
        )
}

/// Position of the first runtime of `tenants` whose tenant is `id`, or the
/// length of `tenants` when there is none.
pub open spec fn first_tenant(tenants: Seq<TenantPolicyRuntime>, id: Seq<char>, from: int) -> int
    decreases tenants.len() - from,
{
    if from < 0 || from >= tenants.len() {
        tenants.len() as int
    } else if tenants[from].spec_tenant_id() == id {
        from
    } else {
        first_tenant(tenants, id, from + 1)
    }
}

/// What the readiness probe answers.
pub open spec fn readiness(draining: bool) -> (u16, Seq<char>) {
    if draining {
        (503, "draining"@)
    } else {
        (200, "ready"@)
    }
}

/// Longest pause between two looks at the session count while draining.
pub const DRAIN_POLL_MS: u64 = 50;

/// What a draining gateway does next.
#[derive(Debug, Clone, Copy, PartialEq, Eq, Structural)]
pub enum DrainStep {
    /// No session is left: exit.
    Done,
    /// The grace period is over: exit with sessions left.
    GraceOver,
    /// Look again after this many milliseconds.
    Wait(u64),
}

/// The next step of a drain that began `elapsed_ms` ago with a grace
/// period of `grace_ms`, `sessions` sessions being left: done without
/// sessions, over once the grace period has passed, else a pause of at
/// most 50 ms that does not outlast the grace period.
pub open spec fn drain_next(sessions: usize, elapsed_ms: u64, grace_ms: u64) -> DrainStep {
    if sessions == 0 {
        DrainStep::Done
    } else if elapsed_ms >= grace_ms {
        DrainStep::GraceOver
    } else if grace_ms - elapsed_ms < DRAIN_POLL_MS {
        DrainStep::Wait((grace_ms - elapsed_ms) as u64)
    } else {
        DrainStep::Wait(DRAIN_POLL_MS)
    }
}

/// Decide the next step of a drain.
pub fn drain_step(sessions: usize, elapsed_ms: u64, grace_ms: u64) -> (s: DrainStep)
    ensures
        s == drain_next(sessions, elapsed_ms, grace_ms),
{
    if sessions == 0 {
        DrainStep::Done
    } else if elapsed_ms >= grace_ms {
        DrainStep::GraceOver
    } else if grace_ms - elapsed_ms < DRAIN_POLL_MS {
        DrainStep::Wait(grace_ms - elapsed_ms)
    } else {
        DrainStep::Wait(DRAIN_POLL_MS)
    }
}

/// The liveness probe's answer.
pub fn healthz() -> (r: (u16, &'static str))
    ensures
        r.0 == 200,
        r.1@ == "ok"@,
{
    (200, "ok")
}

/// Shared runtime state.
pub struct AppState {
    /// The validated configuration.
    pub cfg: GatewayConfig,
    /// One compiled policy per tenant, in the order of the configuration.
    pub tenants: Vec<TenantPolicyRuntime>,
    /// Session and presence registries.
    pub core: RealtimeCore,
    /// Whether the gateway drains.
    pub draining: bool,
}

impl AppState {
    /// The state's invariant: one sound runtime per configured tenant, and
    /// a sound core.
    pub open spec fn wf(&self) -> bool {
        &&& self.core.wf()
        &&& self.tenants.len() == self.cfg.tenants.len()
        &&& forall|i: int|
            0 <= i < self.tenants.len() ==> (#[trigger] self.tenants[i]).wf()
                && self.tenants[i].spec_tenant_id() == self.cfg.tenants[i].id@
                && self.tenants[i].spec_max_frame_bytes()
                == self.cfg.tenants[i].limits.max_frame_bytes
    }

    /// Compile every tenant's policy. Fails with the first tenant whose
    /// allowlists do not compile.
    pub fn new(cfg: GatewayConfig, now_ms: u64) -> (res: Result<AppState, WsPrismError>)
        ensures
            res is Ok <==> forall|i: int| 0 <= i < cfg.tenants.len() ==> tenant_compiles(&cfg, i),
            res matches Err(e) ==> reports_first_tenant(&cfg, e),
            res matches Ok(st) ==> st.wf() && st.cfg == cfg && !st.draining
                && st.core.presence@.is_empty() && st.core.sessions@.index =~= Set::empty(),
    {
        let mut tenants: Vec<TenantPolicyRuntime> = Vec::new();
        let mut k: usize = 0;
        while k < cfg.tenants.len()
            invariant
                k <= cfg.tenants.len(),
                tenants.len() == k,
                forall|i: int| 0 <= i < k ==> tenant_compiles(&cfg, i),
                forall|i: int|
                    0 <= i < k ==> (#[trigger] tenants[i]).wf() && tenants[i].spec_tenant_id()
                        == cfg.tenants[i].id@ && tenants[i].spec_max_frame_bytes()
                        == cfg.tenants[i].limits.max_frame_bytes,
            decreases cfg.tenants.len() - k,
        {
            let t = &cfg.tenants[k];
            match TenantPolicyRuntime::new(t.id.clone(), t.limits.max_frame_bytes, &t.policy, now_ms) {
                Ok(rt) => {
                    tenants.push(rt);
                },
                Err(e) => {
                    assert(!tenant_compiles(&cfg, k as int));
                    assert(policy_compile_error(&cfg.tenants[k as int].policy, e));
                    return Err(e);
                },
            }
            assert(tenant_compiles(&cfg, k as int));
            k += 1;
        }
        Ok(AppState { cfg, tenants, core: RealtimeCore::new(), draining: false })
    }

    /// The configuration.
    pub fn cfg(&self) -> (c: &GatewayConfig)
        ensures
            *c == self.cfg,
    {
        &self.cfg
    }

    /// Position of the policy runtime of `tenant_id`, if the tenant exists.
    pub fn tenant_index(&self, tenant_id: &str) -> (r: Option<usize>)
        ensures
            match r {
                Some(i) => i < self.tenants.len() && i == first_tenant(self.tenants@, tenant_id@, 0),
                None => first_tenant(self.tenants@, tenant_id@, 0) == self.tenants.len(),
            },
    {
        let mut k: usize = 0;
        while k < self.tenants.len()
            invariant
                k <= self.tenants.len(),
                first_tenant(self.tenants@, tenant_id@, 0) == first_tenant(
                    self.tenants@,
                    tenant_id@,
                    k as int,
                ),
            decreases self.tenants.len() - k,
        {
            if crate::strings::str_eq(self.tenants[k].id(), tenant_id) {
                return Some(k);
            }
            k += 1;
        }
        None
    }

    /// The policy runtime of `tenant_id`, if the tenant exists.
    pub fn tenant_policy(&self, tenant_id: &str) -> (r: Option<&TenantPolicyRuntime>)
        ensures
            r is Some <==> first_tenant(self.tenants@, tenant_id@, 0) < self.tenants.len(),
            r matches Some(rt) ==> *rt == self.tenants[first_tenant(self.tenants@, tenant_id@, 0)],
    {
        match self.tenant_index(tenant_id) {
            Some(i) => Some(&self.tenants[i]),
            None => None,
        }
    }

    /// The user that a ticket stands for.
    pub fn resolve_ticket(&self, ticket: &str) -> (res: Result<String, WsPrismError>)
        ensures
            ticket@ == "dev"@ ==> (res matches Ok(u) && u@ == "user:dev"@),
            ticket@ != "dev"@ ==> res matches Err(WsPrismError::AuthFailed),
    {
        admission::resolve_ticket(ticket)
    }

    /// Whether the gateway drains.
    pub fn is_draining(&self) -> (b: bool)
        ensures
            b == self.draining,
    {
        self.draining
    }

    /// Enter the drain: from now on upgrades are refused and the readiness
    /// probe fails; every session is offered a close frame with code 1001
    /// and the reason `draining`.
    pub fn set_draining(&mut self) -> (b: Broadcast)
        ensures
            final(self).draining,
            final(self).cfg == old(self).cfg,
            final(self).tenants == old(self).tenants,
            final(self).core == old(self).core,
            b.frame@ == WireView::Close(CLOSE_GOING_AWAY, "draining"@),
            covers(b.deliveries@, old(self).core.sessions@.rows.dom(), &old(self).core.sessions),
    {
        self.draining = true;
        self.core.best_effort_shutdown_all("draining")
    }

    /// The readiness probe's answer.
    pub fn readyz(&self) -> (r: (u16, &'static str))
        ensures
            (r.0, r.1@) == readiness(self.draining),
    {
        if self.draining {
            (503, "draining")
        } else {
            (200, "ready")
        }
    }
}

/// Resolve a tenant, or report it as unknown.
pub fn resolve_tenant(state: &AppState, tenant_id: &str) -> (res: Result<usize, WsPrismError>)
    ensures
        match res {
            Ok(i) => i < state.tenants.len() && i == first_tenant(state.tenants@, tenant_id@, 0),
            Err(_) => first_tenant(state.tenants@, tenant_id@, 0) == state.tenants.len()
                && fails_bad_request(res, "unknown tenant: "@ + tenant_id@),
        },
{
    match state.tenant_index(tenant_id) {
        Some(i) => Ok(i),
        None => {
            let mut m = "unknown tenant: ".to_owned();
            m.append(tenant_id);
            Err(WsPrismError::BadRequest(m))
        },
    }
}

} // verus!
