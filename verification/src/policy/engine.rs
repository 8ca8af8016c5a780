//! Per-tenant policy runtime.
//!
//! Every inbound frame is checked in a fixed order: length, then rate,
//! then allowlist. A check that fails decides the outcome and the later
//! checks are not run.

use vstd::prelude::*;
use crate::config::schema::{HotErrorMode, RateLimitScope, SessionPolicy, TenantPolicy};
use crate::error::{ClientCode, WsPrismError};
use crate::policy::allowlist::{
    compile_ext_rules,
    compile_hot_rules,
    ext_allowed,
    ext_compile_error,
    ext_rule_of,
    hot_allowed,
    hot_compile_error,
    hot_entry_of,
    is_ext_allowed,
    is_hot_allowed,
    ExtRule,
    HotEntry,
    HotRule,
};
use crate::policy::bucket::TokenBucket;

verus! {

/// Decision of a policy check.
#[derive(Debug, Clone, Copy)]
pub enum PolicyDecision {
    /// Continue to the next stage.
    Pass,
    /// Ignore the frame silently.
    Drop,
    /// Report an error to the client and keep the connection.
    Reject { code: ClientCode, msg: &'static str },
    /// Report an error, best effort, and close the connection.
    Close { code: ClientCode, msg: &'static str },
}

/// Mathematical content of a `PolicyDecision`.
pub enum Verdict {
    Pass,
    Drop,
    Reject(ClientCode, Seq<char>),
    Close(ClientCode, Seq<char>),
}

impl View for PolicyDecision {
    type V = Verdict;

    open spec fn view(&self) -> Verdict {
        match *self {
            PolicyDecision::Pass => Verdict::Pass,
            PolicyDecision::Drop => Verdict::Drop,
            PolicyDecision::Reject { code, msg } => Verdict::Reject(code, msg@),
            PolicyDecision::Close { code, msg } => Verdict::Close(code, msg@),
        }
    }
}

/// A rate limiter over one token bucket.
#[derive(Debug, Clone, Copy)]
pub struct RateLimiter {
    inner: TokenBucket,
}

impl RateLimiter {
    /// The bucket behind the limiter.
    pub closed spec fn bucket(self) -> TokenBucket {
        self.inner
    }

    /// The limiter's invariant is that of its bucket.
    pub open spec fn wf(self) -> bool {
        self.bucket().wf()
    }

    /// A limiter with a full bucket.
    pub fn new(rps: u32, burst: u32, now_ms: u64) -> (l: RateLimiter)
        ensures
            l.wf(),
            l.bucket().spec_rps() == (if rps == 0 { 1int } else { rps as int }),
            l.bucket().spec_capacity() == (if burst == 0 { 1int } else { burst as int }),
            l.bucket().spec_tokens() == l.bucket().spec_capacity(),
            l.bucket().spec_last_ms() == now_ms,
    {
        RateLimiter { inner: TokenBucket::new(rps, burst, now_ms) }
    }

    /// Admit or refuse one request at `now_ms`, consuming a token when
    /// admitted.
    pub fn allow(&mut self, now_ms: u64) -> (ok: bool)
        requires
            old(self).wf(),
        ensures
            final(self).wf(),
            ok == old(self).bucket().admits(now_ms),
            final(self).bucket().spec_rps() == old(self).bucket().spec_rps(),
            final(self).bucket().spec_capacity() == old(self).bucket().spec_capacity(),
            final(self).bucket().spec_last_ms() == old(self).bucket().last_after_refill(now_ms),
            final(self).bucket().spec_tokens() == old(self).bucket().tokens_after_refill(now_ms)
                - (if ok {
                1int
            } else {
                0int
            }),
    {
        self.inner.allow(now_ms)
    }

    /// Tokens currently available.
    pub fn tokens(&self) -> (t: u32)
        ensures
            t == self.bucket().spec_tokens(),
    {
        self.inner.tokens()
    }
}

/// Tenant-scoped policy runtime, built once from configuration.
pub struct TenantPolicyRuntime {
    /// The tenant this runtime belongs to.
    pub tenant_id: String,
    max_frame_bytes: usize,
    ext_rules: Vec<ExtRule>,
    hot_rules: Vec<HotRule>,
    limiter: RateLimiter,
    scope: RateLimitScope,
    conn_rps: u32,
    conn_burst: u32,
    sessions: SessionPolicy,
    hot_error_mode: HotErrorMode,
    hot_requires_active_room: bool,
}

/// Whether `e` reports the first malformed allowlist entry of `policy`,
/// Ext entries coming before Hot entries.
pub open spec fn policy_compile_error(policy: &TenantPolicy, e: WsPrismError) -> bool {
    ext_compile_error(policy.ext_allowlist@, e) || ((forall|i: int|
        0 <= i < policy.ext_allowlist.len() ==> ext_rule_of(#[trigger] policy.ext_allowlist[i]@)
            is Some) && hot_compile_error(policy.hot_allowlist@, e))
}

/// Verdict on an over-long frame.
pub open spec fn too_large() -> Verdict {
    Verdict::Close(ClientCode::BadRequest, "frame too large"@)
}

/// Verdict on an Ext frame when the tenant's Ext allowlist is empty.
pub open spec fn ext_strict_deny() -> Verdict {
    Verdict::Reject(ClientCode::BadRequest, "ext_allowlist empty (strict deny)"@)
}

/// Verdict on an Ext frame that no rule of a non-empty allowlist admits:
/// the frame is not allowed, and the connection is kept.
pub open spec fn ext_not_allowed() -> Verdict {
    Verdict::Reject(ClientCode::NotAllowed, "svc/type not allowed"@)
}

impl TenantPolicyRuntime {
    /// The tenant's id.
    pub closed spec fn spec_tenant_id(&self) -> Seq<char> {
        self.tenant_id@
    }

    /// Largest admitted frame, in bytes.
    pub closed spec fn spec_max_frame_bytes(&self) -> int {
        self.max_frame_bytes as int
    }

    /// Compiled Ext rules.
    pub closed spec fn spec_ext_rules(&self) -> Seq<ExtRule> {
        self.ext_rules@
    }

    /// Compiled Hot rules.
    pub closed spec fn spec_hot_rules(&self) -> Seq<HotRule> {
        self.hot_rules@
    }

    /// The tenant-wide limiter.
    pub closed spec fn spec_limiter(&self) -> RateLimiter {
        self.limiter
    }

    /// Scope of the rate limit.
    pub closed spec fn spec_scope(&self) -> RateLimitScope {
        self.scope
    }

    /// Rate and burst of the bucket that each connection gets.
    pub closed spec fn spec_conn_template(&self) -> (u32, u32) {
        (self.conn_rps, self.conn_burst)
    }

    /// Per-user session quota.
    pub closed spec fn spec_sessions(&self) -> SessionPolicy {
        self.sessions
    }

    /// How Hot lane errors are reported.
    pub closed spec fn spec_hot_error_mode(&self) -> HotErrorMode {
        self.hot_error_mode
    }

    /// Whether a Hot frame needs an active room.
    pub closed spec fn spec_hot_requires_active_room(&self) -> bool {
        self.hot_requires_active_room
    }

    /// The runtime's invariant: a sound limiter.
    pub open spec fn wf(&self) -> bool {
        self.spec_limiter().wf()
    }

    /// Whether the tenant-wide bucket takes part in frame checks.
    pub open spec fn tenant_limited(&self) -> bool {
        self.spec_scope() != RateLimitScope::Connection
    }

    /// Whether each connection gets a bucket of its own.
    pub open spec fn connection_limited(&self) -> bool {
        self.spec_scope() != RateLimitScope::Tenant
    }

    /// Whether the rate check admits a frame at `now_ms`.
    pub open spec fn rate_admits(&self, now_ms: u64) -> bool {
        !self.tenant_limited() || self.spec_limiter().bucket().admits(now_ms)
    }

    /// The verdict on an Ext frame: length, then rate, then allowlist.
    pub open spec fn text_verdict(
        &self,
        now_ms: u64,
        bytes_len: usize,
        svc: Seq<char>,
        msg_type: Seq<char>,
    ) -> Verdict {
        if bytes_len > self.spec_max_frame_bytes() {
            too_large()
        } else if !self.rate_admits(now_ms) {
            Verdict::Drop
        } else if self.spec_ext_rules().len() == 0 {
            ext_strict_deny()
        } else if !ext_allowed(self.spec_ext_rules(), svc, msg_type) {
            ext_not_allowed()
        } else {
            Verdict::Pass
        }
    }

    /// The verdict on a Hot frame: length, then rate, then allowlist. Every
    /// refusal after the length check is a silent drop.
    pub open spec fn hot_verdict(&self, now_ms: u64, bytes_len: usize, svc_id: u8, opcode: u8) -> Verdict {
        if bytes_len > self.spec_max_frame_bytes() {
            too_large()
        } else if !self.rate_admits(now_ms) {
            Verdict::Drop
        } else if !hot_allowed(self.spec_hot_rules(), svc_id, opcode) {
            Verdict::Drop
        } else {
            Verdict::Pass
        }
    }

    /// Tokens in the tenant bucket after a frame of `bytes_len` bytes was
    /// checked at `now_ms`: untouched when the length check refuses the
    /// frame or the tenant bucket takes no part, else refilled and, when
    /// the frame is admitted, one token down.
    pub open spec fn tokens_after(&self, now_ms: u64, bytes_len: usize) -> int {
        let b = self.spec_limiter().bucket();
        if bytes_len > self.spec_max_frame_bytes() || !self.tenant_limited() {
            b.spec_tokens()
        } else if b.admits(now_ms) {
            b.tokens_after_refill(now_ms) - 1
        } else {
            b.tokens_after_refill(now_ms)
        }
    }

    /// Clock reading that the tenant bucket remembers after a frame of
    /// `bytes_len` bytes was checked at `now_ms`.
    pub open spec fn clock_after(&self, now_ms: u64, bytes_len: usize) -> int {
        let b = self.spec_limiter().bucket();
        if bytes_len > self.spec_max_frame_bytes() || !self.tenant_limited() {
            b.spec_last_ms()
        } else {
            b.last_after_refill(now_ms)
        }
    }

    /// What a check leaves unchanged: everything but the tenant bucket's
    /// tokens and clock.
    pub open spec fn same_rules(&self, other: &TenantPolicyRuntime) -> bool {
        &&& other.spec_tenant_id() == self.spec_tenant_id()
        &&& other.spec_max_frame_bytes() == self.spec_max_frame_bytes()
        &&& other.spec_ext_rules() == self.spec_ext_rules()
        &&& other.spec_hot_rules() == self.spec_hot_rules()
        &&& other.spec_scope() == self.spec_scope()
        &&& other.spec_conn_template() == self.spec_conn_template()
        &&& other.spec_sessions() == self.spec_sessions()
        &&& other.spec_hot_error_mode() == self.spec_hot_error_mode()
        &&& other.spec_hot_requires_active_room() == self.spec_hot_requires_active_room()
        &&& other.spec_limiter().bucket().spec_rps() == self.spec_limiter().bucket().spec_rps()
        &&& other.spec_limiter().bucket().spec_capacity()
            == self.spec_limiter().bucket().spec_capacity()
    }

    /// Compile a tenant's policy. Fails iff an allowlist entry is
    /// malformed, Ext entries being compiled before Hot entries.
    pub fn new(tenant_id: String, max_frame_bytes: usize, policy: &TenantPolicy, now_ms: u64) -> (res:
        Result<TenantPolicyRuntime, WsPrismError>)
        ensures
            res is Ok <==> (forall|i: int|
                0 <= i < policy.ext_allowlist.len() ==> ext_rule_of(
                    #[trigger] policy.ext_allowlist[i]@,
                ) is Some) && (forall|i: int|
                0 <= i < policy.hot_allowlist.len() ==> hot_entry_of(
                    #[trigger] policy.hot_allowlist[i]@,
                ) is Rule),
            res matches Err(e) ==> policy_compile_error(policy, e),
            res matches Ok(rt) ==> {
                &&& rt.wf()
                &&& rt.spec_tenant_id() == tenant_id@
                &&& rt.spec_max_frame_bytes() == max_frame_bytes
                &&& rt.spec_ext_rules().len() == policy.ext_allowlist.len()
                &&& forall|i: int|
                    0 <= i < policy.ext_allowlist.len() ==> ext_rule_of(
                        #[trigger] policy.ext_allowlist[i]@,
                    ) == Some(rt.spec_ext_rules()[i]@)
                &&& rt.spec_hot_rules().len() == policy.hot_allowlist.len()
                &&& forall|i: int|
                    0 <= i < policy.hot_allowlist.len() ==> hot_entry_of(
                        #[trigger] policy.hot_allowlist[i]@,
                    ) == HotEntry::Rule(rt.spec_hot_rules()[i])
                &&& rt.spec_scope() == policy.rate_limit_scope
                &&& rt.spec_conn_template() == (policy.rate_limit_rps, policy.rate_limit_burst)
                &&& rt.spec_sessions() == policy.sessions
                &&& rt.spec_hot_error_mode() == policy.hot_error_mode
                &&& rt.spec_hot_requires_active_room() == policy.hot_requires_active_room
                &&& rt.spec_limiter().bucket().spec_tokens()
                    == rt.spec_limiter().bucket().spec_capacity()
                &&& rt.spec_limiter().bucket().spec_capacity() == (if policy.rate_limit_burst == 0 {
                    1int
                } else {
                    policy.rate_limit_burst as int
                })
                &&& rt.spec_limiter().bucket().spec_rps() == (if policy.rate_limit_rps == 0 {
                    1int
                } else {
                    policy.rate_limit_rps as int
                })
                &&& rt.spec_limiter().bucket().spec_last_ms() == now_ms
            },
    {
        let ext_rules = match compile_ext_rules(policy.ext_allowlist.as_slice()) {
            Ok(r) => r,
            Err(e) => {
                return Err(e);
            },
        };
        let hot_rules = match compile_hot_rules(policy.hot_allowlist.as_slice()) {
            Ok(r) => r,
            Err(e) => {
                return Err(e);
            },
        };
        Ok(
            TenantPolicyRuntime {
                tenant_id,
                max_frame_bytes,
                ext_rules,
                hot_rules,
                limiter: RateLimiter::new(policy.rate_limit_rps, policy.rate_limit_burst, now_ms),
                scope: policy.rate_limit_scope,
                conn_rps: policy.rate_limit_rps,
                conn_burst: policy.rate_limit_burst,
                sessions: policy.sessions,
                hot_error_mode: policy.hot_error_mode,
                hot_requires_active_room: policy.hot_requires_active_room,
            },
        )
    }

    /// Length check, common to both lanes.
    pub fn check_len(&self, bytes_len: usize) -> (d: PolicyDecision)
        ensures
            d@ == (if bytes_len > self.spec_max_frame_bytes() {
                too_large()
            } else {
                Verdict::Pass
            }),
    {
        if bytes_len > self.max_frame_bytes {
            return PolicyDecision::Close { code: ClientCode::BadRequest, msg: "frame too large" };
        }
        PolicyDecision::Pass
    }

    /// Rate check against the tenant bucket; always admits when the rate
    /// limit applies per connection only.
    fn check_rate(&mut self, now_ms: u64) -> (ok: bool)
        requires
            old(self).wf(),
        ensures
            final(self).wf(),
            old(self).same_rules(final(self)),
            ok == old(self).rate_admits(now_ms),
            final(self).spec_limiter().bucket().spec_tokens() == old(self).tokens_after(now_ms, 0),
            final(self).spec_limiter().bucket().spec_last_ms() == old(self).clock_after(now_ms, 0),
    {
        match self.scope {
            RateLimitScope::Connection => true,
            _ => self.limiter.allow(now_ms),
        }
    }

    /// Ext lane policy.
    pub fn check_text(&mut self, now_ms: u64, bytes_len: usize, svc: &str, msg_type: &str) -> (d:
        PolicyDecision)
        requires
            old(self).wf(),
        ensures
            final(self).wf(),
            old(self).same_rules(final(self)),
            d@ == old(self).text_verdict(now_ms, bytes_len, svc@, msg_type@),
            final(self).spec_limiter().bucket().spec_tokens() == old(self).tokens_after(
                now_ms,
                bytes_len,
            ),
            final(self).spec_limiter().bucket().spec_last_ms() == old(self).clock_after(
                now_ms,
                bytes_len,
            ),
    {
        match self.check_len(bytes_len) {
            PolicyDecision::Pass => {},
            other => {
                return other;
            },
        }
        if !self.check_rate(now_ms) {
            return PolicyDecision::Drop;
        }
        if self.ext_rules.len() == 0 {
            return PolicyDecision::Reject {
                code: ClientCode::BadRequest,
                msg: "ext_allowlist empty (strict deny)",
            };
        }
        if !is_ext_allowed(self.ext_rules.as_slice(), svc, msg_type) {
            return PolicyDecision::Reject { code: ClientCode::NotAllowed, msg: "svc/type not allowed" };
        }
        PolicyDecision::Pass
    }

    /// Hot lane policy.
    pub fn check_hot(&mut self, now_ms: u64, bytes_len: usize, svc_id: u8, opcode: u8) -> (d:
        PolicyDecision)
        requires
            old(self).wf(),
        ensures
            final(self).wf(),
            old(self).same_rules(final(self)),
            d@ == old(self).hot_verdict(now_ms, bytes_len, svc_id, opcode),
            final(self).spec_limiter().bucket().spec_tokens() == old(self).tokens_after(
                now_ms,
                bytes_len,
            ),
            final(self).spec_limiter().bucket().spec_last_ms() == old(self).clock_after(
                now_ms,
                bytes_len,
            ),
    {
        match self.check_len(bytes_len) {
            PolicyDecision::Pass => {},
            other => {
                return other;
            },
        }
        if !self.check_rate(now_ms) {
            return PolicyDecision::Drop;
        }
        if self.hot_rules.len() == 0 {
            return PolicyDecision::Drop;
        }
        if !is_hot_allowed(self.hot_rules.as_slice(), svc_id, opcode) {
            return PolicyDecision::Drop;
        }
        PolicyDecision::Pass
    }

    /// A fresh bucket for one connection, when the rate limit applies per
    /// connection.
    pub fn connection_bucket(&self, now_ms: u64) -> (b: Option<TokenBucket>)
        ensures
            b is Some <==> self.connection_limited(),
            b matches Some(tb) ==> {
                &&& tb.wf()
                &&& tb.spec_tokens() == tb.spec_capacity()
                &&& tb.spec_last_ms() == now_ms
                &&& tb.spec_rps() == (if self.spec_conn_template().0 == 0 {
                    1int
                } else {
                    self.spec_conn_template().0 as int
                })
                &&& tb.spec_capacity() == (if self.spec_conn_template().1 == 0 {
                    1int
                } else {
                    self.spec_conn_template().1 as int
                })
            },
    {
        match self.scope {
            RateLimitScope::Tenant => None,
            _ => Some(TokenBucket::new(self.conn_rps, self.conn_burst, now_ms)),
        }
    }

    /// The tenant's id.
    pub fn id(&self) -> (s: &str)
        ensures
            s@ == self.spec_tenant_id(),
    {
        self.tenant_id.as_str()
    }

    /// Largest admitted frame, in bytes.
    pub fn max_frame_bytes(&self) -> (n: usize)
        ensures
            n == self.spec_max_frame_bytes(),
    {
        self.max_frame_bytes
    }

    /// Per-user session quota.
    pub fn sessions(&self) -> (p: SessionPolicy)
        ensures
            p == self.spec_sessions(),
    {
        self.sessions
    }

    /// How Hot lane errors are reported.
    pub fn hot_error_mode(&self) -> (m: HotErrorMode)
        ensures
            m == self.spec_hot_error_mode(),
    {
        self.hot_error_mode
    }

    /// Whether a Hot frame needs an active room.
    pub fn hot_requires_active_room(&self) -> (b: bool)
        ensures
            b == self.spec_hot_requires_active_room(),
    {
        self.hot_requires_active_room
    }
}

/// Policy order on the Ext lane. An over-long frame is closed on whatever
/// the bucket and the allowlist hold, and costs no token; a frame within
/// the limit that the rate check refuses is dropped whatever the allowlist
/// holds; and a frame passes only if length, rate and allowlist all admit
/// it.
pub proof fn lemma_text_policy_order(
    rt: &TenantPolicyRuntime,
    now_ms: u64,
    bytes_len: usize,
    svc: Seq<char>,
    msg_type: Seq<char>,
)
    ensures
        bytes_len > rt.spec_max_frame_bytes() ==> rt.text_verdict(now_ms, bytes_len, svc, msg_type)
            == too_large() && rt.tokens_after(now_ms, bytes_len)
            == rt.spec_limiter().bucket().spec_tokens(),
        bytes_len <= rt.spec_max_frame_bytes() && !rt.rate_admits(now_ms) ==> rt.text_verdict(
            now_ms,
            bytes_len,
            svc,
            msg_type,
        ) == Verdict::Drop,
        rt.text_verdict(now_ms, bytes_len, svc, msg_type) == Verdict::Pass <==> bytes_len
            <= rt.spec_max_frame_bytes() && rt.rate_admits(now_ms) && ext_allowed(
            rt.spec_ext_rules(),
            svc,
            msg_type,
        ),
{
    reveal_strlit("frame too large");
    reveal_strlit("ext_allowlist empty (strict deny)");
    reveal_strlit("svc/type not allowed");
}

/// Policy order on the Hot lane, as on the Ext lane: length decides before
/// rate, rate before allowlist, and only a frame that all three admit
/// passes.
pub proof fn lemma_hot_policy_order(
    rt: &TenantPolicyRuntime,
    now_ms: u64,
    bytes_len: usize,
    svc_id: u8,
    opcode: u8,
)
    ensures
        bytes_len > rt.spec_max_frame_bytes() ==> rt.hot_verdict(now_ms, bytes_len, svc_id, opcode)
            == too_large() && rt.tokens_after(now_ms, bytes_len)
            == rt.spec_limiter().bucket().spec_tokens(),
        bytes_len <= rt.spec_max_frame_bytes() && !rt.rate_admits(now_ms) ==> rt.hot_verdict(
            now_ms,
            bytes_len,
            svc_id,
            opcode,
        ) == Verdict::Drop,
        rt.hot_verdict(now_ms, bytes_len, svc_id, opcode) == Verdict::Pass <==> bytes_len
            <= rt.spec_max_frame_bytes() && rt.rate_admits(now_ms) && hot_allowed(
            rt.spec_hot_rules(),
            svc_id,
            opcode,
        ),
{
}

} // verus!
