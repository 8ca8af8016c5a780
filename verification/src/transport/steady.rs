//! The frame loop's decision for one inbound frame.
//!
//! A frame is decoded, then checked in a fixed order: its length, the
//! connection's own rate limit, the tenant's rate limit, the allowlist.
//! Only a frame that passes all of them reaches a room operation or a
//! service.

use vstd::prelude::*;
use crate::config::schema::HotErrorMode;
use crate::error::ClientCode;
use crate::ids::{room_key, room_key_of};
use crate::policy::engine::{too_large, PolicyDecision, TenantPolicyRuntime, Verdict};
use crate::protocol::text::{Envelope, EnvelopeView};
use crate::realtime::egress::RealtimeCore;
use crate::realtime::presence::{PresenceView, RoomLimits};
use crate::realtime::types::{WireMessage, WireView};
use crate::strings::{opt_text, str_eq};
use crate::transport::codec::{decode, decoded, Frame, Inbound, InboundView, WsPrismErrorKind};
use crate::transport::conn::{
    default_room,
    Cause,
    error_frame,
    Connection,
    Outcome,
    OutcomeView,
    Phase,
    Step,
    StepView,
};
use crate::transport::sysmsg::{sys_joined_json, sys_left_json, sys_text};

verus! {

/// The client code of a decode error.
pub open spec fn kind_code(k: WsPrismErrorKind) -> ClientCode {
    match k {
        WsPrismErrorKind::BadRequest(_) => ClientCode::BadRequest,
        WsPrismErrorKind::UnsupportedVersion => ClientCode::UnsupportedVersion,
    }
}

/// The description of a decode error.
pub open spec fn kind_description(k: WsPrismErrorKind) -> Seq<char> {
    match k {
        WsPrismErrorKind::BadRequest(m) => "bad request: "@ + m,
        WsPrismErrorKind::UnsupportedVersion => "unsupported protocol version"@,
    }
}

/// The verdict on an Ext frame: length, the connection's rate limit, then
/// the tenant's policy.
pub open spec fn text_gate(
    conn: &Connection,
    policy: &TenantPolicyRuntime,
    now_ms: u64,
    bytes_len: usize,
    svc: Seq<char>,
    msg_type: Seq<char>,
) -> Verdict {
    if bytes_len > policy.spec_max_frame_bytes() {
        too_large()
    } else if !conn.bucket_admits(now_ms) {
        Verdict::Drop
    } else {
        policy.text_verdict(now_ms, bytes_len, svc, msg_type)
    }
}

/// The verdict on a Hot frame: length, the connection's rate limit, then
/// the tenant's policy.
pub open spec fn hot_gate(
    conn: &Connection,
    policy: &TenantPolicyRuntime,
    now_ms: u64,
    bytes_len: usize,
    svc_id: u8,
    opcode: u8,
) -> Verdict {
    if bytes_len > policy.spec_max_frame_bytes() {
        too_large()
    } else if !conn.bucket_admits(now_ms) {
        Verdict::Drop
    } else {
        policy.hot_verdict(now_ms, bytes_len, svc_id, opcode)
    }
}

/// Whether an envelope asks to join a room.
pub open spec fn is_join(env: EnvelopeView) -> bool {
    env.svc == "room"@ && env.msg_type == "join"@
}

/// Whether an envelope asks to leave a room.
pub open spec fn is_leave(env: EnvelopeView) -> bool {
    env.svc == "room"@ && env.msg_type == "leave"@
}

/// The room that a join means: the one it names, else `default`.
pub open spec fn join_target(env: EnvelopeView) -> Seq<char> {
    match env.room {
        Some(r) => r,
        None => default_room(),
    }
}

/// The room that a leave means: the one it names, else the active one.
pub open spec fn leave_target(env: EnvelopeView, active: Option<Seq<char>>) -> Option<Seq<char>> {
    match env.room {
        Some(r) => Some(r),
        None => active,
    }
}

/// What a step leaves behind, besides the frame it hands out.
pub struct Aftermath {
    pub step: StepView,
    pub phase: Phase,
    pub active_room: Option<Seq<char>>,
    pub presence: PresenceView,
}

/// A step that changes nothing and sends `reply`.
pub open spec fn carry_on(
    conn: &Connection,
    presence: PresenceView,
    reply: Option<WireView>,
) -> Aftermath {
    Aftermath {
        step: StepView { reply, outcome: OutcomeView::Continue },
        phase: conn.phase,
        active_room: opt_text(conn.active_room),
        presence,
    }
}

/// A step that sends `reply` and ends the loop.
pub open spec fn shut(conn: &Connection, presence: PresenceView, reply: Option<WireView>) -> Aftermath {
    Aftermath {
        step: StepView { reply, outcome: OutcomeView::Close },
        phase: Phase::Closing,
        active_room: opt_text(conn.active_room),
        presence,
    }
}

/// The frame that answers a verdict other than `Pass`: none for a drop,
/// `sys.error` for a reject or a close.
pub open spec fn refusal_reply(conn: &Connection, v: Verdict) -> Option<WireView> {
    match v {
        Verdict::Close(code, msg) => Some(error_frame(code, msg, conn.trace_id@)),
        Verdict::Reject(code, msg) => Some(error_frame(code, msg, conn.trace_id@)),
        _ => None,
    }
}

/// What a verdict other than `Pass` does: a drop is silent, a reject is
/// reported, a close is reported and ends the loop.
pub open spec fn refused(conn: &Connection, presence: PresenceView, v: Verdict) -> Aftermath {
    if v is Close {
        shut(conn, presence, refusal_reply(conn, v))
    } else {
        carry_on(conn, presence, refusal_reply(conn, v))
    }
}

/// What an admitted `room.join` does: the session joins the room, which
/// becomes the active one, and `sys.joined` names it; a join that a cap
/// refuses is reported and changes nothing.
pub open spec fn after_join(
    conn: &Connection,
    presence: PresenceView,
    limits: RoomLimits,
    env: EnvelopeView,
) -> Aftermath {
    let room = join_target(env);
    let key = room_key_of(conn.tenant_id@, room);
    match presence.join_refusal(conn.tenant_id@, key, conn.user_key@, conn.session_key@, limits) {
        Some(why) => carry_on(
            conn,
            presence,
            Some(
                error_frame(
                    ClientCode::NotAllowed,
                    "resource exhausted: "@ + why.message(),
                    conn.trace_id@,
                ),
            ),
        ),
        None => Aftermath {
            step: StepView {
                reply: Some(
                    WireView::Text(sys_text("joined"@, Some("{}"@), Some(room), conn.trace_id@)),
                ),
                outcome: OutcomeView::Continue,
            },
            phase: conn.phase,
            active_room: Some(room),
            presence: presence.joined(conn.tenant_id@, key, conn.user_key@, conn.session_key@),
        },
    }
}

/// What a `room.leave` does: the session leaves the room it means, if it
/// means one; the active room is forgotten if it is that room; `sys.left`
/// answers in any case.
pub open spec fn after_leave(conn: &Connection, presence: PresenceView, env: EnvelopeView) -> Aftermath {
    let active = opt_text(conn.active_room);
    let reply = Some(WireView::Text(sys_text("left"@, Some("{}"@), None, conn.trace_id@)));
    match leave_target(env, active) {
        None => carry_on(conn, presence, reply),
        Some(room) => Aftermath {
            step: StepView { reply, outcome: OutcomeView::Continue },
            phase: conn.phase,
            active_room: if active == Some(room) {
                None
            } else {
                active
            },
            presence: presence.left(
                conn.tenant_id@,
                room_key_of(conn.tenant_id@, room),
                conn.user_key@,
                conn.session_key@,
            ),
        },
    }
}

/// What a Hot frame that passed policy does: it is dispatched, unless the
/// tenant wants an active room and there is none, which is reported as
/// the tenant's Hot error mode says.
pub open spec fn after_hot_pass(
    conn: &Connection,
    policy: &TenantPolicyRuntime,
    presence: PresenceView,
    frame: crate::protocol::hot::HotFrameView,
) -> Aftermath {
    if policy.spec_hot_requires_active_room() && conn.active_room is None {
        carry_on(
            conn,
            presence,
            if policy.spec_hot_error_mode() == HotErrorMode::SysError {
                Some(error_frame(ClientCode::BadRequest, "no active_room"@, conn.trace_id@))
            } else {
                None
            },
        )
    } else {
        Aftermath {
            step: StepView { reply: None, outcome: OutcomeView::DispatchHot(frame) },
            phase: conn.phase,
            active_room: opt_text(conn.active_room),
            presence,
        }
    }
}

/// Why a verdict other than `Pass` ends the step.
pub open spec fn refusal_cause(v: Verdict) -> Cause {
    match v {
        Verdict::Close(code, _) => Cause::Closed(code),
        Verdict::Reject(code, _) => Cause::Rejected(code),
        _ => Cause::Dropped,
    }
}

/// Why the step that a steady connection makes of one frame ends as it
/// does.
pub open spec fn cause_of(
    conn: &Connection,
    policy: &TenantPolicyRuntime,
    presence: PresenceView,
    limits: RoomLimits,
    msg: Frame,
    now_ms: u64,
) -> Cause {
    match decoded(msg) {
        Err(_) => Cause::Decode,
        Ok(InboundView::Text(env, len)) => {
            let v = text_gate(conn, policy, now_ms, len as usize, env.svc, env.msg_type);
            if v != Verdict::Pass {
                refusal_cause(v)
            } else if is_join(env) {
                if presence.join_refusal(
                    conn.tenant_id@,
                    room_key_of(conn.tenant_id@, join_target(env)),
                    conn.user_key@,
                    conn.session_key@,
                    limits,
                ) is Some {
                    Cause::JoinRefused
                } else {
                    Cause::Joined
                }
            } else if is_leave(env) {
                Cause::Left
            } else {
                Cause::Dispatched
            }
        },
        Ok(InboundView::Hot(frame, len)) => {
            let v = hot_gate(conn, policy, now_ms, len as usize, frame.svc_id, frame.opcode);
            if v != Verdict::Pass {
                refusal_cause(v)
            } else if policy.spec_hot_requires_active_room() && conn.active_room is None {
                Cause::Roomless
            } else {
                Cause::Dispatched
            }
        },
        Ok(_) => Cause::Control,
    }
}

/// What a steady connection does with one frame.
pub open spec fn aftermath(
    conn: &Connection,
    policy: &TenantPolicyRuntime,
    presence: PresenceView,
    limits: RoomLimits,
    msg: Frame,
    now_ms: u64,
) -> Aftermath {
    match decoded(msg) {
        Err(k) => shut(
            conn,
            presence,
            Some(error_frame(kind_code(k), kind_description(k), conn.trace_id@)),
        ),
        Ok(InboundView::Ping(p)) => carry_on(conn, presence, Some(WireView::Pong(p))),
        Ok(InboundView::Pong(_)) => carry_on(conn, presence, None),
        Ok(InboundView::Close) => shut(conn, presence, None),
        Ok(InboundView::Text(env, len)) => {
            let v = text_gate(conn, policy, now_ms, len as usize, env.svc, env.msg_type);
            if v != Verdict::Pass {
                refused(conn, presence, v)
            } else if is_join(env) {
                after_join(conn, presence, limits, env)
            } else if is_leave(env) {
                after_leave(conn, presence, env)
            } else {
                Aftermath {
                    step: StepView { reply: None, outcome: OutcomeView::DispatchText(env) },
                    phase: conn.phase,
                    active_room: opt_text(conn.active_room),
                    presence,
                }
            }
        },
        Ok(InboundView::Hot(frame, len)) => {
            let v = hot_gate(conn, policy, now_ms, len as usize, frame.svc_id, frame.opcode);
            if v != Verdict::Pass {
                refused(conn, presence, v)
            } else {
                after_hot_pass(conn, policy, presence, frame)
            }
        },
    }
}

/// The size of the frame, if it is one that the rate limits are asked
/// about: a text or binary frame that decodes and is within the tenant's
/// frame size.
pub open spec fn rate_checked(policy: &TenantPolicyRuntime, msg: Frame) -> Option<usize> {
    match decoded(msg) {
        Ok(InboundView::Text(_, len)) => if len <= policy.spec_max_frame_bytes() {
            Some(len as usize)
        } else {
            None
        },
        Ok(InboundView::Hot(_, len)) => if len <= policy.spec_max_frame_bytes() {
            Some(len as usize)
        } else {
            None
        },
        _ => None,
    }
}

/// What a step does to the rate limits. A frame that the limits are asked
/// about costs the connection's bucket, if there is one, a request; if
/// that bucket admits it, it costs the tenant's bucket a request too. Any
/// other frame leaves both alone.
pub open spec fn limits_after(
    conn: &Connection,
    policy: &TenantPolicyRuntime,
    msg: Frame,
    now_ms: u64,
    next_conn: &Connection,
    next_policy: &TenantPolicyRuntime,
) -> bool {
    let tenant = policy.spec_limiter().bucket();
    let next_tenant = next_policy.spec_limiter().bucket();
    match rate_checked(policy, msg) {
        None => next_conn.bucket == conn.bucket && next_tenant.spec_tokens() == tenant.spec_tokens()
            && next_tenant.spec_last_ms() == tenant.spec_last_ms(),
        Some(len) => {
            &&& match conn.bucket {
                None => next_conn.bucket is None,
                Some(b) => next_conn.bucket matches Some(n) && b.after_allow(now_ms, n),
            }
            &&& next_tenant.spec_tokens() == (if conn.bucket_admits(now_ms) {
                policy.tokens_after(now_ms, len)
            } else {
                tenant.spec_tokens()
            })
            &&& next_tenant.spec_last_ms() == (if conn.bucket_admits(now_ms) {
                policy.clock_after(now_ms, len)
            } else {
                tenant.spec_last_ms()
            })
        },
    }
}

/// Nothing is dispatched before policy has passed it: a step hands a
/// message to a service only if the frame decoded and its length, both
/// rate limits and the allowlist admitted it.
pub proof fn lemma_dispatch_follows_policy(
    conn: &Connection,
    policy: &TenantPolicyRuntime,
    presence: PresenceView,
    limits: RoomLimits,
    msg: Frame,
    now_ms: u64,
)
    ensures
        aftermath(conn, policy, presence, limits, msg, now_ms).step.outcome
            matches OutcomeView::DispatchText(env) ==> decoded(msg) matches Ok(
            InboundView::Text(e, len),
        ) && e == env && text_gate(conn, policy, now_ms, len as usize, e.svc, e.msg_type)
            == Verdict::Pass,
        aftermath(conn, policy, presence, limits, msg, now_ms).step.outcome
            matches OutcomeView::DispatchHot(frame) ==> decoded(msg) matches Ok(
            InboundView::Hot(f, len),
        ) && f == frame && hot_gate(conn, policy, now_ms, len as usize, f.svc_id, f.opcode)
            == Verdict::Pass,
{
}

/// The connection's own rate limit: admit or refuse one frame.
fn connection_allows(conn: &mut Connection, now_ms: u64) -> (ok: bool)
    requires
        old(conn).wf(),
    ensures
        final(conn).wf(),
        ok == old(conn).bucket_admits(now_ms),
        match old(conn).bucket {
            None => final(conn).bucket is None,
            Some(b) => final(conn).bucket matches Some(n) && b.after_allow(now_ms, n),
        },
        old(conn).same_identity(final(conn)),
        final(conn).phase == old(conn).phase,
        final(conn).active_room == old(conn).active_room,
        final(conn).last_activity_ms == old(conn).last_activity_ms,
{
    match conn.bucket {
        Some(b) => {
            let mut b = b;
            let ok = b.allow(now_ms);
            conn.bucket = Some(b);
            ok
        },
        None => true,
    }
}

/// Carry out a verdict other than `Pass`.
fn refuse(conn: &mut Connection, d: PolicyDecision) -> (step: Step)
    requires
        d@ != Verdict::Pass,
    ensures
        step@.reply == refusal_reply(old(conn), d@),
        step.cause == refusal_cause(d@),
        step@.outcome == (if d@ is Close {
            OutcomeView::Close
        } else {
            OutcomeView::Continue
        }),
        final(conn).phase == (if d@ is Close {
            Phase::Closing
        } else {
            old(conn).phase
        }),
        old(conn).same_identity(final(conn)),
        final(conn).active_room == old(conn).active_room,
        final(conn).last_activity_ms == old(conn).last_activity_ms,
        final(conn).bucket == old(conn).bucket,
{
    match d {
        PolicyDecision::Close { code, msg } => {
            let reply = conn.error_reply(code, msg);
            conn.phase = Phase::Closing;
            Step { reply: Some(reply), outcome: Outcome::Close, cause: Cause::Closed(code) }
        },
        PolicyDecision::Reject { code, msg } => {
            let reply = conn.error_reply(code, msg);
            Step { reply: Some(reply), outcome: Outcome::Continue, cause: Cause::Rejected(code) }
        },
        _ => Step { reply: None, outcome: Outcome::Continue, cause: Cause::Dropped },
    }
}

/// Carry out a `room.join` that passed policy.
fn join(conn: &mut Connection, core: &mut RealtimeCore, limits: RoomLimits, env: &Envelope) -> (step:
    Step)
    requires
        old(core).wf(),
        old(core).registers(old(conn).user_key@, old(conn).session_key@),
    ensures
        final(core).wf(),
        final(core).sessions@ == old(core).sessions@,
        step@ == after_join(old(conn), old(core).presence@, limits, env@).step,
        step.cause == (if old(core).presence@.join_refusal(
            old(conn).tenant_id@,
            room_key_of(old(conn).tenant_id@, join_target(env@)),
            old(conn).user_key@,
            old(conn).session_key@,
            limits,
        ) is Some {
            Cause::JoinRefused
        } else {
            Cause::Joined
        }),
        final(conn).phase == after_join(old(conn), old(core).presence@, limits, env@).phase,
        opt_text(final(conn).active_room) == after_join(
            old(conn),
            old(core).presence@,
            limits,
            env@,
        ).active_room,
        final(core).presence@ == after_join(old(conn), old(core).presence@, limits, env@).presence,
        old(conn).same_identity(final(conn)),
        final(conn).last_activity_ms == old(conn).last_activity_ms,
        final(conn).bucket == old(conn).bucket,
{
    let room: String = match &env.room {
        Some(r) => r.clone(),
        None => "default".to_owned(),
    };
    let key = room_key(conn.tenant_id.as_str(), room.as_str());
    match core.presence.try_join(
        conn.tenant_id.as_str(),
        key.as_str(),
        conn.user_key.as_str(),
        conn.session_key.as_str(),
        limits,
    ) {
        Ok(_) => {
            let reply = WireMessage::Text(sys_joined_json(room.as_str(), conn.trace_id.as_str()));
            conn.active_room = Some(room);
            Step { reply: Some(reply), outcome: Outcome::Continue, cause: Cause::Joined }
        },
        Err(e) => {
            let reply = conn.error_reply_of(&e);
            Step { reply: Some(reply), outcome: Outcome::Continue, cause: Cause::JoinRefused }
        },
    }
}

/// Carry out a `room.leave` that passed policy.
fn leave(conn: &mut Connection, core: &mut RealtimeCore, env: &Envelope) -> (step: Step)
    requires
        old(core).wf(),
    ensures
        final(core).wf(),
        final(core).sessions@ == old(core).sessions@,
        step@ == after_leave(old(conn), old(core).presence@, env@).step,
        step.cause == Cause::Left,
        final(conn).phase == after_leave(old(conn), old(core).presence@, env@).phase,
        opt_text(final(conn).active_room) == after_leave(
            old(conn),
            old(core).presence@,
            env@,
        ).active_room,
        final(core).presence@ == after_leave(old(conn), old(core).presence@, env@).presence,
        old(conn).same_identity(final(conn)),
        final(conn).last_activity_ms == old(conn).last_activity_ms,
        final(conn).bucket == old(conn).bucket,
{
    let reply = WireMessage::Text(sys_left_json(conn.trace_id.as_str()));
    let target: Option<String> = match &env.room {
        Some(r) => Some(r.clone()),
        None => match &conn.active_room {
            Some(a) => Some(a.clone()),
            None => None,
        },
    };
    match target {
        None => {},
        Some(room) => {
            let key = room_key(conn.tenant_id.as_str(), room.as_str());
            core.presence.leave(
                conn.tenant_id.as_str(),
                key.as_str(),
                conn.user_key.as_str(),
                conn.session_key.as_str(),
            );
            let forget = match &conn.active_room {
                Some(a) => str_eq(a.as_str(), room.as_str()),
                None => false,
            };
            if forget {
                conn.active_room = None;
            }
        },
    }
    Step { reply: Some(reply), outcome: Outcome::Continue, cause: Cause::Left }
}

/// Whether a step and the state it left are what `a` says.
pub open spec fn follows(a: Aftermath, step: Step, conn: &Connection, core: &RealtimeCore) -> bool {
    &&& step@ == a.step
    &&& conn.phase == a.phase
    &&& opt_text(conn.active_room) == a.active_room
    &&& core.presence@ == a.presence
}

/// Whether the connection is in the frame loop with its session still
/// registered. A session that was evicted is registered no more.
pub open spec fn in_loop(conn: &Connection, core: &RealtimeCore) -> bool {
    conn.phase == Phase::Steady && core.registers(conn.user_key@, conn.session_key@)
}

/// Whether a step left the connection, the tenant's bucket and the rooms
/// as they were.
pub open spec fn untouched(
    conn: &Connection,
    policy: &TenantPolicyRuntime,
    core: &RealtimeCore,
    next_conn: &Connection,
    next_policy: &TenantPolicyRuntime,
    next_core: &RealtimeCore,
) -> bool {
    next_conn.phase == conn.phase && unchanged_but_phase(
        conn,
        policy,
        core,
        next_conn,
        next_policy,
        next_core,
    )
}

/// Whether a step left the connection but for its phase, the tenant's
/// bucket and the rooms as they were.
pub open spec fn unchanged_but_phase(
    conn: &Connection,
    policy: &TenantPolicyRuntime,
    core: &RealtimeCore,
    next_conn: &Connection,
    next_policy: &TenantPolicyRuntime,
    next_core: &RealtimeCore,
) -> bool {
    &&& next_conn.active_room == conn.active_room
    &&& next_conn.last_activity_ms == conn.last_activity_ms
    &&& next_conn.bucket == conn.bucket
    &&& next_policy.spec_limiter().bucket().spec_tokens()
        == policy.spec_limiter().bucket().spec_tokens()
    &&& next_policy.spec_limiter().bucket().spec_last_ms()
        == policy.spec_limiter().bucket().spec_last_ms()
    &&& next_core.presence@ == core.presence@
}

/// Decide what a connection does with one inbound frame. A connection
/// outside the frame loop ignores the frame and is told to close; so is
/// one whose session is registered no more, which then leaves the loop.
pub fn on_frame(
    conn: &mut Connection,
    policy: &mut TenantPolicyRuntime,
    core: &mut RealtimeCore,
    limits: RoomLimits,
    msg: Frame,
    now_ms: u64,
) -> (step: Step)
    requires
        old(conn).wf(),
        old(policy).wf(),
        old(core).wf(),
    ensures
        final(conn).wf(),
        final(policy).wf(),
        final(core).wf(),
        old(conn).same_identity(final(conn)),
        old(policy).same_rules(final(policy)),
        final(core).sessions@ == old(core).sessions@,
        step.cause == (if old(conn).phase != Phase::Steady {
            Cause::Ignored
        } else if !in_loop(old(conn), old(core)) {
            Cause::Evicted
        } else {
            cause_of(old(conn), old(policy), old(core).presence@, limits, msg, now_ms)
        }),
        old(conn).phase != Phase::Steady ==> step@ == (StepView {
            reply: None,
            outcome: OutcomeView::Close,
        }) && untouched(old(conn), old(policy), old(core), final(conn), final(policy), final(core)),
        in_loop(old(conn), old(core)) ==> final(conn).last_activity_ms == now_ms,
        in_loop(old(conn), old(core)) ==> limits_after(
            old(conn),
            old(policy),
            msg,
            now_ms,
            final(conn),
            final(policy),
        ),
        in_loop(old(conn), old(core)) ==> follows(
            aftermath(old(conn), old(policy), old(core).presence@, limits, msg, now_ms),
            step,
            final(conn),
            final(core),
        ),
        old(conn).phase == Phase::Steady && !in_loop(old(conn), old(core)) ==> step@ == (StepView {
            reply: None,
            outcome: OutcomeView::Close,
        }) && final(conn).phase == Phase::Closing && unchanged_but_phase(
            old(conn),
            old(policy),
            old(core),
            final(conn),
            final(policy),
            final(core),
        ),
{
    if !conn.is_steady() {
        return Step { reply: None, outcome: Outcome::Close, cause: Cause::Ignored };
    }
    if !core.is_registered(conn.user_key.as_str(), conn.session_key.as_str()) {
        conn.phase = Phase::Closing;
        return Step { reply: None, outcome: Outcome::Close, cause: Cause::Evicted };
    }
    conn.last_activity_ms = now_ms;
    let inbound = match decode(msg) {
        Ok(i) => i,
        Err(e) => {
            let reply = conn.error_reply_of(&e);
            conn.phase = Phase::Closing;
            return Step { reply: Some(reply), outcome: Outcome::Close, cause: Cause::Decode };
        },
    };
    match inbound {
        Inbound::Ping(p) => Step {
            reply: Some(WireMessage::Pong(p)),
            outcome: Outcome::Continue,
            cause: Cause::Control,
        },
        Inbound::Pong(_) => Step { reply: None, outcome: Outcome::Continue, cause: Cause::Control },
        Inbound::Close => {
            conn.phase = Phase::Closing;
            Step { reply: None, outcome: Outcome::Close, cause: Cause::Control }
        },
        Inbound::Text { env, bytes_len } => {
            let d = match policy.check_len(bytes_len) {
                PolicyDecision::Pass => {
                    if !connection_allows(conn, now_ms) {
                        PolicyDecision::Drop
                    } else {
                        policy.check_text(now_ms, bytes_len, env.svc.as_str(), env.msg_type.as_str())
                    }
                },
                other => other,
            };
            match d {
                PolicyDecision::Pass => {
                    if str_eq(env.svc.as_str(), "room") && str_eq(env.msg_type.as_str(), "join") {
                        join(conn, core, limits, &env)
                    } else if str_eq(env.svc.as_str(), "room") && str_eq(
                        env.msg_type.as_str(),
                        "leave",
                    ) {
                        leave(conn, core, &env)
                    } else {
                        Step {
                            reply: None,
                            outcome: Outcome::DispatchText(env),
                            cause: Cause::Dispatched,
                        }
                    }
                },
                other => refuse(conn, other),
            }
        },
        Inbound::Hot { frame, bytes_len } => {
            let d = match policy.check_len(bytes_len) {
                PolicyDecision::Pass => {
                    if !connection_allows(conn, now_ms) {
                        PolicyDecision::Drop
                    } else {
                        policy.check_hot(now_ms, bytes_len, frame.svc_id, frame.opcode)
                    }
                },
                other => other,
            };
            match d {
                PolicyDecision::Pass => {
                    let roomless = match &conn.active_room {
                        Some(_) => false,
                        None => true,
                    };
                    if policy.hot_requires_active_room() && roomless {
                        let reply = match policy.hot_error_mode() {
                            HotErrorMode::SysError => Some(
                                conn.error_reply(ClientCode::BadRequest, "no active_room"),
                            ),
                            HotErrorMode::Silent => None,
                        };
                        Step { reply, outcome: Outcome::Continue, cause: Cause::Roomless }
                    } else {
                        Step {
                            reply: None,
                            outcome: Outcome::DispatchHot(frame),
                            cause: Cause::Dispatched,
                        }
                    }
                },
                other => refuse(conn, other),
            }
        },
    }
}

} // verus!
