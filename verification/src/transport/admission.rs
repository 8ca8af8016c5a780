//! Upgrade decisions, session admission and cleanup.

use vstd::prelude::*;
use crate::config::schema::{OnExceed, SessionMode, SessionPolicy};
use crate::error::{ClientCode, WsPrismError};
use crate::ids::{session_key, session_key_of, user_key, user_key_of};
use crate::policy::engine::TenantPolicyRuntime;
use crate::realtime::egress::{RealtimeCore, CLOSE_POLICY};
use crate::realtime::keyset::{distinct, holds, texts};
use crate::realtime::presence::{cap_reached, PresenceView};
use crate::realtime::sessions::{queue_try_send, Queue, SendOutcome, SessionsView};
use crate::realtime::types::{WireMessage, WireView};
use crate::strings::{decimal_repr, decimal_text, str_eq};
use crate::transport::conn::{error_frame, Connection, Phase};
use crate::transport::sysmsg::{authed_data, kicked_data, sys_authed_json, sys_kicked_json, sys_text};

verus! {

/// Answer to an upgrade request before authentication.
#[derive(Debug, Clone, Copy)]
pub enum UpgradeDecision {
    /// Go on to authenticate and admit.
    Proceed,
    /// Answer with an HTTP status, a body, and `Retry-After` if given.
    Refuse { status: u16, body: &'static str, retry_after: Option<u64> },
}

/// Mathematical content of an `UpgradeDecision`.
pub enum UpgradeView {
    Proceed,
    Refuse(u16, Seq<char>, Option<u64>),
}

impl View for UpgradeDecision {
    type V = UpgradeView;

    open spec fn view(&self) -> UpgradeView {
        match *self {
            UpgradeDecision::Proceed => UpgradeView::Proceed,
            UpgradeDecision::Refuse { status, body, retry_after } => UpgradeView::Refuse(
                status,
                body@,
                retry_after,
            ),
        }
    }
}

/// The seconds announced in `Retry-After`: at least one.
pub open spec fn retry_after_secs(secs: u64) -> u64 {
    if secs < 1 {
        1
    } else {
        secs
    }
}

/// The `Retry-After` header value for a wait of `secs` seconds, as text
/// and as a number; a wait below one second is announced as one.
pub fn retry_after_header_secs(secs: u64) -> (r: (String, u64))
    ensures
        r.1 == retry_after_secs(secs),
        r.0@ == decimal_repr(retry_after_secs(secs) as int),
{
    let s: u64 = if secs < 1 {
        1
    } else {
        secs
    };
    (decimal_text(s), s)
}

/// The answer to an upgrade request, decided in this order: a draining gateway refuses
/// with 503 `draining`; a handshake over its rate is told to retry with
/// 429; an unknown tenant gets 400; a tenant at its session cap gets 503
/// and one second to retry. A cap of zero does not cap.
pub open spec fn upgrade_answer(
    draining: bool,
    gate: Result<(), u64>,
    tenant_known: bool,
    tenant_sessions: u64,
    max_sessions_total: u64,
) -> UpgradeView {
    if draining {
        UpgradeView::Refuse(503, "draining"@, None)
    } else if gate is Err {
        UpgradeView::Refuse(429, "too many requests"@, Some(retry_after_secs(gate->Err_0)))
    } else if !tenant_known {
        UpgradeView::Refuse(400, "unknown tenant"@, None)
    } else if cap_reached(tenant_sessions as int, max_sessions_total) {
        UpgradeView::Refuse(503, "tenant at capacity"@, Some(1))
    } else {
        UpgradeView::Proceed
    }
}

/// Decide an upgrade request from what the caller found out: whether the
/// gateway drains, what the handshake limiter said, whether the tenant
/// exists, and how many sessions it holds against its cap.
pub fn upgrade_decision(
    draining: bool,
    gate: Result<(), u64>,
    tenant_known: bool,
    tenant_sessions: u64,
    max_sessions_total: u64,
) -> (d: UpgradeDecision)
    ensures
        d@ == upgrade_answer(draining, gate, tenant_known, tenant_sessions, max_sessions_total),
{
    if draining {
        return UpgradeDecision::Refuse { status: 503, body: "draining", retry_after: None };
    }
    match gate {
        Err(secs) => {
            let wait: u64 = if secs < 1 {
                1
            } else {
                secs
            };
            return UpgradeDecision::Refuse {
                status: 429,
                body: "too many requests",
                retry_after: Some(wait),
            };
        },
        Ok(_) => {},
    }
    if !tenant_known {
        return UpgradeDecision::Refuse { status: 400, body: "unknown tenant", retry_after: None };
    }
    if max_sessions_total != 0 && tenant_sessions >= max_sessions_total {
        return UpgradeDecision::Refuse {
            status: 503,
            body: "tenant at capacity",
            retry_after: Some(1),
        };
    }
    UpgradeDecision::Proceed
}

/// The user that a ticket stands for: `dev` stands for `user:dev`, and no
/// other ticket stands for anyone.
pub fn resolve_ticket(ticket: &str) -> (res: Result<String, WsPrismError>)
    ensures
        ticket@ == "dev"@ ==> (res matches Ok(u) && u@ == "user:dev"@),
        ticket@ != "dev"@ ==> res matches Err(WsPrismError::AuthFailed),
{
    if str_eq(ticket, "dev") {
        Ok("user:dev".to_owned())
    } else {
        Err(WsPrismError::AuthFailed)
    }
}

/// The number of sessions one user may hold: one in single mode, the
/// configured number otherwise; zero does not cap.
pub open spec fn quota_of(p: SessionPolicy) -> u64 {
    match p.mode {
        SessionMode::Single => 1,
        SessionMode::Multi => p.max_sessions_per_user as u64,
    }
}

/// What was sent to an evicted session.
#[derive(Debug, Clone)]
pub struct KickReport {
    /// The evicted session.
    pub session_key: String,
    /// The `sys.kicked` frame offered to its queue.
    pub notice_frame: WireMessage,
    /// Outcome of that offer.
    pub notice: SendOutcome,
    /// The close frame, with code 1008, offered after it.
    pub close_frame: WireMessage,
    /// Outcome of that offer.
    pub close: SendOutcome,
    /// The rooms that the evicted session was taken out of.
    pub rooms: Vec<String>,
}

/// Reason given to an evicted session.
pub open spec fn kick_reason() -> Seq<char> {
    "max_sessions_exceeded"@
}

/// Whether `k` reports the notice and the close frame that an eviction on
/// the connection traced as `trace_id` sends.
pub open spec fn kick_frames(k: KickReport, trace_id: Seq<char>) -> bool {
    k.notice_frame@ == WireView::Text(
        sys_text("kicked"@, Some(kicked_data(kick_reason())), None, trace_id),
    ) && k.close_frame@ == WireView::Close(CLOSE_POLICY, kick_reason())
}

/// Outcome of an admission.
#[derive(Debug)]
pub enum Admission {
    /// The session is registered. `authed` is to be sent first.
    Admitted { conn: Connection, authed: WireMessage, kicked: Option<KickReport> },
    /// The user's quota is reached and the policy denies: `error` is to be
    /// sent, then the connection closed.
    Denied { error: WireMessage },
    /// The registry refused the session.
    Refused { error: WsPrismError, kicked: Option<KickReport> },
}

impl Admission {
    /// The eviction that the admission caused, if any.
    pub open spec fn kicked(self) -> Option<KickReport> {
        match self {
            Admission::Admitted { kicked, .. } => kicked,
            Admission::Refused { kicked, .. } => kicked,
            Admission::Denied { .. } => None,
        }
    }
}

/// The registry after the eviction, if there was one.
pub open spec fn after_kick(v: SessionsView, kicked: Option<KickReport>) -> SessionsView {
    match kicked {
        Some(k) => v.removed(k.session_key@),
        None => v,
    }
}

/// The rooms after the eviction, if there was one: the evicted session of
/// the user under `user_key` has left every room it was in.
pub open spec fn rooms_after_kick(
    v: PresenceView,
    kicked: Option<KickReport>,
    tenant: Seq<char>,
    user_key: Seq<char>,
) -> PresenceView {
    match kicked {
        Some(k) => v.left_all(tenant, user_key, k.session_key@, texts(k.rooms@)),
        None => v,
    }
}

/// The rooms after the session under `session_key` was cleaned up: the
/// session's row says under which user and tenant it left `rooms`; a
/// session without a row was in no room.
pub open spec fn rooms_after_cleanup(
    core: &RealtimeCore,
    session_key: Seq<char>,
    rooms: Seq<Seq<char>>,
) -> PresenceView {
    if core.sessions@.rows.contains_key(session_key) {
        core.presence@.left_all(
            core.sessions@.rows[session_key].tenant_id,
            core.sessions@.rows[session_key].user_key,
            session_key,
            rooms,
        )
    } else {
        core.presence@
    }
}

/// The queue that the row of `session_key` holds, if there is a row.
pub open spec fn queue_of(v: SessionsView, session_key: Seq<char>) -> Option<Queue> {
    if v.rows.contains_key(session_key) {
        Some(v.rows[session_key].queue)
    } else {
        None
    }
}

/// Admit a session whose upgrade request and ticket were accepted.
///
/// When the user holds as many sessions as the quota allows, the policy
/// decides: `deny` refuses the newcomer, `kick_oldest` evicts the user's
/// oldest session, which is sent `sys.kicked` and a close frame with code
/// 1008. Then the session is registered, unless the registry refuses it.
pub fn admit_session(
    core: &mut RealtimeCore,
    policy: &TenantPolicyRuntime,
    max_sessions_total: u64,
    tenant: &str,
    user_id: &str,
    session_id: &str,
    queue: Queue,
    trace_id: &str,
    now_ms: u64,
) -> (a: Admission)
    requires
        old(core).wf(),
    ensures
        final(core).wf(),
        final(core).presence@ == rooms_after_kick(
            old(core).presence@,
            a.kicked(),
            tenant@,
            user_key_of(tenant@, user_id@),
        ),
        a.kicked() matches Some(k) ==> forall|room: Seq<char>|
            !final(core).presence@.room_sessions.contains((room, k.session_key@)),
        ({
            let uk = user_key_of(tenant@, user_id@);
            let sk = session_key_of(uk, session_id@);
            let before = old(core).sessions@;
            let full = cap_reached(
                before.sessions_of(uk).len() as int,
                quota_of(policy.spec_sessions()),
            );
            let base = after_kick(before, a.kicked());
            &&& full && policy.spec_sessions().on_exceed == OnExceed::Deny ==> (a
                matches Admission::Denied { error } && error@ == error_frame(
                ClientCode::TooManySessions,
                "too many sessions"@,
                trace_id@,
            ) && final(core).sessions@ == before)
            &&& !(full && policy.spec_sessions().on_exceed == OnExceed::Deny) ==> !(a
                is Denied)
            &&& !full ==> a.kicked() is None
            &&& full && policy.spec_sessions().on_exceed == OnExceed::KickOldest ==> a.kicked()
                is Some
            &&& a.kicked() matches Some(k) ==> before.oldest_of(uk, k.session_key@) && kick_frames(
                k,
                trace_id@,
            )
            &&& a matches Admission::Refused { error, .. } ==> base.insert_refusal(
                tenant@,
                sk,
                max_sessions_total,
            ) matches Some(why) && why.reported_by(error) && final(core).sessions@ == base
            &&& a matches Admission::Admitted { conn, authed, .. } ==> {
                &&& base.insert_refusal(tenant@, sk, max_sessions_total) is None
                &&& final(core).sessions@ == base.inserted(tenant@, uk, sk, queue)
                &&& conn.wf()
                &&& conn.phase == Phase::Authed
                &&& conn.tenant_id@ == tenant@
                &&& conn.user_id@ == user_id@
                &&& conn.session_id@ == session_id@
                &&& conn.user_key@ == uk
                &&& conn.session_key@ == sk
                &&& conn.trace_id@ == trace_id@
                &&& conn.active_room is None
                &&& conn.last_activity_ms == now_ms
                &&& conn.bucket is Some == policy.connection_limited()
                &&& authed@ == WireView::Text(
                    sys_text(
                        "authed"@,
                        Some(authed_data(tenant@, user_id@, session_id@)),
                        None,
                        trace_id@,
                    ),
                )
            }
        }),
{
    let uk = user_key(tenant, user_id);
    let sk = session_key(uk.as_str(), session_id);
    let sessions = policy.sessions();
    let quota: u64 = match sessions.mode {
        SessionMode::Single => 1,
        SessionMode::Multi => sessions.max_sessions_per_user as u64,
    };
    let held = core.sessions.count_user_sessions(uk.as_str());
    let full = quota != 0 && held as u64 >= quota;
    let mut kicked: Option<KickReport> = None;
    if full {
        match sessions.on_exceed {
            OnExceed::Deny => {
                let text = crate::transport::sysmsg::sys_error_json(
                    ClientCode::TooManySessions.as_str(),
                    "too many sessions",
                    trace_id,
                );
                return Admission::Denied { error: WireMessage::Text(text) };
            },
            OnExceed::KickOldest => {
                match core.sessions.evict_oldest(uk.as_str()) {
                    Some((victim, victim_queue)) => {
                        let notice_frame = WireMessage::Text(
                            sys_kicked_json("max_sessions_exceeded", trace_id),
                        );
                        let close_frame = WireMessage::Close {
                            code: CLOSE_POLICY,
                            reason: "max_sessions_exceeded".to_owned(),
                        };
                        let notice = queue_try_send(&victim_queue, notice_frame.clone());
                        let close = queue_try_send(&victim_queue, close_frame.clone());
                        let rooms = core.presence.cleanup_session(
                            tenant,
                            uk.as_str(),
                            victim.as_str(),
                        );
                        proof {
                            lemma_owner_leaves_every_room(old(core), uk@, victim@, core.presence@);
                        }
                        kicked = Some(
                            KickReport {
                                session_key: victim,
                                notice_frame,
                                notice,
                                close_frame,
                                close,
                                rooms,
                            },
                        );
                    },
                    None => {
                        proof {
                            let before = old(core).sessions@;
                            assert(before.sessions_of(uk@) =~= Set::<Seq<char>>::empty());
                            assert(false);
                        }
                    },
                }
            },
        }
    }
    match core.sessions.try_insert(tenant, uk.as_str(), sk.as_str(), queue, max_sessions_total) {
        Err(error) => Admission::Refused { error, kicked },
        Ok(_) => {
            let authed = WireMessage::Text(sys_authed_json(tenant, user_id, session_id, trace_id));
            let conn = Connection {
                tenant_id: tenant.to_owned(),
                user_id: user_id.to_owned(),
                session_id: session_id.to_owned(),
                user_key: uk,
                session_key: sk,
                trace_id: trace_id.to_owned(),
                phase: Phase::Authed,
                active_room: None,
                last_activity_ms: now_ms,
                bucket: policy.connection_bucket(now_ms),
            };
            Admission::Admitted { conn, authed, kicked }
        },
    }
}

/// What cleanup released.
#[derive(Debug)]
pub struct Released {
    /// The session's queue, if the registry still held it.
    pub queue: Option<Queue>,
    /// The rooms that the session was taken out of.
    pub rooms: Vec<String>,
}

/// Clean up after a connection, on whatever path it left the loop: the
/// session leaves the registry and every room, and the connection is
/// gone. A second call finds nothing to do.
pub fn cleanup(conn: &mut Connection, core: &mut RealtimeCore) -> (r: Released)
    requires
        old(core).wf(),
    ensures
        final(core).wf(),
        final(conn).phase == Phase::Gone,
        old(conn).same_identity(final(conn)),
        old(conn).phase == Phase::Gone ==> r.queue is None && r.rooms.len() == 0
            && final(core).sessions@ == old(core).sessions@ && final(core).presence@ == old(
            core
        ).presence@,
        old(conn).phase != Phase::Gone ==> {
            &&& final(conn).active_room is None
            &&& !final(core).sessions@.rows.contains_key(old(conn).session_key@)
            &&& final(core).sessions@ == old(core).sessions@.removed(old(conn).session_key@)
            &&& r.queue == queue_of(old(core).sessions@, old(conn).session_key@)
            &&& forall|room: Seq<char>|
                !final(core).presence@.room_sessions.contains((room, old(conn).session_key@))
            &&& final(core).presence@ == rooms_after_cleanup(
                old(core),
                old(conn).session_key@,
                texts(r.rooms@),
            )
            &&& distinct(r.rooms@)
            &&& forall|room: Seq<char>|
                holds(r.rooms@, room) == old(core).presence@.room_sessions.contains(
                    (room, old(conn).session_key@),
                )
        },
{
    match conn.phase {
        Phase::Gone => {
            return Released { queue: None, rooms: Vec::new() };
        },
        _ => {},
    }
    conn.phase = Phase::Gone;
    conn.active_room = None;
    let ghost sk = conn.session_key@;
    let ghost before = old(core).sessions@;
    match core.sessions.get_session(conn.session_key.as_str()) {
        Some(row) => {
            proof {
                assert(before.index.contains((row.user_key@, sk)) == (before.rows.contains_key(sk)
                    && before.rows[sk].user_key == row.user_key@));
            }
            let queue = core.sessions.remove_session(
                row.user_key.as_str(),
                conn.session_key.as_str(),
            );
            let rooms = core.presence.cleanup_session(
                row.tenant_id.as_str(),
                row.user_key.as_str(),
                conn.session_key.as_str(),
            );
            proof {
                lemma_owner_leaves_every_room(old(core), row.user_key@, sk, core.presence@);
            }
            Released { queue, rooms }
        },
        None => {
            let rooms: Vec<String> = Vec::new();
            proof {
                assert forall|room: Seq<char>| !old(core).presence@.room_sessions.contains(
                    (room, sk),
                ) by {
                    if old(core).presence@.room_sessions.contains((room, sk)) {
                        assert(old(core).presence@.held(room, sk));
                        let u = choose|u: Seq<char>|
                            old(core).presence@.members.contains((u, room, sk));
                        assert(old(core).presence@.members.contains((u, room, sk)));
                    }
                }
                assert forall|room: Seq<char>| holds(rooms@, room) == old(
                    core
                ).presence@.room_sessions.contains((room, sk)) by {
                    if holds(rooms@, room) {
                        let i = choose|i: int| 0 <= i < rooms@.len() && (#[trigger] rooms@[i])@ == room;
                    }
                }
            }
            Released { queue: None, rooms }
        },
    }
}

/// In a sound core, once the session registered for `user` has left every
/// room under that user, it is in no room, and no membership of it is
/// left.
pub proof fn lemma_owner_leaves_every_room(
    core: &RealtimeCore,
    user: Seq<char>,
    session: Seq<char>,
    after: PresenceView,
)
    requires
        core.wf(),
        core.registers(user, session),
        forall|r: Seq<char>| #[trigger]
            after.room_sessions.contains((r, session)) == (core.presence@.room_sessions.contains(
                (r, session),
            ) && !core.presence@.members.contains((user, r, session))),
        forall|u: Seq<char>, r: Seq<char>, s: Seq<char>| #[trigger]
            after.members.contains((u, r, s)) == (core.presence@.members.contains((u, r, s)) && !(u
                == user && s == session)),
    ensures
        forall|r: Seq<char>| !after.room_sessions.contains((r, session)),
        forall|u: Seq<char>, r: Seq<char>, s: Seq<char>| #[trigger]
            after.members.contains((u, r, s)) ==> s != session && core.presence@.members.contains(
                (u, r, s),
            ),
{
    let v = core.presence@;
    assert forall|r: Seq<char>| !after.room_sessions.contains((r, session)) by {
        if after.room_sessions.contains((r, session)) {
            assert(v.room_sessions.contains((r, session)));
            assert(v.held(r, session));
            let u = choose|u: Seq<char>| v.members.contains((u, r, session));
            assert(v.members.contains((u, r, session)));
            assert(u == user);
        }
    }
    assert forall|u: Seq<char>, r: Seq<char>, s: Seq<char>| #[trigger]
        after.members.contains((u, r, s)) implies s != session && v.members.contains((u, r, s)) by {
        assert(v.members.contains((u, r, s)));
    }
}

} // verus!
