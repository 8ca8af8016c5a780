//! Egress engine: prepare once, send to many.
//!
//! Every primitive serializes the message once and then offers the
//! prepared form to each recipient's queue without waiting. Sends that must
//! wait are planned here and carried out by the caller.

use vstd::prelude::*;
use crate::error::WsPrismError;
use crate::realtime::keyset::{distinct, holds, lists_exactly};
use crate::strings::str_eq;
use crate::realtime::presence::Presence;
use crate::realtime::sessions::{queue_try_send, Queue, SendOutcome, SessionRegistry};
use crate::realtime::types::{
    prepare_error,
    prepare_fails,
    prepared_as,
    Outgoing,
    PreparedMsg,
    PreparedView,
    WireMessage,
    WireView,
};

verus! {

/// Close code sent to every session when the gateway drains.
pub const CLOSE_GOING_AWAY: u16 = 1001;

/// Close code sent to a session evicted by policy.
pub const CLOSE_POLICY: u16 = 1008;

/// What became of one recipient of a fan-out.
#[derive(Debug, Clone)]
pub struct Delivery {
    /// The recipient's session key.
    pub session_key: String,
    /// Outcome of the offer; `None` when the session had no row any more.
    pub outcome: Option<SendOutcome>,
}

/// One recipient of a planned reliable send.
#[derive(Debug, Clone)]
pub struct Recipient {
    /// The recipient's session key.
    pub session_key: String,
    /// A handle on the recipient's queue.
    pub queue: Queue,
}

/// A reliable fan-out, ready to be carried out: the caller awaits the
/// enqueue of `message` on every recipient's queue, each under the
/// deadline if there is one.
#[derive(Debug, Clone)]
pub struct ReliablePlan {
    /// The prepared message.
    pub message: PreparedMsg,
    /// Deadline per recipient in milliseconds; `None` waits without one.
    pub timeout_ms: Option<u64>,
    /// The recipients.
    pub recipients: Vec<Recipient>,
}

/// Whether `report` accounts for exactly `keys`, in order, with an outcome
/// for each key that has a row in `sessions`.
pub open spec fn accounts_for(
    report: Seq<Delivery>,
    keys: Seq<String>,
    sessions: &SessionRegistry,
) -> bool {
    &&& report.len() == keys.len()
    &&& forall|i: int|
        0 <= i < report.len() ==> (#[trigger] report[i]).session_key@ == keys[i]@
            && report[i].outcome is Some == sessions@.rows.contains_key(keys[i]@)
}

/// Whether `report` accounts, entry by entry, for some listing of exactly
/// the sessions in `targets`.
pub open spec fn covers(report: Seq<Delivery>, targets: Set<Seq<char>>, sessions: &SessionRegistry) -> bool {
    exists|keys: Seq<String>|
        #![trigger accounts_for(report, keys, sessions)]
        lists_exactly(keys, targets) && accounts_for(report, keys, sessions)
}

/// What a fan-out offered, and to whom.
#[derive(Debug, Clone)]
pub struct Broadcast {
    /// The frame that was offered to every recipient.
    pub frame: WireMessage,
    /// What became of each recipient.
    pub deliveries: Vec<Delivery>,
}

/// Whether `frame` is the prepared form of `out`, as a frame.
pub open spec fn carries(out: &Outgoing, frame: WireView) -> bool {
    match frame {
        WireView::Text(s) => prepared_as(out, PreparedView::Text(s)),
        WireView::Binary(b) => prepared_as(out, PreparedView::Binary(b)),
        _ => false,
    }
}

/// Whether `plan` is the reliable fan-out of `out` to the room under
/// `room_key`: the prepared message, the deadline that the message's QoS
/// asks for, and each session of the room that has a row, once.
pub open spec fn plans(core: &RealtimeCore, room_key: Seq<char>, out: &Outgoing, plan: ReliablePlan) -> bool {
    &&& plan.timeout_ms == out.qos.deadline()
    &&& prepared_as(out, plan.message@)
    &&& reaches(core, room_key, plan.recipients@)
}

/// Whether `recipients` are the sessions of the room under `room_key` that
/// have a row, each once.
pub open spec fn reaches(core: &RealtimeCore, room_key: Seq<char>, recipients: Seq<Recipient>) -> bool {
    &&& forall|i: int|
        0 <= i < recipients.len() ==> core.presence@.room_sessions.contains(
            (room_key, (#[trigger] recipients[i]).session_key@),
        ) && core.sessions@.rows.contains_key(recipients[i].session_key@)
    &&& forall|i: int, j: int|
        0 <= i < j < recipients.len() ==> (#[trigger] recipients[i]).session_key@ != (
        #[trigger] recipients[j]).session_key@
    &&& forall|s: Seq<char>|
        core.presence@.room_sessions.contains((room_key, s)) && core.sessions@.rows.contains_key(s)
            ==> exists|i: int|
            0 <= i < recipients.len() && (#[trigger] recipients[i]).session_key@ == s
}

/// No leak: in a sound core without registered sessions, no room holds a
/// session, no user is in a room, and no membership is left.
pub proof fn lemma_no_rows_no_rooms(core: &RealtimeCore)
    requires
        core.wf(),
        core.sessions@.rows =~= Map::empty(),
    ensures
        core.presence@.is_empty(),
{
    let v = core.presence@;
    assert forall|t: (Seq<char>, Seq<char>, Seq<char>)| !v.members.contains(t) by {
        if v.members.contains((t.0, t.1, t.2)) {
            assert(core.sessions@.rows.contains_key(t.2));
        }
    }
    assert forall|p: (Seq<char>, Seq<char>)| !v.room_sessions.contains(p) by {
        if v.room_sessions.contains((p.0, p.1)) {
            assert(v.held(p.0, p.1));
            let u = choose|u: Seq<char>| v.members.contains((u, p.0, p.1));
            assert(v.members.contains((u, p.0, p.1)));
        }
    }
    assert forall|p: (Seq<char>, Seq<char>)| !v.session_rooms.contains(p) by {
        assert(v.room_sessions.contains((p.1, p.0)) == v.session_rooms.contains((p.0, p.1)));
    }
    assert forall|p: (Seq<char>, Seq<char>)| !v.user_rooms.contains(p) by {
        assert(v.user_rooms.contains((p.0, p.1)) == v.user_present(p.0, p.1));
        if v.user_present(p.0, p.1) {
            let s = choose|s: Seq<char>| v.members.contains((p.0, p.1, s));
            assert(v.members.contains((p.0, p.1, s)));
        }
    }
    assert forall|p: (Seq<char>, Seq<char>)| !v.room_users.contains(p) by {
        assert(v.room_users.contains((p.0, p.1)) == v.user_rooms.contains((p.1, p.0)));
    }
}

/// The realtime core: the session registry, the presence registry and the
/// fan-out primitives over them.
pub struct RealtimeCore {
    pub sessions: SessionRegistry,
    pub presence: Presence,
}

impl RealtimeCore {
    /// Whether every room membership belongs to a registered session and is
    /// held under that session's user.
    pub open spec fn tied(&self) -> bool {
        forall|u: Seq<char>, r: Seq<char>, s: Seq<char>| #[trigger]
            self.presence@.members.contains((u, r, s)) ==> self.sessions@.rows.contains_key(s)
                && self.sessions@.rows[s].user_key == u
    }

    /// The core's invariant: both registries are sound, and rooms hold
    /// registered sessions only, each under the user it is registered for.
    pub open spec fn wf(&self) -> bool {
        self.sessions.wf() && self.presence.wf() && self.tied()
    }

    /// Whether `session_key` is registered for `user_key`.
    pub open spec fn registers(&self, user_key: Seq<char>, session_key: Seq<char>) -> bool {
        self.sessions@.rows.contains_key(session_key) && self.sessions@.rows[session_key].user_key
            == user_key
    }

    /// Whether `session_key` is registered for `user_key`.
    pub fn is_registered(&self, user_key: &str, session_key: &str) -> (b: bool)
        ensures
            b == self.registers(user_key@, session_key@),
    {
        match self.sessions.get_session(session_key) {
            Some(row) => str_eq(row.user_key.as_str(), user_key),
            None => false,
        }
    }

    /// A core with empty registries.
    pub fn new() -> (c: RealtimeCore)
        ensures
            c.wf(),
            c.presence@.is_empty(),
            c.sessions@.index =~= Set::empty(),
            c.sessions@.next_seq == 1,
    {
        RealtimeCore { sessions: SessionRegistry::new(), presence: Presence::new() }
    }

    /// Offer `frame` to the queue of each of `keys`, in order, without
    /// waiting.
    pub fn offer(&self, keys: &Vec<String>, frame: WireMessage) -> (b: Broadcast)
        ensures
            b.frame == frame,
            accounts_for(b.deliveries@, keys@, &self.sessions),
    {
        let mut report: Vec<Delivery> = Vec::new();
        let mut k: usize = 0;
        while k < keys.len()
            invariant
                k <= keys.len(),
                report.len() == k,
                forall|i: int|
                    0 <= i < k ==> (#[trigger] report[i]).session_key@ == keys[i]@
                        && report[i].outcome is Some == self.sessions@.rows.contains_key(keys[i]@),
            decreases keys.len() - k,
        {
            let outcome = match self.sessions.get_session(keys[k].as_str()) {
                Some(row) => Some(queue_try_send(&row.queue, frame.clone())),
                None => None,
            };
            report.push(Delivery { session_key: keys[k].clone(), outcome });
            k += 1;
        }
        Broadcast { frame, deliveries: report }
    }

    /// Send to every session of a user. Fails when the message cannot be
    /// prepared or the user has no session.
    pub fn send_to_user(&self, user_key: &str, out: &Outgoing) -> (res: Result<
        Broadcast,
        WsPrismError,
    >)
        requires
            self.wf(),
        ensures
            match res {
                Ok(b) => b.deliveries.len() > 0 && carries(out, b.frame@) && covers(
                    b.deliveries@,
                    self.sessions@.sessions_of(user_key@),
                    &self.sessions,
                ),
                Err(e) => if forall|s: Seq<char>| !self.sessions@.index.contains((user_key@, s)) {
                    e.is_bad_request("user not connected"@)
                } else {
                    prepare_fails(out) && e.is_bad_request(prepare_error(out))
                },
            },
            prepare_fails(out) ==> res is Err,
            (forall|s: Seq<char>| !self.sessions@.index.contains((user_key@, s))) ==> res is Err,
    {
        let keys = self.sessions.get_user_sessions(user_key);
        if keys.len() == 0 {
            proof {
                assert forall|s: Seq<char>| !self.sessions@.index.contains((user_key@, s)) by {
                    if holds(keys@, s) {
                        let i = choose|i: int| 0 <= i < keys@.len() && (#[trigger] keys@[i])@ == s;
                    }
                }
            }
            return Err(WsPrismError::BadRequest("user not connected".to_owned()));
        }
        proof {
            assert(holds(keys@, keys@[0]@));
        }
        let prepared = match PreparedMsg::prepare(out) {
            Ok(p) => p,
            Err(e) => {
                return Err(e);
            },
        };
        let b = self.offer(&keys, prepared.to_ws_message());
        assert(accounts_for(b.deliveries@, keys@, &self.sessions));
        assert(lists_exactly(keys@, self.sessions@.sessions_of(user_key@)));
        Ok(b)
    }

    /// Send to one session. The one delivery has no outcome when the
    /// session has no row.
    pub fn send_to_session(&self, session_key: &str, out: &Outgoing) -> (res: Result<
        Broadcast,
        WsPrismError,
    >)
        ensures
            res is Err <==> prepare_fails(out),
            res matches Err(e) ==> e.is_bad_request(prepare_error(out)),
            res matches Ok(b) ==> carries(out, b.frame@) && b.deliveries.len() == 1
                && b.deliveries[0].session_key@ == session_key@ && b.deliveries[0].outcome
                is Some == self.sessions@.rows.contains_key(session_key@),
    {
        let prepared = match PreparedMsg::prepare(out) {
            Ok(p) => p,
            Err(e) => {
                return Err(e);
            },
        };
        let mut keys: Vec<String> = Vec::new();
        keys.push(session_key.to_owned());
        Ok(self.offer(&keys, prepared.to_ws_message()))
    }

    /// Lossy broadcast: one offer per session in the room, none of which
    /// waits; a full queue drops the message for that recipient.
    pub fn publish_room_lossy(&self, room_key: &str, out: &Outgoing) -> (res: Result<
        Broadcast,
        WsPrismError,
    >)
        requires
            self.wf(),
        ensures
            res is Err <==> prepare_fails(out),
            res matches Err(e) ==> e.is_bad_request(prepare_error(out)),
            res matches Ok(b) ==> carries(out, b.frame@) && covers(
                b.deliveries@,
                self.presence@.sessions_in(room_key@),
                &self.sessions,
            ),
    {
        let prepared = match PreparedMsg::prepare(out) {
            Ok(p) => p,
            Err(e) => {
                return Err(e);
            },
        };
        let keys = self.presence.sessions_in(room_key);
        let b = self.offer(&keys, prepared.to_ws_message());
        assert(accounts_for(b.deliveries@, keys@, &self.sessions));
        assert(lists_exactly(keys@, self.presence@.sessions_in(room_key@)));
        Ok(b)
    }

    /// Plan a reliable broadcast: the prepared message, the deadline that
    /// the message's QoS asks for, and a queue handle for each session in
    /// the room that still has a row.
    pub fn plan_room_reliable(&self, room_key: &str, out: &Outgoing) -> (res: Result<
        ReliablePlan,
        WsPrismError,
    >)
        requires
            self.wf(),
        ensures
            res is Err <==> prepare_fails(out),
            res matches Err(e) ==> e.is_bad_request(prepare_error(out)),
            res matches Ok(plan) ==> plans(self, room_key@, out, plan),
    {
        let prepared = match PreparedMsg::prepare(out) {
            Ok(p) => p,
            Err(e) => {
                return Err(e);
            },
        };
        let keys = self.presence.sessions_in(room_key);
        let mut recipients: Vec<Recipient> = Vec::new();
        let mut k: usize = 0;
        while k < keys.len()
            invariant
                k <= keys.len(),
                distinct(keys@),
                forall|s: Seq<char>|
                    holds(keys@, s) == self.presence@.room_sessions.contains((room_key@, s)),
                forall|i: int|
                    0 <= i < recipients.len() ==> self.presence@.room_sessions.contains(
                        (room_key@, (#[trigger] recipients[i]).session_key@),
                    ) && self.sessions@.rows.contains_key(recipients[i].session_key@),
                forall|i: int|
                    0 <= i < recipients.len() ==> exists|j: int|
                        0 <= j < k && (#[trigger] keys[j])@ == (#[trigger] recipients[i]).session_key@,
                forall|i: int, j: int|
                    0 <= i < j < recipients.len() ==> (#[trigger] recipients[i]).session_key@ != (
                    #[trigger] recipients[j]).session_key@,
                forall|j: int|
                    0 <= j < k && self.sessions@.rows.contains_key((#[trigger] keys[j])@)
                        ==> exists|i: int|
                        0 <= i < recipients.len() && (#[trigger] recipients[i]).session_key@
                            == keys[j]@,
            decreases keys.len() - k,
        {
            let ghost before = recipients@;
            match self.sessions.get_session(keys[k].as_str()) {
                Some(row) => {
                    assert(holds(keys@, keys[k as int]@));
                    recipients.push(Recipient { session_key: keys[k].clone(), queue: row.queue });
                    proof {
                        let last = recipients.len() - 1;
                        assert(recipients[last as int].session_key@ == keys[k as int]@);
                        assert forall|i: int|
                            0 <= i < recipients.len() implies exists|j: int|
                            0 <= j < k + 1 && (#[trigger] keys[j])@ == (
                            #[trigger] recipients[i]).session_key@ by {
                            if i < last {
                                let j = choose|j: int|
                                    0 <= j < k && (#[trigger] keys[j])@ == before[i].session_key@;
                                assert(keys[j]@ == recipients[i].session_key@);
                            } else {
                                assert(keys[k as int]@ == recipients[i].session_key@);
                            }
                        }
                        assert forall|i: int, j: int|
                            0 <= i < j < recipients.len() implies (
                        #[trigger] recipients[i]).session_key@ != (
                        #[trigger] recipients[j]).session_key@ by {
                            if j == last {
                                let w = choose|w: int|
                                    0 <= w < k && (#[trigger] keys[w])@ == before[i].session_key@;
                                assert(keys[w]@ != keys[k as int]@);
                            } else {
                                assert(before[i].session_key@ != before[j].session_key@);
                            }
                        }
                        assert forall|j: int|
                            0 <= j < k + 1 && self.sessions@.rows.contains_key(
                                (#[trigger] keys[j])@,
                            ) implies exists|i: int|
                            0 <= i < recipients.len() && (#[trigger] recipients[i]).session_key@
                                == keys[j]@ by {
                            if j < k {
                                let i = choose|i: int|
                                    0 <= i < before.len() && (#[trigger] before[i]).session_key@
                                        == keys[j]@;
                                assert(recipients[i].session_key@ == keys[j]@);
                            }
                        }
                    }
                },
                None => {},
            }
            k += 1;
        }
        proof {
            assert forall|s: Seq<char>|
                self.presence@.room_sessions.contains((room_key@, s))
                    && self.sessions@.rows.contains_key(s) implies exists|i: int|
                0 <= i < recipients.len() && (#[trigger] recipients[i]).session_key@ == s by {
                assert(holds(keys@, s));
                let j = choose|j: int| 0 <= j < keys@.len() && (#[trigger] keys@[j])@ == s;
                assert(self.sessions@.rows.contains_key(keys[j]@));
            }
        }
        let plan = ReliablePlan { message: prepared, timeout_ms: out.qos.timeout(), recipients };
        assert(reaches(self, room_key@, plan.recipients@));
        assert(plans(self, room_key@, out, plan));
        Ok(plan)
    }

    /// Drain: offer a close frame with code 1001 and the given reason to
    /// every session, without waiting.
    pub fn best_effort_shutdown_all(&self, reason: &str) -> (b: Broadcast)
        ensures
            b.frame@ == WireView::Close(CLOSE_GOING_AWAY, reason@),
            covers(b.deliveries@, self.sessions@.rows.dom(), &self.sessions),
    {
        let keys = self.sessions.all_sessions();
        let frame = WireMessage::Close { code: CLOSE_GOING_AWAY, reason: reason.to_owned() };
        let b = self.offer(&keys, frame);
        assert(accounts_for(b.deliveries@, keys@, &self.sessions));
        assert(lists_exactly(keys@, self.sessions@.rows.dom()));
        b
    }
}

} // verus!
