//! Session registry.
//!
//! One row per live session, an index from each user to the user's
//! sessions, and a session count per tenant. Rows are stamped with a
//! strictly increasing sequence number, by which the oldest session of a
//! user is found.

use vstd::prelude::*;
use dashmap::DashMap;
use tokio::sync::mpsc::error::TrySendError;
use tokio::sync::mpsc::Sender;
use crate::error::WsPrismError;
use crate::realtime::keyset::{distinct, holds};
use crate::realtime::presence::cap_reached;
use crate::realtime::store::{
    counter_value,
    counters,
    counters_insert,
    counters_new,
    counters_remove,
    lemma_fan,
    list_add,
    list_fan,
    list_members,
    list_remove,
    lists,
    lists_new,
    lists_wf,
    members_of,
    pairs,
    CounterTable,
    ListTable,
};
use crate::realtime::types::WireMessage;

verus! {

#[verifier::external_type_specification]
#[verifier::external_body]
#[verifier::reject_recursive_types(T)]
pub struct ExSender<T>(Sender<T>);

/// `Clone::clone` on a `Sender`: another handle on the channel. Nothing is
/// claimed of it.
pub assume_specification<T>[ <Sender<T> as Clone>::clone ](s: &Sender<T>) -> (c: Sender<T>)
;

/// The sending half of a session's outbound queue.
pub type Queue = Sender<WireMessage>;

/// What became of a message offered to a queue without waiting.
#[derive(Debug, Clone, Copy, PartialEq, Eq, Structural)]
pub enum SendOutcome {
    /// The message is in the queue.
    Sent,
    /// The queue is full; the message was dropped.
    Full,
    /// The receiving half is gone; the message was dropped.
    Closed,
}

/// `Sender::try_send`: offers the message without waiting. Which outcome
/// comes back depends on the state of the channel, so none is promised.
#[verifier::external_body]
pub(crate) fn queue_try_send(q: &Queue, m: WireMessage) -> (o: SendOutcome) {
    match q.try_send(m) {
        Ok(()) => SendOutcome::Sent,
        Err(TrySendError::Full(_)) => SendOutcome::Full,
        Err(TrySendError::Closed(_)) => SendOutcome::Closed,
    }
}

/// One row of the session table.
#[derive(Debug, Clone)]
pub struct Session {
    /// The user behind the session.
    pub user_key: String,
    /// The tenant of that user.
    pub tenant_id: String,
    /// Stamp taken at admission; smaller is older.
    pub created_seq: u64,
    /// Sending half of the outbound queue.
    pub queue: Queue,
}

/// Mathematical content of a row.
pub struct SessionView {
    pub user_key: Seq<char>,
    pub tenant_id: Seq<char>,
    pub created_seq: u64,
    pub queue: Queue,
}

impl View for Session {
    type V = SessionView;

    open spec fn view(&self) -> SessionView {
        SessionView {
            user_key: self.user_key@,
            tenant_id: self.tenant_id@,
            created_seq: self.created_seq,
            queue: self.queue,
        }
    }
}

/// The table of rows, keyed by session key.
pub type SessionTable = DashMap<String, Session>;

/// What a session table holds.
pub uninterp spec fn session_rows(t: SessionTable) -> Map<Seq<char>, SessionView>;

/// `DashMap::new`: an empty table.
#[verifier::external_body]
fn rows_new() -> (t: SessionTable)
    ensures
        (session_rows(t) == Map::<Seq<char>, SessionView>::empty()),
{
    DashMap::new()
}

/// `DashMap::get`, cloning the row out: the row under `key`, if any. The
/// queue of the copy is another handle on the row's channel, of which
/// nothing is claimed.
#[verifier::external_body]
fn rows_get(t: &SessionTable, key: &str) -> (r: Option<Session>)
    ensures
        r is Some == session_rows(*t).contains_key(key@),
        r matches Some(s) ==> s.user_key@ == session_rows(*t)[key@].user_key && s.tenant_id@
            == session_rows(*t)[key@].tenant_id && s.created_seq == session_rows(
            *t,
        )[key@].created_seq,
{
    t.get(key).map(|r| r.value().clone())
}

/// `DashMap::insert`: binds `key` to `row`, replacing what was bound.
#[verifier::external_body]
fn rows_insert(t: &mut SessionTable, key: String, row: Session)
    ensures
        session_rows(*final(t)) == session_rows(*old(t)).insert(key@, row@),
{
    t.insert(key, row);
}

/// `DashMap::remove`: unbinds `key` and hands out the row that was bound,
/// if any.
#[verifier::external_body]
fn rows_remove(t: &mut SessionTable, key: &str) -> (r: Option<Session>)
    ensures
        session_rows(*final(t)) == session_rows(*old(t)).remove(key@),
        r is Some == session_rows(*old(t)).contains_key(key@),
        r matches Some(s) ==> s@ == session_rows(*old(t))[key@],
{
    t.remove(key).map(|(_, v)| v)
}

/// `DashMap::iter`, cloning each key out: the keys of the table, each
/// once, in the order in which the map happens to be walked.
#[verifier::external_body]
fn rows_keys(t: &SessionTable) -> (v: Vec<String>)
    ensures
        distinct(v@),
        forall|k: Seq<char>| holds(v@, k) == session_rows(*t).contains_key(k),
{
    t.iter().map(|e| e.key().clone()).collect()
}

/// Mathematical content of the session registry.
#[verifier::ext_equal]
pub struct SessionsView {
    /// The rows, by session key.
    pub rows: Map<Seq<char>, SessionView>,
    /// Pairs of a user and a session of that user.
    pub index: Set<(Seq<char>, Seq<char>)>,
    /// Number of sessions per tenant; a tenant without sessions is absent.
    pub tenant_counts: Map<Seq<char>, u64>,
    /// The stamp that the next admitted session gets.
    pub next_seq: u64,
}

/// Why an insertion is refused.
pub enum InsertRefusal {
    /// The session key is registered already.
    Duplicate,
    /// The tenant holds as many sessions as it may.
    TenantFull,
    /// No stamp is left.
    StampsExhausted,
}

impl InsertRefusal {
    /// Whether `e` is the error that reports this refusal.
    pub open spec fn reported_by(self, e: WsPrismError) -> bool {
        match self {
            InsertRefusal::Duplicate => e.is_bad_request("session already registered"@),
            InsertRefusal::TenantFull => e.is_resource_exhausted("tenant session limit reached"@),
            InsertRefusal::StampsExhausted => e.is_internal("session sequence exhausted"@),
        }
    }
}

impl SessionsView {
    /// Number of sessions of `tenant`.
    pub open spec fn tenant_count(self, tenant: Seq<char>) -> int {
        if self.tenant_counts.contains_key(tenant) {
            self.tenant_counts[tenant] as int
        } else {
            0
        }
    }

    /// The sessions of `user`.
    pub open spec fn sessions_of(self, user: Seq<char>) -> Set<Seq<char>> {
        Set::new(|s: Seq<char>| self.index.contains((user, s)))
    }

    /// The registry's invariant: the index holds exactly the pairs of a
    /// row's user and key, stamps are below the next stamp and pairwise
    /// distinct, and no stored count is zero.
    pub open spec fn wf(self) -> bool {
        &&& forall|u: Seq<char>, s: Seq<char>| #[trigger]
            self.index.contains((u, s)) == (self.rows.contains_key(s) && self.rows[s].user_key == u)
        &&& self.next_seq >= 1
        &&& forall|s: Seq<char>| #[trigger]
            self.rows.contains_key(s) ==> 1 <= self.rows[s].created_seq < self.next_seq
        &&& forall|s1: Seq<char>, s2: Seq<char>|
            #![trigger self.rows[s1], self.rows[s2]]
            self.rows.contains_key(s1) && self.rows.contains_key(s2) && s1 != s2
                ==> self.rows[s1].created_seq != self.rows[s2].created_seq
        &&& forall|t: Seq<char>| #[trigger]
            self.tenant_counts.contains_key(t) ==> self.tenant_counts[t] > 0
    }

    /// The reason, if any, for which an insertion is refused: a duplicate
    /// key first, then the tenant's cap, then the supply of stamps.
    pub open spec fn insert_refusal(self, tenant: Seq<char>, session: Seq<char>, cap: u64) -> Option<
        InsertRefusal,
    > {
        if self.rows.contains_key(session) {
            Some(InsertRefusal::Duplicate)
        } else if cap_reached(self.tenant_count(tenant), cap) {
            Some(InsertRefusal::TenantFull)
        } else if self.next_seq == u64::MAX {
            Some(InsertRefusal::StampsExhausted)
        } else {
            None
        }
    }

    /// The tenant's count raised by one, saturating.
    pub open spec fn count_up(self, tenant: Seq<char>) -> Map<Seq<char>, u64> {
        let c = self.tenant_count(tenant);
        self.tenant_counts.insert(
            tenant,
            if c >= u64::MAX {
                u64::MAX
            } else {
                (c + 1) as u64
            },
        )
    }

    /// The tenant's count lowered by one; a count that reaches zero is
    /// dropped.
    pub open spec fn count_down(self, tenant: Seq<char>) -> Map<Seq<char>, u64> {
        let c = self.tenant_count(tenant);
        if c <= 1 {
            self.tenant_counts.remove(tenant)
        } else {
            self.tenant_counts.insert(tenant, (c - 1) as u64)
        }
    }

    /// The registry after an admitted insertion.
    pub open spec fn inserted(
        self,
        tenant: Seq<char>,
        user: Seq<char>,
        session: Seq<char>,
        queue: Queue,
    ) -> SessionsView {
        SessionsView {
            rows: self.rows.insert(
                session,
                SessionView { user_key: user, tenant_id: tenant, created_seq: self.next_seq, queue },
            ),
            index: self.index.insert((user, session)),
            tenant_counts: self.count_up(tenant),
            next_seq: (self.next_seq + 1) as u64,
        }
    }

    /// The registry without the row of `session`.
    pub open spec fn removed(self, session: Seq<char>) -> SessionsView {
        if self.rows.contains_key(session) {
            SessionsView {
                rows: self.rows.remove(session),
                index: self.index.remove((self.rows[session].user_key, session)),
                tenant_counts: self.count_down(self.rows[session].tenant_id),
                next_seq: self.next_seq,
            }
        } else {
            self
        }
    }

    /// Whether `victim` is the oldest session of `user`.
    pub open spec fn oldest_of(self, user: Seq<char>, victim: Seq<char>) -> bool {
        &&& self.index.contains((user, victim))
        &&& forall|s: Seq<char>| #[trigger]
            self.index.contains((user, s)) ==> self.rows[victim].created_seq
                <= self.rows[s].created_seq
    }
}

/// No leak: once the index relates no user to a session, no row is left.
pub proof fn lemma_no_index_no_rows(v: SessionsView)
    requires
        v.wf(),
        v.index =~= Set::empty(),
    ensures
        v.rows =~= Map::empty(),
{
    assert forall|s: Seq<char>| !v.rows.contains_key(s) by {
        if v.rows.contains_key(s) {
            assert(v.index.contains((v.rows[s].user_key, s)));
        }
    }
}

/// Inserting a session and removing it again restores the rows, the index
/// and the tenant counts; only the next stamp has moved on.
pub proof fn lemma_insert_then_remove(
    v: SessionsView,
    tenant: Seq<char>,
    user: Seq<char>,
    session: Seq<char>,
    queue: Queue,
)
    requires
        v.wf(),
        !v.rows.contains_key(session),
        v.tenant_count(tenant) < u64::MAX,
        v.next_seq < u64::MAX,
    ensures
        v.inserted(tenant, user, session, queue).removed(session).rows == v.rows,
        v.inserted(tenant, user, session, queue).removed(session).index == v.index,
        v.inserted(tenant, user, session, queue).removed(session).tenant_counts == v.tenant_counts,
        v.inserted(tenant, user, session, queue).removed(session).next_seq == v.next_seq + 1,
{
    let w = v.inserted(tenant, user, session, queue).removed(session);
    assert(!v.index.contains((user, session))) by {
        assert(v.index.contains((user, session)) == (v.rows.contains_key(session)
            && v.rows[session].user_key == user));
    }
    assert(w.rows =~= v.rows);
    assert(w.index =~= v.index);
    assert(w.tenant_counts =~= v.tenant_counts) by {
        if v.tenant_counts.contains_key(tenant) {
            assert(v.tenant_counts[tenant] > 0);
        }
    }
}

/// Session registry.
pub struct SessionRegistry {
    rows: SessionTable,
    index: ListTable,
    counts: CounterTable,
    next_seq: u64,
}

impl View for SessionRegistry {
    type V = SessionsView;

    closed spec fn view(&self) -> SessionsView {
        SessionsView {
            rows: session_rows(self.rows),
            index: pairs(lists(self.index)),
            tenant_counts: counters(self.counts),
            next_seq: self.next_seq,
        }
    }
}

impl SessionRegistry {
    /// The tables' own invariant.
    pub closed spec fn tables_wf(&self) -> bool {
        lists_wf(lists(self.index))
    }

    /// The registry's invariant.
    pub open spec fn wf(&self) -> bool {
        self.tables_wf() && self@.wf()
    }

    /// An empty registry, whose first stamp is 1.
    pub fn new() -> (r: SessionRegistry)
        ensures
            r.wf(),
            (r@.rows == Map::<Seq<char>, SessionView>::empty()),
            r@.index =~= Set::empty(),
            (r@.tenant_counts == Map::<Seq<char>, u64>::empty()),
            r@.next_seq == 1,
    {
        SessionRegistry { rows: rows_new(), index: lists_new(), counts: counters_new(), next_seq: 1 }
    }

    /// Admit a session. Refused, with the registry unchanged, when the key
    /// is taken, when the tenant's cap is reached (a cap of zero does not
    /// cap), or when no stamp is left.
    pub fn try_insert(
        &mut self,
        tenant: &str,
        user_key: &str,
        session_key: &str,
        queue: Queue,
        max_tenant_sessions: u64,
    ) -> (res: Result<(), WsPrismError>)
        requires
            old(self).wf(),
        ensures
            final(self).wf(),
            match old(self)@.insert_refusal(tenant@, session_key@, max_tenant_sessions) {
                Some(why) => res matches Err(e) && why.reported_by(e) && final(self)@ == old(self)@,
                None => res is Ok && final(self)@ == old(self)@.inserted(
                    tenant@,
                    user_key@,
                    session_key@,
                    queue,
                ),
            },
    {
        let ghost v0 = self@;
        if rows_get(&self.rows, session_key).is_some() {
            return Err(WsPrismError::BadRequest("session already registered".to_owned()));
        }
        let count = counter_value(&self.counts, tenant);
        if max_tenant_sessions != 0 && count >= max_tenant_sessions {
            return Err(
                WsPrismError::ResourceExhausted("tenant session limit reached".to_owned()),
            );
        }
        if self.next_seq == u64::MAX {
            return Err(WsPrismError::Internal("session sequence exhausted".to_owned()));
        }
        let row = Session {
            user_key: user_key.to_owned(),
            tenant_id: tenant.to_owned(),
            created_seq: self.next_seq,
            queue,
        };
        rows_insert(&mut self.rows, session_key.to_owned(), row);
        list_add(&mut self.index, user_key, session_key);
        let next: u64 = if count == u64::MAX {
            u64::MAX
        } else {
            count + 1
        };
        counters_insert(&mut self.counts, tenant.to_owned(), next);
        self.next_seq = self.next_seq + 1;
        proof {
            let v1 = self@;
            let want = v0.inserted(tenant@, user_key@, session_key@, queue);
            assert(v1 =~= want);
            assert forall|u: Seq<char>, s: Seq<char>| #[trigger]
                v1.index.contains((u, s)) == (v1.rows.contains_key(s) && v1.rows[s].user_key
                    == u) by {
                assert(v0.index.contains((u, s)) == (v0.rows.contains_key(s) && v0.rows[s].user_key
                    == u));
            }
            assert(v1.wf());
        }
        Ok(())
    }

    /// Remove the session of `user_key` under `session_key` and hand out
    /// its queue. Nothing happens, and nothing is handed out, when there
    /// is no such row or it belongs to another user.
    pub fn remove_session(&mut self, user_key: &str, session_key: &str) -> (q: Option<Queue>)
        requires
            old(self).wf(),
        ensures
            final(self).wf(),
            old(self)@.index.contains((user_key@, session_key@)) ==> q == Some(
                old(self)@.rows[session_key@].queue,
            ) && final(self)@ == old(self)@.removed(session_key@),
            !old(self)@.index.contains((user_key@, session_key@)) ==> q is None && final(self)@
                == old(self)@,
            !final(self)@.index.contains((user_key@, session_key@)),
    {
        let ghost v0 = self@;
        assert(v0.index.contains((user_key@, session_key@)) == (v0.rows.contains_key(session_key@)
            && v0.rows[session_key@].user_key == user_key@));
        if !crate::realtime::store::list_has(&self.index, user_key, session_key) {
            return None;
        }
        let row = match rows_remove(&mut self.rows, session_key) {
            Some(r) => r,
            None => {
                return None;
            },
        };
        list_remove(&mut self.index, user_key, session_key);
        let count = counter_value(&self.counts, row.tenant_id.as_str());
        if count <= 1 {
            counters_remove(&mut self.counts, row.tenant_id.as_str());
        } else {
            counters_insert(&mut self.counts, row.tenant_id.clone(), count - 1);
        }
        proof {
            let v1 = self@;
            let want = v0.removed(session_key@);
            assert(v1 =~= want);
            assert forall|u: Seq<char>, s: Seq<char>| #[trigger]
                v1.index.contains((u, s)) == (v1.rows.contains_key(s) && v1.rows[s].user_key
                    == u) by {
                assert(v0.index.contains((u, s)) == (v0.rows.contains_key(s) && v0.rows[s].user_key
                    == u));
            }
            assert(v1.wf());
        }
        Some(row.queue)
    }

    /// Remove the oldest session of `user_key`, the one with the smallest
    /// stamp, and hand out its key and queue. Nothing happens when the
    /// user has no session.
    pub fn evict_oldest(&mut self, user_key: &str) -> (r: Option<(String, Queue)>)
        requires
            old(self).wf(),
        ensures
            final(self).wf(),
            match r {
                None => (forall|s: Seq<char>| !old(self)@.index.contains((user_key@, s)))
                    && final(self)@ == old(self)@,
                Some((victim, q)) => old(self)@.oldest_of(user_key@, victim@) && q == old(
                    self
                )@.rows[victim@].queue && final(self)@ == old(self)@.removed(victim@),
            },
    {
        let ghost v0 = self@;
        let keys = list_members(&self.index, user_key);
        let mut best: Option<(usize, u64)> = None;
        let mut k: usize = 0;
        while k < keys.len()
            invariant
                k <= keys.len(),
                self.wf(),
                self@ == v0,
                forall|s: Seq<char>| holds(keys@, s) == v0.index.contains((user_key@, s)),
                match best {
                    None => k == 0,
                    Some((bi, bseq)) => bi < k && bseq == v0.rows[keys[bi as int]@].created_seq
                        && forall|i: int|
                        0 <= i < k ==> bseq <= v0.rows[(#[trigger] keys[i])@].created_seq,
                },
            decreases keys.len() - k,
        {
            proof {
                assert(holds(keys@, keys[k as int]@));
                assert(v0.index.contains((user_key@, keys[k as int]@)) == (v0.rows.contains_key(
                    keys[k as int]@,
                ) && v0.rows[keys[k as int]@].user_key == user_key@));
            }
            match rows_get(&self.rows, keys[k].as_str()) {
                Some(row) => {
                    let better = match best {
                        None => true,
                        Some((_, bseq)) => row.created_seq < bseq,
                    };
                    if better {
                        best = Some((k, row.created_seq));
                    }
                },
                None => {
                    assert(false);
                },
            }
            k += 1;
        }
        match best {
            None => {
                proof {
                    assert forall|s: Seq<char>| !v0.index.contains((user_key@, s)) by {
                        if holds(keys@, s) {
                            let i = choose|i: int| 0 <= i < keys@.len() && (#[trigger] keys@[i])@ == s;
                        }
                    }
                }
                None
            },
            Some((bi, _)) => {
                let victim = keys[bi].clone();
                proof {
                    assert(holds(keys@, victim@));
                    assert forall|s: Seq<char>| #[trigger]
                        v0.index.contains((user_key@, s)) implies v0.rows[victim@].created_seq
                        <= v0.rows[s].created_seq by {
                        assert(holds(keys@, s));
                        let i = choose|i: int| 0 <= i < keys@.len() && (#[trigger] keys@[i])@ == s;
                    }
                }
                match self.remove_session(user_key, victim.as_str()) {
                    Some(q) => Some((victim, q)),
                    None => None,
                }
            },
        }
    }

    /// A copy of the row of `session_key`, if there is one.
    pub fn get_session(&self, session_key: &str) -> (r: Option<Session>)
        ensures
            r is Some == self@.rows.contains_key(session_key@),
            r matches Some(s) ==> s.user_key@ == self@.rows[session_key@].user_key && s.tenant_id@
                == self@.rows[session_key@].tenant_id && s.created_seq
                == self@.rows[session_key@].created_seq,
    {
        rows_get(&self.rows, session_key)
    }

    /// Snapshot of the session keys of `user_key`, each once, in no
    /// particular order.
    pub fn get_user_sessions(&self, user_key: &str) -> (v: Vec<String>)
        requires
            self.wf(),
        ensures
            distinct(v@),
            forall|s: Seq<char>| holds(v@, s) == self@.index.contains((user_key@, s)),
            v.len() == self@.sessions_of(user_key@).len(),
    {
        proof {
            lemma_fan(lists(self.index), user_key@);
            assert(self@.sessions_of(user_key@) =~= members_of(lists(self.index), user_key@));
        }
        list_members(&self.index, user_key)
    }

    /// Number of sessions of `user_key`.
    pub fn count_user_sessions(&self, user_key: &str) -> (n: usize)
        requires
            self.wf(),
        ensures
            n == self@.sessions_of(user_key@).len(),
    {
        proof {
            lemma_fan(lists(self.index), user_key@);
            assert(self@.sessions_of(user_key@) =~= members_of(lists(self.index), user_key@));
        }
        list_fan(&self.index, user_key)
    }

    /// Number of sessions of `tenant`.
    pub fn count_tenant_sessions(&self, tenant: &str) -> (n: u64)
        ensures
            n == self@.tenant_count(tenant@),
    {
        counter_value(&self.counts, tenant)
    }

    /// Snapshot of every session key, each once, in no particular order.
    pub fn all_sessions(&self) -> (v: Vec<String>)
        ensures
            distinct(v@),
            forall|s: Seq<char>| holds(v@, s) == self@.rows.contains_key(s),
    {
        rows_keys(&self.rows)
    }
}

} // verus!
