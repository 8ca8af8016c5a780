//! Room presence.
//!
//! The registry relates rooms to the sessions in them and, for governance,
//! rooms to the users behind those sessions. A user is in a room while at
//! least one of the user's sessions is.

use vstd::prelude::*;
use crate::error::{fails_resource_exhausted, WsPrismError};
use crate::realtime::keyset::{distinct, holds, lemma_texts, texts};
use crate::realtime::store::{
    counter_value,
    counters,
    counters_insert,
    counters_new,
    counters_remove,
    lemma_fan,
    lemma_pair_fan,
    list_add,
    list_fan,
    list_has,
    list_members,
    list_remove,
    listed,
    lists,
    lists_new,
    lists_wf,
    members_of,
    pair_add,
    pair_count,
    pair_fan,
    pair_has,
    pair_lists,
    pair_lists_new,
    pair_lists_wf,
    pair_members,
    pair_remove,
    pairs,
    CounterTable,
    ListTable,
    PairTable,
};

verus! {

/// Caps that a join must respect. A cap of zero does not cap.
#[derive(Debug, Clone, Copy, PartialEq, Eq, Structural)]
pub struct RoomLimits {
    /// Most users in one room.
    pub max_users_per_room: u64,
    /// Most rooms one user is in.
    pub max_rooms_per_user: u64,
    /// Most rooms a tenant has open.
    pub max_rooms_total: u64,
}

/// Whether a count has reached a cap; a cap of zero is never reached.
pub open spec fn cap_reached(count: int, cap: u64) -> bool {
    cap != 0 && count >= cap
}

/// Why a join is refused.
pub enum JoinRefusal {
    /// The room holds as many users as it may.
    RoomFull,
    /// The user is in as many rooms as allowed.
    UserRooms,
    /// The tenant has as many rooms open as allowed.
    TenantRooms,
}

impl JoinRefusal {
    /// The message that reports the refusal.
    pub open spec fn message(self) -> Seq<char> {
        match self {
            JoinRefusal::RoomFull => "room user limit reached"@,
            JoinRefusal::UserRooms => "user room limit reached"@,
            JoinRefusal::TenantRooms => "tenant room limit reached"@,
        }
    }
}

/// Mathematical content of the presence registry.
#[verifier::ext_equal]
pub struct PresenceView {
    /// Pairs of a room and a session in it.
    pub room_sessions: Set<(Seq<char>, Seq<char>)>,
    /// Pairs of a session and a room it is in.
    pub session_rooms: Set<(Seq<char>, Seq<char>)>,
    /// Pairs of a room and a user in it.
    pub room_users: Set<(Seq<char>, Seq<char>)>,
    /// Pairs of a user and a room the user is in.
    pub user_rooms: Set<(Seq<char>, Seq<char>)>,
    /// Triples of a user, a room, and a session of that user in that room.
    pub members: Set<(Seq<char>, Seq<char>, Seq<char>)>,
    /// Number of open rooms per tenant; a tenant without rooms is absent.
    pub tenant_rooms: Map<Seq<char>, u64>,
}

impl PresenceView {
    /// The sessions in `room`.
    pub open spec fn sessions_in(self, room: Seq<char>) -> Set<Seq<char>> {
        Set::new(|s: Seq<char>| self.room_sessions.contains((room, s)))
    }

    /// The users in `room`.
    pub open spec fn users_in(self, room: Seq<char>) -> Set<Seq<char>> {
        Set::new(|u: Seq<char>| self.room_users.contains((room, u)))
    }

    /// The rooms that `user` is in.
    pub open spec fn rooms_of_user(self, user: Seq<char>) -> Set<Seq<char>> {
        Set::new(|r: Seq<char>| self.user_rooms.contains((user, r)))
    }

    /// The sessions of `user` in `room`.
    pub open spec fn sessions_of(self, user: Seq<char>, room: Seq<char>) -> Set<Seq<char>> {
        Set::new(|s: Seq<char>| self.members.contains((user, room, s)))
    }

    /// Reference count of `user` in `room`: the number of the user's
    /// sessions there.
    pub open spec fn refs(self, user: Seq<char>, room: Seq<char>) -> nat {
        self.sessions_of(user, room).len()
    }

    /// Whether `room` holds a session.
    pub open spec fn room_open(self, room: Seq<char>) -> bool {
        exists|s: Seq<char>| self.room_sessions.contains((room, s))
    }

    /// Whether the membership of `session` in `room` is held under some
    /// user.
    pub open spec fn held(self, room: Seq<char>, session: Seq<char>) -> bool {
        exists|u: Seq<char>| self.members.contains((u, room, session))
    }

    /// Whether a session of `user` is in `room`.
    pub open spec fn user_present(self, user: Seq<char>, room: Seq<char>) -> bool {
        exists|s: Seq<char>| self.members.contains((user, room, s))
    }

    /// Number of open rooms of `tenant`.
    pub open spec fn room_count(self, tenant: Seq<char>) -> int {
        if self.tenant_rooms.contains_key(tenant) {
            self.tenant_rooms[tenant] as int
        } else {
            0
        }
    }

    /// The registry's invariant: the two session indices mirror each other,
    /// the two user indices mirror each other and hold exactly the pairs
    /// with a session behind them, every session in a room is there under
    /// exactly one user, and no stored room count is zero.
    pub open spec fn wf(self) -> bool {
        &&& forall|r: Seq<char>, s: Seq<char>| #[trigger]
            self.room_sessions.contains((r, s)) == self.session_rooms.contains((s, r))
        &&& forall|r: Seq<char>, u: Seq<char>| #[trigger]
            self.room_users.contains((r, u)) == self.user_rooms.contains((u, r))
        &&& forall|u: Seq<char>, r: Seq<char>| #[trigger]
            self.user_rooms.contains((u, r)) == self.user_present(u, r)
        &&& forall|u: Seq<char>, r: Seq<char>, s: Seq<char>| #[trigger]
            self.members.contains((u, r, s)) ==> self.room_sessions.contains((r, s))
        &&& forall|r: Seq<char>, s: Seq<char>| #[trigger]
            self.room_sessions.contains((r, s)) ==> self.held(r, s)
        &&& forall|u1: Seq<char>, u2: Seq<char>, r: Seq<char>, s: Seq<char>|
            #![trigger self.members.contains((u1, r, s)), self.members.contains((u2, r, s))]
            self.members.contains((u1, r, s)) && self.members.contains((u2, r, s)) ==> u1 == u2
        &&& forall|t: Seq<char>| #[trigger]
            self.tenant_rooms.contains_key(t) ==> self.tenant_rooms[t] > 0
    }

    /// Whether nothing is registered.
    pub open spec fn is_empty(self) -> bool {
        &&& self.room_sessions =~= Set::empty()
        &&& self.session_rooms =~= Set::empty()
        &&& self.room_users =~= Set::empty()
        &&& self.user_rooms =~= Set::empty()
        &&& self.members =~= Set::empty()
    }

    /// The cap, if any, that refuses the join of `session` of `user` to
    /// `room`. A session already in the room is never refused. The caps
    /// are tried in this order: users per room, rooms per user, rooms per
    /// tenant; the first two only bind a user new to the room, the third
    /// only a room that is not open yet.
    pub open spec fn join_refusal(
        self,
        tenant: Seq<char>,
        room: Seq<char>,
        user: Seq<char>,
        session: Seq<char>,
        limits: RoomLimits,
    ) -> Option<JoinRefusal> {
        if self.room_sessions.contains((room, session)) {
            None
        } else if !self.user_present(user, room) && cap_reached(
            self.users_in(room).len() as int,
            limits.max_users_per_room,
        ) {
            Some(JoinRefusal::RoomFull)
        } else if !self.user_present(user, room) && cap_reached(
            self.rooms_of_user(user).len() as int,
            limits.max_rooms_per_user,
        ) {
            Some(JoinRefusal::UserRooms)
        } else if !self.room_open(room) && cap_reached(self.room_count(tenant), limits.max_rooms_total) {
            Some(JoinRefusal::TenantRooms)
        } else {
            None
        }
    }

    /// The tenant's room count raised by one, saturating.
    pub open spec fn count_up(self, tenant: Seq<char>) -> Map<Seq<char>, u64> {
        let c = self.room_count(tenant);
        self.tenant_rooms.insert(
            tenant,
            if c >= u64::MAX {
                u64::MAX
            } else {
                (c + 1) as u64
            },
        )
    }

    /// The tenant's room count lowered by one; a count that reaches zero is
    /// dropped.
    pub open spec fn count_down(self, tenant: Seq<char>) -> Map<Seq<char>, u64> {
        let c = self.room_count(tenant);
        if c <= 1 {
            self.tenant_rooms.remove(tenant)
        } else {
            self.tenant_rooms.insert(tenant, (c - 1) as u64)
        }
    }

    /// The registry after an admitted join. Joining a room twice with one
    /// session changes nothing.
    pub open spec fn joined(
        self,
        tenant: Seq<char>,
        room: Seq<char>,
        user: Seq<char>,
        session: Seq<char>,
    ) -> PresenceView {
        if self.room_sessions.contains((room, session)) {
            self
        } else {
            PresenceView {
                room_sessions: self.room_sessions.insert((room, session)),
                session_rooms: self.session_rooms.insert((session, room)),
                room_users: self.room_users.insert((room, user)),
                user_rooms: self.user_rooms.insert((user, room)),
                members: self.members.insert((user, room, session)),
                tenant_rooms: if self.room_open(room) {
                    self.tenant_rooms
                } else {
                    self.count_up(tenant)
                },
            }
        }
    }

    /// The registry after `session` of `user` left `room`. Nothing changes
    /// unless that session of that user is in the room. The user leaves
    /// the room with the user's last session there, and the room closes
    /// with its last session.
    pub open spec fn left(
        self,
        tenant: Seq<char>,
        room: Seq<char>,
        user: Seq<char>,
        session: Seq<char>,
    ) -> PresenceView {
        if !self.members.contains((user, room, session)) {
            self
        } else {
            let members = self.members.remove((user, room, session));
            let room_sessions = self.room_sessions.remove((room, session));
            let user_stays = exists|s: Seq<char>| members.contains((user, room, s));
            let room_stays = exists|s: Seq<char>| room_sessions.contains((room, s));
            PresenceView {
                room_sessions,
                session_rooms: self.session_rooms.remove((session, room)),
                room_users: if user_stays {
                    self.room_users
                } else {
                    self.room_users.remove((room, user))
                },
                user_rooms: if user_stays {
                    self.user_rooms
                } else {
                    self.user_rooms.remove((user, room))
                },
                members,
                tenant_rooms: if room_stays {
                    self.tenant_rooms
                } else {
                    self.count_down(tenant)
                },
            }
        }
    }

    /// The registry after `session` of `user` left each of `rooms` in turn.
    pub open spec fn left_all(
        self,
        tenant: Seq<char>,
        user: Seq<char>,
        session: Seq<char>,
        rooms: Seq<Seq<char>>,
    ) -> PresenceView
        decreases rooms.len(),
    {
        if rooms.len() == 0 {
            self
        } else {
            self.left_all(tenant, user, session, rooms.drop_last()).left(
                tenant,
                rooms.last(),
                user,
                session,
            )
        }
    }
}

/// Leaving a room removes the session from that room and from no other,
/// and takes away the one membership that was held there under the user.
pub proof fn lemma_left_memberships(
    v: PresenceView,
    tenant: Seq<char>,
    room: Seq<char>,
    user: Seq<char>,
    session: Seq<char>,
)
    ensures
        forall|r: Seq<char>| #[trigger]
            v.left(tenant, room, user, session).room_sessions.contains((r, session)) == (
            v.room_sessions.contains((r, session)) && !(r == room && v.members.contains(
                (user, room, session),
            ))),
        forall|u: Seq<char>, r: Seq<char>, s: Seq<char>| #[trigger]
            v.left(tenant, room, user, session).members.contains((u, r, s)) == (v.members.contains(
                (u, r, s),
            ) && !(u == user && r == room && s == session)),
{
}

/// Cleaning up twice changes nothing the second time: where `user` holds no
/// membership of `session`, leaving any rooms under that user leaves the
/// registry as it is.
pub proof fn lemma_nothing_left_to_leave(
    v: PresenceView,
    tenant: Seq<char>,
    user: Seq<char>,
    session: Seq<char>,
    rooms: Seq<Seq<char>>,
)
    requires
        forall|r: Seq<char>| !v.members.contains((user, r, session)),
    ensures
        v.left_all(tenant, user, session, rooms) == v,
    decreases rooms.len(),
{
    if rooms.len() > 0 {
        lemma_nothing_left_to_leave(v, tenant, user, session, rooms.drop_last());
    }
}

/// A join followed by the matching leave restores the registry, and with
/// it the reference count of the user in the room, whenever the session
/// was not in the room before. This covers the refused join, after which
/// the leave finds nothing to undo, and the admitted one.
pub proof fn lemma_join_then_leave_restores(
    v: PresenceView,
    tenant: Seq<char>,
    room: Seq<char>,
    user: Seq<char>,
    session: Seq<char>,
)
    requires
        v.wf(),
        !v.room_sessions.contains((room, session)),
        v.room_count(tenant) < u64::MAX,
    ensures
        v.left(tenant, room, user, session) == v,
        v.joined(tenant, room, user, session).left(tenant, room, user, session) == v,
        v.joined(tenant, room, user, session).left(tenant, room, user, session).refs(user, room)
            == v.refs(user, room),
{
    assert(!v.members.contains((user, room, session)));
    let j = v.joined(tenant, room, user, session);
    let w = j.left(tenant, room, user, session);
    let members = j.members.remove((user, room, session));
    let rs = j.room_sessions.remove((room, session));
    assert(members =~= v.members);
    assert(rs =~= v.room_sessions);
    assert(v.user_rooms.contains((user, room)) == v.user_present(user, room));
    assert(v.room_users.contains((room, user)) == v.user_rooms.contains((user, room)));
    assert(w.room_users =~= v.room_users);
    assert(w.user_rooms =~= v.user_rooms);
    assert(w.session_rooms =~= v.session_rooms) by {
        assert(v.room_sessions.contains((room, session)) == v.session_rooms.contains(
            (session, room),
        ));
    }
    if !v.room_open(room) {
        assert(j.tenant_rooms == v.count_up(tenant));
        assert(w.tenant_rooms =~= v.tenant_rooms) by {
            if v.tenant_rooms.contains_key(tenant) {
                assert(v.tenant_rooms[tenant] > 0);
            }
        }
    }
    assert(w =~= v);
}

/// No leak: once no session is in any room, the registry holds no room,
/// no user and no membership.
pub proof fn lemma_no_sessions_nothing_left(v: PresenceView)
    requires
        v.wf(),
        v.session_rooms =~= Set::empty(),
    ensures
        v.is_empty(),
{
    assert forall|p: (Seq<char>, Seq<char>)| !v.room_sessions.contains(p) by {
        assert(v.room_sessions.contains((p.0, p.1)) == v.session_rooms.contains((p.1, p.0)));
    }
    assert forall|t: (Seq<char>, Seq<char>, Seq<char>)| !v.members.contains(t) by {
        if v.members.contains((t.0, t.1, t.2)) {
            assert(v.room_sessions.contains((t.1, t.2)));
        }
    }
    assert forall|p: (Seq<char>, Seq<char>)| !v.user_rooms.contains(p) by {
        assert(v.user_rooms.contains((p.0, p.1)) == v.user_present(p.0, p.1));
    }
    assert forall|p: (Seq<char>, Seq<char>)| !v.room_users.contains(p) by {
        assert(v.room_users.contains((p.0, p.1)) == v.user_rooms.contains((p.1, p.0)));
    }
}

/// Room presence registry.
pub struct Presence {
    room_sessions: ListTable,
    session_rooms: ListTable,
    room_users: ListTable,
    user_rooms: ListTable,
    user_room_sessions: PairTable,
    tenant_rooms: CounterTable,
}

impl View for Presence {
    type V = PresenceView;

    closed spec fn view(&self) -> PresenceView {
        PresenceView {
            room_sessions: pairs(lists(self.room_sessions)),
            session_rooms: pairs(lists(self.session_rooms)),
            room_users: pairs(lists(self.room_users)),
            user_rooms: pairs(lists(self.user_rooms)),
            members: Set::new(
                |t: (Seq<char>, Seq<char>, Seq<char>)|
                    listed(pair_lists(self.user_room_sessions), t.0, t.1, t.2),
            ),
            tenant_rooms: counters(self.tenant_rooms),
        }
    }
}

impl Presence {
    /// The tables' own invariant: no list is empty or repeats a key.
    pub closed spec fn tables_wf(&self) -> bool {
        &&& lists_wf(lists(self.room_sessions))
        &&& lists_wf(lists(self.session_rooms))
        &&& lists_wf(lists(self.room_users))
        &&& lists_wf(lists(self.user_rooms))
        &&& pair_lists_wf(pair_lists(self.user_room_sessions))
    }

    /// The registry's invariant.
    pub open spec fn wf(&self) -> bool {
        self.tables_wf() && self@.wf()
    }

    /// An empty registry.
    pub fn new() -> (p: Presence)
        ensures
            p.wf(),
            p@.is_empty(),
            (p@.tenant_rooms == Map::<Seq<char>, u64>::empty()),
    {
        let p = Presence {
            room_sessions: lists_new(),
            session_rooms: lists_new(),
            room_users: lists_new(),
            user_rooms: lists_new(),
            user_room_sessions: pair_lists_new(),
            tenant_rooms: counters_new(),
        };
        proof {
            assert(p@.members =~= Set::empty());
        }
        p
    }

    /// Put `session` of `user` into `room`. Every cap is checked before
    /// anything changes, so a refused join leaves the registry as it was.
    pub fn try_join(
        &mut self,
        tenant: &str,
        room: &str,
        user: &str,
        session: &str,
        limits: RoomLimits,
    ) -> (res: Result<(), WsPrismError>)
        requires
            old(self).wf(),
        ensures
            final(self).wf(),
            match old(self)@.join_refusal(tenant@, room@, user@, session@, limits) {
                Some(why) => fails_resource_exhausted(res, why.message()) && final(self)@ == old(self)@,
                None => res is Ok && final(self)@ == old(self)@.joined(
                    tenant@,
                    room@,
                    user@,
                    session@,
                ),
            },
    {
        let ghost v0 = self@;
        if list_has(&self.room_sessions, room, session) {
            return Ok(());
        }
        proof {
            lemma_pair_fan(pair_lists(self.user_room_sessions), user@, room@);
            lemma_fan(lists(self.room_users), room@);
            lemma_fan(lists(self.user_rooms), user@);
            lemma_fan(lists(self.room_sessions), room@);
            assert(v0.users_in(room@) =~= members_of(lists(self.room_users), room@));
            assert(v0.rooms_of_user(user@) =~= members_of(lists(self.user_rooms), user@));
            if v0.user_present(user@, room@) {
                let s = choose|s: Seq<char>| v0.members.contains((user@, room@, s));
                assert(listed(pair_lists(self.user_room_sessions), user@, room@, s));
            }
            if pair_fan(pair_lists(self.user_room_sessions), user@, room@) > 0 {
                let s = choose|s: Seq<char>|
                    listed(pair_lists(self.user_room_sessions), user@, room@, s);
                assert(v0.members.contains((user@, room@, s)));
            }
        }
        let user_new = pair_count(&self.user_room_sessions, user, room) == 0;
        assert(user_new == !v0.user_present(user@, room@));
        if user_new {
            if limits.max_users_per_room != 0 && list_fan(&self.room_users, room) as u64
                >= limits.max_users_per_room {
                return Err(WsPrismError::ResourceExhausted("room user limit reached".to_owned()));
            }
            if limits.max_rooms_per_user != 0 && list_fan(&self.user_rooms, user) as u64
                >= limits.max_rooms_per_user {
                return Err(WsPrismError::ResourceExhausted("user room limit reached".to_owned()));
            }
        }
        let room_new = list_fan(&self.room_sessions, room) == 0;
        assert(room_new == !v0.room_open(room@));
        let count = counter_value(&self.tenant_rooms, tenant);
        if room_new && limits.max_rooms_total != 0 && count >= limits.max_rooms_total {
            return Err(WsPrismError::ResourceExhausted("tenant room limit reached".to_owned()));
        }
        assert(v0.join_refusal(tenant@, room@, user@, session@, limits) is None);
        list_add(&mut self.room_sessions, room, session);
        list_add(&mut self.session_rooms, session, room);
        pair_add(&mut self.user_room_sessions, user, room, session);
        list_add(&mut self.room_users, room, user);
        list_add(&mut self.user_rooms, user, room);
        if room_new {
            let next: u64 = if count == u64::MAX {
                u64::MAX
            } else {
                count + 1
            };
            counters_insert(&mut self.tenant_rooms, tenant.to_owned(), next);
        }
        proof {
            let v1 = self@;
            let want = v0.joined(tenant@, room@, user@, session@);
            assert(v1.members =~= want.members);
            assert(v1 =~= want);
            assert forall|u: Seq<char>, r: Seq<char>| #[trigger]
                v1.user_rooms.contains((u, r)) == v1.user_present(u, r) by {
                if u == user@ && r == room@ {
                    assert(v1.members.contains((user@, room@, session@)));
                } else {
                    assert(v0.user_rooms.contains((u, r)) == v0.user_present(u, r));
                    if v0.user_present(u, r) {
                        let s = choose|s: Seq<char>| v0.members.contains((u, r, s));
                        assert(v1.members.contains((u, r, s)));
                    }
                    if v1.user_present(u, r) {
                        let s = choose|s: Seq<char>| v1.members.contains((u, r, s));
                        assert(v0.members.contains((u, r, s)));
                    }
                }
            }
            assert forall|r: Seq<char>, s: Seq<char>| #[trigger]
                v1.room_sessions.contains((r, s)) implies v1.held(r, s) by {
                if r == room@ && s == session@ {
                    assert(v1.members.contains((user@, r, s)));
                } else {
                    assert(v0.room_sessions.contains((r, s)));
                    let u = choose|u: Seq<char>| v0.members.contains((u, r, s));
                    assert(v1.members.contains((u, r, s)));
                }
            }
            assert(v1.wf());
        }
        Ok(())
    }

    /// Put `session` of `user` into `room` without regard to caps. Fails
    /// never; the result says whether the session is new to the room.
    pub fn join(&mut self, tenant: &str, room: &str, user: &str, session: &str) -> (added: bool)
        requires
            old(self).wf(),
        ensures
            final(self).wf(),
            added == !old(self)@.room_sessions.contains((room@, session@)),
            final(self)@ == old(self)@.joined(tenant@, room@, user@, session@),
    {
        let was_in = list_has(&self.room_sessions, room, session);
        let limits = RoomLimits { max_users_per_room: 0, max_rooms_per_user: 0, max_rooms_total: 0 };
        match self.try_join(tenant, room, user, session, limits) {
            Ok(_) => {},
            Err(_) => {},
        }
        !was_in
    }

    /// Take `session` of `user` out of `room`. Returns whether it was
    /// there. The user leaves the room with the last of the user's
    /// sessions, and the room closes, lowering the tenant's room count,
    /// with its last session.
    pub fn leave(&mut self, tenant: &str, room: &str, user: &str, session: &str) -> (was_in: bool)
        requires
            old(self).wf(),
        ensures
            final(self).wf(),
            was_in == old(self)@.members.contains((user@, room@, session@)),
            final(self)@ == old(self)@.left(tenant@, room@, user@, session@),
    {
        let ghost v0 = self@;
        if !pair_has(&self.user_room_sessions, user, room, session) {
            return false;
        }
        assert(v0.members.contains((user@, room@, session@)));
        pair_remove(&mut self.user_room_sessions, user, room, session);
        list_remove(&mut self.room_sessions, room, session);
        list_remove(&mut self.session_rooms, session, room);
        let ghost members1 = self@.members;
        let ghost rs1 = self@.room_sessions;
        proof {
            assert(members1 =~= v0.members.remove((user@, room@, session@)));
            lemma_pair_fan(pair_lists(self.user_room_sessions), user@, room@);
            lemma_fan(lists(self.room_sessions), room@);
            if exists|s: Seq<char>| members1.contains((user@, room@, s)) {
                let s = choose|s: Seq<char>| members1.contains((user@, room@, s));
                assert(listed(pair_lists(self.user_room_sessions), user@, room@, s));
            }
            if pair_fan(pair_lists(self.user_room_sessions), user@, room@) > 0 {
                let s = choose|s: Seq<char>|
                    listed(pair_lists(self.user_room_sessions), user@, room@, s);
                assert(members1.contains((user@, room@, s)));
            }
        }
        let user_stays = pair_count(&self.user_room_sessions, user, room) > 0;
        assert(user_stays == (exists|s: Seq<char>| members1.contains((user@, room@, s))));
        if !user_stays {
            list_remove(&mut self.room_users, room, user);
            list_remove(&mut self.user_rooms, user, room);
        }
        let room_stays = list_fan(&self.room_sessions, room) > 0;
        assert(room_stays == (exists|s: Seq<char>| rs1.contains((room@, s))));
        if !room_stays {
            let count = counter_value(&self.tenant_rooms, tenant);
            if count <= 1 {
                counters_remove(&mut self.tenant_rooms, tenant);
            } else {
                counters_insert(&mut self.tenant_rooms, tenant.to_owned(), count - 1);
            }
        }
        proof {
            let v1 = self@;
            let want = v0.left(tenant@, room@, user@, session@);
            assert(v1.members =~= want.members);
            assert(v1 =~= want);
            assert forall|u: Seq<char>, r: Seq<char>| #[trigger]
                v1.user_rooms.contains((u, r)) == v1.user_present(u, r) by {
                assert(v0.user_rooms.contains((u, r)) == v0.user_present(u, r));
                if u == user@ && r == room@ {
                    assert(v0.user_present(u, r));
                } else {
                    if v0.user_present(u, r) {
                        let s = choose|s: Seq<char>| v0.members.contains((u, r, s));
                        assert(v1.members.contains((u, r, s)));
                    }
                    if v1.user_present(u, r) {
                        let s = choose|s: Seq<char>| v1.members.contains((u, r, s));
                        assert(v0.members.contains((u, r, s)));
                    }
                }
            }
            assert forall|u: Seq<char>, r: Seq<char>, s: Seq<char>| #[trigger]
                v1.members.contains((u, r, s)) implies v1.room_sessions.contains((r, s)) by {
                assert(v0.members.contains((u, r, s)));
                assert(v0.room_sessions.contains((r, s)));
                if r == room@ && s == session@ {
                    assert(v0.members.contains((user@, r, s)));
                    assert(u == user@);
                }
            }
            assert forall|r: Seq<char>, s: Seq<char>| #[trigger]
                v1.room_sessions.contains((r, s)) implies v1.held(r, s) by {
                assert(v0.room_sessions.contains((r, s)));
                let u = choose|u: Seq<char>| v0.members.contains((u, r, s));
                assert(v1.members.contains((u, r, s)));
            }
            assert(v1.wf());
        }
        true
    }

    /// Take `session` of `user` out of every room it is in. Returns the
    /// rooms that were left, in the order in which they were left.
    pub fn cleanup_session(&mut self, tenant: &str, user: &str, session: &str) -> (rooms: Vec<String>)
        requires
            old(self).wf(),
        ensures
            final(self).wf(),
            distinct(rooms@),
            forall|r: Seq<char>| holds(rooms@, r) == old(self)@.room_sessions.contains((r, session@)),
            final(self)@ == old(self)@.left_all(tenant@, user@, session@, texts(rooms@)),
            forall|r: Seq<char>| #[trigger]
                final(self)@.room_sessions.contains((r, session@)) == (old(
                    self
                )@.room_sessions.contains((r, session@)) && !old(self)@.members.contains(
                    (user@, r, session@),
                )),
            forall|u: Seq<char>, r: Seq<char>, s: Seq<char>| #[trigger]
                final(self)@.members.contains((u, r, s)) == (old(self)@.members.contains((u, r, s))
                    && !(u == user@ && s == session@)),
    {
        let ghost v0 = self@;
        let rooms = self.rooms_of(session);
        let ghost names = texts(rooms@);
        proof {
            lemma_texts(rooms@);
            assert(names.take(0) =~= Seq::<Seq<char>>::empty());
        }
        let mut k: usize = 0;
        while k < rooms.len()
            invariant
                k <= rooms.len(),
                self.wf(),
                names == texts(rooms@),
                names.len() == rooms.len(),
                self@ == v0.left_all(tenant@, user@, session@, names.take(k as int)),
                forall|r: Seq<char>| #[trigger]
                    self@.room_sessions.contains((r, session@)) == (v0.room_sessions.contains(
                        (r, session@),
                    ) && !(names.take(k as int).contains(r) && v0.members.contains(
                        (user@, r, session@),
                    ))),
                forall|u: Seq<char>, r: Seq<char>, s: Seq<char>| #[trigger]
                    self@.members.contains((u, r, s)) == (v0.members.contains((u, r, s)) && !(u
                        == user@ && s == session@ && names.take(k as int).contains(r))),
            decreases rooms.len() - k,
        {
            let ghost vk = self@;
            let ghost done = names.take(k as int);
            let ghost upto = names.take(k as int + 1);
            proof {
                lemma_left_memberships(vk, tenant@, names[k as int], user@, session@);
                assert(upto.drop_last() =~= done);
                assert(upto.last() == names[k as int]);
                assert forall|r: Seq<char>| upto.contains(r) == (done.contains(r) || r
                    == names[k as int]) by {
                    if done.contains(r) {
                        let i = choose|i: int| 0 <= i < done.len() && done[i] == r;
                        assert(upto[i] == r);
                    }
                    if r == names[k as int] {
                        assert(upto[k as int] == r);
                    }
                    if upto.contains(r) {
                        let i = choose|i: int| 0 <= i < upto.len() && upto[i] == r;
                        if i < k {
                            assert(done[i] == r);
                        }
                    }
                }
            }
            self.leave(tenant, rooms[k].as_str(), user, session);
            proof {
                assert forall|r: Seq<char>| #[trigger]
                    self@.room_sessions.contains((r, session@)) == (v0.room_sessions.contains(
                        (r, session@),
                    ) && !(upto.contains(r) && v0.members.contains((user@, r, session@)))) by {
                    assert(vk.room_sessions.contains((r, session@)) == (v0.room_sessions.contains(
                        (r, session@),
                    ) && !(done.contains(r) && v0.members.contains((user@, r, session@)))));
                    assert(vk.members.contains((user@, r, session@)) == (v0.members.contains(
                        (user@, r, session@),
                    ) && !(user@ == user@ && session@ == session@ && done.contains(r))));
                    assert(vk.members.contains((user@, names[k as int], session@)) == (
                    v0.members.contains((user@, names[k as int], session@)) && !done.contains(
                        names[k as int],
                    )));
                }
                assert forall|u: Seq<char>, r: Seq<char>, s: Seq<char>| #[trigger]
                    self@.members.contains((u, r, s)) == (v0.members.contains((u, r, s)) && !(u
                        == user@ && s == session@ && upto.contains(r))) by {
                    assert(vk.members.contains((u, r, s)) == (v0.members.contains((u, r, s)) && !(u
                        == user@ && s == session@ && done.contains(r))));
                }
            }
            k += 1;
        }
        proof {
            assert(names.take(rooms.len() as int) =~= names);
            assert forall|r: Seq<char>| #[trigger]
                self@.room_sessions.contains((r, session@)) == (v0.room_sessions.contains(
                    (r, session@),
                ) && !v0.members.contains((user@, r, session@))) by {
                assert(holds(rooms@, r) == names.contains(r));
            }
            assert forall|u: Seq<char>, r: Seq<char>, s: Seq<char>| #[trigger]
                self@.members.contains((u, r, s)) == (v0.members.contains((u, r, s)) && !(u
                    == user@ && s == session@)) by {
                assert(holds(rooms@, r) == names.contains(r));
                if v0.members.contains((u, r, s)) && u == user@ && s == session@ {
                    assert(v0.room_sessions.contains((r, s)));
                }
            }
        }
        rooms
    }

    /// Snapshot of the sessions in `room`, in no particular order and
    /// without repetition.
    pub fn sessions_in(&self, room: &str) -> (v: Vec<String>)
        requires
            self.wf(),
        ensures
            distinct(v@),
            forall|s: Seq<char>| holds(v@, s) == self@.room_sessions.contains((room@, s)),
            v.len() == self@.sessions_in(room@).len(),
    {
        proof {
            lemma_fan(lists(self.room_sessions), room@);
            assert(self@.sessions_in(room@) =~= members_of(lists(self.room_sessions), room@));
        }
        list_members(&self.room_sessions, room)
    }

    /// Snapshot of the users in `room`.
    pub fn users_in(&self, room: &str) -> (v: Vec<String>)
        requires
            self.wf(),
        ensures
            distinct(v@),
            forall|u: Seq<char>| holds(v@, u) == self@.room_users.contains((room@, u)),
            v.len() == self@.users_in(room@).len(),
    {
        proof {
            lemma_fan(lists(self.room_users), room@);
            assert(self@.users_in(room@) =~= members_of(lists(self.room_users), room@));
        }
        list_members(&self.room_users, room)
    }

    /// Snapshot of the rooms that `session` is in.
    pub fn rooms_of(&self, session: &str) -> (v: Vec<String>)
        requires
            self.wf(),
        ensures
            distinct(v@),
            forall|r: Seq<char>| holds(v@, r) == self@.room_sessions.contains((r, session@)),
    {
        let v = list_members(&self.session_rooms, session);
        proof {
            assert forall|r: Seq<char>| holds(v@, r) == self@.room_sessions.contains(
                (r, session@),
            ) by {
                assert(self@.room_sessions.contains((r, session@)) == self@.session_rooms.contains(
                    (session@, r),
                ));
            }
        }
        v
    }

    /// Reference count of `user` in `room`.
    pub fn refcount(&self, user: &str, room: &str) -> (n: usize)
        requires
            self.wf(),
        ensures
            n == self@.refs(user@, room@),
    {
        proof {
            lemma_pair_fan(pair_lists(self.user_room_sessions), user@, room@);
            assert(self@.sessions_of(user@, room@) =~= pair_members(
                pair_lists(self.user_room_sessions),
                user@,
                room@,
            ));
        }
        pair_count(&self.user_room_sessions, user, room)
    }

    /// Number of open rooms of `tenant`.
    pub fn room_count(&self, tenant: &str) -> (n: u64)
        ensures
            n == self@.room_count(tenant@),
    {
        counter_value(&self.tenant_rooms, tenant)
    }
}

} // verus!
