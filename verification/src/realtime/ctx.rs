//! Per-message context handed to services.

use vstd::prelude::*;
use crate::error::WsPrismError;
use crate::realtime::egress::{carries, covers, plans, Broadcast, RealtimeCore, ReliablePlan};
use crate::realtime::types::{prepare_error, prepare_fails, Outgoing};

verus! {

/// What a service sees of the message it handles: who sent it, on which
/// connection, and the core to publish through. A context is built per
/// message and never changes.
pub struct RealtimeCtx<'a> {
    tenant: String,
    user: String,
    session: String,
    user_key: String,
    session_key: String,
    trace_id: String,
    active_room: Option<String>,
    core: &'a RealtimeCore,
}

impl<'a> RealtimeCtx<'a> {
    /// The tenant.
    pub closed spec fn spec_tenant(&self) -> Seq<char> {
        self.tenant@
    }

    /// The user.
    pub closed spec fn spec_user(&self) -> Seq<char> {
        self.user@
    }

    /// The session id.
    pub closed spec fn spec_session(&self) -> Seq<char> {
        self.session@
    }

    /// The user's key.
    pub closed spec fn spec_user_key(&self) -> Seq<char> {
        self.user_key@
    }

    /// The session's key.
    pub closed spec fn spec_session_key(&self) -> Seq<char> {
        self.session_key@
    }

    /// The connection's trace id.
    pub closed spec fn spec_trace_id(&self) -> Seq<char> {
        self.trace_id@
    }

    /// The active room, if any.
    pub closed spec fn spec_active_room(&self) -> Option<Seq<char>> {
        match self.active_room {
            Some(r) => Some(r@),
            None => None,
        }
    }

    /// The core.
    pub closed spec fn spec_core(&self) -> &RealtimeCore {
        self.core
    }

    /// A context.
    pub fn new(
        tenant: String,
        user: String,
        session: String,
        user_key: String,
        session_key: String,
        trace_id: String,
        active_room: Option<String>,
        core: &'a RealtimeCore,
    ) -> (c: RealtimeCtx<'a>)
        ensures
            c.spec_tenant() == tenant@,
            c.spec_user() == user@,
            c.spec_session() == session@,
            c.spec_user_key() == user_key@,
            c.spec_session_key() == session_key@,
            c.spec_trace_id() == trace_id@,
            c.spec_active_room() == (match active_room {
                Some(r) => Some(r@),
                None => None,
            }),
            c.spec_core() == core,
    {
        RealtimeCtx { tenant, user, session, user_key, session_key, trace_id, active_room, core }
    }

    /// The tenant.
    pub fn tenant(&self) -> (s: &str)
        ensures
            s@ == self.spec_tenant(),
    {
        self.tenant.as_str()
    }

    /// The user.
    pub fn user(&self) -> (s: &str)
        ensures
            s@ == self.spec_user(),
    {
        self.user.as_str()
    }

    /// The session id.
    pub fn session(&self) -> (s: &str)
        ensures
            s@ == self.spec_session(),
    {
        self.session.as_str()
    }

    /// The user's key.
    pub fn user_key(&self) -> (s: &str)
        ensures
            s@ == self.spec_user_key(),
    {
        self.user_key.as_str()
    }

    /// The session's key.
    pub fn session_key(&self) -> (s: &str)
        ensures
            s@ == self.spec_session_key(),
    {
        self.session_key.as_str()
    }

    /// The connection's trace id.
    pub fn trace_id(&self) -> (s: &str)
        ensures
            s@ == self.spec_trace_id(),
    {
        self.trace_id.as_str()
    }

    /// The active room, if any.
    pub fn active_room(&self) -> (r: Option<&str>)
        ensures
            match r {
                Some(s) => self.spec_active_room() == Some(s@),
                None => self.spec_active_room() is None,
            },
    {
        match &self.active_room {
            Some(r) => Some(r.as_str()),
            None => None,
        }
    }

    /// The core.
    pub fn core_ref(&self) -> (c: &RealtimeCore)
        ensures
            c == self.spec_core(),
    {
        self.core
    }

    /// Lossy broadcast to the room under `room_key`.
    pub fn publish_room_lossy(&self, room_key: &str, out: &Outgoing) -> (res: Result<
        Broadcast,
        WsPrismError,
    >)
        requires
            self.spec_core().wf(),
        ensures
            res is Err <==> prepare_fails(out),
            res matches Err(e) ==> e.is_bad_request(prepare_error(out)),
            res matches Ok(b) ==> carries(out, b.frame@) && covers(
                b.deliveries@,
                self.spec_core().presence@.sessions_in(room_key@),
                &self.spec_core().sessions,
            ),
    {
        self.core.publish_room_lossy(room_key, out)
    }

    /// Plan a reliable broadcast to the room under `room_key`.
    pub fn publish_room_reliable(&self, room_key: &str, out: &Outgoing) -> (res: Result<
        ReliablePlan,
        WsPrismError,
    >)
        requires
            self.spec_core().wf(),
        ensures
            res is Err <==> prepare_fails(out),
            res matches Err(e) ==> e.is_bad_request(prepare_error(out)),
            res matches Ok(plan) ==> plans(self.spec_core(), room_key@, out, plan),
    {
        self.core.plan_room_reliable(room_key, out)
    }
}

} // verus!
