//! Session metadata and the upgrade query.

use vstd::prelude::*;
use crate::config::schema::TenantLimits;
use crate::realtime::presence::RoomLimits;

verus! {

/// Immutable metadata of a connected session.
#[derive(Debug, Clone)]
pub struct SessionMeta {
    pub tenant_id: String,
    pub user_id: String,
    pub session_id: String,
}

/// A session in the context of its tenant.
#[derive(Debug, Clone)]
pub struct TenantContext {
    pub meta: SessionMeta,
    pub limits: TenantLimits,
}

impl TenantContext {
    /// The tenant's id.
    pub fn tenant_id(&self) -> (s: &str)
        ensures
            s@ == self.meta.tenant_id@,
    {
        self.meta.tenant_id.as_str()
    }

    /// The user's id.
    pub fn user_id(&self) -> (s: &str)
        ensures
            s@ == self.meta.user_id@,
    {
        self.meta.user_id.as_str()
    }

    /// The session's id.
    pub fn session_id(&self) -> (s: &str)
        ensures
            s@ == self.meta.session_id@,
    {
        self.meta.session_id.as_str()
    }

    /// The caps that the tenant puts on rooms.
    pub fn room_limits(&self) -> (l: RoomLimits)
        ensures
            l == room_limits_of(self.limits),
    {
        RoomLimits {
            max_users_per_room: self.limits.max_users_per_room,
            max_rooms_per_user: self.limits.max_rooms_per_user,
            max_rooms_total: self.limits.max_rooms_total,
        }
    }
}

/// The room caps among a tenant's limits.
pub open spec fn room_limits_of(l: TenantLimits) -> RoomLimits {
    RoomLimits {
        max_users_per_room: l.max_users_per_room,
        max_rooms_per_user: l.max_rooms_per_user,
        max_rooms_total: l.max_rooms_total,
    }
}

/// Query of an upgrade request: `tenant`, `ticket` and, optionally, `sid`.
#[derive(Debug, Clone)]
pub struct WsQuery {
    pub tenant: String,
    pub ticket: String,
    pub sid: Option<String>,
}

} // verus!
