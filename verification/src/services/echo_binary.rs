//! Echo over the Hot lane: a frame's payload is broadcast to the sender's
//! active room as it is.

use vstd::prelude::*;
use crate::error::{fails_bad_request, WsPrismError};
use crate::ids::{room_key, room_key_of};
use crate::protocol::hot::{bytes_seq, HotFrame};
use crate::realtime::egress::{covers, Broadcast, RealtimeCore};
use crate::realtime::types::{Outgoing, Payload, QoS, WireView};

verus! {

/// The echo service.
#[derive(Debug, Clone, Copy)]
pub struct EchoBinaryService {
    svc_id: u8,
}

impl EchoBinaryService {
    /// The id under which the service is registered.
    pub closed spec fn spec_svc_id(&self) -> u8 {
        self.svc_id
    }

    /// An echo service for the id `svc_id`.
    pub fn new(svc_id: u8) -> (s: EchoBinaryService)
        ensures
            s.spec_svc_id() == svc_id,
    {
        EchoBinaryService { svc_id }
    }

    /// The id under which the service is registered.
    pub fn svc_id(&self) -> (id: u8)
        ensures
            id == self.spec_svc_id(),
    {
        self.svc_id
    }

    /// Broadcast the frame's payload, lossy, to the active room of the
    /// sender. Without an active room the frame is a bad request.
    pub fn handle_binary(
        &self,
        core: &RealtimeCore,
        tenant: &str,
        active_room: Option<&str>,
        frame: &HotFrame,
    ) -> (res: Result<Broadcast, WsPrismError>)
        requires
            core.wf(),
        ensures
            match active_room {
                None => fails_bad_request(res, "no active_room"@),
                Some(room) => res matches Ok(b) && b.frame@ == WireView::Binary(
                    bytes_seq(frame.payload),
                ) && covers(
                    b.deliveries@,
                    core.presence@.sessions_in(room_key_of(tenant@, room@)),
                    &core.sessions,
                ),
            },
    {
        let room = match active_room {
            Some(r) => r,
            None => {
                return Err(WsPrismError::BadRequest("no active_room".to_owned()));
            },
        };
        let out = Outgoing { qos: QoS::Lossy, payload: Payload::Binary(frame.payload.clone()) };
        let key = room_key(tenant, room);
        core.publish_room_lossy(key.as_str(), &out)
    }
}

} // verus!
