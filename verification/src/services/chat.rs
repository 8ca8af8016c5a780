//! Chat over the Ext lane: `chat.send` relays a message to a room.

use vstd::prelude::*;
use vstd::string::{StrSliceExecFns, StringExecFns};
use vstd::utf8::{encode_utf8_decode_utf8, encode_utf8_valid_utf8};
use crate::error::{fails_bad_request, WsPrismError};
use crate::ids::{room_key, room_key_of};
use crate::protocol::hot::bytes_from_vec;
use crate::protocol::text::{
    count_members,
    json_members,
    json_quoted,
    json_string,
    members_written,
    pair_texts,
    parse_members,
    parse_string,
    quote,
    Envelope,
    EnvelopeView,
};
use crate::realtime::egress::{reaches, RealtimeCore, ReliablePlan};
use crate::realtime::types::{Outgoing, Payload, PreparedView, QoS};
use crate::strings::str_eq;

verus! {

/// Deadline, in milliseconds, of the reliable send of a chat message.
pub const CHAT_TIMEOUT_MS: u64 = 1500;

/// The chat service.
#[derive(Debug, Clone, Copy, Default)]
pub struct ChatService;

/// Raw value of the first member called `msg`, from position `from` on.
pub open spec fn msg_member(members: Seq<(Seq<char>, Seq<char>)>, from: int) -> Option<Seq<char>>
    decreases members.len() - from,
{
    if from < 0 || from >= members.len() {
        None
    } else if members[from].0 == "msg"@ {
        Some(members[from].1)
    } else {
        msg_member(members, from + 1)
    }
}

/// The message that the `data` of a `chat.send` carries: the string of its
/// member `msg`. Other members are ignored; an object that writes a
/// member more than once carries nothing.
pub open spec fn chat_msg_of(data: Seq<char>) -> Option<Seq<char>> {
    match json_members(data) {
        None => None,
        Some(members) => if members_written(data) != members.len() {
            None
        } else {
            match msg_member(members, 0) {
                None => None,
                Some(raw) => json_string(raw),
            }
        },
    }
}

/// What is wrong with a request to the chat service, if anything.
pub open spec fn chat_fault(env: EnvelopeView) -> Option<Seq<char>> {
    if env.msg_type != "send"@ {
        Some("unknown chat type"@)
    } else if env.room is None {
        Some("chat.send requires room"@)
    } else if env.data is None {
        Some("chat.send requires data"@)
    } else if chat_msg_of(env.data->0) is None {
        Some("chat.send invalid data"@)
    } else {
        None
    }
}

/// The text relayed to the room: a `chat.msg` envelope that names the
/// sender.
pub open spec fn chat_text(room: Seq<char>, from: Seq<char>, msg: Seq<char>) -> Seq<char> {
    "{\"data\":{\"from\":"@ + json_quoted(from) + ",\"msg\":"@ + json_quoted(msg) + "},\"room\":"@
        + json_quoted(room) + ",\"svc\":\"chat\",\"type\":\"msg\",\"v\":1}"@
}

/// Read the message out of the `data` of a `chat.send`.
fn read_msg(data: &str) -> (r: Option<String>)
    ensures
        match r {
            Some(m) => chat_msg_of(data@) == Some(m@),
            None => chat_msg_of(data@) is None,
        },
{
    let members = match parse_members(data) {
        Some(m) => m,
        None => {
            return None;
        },
    };
    if count_members(data) != members.len() {
        return None;
    }
    let ghost all = pair_texts(members@);
    let mut k: usize = 0;
    while k < members.len()
        invariant
            k <= members.len(),
            all == pair_texts(members@),
            json_members(data@) == Some(all),
            members_written(data@) == all.len(),
            msg_member(all, 0) == msg_member(all, k as int),
        decreases members.len() - k,
    {
        assert(all[k as int] == (members[k as int].0@, members[k as int].1@));
        if str_eq(members[k].0.as_str(), "msg") {
            return parse_string(members[k].1.as_str());
        }
        k += 1;
    }
    None
}

impl ChatService {
    /// The chat service.
    pub fn new() -> (s: ChatService) {
        ChatService
    }

    /// The name under which the service is registered.
    pub fn svc(&self) -> (name: &'static str)
        ensures
            name@ == "chat"@,
    {
        "chat"
    }

    /// Handle an envelope from `user` of `tenant`. `chat.send` needs a
    /// room and a `data` object with a string member `msg`; it plans the
    /// reliable relay of the message to every session in the room, with a
    /// deadline of 1500 ms. Any other type is a bad request.
    pub fn handle(&self, core: &RealtimeCore, tenant: &str, user: &str, env: &Envelope) -> (res:
        Result<ReliablePlan, WsPrismError>)
        requires
            core.wf(),
        ensures
            match chat_fault(env@) {
                Some(msg) => fails_bad_request(res, msg),
                None => res matches Ok(plan) && plan.timeout_ms == Some(CHAT_TIMEOUT_MS)
                    && plan.message@ == PreparedView::Text(
                    chat_text(env@.room->0, user@, chat_msg_of(env@.data->0)->0),
                ) && reaches(core, room_key_of(tenant@, env@.room->0), plan.recipients@),
            },
    {
        if !str_eq(env.msg_type.as_str(), "send") {
            return Err(WsPrismError::BadRequest("unknown chat type".to_owned()));
        }
        let room = match &env.room {
            Some(r) => r,
            None => {
                return Err(WsPrismError::BadRequest("chat.send requires room".to_owned()));
            },
        };
        let data = match &env.data {
            Some(d) => d,
            None => {
                return Err(WsPrismError::BadRequest("chat.send requires data".to_owned()));
            },
        };
        let msg = match read_msg(data.as_str()) {
            Some(m) => m,
            None => {
                return Err(WsPrismError::BadRequest("chat.send invalid data".to_owned()));
            },
        };
        let mut text = "{\"data\":{\"from\":".to_owned();
        text.append(quote(user).as_str());
        text.append(",\"msg\":");
        text.append(quote(msg.as_str()).as_str());
        text.append("},\"room\":");
        text.append(quote(room.as_str()).as_str());
        text.append(",\"svc\":\"chat\",\"type\":\"msg\",\"v\":1}");
        let ghost want = chat_text(room@, user@, msg@);
        assert(text@ =~= want);
        let raw = text.as_str().as_bytes_vec();
        let out = Outgoing {
            qos: QoS::Reliable { timeout_ms: CHAT_TIMEOUT_MS },
            payload: Payload::Utf8Bytes(bytes_from_vec(raw)),
        };
        proof {
            encode_utf8_valid_utf8(want);
        }
        let key = room_key(tenant, room.as_str());
        match core.plan_room_reliable(key.as_str(), &out) {
            Ok(plan) => {
                proof {
                    match plan.message@ {
                        PreparedView::Text(s) => {
                            encode_utf8_decode_utf8(s);
                            encode_utf8_decode_utf8(want);
                        },
                        PreparedView::Binary(_) => {},
                    }
                }
                Ok(plan)
            },
            Err(e) => Err(e),
        }
    }
}

} // verus!
