//! Outgoing messages and their prepared, ready-to-send form.

use vstd::prelude::*;
use vstd::utf8::{encode_utf8, valid_utf8};
use bytes::Bytes;
use serde_json::Value;
use crate::error::WsPrismError;
use crate::protocol::hot::{bytes_seq, bytes_to_vec};
use crate::strings::opt_text;

verus! {

/// Delivery strategy of an outgoing message.
#[derive(Debug, Clone, Copy, PartialEq, Eq, Structural)]
pub enum QoS {
    /// Enqueue or drop; never wait.
    Lossy,
    /// Wait for the enqueue, at most `timeout_ms` milliseconds; zero waits
    /// without a deadline.
    Reliable { timeout_ms: u64 },
}

impl QoS {
    /// Reliable delivery with the default deadline of 20 ms.
    pub fn reliable_default() -> (q: QoS)
        ensures
            q == (QoS::Reliable { timeout_ms: 20 }),
    {
        QoS::Reliable { timeout_ms: 20 }
    }

    /// The deadline of a reliable send, if it has one.
    pub open spec fn deadline(self) -> Option<u64> {
        match self {
            QoS::Reliable { timeout_ms } => if timeout_ms > 0 {
                Some(timeout_ms)
            } else {
                None
            },
            QoS::Lossy => None,
        }
    }

    /// The deadline of a reliable send, if it has one.
    pub fn timeout(&self) -> (t: Option<u64>)
        ensures
            t == self.deadline(),
    {
        match self {
            QoS::Reliable { timeout_ms } => if *timeout_ms > 0 {
                Some(*timeout_ms)
            } else {
                None
            },
            QoS::Lossy => None,
        }
    }
}

/// A reliable send waits without a deadline exactly when its timeout is
/// zero; a lossy send never waits, so it has none either.
pub proof fn lemma_deadline(timeout_ms: u64)
    ensures
        (QoS::Reliable { timeout_ms }).deadline() is None <==> timeout_ms == 0,
        timeout_ms > 0 ==> (QoS::Reliable { timeout_ms }).deadline() == Some(timeout_ms),
        QoS::Lossy.deadline() is None,
{
}

impl Default for QoS {
    fn default() -> (q: QoS)
        ensures
            q == QoS::Lossy,
    {
        QoS::Lossy
    }
}

#[verifier::external_type_specification]
#[verifier::external_body]
pub struct ExJsonValue(serde_json::Value);

/// What `serde_json::to_string` makes of a value: its compact JSON text,
/// or nothing when the serializer reports an error.
pub uninterp spec fn json_text(v: Value) -> Option<Seq<char>>;

/// `serde_json::to_string` on a `Value`: its compact JSON text, or `None`
/// when the serializer reports an error.
#[verifier::external_body]
fn json_to_string(v: &Value) -> (s: Option<String>)
    ensures
        opt_text(s) == json_text(*v),
{
    serde_json::to_string(v).ok()
}

/// `Clone::clone` on a `Value`: a value that serializes as the one it was cloned from.
pub assume_specification[ <serde_json::Value as Clone>::clone ](v: &Value) -> (c: Value)
    ensures
        json_text(c) == json_text(*v),
;

/// `std::str::from_utf8`, copying the text out: the text that `b` encodes,
/// or `None` when `b` is not valid UTF-8.
#[verifier::external_body]
pub(crate) fn utf8_to_string(b: &[u8]) -> (s: Option<String>)
    ensures
        s is Some <==> valid_utf8(b@),
        s matches Some(t) ==> encode_utf8(t@) == b@,
{
    match std::str::from_utf8(b) {
        Ok(t) => Some(t.to_owned()),
        Err(_) => None,
    }
}

/// Payload of an outgoing message.
#[derive(Debug, Clone)]
pub enum Payload {
    /// A JSON value, sent as text.
    TextJson(Value),
    /// UTF-8 bytes, sent as text once validated.
    Utf8Bytes(Bytes),
    /// Raw bytes, sent as a binary frame.
    Binary(Bytes),
}

/// An outgoing message.
#[derive(Debug, Clone)]
pub struct Outgoing {
    pub qos: QoS,
    pub payload: Payload,
}

/// A message serialized once, ready to be sent to any number of recipients.
#[derive(Debug, Clone)]
pub enum PreparedMsg {
    Text(String),
    Binary(Bytes),
}

/// Mathematical content of a prepared message.
pub enum PreparedView {
    Text(Seq<char>),
    Binary(Seq<u8>),
}

impl View for PreparedMsg {
    type V = PreparedView;

    open spec fn view(&self) -> PreparedView {
        match self {
            PreparedMsg::Text(s) => PreparedView::Text(s@),
            PreparedMsg::Binary(b) => PreparedView::Binary(bytes_seq(*b)),
        }
    }
}

/// A frame queued for one socket.
#[derive(Debug, Clone)]
pub enum WireMessage {
    /// A text frame.
    Text(String),
    /// A binary frame.
    Binary(Bytes),
    /// A ping with its payload.
    Ping(Vec<u8>),
    /// A pong with its payload.
    Pong(Vec<u8>),
    /// A close frame.
    Close { code: u16, reason: String },
}

/// Mathematical content of a queued frame.
pub enum WireView {
    Text(Seq<char>),
    Binary(Seq<u8>),
    Ping(Seq<u8>),
    Pong(Seq<u8>),
    Close(u16, Seq<char>),
}

impl View for WireMessage {
    type V = WireView;

    open spec fn view(&self) -> WireView {
        match self {
            WireMessage::Text(s) => WireView::Text(s@),
            WireMessage::Binary(b) => WireView::Binary(bytes_seq(*b)),
            WireMessage::Ping(p) => WireView::Ping(p@),
            WireMessage::Pong(p) => WireView::Pong(p@),
            WireMessage::Close { code, reason } => WireView::Close(*code, reason@),
        }
    }
}

/// The frame that carries a prepared message.
pub open spec fn wire_of(p: PreparedView) -> WireView {
    match p {
        PreparedView::Text(s) => WireView::Text(s),
        PreparedView::Binary(b) => WireView::Binary(b),
    }
}

/// Whether `p` is a prepared form of `out`.
pub open spec fn prepared_as(out: &Outgoing, p: PreparedView) -> bool {
    match out.payload {
        Payload::TextJson(v) => p matches PreparedView::Text(s) && json_text(v) == Some(s),
        Payload::Utf8Bytes(b) => p matches PreparedView::Text(s) && encode_utf8(s) == bytes_seq(b),
        Payload::Binary(b) => p == PreparedView::Binary(bytes_seq(b)),
    }
}

/// Whether `out` cannot be prepared: JSON that the serializer refuses, or
/// bytes announced as UTF-8 that are not.
pub open spec fn prepare_fails(out: &Outgoing) -> bool {
    match out.payload {
        Payload::TextJson(v) => json_text(v) is None,
        Payload::Utf8Bytes(b) => !valid_utf8(bytes_seq(b)),
        Payload::Binary(_) => false,
    }
}

/// The message of the error that a payload which cannot be prepared raises.
pub open spec fn prepare_error(out: &Outgoing) -> Seq<char> {
    match out.payload {
        Payload::TextJson(_) => "json encode failed"@,
        _ => "utf8 invalid"@,
    }
}

impl PreparedMsg {
    /// Serialize a payload once. JSON becomes its compact text; UTF-8 bytes
    /// are validated and become text; binary bytes pass through. Invalid
    /// UTF-8 is refused, as is JSON that the serializer cannot render.
    pub fn prepare(out: &Outgoing) -> (res: Result<PreparedMsg, WsPrismError>)
        ensures
            match res {
                Ok(p) => !prepare_fails(out) && prepared_as(out, p@),
                Err(e) => prepare_fails(out) && e.is_bad_request(prepare_error(out)),
            },
    {
        match &out.payload {
            Payload::TextJson(v) => match json_to_string(v) {
                Some(s) => Ok(PreparedMsg::Text(s)),
                None => Err(WsPrismError::BadRequest("json encode failed".to_owned())),
            },
            Payload::Utf8Bytes(b) => {
                let raw = bytes_to_vec(b);
                match utf8_to_string(raw.as_slice()) {
                    Some(s) => Ok(PreparedMsg::Text(s)),
                    None => Err(WsPrismError::BadRequest("utf8 invalid".to_owned())),
                }
            },
            Payload::Binary(b) => Ok(PreparedMsg::Binary(b.clone())),
        }
    }

    /// The frame to queue for one recipient.
    pub fn to_ws_message(&self) -> (m: WireMessage)
        ensures
            m@ == wire_of(self@),
    {
        match self {
            PreparedMsg::Text(s) => WireMessage::Text(s.clone()),
            PreparedMsg::Binary(b) => WireMessage::Binary(b.clone()),
        }
    }
}

} // verus!
