//! Decode-once codec: one inbound frame becomes one tagged value.

use vstd::prelude::*;
use vstd::utf8::encode_utf8;
use crate::error::WsPrismError;
use crate::protocol::hot::{bytes_from_vec, decode_hot_frame, hot_decoded, HotDecoded, HotFrame, HotFrameView};
use crate::protocol::text::{envelope_of, parse_envelope, Envelope, EnvelopeView};

verus! {

/// A frame as the socket delivers it.
#[derive(Debug, Clone)]
pub enum Frame {
    /// A text frame.
    Text(String),
    /// A binary frame.
    Binary(Vec<u8>),
    /// A ping with its payload.
    Ping(Vec<u8>),
    /// A pong with its payload.
    Pong(Vec<u8>),
    /// A close frame.
    Close,
}

/// A decoded inbound frame. `bytes_len` is the frame's size on the wire,
/// which the length policy is applied to.
#[derive(Debug)]
pub enum Inbound {
    Text { env: Envelope, bytes_len: usize },
    Hot { frame: HotFrame, bytes_len: usize },
    Ping(Vec<u8>),
    Pong(Vec<u8>),
    Close,
}

/// Mathematical content of a decoded frame.
pub enum InboundView {
    Text(EnvelopeView, nat),
    Hot(HotFrameView, nat),
    Ping(Seq<u8>),
    Pong(Seq<u8>),
    Close,
}

impl View for Inbound {
    type V = InboundView;

    open spec fn view(&self) -> InboundView {
        match self {
            Inbound::Text { env, bytes_len } => InboundView::Text(env@, *bytes_len as nat),
            Inbound::Hot { frame, bytes_len } => InboundView::Hot(frame@, *bytes_len as nat),
            Inbound::Ping(p) => InboundView::Ping(p@),
            Inbound::Pong(p) => InboundView::Pong(p@),
            Inbound::Close => InboundView::Close,
        }
    }
}

/// Size of a frame on the wire: the UTF-8 length of a text, the length of
/// a binary or control payload, zero for a close.
pub open spec fn wire_len(msg: Frame) -> nat {
    match msg {
        Frame::Text(s) => encode_utf8(s@).len(),
        Frame::Binary(b) => b@.len(),
        Frame::Ping(p) => p@.len(),
        Frame::Pong(p) => p@.len(),
        Frame::Close => 0,
    }
}

/// What a frame decodes to, or the message of the error it raises.
pub open spec fn decoded(msg: Frame) -> Result<InboundView, WsPrismErrorKind> {
    match msg {
        Frame::Text(s) => match envelope_of(s@) {
            Ok(env) => Ok(InboundView::Text(env, wire_len(msg))),
            Err(f) => Err(WsPrismErrorKind::BadRequest(f.message())),
        },
        Frame::Binary(b) => match hot_decoded(b@) {
            HotDecoded::Frame(f) => Ok(InboundView::Hot(f, wire_len(msg))),
            HotDecoded::TooShort => Err(WsPrismErrorKind::BadRequest("hot frame too short"@)),
            HotDecoded::BadVersion => Err(WsPrismErrorKind::UnsupportedVersion),
            HotDecoded::MissingSeq => Err(
                WsPrismErrorKind::BadRequest("seq flag set but missing u32"@),
            ),
        },
        Frame::Ping(p) => Ok(InboundView::Ping(p@)),
        Frame::Pong(p) => Ok(InboundView::Pong(p@)),
        Frame::Close => Ok(InboundView::Close),
    }
}

/// The errors that decoding raises.
pub enum WsPrismErrorKind {
    BadRequest(Seq<char>),
    UnsupportedVersion,
}

/// Whether `e` is the error that `k` describes.
pub open spec fn is_kind(e: WsPrismError, k: WsPrismErrorKind) -> bool {
    match k {
        WsPrismErrorKind::BadRequest(m) => e.is_bad_request(m),
        WsPrismErrorKind::UnsupportedVersion => e matches WsPrismError::UnsupportedVersion,
    }
}

/// Size of a frame on the wire.
pub fn frame_len(msg: &Frame) -> (n: usize)
    ensures
        n == wire_len(*msg),
{
    match msg {
        Frame::Text(s) => s.as_str().as_bytes().len(),
        Frame::Binary(b) => b.len(),
        Frame::Ping(p) => p.len(),
        Frame::Pong(p) => p.len(),
        Frame::Close => 0,
    }
}

/// Decode one frame. Text becomes an envelope, binary a Hot frame; control
/// frames are passed on as they are.
pub fn decode(msg: Frame) -> (res: Result<Inbound, WsPrismError>)
    ensures
        match decoded(msg) {
            Ok(v) => res matches Ok(i) && i@ == v,
            Err(k) => res matches Err(e) && is_kind(e, k),
        },
{
    match msg {
        Frame::Text(s) => {
            let bytes_len = s.as_str().as_bytes().len();
            match parse_envelope(s.as_str()) {
                Ok(env) => Ok(Inbound::Text { env, bytes_len }),
                Err(e) => Err(e),
            }
        },
        Frame::Binary(b) => {
            let bytes_len = b.len();
            match decode_hot_frame(bytes_from_vec(b)) {
                Ok(frame) => Ok(Inbound::Hot { frame, bytes_len }),
                Err(e) => Err(e),
            }
        },
        Frame::Ping(p) => Ok(Inbound::Ping(p)),
        Frame::Pong(p) => Ok(Inbound::Pong(p)),
        Frame::Close => Ok(Inbound::Close),
    }
}

} // verus!
