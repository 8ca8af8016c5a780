//! Hot lane binary frames.
//!
//! Layout: `[v][svc_id][opcode][flags]`, then a little-endian `u32` sequence
//! number when bit 0 of `flags` is set, then the opaque payload.

use vstd::prelude::*;
use bytes::Buf;
use bytes::Bytes;
use crate::error::WsPrismError;

verus! {

/// Flag bit announcing that a `u32` sequence number follows the header.
pub const HOT_FLAG_SEQ_PRESENT: u8 = 0x01;

#[verifier::external_type_specification]
#[verifier::external_body]
pub struct ExBytes(bytes::Bytes);

/// The bytes that a `Bytes` buffer still holds, front first.
pub uninterp spec fn bytes_seq(b: Bytes) -> Seq<u8>;

/// The value of four bytes read as a little-endian `u32`.
pub open spec fn le_u32(b0: u8, b1: u8, b2: u8, b3: u8) -> int {
    b0 as int + 256 * (b1 as int) + 65536 * (b2 as int) + 16777216 * (b3 as int)
}

/// `Buf::remaining` on `Bytes`: the number of bytes left in the buffer.
#[verifier::external_body]
fn buf_remaining(buf: &Bytes) -> (n: usize)
    ensures
        n == bytes_seq(*buf).len(),
{
    buf.remaining()
}

/// `Buf::get_u8` on `Bytes`: returns the first byte and advances past it.
/// The call panics on an empty buffer, which `requires` rules out.
#[verifier::external_body]
fn buf_get_u8(buf: &mut Bytes) -> (b: u8)
    requires
        bytes_seq(*old(buf)).len() >= 1,
    ensures
        b == bytes_seq(*old(buf))[0],
        bytes_seq(*final(buf)) == bytes_seq(*old(buf)).skip(1),
{
    buf.get_u8()
}

/// `Buf::get_u32_le` on `Bytes`: reads four bytes as a little-endian integer
/// and advances past them. The call panics on fewer than four bytes.
#[verifier::external_body]
fn buf_get_u32_le(buf: &mut Bytes) -> (x: u32)
    requires
        bytes_seq(*old(buf)).len() >= 4,
    ensures
        x == le_u32(
            bytes_seq(*old(buf))[0],
            bytes_seq(*old(buf))[1],
            bytes_seq(*old(buf))[2],
            bytes_seq(*old(buf))[3],
        ),
        bytes_seq(*final(buf)) == bytes_seq(*old(buf)).skip(4),
{
    buf.get_u32_le()
}

/// `Buf::copy_to_bytes` on `Bytes`: splits off the first `len` bytes and
/// leaves the rest. The call panics when `len` exceeds what remains.
#[verifier::external_body]
fn buf_copy_to_bytes(buf: &mut Bytes, len: usize) -> (head: Bytes)
    requires
        len <= bytes_seq(*old(buf)).len(),
    ensures
        bytes_seq(head) == bytes_seq(*old(buf)).take(len as int),
        bytes_seq(*final(buf)) == bytes_seq(*old(buf)).skip(len as int),
{
    buf.copy_to_bytes(len)
}

/// `Bytes::from(Vec<u8>)`: a buffer over exactly the vector's bytes.
#[verifier::external_body]
pub(crate) fn bytes_from_vec(v: Vec<u8>) -> (b: Bytes)
    ensures
        bytes_seq(b) == v@,
{
    Bytes::from(v)
}

/// `to_vec` on the slice that `Bytes` dereferences to: a copy of its bytes.
#[verifier::external_body]
pub(crate) fn bytes_to_vec(b: &Bytes) -> (v: Vec<u8>)
    ensures
        v@ == bytes_seq(*b),
{
    b.to_vec()
}

/// `Clone::clone` on `Bytes`: a second handle on the same bytes.
pub assume_specification[ <bytes::Bytes as Clone>::clone ](b: &Bytes) -> (c: Bytes)
    ensures
        bytes_seq(c) == bytes_seq(*b),
;

/// A parsed Hot lane frame.
#[derive(Debug, Clone)]
pub struct HotFrame {
    /// Protocol version.
    pub v: u8,
    /// Service id, which selects the binary service.
    pub svc_id: u8,
    /// Opcode within that service.
    pub opcode: u8,
    /// Feature flags.
    pub flags: u8,
    /// Sequence number, present iff bit 0 of `flags` is set.
    pub seq: Option<u32>,
    /// Opaque payload.
    pub payload: Bytes,
}

/// Mathematical content of a Hot lane frame.
pub struct HotFrameView {
    pub v: u8,
    pub svc_id: u8,
    pub opcode: u8,
    pub flags: u8,
    pub seq: Option<u32>,
    pub payload: Seq<u8>,
}

impl View for HotFrame {
    type V = HotFrameView;

    open spec fn view(&self) -> HotFrameView {
        HotFrameView {
            v: self.v,
            svc_id: self.svc_id,
            opcode: self.opcode,
            flags: self.flags,
            seq: self.seq,
            payload: bytes_seq(self.payload),
        }
    }
}

/// Whether bit 0 of `flags` is set.
pub open spec fn seq_flagged(flags: u8) -> bool {
    flags & 0x01 != 0
}

/// Outcome of decoding a byte string as a Hot lane frame.
pub enum HotDecoded {
    /// A well-formed frame.
    Frame(HotFrameView),
    /// Fewer than four header bytes.
    TooShort,
    /// The version byte is not 1.
    BadVersion,
    /// The sequence flag is set but fewer than four bytes follow the header.
    MissingSeq,
}

/// The decoding of `s`, checked in wire order: header length, version,
/// then the optional sequence number.
pub open spec fn hot_decoded(s: Seq<u8>) -> HotDecoded {
    if s.len() < 4 {
        HotDecoded::TooShort
    } else if s[0] != 1 {
        HotDecoded::BadVersion
    } else if seq_flagged(s[3]) {
        if s.len() < 8 {
            HotDecoded::MissingSeq
        } else {
            HotDecoded::Frame(
                HotFrameView {
                    v: s[0],
                    svc_id: s[1],
                    opcode: s[2],
                    flags: s[3],
                    seq: Some(le_u32(s[4], s[5], s[6], s[7]) as u32),
                    payload: s.skip(8),
                },
            )
        }
    } else {
        HotDecoded::Frame(
            HotFrameView {
                v: s[0],
                svc_id: s[1],
                opcode: s[2],
                flags: s[3],
                seq: None,
                payload: s.skip(4),
            },
        )
    }
}

/// Decode a Hot lane frame. Every byte is consumed only after a length
/// check, so malformed input yields an error and never a panic.
pub fn decode_hot_frame(buf: Bytes) -> (res: Result<HotFrame, WsPrismError>)
    ensures
        match hot_decoded(bytes_seq(buf)) {
            HotDecoded::Frame(f) => res matches Ok(frame) && frame@ == f,
            HotDecoded::TooShort => res matches Err(e) && e.is_bad_request(
                "hot frame too short"@,
            ),
            HotDecoded::BadVersion => res matches Err(WsPrismError::UnsupportedVersion),
            HotDecoded::MissingSeq => res matches Err(e) && e.is_bad_request(
                "seq flag set but missing u32"@,
            ),
        },
{
    let mut buf = buf;
    let ghost s = bytes_seq(buf);
    if buf_remaining(&buf) < 4 {
        return Err(WsPrismError::BadRequest("hot frame too short".to_owned()));
    }
    let v = buf_get_u8(&mut buf);
    if v != 1 {
        return Err(WsPrismError::UnsupportedVersion);
    }
    let svc_id = buf_get_u8(&mut buf);
    let opcode = buf_get_u8(&mut buf);
    let flags = buf_get_u8(&mut buf);
    assert(bytes_seq(buf) == s.skip(4));
    let seq = if (flags & HOT_FLAG_SEQ_PRESENT) != 0 {
        if buf_remaining(&buf) < 4 {
            return Err(WsPrismError::BadRequest("seq flag set but missing u32".to_owned()));
        }
        let x = buf_get_u32_le(&mut buf);
        assert(bytes_seq(buf) == s.skip(8));
        Some(x)
    } else {
        None
    };
    let rest = buf_remaining(&buf);
    let payload = buf_copy_to_bytes(&mut buf, rest);
    assert(bytes_seq(payload) == if seq_flagged(flags) { s.skip(8) } else { s.skip(4) });
    Ok(HotFrame { v, svc_id, opcode, flags, seq, payload })
}

/// Byte `i` (0 is the least significant) of `x`.
pub open spec fn le_byte(x: u32, i: int) -> u8 {
    if i == 0 {
        (x % 256) as u8
    } else if i == 1 {
        ((x / 256) % 256) as u8
    } else if i == 2 {
        ((x / 65536) % 256) as u8
    } else {
        ((x / 16777216) % 256) as u8
    }
}

/// A frame that the encoder accepts: version 1, and a sequence number
/// exactly when the sequence flag is set.
pub open spec fn hot_well_formed(f: HotFrameView) -> bool {
    f.v == 1 && (f.seq is Some <==> seq_flagged(f.flags))
}

/// The wire bytes of a well-formed frame.
pub open spec fn hot_encoded(f: HotFrameView) -> Seq<u8> {
    let header = seq![f.v, f.svc_id, f.opcode, f.flags];
    match f.seq {
        Some(x) => header + seq![le_byte(x, 0), le_byte(x, 1), le_byte(x, 2), le_byte(x, 3)]
            + f.payload,
        None => header + f.payload,
    }
}

/// Serialize a frame; `None` when the frame is not well formed.
pub fn encode_hot_frame(frame: &HotFrame) -> (res: Option<Vec<u8>>)
    ensures
        hot_well_formed(frame@) ==> (res matches Some(out) && out@ == hot_encoded(frame@)),
        !hot_well_formed(frame@) ==> res is None,
{
    let flagged = (frame.flags & HOT_FLAG_SEQ_PRESENT) != 0;
    if frame.v != 1 || frame.seq.is_some() != flagged {
        return None;
    }
    let mut out: Vec<u8> = Vec::new();
    out.push(frame.v);
    out.push(frame.svc_id);
    out.push(frame.opcode);
    out.push(frame.flags);
    assert(out@ == seq![frame.v, frame.svc_id, frame.opcode, frame.flags]);
    if let Some(x) = frame.seq {
        out.push((x % 256) as u8);
        out.push(((x / 256) % 256) as u8);
        out.push(((x / 65536) % 256) as u8);
        out.push(((x / 16777216) % 256) as u8);
        assert(out@ == seq![frame.v, frame.svc_id, frame.opcode, frame.flags] + seq![
            le_byte(x, 0),
            le_byte(x, 1),
            le_byte(x, 2),
            le_byte(x, 3),
        ]);
    }
    let mut body = bytes_to_vec(&frame.payload);
    out.append(&mut body);
    Some(out)
}

/// Reading the four bytes of `x` back as a little-endian integer gives `x`.
pub proof fn lemma_le_u32_round_trip(x: u32)
    ensures
        le_u32(le_byte(x, 0), le_byte(x, 1), le_byte(x, 2), le_byte(x, 3)) == x,
{
    let xi = x as int;
    assert(xi == 256 * (xi / 256) + xi % 256);
    assert(xi / 256 == 256 * ((xi / 256) / 256) + (xi / 256) % 256);
    assert((xi / 256) / 256 == xi / 65536) by (nonlinear_arith);
    assert(xi / 65536 == 256 * ((xi / 65536) / 256) + (xi / 65536) % 256);
    assert((xi / 65536) / 256 == xi / 16777216) by (nonlinear_arith);
    assert(0 <= xi / 16777216 < 256);
}

/// Round trip: decoding the encoding of a well-formed frame returns that
/// frame, whatever its header fields and payload.
pub proof fn lemma_hot_round_trip(f: HotFrameView)
    requires
        hot_well_formed(f),
    ensures
        hot_decoded(hot_encoded(f)) == HotDecoded::Frame(f),
{
    let s = hot_encoded(f);
    match f.seq {
        Some(x) => {
            lemma_le_u32_round_trip(x);
            assert(s.len() == 8 + f.payload.len());
            assert(s.skip(8) =~= f.payload);
        },
        None => {
            assert(s.len() == 4 + f.payload.len());
            assert(s.skip(4) =~= f.payload);
        },
    }
}

/// Any input of at least four bytes whose first byte is not 1 is refused
/// as an unsupported version.
pub proof fn lemma_hot_bad_version(s: Seq<u8>)
    requires
        s.len() >= 4,
        s[0] != 1,
    ensures
        hot_decoded(s) == HotDecoded::BadVersion,
{
}

/// A version-1 header with the sequence flag set, on an input shorter than
/// eight bytes, is refused as a bad request.
pub proof fn lemma_hot_missing_seq(s: Seq<u8>)
    requires
        4 <= s.len() < 8,
        s[0] == 1,
        seq_flagged(s[3]),
    ensures
        hot_decoded(s) == HotDecoded::MissingSeq,
{
}

} // verus!
