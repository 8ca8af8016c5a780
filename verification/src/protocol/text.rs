//! Ext lane envelopes.
//!
//! An envelope is a JSON object with the required members `v`, `svc` and
//! `type` and the optional members `flags`, `seq`, `room` and `data`. Any
//! other member is refused. `data` is kept as the JSON text it arrived as.

use vstd::prelude::*;
use vstd::string::{StringExecFns, StringSliceAdditionalSpecFns};
use vstd::utf8::encode_utf8;
use std::collections::BTreeMap;
use serde_json::value::RawValue;
use crate::error::WsPrismError;
use crate::strings::{decimal_repr, decimal_text, opt_text, str_eq};

verus! {

/// An Ext lane envelope.
#[derive(Debug, Clone)]
pub struct Envelope {
    /// Protocol version.
    pub v: u8,
    /// Service name.
    pub svc: String,
    /// Message type; the member is called `type` on the wire.
    pub msg_type: String,
    /// Feature flags.
    pub flags: u32,
    /// Sequence number.
    pub seq: Option<u64>,
    /// Room.
    pub room: Option<String>,
    /// Payload, as raw JSON text.
    pub data: Option<String>,
}

/// Mathematical content of an envelope.
pub struct EnvelopeView {
    pub v: u8,
    pub svc: Seq<char>,
    pub msg_type: Seq<char>,
    pub flags: u32,
    pub seq: Option<u64>,
    pub room: Option<Seq<char>>,
    pub data: Option<Seq<char>>,
}

impl View for Envelope {
    type V = EnvelopeView;

    open spec fn view(&self) -> EnvelopeView {
        EnvelopeView {
            v: self.v,
            svc: self.svc@,
            msg_type: self.msg_type@,
            flags: self.flags,
            seq: self.seq,
            room: opt_text(self.room),
            data: opt_text(self.data),
        }
    }
}

/// The members of the JSON object that `text` holds, each with the raw
/// text of its value, in ascending order of their names, a name that
/// is written more than once counting once, with its last value; nothing
/// when `text` is not a JSON object.
pub uninterp spec fn json_members(text: Seq<char>) -> Option<Seq<(Seq<char>, Seq<char>)>>;

/// The unsigned integer that the JSON text `raw` denotes, if it denotes one
/// that fits 64 bits.
pub uninterp spec fn json_unsigned(raw: Seq<char>) -> Option<u64>;

/// The string that the JSON text `raw` denotes, if it denotes one.
pub uninterp spec fn json_string(raw: Seq<char>) -> Option<Seq<char>>;

/// Whether the raw text of a member's value is `null`.
pub open spec fn json_null(raw: Seq<char>) -> bool {
    raw == "null"@
}

/// The JSON string literal that denotes `s`, quotes and escapes included.
pub uninterp spec fn json_quoted(s: Seq<char>) -> Seq<char>;

/// The compact form of the JSON text `raw`: what serializing its parsed
/// value gives; nothing when `raw` is not JSON.
pub uninterp spec fn json_compact(raw: Seq<char>) -> Option<Seq<char>>;

/// The texts of a list of pairs of strings.
pub open spec fn pair_texts(v: Seq<(String, String)>) -> Seq<(Seq<char>, Seq<char>)> {
    Seq::new(v.len(), |i: int| (v[i].0@, v[i].1@))
}

/// The texts of an optional list of pairs of strings.
pub open spec fn opt_pair_texts(v: Option<Vec<(String, String)>>) -> Option<
    Seq<(Seq<char>, Seq<char>)>,
> {
    match v {
        Some(l) => Some(pair_texts(l@)),
        None => None,
    }
}

/// `serde_json::from_str` into a `BTreeMap` from member names to raw
/// values, handed out as pairs of strings in the map's order; `None` when
/// the text is not a JSON object.
#[verifier::external_body]
pub(crate) fn parse_members(text: &str) -> (r: Option<Vec<(String, String)>>)
    ensures
        opt_pair_texts(r) == json_members(text@),
{
    serde_json::from_str::<BTreeMap<String, Box<RawValue>>>(text).ok().map(
        |m| m.into_iter().map(|(k, v)| (k, v.get().to_owned())).collect(),
    )
}

/// `serde_json::from_str` into a `u64`.
#[verifier::external_body]
fn parse_unsigned(raw: &str) -> (r: Option<u64>)
    ensures
        r == json_unsigned(raw@),
{
    serde_json::from_str::<u64>(raw).ok()
}

/// `serde_json::from_str` into a `String`.
#[verifier::external_body]
pub(crate) fn parse_string(raw: &str) -> (r: Option<String>)
    ensures
        opt_text(r) == json_string(raw@),
{
    serde_json::from_str::<String>(raw).ok()
}

/// Whether the raw text of a member's value is `null`.
fn parse_null(raw: &str) -> (r: bool)
    ensures
        r == json_null(raw@),
{
    str_eq(raw, "null")
}

/// `serde_json::from_str` into a `Value`, rendered back by the value's
/// `Display`: the compact form of `raw`, or `None` when `raw` is not JSON.
#[verifier::external_body]
pub(crate) fn compact(raw: &str) -> (r: Option<String>)
    ensures
        opt_text(r) == json_compact(raw@),
{
    serde_json::from_str::<serde_json::Value>(raw).ok().map(|v| v.to_string())
}

/// `Display` of `serde_json::Value::String`: the JSON string literal for
/// `s`.
#[verifier::external_body]
pub(crate) fn quote(s: &str) -> (r: String)
    ensures
        r@ == json_quoted(s@),
{
    serde_json::Value::String(s.to_owned()).to_string()
}

/// Where a scan of JSON text stands: how deep in objects and arrays,
/// whether inside a string, whether behind a backslash in it, and how
/// many colons it has met at depth one outside strings.
pub struct Scan {
    pub depth: int,
    pub in_string: bool,
    pub escaped: bool,
    pub colons: nat,
}

/// The scan before any byte.
pub open spec fn scan_start() -> Scan {
    Scan { depth: 0, in_string: false, escaped: false, colons: 0 }
}

/// The scan after one more byte.
pub open spec fn scan_step(st: Scan, b: u8) -> Scan {
    if st.in_string {
        if st.escaped {
            Scan { escaped: false, ..st }
        } else if b == 0x5c {
            Scan { escaped: true, ..st }
        } else if b == 0x22 {
            Scan { in_string: false, ..st }
        } else {
            st
        }
    } else if b == 0x22 {
        Scan { in_string: true, ..st }
    } else if b == 0x7b || b == 0x5b {
        Scan { depth: st.depth + 1, ..st }
    } else if b == 0x7d || b == 0x5d {
        Scan { depth: st.depth - 1, ..st }
    } else if b == 0x3a && st.depth == 1 {
        Scan { colons: st.colons + 1, ..st }
    } else {
        st
    }
}

/// The scan after all of `bytes`.
pub open spec fn scanned(bytes: Seq<u8>) -> Scan
    decreases bytes.len(),
{
    if bytes.len() == 0 {
        scan_start()
    } else {
        scan_step(scanned(bytes.drop_last()), bytes.last())
    }
}

/// Number of members written in the outermost object of a JSON text: its
/// colons outside strings, one level deep. A member name written twice
/// counts twice.
pub open spec fn members_written(text: Seq<char>) -> nat {
    scanned(encode_utf8(text)).colons
}

/// Count the members written in the outermost object of a JSON text.
pub fn count_members(text: &str) -> (n: usize)
    ensures
        n == members_written(text@),
{
    let bytes = text.as_bytes();
    let mut depth: i128 = 0;
    let mut in_string = false;
    let mut escaped = false;
    let mut colons: usize = 0;
    let mut i: usize = 0;
    proof {
        assert(bytes@.take(0) =~= Seq::<u8>::empty());
    }
    while i < bytes.len()
        invariant
            i <= bytes.len(),
            bytes@ == encode_utf8(text@),
            -(i as int) <= depth <= i,
            colons <= i,
            scanned(bytes@.take(i as int)) == (Scan {
                depth: depth as int,
                in_string,
                escaped,
                colons: colons as nat,
            }),
        decreases bytes.len() - i,
    {
        let b = bytes[i];
        proof {
            assert(bytes@.take(i as int + 1).drop_last() =~= bytes@.take(i as int));
            assert(bytes@.take(i as int + 1).last() == b);
        }
        if in_string {
            if escaped {
                escaped = false;
            } else if b == 0x5c {
                escaped = true;
            } else if b == 0x22 {
                in_string = false;
            }
        } else if b == 0x22 {
            in_string = true;
        } else if b == 0x7b || b == 0x5b {
            depth = depth + 1;
        } else if b == 0x7d || b == 0x5d {
            depth = depth - 1;
        } else if b == 0x3a && depth == 1 {
            colons = colons + 1;
        }
        i += 1;
    }
    proof {
        assert(bytes@.take(bytes.len() as int) =~= bytes@);
    }
    colons
}

/// What is wrong with a text offered as an envelope.
pub enum EnvelopeFault {
    /// The text is not a JSON object.
    NotAnObject,
    /// The object writes a member more than once.
    RepeatedMember,
    /// A member that the schema does not know.
    UnknownMember(Seq<char>),
    /// A known member with a value of the wrong type or range.
    BadValue(Seq<char>),
    /// A required member is absent.
    Missing(Seq<char>),
}

impl EnvelopeFault {
    /// The message that reports the fault.
    pub open spec fn message(self) -> Seq<char> {
        match self {
            EnvelopeFault::NotAnObject => "invalid envelope json: not an object"@,
            EnvelopeFault::RepeatedMember => "invalid envelope json: duplicate field"@,
            EnvelopeFault::UnknownMember(n) => "invalid envelope json: unknown field "@ + n,
            EnvelopeFault::BadValue(n) => "invalid envelope json: invalid value for "@ + n,
            EnvelopeFault::Missing(n) => "invalid envelope json: missing field "@ + n,
        }
    }
}

/// An envelope under construction: the members seen so far.
pub struct Draft {
    pub v: Option<u8>,
    pub svc: Option<String>,
    pub msg_type: Option<String>,
    pub flags: u32,
    pub seq: Option<u64>,
    pub room: Option<String>,
    pub data: Option<String>,
}

/// Mathematical content of a draft.
pub struct DraftView {
    pub v: Option<u8>,
    pub svc: Option<Seq<char>>,
    pub msg_type: Option<Seq<char>>,
    pub flags: u32,
    pub seq: Option<u64>,
    pub room: Option<Seq<char>>,
    pub data: Option<Seq<char>>,
}

impl View for Draft {
    type V = DraftView;

    open spec fn view(&self) -> DraftView {
        DraftView {
            v: self.v,
            svc: opt_text(self.svc),
            msg_type: opt_text(self.msg_type),
            flags: self.flags,
            seq: self.seq,
            room: opt_text(self.room),
            data: opt_text(self.data),
        }
    }
}

/// The draft before any member was seen.
pub open spec fn blank() -> DraftView {
    DraftView { v: None, svc: None, msg_type: None, flags: 0, seq: None, room: None, data: None }
}

/// The draft after one more member. `v` must be an integer up to 255,
/// `flags` one up to 2^32 - 1; `svc` and `type` must be strings; `seq` and
/// `room` may also be `null`, which reads as absent; `data` is taken as it
/// is unless it is `null`.
pub open spec fn absorb(d: DraftView, name: Seq<char>, raw: Seq<char>) -> Result<
    DraftView,
    EnvelopeFault,
> {
    if name == "v"@ {
        match json_unsigned(raw) {
            Some(x) => if x <= 255 {
                Ok(DraftView { v: Some(x as u8), ..d })
            } else {
                Err(EnvelopeFault::BadValue(name))
            },
            None => Err(EnvelopeFault::BadValue(name)),
        }
    } else if name == "svc"@ {
        match json_string(raw) {
            Some(s) => Ok(DraftView { svc: Some(s), ..d }),
            None => Err(EnvelopeFault::BadValue(name)),
        }
    } else if name == "type"@ {
        match json_string(raw) {
            Some(s) => Ok(DraftView { msg_type: Some(s), ..d }),
            None => Err(EnvelopeFault::BadValue(name)),
        }
    } else if name == "flags"@ {
        match json_unsigned(raw) {
            Some(x) => if x <= 0xffff_ffff {
                Ok(DraftView { flags: x as u32, ..d })
            } else {
                Err(EnvelopeFault::BadValue(name))
            },
            None => Err(EnvelopeFault::BadValue(name)),
        }
    } else if name == "seq"@ {
        if json_null(raw) {
            Ok(DraftView { seq: None, ..d })
        } else {
            match json_unsigned(raw) {
                Some(x) => Ok(DraftView { seq: Some(x), ..d }),
                None => Err(EnvelopeFault::BadValue(name)),
            }
        }
    } else if name == "room"@ {
        if json_null(raw) {
            Ok(DraftView { room: None, ..d })
        } else {
            match json_string(raw) {
                Some(s) => Ok(DraftView { room: Some(s), ..d }),
                None => Err(EnvelopeFault::BadValue(name)),
            }
        }
    } else if name == "data"@ {
        if json_null(raw) {
            Ok(DraftView { data: None, ..d })
        } else {
            Ok(DraftView { data: Some(raw), ..d })
        }
    } else {
        Err(EnvelopeFault::UnknownMember(name))
    }
}

/// The draft after all of `members`, taken in order; the first fault ends
/// the scan.
pub open spec fn scan(members: Seq<(Seq<char>, Seq<char>)>) -> Result<DraftView, EnvelopeFault>
    decreases members.len(),
{
    if members.len() == 0 {
        Ok(blank())
    } else {
        match scan(members.drop_last()) {
            Ok(d) => absorb(d, members.last().0, members.last().1),
            Err(f) => Err(f),
        }
    }
}

/// The envelope that a complete draft makes; `v`, `svc` and `type` are
/// required, in that order.
pub open spec fn finish(d: DraftView) -> Result<EnvelopeView, EnvelopeFault> {
    if d.v is None {
        Err(EnvelopeFault::Missing("v"@))
    } else if d.svc is None {
        Err(EnvelopeFault::Missing("svc"@))
    } else if d.msg_type is None {
        Err(EnvelopeFault::Missing("type"@))
    } else {
        Ok(
            EnvelopeView {
                v: d.v->0,
                svc: d.svc->0,
                msg_type: d.msg_type->0,
                flags: d.flags,
                seq: d.seq,
                room: d.room,
                data: d.data,
            },
        )
    }
}

/// The envelope that `text` denotes, or what is wrong with it.
pub open spec fn envelope_of(text: Seq<char>) -> Result<EnvelopeView, EnvelopeFault> {
    match json_members(text) {
        None => Err(EnvelopeFault::NotAnObject),
        Some(members) => if members_written(text) != members.len() {
            Err(EnvelopeFault::RepeatedMember)
        } else {
            match scan(members) {
                Ok(d) => finish(d),
                Err(f) => Err(f),
            }
        },
    }
}

/// A `BadRequest` whose message is `prefix` followed by `name`.
fn fault(prefix: &str, name: &str) -> (e: WsPrismError)
    ensures
        e.is_bad_request(prefix@ + name@),
{
    let mut m = prefix.to_owned();
    m.append(name);
    WsPrismError::BadRequest(m)
}

/// Take one member into the draft.
fn absorb_member(d: Draft, name: &str, raw: &str) -> (res: Result<Draft, WsPrismError>)
    ensures
        match absorb(d@, name@, raw@) {
            Ok(next) => res matches Ok(n) && n@ == next,
            Err(f) => res matches Err(e) && e.is_bad_request(f.message()),
        },
{
    let mut d = d;
    let bad = "invalid envelope json: invalid value for ";
    if str_eq(name, "v") {
        match parse_unsigned(raw) {
            Some(x) => {
                if x <= 255 {
                    d.v = Some(x as u8);
                    Ok(d)
                } else {
                    Err(fault(bad, name))
                }
            },
            None => Err(fault(bad, name)),
        }
    } else if str_eq(name, "svc") {
        match parse_string(raw) {
            Some(s) => {
                d.svc = Some(s);
                Ok(d)
            },
            None => Err(fault(bad, name)),
        }
    } else if str_eq(name, "type") {
        match parse_string(raw) {
            Some(s) => {
                d.msg_type = Some(s);
                Ok(d)
            },
            None => Err(fault(bad, name)),
        }
    } else if str_eq(name, "flags") {
        match parse_unsigned(raw) {
            Some(x) => {
                if x <= 0xffff_ffff {
                    d.flags = x as u32;
                    Ok(d)
                } else {
                    Err(fault(bad, name))
                }
            },
            None => Err(fault(bad, name)),
        }
    } else if str_eq(name, "seq") {
        if parse_null(raw) {
            d.seq = None;
            Ok(d)
        } else {
            match parse_unsigned(raw) {
                Some(x) => {
                    d.seq = Some(x);
                    Ok(d)
                },
                None => Err(fault(bad, name)),
            }
        }
    } else if str_eq(name, "room") {
        if parse_null(raw) {
            d.room = None;
            Ok(d)
        } else {
            match parse_string(raw) {
                Some(s) => {
                    d.room = Some(s);
                    Ok(d)
                },
                None => Err(fault(bad, name)),
            }
        }
    } else if str_eq(name, "data") {
        if parse_null(raw) {
            d.data = None;
            Ok(d)
        } else {
            d.data = Some(raw.to_owned());
            Ok(d)
        }
    } else {
        Err(fault("invalid envelope json: unknown field ", name))
    }
}

/// Parse an envelope. Succeeds iff `text` denotes one; otherwise the
/// error is a `BadRequest` that reports the first fault.
pub fn parse_envelope(text: &str) -> (res: Result<Envelope, WsPrismError>)
    ensures
        match envelope_of(text@) {
            Ok(env) => res matches Ok(e) && e@ == env,
            Err(f) => res matches Err(e) && e.is_bad_request(f.message()),
        },
{
    let members = match parse_members(text) {
        Some(m) => m,
        None => {
            return Err(WsPrismError::BadRequest("invalid envelope json: not an object".to_owned()));
        },
    };
    if count_members(text) != members.len() {
        return Err(WsPrismError::BadRequest("invalid envelope json: duplicate field".to_owned()));
    }
    let ghost all = pair_texts(members@);
    let mut d = Draft {
        v: None,
        svc: None,
        msg_type: None,
        flags: 0,
        seq: None,
        room: None,
        data: None,
    };
    let mut k: usize = 0;
    proof {
        assert(all.take(0) =~= Seq::<(Seq<char>, Seq<char>)>::empty());
    }
    while k < members.len()
        invariant
            k <= members.len(),
            all == pair_texts(members@),
            json_members(text@) == Some(all),
            members_written(text@) == all.len(),
            scan(all.take(k as int)) == Ok::<DraftView, EnvelopeFault>(d@),
        decreases members.len() - k,
    {
        proof {
            assert(all.take(k as int + 1).drop_last() =~= all.take(k as int));
            assert(all.take(k as int + 1).last() == all[k as int]);
            if scan(all.take(k as int + 1)) is Err {
                lemma_scan_fault_sticks(all, k as int + 1);
            }
        }
        d = match absorb_member(d, members[k].0.as_str(), members[k].1.as_str()) {
            Ok(n) => n,
            Err(e) => {
                return Err(e);
            },
        };
        k += 1;
    }
    proof {
        assert(all.take(members.len() as int) =~= all);
    }
    let v = match d.v {
        Some(v) => v,
        None => {
            return Err(fault("invalid envelope json: missing field ", "v"));
        },
    };
    let svc = match d.svc {
        Some(s) => s,
        None => {
            return Err(fault("invalid envelope json: missing field ", "svc"));
        },
    };
    let msg_type = match d.msg_type {
        Some(s) => s,
        None => {
            return Err(fault("invalid envelope json: missing field ", "type"));
        },
    };
    Ok(Envelope { v, svc, msg_type, flags: d.flags, seq: d.seq, room: d.room, data: d.data })
}

/// A fault found in a prefix of the members is the fault of the whole.
pub proof fn lemma_scan_fault_sticks(members: Seq<(Seq<char>, Seq<char>)>, k: int)
    requires
        0 <= k <= members.len(),
        scan(members.take(k)) is Err,
    ensures
        scan(members) == scan(members.take(k)),
    decreases members.len() - k,
{
    if k == members.len() {
        assert(members.take(k) =~= members);
    } else {
        assert(members.take(k + 1).drop_last() =~= members.take(k));
        lemma_scan_fault_sticks(members, k + 1);
    }
}

/// The wire text of an envelope: `v`, `svc`, `type` and `flags` always,
/// then `seq`, `room` and `data` where present, in that order.
pub open spec fn envelope_text(e: EnvelopeView) -> Seq<char> {
    let head = "{\"v\":"@ + decimal_repr(e.v as int) + ",\"svc\":"@ + json_quoted(e.svc)
        + ",\"type\":"@ + json_quoted(e.msg_type) + ",\"flags\":"@ + decimal_repr(e.flags as int);
    let with_seq = match e.seq {
        Some(n) => head + ",\"seq\":"@ + decimal_repr(n as int),
        None => head,
    };
    let with_room = match e.room {
        Some(r) => with_seq + ",\"room\":"@ + json_quoted(r),
        None => with_seq,
    };
    let with_data = match e.data {
        Some(d) => with_room + ",\"data\":"@ + d,
        None => with_room,
    };
    with_data + "}"@
}

/// Serialize an envelope. `data` is copied as it is, so the result is JSON
/// when `data` is.
pub fn encode_envelope(env: &Envelope) -> (r: String)
    ensures
        r@ == envelope_text(env@),
{
    let mut out = "{\"v\":".to_owned();
    out.append(decimal_text(env.v as u64).as_str());
    out.append(",\"svc\":");
    out.append(quote(env.svc.as_str()).as_str());
    out.append(",\"type\":");
    out.append(quote(env.msg_type.as_str()).as_str());
    out.append(",\"flags\":");
    out.append(decimal_text(env.flags as u64).as_str());
    match env.seq {
        Some(n) => {
            out.append(",\"seq\":");
            out.append(decimal_text(n).as_str());
        },
        None => {},
    }
    match &env.room {
        Some(r) => {
            out.append(",\"room\":");
            out.append(quote(r.as_str()).as_str());
        },
        None => {},
    }
    match &env.data {
        Some(d) => {
            out.append(",\"data\":");
            out.append(d.as_str());
        },
        None => {},
    }
    out.append("}");
    out
}

} // verus!
