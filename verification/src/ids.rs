//! Identities and the composite keys derived from them.

use vstd::prelude::*;
use vstd::string::StringExecFns;
use crate::strings::{hex_repr, hex_text};

verus! {

/// Separator between the parts of a composite key.
pub open spec fn separator() -> Seq<char> {
    "::"@
}

/// `tenant_id :: user_id`.
pub open spec fn user_key_of(tenant: Seq<char>, user: Seq<char>) -> Seq<char> {
    tenant + separator() + user
}

/// `user_key :: session_id`.
pub open spec fn session_key_of(user_key: Seq<char>, session: Seq<char>) -> Seq<char> {
    user_key + separator() + session
}

/// `tenant_id :: room`.
pub open spec fn room_key_of(tenant: Seq<char>, room: Seq<char>) -> Seq<char> {
    tenant + separator() + room
}

/// Join two parts with the separator.
fn joined(a: &str, b: &str) -> (r: String)
    ensures
        r@ == a@ + separator() + b@,
{
    let mut out = a.to_owned();
    out.append("::");
    out.append(b);
    out
}

/// The key of a user within a tenant.
pub fn user_key(tenant: &str, user: &str) -> (r: String)
    ensures
        r@ == user_key_of(tenant@, user@),
{
    joined(tenant, user)
}

/// The key of a session of a user.
pub fn session_key(user_key: &str, session: &str) -> (r: String)
    ensures
        r@ == session_key_of(user_key@, session@),
{
    joined(user_key, session)
}

/// The key of a room within a tenant.
pub fn room_key(tenant: &str, room: &str) -> (r: String)
    ensures
        r@ == room_key_of(tenant@, room@),
{
    joined(tenant, room)
}

/// Longest session id that a client may supply, in characters.
pub const MAX_SESSION_ID_CHARS: usize = 64;

/// Whether a client-supplied session id is acceptable: not empty and at
/// most 64 characters.
pub open spec fn session_id_ok(sid: Seq<char>) -> bool {
    1 <= sid.len() <= 64
}

/// Whether a client-supplied session id is acceptable.
pub fn valid_session_id(sid: &str) -> (ok: bool)
    ensures
        ok == session_id_ok(sid@),
{
    let n = sid.unicode_len();
    1 <= n && n <= MAX_SESSION_ID_CHARS
}

/// The trace id minted for a connection: the clock reading in
/// nanoseconds and the connection's sequence number, both in hexadecimal,
/// joined by a hyphen.
pub open spec fn trace_id_of(nanos: u64, seq: u64) -> Seq<char> {
    hex_repr(nanos as int) + "-"@ + hex_repr(seq as int)
}

/// Mint a trace id.
pub fn trace_id(nanos: u64, seq: u64) -> (r: String)
    ensures
        r@ == trace_id_of(nanos, seq),
{
    let mut out = hex_text(nanos);
    out.append("-");
    out.append(hex_text(seq).as_str());
    out
}

/// The session id that the server gives a connection which supplied none:
/// its sequence number in hexadecimal.
pub fn generated_session_id(seq: u64) -> (r: String)
    ensures
        r@ == hex_repr(seq as int),
{
    hex_text(seq)
}

/// A user id.
#[derive(Debug, Clone, PartialEq, Eq, Hash)]
pub struct UserId(pub String);

/// A room id.
#[derive(Debug, Clone, PartialEq, Eq, Hash)]
pub struct RoomId(pub String);

} // verus!
