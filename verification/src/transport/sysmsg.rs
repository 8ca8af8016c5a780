//! Server-originated control messages.
//!
//! Every `sys.*` message is a JSON object with `v` 1, `svc` `"sys"`, a
//! `type`, the connection's `trace_id`, and, depending on the type, `data`
//! and `room`. Members are written in ascending order of their names.

use vstd::prelude::*;
use vstd::string::StringExecFns;
use crate::protocol::text::{json_quoted, quote};

verus! {

/// The text of a `sys.*` message of type `ty`.
pub open spec fn sys_text(
    ty: Seq<char>,
    data: Option<Seq<char>>,
    room: Option<Seq<char>>,
    trace_id: Seq<char>,
) -> Seq<char> {
    let with_data = match data {
        Some(d) => "{\"data\":"@ + d + ","@,
        None => "{"@,
    };
    let with_room = match room {
        Some(r) => with_data + "\"room\":"@ + json_quoted(r) + ","@,
        None => with_data,
    };
    with_room + "\"svc\":\"sys\",\"trace_id\":"@ + json_quoted(trace_id) + ",\"type\":"@
        + json_quoted(ty) + ",\"v\":1}"@
}

/// Assemble a `sys.*` message.
fn sys_json(ty: &str, data: Option<&str>, room: Option<&str>, trace_id: &str) -> (r: String)
    ensures
        r@ == sys_text(
            ty@,
            match data {
                Some(d) => Some(d@),
                None => None,
            },
            match room {
                Some(x) => Some(x@),
                None => None,
            },
            trace_id@,
        ),
{
    let mut out = match data {
        Some(d) => {
            let mut o = "{\"data\":".to_owned();
            o.append(d);
            o.append(",");
            o
        },
        None => "{".to_owned(),
    };
    match room {
        Some(x) => {
            out.append("\"room\":");
            out.append(quote(x).as_str());
            out.append(",");
        },
        None => {},
    }
    out.append("\"svc\":\"sys\",\"trace_id\":");
    out.append(quote(trace_id).as_str());
    out.append(",\"type\":");
    out.append(quote(ty).as_str());
    out.append(",\"v\":1}");
    out
}

/// The `data` of `sys.authed`.
pub open spec fn authed_data(tenant: Seq<char>, user: Seq<char>, sid: Seq<char>) -> Seq<char> {
    "{\"sid\":"@ + json_quoted(sid) + ",\"tenant\":"@ + json_quoted(tenant) + ",\"user\":"@
        + json_quoted(user) + "}"@
}

/// The `data` of `sys.error`.
pub open spec fn error_data(code: Seq<char>, msg: Seq<char>) -> Seq<char> {
    "{\"code\":"@ + json_quoted(code) + ",\"msg\":"@ + json_quoted(msg) + "}"@
}

/// The `data` of `sys.kicked`.
pub open spec fn kicked_data(reason: Seq<char>) -> Seq<char> {
    "{\"reason\":"@ + json_quoted(reason) + "}"@
}

/// `sys.authed`, sent right after admission.
pub fn sys_authed_json(tenant: &str, user: &str, sid: &str, trace_id: &str) -> (r: String)
    ensures
        r@ == sys_text("authed"@, Some(authed_data(tenant@, user@, sid@)), None, trace_id@),
{
    let mut data = "{\"sid\":".to_owned();
    data.append(quote(sid).as_str());
    data.append(",\"tenant\":");
    data.append(quote(tenant).as_str());
    data.append(",\"user\":");
    data.append(quote(user).as_str());
    data.append("}");
    sys_json("authed", Some(data.as_str()), None, trace_id)
}

/// `sys.error`, sent on a policy reject or close, a decode error, a
/// service error or an idle timeout.
pub fn sys_error_json(code: &str, msg: &str, trace_id: &str) -> (r: String)
    ensures
        r@ == sys_text("error"@, Some(error_data(code@, msg@)), None, trace_id@),
{
    let mut data = "{\"code\":".to_owned();
    data.append(quote(code).as_str());
    data.append(",\"msg\":");
    data.append(quote(msg).as_str());
    data.append("}");
    sys_json("error", Some(data.as_str()), None, trace_id)
}

/// `sys.joined`, sent after a room was joined.
pub fn sys_joined_json(room: &str, trace_id: &str) -> (r: String)
    ensures
        r@ == sys_text("joined"@, Some("{}"@), Some(room@), trace_id@),
{
    sys_json("joined", Some("{}"), Some(room), trace_id)
}

/// `sys.left`, sent after a room was left.
pub fn sys_left_json(trace_id: &str) -> (r: String)
    ensures
        r@ == sys_text("left"@, Some("{}"@), None, trace_id@),
{
    sys_json("left", Some("{}"), None, trace_id)
}

/// `sys.kicked`, sent to a session that is evicted.
pub fn sys_kicked_json(reason: &str, trace_id: &str) -> (r: String)
    ensures
        r@ == sys_text("kicked"@, Some(kicked_data(reason@)), None, trace_id@),
{
    let mut data = "{\"reason\":".to_owned();
    data.append(quote(reason).as_str());
    data.append("}");
    sys_json("kicked", Some(data.as_str()), None, trace_id)
}

} // verus!
