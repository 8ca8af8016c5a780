use wsprism::protocol::text::parse_envelope;
use wsprism::transport::sysmsg::{
    sys_authed_json, sys_error_json, sys_joined_json, sys_kicked_json, sys_left_json,
};

#[test]
fn authed_message() {
    assert_eq!(
        sys_authed_json("acme", "user:dev", "tab-1", "1a-2"),
        r#"{"data":{"sid":"tab-1","tenant":"acme","user":"user:dev"},"svc":"sys","trace_id":"1a-2","type":"authed","v":1}"#
    );
}

#[test]
fn error_message() {
    assert_eq!(
        sys_error_json("BAD_REQUEST", "ext_allowlist empty (strict deny)", "t-1"),
        r#"{"data":{"code":"BAD_REQUEST","msg":"ext_allowlist empty (strict deny)"},"svc":"sys","trace_id":"t-1","type":"error","v":1}"#
    );
}

#[test]
fn joined_message_names_the_room() {
    assert_eq!(
        sys_joined_json("party", "t"),
        r#"{"data":{},"room":"party","svc":"sys","trace_id":"t","type":"joined","v":1}"#
    );
}

#[test]
fn left_message() {
    assert_eq!(sys_left_json("t"), r#"{"data":{},"svc":"sys","trace_id":"t","type":"left","v":1}"#);
}

#[test]
fn kicked_message() {
    assert_eq!(
        sys_kicked_json("max_sessions_exceeded", "t"),
        r#"{"data":{"reason":"max_sessions_exceeded"},"svc":"sys","trace_id":"t","type":"kicked","v":1}"#
    );
}

#[test]
fn strings_are_escaped() {
    assert_eq!(
        sys_error_json("C", "say \"hi\"\n", "t\\1"),
        r#"{"data":{"code":"C","msg":"say \"hi\"\n"},"svc":"sys","trace_id":"t\\1","type":"error","v":1}"#
    );
}

#[test]
fn sys_messages_are_json_objects_with_the_common_members() {
    let texts = [
        sys_authed_json("t", "u", "s", "trace"),
        sys_error_json("TIMEOUT", "idle timeout", "trace"),
        sys_joined_json("r", "trace"),
        sys_left_json("trace"),
        sys_kicked_json("max_sessions_exceeded", "trace"),
    ];
    for text in texts.iter() {
        let v: serde_json::Value = serde_json::from_str(text).unwrap();
        assert_eq!(v["v"], 1);
        assert_eq!(v["svc"], "sys");
        assert_eq!(v["trace_id"], "trace");
        assert!(v["type"].is_string());
        // The strict envelope schema knows no trace_id.
        assert!(parse_envelope(text).is_err());
    }
}
