use wsprism::error::WsPrismError;
use wsprism::protocol::text::{encode_envelope, parse_envelope, Envelope};

#[test]
fn parse_envelope_min() {
    let s = r#"{"v":1,"svc":"sys","type":"ping"}"#;
    let env: Envelope = parse_envelope(s).unwrap();
    assert_eq!(env.v, 1);
    assert_eq!(env.svc, "sys");
    assert_eq!(env.msg_type, "ping");
    assert!(env.data.is_none());
}

#[test]
fn parse_envelope_full() {
    let s = r#"{
        "v": 1,
        "svc": "chat",
        "type": "send",
        "flags": 0,
        "seq": 123,
        "room": "party:1",
        "data": {"text": "hello"}
    }"#;
    let env: Envelope = parse_envelope(s).unwrap();
    assert_eq!(env.svc, "chat");
    assert_eq!(env.msg_type, "send");
    assert_eq!(env.seq, Some(123));
    assert_eq!(env.room.as_deref(), Some("party:1"));
    let raw = env.data.unwrap();
    assert!(raw.contains("\"text\""));
}

#[test]
fn data_stays_verbatim() {
    let s = r#"{"v":1,"svc":"a","type":"b","data":{ "k" : [1,  2.50, "x\ny"] }}"#;
    let env = parse_envelope(s).unwrap();
    assert_eq!(env.data.as_deref(), Some(r#"{ "k" : [1,  2.50, "x\ny"] }"#));
}

#[test]
fn defaults_of_optional_members() {
    let env = parse_envelope(r#"{"type":"t","svc":"s","v":7}"#).unwrap();
    assert_eq!(env.v, 7);
    assert_eq!(env.flags, 0);
    assert_eq!(env.seq, None);
    assert_eq!(env.room, None);
    assert_eq!(env.data, None);
}

#[test]
fn null_reads_as_absent_for_optional_members() {
    let env =
        parse_envelope(r#"{"v":1,"svc":"s","type":"t","seq":null,"room":null,"data":null}"#).unwrap();
    assert_eq!(env.seq, None);
    assert_eq!(env.room, None);
    assert_eq!(env.data, None);
}

fn message_of(r: Result<Envelope, WsPrismError>) -> String {
    match r {
        Err(WsPrismError::BadRequest(m)) => m,
        other => panic!("unexpected: {:?}", other),
    }
}

#[test]
fn unknown_member_is_refused() {
    let m = message_of(parse_envelope(r#"{"v":1,"svc":"s","type":"t","extra":true}"#));
    assert_eq!(m, "invalid envelope json: unknown field extra");
}

#[test]
fn missing_members_are_reported_in_order() {
    assert_eq!(message_of(parse_envelope("{}")), "invalid envelope json: missing field v");
    assert_eq!(message_of(parse_envelope(r#"{"v":1}"#)), "invalid envelope json: missing field svc");
    assert_eq!(
        message_of(parse_envelope(r#"{"v":1,"svc":"s"}"#)),
        "invalid envelope json: missing field type"
    );
}

#[test]
fn values_of_the_wrong_type_or_range_are_refused() {
    assert_eq!(
        message_of(parse_envelope(r#"{"v":256,"svc":"s","type":"t"}"#)),
        "invalid envelope json: invalid value for v"
    );
    assert_eq!(
        message_of(parse_envelope(r#"{"v":-1,"svc":"s","type":"t"}"#)),
        "invalid envelope json: invalid value for v"
    );
    assert_eq!(
        message_of(parse_envelope(r#"{"v":"1","svc":"s","type":"t"}"#)),
        "invalid envelope json: invalid value for v"
    );
    assert_eq!(
        message_of(parse_envelope(r#"{"v":1,"svc":5,"type":"t"}"#)),
        "invalid envelope json: invalid value for svc"
    );
    assert_eq!(
        message_of(parse_envelope(r#"{"v":1,"svc":"s","type":null}"#)),
        "invalid envelope json: invalid value for type"
    );
    assert_eq!(
        message_of(parse_envelope(r#"{"v":1,"svc":"s","type":"t","flags":4294967296}"#)),
        "invalid envelope json: invalid value for flags"
    );
    assert_eq!(
        message_of(parse_envelope(r#"{"v":1,"svc":"s","type":"t","seq":1.5}"#)),
        "invalid envelope json: invalid value for seq"
    );
    assert_eq!(
        message_of(parse_envelope(r#"{"v":1,"svc":"s","type":"t","room":7}"#)),
        "invalid envelope json: invalid value for room"
    );
}

#[test]
fn text_that_is_no_object_is_refused() {
    for bad in ["", "[]", "1", "\"x\"", "{", "{\"v\":1,}", "null", "{\"v\":1} trailing"] {
        assert_eq!(message_of(parse_envelope(bad)), "invalid envelope json: not an object");
    }
}

#[test]
fn limits_of_the_integer_members() {
    let env = parse_envelope(
        r#"{"v":255,"svc":"s","type":"t","flags":4294967295,"seq":18446744073709551615}"#,
    )
    .unwrap();
    assert_eq!(env.v, 255);
    assert_eq!(env.flags, u32::MAX);
    assert_eq!(env.seq, Some(u64::MAX));
}

#[test]
fn encode_writes_members_in_order() {
    let env = Envelope {
        v: 1,
        svc: "chat".to_string(),
        msg_type: "send".to_string(),
        flags: 0,
        seq: Some(123),
        room: Some("party:1".to_string()),
        data: Some(r#"{"text":"hi"}"#.to_string()),
    };
    assert_eq!(
        encode_envelope(&env),
        r#"{"v":1,"svc":"chat","type":"send","flags":0,"seq":123,"room":"party:1","data":{"text":"hi"}}"#
    );
    let min = Envelope {
        v: 0,
        svc: String::new(),
        msg_type: "x".to_string(),
        flags: 4294967295,
        seq: None,
        room: None,
        data: None,
    };
    assert_eq!(encode_envelope(&min), r#"{"v":0,"svc":"","type":"x","flags":4294967295}"#);
}

#[test]
fn encode_escapes_strings() {
    let env = Envelope {
        v: 1,
        svc: "a\"b".to_string(),
        msg_type: "line\nbreak\\".to_string(),
        flags: 0,
        seq: None,
        room: Some("r\u{1}".to_string()),
        data: None,
    };
    assert_eq!(
        encode_envelope(&env),
        r#"{"v":1,"svc":"a\"b","type":"line\nbreak\\","flags":0,"room":"r\u0001"}"#
    );
}

fn assert_round_trip(env: &Envelope) {
    let back = parse_envelope(&encode_envelope(env)).unwrap();
    assert_eq!(back.v, env.v);
    assert_eq!(back.svc, env.svc);
    assert_eq!(back.msg_type, env.msg_type);
    assert_eq!(back.flags, env.flags);
    assert_eq!(back.seq, env.seq);
    assert_eq!(back.room, env.room);
    assert_eq!(back.data, env.data);
}

#[test]
fn envelope_round_trip() {
    assert_round_trip(&Envelope {
        v: 1,
        svc: "chat".to_string(),
        msg_type: "send".to_string(),
        flags: 7,
        seq: Some(0),
        room: Some("pärty \"1\"\t".to_string()),
        data: Some(r#"{"msg":"hi","n":[1,2,{"deep":null}]}"#.to_string()),
    });
    assert_round_trip(&Envelope {
        v: 255,
        svc: "".to_string(),
        msg_type: "\u{0}\u{7f}\u{1F600}".to_string(),
        flags: u32::MAX,
        seq: Some(u64::MAX),
        room: None,
        data: Some("\"just a string\"".to_string()),
    });
    assert_round_trip(&Envelope {
        v: 0,
        svc: "s".to_string(),
        msg_type: "t".to_string(),
        flags: 0,
        seq: None,
        room: Some(String::new()),
        data: None,
    });
}

#[test]
fn repeated_member_is_refused() {
    for text in [
        r#"{"v":1,"v":1,"svc":"s","type":"t"}"#,
        r#"{"v":1,"svc":"s","type":"t","svc":"s2"}"#,
        r#"{"v":1,"svc":"s","type":"t","data":1,"data":2}"#,
        r#"{ "v" : 1 , "svc" : "s", "type":"t", "seq":1, "seq" : 1 }"#,
    ] {
        assert_eq!(message_of(parse_envelope(text)), "invalid envelope json: duplicate field");
    }
}

#[test]
fn colons_and_braces_inside_values_do_not_count_as_members() {
    let env = parse_envelope(
        r#"{"v":1,"svc":"a:b","type":"{\":\"}","room":"x\\","data":{"k":{"v":1,"v2":[{"a":1}]},"s":":\":"}}"#,
    )
    .unwrap();
    assert_eq!(env.svc, "a:b");
    assert_eq!(env.msg_type, "{\":\"}");
    assert_eq!(env.room.as_deref(), Some("x\\"));
    // A member repeated inside the payload is the payload's own business.
    let env = parse_envelope(r#"{"v":1,"svc":"s","type":"t","data":{"k":1,"k":2}}"#).unwrap();
    assert_eq!(env.data.as_deref(), Some(r#"{"k":1,"k":2}"#));
}
