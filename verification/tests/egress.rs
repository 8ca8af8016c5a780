use bytes::Bytes;
use tokio::sync::mpsc;
use wsprism::error::WsPrismError;
use wsprism::protocol::hot::HotFrame;
use wsprism::protocol::text::parse_envelope;
use wsprism::realtime::egress::{Broadcast, RealtimeCore};
use wsprism::realtime::presence::RoomLimits;
use wsprism::realtime::sessions::SendOutcome;
use wsprism::realtime::types::{Outgoing, Payload, PreparedMsg, QoS, WireMessage};
use wsprism::services::chat::ChatService;
use wsprism::services::echo_binary::EchoBinaryService;
use wsprism::services::gameplay::{build_opcode2_moved, parse_opcode1, GameplayService};

fn no_limits() -> RoomLimits {
    RoomLimits { max_users_per_room: 0, max_rooms_per_user: 0, max_rooms_total: 0 }
}

fn add(
    core: &mut RealtimeCore,
    user: &str,
    session: &str,
    rooms: &[&str],
    capacity: usize,
) -> mpsc::Receiver<WireMessage> {
    let (tx, rx) = mpsc::channel::<WireMessage>(capacity);
    core.sessions.try_insert("t", user, session, tx, 0).unwrap();
    for r in rooms {
        core.presence.try_join("t", r, user, session, no_limits()).unwrap();
    }
    rx
}

fn outcome_of(report: &Broadcast, session: &str) -> Option<SendOutcome> {
    report.deliveries.iter().find(|d| d.session_key == session).expect("recipient").outcome
}

fn binary(bytes: &[u8], qos: QoS) -> Outgoing {
    Outgoing { qos, payload: Payload::Binary(Bytes::from(bytes.to_vec())) }
}

#[test]
fn prepare_serializes_once() {
    let json = Outgoing {
        qos: QoS::Lossy,
        payload: Payload::TextJson(serde_json::Value::String("a\"b".to_string())),
    };
    match PreparedMsg::prepare(&json).unwrap() {
        PreparedMsg::Text(s) => assert_eq!(s, "\"a\\\"b\""),
        other => panic!("unexpected: {:?}", other),
    }
    let utf8 = Outgoing { qos: QoS::Lossy, payload: Payload::Utf8Bytes(Bytes::from("héllo")) };
    match PreparedMsg::prepare(&utf8).unwrap() {
        PreparedMsg::Text(s) => assert_eq!(s, "héllo"),
        other => panic!("unexpected: {:?}", other),
    }
    match PreparedMsg::prepare(&binary(&[0xff, 0x00], QoS::Lossy)).unwrap() {
        PreparedMsg::Binary(b) => assert_eq!(&b[..], &[0xff, 0x00]),
        other => panic!("unexpected: {:?}", other),
    }
}

#[test]
fn prepare_refuses_invalid_utf8() {
    let bad = Outgoing { qos: QoS::Lossy, payload: Payload::Utf8Bytes(Bytes::from(vec![0xff, 0xfe])) };
    match PreparedMsg::prepare(&bad) {
        Err(WsPrismError::BadRequest(m)) => assert_eq!(m, "utf8 invalid"),
        other => panic!("unexpected: {:?}", other),
    }
}

#[test]
fn prepared_message_becomes_a_frame() {
    match PreparedMsg::Text("x".to_string()).to_ws_message() {
        WireMessage::Text(s) => assert_eq!(s, "x"),
        other => panic!("unexpected: {:?}", other),
    }
    match PreparedMsg::Binary(Bytes::from_static(b"\x01\x02")).to_ws_message() {
        WireMessage::Binary(b) => assert_eq!(&b[..], &[1, 2]),
        other => panic!("unexpected: {:?}", other),
    }
}

#[test]
fn qos_defaults() {
    assert_eq!(QoS::default(), QoS::Lossy);
    assert_eq!(QoS::reliable_default(), QoS::Reliable { timeout_ms: 20 });
    assert_eq!(QoS::Reliable { timeout_ms: 0 }.timeout(), None);
    assert_eq!(QoS::Reliable { timeout_ms: 7 }.timeout(), Some(7));
    assert_eq!(QoS::Lossy.timeout(), None);
}

#[test]
fn lossy_publish_reaches_the_room_and_drops_on_full_queues() {
    let mut core = RealtimeCore::new();
    let mut a = add(&mut core, "u1", "a", &["party"], 1);
    let mut b = add(&mut core, "u2", "b", &["party"], 1);
    let mut c = add(&mut core, "u3", "c", &["other"], 1);

    let report = core.publish_room_lossy("party", &binary(b"one", QoS::Lossy)).unwrap();
    assert_eq!(report.deliveries.len(), 2);
    assert!(matches!(report.frame, WireMessage::Binary(ref x) if &x[..] == b"one"));
    assert_eq!(outcome_of(&report, "a"), Some(SendOutcome::Sent));
    assert_eq!(outcome_of(&report, "b"), Some(SendOutcome::Sent));

    // Only b drains its queue; a's is full at the second publish.
    assert!(matches!(b.try_recv().unwrap(), WireMessage::Binary(x) if &x[..] == b"one"));
    let report = core.publish_room_lossy("party", &binary(b"two", QoS::Lossy)).unwrap();
    assert_eq!(outcome_of(&report, "a"), Some(SendOutcome::Full));
    assert_eq!(outcome_of(&report, "b"), Some(SendOutcome::Sent));

    assert!(matches!(a.try_recv().unwrap(), WireMessage::Binary(x) if &x[..] == b"one"));
    assert!(a.try_recv().is_err());
    assert!(matches!(b.try_recv().unwrap(), WireMessage::Binary(x) if &x[..] == b"two"));
    assert!(c.try_recv().is_err());

    assert!(core.publish_room_lossy("nobody", &binary(b"x", QoS::Lossy)).unwrap().deliveries.is_empty());
}

#[test]
fn one_queue_keeps_the_order_of_its_messages() {
    let mut core = RealtimeCore::new();
    let mut rx = add(&mut core, "u", "s", &["r"], 8);
    for i in 0..5u8 {
        core.publish_room_lossy("r", &binary(&[i], QoS::Lossy)).unwrap();
    }
    for i in 0..5u8 {
        assert!(matches!(rx.try_recv().unwrap(), WireMessage::Binary(x) if x[0] == i));
    }
}

#[test]
fn closed_queue_is_reported() {
    let mut core = RealtimeCore::new();
    let rx = add(&mut core, "u", "s", &["r"], 1);
    drop(rx);
    let report = core.publish_room_lossy("r", &binary(b"x", QoS::Lossy)).unwrap();
    assert_eq!(outcome_of(&report, "s"), Some(SendOutcome::Closed));
}

#[test]
fn room_member_without_a_row_is_skipped() {
    let mut core = RealtimeCore::new();
    core.presence.try_join("t", "r", "u", "ghost", no_limits()).unwrap();
    let report = core.publish_room_lossy("r", &binary(b"x", QoS::Lossy)).unwrap();
    assert_eq!(report.deliveries.len(), 1);
    assert_eq!(outcome_of(&report, "ghost"), None);
    let plan = core.plan_room_reliable("r", &binary(b"x", QoS::Reliable { timeout_ms: 5 })).unwrap();
    assert!(plan.recipients.is_empty());
}

#[test]
fn publish_fails_only_when_the_message_cannot_be_prepared() {
    let mut core = RealtimeCore::new();
    let mut rx = add(&mut core, "u", "s", &["r"], 1);
    let bad = Outgoing { qos: QoS::Lossy, payload: Payload::Utf8Bytes(Bytes::from(vec![0x80])) };
    assert!(core.publish_room_lossy("r", &bad).is_err());
    assert!(core.plan_room_reliable("r", &bad).is_err());
    assert!(core.send_to_session("s", &bad).is_err());
    assert!(core.send_to_user("u", &bad).is_err());
    assert!(rx.try_recv().is_err());
}

#[test]
fn send_to_user_reaches_every_session_of_the_user() {
    let mut core = RealtimeCore::new();
    let mut s1 = add(&mut core, "u", "s1", &[], 2);
    let mut s2 = add(&mut core, "u", "s2", &[], 2);
    let mut other = add(&mut core, "v", "s3", &[], 2);
    let report = core.send_to_user("u", &binary(b"hi", QoS::Lossy)).unwrap();
    assert_eq!(report.deliveries.len(), 2);
    assert!(s1.try_recv().is_ok());
    assert!(s2.try_recv().is_ok());
    assert!(other.try_recv().is_err());
    match core.send_to_user("nobody", &binary(b"hi", QoS::Lossy)) {
        Err(WsPrismError::BadRequest(m)) => assert_eq!(m, "user not connected"),
        other => panic!("unexpected: {:?}", other),
    }
}

#[test]
fn send_to_session() {
    let mut core = RealtimeCore::new();
    let mut rx = add(&mut core, "u", "s", &[], 1);
    let sent = core.send_to_session("s", &binary(b"1", QoS::Lossy)).unwrap();
    assert_eq!(outcome_of(&sent, "s"), Some(SendOutcome::Sent));
    assert!(matches!(sent.frame, WireMessage::Binary(ref x) if &x[..] == b"1"));
    let full = core.send_to_session("s", &binary(b"2", QoS::Lossy)).unwrap();
    assert_eq!(outcome_of(&full, "s"), Some(SendOutcome::Full));
    let missing = core.send_to_session("missing", &binary(b"3", QoS::Lossy)).unwrap();
    assert_eq!(missing.deliveries.len(), 1);
    assert_eq!(outcome_of(&missing, "missing"), None);
    assert!(matches!(rx.try_recv().unwrap(), WireMessage::Binary(x) if &x[..] == b"1"));
}

#[test]
fn reliable_plan_names_deadline_and_recipients() {
    let mut core = RealtimeCore::new();
    let _a = add(&mut core, "u1", "a", &["party"], 1);
    let _b = add(&mut core, "u2", "b", &["party"], 1);
    let plan = core.plan_room_reliable("party", &binary(b"x", QoS::Reliable { timeout_ms: 250 })).unwrap();
    assert_eq!(plan.timeout_ms, Some(250));
    let mut keys: Vec<String> = plan.recipients.iter().map(|r| r.session_key.clone()).collect();
    keys.sort();
    assert_eq!(keys, vec!["a".to_string(), "b".to_string()]);
    assert!(matches!(plan.message, PreparedMsg::Binary(ref x) if &x[..] == b"x"));
    // The handles in the plan lead to the recipients' queues.
    for r in plan.recipients.iter() {
        assert!(r.queue.try_send(plan.message.to_ws_message()).is_ok());
    }
    let no_deadline =
        core.plan_room_reliable("party", &binary(b"x", QoS::Reliable { timeout_ms: 0 })).unwrap();
    assert_eq!(no_deadline.timeout_ms, None);
    let lossy = core.plan_room_reliable("party", &binary(b"x", QoS::Lossy)).unwrap();
    assert_eq!(lossy.timeout_ms, None);
}

#[test]
fn shutdown_offers_a_close_frame_to_every_session() {
    let mut core = RealtimeCore::new();
    let mut a = add(&mut core, "u1", "a", &["party"], 1);
    let mut b = add(&mut core, "u2", "b", &[], 1);
    let report = core.best_effort_shutdown_all("draining");
    assert_eq!(report.deliveries.len(), 2);
    assert!(matches!(report.frame, WireMessage::Close { code: 1001, .. }));
    for rx in [&mut a, &mut b] {
        match rx.try_recv().unwrap() {
            WireMessage::Close { code, reason } => {
                assert_eq!(code, 1001);
                assert_eq!(reason, "draining");
            }
            other => panic!("unexpected: {:?}", other),
        }
    }
}

#[test]
fn chat_relays_to_the_room() {
    let mut core = RealtimeCore::new();
    let _a = add(&mut core, "t::user:dev", "a", &["t::party"], 4);
    let _b = add(&mut core, "t::user:dev", "b", &["t::party"], 4);
    let chat = ChatService::new();
    assert_eq!(chat.svc(), "chat");
    let env = parse_envelope(
        r#"{"v":1,"svc":"chat","type":"send","room":"party","data":{"msg":"hi \"all\"","x":1}}"#,
    )
    .unwrap();
    let plan = chat.handle(&core, "t", "user:dev", &env).unwrap();
    assert_eq!(plan.timeout_ms, Some(1500));
    assert_eq!(plan.recipients.len(), 2);
    match &plan.message {
        PreparedMsg::Text(t) => {
            assert_eq!(
                t,
                r#"{"data":{"from":"user:dev","msg":"hi \"all\""},"room":"party","svc":"chat","type":"msg","v":1}"#
            );
        }
        other => panic!("unexpected: {:?}", other),
    }
}

fn chat_error(text: &str) -> String {
    let core = RealtimeCore::new();
    let env = parse_envelope(text).unwrap();
    match ChatService::new().handle(&core, "t", "u", &env) {
        Err(WsPrismError::BadRequest(m)) => m,
        other => panic!("unexpected: {:?}", other.map(|_| ())),
    }
}

#[test]
fn chat_faults() {
    assert_eq!(chat_error(r#"{"v":1,"svc":"chat","type":"edit"}"#), "unknown chat type");
    assert_eq!(chat_error(r#"{"v":1,"svc":"chat","type":"send"}"#), "chat.send requires room");
    assert_eq!(
        chat_error(r#"{"v":1,"svc":"chat","type":"send","room":"r"}"#),
        "chat.send requires data"
    );
    for data in ["[]", "{}", r#"{"msg":5}"#, r#"{"text":"x"}"#, "7", r#"{"msg":"a","msg":"b"}"#] {
        let text = format!(r#"{{"v":1,"svc":"chat","type":"send","room":"r","data":{}}}"#, data);
        assert_eq!(chat_error(&text), "chat.send invalid data");
    }
}

#[test]
fn echo_broadcasts_the_payload_to_the_active_room() {
    let mut core = RealtimeCore::new();
    let mut a = add(&mut core, "t::u1", "a", &["t::party"], 4);
    let echo = EchoBinaryService::new(1);
    assert_eq!(echo.svc_id(), 1);
    let frame = HotFrame {
        v: 1,
        svc_id: 1,
        opcode: 0x2A,
        flags: 1,
        seq: Some(4),
        payload: Bytes::from_static(b"ping"),
    };
    let report = echo.handle_binary(&core, "t", Some("party"), &frame).unwrap();
    assert_eq!(report.deliveries.len(), 1);
    assert!(matches!(a.try_recv().unwrap(), WireMessage::Binary(x) if &x[..] == b"ping"));
    match echo.handle_binary(&core, "t", None, &frame) {
        Err(WsPrismError::BadRequest(m)) => assert_eq!(m, "no active_room"),
        other => panic!("unexpected: {:?}", other),
    }
}

fn move_payload(room: &[u8], seq: u32, keys: u16, mx: i16, my: i16) -> Vec<u8> {
    let mut p = vec![room.len() as u8];
    p.extend_from_slice(room);
    p.extend_from_slice(&seq.to_le_bytes());
    p.extend_from_slice(&keys.to_le_bytes());
    p.extend_from_slice(&mx.to_le_bytes());
    p.extend_from_slice(&my.to_le_bytes());
    p
}

#[test]
fn moves_decode() {
    let m = parse_opcode1(&move_payload(b"arena", 0x01020304, 0xBEEF, -2, 32767)).unwrap();
    assert_eq!(m.room.0, "arena");
    assert_eq!(m.seq, 0x01020304);
    assert_eq!(m.keys, 0xBEEF);
    assert_eq!(m.mx, -2);
    assert_eq!(m.my, 32767);
    let m = parse_opcode1(&move_payload(b"", u32::MAX, 0, i16::MIN, 0)).unwrap();
    assert_eq!(m.room.0, "");
    assert_eq!(m.seq, u32::MAX);
    assert_eq!(m.mx, i16::MIN);
    // Bytes after the move are ignored.
    let mut long = move_payload(b"r", 1, 2, 3, 4);
    long.push(0xAA);
    assert_eq!(parse_opcode1(&long).unwrap().my, 4);
}

#[test]
fn move_faults() {
    let msg = |r: Result<_, WsPrismError>| match r {
        Err(WsPrismError::BadRequest(m)) => m,
        Ok(_) => panic!("must fail"),
        Err(e) => panic!("unexpected: {:?}", e),
    };
    assert_eq!(msg(parse_opcode1(&[])), "payload too short");
    assert_eq!(msg(parse_opcode1(&[0])), "payload truncated");
    let mut short = move_payload(b"abc", 1, 2, 3, 4);
    short.pop();
    assert_eq!(msg(parse_opcode1(&short)), "payload truncated");
    assert_eq!(msg(parse_opcode1(&move_payload(&[0xff], 1, 2, 3, 4))), "room not utf8");
}

#[test]
fn moved_frame_layout() {
    assert_eq!(
        build_opcode2_moved(0x0A0B0C0D, 0x0102, -1, 256),
        vec![2, 0x0D, 0x0C, 0x0B, 0x0A, 0x02, 0x01, 0xFF, 0xFF, 0x00, 0x01]
    );
    for (mx, my) in [(0i16, 0i16), (i16::MIN, i16::MAX), (-12345, 12345)] {
        let bytes = build_opcode2_moved(7, 9, mx, my);
        assert_eq!(bytes.len(), 11);
        assert_eq!(i16::from_le_bytes([bytes[7], bytes[8]]), mx);
        assert_eq!(i16::from_le_bytes([bytes[9], bytes[10]]), my);
    }
}

#[test]
fn gameplay_broadcasts_moves() {
    let mut core = RealtimeCore::new();
    let mut a = add(&mut core, "u", "a", &["arena"], 4);
    let game = GameplayService::new();
    assert_eq!(game.name(), "game");
    assert_eq!(game.svc_id(), 1);
    let report = game.handle_binary(&core, 1, &move_payload(b"arena", 5, 6, -7, 8)).unwrap();
    assert_eq!(report.deliveries.len(), 1);
    assert!(matches!(report.frame, WireMessage::Binary(ref x) if x.to_vec() == build_opcode2_moved(5, 6, -7, 8)));
    match a.try_recv().unwrap() {
        WireMessage::Binary(b) => assert_eq!(b.to_vec(), build_opcode2_moved(5, 6, -7, 8)),
        other => panic!("unexpected: {:?}", other),
    }
    match game.handle_binary(&core, 9, &[]) {
        Err(WsPrismError::BadRequest(m)) => assert_eq!(m, "unknown opcode"),
        other => panic!("unexpected: {:?}", other),
    }
    assert!(game.handle_binary(&core, 1, &[3, b'a']).is_err());
}

#[test]
fn context_carries_the_connection_and_publishes() {
    let mut core = RealtimeCore::new();
    let mut rx = add(&mut core, "t::u", "t::u::s", &["t::party"], 4);
    let ctx = wsprism::realtime::ctx::RealtimeCtx::new(
        "t".to_string(),
        "u".to_string(),
        "s".to_string(),
        "t::u".to_string(),
        "t::u::s".to_string(),
        "trace".to_string(),
        Some("party".to_string()),
        &core,
    );
    assert_eq!(ctx.tenant(), "t");
    assert_eq!(ctx.user(), "u");
    assert_eq!(ctx.session(), "s");
    assert_eq!(ctx.user_key(), "t::u");
    assert_eq!(ctx.session_key(), "t::u::s");
    assert_eq!(ctx.trace_id(), "trace");
    assert_eq!(ctx.active_room(), Some("party"));
    assert_eq!(ctx.core_ref().sessions.count_user_sessions("t::u"), 1);
    let report = ctx.publish_room_lossy("t::party", &binary(b"x", QoS::Lossy)).unwrap();
    assert_eq!(report.deliveries.len(), 1);
    assert!(rx.try_recv().is_ok());
    let plan = ctx.publish_room_reliable("t::party", &binary(b"y", QoS::reliable_default())).unwrap();
    assert_eq!(plan.timeout_ms, Some(20));
    assert_eq!(plan.recipients.len(), 1);
}

#[test]
fn gameplay_envelopes() {
    let mut core = RealtimeCore::new();
    let mut a = add(&mut core, "u1", "a", &["arena"], 4);
    let game = GameplayService::new();

    let join = parse_envelope(r#"{"v":1,"svc":"game","type":"join","room":"arena"}"#).unwrap();
    // Only a registered session can join.
    assert!(game.handle(&mut core, "t", "u2", "b", &join).is_err());
    let _b = add(&mut core, "u2", "b", &[], 4);
    assert!(game.handle(&mut core, "t", "u1", "b", &join).is_err());
    assert!(game.handle(&mut core, "t", "u2", "b", &join).unwrap().is_none());
    assert_eq!(core.presence.refcount("u2", "arena"), 1);

    let input = parse_envelope(
        r#"{"v":1,"svc":"game","type":"input","room":"arena","seq":7,"data":{ "k" : [1, 2] }}"#,
    )
    .unwrap();
    let sent = game.handle(&mut core, "t", "u2", "b", &input).unwrap().unwrap();
    assert_eq!(sent.deliveries.len(), 2);
    let want = r#"{"svc":"game","type":"input","room":"arena","data":{"data":{"k":[1,2]},"from":"u2","seq":7}}"#;
    assert!(matches!(sent.frame, WireMessage::Text(ref t) if t == want));
    assert!(matches!(a.try_recv().unwrap(), WireMessage::Text(t) if t == want));

    let bare = parse_envelope(r#"{"v":1,"svc":"game","type":"input","room":"arena"}"#).unwrap();
    let sent = game.handle(&mut core, "t", "u2", "b", &bare).unwrap().unwrap();
    let want = r#"{"svc":"game","type":"input","room":"arena","data":{"data":{},"from":"u2","seq":null}}"#;
    assert!(matches!(sent.frame, WireMessage::Text(ref t) if t == want));
    // Data that is not JSON is relayed as an empty object.
    let mut broken = bare;
    broken.data = Some("{oops".to_string());
    let sent = game.handle(&mut core, "t", "u2", "b", &broken).unwrap().unwrap();
    assert!(matches!(sent.frame, WireMessage::Text(ref t) if t == want));

    let msg = |r: Result<_, WsPrismError>| match r {
        Err(WsPrismError::BadRequest(m)) => m,
        other => panic!("unexpected: {:?}", other.map(|_: Option<Broadcast>| ())),
    };
    let no_room = parse_envelope(r#"{"v":1,"svc":"game","type":"join"}"#).unwrap();
    assert_eq!(msg(game.handle(&mut core, "t", "u", "s", &no_room)), "game.join requires room");
    let join = parse_envelope(r#"{"v":1,"svc":"game","type":"join","room":"r"}"#).unwrap();
    assert_eq!(
        msg(game.handle(&mut core, "t", "u", "s", &join)),
        "game.join requires a registered session"
    );
    let no_room = parse_envelope(r#"{"v":1,"svc":"game","type":"input"}"#).unwrap();
    assert_eq!(msg(game.handle(&mut core, "t", "u", "s", &no_room)), "game.input requires room");
    let other = parse_envelope(r#"{"v":1,"svc":"game","type":"fly","room":"r"}"#).unwrap();
    assert_eq!(msg(game.handle(&mut core, "t", "u", "s", &other)), "unknown game type: fly");
}
