use tokio::sync::mpsc;
use wsprism::config::schema::{
    HotErrorMode, OnExceed, RateLimitScope, SessionMode, SessionPolicy, TenantPolicy,
};
use wsprism::error::WsPrismError;
use wsprism::policy::engine::TenantPolicyRuntime;
use wsprism::realtime::egress::RealtimeCore;
use wsprism::realtime::presence::RoomLimits;
use wsprism::realtime::sessions::SendOutcome;
use wsprism::realtime::types::WireMessage;
use wsprism::transport::admission::{
    admit_session, cleanup, resolve_ticket, retry_after_header_secs, upgrade_decision, Admission,
    UpgradeDecision,
};
use wsprism::transport::codec::Frame;
use wsprism::error::ClientCode;
use wsprism::transport::conn::{ping_frame, Cause, Connection, Lane, Outcome, Phase, Step};
use wsprism::transport::steady::on_frame;

fn policy(ext: &[&str], hot: &[&str]) -> TenantPolicy {
    TenantPolicy {
        rate_limit_rps: 1000,
        rate_limit_burst: 1000,
        rate_limit_scope: RateLimitScope::Tenant,
        ext_allowlist: ext.iter().map(|s| s.to_string()).collect(),
        hot_allowlist: hot.iter().map(|s| s.to_string()).collect(),
        sessions: SessionPolicy {
            mode: SessionMode::Multi,
            max_sessions_per_user: 4,
            on_exceed: OnExceed::Deny,
        },
        hot_error_mode: HotErrorMode::SysError,
        hot_requires_active_room: true,
    }
}

fn runtime(p: &TenantPolicy) -> TenantPolicyRuntime {
    TenantPolicyRuntime::new("acme".to_string(), 4096, p, 0).unwrap()
}

fn no_limits() -> RoomLimits {
    RoomLimits { max_users_per_room: 0, max_rooms_per_user: 0, max_rooms_total: 0 }
}

struct Client {
    conn: Connection,
    rx: mpsc::Receiver<WireMessage>,
}

fn connect(core: &mut RealtimeCore, rt: &TenantPolicyRuntime, user: &str, sid: &str) -> Client {
    let (tx, rx) = mpsc::channel::<WireMessage>(16);
    match admit_session(core, rt, 0, "acme", user, sid, tx, "trace-1", 0) {
        Admission::Admitted { mut conn, authed, kicked } => {
            assert!(kicked.is_none());
            assert_eq!(conn.phase, Phase::Authed);
            match authed {
                WireMessage::Text(t) => assert!(t.contains("\"type\":\"authed\"")),
                other => panic!("unexpected: {:?}", other),
            }
            conn.mark_steady();
            assert_eq!(conn.phase, Phase::Steady);
            Client { conn, rx }
        }
        other => panic!("unexpected: {:?}", other),
    }
}

/// Drop what the connection's queue holds.
fn step_free(c: &mut Client) {
    while c.rx.try_recv().is_ok() {}
}

fn text(s: &str) -> Frame {
    Frame::Text(s.to_string())
}

fn reply_json(step: &Step) -> serde_json::Value {
    match &step.reply {
        Some(WireMessage::Text(t)) => serde_json::from_str(t).unwrap(),
        other => panic!("unexpected reply: {:?}", other),
    }
}

fn assert_error(step: &Step, code: &str, msg: &str) {
    let v = reply_json(step);
    assert_eq!(v["svc"], "sys");
    assert_eq!(v["type"], "error");
    assert_eq!(v["v"], 1);
    assert_eq!(v["trace_id"], "trace-1");
    assert_eq!(v["data"]["code"], code);
    assert_eq!(v["data"]["msg"], msg);
}

#[test]
fn strict_deny_keeps_the_connection_open() {
    let mut core = RealtimeCore::new();
    let mut rt = runtime(&policy(&[], &[]));
    let mut c = connect(&mut core, &rt, "user:dev", "s1");
    let step = on_frame(
        &mut c.conn,
        &mut rt,
        &mut core,
        no_limits(),
        text(r#"{"v":1,"svc":"chat","type":"send","room":"r","data":{"msg":"hi"}}"#),
        10,
    );
    assert_error(&step, "BAD_REQUEST", "ext_allowlist empty (strict deny)");
    assert!(matches!(step.outcome, Outcome::Continue));
    assert_eq!(c.conn.phase, Phase::Steady);
    assert_eq!(c.conn.last_activity_ms, 10);
}

#[test]
fn frame_outside_the_allowlist_is_not_allowed() {
    let mut core = RealtimeCore::new();
    let mut rt = runtime(&policy(&["room:join"], &[]));
    let mut c = connect(&mut core, &rt, "user:dev", "s1");
    let step = on_frame(
        &mut c.conn,
        &mut rt,
        &mut core,
        no_limits(),
        text(r#"{"v":1,"svc":"chat","type":"send"}"#),
        10,
    );
    assert_error(&step, "NOT_ALLOWED", "svc/type not allowed");
    assert_eq!(step.cause, Cause::Rejected(ClientCode::NotAllowed));
    assert!(matches!(step.outcome, Outcome::Continue));
    assert_eq!(c.conn.phase, Phase::Steady);
}

#[test]
fn room_join_and_leave() {
    let mut core = RealtimeCore::new();
    let mut rt = runtime(&policy(&["room:join", "room:leave", "chat:send"], &[]));
    let mut c = connect(&mut core, &rt, "user:dev", "s1");

    let step = on_frame(
        &mut c.conn,
        &mut rt,
        &mut core,
        no_limits(),
        text(r#"{"v":1,"svc":"room","type":"join","room":"party"}"#),
        1,
    );
    let v = reply_json(&step);
    assert_eq!(v["type"], "joined");
    assert_eq!(v["room"], "party");
    assert_eq!(v["trace_id"], "trace-1");
    assert!(matches!(step.outcome, Outcome::Continue));
    assert_eq!(c.conn.active_room.as_deref(), Some("party"));
    assert_eq!(core.presence.sessions_in("acme::party"), vec![c.conn.session_key.clone()]);
    assert_eq!(c.conn.session_key, "acme::user:dev::s1");
    assert_eq!(c.conn.user_key, "acme::user:dev");

    // A join without a room means the room `default`.
    let step = on_frame(
        &mut c.conn,
        &mut rt,
        &mut core,
        no_limits(),
        text(r#"{"v":1,"svc":"room","type":"join"}"#),
        2,
    );
    assert_eq!(reply_json(&step)["room"], "default");
    assert_eq!(c.conn.active_room.as_deref(), Some("default"));
    assert_eq!(core.presence.rooms_of(&c.conn.session_key).len(), 2);

    // A leave that names a room other than the active one keeps the
    // active one.
    let step = on_frame(
        &mut c.conn,
        &mut rt,
        &mut core,
        no_limits(),
        text(r#"{"v":1,"svc":"room","type":"leave","room":"party"}"#),
        3,
    );
    assert_eq!(reply_json(&step)["type"], "left");
    assert_eq!(c.conn.active_room.as_deref(), Some("default"));
    assert!(core.presence.sessions_in("acme::party").is_empty());

    // A leave without a room means the active room.
    let step = on_frame(
        &mut c.conn,
        &mut rt,
        &mut core,
        no_limits(),
        text(r#"{"v":1,"svc":"room","type":"leave"}"#),
        4,
    );
    assert_eq!(reply_json(&step)["type"], "left");
    assert_eq!(c.conn.active_room, None);
    assert!(core.presence.rooms_of(&c.conn.session_key).is_empty());
}

#[test]
fn join_refused_by_a_cap_is_reported() {
    let mut core = RealtimeCore::new();
    let mut rt = runtime(&policy(&["room:*"], &[]));
    let limits = RoomLimits { max_users_per_room: 0, max_rooms_per_user: 1, max_rooms_total: 0 };
    let mut c = connect(&mut core, &rt, "user:dev", "s1");
    on_frame(&mut c.conn, &mut rt, &mut core, limits, text(r#"{"v":1,"svc":"room","type":"join","room":"a"}"#), 1);
    let step = on_frame(
        &mut c.conn,
        &mut rt,
        &mut core,
        limits,
        text(r#"{"v":1,"svc":"room","type":"join","room":"b"}"#),
        2,
    );
    assert_error(&step, "NOT_ALLOWED", "resource exhausted: user room limit reached");
    assert!(matches!(step.outcome, Outcome::Continue));
    assert_eq!(c.conn.active_room.as_deref(), Some("a"));
    assert!(core.presence.sessions_in("acme::b").is_empty());
}

#[test]
fn other_envelopes_are_dispatched() {
    let mut core = RealtimeCore::new();
    let mut rt = runtime(&policy(&["chat:send"], &[]));
    let mut c = connect(&mut core, &rt, "user:dev", "s1");
    let step = on_frame(
        &mut c.conn,
        &mut rt,
        &mut core,
        no_limits(),
        text(r#"{"v":1,"svc":"chat","type":"send","room":"r","data":{"msg":"hi"}}"#),
        1,
    );
    assert!(step.reply.is_none());
    match step.outcome {
        Outcome::DispatchText(env) => {
            assert_eq!(env.svc, "chat");
            assert_eq!(env.msg_type, "send");
            assert_eq!(env.data.as_deref(), Some(r#"{"msg":"hi"}"#));
        }
        other => panic!("unexpected: {:?}", other),
    }
}

#[test]
fn decode_error_is_terminal() {
    let mut core = RealtimeCore::new();
    let mut rt = runtime(&policy(&["chat:*"], &["1:*"]));
    let mut c = connect(&mut core, &rt, "user:dev", "s1");
    let step = on_frame(&mut c.conn, &mut rt, &mut core, no_limits(), text("not json"), 1);
    assert_error(&step, "BAD_REQUEST", "bad request: invalid envelope json: not an object");
    assert_eq!(step.cause, Cause::Decode);
    assert!(matches!(step.outcome, Outcome::Close));
    assert_eq!(c.conn.phase, Phase::Closing);

    // Once closing, frames are ignored.
    let step = on_frame(&mut c.conn, &mut rt, &mut core, no_limits(), text("{}"), 2);
    assert!(step.reply.is_none());
    assert!(matches!(step.outcome, Outcome::Close));
    assert_eq!(c.conn.last_activity_ms, 1);

    let mut d = connect(&mut core, &rt, "user:dev", "s2");
    let step = on_frame(&mut d.conn, &mut rt, &mut core, no_limits(), Frame::Binary(vec![2, 1, 1, 0]), 1);
    assert_error(&step, "UNSUPPORTED_VERSION", "unsupported protocol version");
    assert!(matches!(step.outcome, Outcome::Close));
}

#[test]
fn oversized_frame_closes() {
    let mut core = RealtimeCore::new();
    let p = policy(&["chat:*"], &[]);
    let mut rt = TenantPolicyRuntime::new("acme".to_string(), 40, &p, 0).unwrap();
    let mut c = connect(&mut core, &rt, "user:dev", "s1");
    let big = r#"{"v":1,"svc":"chat","type":"send","data":"0123456789"}"#;
    assert!(big.len() > 40);
    let step = on_frame(&mut c.conn, &mut rt, &mut core, no_limits(), text(big), 1);
    assert_error(&step, "BAD_REQUEST", "frame too large");
    assert_eq!(step.cause, Cause::Closed(ClientCode::BadRequest));
    assert!(matches!(step.outcome, Outcome::Close));
    assert_eq!(c.conn.phase, Phase::Closing);
}

#[test]
fn rate_limited_frames_are_dropped_silently() {
    let mut core = RealtimeCore::new();
    let mut p = policy(&["chat:*"], &["1:*"]);
    p.rate_limit_rps = 1;
    p.rate_limit_burst = 1;
    let mut rt = runtime(&p);
    let mut c = connect(&mut core, &rt, "user:dev", "s1");
    let frame = r#"{"v":1,"svc":"chat","type":"send"}"#;
    let step = on_frame(&mut c.conn, &mut rt, &mut core, no_limits(), text(frame), 0);
    assert!(matches!(step.outcome, Outcome::DispatchText(_)));
    let step = on_frame(&mut c.conn, &mut rt, &mut core, no_limits(), text(frame), 0);
    assert!(step.reply.is_none());
    assert!(matches!(step.outcome, Outcome::Continue));
    let step = on_frame(&mut c.conn, &mut rt, &mut core, no_limits(), Frame::Binary(vec![1, 1, 1, 0]), 0);
    assert!(step.reply.is_none());
    assert!(matches!(step.outcome, Outcome::Continue));
}

#[test]
fn per_connection_rate_limit() {
    let mut core = RealtimeCore::new();
    let mut p = policy(&["chat:*"], &[]);
    p.rate_limit_scope = RateLimitScope::Connection;
    p.rate_limit_rps = 1;
    p.rate_limit_burst = 1;
    let mut rt = runtime(&p);
    let mut a = connect(&mut core, &rt, "user:dev", "s1");
    let mut b = connect(&mut core, &rt, "user:dev", "s2");
    let frame = r#"{"v":1,"svc":"chat","type":"send"}"#;
    // Each connection has a token of its own.
    assert!(matches!(
        on_frame(&mut a.conn, &mut rt, &mut core, no_limits(), text(frame), 0).outcome,
        Outcome::DispatchText(_)
    ));
    assert!(matches!(
        on_frame(&mut b.conn, &mut rt, &mut core, no_limits(), text(frame), 0).outcome,
        Outcome::DispatchText(_)
    ));
    assert!(matches!(
        on_frame(&mut a.conn, &mut rt, &mut core, no_limits(), text(frame), 0).outcome,
        Outcome::Continue
    ));
    assert!(matches!(
        on_frame(&mut a.conn, &mut rt, &mut core, no_limits(), text(frame), 1000).outcome,
        Outcome::DispatchText(_)
    ));
}

#[test]
fn hot_frame_needs_an_active_room() {
    let mut core = RealtimeCore::new();
    let mut rt = runtime(&policy(&["room:join"], &["1:*"]));
    let mut c = connect(&mut core, &rt, "user:dev", "s1");
    let raw = vec![0x01, 0x01, 0x2A, 0x01, 0x04, 0x00, 0x00, 0x00, b'p', b'i', b'n', b'g'];

    let step = on_frame(&mut c.conn, &mut rt, &mut core, no_limits(), Frame::Binary(raw.clone()), 1);
    assert_error(&step, "BAD_REQUEST", "no active_room");
    assert!(matches!(step.outcome, Outcome::Continue));

    on_frame(
        &mut c.conn,
        &mut rt,
        &mut core,
        no_limits(),
        text(r#"{"v":1,"svc":"room","type":"join","room":"party"}"#),
        2,
    );
    let step = on_frame(&mut c.conn, &mut rt, &mut core, no_limits(), Frame::Binary(raw), 3);
    assert!(step.reply.is_none());
    match step.outcome {
        Outcome::DispatchHot(frame) => {
            assert_eq!(frame.svc_id, 1);
            assert_eq!(frame.opcode, 0x2A);
            assert_eq!(frame.seq, Some(4));
            assert_eq!(&frame.payload[..], b"ping");
        }
        other => panic!("unexpected: {:?}", other),
    }
}

#[test]
fn hot_errors_can_be_silent() {
    let mut core = RealtimeCore::new();
    let mut p = policy(&[], &["1:*"]);
    p.hot_error_mode = HotErrorMode::Silent;
    let mut rt = runtime(&p);
    let mut c = connect(&mut core, &rt, "user:dev", "s1");
    let step = on_frame(&mut c.conn, &mut rt, &mut core, no_limits(), Frame::Binary(vec![1, 1, 1, 0]), 1);
    assert!(step.reply.is_none());
    assert!(matches!(step.outcome, Outcome::Continue));

    let failed: Result<(), WsPrismError> = Err(WsPrismError::BadRequest("nope".to_string()));
    assert!(c.conn.on_service_result(Lane::Hot, HotErrorMode::Silent, &failed).is_none());
    match c.conn.on_service_result(Lane::Hot, HotErrorMode::SysError, &failed) {
        Some(WireMessage::Text(t)) => assert!(t.contains("bad request: nope")),
        other => panic!("unexpected: {:?}", other),
    }
    // The Ext lane always reports.
    assert!(c.conn.on_service_result(Lane::Ext, HotErrorMode::Silent, &failed).is_some());
    assert!(c.conn.on_service_result(Lane::Ext, HotErrorMode::Silent, &Ok(())).is_none());
}

#[test]
fn hot_frames_may_do_without_a_room() {
    let mut core = RealtimeCore::new();
    let mut p = policy(&[], &["1:*"]);
    p.hot_requires_active_room = false;
    let mut rt = runtime(&p);
    let mut c = connect(&mut core, &rt, "user:dev", "s1");
    let step = on_frame(&mut c.conn, &mut rt, &mut core, no_limits(), Frame::Binary(vec![1, 1, 1, 0]), 1);
    assert!(matches!(step.outcome, Outcome::DispatchHot(_)));
}

#[test]
fn control_frames() {
    let mut core = RealtimeCore::new();
    let mut rt = runtime(&policy(&[], &[]));
    let mut c = connect(&mut core, &rt, "user:dev", "s1");
    let step = on_frame(&mut c.conn, &mut rt, &mut core, no_limits(), Frame::Ping(vec![1, 2]), 5);
    match step.reply {
        Some(WireMessage::Pong(p)) => assert_eq!(p, vec![1, 2]),
        other => panic!("unexpected: {:?}", other),
    }
    assert!(matches!(step.outcome, Outcome::Continue));
    let step = on_frame(&mut c.conn, &mut rt, &mut core, no_limits(), Frame::Pong(vec![]), 6);
    assert!(step.reply.is_none());
    assert!(matches!(step.outcome, Outcome::Continue));
    let step = on_frame(&mut c.conn, &mut rt, &mut core, no_limits(), Frame::Close, 7);
    assert!(step.reply.is_none());
    assert!(matches!(step.outcome, Outcome::Close));
    assert_eq!(c.conn.phase, Phase::Closing);
    assert!(matches!(ping_frame(), WireMessage::Ping(p) if p.is_empty()));
}

#[test]
fn idle_timeout() {
    let mut core = RealtimeCore::new();
    let rt = runtime(&policy(&[], &[]));
    let mut c = connect(&mut core, &rt, "user:dev", "s1");
    c.conn.last_activity_ms = 1_000;
    let step = c.conn.on_idle_check(60_999, 60_000);
    assert!(step.reply.is_none());
    assert!(matches!(step.outcome, Outcome::Continue));
    let step = c.conn.on_idle_check(61_000, 60_000);
    assert_error(&step, "TIMEOUT", "idle timeout");
    assert!(matches!(step.outcome, Outcome::Close));
    assert_eq!(c.conn.phase, Phase::Closing);
}

#[test]
fn session_kick() {
    let mut core = RealtimeCore::new();
    let mut p = policy(&[], &[]);
    p.sessions =
        SessionPolicy { mode: SessionMode::Multi, max_sessions_per_user: 1, on_exceed: OnExceed::KickOldest };
    p.ext_allowlist = vec!["room:join".to_string()];
    let mut rt = runtime(&p);
    let mut first = connect(&mut core, &rt, "user:dev", "s1");
    on_frame(
        &mut first.conn,
        &mut rt,
        &mut core,
        no_limits(),
        text(r#"{"v":1,"svc":"room","type":"join","room":"party"}"#),
        1,
    );
    assert_eq!(core.presence.sessions_in("acme::party").len(), 1);
    // The reply to the join is read before the eviction.
    assert!(matches!(step_free(&mut first), ()));

    let (tx, _rx2) = mpsc::channel::<WireMessage>(16);
    match admit_session(&mut core, &rt, 0, "acme", "user:dev", "s2", tx, "trace-2", 5) {
        Admission::Admitted { conn, authed, kicked } => {
            let k = kicked.expect("eviction");
            assert_eq!(k.session_key, "acme::user:dev::s1");
            assert_eq!(k.rooms, vec!["acme::party".to_string()]);
            assert_eq!(k.notice, SendOutcome::Sent);
            assert_eq!(k.close, SendOutcome::Sent);
            assert!(matches!(k.notice_frame, WireMessage::Text(ref t) if t.contains("\"kicked\"")));
            assert!(matches!(k.close_frame, WireMessage::Close { code: 1008, .. }));
            assert_eq!(conn.session_key, "acme::user:dev::s2");
            match authed {
                WireMessage::Text(t) => {
                    let v: serde_json::Value = serde_json::from_str(&t).unwrap();
                    assert_eq!(v["type"], "authed");
                    assert_eq!(v["data"]["tenant"], "acme");
                    assert_eq!(v["data"]["user"], "user:dev");
                    assert_eq!(v["data"]["sid"], "s2");
                }
                other => panic!("unexpected: {:?}", other),
            }
        }
        other => panic!("unexpected: {:?}", other),
    }
    // The victim is told first, then its socket is closed with 1008.
    match first.rx.try_recv().unwrap() {
        WireMessage::Text(t) => {
            let v: serde_json::Value = serde_json::from_str(&t).unwrap();
            assert_eq!(v["type"], "kicked");
            assert_eq!(v["data"]["reason"], "max_sessions_exceeded");
        }
        other => panic!("unexpected: {:?}", other),
    }
    match first.rx.try_recv().unwrap() {
        WireMessage::Close { code, reason } => {
            assert_eq!(code, 1008);
            assert_eq!(reason, "max_sessions_exceeded");
        }
        other => panic!("unexpected: {:?}", other),
    }
    assert_eq!(core.sessions.get_user_sessions("acme::user:dev"), vec!["acme::user:dev::s2".to_string()]);
    // The evicted session is in no room any more, and a frame that still
    // arrives on its connection ends its loop.
    assert!(core.presence.sessions_in("acme::party").is_empty());
    let step = on_frame(
        &mut first.conn,
        &mut rt,
        &mut core,
        no_limits(),
        text(r#"{"v":1,"svc":"room","type":"join","room":"party"}"#),
        9,
    );
    assert!(step.reply.is_none());
    assert_eq!(step.cause, Cause::Evicted);
    assert!(matches!(step.outcome, Outcome::Close));
    assert_eq!(first.conn.phase, Phase::Closing);
    assert!(core.presence.sessions_in("acme::party").is_empty());
    // The victim's own cleanup finds its row gone and releases nothing twice.
    first.conn.close();
    let released = cleanup(&mut first.conn, &mut core);
    assert!(released.queue.is_none());
    assert_eq!(first.conn.phase, Phase::Gone);
    assert_eq!(core.sessions.count_user_sessions("acme::user:dev"), 1);
}

#[test]
fn session_quota_denies() {
    let mut core = RealtimeCore::new();
    let mut p = policy(&[], &[]);
    p.sessions =
        SessionPolicy { mode: SessionMode::Single, max_sessions_per_user: 1, on_exceed: OnExceed::Deny };
    let rt = runtime(&p);
    let _first = connect(&mut core, &rt, "user:dev", "s1");
    let (tx, _rx) = mpsc::channel::<WireMessage>(1);
    match admit_session(&mut core, &rt, 0, "acme", "user:dev", "s2", tx, "trace-1", 0) {
        Admission::Denied { error: WireMessage::Text(t) } => {
            let v: serde_json::Value = serde_json::from_str(&t).unwrap();
            assert_eq!(v["data"]["code"], "TOO_MANY_SESSIONS");
        }
        other => panic!("unexpected: {:?}", other),
    }
    assert_eq!(core.sessions.count_user_sessions("acme::user:dev"), 1);
    // Another user is not affected.
    let (tx, _rx) = mpsc::channel::<WireMessage>(1);
    assert!(matches!(
        admit_session(&mut core, &rt, 0, "acme", "user:other", "s1", tx, "t", 0),
        Admission::Admitted { .. }
    ));
}

#[test]
fn registry_refusal_surfaces() {
    let mut core = RealtimeCore::new();
    let rt = runtime(&policy(&[], &[]));
    let _a = connect(&mut core, &rt, "u1", "s1");
    let (tx, _rx) = mpsc::channel::<WireMessage>(1);
    match admit_session(&mut core, &rt, 1, "acme", "u2", "s1", tx.clone(), "t", 0) {
        Admission::Refused { error: WsPrismError::ResourceExhausted(m), kicked } => {
            assert_eq!(m, "tenant session limit reached");
            assert!(kicked.is_none());
        }
        other => panic!("unexpected: {:?}", other),
    }
    match admit_session(&mut core, &rt, 0, "acme", "u1", "s1", tx, "t", 0) {
        Admission::Refused { error: WsPrismError::BadRequest(m), .. } => {
            assert_eq!(m, "session already registered");
        }
        other => panic!("unexpected: {:?}", other),
    }
}

#[test]
fn cleanup_happens_once_and_leaves_nothing() {
    let mut core = RealtimeCore::new();
    let mut rt = runtime(&policy(&["room:*"], &[]));
    let mut c = connect(&mut core, &rt, "user:dev", "s1");
    for room in ["a", "b"] {
        let frame = format!(r#"{{"v":1,"svc":"room","type":"join","room":"{}"}}"#, room);
        on_frame(&mut c.conn, &mut rt, &mut core, no_limits(), text(&frame), 1);
    }
    assert_eq!(core.presence.room_count("acme"), 2);
    c.conn.close();
    let released = cleanup(&mut c.conn, &mut core);
    assert!(released.queue.is_some());
    assert_eq!(c.conn.active_room, None);
    let mut rooms = released.rooms.clone();
    rooms.sort();
    assert_eq!(rooms, vec!["acme::a".to_string(), "acme::b".to_string()]);
    assert_eq!(c.conn.phase, Phase::Gone);
    assert!(core.sessions.all_sessions().is_empty());
    assert!(core.presence.sessions_in("acme::a").is_empty());
    assert_eq!(core.presence.room_count("acme"), 0);
    assert_eq!(core.sessions.count_tenant_sessions("acme"), 0);

    let again = cleanup(&mut c.conn, &mut core);
    assert!(again.queue.is_none());
    assert!(again.rooms.is_empty());
    // A gone connection stays gone.
    c.conn.close();
    assert_eq!(c.conn.phase, Phase::Gone);
}

#[test]
fn upgrade_decisions() {
    let proceed = upgrade_decision(false, Ok(()), true, 3, 10);
    assert!(matches!(proceed, UpgradeDecision::Proceed));
    assert!(matches!(upgrade_decision(false, Ok(()), true, u64::MAX, 0), UpgradeDecision::Proceed));

    match upgrade_decision(true, Err(9), false, 99, 1) {
        UpgradeDecision::Refuse { status, body, retry_after } => {
            assert_eq!((status, body, retry_after), (503, "draining", None));
        }
        other => panic!("unexpected: {:?}", other),
    }
    match upgrade_decision(false, Err(0), false, 99, 1) {
        UpgradeDecision::Refuse { status, retry_after, .. } => {
            assert_eq!((status, retry_after), (429, Some(1)));
        }
        other => panic!("unexpected: {:?}", other),
    }
    match upgrade_decision(false, Err(7), true, 0, 0) {
        UpgradeDecision::Refuse { status, retry_after, .. } => {
            assert_eq!((status, retry_after), (429, Some(7)));
        }
        other => panic!("unexpected: {:?}", other),
    }
    match upgrade_decision(false, Ok(()), false, 99, 1) {
        UpgradeDecision::Refuse { status, body, retry_after } => {
            assert_eq!((status, body, retry_after), (400, "unknown tenant", None));
        }
        other => panic!("unexpected: {:?}", other),
    }
    match upgrade_decision(false, Ok(()), true, 10, 10) {
        UpgradeDecision::Refuse { status, retry_after, .. } => {
            assert_eq!((status, retry_after), (503, Some(1)));
        }
        other => panic!("unexpected: {:?}", other),
    }
}

#[test]
fn retry_after_header() {
    assert_eq!(retry_after_header_secs(0), ("1".to_string(), 1));
    assert_eq!(retry_after_header_secs(1), ("1".to_string(), 1));
    assert_eq!(retry_after_header_secs(42), ("42".to_string(), 42));
    assert_eq!(retry_after_header_secs(u64::MAX), ("18446744073709551615".to_string(), u64::MAX));
}

#[test]
fn ticket_stub() {
    assert_eq!(resolve_ticket("dev").unwrap(), "user:dev");
    assert!(matches!(resolve_ticket("prod"), Err(WsPrismError::AuthFailed)));
    assert!(matches!(resolve_ticket(""), Err(WsPrismError::AuthFailed)));
    assert!(matches!(resolve_ticket("dev "), Err(WsPrismError::AuthFailed)));
}
