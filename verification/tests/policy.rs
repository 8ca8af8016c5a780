use wsprism::config::schema::{
    HotErrorMode, OnExceed, RateLimitScope, SessionMode, SessionPolicy, TenantPolicy,
};
use wsprism::error::{ClientCode, WsPrismError};
use wsprism::policy::allowlist::{
    compile_ext_rule, compile_ext_rules, compile_hot_rule, compile_hot_rules, is_ext_allowed,
    is_hot_allowed, ExtRule, HotRule,
};
use wsprism::policy::bucket::TokenBucket;
use wsprism::policy::engine::{PolicyDecision, RateLimiter, TenantPolicyRuntime};

fn strings(v: &[&str]) -> Vec<String> {
    v.iter().map(|s| s.to_string()).collect()
}

fn policy(ext: &[&str], hot: &[&str], rps: u32, burst: u32) -> TenantPolicy {
    TenantPolicy {
        rate_limit_rps: rps,
        rate_limit_burst: burst,
        rate_limit_scope: RateLimitScope::Tenant,
        ext_allowlist: strings(ext),
        hot_allowlist: strings(hot),
        sessions: SessionPolicy {
            mode: SessionMode::Multi,
            max_sessions_per_user: 4,
            on_exceed: OnExceed::Deny,
        },
        hot_error_mode: HotErrorMode::SysError,
        hot_requires_active_room: true,
    }
}

fn runtime(ext: &[&str], hot: &[&str], rps: u32, burst: u32) -> TenantPolicyRuntime {
    TenantPolicyRuntime::new("acme".to_string(), 64, &policy(ext, hot, rps, burst), 0).unwrap()
}

fn bad_request(r: Result<impl std::fmt::Debug, WsPrismError>) -> String {
    match r {
        Err(WsPrismError::BadRequest(m)) => m,
        other => panic!("unexpected: {:?}", other),
    }
}

#[test]
fn ext_entries_compile() {
    let rules = compile_ext_rules(&strings(&["room:join", "chat:*", "a:b:c", ":", "x:"])).unwrap();
    assert_eq!(rules.len(), 5);
    assert_eq!(rules[0].svc, "room");
    assert_eq!(rules[0].msg_type.as_deref(), Some("join"));
    assert_eq!(rules[1].svc, "chat");
    assert_eq!(rules[1].msg_type, None);
    // Only the first colon separates.
    assert_eq!(rules[2].svc, "a");
    assert_eq!(rules[2].msg_type.as_deref(), Some("b:c"));
    assert_eq!(rules[3].svc, "");
    assert_eq!(rules[3].msg_type.as_deref(), Some(""));
    assert_eq!(rules[4].msg_type.as_deref(), Some(""));
}

#[test]
fn ext_entry_without_separator_is_refused() {
    assert_eq!(
        bad_request(compile_ext_rule("chat")),
        "invalid ext_allowlist entry: chat (expected svc:type)"
    );
    // The first malformed entry decides.
    assert_eq!(
        bad_request(compile_ext_rules(&strings(&["a:b", "bad1", "bad2"]))),
        "invalid ext_allowlist entry: bad1 (expected svc:type)"
    );
}

#[test]
fn hot_entries_compile() {
    let rules = compile_hot_rules(&strings(&["1:*", "1:42", "255:0", "+7:007"])).unwrap();
    assert_eq!(rules[0], HotRule { svc_id: 1, opcode: None });
    assert_eq!(rules[1], HotRule { svc_id: 1, opcode: Some(42) });
    assert_eq!(rules[2], HotRule { svc_id: 255, opcode: Some(0) });
    assert_eq!(rules[3], HotRule { svc_id: 7, opcode: Some(7) });
}

#[test]
fn hot_entry_errors() {
    assert_eq!(
        bad_request(compile_hot_rule("12")),
        "invalid hot_allowlist entry: 12 (expected svc_id:opcode)"
    );
    assert_eq!(bad_request(compile_hot_rule("x:1")), "invalid hot_allowlist svc_id: x");
    assert_eq!(bad_request(compile_hot_rule("256:1")), "invalid hot_allowlist svc_id: 256");
    assert_eq!(bad_request(compile_hot_rule(":1")), "invalid hot_allowlist svc_id: ");
    assert_eq!(bad_request(compile_hot_rule("-1:1")), "invalid hot_allowlist svc_id: -1");
    assert_eq!(bad_request(compile_hot_rule("1:")), "invalid hot_allowlist opcode: ");
    assert_eq!(bad_request(compile_hot_rule("1:**")), "invalid hot_allowlist opcode: **");
    assert_eq!(bad_request(compile_hot_rule("1: 2")), "invalid hot_allowlist opcode:  2");
    assert_eq!(bad_request(compile_hot_rule("1:1:1")), "invalid hot_allowlist opcode: 1:1");
    // The service id is looked at before the opcode.
    assert_eq!(bad_request(compile_hot_rule("x:y")), "invalid hot_allowlist svc_id: x");
}

#[test]
fn hot_entries_agree_with_the_standard_parser() {
    for text in ["0", "7", "255", "256", "+0", "+255", "+", "", "00255", "0x1", "1_0", " 1", "٣"] {
        let entry = format!("{}:*", text);
        let ours = compile_hot_rule(&entry).ok().map(|r| r.svc_id);
        assert_eq!(ours, text.parse::<u8>().ok(), "text={:?}", text);
    }
}

#[test]
fn ext_matching() {
    let rules = vec![
        ExtRule { svc: "room".to_string(), msg_type: Some("join".to_string()) },
        ExtRule { svc: "chat".to_string(), msg_type: None },
    ];
    assert!(is_ext_allowed(&rules, "room", "join"));
    assert!(!is_ext_allowed(&rules, "room", "leave"));
    assert!(is_ext_allowed(&rules, "chat", "send"));
    assert!(is_ext_allowed(&rules, "chat", ""));
    assert!(!is_ext_allowed(&rules, "Chat", "send"));
    assert!(!is_ext_allowed(&[], "chat", "send"));
}

#[test]
fn hot_matching() {
    let rules =
        vec![HotRule { svc_id: 1, opcode: None }, HotRule { svc_id: 2, opcode: Some(9) }];
    assert!(is_hot_allowed(&rules, 1, 0));
    assert!(is_hot_allowed(&rules, 1, 255));
    assert!(is_hot_allowed(&rules, 2, 9));
    assert!(!is_hot_allowed(&rules, 2, 8));
    assert!(!is_hot_allowed(&rules, 3, 9));
    assert!(!is_hot_allowed(&[], 1, 1));
}

#[test]
fn bucket_starts_full_and_drains() {
    let mut b = TokenBucket::new(10, 3, 1_000);
    assert_eq!(b.capacity(), 3);
    assert_eq!(b.tokens(), 3);
    assert!(b.allow(1_000));
    assert!(b.allow(1_000));
    assert!(b.allow(1_000));
    assert!(!b.allow(1_000));
    assert_eq!(b.tokens(), 0);
}

#[test]
fn bucket_zero_rate_and_burst_are_raised_to_one() {
    let mut b = TokenBucket::new(0, 0, 0);
    assert_eq!(b.capacity(), 1);
    assert!(b.allow(0));
    assert!(!b.allow(999));
    // One token per second.
    assert!(b.allow(1_000));
}

#[test]
fn bucket_refill_formula() {
    // add = elapsed_ms * rps / 1000, clamped to the capacity.
    let mut b = TokenBucket::new(200, 400, 0);
    for _ in 0..400 {
        assert!(b.allow(0));
    }
    assert_eq!(b.tokens(), 0);
    // Below the granularity of 50 ms nothing is added.
    b.refill(49);
    assert_eq!(b.tokens(), 0);
    // 50 ms * 200 / 1000 = 10 tokens.
    b.refill(50);
    assert_eq!(b.tokens(), 10);
    // 125 ms later: 125 * 200 / 1000 = 25 more.
    b.refill(175);
    assert_eq!(b.tokens(), 35);
    // A long pause fills the bucket, never beyond its capacity.
    b.refill(u64::MAX);
    assert_eq!(b.tokens(), 400);
}

#[test]
fn bucket_keeps_fractions_until_a_token_is_earned() {
    // 3 per second: 100 ms earn 0.3 tokens, so the clock is not advanced.
    let mut b = TokenBucket::new(3, 5, 0);
    for _ in 0..5 {
        assert!(b.allow(0));
    }
    b.refill(100);
    assert_eq!(b.tokens(), 0);
    b.refill(300);
    assert_eq!(b.tokens(), 0);
    // 334 ms since the last refill that counted: 334 * 3 / 1000 = 1.
    b.refill(334);
    assert_eq!(b.tokens(), 1);
}

#[test]
fn bucket_ignores_a_clock_that_runs_backwards() {
    let mut b = TokenBucket::new(1000, 2, 5_000);
    assert!(b.allow(5_000));
    assert!(b.allow(4_000));
    assert!(!b.allow(0));
    assert_eq!(b.tokens(), 0);
}

#[test]
fn rate_limiter_follows_its_bucket() {
    let mut l = RateLimiter::new(1, 2, 0);
    assert_eq!(l.tokens(), 2);
    assert!(l.allow(0));
    assert!(l.allow(0));
    assert!(!l.allow(0));
    assert!(l.allow(1_000));
}

#[test]
fn runtime_refuses_malformed_allowlists() {
    let r = TenantPolicyRuntime::new("t".to_string(), 1, &policy(&["nocolon"], &[], 1, 1), 0);
    match r {
        Err(e) => assert_eq!(e.client_code(), ClientCode::BadRequest),
        Ok(_) => panic!("must fail"),
    }
    assert!(TenantPolicyRuntime::new("t".to_string(), 1, &policy(&[], &["1:x"], 1, 1), 0).is_err());
    // Ext entries are compiled first.
    match TenantPolicyRuntime::new("t".to_string(), 1, &policy(&["bad"], &["bad"], 1, 1), 0) {
        Err(WsPrismError::BadRequest(m)) => assert!(m.starts_with("invalid ext_allowlist entry")),
        _ => panic!("must fail"),
    }
}

fn decision(d: PolicyDecision) -> (String, Option<ClientCode>, String) {
    match d {
        PolicyDecision::Pass => ("pass".to_string(), None, String::new()),
        PolicyDecision::Drop => ("drop".to_string(), None, String::new()),
        PolicyDecision::Reject { code, msg } => ("reject".to_string(), Some(code), msg.to_string()),
        PolicyDecision::Close { code, msg } => ("close".to_string(), Some(code), msg.to_string()),
    }
}

#[test]
fn check_len_closes_on_oversize() {
    let rt = runtime(&["chat:*"], &[], 10, 10);
    assert_eq!(decision(rt.check_len(64)).0, "pass");
    assert_eq!(
        decision(rt.check_len(65)),
        ("close".to_string(), Some(ClientCode::BadRequest), "frame too large".to_string())
    );
}

#[test]
fn strict_deny_on_an_empty_ext_allowlist() {
    let mut rt = runtime(&[], &[], 10, 10);
    assert_eq!(
        decision(rt.check_text(0, 10, "chat", "send")),
        (
            "reject".to_string(),
            Some(ClientCode::BadRequest),
            "ext_allowlist empty (strict deny)".to_string()
        )
    );
}

#[test]
fn ext_frames_outside_the_allowlist_are_rejected() {
    let mut rt = runtime(&["room:join", "chat:*"], &[], 10, 10);
    assert_eq!(decision(rt.check_text(0, 10, "room", "join")).0, "pass");
    assert_eq!(decision(rt.check_text(0, 10, "chat", "anything")).0, "pass");
    assert_eq!(
        decision(rt.check_text(0, 10, "room", "leave")),
        ("reject".to_string(), Some(ClientCode::NotAllowed), "svc/type not allowed".to_string())
    );
}

#[test]
fn hot_frames_outside_the_allowlist_are_dropped() {
    let mut rt = runtime(&[], &["1:*"], 10, 10);
    assert_eq!(decision(rt.check_hot(0, 10, 1, 0x2A)).0, "pass");
    assert_eq!(decision(rt.check_hot(0, 10, 2, 0x2A)).0, "drop");
    let mut none = runtime(&[], &[], 10, 10);
    assert_eq!(decision(none.check_hot(0, 10, 1, 1)).0, "drop");
}

#[test]
fn length_is_checked_before_rate() {
    let mut rt = runtime(&["chat:*"], &["1:*"], 1, 1);
    // Oversized frames are closed and cost no token.
    assert_eq!(decision(rt.check_text(0, 1_000, "chat", "send")).0, "close");
    assert_eq!(decision(rt.check_hot(0, 1_000, 1, 1)).0, "close");
    // The single token is still there.
    assert_eq!(decision(rt.check_text(0, 10, "chat", "send")).0, "pass");
    // Now the bucket is empty: even an oversized frame is closed, not dropped.
    assert_eq!(decision(rt.check_text(0, 10, "chat", "send")).0, "drop");
    assert_eq!(decision(rt.check_text(0, 1_000, "chat", "send")).0, "close");
}

#[test]
fn rate_is_checked_before_the_allowlist() {
    let mut rt = runtime(&["chat:*"], &["1:*"], 1, 2);
    // A frame that the allowlist rejects still costs a token.
    assert_eq!(decision(rt.check_text(0, 10, "nope", "x")).0, "reject");
    assert_eq!(decision(rt.check_hot(0, 10, 9, 9)).0, "drop");
    // With the bucket empty, the same frame is dropped instead of rejected.
    assert_eq!(decision(rt.check_text(0, 10, "nope", "x")).0, "drop");
    assert_eq!(decision(rt.check_text(0, 10, "chat", "send")).0, "drop");
    // After a second a token is back.
    assert_eq!(decision(rt.check_text(1_000, 10, "chat", "send")).0, "pass");
}

#[test]
fn connection_scope_leaves_the_tenant_bucket_alone() {
    let mut p = policy(&["chat:*"], &[], 1, 1);
    p.rate_limit_scope = RateLimitScope::Connection;
    let mut rt = TenantPolicyRuntime::new("t".to_string(), 64, &p, 0).unwrap();
    for _ in 0..10 {
        assert_eq!(decision(rt.check_text(0, 10, "chat", "send")).0, "pass");
    }
    let mut b = rt.connection_bucket(0).expect("per-connection bucket");
    assert_eq!(b.capacity(), 1);
    assert!(b.allow(0));
    assert!(!b.allow(0));

    let tenant_only = runtime(&["chat:*"], &[], 1, 1);
    assert!(tenant_only.connection_bucket(0).is_none());
}

#[test]
fn runtime_getters() {
    let rt = runtime(&[], &[], 1, 1);
    assert_eq!(rt.tenant_id, "acme");
    assert_eq!(rt.max_frame_bytes(), 64);
    assert_eq!(rt.sessions().max_sessions_per_user, 4);
    assert_eq!(rt.hot_error_mode(), HotErrorMode::SysError);
    assert!(rt.hot_requires_active_room());
}
