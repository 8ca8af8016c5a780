use wsprism::config::schema::{
    default_drain_grace_ms, default_ext_allowlist, default_idle_timeout_ms, default_listen,
    default_max_frame_bytes, default_ping_interval_ms, default_rate_limit_burst,
    default_rate_limit_rps, default_writer_send_timeout_ms, GatewayConfig, GatewaySection,
    OnExceed, SessionMode, SessionPolicy, TenantConfig, TenantLimits, TenantPolicy,
};
use wsprism::error::WsPrismError;

fn tenant(id: &str) -> TenantConfig {
    TenantConfig { id: id.to_string(), limits: TenantLimits::default(), policy: TenantPolicy::default() }
}

fn config(ids: &[&str]) -> GatewayConfig {
    GatewayConfig {
        version: 1,
        gateway: GatewaySection::default(),
        tenants: ids.iter().map(|i| tenant(i)).collect(),
    }
}

fn message(r: Result<(), WsPrismError>) -> String {
    match r {
        Err(WsPrismError::BadRequest(m)) => m,
        other => panic!("unexpected: {:?}", other),
    }
}

#[test]
fn defaults() {
    assert_eq!(default_listen(), "0.0.0.0:8080");
    assert_eq!(default_ping_interval_ms(), 20000);
    assert_eq!(default_idle_timeout_ms(), 60000);
    assert_eq!(default_writer_send_timeout_ms(), 1500);
    assert_eq!(default_drain_grace_ms(), 5000);
    assert_eq!(default_max_frame_bytes(), 4096);
    assert_eq!(default_rate_limit_rps(), 200);
    assert_eq!(default_rate_limit_burst(), 400);
    assert_eq!(default_ext_allowlist(), vec!["room:join".to_string(), "room:leave".to_string()]);
    let p = TenantPolicy::default();
    assert_eq!(p.rate_limit_rps, 200);
    assert_eq!(p.rate_limit_burst, 400);
    assert_eq!(p.ext_allowlist, default_ext_allowlist());
    assert!(p.hot_allowlist.is_empty());
    let l = TenantLimits::default();
    assert_eq!(l.max_frame_bytes, 4096);
    assert_eq!(
        (l.max_sessions_total, l.max_users_per_room, l.max_rooms_per_user, l.max_rooms_total),
        (0, 0, 0, 0)
    );
    let g = GatewaySection::default();
    assert_eq!(g.listen, "0.0.0.0:8080");
    assert!(g.validate().is_ok());
}

#[test]
fn minimal_config_is_valid() {
    let cfg = config(&["acme"]);
    assert!(cfg.validate().is_ok());
    assert_eq!(cfg.version, 1);
    assert_eq!(cfg.tenants[0].id, "acme");
}

#[test]
fn version_must_be_one() {
    let mut cfg = config(&["acme"]);
    cfg.version = 2;
    assert!(matches!(cfg.validate(), Err(WsPrismError::UnsupportedVersion)));
    // The version is looked at before anything else.
    cfg.tenants.clear();
    assert!(matches!(cfg.validate(), Err(WsPrismError::UnsupportedVersion)));
}

#[test]
fn tenants_must_not_be_empty() {
    assert_eq!(message(config(&[]).validate()), "tenants must not be empty");
}

#[test]
fn tenant_ids_must_not_be_blank() {
    assert_eq!(message(config(&[""]).validate()), "tenant.id must not be empty");
    assert_eq!(message(config(&["a", " \t\n"]).validate()), "tenant.id must not be empty");
    assert_eq!(message(config(&["\u{3000}\u{a0}"]).validate()), "tenant.id must not be empty");
    assert!(config(&[" a "]).validate().is_ok());
}

#[test]
fn tenant_ids_must_be_unique() {
    assert_eq!(message(config(&["a", "b", "a"]).validate()), "duplicate tenant id: a");
    assert_eq!(message(config(&["x", "x", ""]).validate()), "duplicate tenant id: x");
    assert!(config(&["a", "A", "a "]).validate().is_ok());
}

#[test]
fn single_mode_requires_a_quota_of_one() {
    let mut cfg = config(&["acme"]);
    cfg.tenants[0].policy.sessions =
        SessionPolicy { mode: SessionMode::Single, max_sessions_per_user: 2, on_exceed: OnExceed::Deny };
    assert_eq!(
        message(cfg.validate()),
        "sessions.mode single requires max_sessions_per_user = 1: acme"
    );
    cfg.tenants[0].policy.sessions.max_sessions_per_user = 1;
    assert!(cfg.validate().is_ok());
}

#[test]
fn tenants_are_checked_before_the_gateway_section() {
    let mut cfg = config(&["a", "a"]);
    cfg.gateway.ping_interval_ms = 1;
    assert_eq!(message(cfg.validate()), "duplicate tenant id: a");
}

fn section(ping: u64, idle: u64, writer: u64, drain: u64) -> GatewaySection {
    GatewaySection {
        listen: "127.0.0.1:0".to_string(),
        ping_interval_ms: ping,
        idle_timeout_ms: idle,
        writer_send_timeout_ms: writer,
        drain_grace_ms: drain,
    }
}

#[test]
fn gateway_ranges() {
    assert!(section(5000, 10000, 50, 0).validate().is_ok());
    assert!(section(120000, 600000, 60000, 600000).validate().is_ok());
    assert_eq!(
        message(section(4999, 10000, 50, 0).validate()),
        "gateway.ping_interval_ms must be between 5000 and 120000"
    );
    assert_eq!(
        message(section(120001, 600000, 50, 0).validate()),
        "gateway.ping_interval_ms must be between 5000 and 120000"
    );
    assert_eq!(
        message(section(5000, 9999, 50, 0).validate()),
        "gateway.idle_timeout_ms must be between 10000 and 600000"
    );
    assert_eq!(
        message(section(5000, 600001, 50, 0).validate()),
        "gateway.idle_timeout_ms must be between 10000 and 600000"
    );
    assert_eq!(
        message(section(20000, 20000, 50, 0).validate()),
        "gateway.idle_timeout_ms must be greater than ping_interval_ms"
    );
    assert_eq!(
        message(section(5000, 10000, 49, 0).validate()),
        "gateway.writer_send_timeout_ms must be between 50 and 60000"
    );
    assert_eq!(
        message(section(5000, 10000, 60001, 0).validate()),
        "gateway.writer_send_timeout_ms must be between 50 and 60000"
    );
    assert_eq!(
        message(section(5000, 10000, 50, 600001).validate()),
        "gateway.drain_grace_ms must be at most 600000"
    );
    // The rules are tried in order.
    assert_eq!(
        message(section(1, 1, 1, u64::MAX).validate()),
        "gateway.ping_interval_ms must be between 5000 and 120000"
    );
}

#[test]
fn gateway_fault_surfaces_through_the_whole_config() {
    let mut cfg = config(&["acme"]);
    cfg.gateway.idle_timeout_ms = 5000;
    assert_eq!(
        message(cfg.validate()),
        "gateway.idle_timeout_ms must be between 10000 and 600000"
    );
}
