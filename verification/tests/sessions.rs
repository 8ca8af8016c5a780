use tokio::sync::mpsc;
use wsprism::error::WsPrismError;
use wsprism::realtime::sessions::{Queue, SessionRegistry};
use wsprism::realtime::types::WireMessage;

fn queue() -> (Queue, mpsc::Receiver<WireMessage>) {
    mpsc::channel::<WireMessage>(4)
}

fn sorted(mut v: Vec<String>) -> Vec<String> {
    v.sort();
    v
}

#[test]
fn insert_then_lookup() {
    let mut reg = SessionRegistry::new();
    let (tx, _rx) = queue();
    reg.try_insert("acme", "acme::u", "acme::u::s1", tx, 0).unwrap();
    let row = reg.get_session("acme::u::s1").unwrap();
    assert_eq!(row.user_key, "acme::u");
    assert_eq!(row.tenant_id, "acme");
    assert_eq!(row.created_seq, 1);
    assert_eq!(reg.get_user_sessions("acme::u"), vec!["acme::u::s1".to_string()]);
    assert_eq!(reg.count_user_sessions("acme::u"), 1);
    assert_eq!(reg.count_tenant_sessions("acme"), 1);
    assert_eq!(reg.all_sessions(), vec!["acme::u::s1".to_string()]);
    assert!(reg.get_session("missing").is_none());
}

#[test]
fn stamps_increase_from_one() {
    let mut reg = SessionRegistry::new();
    for (i, key) in ["a", "b", "c"].iter().enumerate() {
        let (tx, _rx) = queue();
        reg.try_insert("t", "u", key, tx, 0).unwrap();
        assert_eq!(reg.get_session(key).unwrap().created_seq, i as u64 + 1);
    }
}

#[test]
fn duplicate_key_is_refused() {
    let mut reg = SessionRegistry::new();
    let (tx, _rx) = queue();
    reg.try_insert("t", "u", "s", tx.clone(), 0).unwrap();
    match reg.try_insert("t", "u", "s", tx, 0) {
        Err(WsPrismError::BadRequest(m)) => assert_eq!(m, "session already registered"),
        other => panic!("unexpected: {:?}", other),
    }
    assert_eq!(reg.count_tenant_sessions("t"), 1);
}

#[test]
fn tenant_cap_refuses_and_leaves_no_trace() {
    let mut reg = SessionRegistry::new();
    let (tx, _rx) = queue();
    reg.try_insert("t", "u", "s1", tx.clone(), 2).unwrap();
    reg.try_insert("t", "u", "s2", tx.clone(), 2).unwrap();
    match reg.try_insert("t", "u", "s3", tx.clone(), 2) {
        Err(WsPrismError::ResourceExhausted(m)) => assert_eq!(m, "tenant session limit reached"),
        other => panic!("unexpected: {:?}", other),
    }
    assert_eq!(reg.count_tenant_sessions("t"), 2);
    assert!(reg.get_session("s3").is_none());
    assert_eq!(reg.count_user_sessions("u"), 2);
    // Another tenant is not affected, and a cap of zero does not cap.
    reg.try_insert("other", "v", "s9", tx.clone(), 2).unwrap();
    reg.try_insert("t", "u", "s3", tx, 0).unwrap();
    assert_eq!(reg.count_tenant_sessions("t"), 3);
}

#[test]
fn remove_hands_out_the_queue_once() {
    let mut reg = SessionRegistry::new();
    let (tx, mut rx) = queue();
    reg.try_insert("t", "u", "s", tx, 0).unwrap();
    let q = reg.remove_session("u", "s").expect("queue");
    q.try_send(WireMessage::Text("hello".to_string())).unwrap();
    match rx.try_recv() {
        Ok(WireMessage::Text(s)) => assert_eq!(s, "hello"),
        other => panic!("unexpected: {:?}", other),
    }
    assert!(reg.remove_session("u", "s").is_none());
    assert!(reg.get_session("s").is_none());
    assert!(reg.get_user_sessions("u").is_empty());
    assert_eq!(reg.count_tenant_sessions("t"), 0);
    assert!(reg.all_sessions().is_empty());
}

#[test]
fn remove_for_another_user_does_nothing() {
    let mut reg = SessionRegistry::new();
    let (tx, _rx) = queue();
    reg.try_insert("t", "u", "s", tx, 0).unwrap();
    assert!(reg.remove_session("intruder", "s").is_none());
    assert!(reg.get_session("s").is_some());
    assert_eq!(reg.count_tenant_sessions("t"), 1);
}

#[test]
fn evict_oldest_picks_the_smallest_stamp() {
    let mut reg = SessionRegistry::new();
    let (tx, _rx) = queue();
    reg.try_insert("t", "u", "first", tx.clone(), 0).unwrap();
    reg.try_insert("t", "other", "between", tx.clone(), 0).unwrap();
    reg.try_insert("t", "u", "second", tx.clone(), 0).unwrap();
    reg.try_insert("t", "u", "third", tx, 0).unwrap();

    let (victim, _q) = reg.evict_oldest("u").unwrap();
    assert_eq!(victim, "first");
    assert_eq!(sorted(reg.get_user_sessions("u")), vec!["second".to_string(), "third".to_string()]);
    let (victim, _q) = reg.evict_oldest("u").unwrap();
    assert_eq!(victim, "second");
    let (victim, _q) = reg.evict_oldest("u").unwrap();
    assert_eq!(victim, "third");
    assert!(reg.evict_oldest("u").is_none());
    assert_eq!(reg.get_user_sessions("other"), vec!["between".to_string()]);
    assert_eq!(reg.count_tenant_sessions("t"), 1);
}

#[test]
fn registry_is_empty_after_every_session_is_removed() {
    let mut reg = SessionRegistry::new();
    let keys = ["a", "b", "c", "d"];
    for (i, k) in keys.iter().enumerate() {
        let (tx, _rx) = queue();
        let user = if i % 2 == 0 { "u1" } else { "u2" };
        reg.try_insert("t", user, k, tx, 0).unwrap();
    }
    assert_eq!(sorted(reg.all_sessions()).len(), 4);
    for (i, k) in keys.iter().enumerate() {
        let user = if i % 2 == 0 { "u1" } else { "u2" };
        assert!(reg.remove_session(user, k).is_some());
    }
    assert!(reg.all_sessions().is_empty());
    assert_eq!(reg.count_tenant_sessions("t"), 0);
    assert_eq!(reg.count_user_sessions("u1"), 0);
}
