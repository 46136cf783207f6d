use dbcore::config::ConnectionConfig;
use dbcore::pool::ConnectionStatus;
use dbcore::pool::EnsureAction;
use dbcore::pool::GetConnectionAction;
use dbcore::pool::OpRetry;
use dbcore::pool::PoolManager;

fn test_config(db_type: &str) -> ConnectionConfig {
    ConnectionConfig {
        db_type: db_type.to_string(),
        host: Some("localhost".to_string()),
        port: Some(5432),
        database: Some("db".to_string()),
        username: Some("u".to_string()),
        password: Some("p".to_string()),
        ssl: Some(false),
        file_path: None,
        ssh_enabled: false,
        ssh_host: None,
        ssh_port: None,
        ssh_user: None,
        ssh_password: None,
        ssh_key_path: None,
    }
}

#[test]
fn fresh_pool_has_no_entries() {
    let pm = PoolManager::new();
    assert_eq!(pm.get_cached("a"), None);
    assert!(matches!(pm.get_status("a"), ConnectionStatus::Disconnected));
    assert_eq!(pm.get_last_error("a"), None);
}

#[test]
fn successful_connect_caches_driver() {
    let mut pm = PoolManager::new();
    let token = pm
        .finish_connect("id1", test_config("postgres"), true, "Connection successful!".to_string(), 0)
        .unwrap();
    assert_eq!(pm.get_cached("id1"), Some(token));
    assert!(matches!(pm.get_status("id1"), ConnectionStatus::Connected));
    assert_eq!(pm.get_last_error("id1"), None);
    assert!(matches!(
        pm.get_connection_plan("id1"),
        GetConnectionAction::UseCached(_)
    ));
}

#[test]
fn failed_connect_records_error_and_still_caches() {
    let mut pm = PoolManager::new();
    let err = pm
        .finish_connect("id1", test_config("postgres"), false, "Connection failed: boom".to_string(), 0)
        .unwrap_err();
    assert_eq!(err, "Connection failed: boom");
    assert!(matches!(pm.get_status("id1"), ConnectionStatus::Disconnected));
    assert_eq!(pm.get_last_error("id1"), Some("Connection failed: boom".to_string()));
    // the entry exists, so a concurrent ensure_connection caller skips
    assert!(matches!(
        pm.ensure_connection_plan("id1"),
        EnsureAction::AlreadyCached
    ));
    // but the fast path of get_connection does not hand out a broken driver
    assert!(matches!(
        pm.get_connection_plan("id1"),
        GetConnectionAction::NeedConnect
    ));
}

#[test]
fn concurrent_ensure_makes_exactly_one_connect() {
    // N serialized callers racing on one never-before-seen identifier:
    // each one checks under the lock and connects only when nothing is
    // cached. Count the connects with a stub counter.
    let mut pm = PoolManager::new();
    let mut connect_calls = 0;
    for _ in 0..8 {
        match pm.ensure_connection_plan("fresh-id") {
            EnsureAction::NeedConnect => {
                connect_calls += 1;
                let _ = pm.finish_connect(
                    "fresh-id",
                    test_config("postgres"),
                    true,
                    "Connection successful!".to_string(),
                    0,
                );
            }
            EnsureAction::AlreadyCached => {}
        }
    }
    assert_eq!(connect_calls, 1);
}

#[test]
fn disconnect_removes_entry() {
    let mut pm = PoolManager::new();
    let token = pm
        .finish_connect("id1", test_config("postgres"), true, "ok".to_string(), 0)
        .unwrap();
    assert_eq!(pm.disconnect("id1"), Some(token));
    assert_eq!(pm.get_cached("id1"), None);
    assert_eq!(pm.disconnect("id1"), None);
}

#[test]
fn entries_are_independent() {
    let mut pm = PoolManager::new();
    let t1 = pm
        .finish_connect("a", test_config("postgres"), true, "ok".to_string(), 0)
        .unwrap();
    let t2 = pm
        .finish_connect("b", test_config("redis"), true, "ok".to_string(), 0)
        .unwrap();
    assert_ne!(t1, t2);
    pm.disconnect("a");
    assert_eq!(pm.get_cached("b"), Some(t2));
}

#[test]
fn reconnect_replaces_entry() {
    let mut pm = PoolManager::new();
    let t1 = pm
        .finish_connect("a", test_config("postgres"), true, "ok".to_string(), 0)
        .unwrap();
    pm.begin_connect("a");
    assert!(matches!(pm.get_status("a"), ConnectionStatus::Reconnecting));
    let t2 = pm
        .finish_connect("a", test_config("postgres"), true, "ok".to_string(), 1)
        .unwrap();
    assert_ne!(t1, t2);
    assert_eq!(pm.get_cached("a"), Some(t2));
}

#[test]
fn mark_disconnected_keeps_entry() {
    let mut pm = PoolManager::new();
    let token = pm
        .finish_connect("a", test_config("postgres"), true, "ok".to_string(), 0)
        .unwrap();
    pm.mark_disconnected("a", Some("gone".to_string()));
    assert!(matches!(pm.get_status("a"), ConnectionStatus::Disconnected));
    assert_eq!(pm.get_last_error("a"), Some("gone".to_string()));
    assert_eq!(pm.get_cached("a"), Some(token));
}

#[test]
fn health_check_updates_in_place() {
    let mut pm = PoolManager::new();
    let token = pm
        .finish_connect("a", test_config("postgres"), true, "ok".to_string(), 0)
        .unwrap();
    assert_eq!(pm.health_check_plan("a"), Some(token));
    pm.health_check_apply("a", false, "Connection failed: probe");
    assert!(matches!(pm.get_status("a"), ConnectionStatus::Disconnected));
    assert_eq!(pm.get_cached("a"), Some(token), "the driver is not recreated");
    pm.health_check_apply("a", true, "");
    assert!(matches!(pm.get_status("a"), ConnectionStatus::Connected));
    assert_eq!(pm.get_last_error("a"), None);
    assert_eq!(pm.health_check_plan("missing"), None);
}

#[test]
fn retry_succeeds_after_one_transport_reset() {
    // One simulated transport-reset error: the retry is granted, the
    // second attempt succeeds.
    let outcomes = [false, true];
    let mut retry = OpRetry::new();
    let mut attempts = 0;
    let mut result = false;
    for ok in outcomes {
        attempts += 1;
        if ok {
            result = true;
            break;
        }
        if !retry.on_failure() {
            break;
        }
    }
    assert!(result);
    assert_eq!(attempts, 2);
}

#[test]
fn second_consecutive_failure_is_final() {
    // Two consecutive transport errors: the second is surfaced and no
    // third attempt is made.
    let outcomes = [false, false, true];
    let mut retry = OpRetry::new();
    let mut attempts = 0;
    let mut result = false;
    for ok in outcomes {
        attempts += 1;
        if ok {
            result = true;
            break;
        }
        if !retry.on_failure() {
            break;
        }
    }
    assert!(!result, "the second failure is surfaced unmodified");
    assert_eq!(attempts, 2, "no third attempt occurs");
}
