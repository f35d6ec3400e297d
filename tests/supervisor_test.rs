use vmonitor::config::{AppConfig, ConnectionConfig, Endpoint};
use vmonitor::supervisor::{plan_sessions, Supervisor};

fn endpoint(name: &str, enabled: bool, connection: Option<ConnectionConfig>) -> Endpoint {
    Endpoint {
        name: name.to_string(),
        server: "wss://test.example.com/ws".to_string(),
        secret: "test-secret".to_string(),
        enabled,
        connection,
    }
}

fn global() -> ConnectionConfig {
    ConnectionConfig { base_delay: 1, max_delay: 5, max_retries: 1 }
}

fn two_enabled_one_disabled() -> AppConfig {
    let own = ConnectionConfig { base_delay: 2, max_delay: 30, max_retries: 3 };
    AppConfig {
        endpoints: vec![
            endpoint("test1", true, None),
            endpoint("disabled", false, None),
            endpoint("test2", true, Some(own)),
        ],
        connection: global(),
    }
}

#[test]
fn starts_one_session_per_enabled_endpoint() {
    let plans = plan_sessions(&two_enabled_one_disabled());
    assert_eq!(plans.len(), 2);
    assert_eq!(plans[0].endpoint.name, "test1");
    assert_eq!(plans[0].policy, global());
    assert_eq!(plans[1].endpoint.name, "test2");
    assert_eq!(plans[1].policy.base_delay, 2);
    assert!(plans.iter().all(|p| p.endpoint.name != "disabled"));
}

#[test]
fn reconcile_with_same_config_restarts_nothing() {
    let mut sup = Supervisor::new(two_enabled_one_disabled());
    assert_eq!(sup.initial_plans().len(), 2);
    assert!(sup.reconcile(two_enabled_one_disabled()).is_none());
    assert!(sup.reconcile(two_enabled_one_disabled()).is_none());
}

#[test]
fn reconcile_with_changed_config_restarts_all() {
    let mut sup = Supervisor::new(two_enabled_one_disabled());
    let mut changed = two_enabled_one_disabled();
    changed.endpoints[1].enabled = true;
    let plans = sup.reconcile(changed.clone()).expect("restart");
    assert_eq!(plans.len(), 3);
    assert!(sup.reconcile(changed).is_none());
    let plans = sup.reconcile(two_enabled_one_disabled()).expect("restart");
    assert_eq!(plans.len(), 2);
}

#[test]
fn no_enabled_endpoint_means_no_session() {
    let config = AppConfig {
        endpoints: vec![endpoint("disabled", false, None)],
        connection: global(),
    };
    assert!(plan_sessions(&config).is_empty());
}
