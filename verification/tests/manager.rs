use connection_manager::environment::Environment;
use connection_manager::manager::{ConnectionManager, NETWORK_CHANGE_DEBOUNCE_MILLIS};
use connection_manager::transport::{ConnectionProxyConfig, InvalidProxyConfig};

#[test]
fn can_create_connection_manager() {
    let _ = ConnectionManager::new(Environment::Staging, "test-user-agent");
    let _ = ConnectionManager::new(Environment::Prod, "test-user-agent");
}

#[test]
fn can_create_manager_from_explicit_tables() {
    let env = Environment::Prod.env();
    let cm = ConnectionManager::new_from_static_environment(env, "test-user-agent");
    assert_eq!(cm.is_using_proxy(), Ok(false));
    assert_eq!(cm.endpoints.chat.params[0].hostname, "chat.signal.org");
    assert_eq!(cm.network_change_fire_count(), 0);
}

#[test]
fn network_change_event_debounced() {
    let mut cm = ConnectionManager::new(Environment::Staging, "test-user-agent");

    // The creation of the ConnectionManager sets the initial debounce baseline,
    // so let's say our first event happens well after that.
    let start = NETWORK_CHANGE_DEBOUNCE_MILLIS * 10;
    cm.on_network_change(start);
    assert_eq!(1, cm.network_change_fire_count());

    cm.on_network_change(start);
    assert_eq!(1, cm.network_change_fire_count());

    cm.on_network_change(start + NETWORK_CHANGE_DEBOUNCE_MILLIS / 2);
    assert_eq!(1, cm.network_change_fire_count());

    cm.on_network_change(start + NETWORK_CHANGE_DEBOUNCE_MILLIS);
    assert_eq!(2, cm.network_change_fire_count());

    cm.on_network_change(start);
    assert_eq!(2, cm.network_change_fire_count());

    cm.on_network_change(start + NETWORK_CHANGE_DEBOUNCE_MILLIS * 3 / 2);
    assert_eq!(2, cm.network_change_fire_count());

    cm.on_network_change(start + NETWORK_CHANGE_DEBOUNCE_MILLIS * 4);
    assert_eq!(3, cm.network_change_fire_count());
}

#[test]
fn cannot_connect_through_invalid_proxy() {
    let mut cm = ConnectionManager::new(Environment::Staging, "test-user-agent");
    cm.set_invalid_proxy();
    let err = cm
        .connection_snapshot()
        .map(|_| ())
        .expect_err("should fail to connect");
    assert_eq!(err, InvalidProxyConfig);
}

#[test]
fn proxy_queries_follow_proxy_operations() {
    let mut cm = ConnectionManager::new(Environment::Prod, "test-user-agent");
    assert_eq!(cm.is_using_proxy(), Ok(false));

    cm.set_proxy(ConnectionProxyConfig {
        host: String::from("proxy.example.org"),
        port: 8080,
    });
    assert_eq!(cm.is_using_proxy(), Ok(true));

    cm.clear_proxy();
    assert_eq!(cm.is_using_proxy(), Ok(false));

    cm.set_invalid_proxy();
    assert_eq!(cm.is_using_proxy(), Err(InvalidProxyConfig));

    cm.clear_proxy();
    assert_eq!(cm.is_using_proxy(), Ok(false));
}

#[test]
fn snapshot_reflects_current_settings() {
    let mut cm = ConnectionManager::new(Environment::Staging, "test-user-agent");
    {
        let snap = cm.connection_snapshot().expect("direct transport connects");
        assert!(snap.proxy.is_none());
        assert!(snap.ipv6_enabled);
        assert_eq!(snap.endpoints.chat.params.len(), 1);
        assert_eq!(snap.endpoints.chat.params[0].hostname, "chat.staging.signal.org");
        assert_eq!(snap.endpoints.chat.params[0].user_agent, "test-user-agent");
        assert_eq!(snap.endpoints.cdsi.params[0].hostname, "cdsi.staging.signal.org");
        assert_eq!(snap.endpoints.cdsi.params[0].user_agent, "test-user-agent");
    }

    cm.set_proxy(ConnectionProxyConfig {
        host: String::from("proxy.example.org"),
        port: 4433,
    });
    cm.set_ipv6_enabled(false);
    {
        let snap = cm.connection_snapshot().expect("proxied transport connects");
        let proxy = snap.proxy.expect("a proxy is configured");
        assert_eq!(proxy.host, "proxy.example.org");
        assert_eq!(proxy.port, 4433);
        assert!(!snap.ipv6_enabled);
    }
}

#[test]
fn ipv6_toggle_updates_transport_and_route_state_together() {
    let mut cm = ConnectionManager::new(Environment::Staging, "test-user-agent");
    assert!(cm.transport_connector.ipv6_enabled);
    assert!(cm.route_state.allow_ipv6);

    cm.set_ipv6_enabled(false);
    assert!(!cm.transport_connector.ipv6_enabled);
    assert!(!cm.route_state.allow_ipv6);

    cm.set_ipv6_enabled(true);
    assert!(cm.transport_connector.ipv6_enabled);
    assert!(cm.route_state.allow_ipv6);
}

#[test]
fn censorship_toggle_round_trip_keeps_route_counts() {
    let mut cm = ConnectionManager::new(Environment::Staging, "test-user-agent");
    let chat_before = cm.endpoints.chat.params.len();
    let cdsi_before = cm.endpoints.cdsi.params.len();

    cm.set_censorship_circumvention_enabled(true);
    cm.set_censorship_circumvention_enabled(false);
    cm.set_censorship_circumvention_enabled(true);
    cm.set_censorship_circumvention_enabled(false);

    assert_eq!(cm.endpoints.chat.params.len(), chat_before);
    assert_eq!(cm.endpoints.cdsi.params.len(), cdsi_before);
}

#[test]
fn network_change_leaves_configuration_alone() {
    let mut cm = ConnectionManager::new(Environment::Staging, "test-user-agent");
    cm.set_proxy(ConnectionProxyConfig {
        host: String::from("proxy.example.org"),
        port: 8080,
    });
    let routes_before = cm.endpoints.chat.params.len();

    cm.on_network_change(NETWORK_CHANGE_DEBOUNCE_MILLIS * 10);

    assert_eq!(cm.is_using_proxy(), Ok(true));
    assert_eq!(cm.endpoints.chat.params.len(), routes_before);
    assert_eq!(cm.route_state.last_network_change, Some(NETWORK_CHANGE_DEBOUNCE_MILLIS * 10));
}
