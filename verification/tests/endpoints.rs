use connection_manager::endpoints::{
    EnableDomainFronting, EndpointConnections, UserAgent, ONE_ROUTE_CONNECTION_TIMEOUT_MILLIS,
};
use connection_manager::environment::Environment;

#[test]
fn fallback_disabled_yields_one_variant_per_service() {
    let env = Environment::Staging.env();
    let ua = UserAgent::new("test-user-agent");
    let set = EndpointConnections::new(&env, &ua, false);

    assert_eq!(set.chat.params.len(), 1);
    assert_eq!(set.cdsi.params.len(), 1);
    assert_eq!(set.enable_fronting, EnableDomainFronting::No);
    assert!(set.chat.params[0].front.is_none());
    assert!(set.cdsi.params[0].front.is_none());
}

#[test]
fn fallback_enabled_yields_more_variants_for_services_with_fallback_routes() {
    let env = Environment::Staging.env();
    let ua = UserAgent::new("test-user-agent");
    let set = EndpointConnections::new(&env, &ua, true);

    assert!(set.chat.params.len() > 1);
    assert!(set.cdsi.params.len() > 1);
    assert_eq!(set.chat.params.len(), 1 + env.chat.fronting_hostnames.len());
    assert_eq!(set.cdsi.params.len(), 1 + env.cdsi.fronting_hostnames.len());
    assert_eq!(set.enable_fronting, EnableDomainFronting::OneDomainPerProxy);

    // The direct route comes first, then the fronted fallbacks in table order.
    assert!(set.chat.params[0].front.is_none());
    assert_eq!(
        set.chat.params[1].front.as_deref(),
        Some(env.chat.fronting_hostnames[0].as_str())
    );
}

#[test]
fn user_agent_is_injected_into_every_variant() {
    let env = Environment::Prod.env();
    let ua = UserAgent::new("test-user-agent");
    let set = EndpointConnections::new(&env, &ua, true);

    for params in set.chat.params.iter().chain(set.cdsi.params.iter()) {
        assert_eq!(params.user_agent, "test-user-agent");
    }
}

#[test]
fn variants_keep_the_service_hostname_and_port() {
    let env = Environment::Prod.env();
    let ua = UserAgent::new("test-user-agent");
    let set = EndpointConnections::new(&env, &ua, true);

    for params in &set.chat.params {
        assert_eq!(params.hostname, "chat.signal.org");
        assert_eq!(params.port, 443);
    }
    for params in &set.cdsi.params {
        assert_eq!(params.hostname, "cdsi.signal.org");
        assert_eq!(params.port, 443);
    }
    assert_eq!(set.chat.one_route_timeout_millis, ONE_ROUTE_CONNECTION_TIMEOUT_MILLIS);
    assert_eq!(set.cdsi.one_route_timeout_millis, ONE_ROUTE_CONNECTION_TIMEOUT_MILLIS);
}

#[test]
fn fallback_params_list_the_direct_route_first() {
    let env = Environment::Staging.env();

    let direct = env.chat.direct_connection_params();
    assert_eq!(direct.hostname, "chat.staging.signal.org");
    assert_eq!(direct.port, 443);
    assert!(direct.front.is_none());
    assert_eq!(direct.user_agent, "");

    let all = env.chat.connection_params_with_fallback();
    assert_eq!(all.len(), 1 + env.chat.fronting_hostnames.len());
    assert!(all[0].front.is_none());
    for (i, front) in env.chat.fronting_hostnames.iter().enumerate() {
        assert_eq!(all[i + 1].front.as_ref(), Some(front));
        assert_eq!(all[i + 1].hostname, "chat.staging.signal.org");
    }
}

#[test]
fn building_is_a_pure_function_of_its_inputs() {
    let env = Environment::Staging.env();
    let ua = UserAgent::new("test-user-agent");
    let a = EndpointConnections::new(&env, &ua, false);
    let b = EndpointConnections::new(&env, &ua, false);

    assert_eq!(a.chat.params.len(), b.chat.params.len());
    for (p, q) in a.chat.params.iter().zip(b.chat.params.iter()) {
        assert_eq!(p.hostname, q.hostname);
        assert_eq!(p.port, q.port);
        assert_eq!(p.front, q.front);
        assert_eq!(p.user_agent, q.user_agent);
    }
}
