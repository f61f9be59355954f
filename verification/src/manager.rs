//! The connection manager: the top-level owner of the endpoint-connection
//! set, the base-transport configuration, the shared route-resolution state,
//! and the debounced network-change signal.
//!
//! Configuration operations never do I/O and never fail: each either succeeds
//! synchronously or records a permanently invalid state that surfaces on the
//! next query or connection attempt. A connection attempt takes a consistent
//! snapshot of the current settings and then proceeds on its own, so
//! reconfiguration never blocks or aborts in-flight attempts.

use vstd::prelude::*;

use crate::endpoints::{spec_endpoint_connections, EndpointConnections, EndpointConnectionsView, UserAgent};
use crate::environment::{spec_env, Env, EnvView, Environment};
use crate::event::ObservableEvent;
use crate::transport::{
    spec_proxy_usage, ConnectionProxyConfig, InvalidProxyConfig, ProxyConfigView, ProxySettingView,
    TransportConnector, TransportConnectorView,
};

verus! {

/// Two network-change signals closer together than this are treated as one:
/// the second is silently dropped.
pub const NETWORK_CHANGE_DEBOUNCE_MILLIS: u64 = 1000;

/// Shared state consulted by every connection attempt while resolving routes:
/// whether IPv6 routes are allowed, and the instant of the last accepted
/// network change (the change-clock that invalidates per-route bookkeeping).
#[derive(Clone, Copy, PartialEq, Eq, Structural)]
pub struct RouteResolutionState {
    pub allow_ipv6: bool,
    pub last_network_change: Option<u64>,
}

/// Mathematical view of a [`ConnectionManager`].
pub struct ConnectionManagerView {
    pub env: EnvView,
    pub user_agent: Seq<char>,
    pub route_state: RouteResolutionState,
    pub endpoints: EndpointConnectionsView,
    pub transport_connector: TransportConnectorView,
    pub most_recent_network_change: u64,
    pub network_change_fires: u64,
}

/// Owns the current endpoint-connection set, the base-transport
/// configuration, the route-resolution state, and the debounce baseline.
///
/// Instants are milliseconds on the caller's monotonic clock; construction
/// sets the debounce baseline to zero.
pub struct ConnectionManager {
    pub env: Env,
    pub user_agent: UserAgent,
    pub route_state: RouteResolutionState,
    pub endpoints: EndpointConnections,
    pub transport_connector: TransportConnector,
    pub most_recent_network_change: u64,
    pub network_change_event: ObservableEvent,
}

impl View for ConnectionManager {
    type V = ConnectionManagerView;

    open spec fn view(&self) -> ConnectionManagerView {
        ConnectionManagerView {
            env: self.env@,
            user_agent: self.user_agent@,
            route_state: self.route_state,
            endpoints: self.endpoints@,
            transport_connector: self.transport_connector@,
            most_recent_network_change: self.most_recent_network_change,
            network_change_fires: self.network_change_event.fire_count,
        }
    }
}

/// The state of a freshly constructed manager: direct transport, IPv6
/// allowed, fallback routes disabled, no network change seen yet.
pub open spec fn spec_new_manager(env: EnvView, user_agent: Seq<char>) -> ConnectionManagerView {
    ConnectionManagerView {
        env,
        user_agent,
        route_state: RouteResolutionState { allow_ipv6: true, last_network_change: None },
        endpoints: spec_endpoint_connections(env, user_agent, false),
        transport_connector: TransportConnectorView {
            proxy: ProxySettingView::Direct,
            ipv6_enabled: true,
        },
        most_recent_network_change: 0,
        network_change_fires: 0,
    }
}

/// `m` with the proxy setting replaced; nothing else moves.
pub open spec fn spec_set_proxy(m: ConnectionManagerView, proxy: ProxyConfigView) -> ConnectionManagerView {
    ConnectionManagerView {
        transport_connector: TransportConnectorView {
            proxy: ProxySettingView::Proxied(proxy),
            ..m.transport_connector
        },
        ..m
    }
}

/// `m` with the invalid-proxy sentinel installed; nothing else moves.
pub open spec fn spec_set_invalid_proxy(m: ConnectionManagerView) -> ConnectionManagerView {
    ConnectionManagerView {
        transport_connector: TransportConnectorView {
            proxy: ProxySettingView::Invalid,
            ..m.transport_connector
        },
        ..m
    }
}

/// `m` with any proxy setting removed; nothing else moves.
pub open spec fn spec_clear_proxy(m: ConnectionManagerView) -> ConnectionManagerView {
    ConnectionManagerView {
        transport_connector: TransportConnectorView {
            proxy: ProxySettingView::Direct,
            ..m.transport_connector
        },
        ..m
    }
}

/// `m` with IPv6 enablement set in both the transport configuration and the
/// route-resolution state; nothing else moves.
pub open spec fn spec_set_ipv6_enabled(m: ConnectionManagerView, ipv6_enabled: bool) -> ConnectionManagerView {
    ConnectionManagerView {
        transport_connector: TransportConnectorView { ipv6_enabled, ..m.transport_connector },
        route_state: RouteResolutionState { allow_ipv6: ipv6_enabled, ..m.route_state },
        ..m
    }
}

/// `m` with the endpoint-connection set rebuilt for the given fallback flag;
/// nothing else moves. In particular this is not a network-change event.
pub open spec fn spec_set_censorship_circumvention_enabled(
    m: ConnectionManagerView,
    enabled: bool,
) -> ConnectionManagerView {
    ConnectionManagerView {
        endpoints: spec_endpoint_connections(m.env, m.user_agent, enabled),
        ..m
    }
}

/// Whether a change signal at `now` is accepted against the baseline `last`:
/// the elapsed time (saturating at zero when the clock runs backwards) must
/// reach the debounce interval.
pub open spec fn spec_network_change_accepted(last: u64, now: u64) -> bool {
    (if now >= last {
        now - last
    } else {
        0
    }) >= NETWORK_CHANGE_DEBOUNCE_MILLIS
}

/// `m` after a network-change signal at `now`: a no-op when debounced;
/// otherwise `now` becomes the new baseline, the signal fires once, and the
/// route-resolution change-clock is advanced.
pub open spec fn spec_on_network_change(m: ConnectionManagerView, now: u64) -> ConnectionManagerView {
    if spec_network_change_accepted(m.most_recent_network_change, now) {
        ConnectionManagerView {
            most_recent_network_change: now,
            network_change_fires: (m.network_change_fires + 1) as u64,
            route_state: RouteResolutionState { last_network_change: Some(now), ..m.route_state },
            ..m
        }
    } else {
        m
    }
}

/// A consistent snapshot of the current settings, handed to one connection
/// attempt. The attempt drives its connector chain from the snapshot alone,
/// so later reconfiguration of the manager cannot affect it.
pub struct ConnectionSnapshot<'a> {
    /// The endpoint-connection set current when the snapshot was taken.
    pub endpoints: &'a EndpointConnections,
    /// The proxy to connect through, or `None` to connect directly.
    pub proxy: Option<&'a ConnectionProxyConfig>,
    /// Whether IPv6 routes may be used.
    pub ipv6_enabled: bool,
}

impl ConnectionManager {
    /// Builds a manager for the chosen environment: direct transport, IPv6
    /// enabled, fallback routes disabled. Never fails.
    pub fn new(environment: Environment, user_agent: &str) -> (r: ConnectionManager)
        ensures
            r@ == spec_new_manager(spec_env(environment), user_agent@),
    {
        Self::new_from_static_environment(environment.env(), user_agent)
    }

    /// Builds a manager from explicit service tables: direct transport, IPv6
    /// enabled, fallback routes disabled. Never fails.
    pub fn new_from_static_environment(env: Env, user_agent: &str) -> (r: ConnectionManager)
        ensures
            r@ == spec_new_manager(env@, user_agent@),
    {
        let network_change_event = ObservableEvent::new();
        let user_agent = UserAgent::new(user_agent);
        let transport_connector = TransportConnector::new_direct();
        let endpoints = EndpointConnections::new(&env, &user_agent, false);
        ConnectionManager {
            env,
            user_agent,
            route_state: RouteResolutionState { allow_ipv6: true, last_network_change: None },
            endpoints,
            transport_connector,
            most_recent_network_change: 0,
            network_change_event,
        }
    }

    /// Atomically replaces the proxy setting with the given configuration.
    pub fn set_proxy(&mut self, proxy: ConnectionProxyConfig)
        ensures
            final(self)@ == spec_set_proxy(old(self)@, proxy@),
    {
        self.transport_connector.set_proxy(proxy);
    }

    /// Installs the invalid-proxy sentinel: every later connection attempt
    /// fails fast with a configuration error, without any transport work.
    pub fn set_invalid_proxy(&mut self)
        ensures
            final(self)@ == spec_set_invalid_proxy(old(self)@),
    {
        self.transport_connector.set_invalid();
    }

    /// Removes any proxy setting, valid or invalid.
    pub fn clear_proxy(&mut self)
        ensures
            final(self)@ == spec_clear_proxy(old(self)@),
    {
        self.transport_connector.clear_proxy();
    }

    /// Whether a proxy is in use: `Ok(true)` under a configured proxy,
    /// `Ok(false)` when direct, and the configuration error when the invalid
    /// sentinel is active, so callers can tell "no proxy" from "broken proxy"
    /// without attempting a connection.
    pub fn is_using_proxy(&self) -> (r: Result<bool, InvalidProxyConfig>)
        ensures
            r == spec_proxy_usage(self@.transport_connector.proxy),
    {
        match self.transport_connector.proxy() {
            Ok(p) => Ok(p.is_some()),
            Err(e) => Err(e),
        }
    }

    /// Sets IPv6 enablement in the transport configuration and the
    /// route-resolution state together: any snapshot taken after this call
    /// sees the new value in both.
    pub fn set_ipv6_enabled(&mut self, ipv6_enabled: bool)
        ensures
            final(self)@ == spec_set_ipv6_enabled(old(self)@, ipv6_enabled),
    {
        self.transport_connector.set_ipv6_enabled(ipv6_enabled);
        self.route_state.allow_ipv6 = ipv6_enabled;
    }

    /// Rebuilds the endpoint-connection set to include or exclude
    /// censorship-circumvention fallback routes and swaps it in wholesale.
    ///
    /// This is not a network-change event: established connections are left
    /// alone; only new connection attempts see the new routes.
    pub fn set_censorship_circumvention_enabled(&mut self, enabled: bool)
        ensures
            final(self)@ == spec_set_censorship_circumvention_enabled(old(self)@, enabled),
    {
        let new_endpoints = EndpointConnections::new(&self.env, &self.user_agent, enabled);
        self.endpoints = new_endpoints;
    }

    /// Signals that the host's network may have changed, debounced: within
    /// the debounce interval of the last accepted signal the call is a no-op;
    /// otherwise `now_millis` becomes the new baseline, every subscriber is
    /// notified exactly once, and the route-resolution change-clock advances.
    pub fn on_network_change(&mut self, now_millis: u64)
        requires
            old(self)@.network_change_fires < u64::MAX,
        ensures
            final(self)@ == spec_on_network_change(old(self)@, now_millis),
    {
        let elapsed = if now_millis >= self.most_recent_network_change {
            now_millis - self.most_recent_network_change
        } else {
            0
        };
        if elapsed < NETWORK_CHANGE_DEBOUNCE_MILLIS {
            return;
        }
        self.most_recent_network_change = now_millis;
        self.network_change_event.fire();
        self.route_state.last_network_change = Some(now_millis);
    }

    /// How many accepted network changes have been signalled to subscribers.
    pub fn network_change_fire_count(&self) -> (r: u64)
        ensures
            r == self@.network_change_fires,
    {
        self.network_change_event.count()
    }

    /// Takes the consistent snapshot a connection attempt works from, or the
    /// configuration error, and that before any transport work, when the
    /// invalid-proxy sentinel is active.
    pub fn connection_snapshot(&self) -> (r: Result<ConnectionSnapshot<'_>, InvalidProxyConfig>)
        ensures
            r is Err <==> self@.transport_connector.proxy == ProxySettingView::Invalid,
            match r {
                Ok(s) => {
                    &&& s.endpoints@ == self@.endpoints
                    &&& s.ipv6_enabled == self@.transport_connector.ipv6_enabled
                    &&& match s.proxy {
                        Some(p) => self@.transport_connector.proxy == ProxySettingView::Proxied(p@),
                        None => self@.transport_connector.proxy == ProxySettingView::Direct,
                    }
                },
                Err(e) => e == InvalidProxyConfig,
            },
    {
        match self.transport_connector.proxy() {
            Ok(proxy) => Ok(ConnectionSnapshot {
                endpoints: &self.endpoints,
                proxy,
                ipv6_enabled: self.transport_connector.ipv6_enabled,
            }),
            Err(e) => Err(e),
        }
    }
}

/// The manager state after processing a whole sequence of network-change
/// signals in order.
pub open spec fn spec_on_network_changes(
    m: ConnectionManagerView,
    times: Seq<u64>,
) -> ConnectionManagerView
    decreases times.len(),
{
    if times.len() == 0 {
        m
    } else {
        spec_on_network_changes(spec_on_network_change(m, times[0]), times.drop_first())
    }
}

/// How many of `times`, taken in order, are accepted against the greedily
/// recomputed baseline: a time is accepted when it is at least the debounce
/// interval past the last accepted one, and then itself becomes the baseline.
pub open spec fn spec_accepted_count(last: u64, times: Seq<u64>) -> nat
    decreases times.len(),
{
    if times.len() == 0 {
        0
    } else if spec_network_change_accepted(last, times[0]) {
        1 + spec_accepted_count(times[0], times.drop_first())
    } else {
        spec_accepted_count(last, times.drop_first())
    }
}

/// For any sequence of network-change signals, the number of subscriber
/// notifications equals the number of times accepted by the greedy debounce:
/// those at least the debounce interval past the last accepted one, each
/// accepted time becoming the new baseline. Signals never touch the rest of
/// the manager's configuration.
pub proof fn lemma_debounced_notification_count(m: ConnectionManagerView, times: Seq<u64>)
    requires
        m.network_change_fires + spec_accepted_count(m.most_recent_network_change, times) <= u64::MAX,
    ensures
        spec_on_network_changes(m, times).network_change_fires
            == m.network_change_fires + spec_accepted_count(m.most_recent_network_change, times),
        spec_on_network_changes(m, times).env == m.env,
        spec_on_network_changes(m, times).user_agent == m.user_agent,
        spec_on_network_changes(m, times).endpoints == m.endpoints,
        spec_on_network_changes(m, times).transport_connector == m.transport_connector,
    decreases times.len(),
{
    if times.len() > 0 {
        lemma_debounced_notification_count(spec_on_network_change(m, times[0]), times.drop_first());
    }
}

/// After the invalid-proxy sentinel is installed, the proxy-usage query
/// returns the configuration error, and by the contract of
/// [`ConnectionManager::connection_snapshot`] every connection attempt gets
/// that error before any transport work.
pub proof fn lemma_invalid_proxy_fails_fast(m: ConnectionManagerView)
    ensures
        spec_set_invalid_proxy(m).transport_connector.proxy == ProxySettingView::Invalid,
        spec_proxy_usage(spec_set_invalid_proxy(m).transport_connector.proxy)
            == Err::<bool, InvalidProxyConfig>(InvalidProxyConfig),
{
}

/// The proxy-usage query reports the last proxy operation exactly: `Ok(true)`
/// after a proxy is set, `Ok(false)` after it is cleared, and the
/// configuration error after the invalid sentinel is installed.
pub proof fn lemma_proxy_usage_queries(m: ConnectionManagerView, proxy: ProxyConfigView)
    ensures
        spec_proxy_usage(spec_set_proxy(m, proxy).transport_connector.proxy)
            == Ok::<bool, InvalidProxyConfig>(true),
        spec_proxy_usage(spec_clear_proxy(m).transport_connector.proxy)
            == Ok::<bool, InvalidProxyConfig>(false),
        spec_proxy_usage(spec_set_invalid_proxy(m).transport_connector.proxy)
            == Err::<bool, InvalidProxyConfig>(InvalidProxyConfig),
{
}

/// Toggling censorship circumvention on and then off, twice in a row, leaves
/// the endpoint-connection set — and with it each service's route count —
/// exactly as it stood before the first toggle, for any manager whose
/// circumvention was off (as it is after construction).
pub proof fn lemma_censorship_toggle_round_trip(m: ConnectionManagerView)
    requires
        m.endpoints == spec_endpoint_connections(m.env, m.user_agent, false),
    ensures
        ({
            let once = spec_set_censorship_circumvention_enabled(
                spec_set_censorship_circumvention_enabled(m, true),
                false,
            );
            let twice = spec_set_censorship_circumvention_enabled(
                spec_set_censorship_circumvention_enabled(once, true),
                false,
            );
            &&& twice.endpoints == m.endpoints
            &&& twice.endpoints.chat.params.len() == m.endpoints.chat.params.len()
            &&& twice.endpoints.cdsi.params.len() == m.endpoints.cdsi.params.len()
        }),
{
}

} // verus!
