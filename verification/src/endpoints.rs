//! Per-service endpoint connections and the immutable set that groups them.
//!
//! An [`EndpointConnections`] value is a pure function of the environment's
//! service tables, the user agent, and the fallback-enable flag: no I/O
//! happens during construction. With fallback disabled each service gets the
//! single direct route; with fallback enabled it gets the direct route
//! followed by one fronted route per fronting hostname. The user agent is
//! injected into every variant uniformly. The set is replaced wholesale, never
//! mutated in place.

use vstd::prelude::*;

use crate::environment::{DomainConfig, DomainConfigView, Env, EnvView};

verus! {

/// How long a single route may be tried before the next one is attempted.
pub const ONE_ROUTE_CONNECTION_TIMEOUT_MILLIS: u64 = 15000;

/// An opaque string tag attached to every outbound connection-parameter
/// variant; immutable after construction.
pub struct UserAgent {
    pub value: String,
}

impl View for UserAgent {
    type V = Seq<char>;

    open spec fn view(&self) -> Seq<char> {
        self.value@
    }
}

impl UserAgent {
    /// Wraps the tag supplied by the host application.
    pub fn new(value: &str) -> (r: UserAgent)
        ensures
            r@ == value@,
    {
        UserAgent { value: String::from_str(value) }
    }
}

/// Mathematical view of a [`ConnectionParams`].
pub struct ConnectionParamsView {
    pub hostname: Seq<char>,
    pub port: u16,
    pub front: Option<Seq<char>>,
    pub user_agent: Seq<char>,
}

/// One connection-parameter variant for a service: the true hostname and
/// port, the fronting hostname presented instead when this is a fronted
/// fallback route, and the user-agent tag sent with the connection.
pub struct ConnectionParams {
    pub hostname: String,
    pub port: u16,
    pub front: Option<String>,
    pub user_agent: String,
}

impl View for ConnectionParams {
    type V = ConnectionParamsView;

    open spec fn view(&self) -> ConnectionParamsView {
        ConnectionParamsView {
            hostname: self.hostname@,
            port: self.port,
            front: match self.front {
                Some(f) => Some(f@),
                None => None,
            },
            user_agent: self.user_agent@,
        }
    }
}

/// The direct (unfronted) variant for a service, before the user agent is
/// injected.
pub open spec fn spec_direct_params(d: DomainConfigView) -> ConnectionParamsView {
    ConnectionParamsView { hostname: d.hostname, port: d.port, front: None, user_agent: Seq::empty() }
}

/// The full ordered variant list for a service: the direct route first, then
/// one fronted route per fronting hostname, in table order.
pub open spec fn spec_params_with_fallback(d: DomainConfigView) -> Seq<ConnectionParamsView> {
    seq![spec_direct_params(d)] + d.fronting_hostnames.map_values(
        |front: Seq<char>| ConnectionParamsView {
            hostname: d.hostname,
            port: d.port,
            front: Some(front),
            user_agent: Seq::empty(),
        },
    )
}

/// `p` with its user-agent tag replaced by `user_agent`.
pub open spec fn spec_with_user_agent(p: ConnectionParamsView, user_agent: Seq<char>) -> ConnectionParamsView {
    ConnectionParamsView { user_agent, ..p }
}

/// Every variant of `params` with the user-agent tag set to `user_agent`.
pub open spec fn spec_add_user_agent(
    params: Seq<ConnectionParamsView>,
    user_agent: Seq<char>,
) -> Seq<ConnectionParamsView> {
    params.map_values(|p: ConnectionParamsView| spec_with_user_agent(p, user_agent))
}

impl DomainConfig {
    /// The single direct variant for this service.
    pub fn direct_connection_params(&self) -> (r: ConnectionParams)
        ensures
            r@ == spec_direct_params(self@),
    {
        ConnectionParams {
            hostname: self.hostname.clone(),
            port: self.port,
            front: None,
            user_agent: String::new(),
        }
    }

    /// The direct variant followed by one fronted variant per fronting
    /// hostname, in table order.
    pub fn connection_params_with_fallback(&self) -> (r: Vec<ConnectionParams>)
        ensures
            r@.map_values(|p: ConnectionParams| p@) == spec_params_with_fallback(self@),
    {
        let ghost all = spec_params_with_fallback(self@);
        let mut out: Vec<ConnectionParams> = Vec::new();
        out.push(self.direct_connection_params());
        let mut i: usize = 0;
        while i < self.fronting_hostnames.len()
            invariant
                i <= self.fronting_hostnames.len(),
                out@.len() == 1 + i,
                all.len() == 1 + self@.fronting_hostnames.len(),
                all == spec_params_with_fallback(self@),
                forall|j: int| 0 <= j < out@.len() ==> #[trigger] out@[j]@ == all[j],
            decreases self.fronting_hostnames.len() - i,
        {
            out.push(ConnectionParams {
                hostname: self.hostname.clone(),
                port: self.port,
                front: Some(self.fronting_hostnames[i].clone()),
                user_agent: String::new(),
            });
            i = i + 1;
        }
        proof {
            assert(out@.map_values(|p: ConnectionParams| p@) =~= all);
        }
        out
    }
}

/// Sets the user-agent tag on every variant, uniformly.
pub fn add_user_agent_header(params: Vec<ConnectionParams>, user_agent: &UserAgent) -> (r: Vec<ConnectionParams>)
    ensures
        r@.map_values(|p: ConnectionParams| p@)
            == spec_add_user_agent(params@.map_values(|p: ConnectionParams| p@), user_agent@),
{
    let ghost before = params@.map_values(|p: ConnectionParams| p@);
    let mut out: Vec<ConnectionParams> = Vec::new();
    let mut i: usize = 0;
    while i < params.len()
        invariant
            i <= params.len(),
            out@.len() == i,
            before == params@.map_values(|p: ConnectionParams| p@),
            forall|j: int| 0 <= j < i ==> #[trigger] out@[j]@
                == spec_with_user_agent(before[j], user_agent@),
        decreases params.len() - i,
    {
        let p = &params[i];
        let front = match &p.front {
            Some(f) => Some(f.clone()),
            None => None,
        };
        out.push(ConnectionParams {
            hostname: p.hostname.clone(),
            port: p.port,
            front,
            user_agent: user_agent.value.clone(),
        });
        i = i + 1;
    }
    proof {
        assert(out@.map_values(|p: ConnectionParams| p@) =~= spec_add_user_agent(before, user_agent@));
    }
    out
}

/// Whether fronted fallback routes are enabled, and under which fronting
/// policy.
#[derive(Clone, Copy, PartialEq, Eq, Structural, Debug)]
pub enum EnableDomainFronting {
    /// Only direct routes are used.
    No,
    /// Fronted routes are enabled, one fronting domain per proxy.
    OneDomainPerProxy,
}

/// Mathematical view of an [`EndpointConnection`].
pub struct EndpointConnectionView {
    pub params: Seq<ConnectionParamsView>,
    pub one_route_timeout_millis: u64,
}

/// The connection recipe for one backend service: the ordered list of
/// connection-parameter variants and the per-route timeout of the multi-route
/// selection policy. Owned exclusively by the [`EndpointConnections`] that
/// built it.
pub struct EndpointConnection {
    pub params: Vec<ConnectionParams>,
    pub one_route_timeout_millis: u64,
}

impl View for EndpointConnection {
    type V = EndpointConnectionView;

    open spec fn view(&self) -> EndpointConnectionView {
        EndpointConnectionView {
            params: self.params@.map_values(|p: ConnectionParams| p@),
            one_route_timeout_millis: self.one_route_timeout_millis,
        }
    }
}

/// The connection recipe for one service, as a function of its service table,
/// the user agent, and the fallback flag.
pub open spec fn spec_endpoint_connection(
    d: DomainConfigView,
    user_agent: Seq<char>,
    include_fallback: bool,
) -> EndpointConnectionView {
    EndpointConnectionView {
        params: spec_add_user_agent(
            if include_fallback {
                spec_params_with_fallback(d)
            } else {
                seq![spec_direct_params(d)]
            },
            user_agent,
        ),
        one_route_timeout_millis: ONE_ROUTE_CONNECTION_TIMEOUT_MILLIS,
    }
}

/// Mathematical view of an [`EndpointConnections`].
pub struct EndpointConnectionsView {
    pub chat: EndpointConnectionView,
    pub cdsi: EndpointConnectionView,
    pub enable_fronting: EnableDomainFronting,
}

/// The immutable snapshot grouping every per-service connection recipe plus
/// the domain-fronting enablement mode. Replaced wholesale whenever the
/// fallback flag changes; never mutated in place.
pub struct EndpointConnections {
    pub chat: EndpointConnection,
    pub cdsi: EndpointConnection,
    pub enable_fronting: EnableDomainFronting,
}

impl View for EndpointConnections {
    type V = EndpointConnectionsView;

    open spec fn view(&self) -> EndpointConnectionsView {
        EndpointConnectionsView {
            chat: self.chat@,
            cdsi: self.cdsi@,
            enable_fronting: self.enable_fronting,
        }
    }
}

/// The whole endpoint-connection set, as a function of the environment's
/// service tables, the user agent, and the fallback flag.
pub open spec fn spec_endpoint_connections(
    env: EnvView,
    user_agent: Seq<char>,
    use_fallbacks: bool,
) -> EndpointConnectionsView {
    EndpointConnectionsView {
        chat: spec_endpoint_connection(env.chat, user_agent, use_fallbacks),
        cdsi: spec_endpoint_connection(env.cdsi, user_agent, use_fallbacks),
        enable_fronting: if use_fallbacks {
            EnableDomainFronting::OneDomainPerProxy
        } else {
            EnableDomainFronting::No
        },
    }
}

impl EndpointConnections {
    /// Builds the immutable set: for each service, the full variant list when
    /// `use_fallbacks` is set and the single direct variant otherwise, with
    /// the user agent injected into every variant.
    pub fn new(env: &Env, user_agent: &UserAgent, use_fallbacks: bool) -> (r: EndpointConnections)
        ensures
            r@ == spec_endpoint_connections(env@, user_agent@, use_fallbacks),
    {
        let chat = Self::endpoint_connection(&env.chat, user_agent, use_fallbacks);
        let cdsi = Self::endpoint_connection(&env.cdsi, user_agent, use_fallbacks);
        EndpointConnections {
            chat,
            cdsi,
            enable_fronting: if use_fallbacks {
                EnableDomainFronting::OneDomainPerProxy
            } else {
                EnableDomainFronting::No
            },
        }
    }

    /// Builds the connection recipe for one service.
    pub fn endpoint_connection(
        endpoint: &DomainConfig,
        user_agent: &UserAgent,
        include_fallback: bool,
    ) -> (r: EndpointConnection)
        ensures
            r@ == spec_endpoint_connection(endpoint@, user_agent@, include_fallback),
    {
        let params = if include_fallback {
            endpoint.connection_params_with_fallback()
        } else {
            let mut direct: Vec<ConnectionParams> = Vec::new();
            direct.push(endpoint.direct_connection_params());
            proof {
                assert(direct@.map_values(|p: ConnectionParams| p@)
                    =~= seq![spec_direct_params(endpoint@)]);
            }
            direct
        };
        let params = add_user_agent_header(params, user_agent);
        EndpointConnection { params, one_route_timeout_millis: ONE_ROUTE_CONNECTION_TIMEOUT_MILLIS }
    }
}

/// With fallback disabled a service has exactly its one direct route; with
/// fallback enabled it has the direct route plus one route per fronting
/// hostname.
pub proof fn lemma_route_count(d: DomainConfigView, user_agent: Seq<char>)
    ensures
        spec_endpoint_connection(d, user_agent, false).params.len() == 1,
        spec_endpoint_connection(d, user_agent, true).params.len() == 1 + d.fronting_hostnames.len(),
{
}

} // verus!
