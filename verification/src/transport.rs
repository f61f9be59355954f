//! The base-transport configuration shared by every connection attempt.
//!
//! The proxy setting is a three-way state: direct, proxied through a concrete
//! configuration, or explicitly invalid. The invalid state is a deliberate
//! sentinel: it makes every later connection attempt fail fast with a
//! configuration error before any transport work, so a caller can validate a
//! proxy configuration through the normal connection path.

use vstd::prelude::*;

verus! {

/// Mathematical view of a [`ConnectionProxyConfig`].
pub struct ProxyConfigView {
    pub host: Seq<char>,
    pub port: u16,
}

/// A concrete proxy to route outbound connections through.
pub struct ConnectionProxyConfig {
    pub host: String,
    pub port: u16,
}

impl View for ConnectionProxyConfig {
    type V = ProxyConfigView;

    open spec fn view(&self) -> ProxyConfigView {
        ProxyConfigView { host: self.host@, port: self.port }
    }
}

/// The configuration error: the proxy setting is explicitly invalid.
///
/// Surfaced synchronously by query operations and by the first connection
/// attempt made under an invalid proxy; never retried automatically.
#[derive(Clone, Copy, PartialEq, Eq, Structural, Debug)]
pub struct InvalidProxyConfig;

/// Mathematical view of a [`ProxySetting`].
pub enum ProxySettingView {
    Direct,
    Proxied(ProxyConfigView),
    Invalid,
}

/// The proxy mode of the base transport.
///
/// Every transition between the three states is valid; `Invalid` is sticky
/// only until explicitly cleared or replaced.
pub enum ProxySetting {
    /// Connect directly, with no proxy.
    Direct,
    /// Route every connection through the given proxy.
    Proxied(ConnectionProxyConfig),
    /// Sentinel: every connection attempt fails fast with a configuration
    /// error, without any transport work.
    Invalid,
}

impl View for ProxySetting {
    type V = ProxySettingView;

    open spec fn view(&self) -> ProxySettingView {
        match self {
            ProxySetting::Direct => ProxySettingView::Direct,
            ProxySetting::Proxied(p) => ProxySettingView::Proxied(p@),
            ProxySetting::Invalid => ProxySettingView::Invalid,
        }
    }
}

/// Mathematical view of a [`TransportConnector`].
pub struct TransportConnectorView {
    pub proxy: ProxySettingView,
    pub ipv6_enabled: bool,
}

/// Whether a proxy is in use, given the current proxy setting: `Ok(true)` when
/// a proxy is configured, `Ok(false)` when direct, and the configuration error
/// when the setting is the invalid sentinel.
pub open spec fn spec_proxy_usage(proxy: ProxySettingView) -> Result<bool, InvalidProxyConfig> {
    match proxy {
        ProxySettingView::Direct => Ok(false),
        ProxySettingView::Proxied(_) => Ok(true),
        ProxySettingView::Invalid => Err(InvalidProxyConfig),
    }
}

/// Mutable configuration of the base transport: the proxy setting and whether
/// IPv6 routes may be used.
pub struct TransportConnector {
    pub proxy: ProxySetting,
    pub ipv6_enabled: bool,
}

impl View for TransportConnector {
    type V = TransportConnectorView;

    open spec fn view(&self) -> TransportConnectorView {
        TransportConnectorView { proxy: self.proxy@, ipv6_enabled: self.ipv6_enabled }
    }
}

impl TransportConnector {
    /// A direct (unproxied) transport with IPv6 enabled.
    pub fn new_direct() -> (r: TransportConnector)
        ensures
            r@.proxy == ProxySettingView::Direct,
            r@.ipv6_enabled,
    {
        TransportConnector { proxy: ProxySetting::Direct, ipv6_enabled: true }
    }

    /// Replaces the proxy setting with the given configuration.
    pub fn set_proxy(&mut self, proxy: ConnectionProxyConfig)
        ensures
            final(self)@.proxy == ProxySettingView::Proxied(proxy@),
            final(self)@.ipv6_enabled == old(self)@.ipv6_enabled,
    {
        self.proxy = ProxySetting::Proxied(proxy);
    }

    /// Installs the invalid-proxy sentinel.
    pub fn set_invalid(&mut self)
        ensures
            final(self)@.proxy == ProxySettingView::Invalid,
            final(self)@.ipv6_enabled == old(self)@.ipv6_enabled,
    {
        self.proxy = ProxySetting::Invalid;
    }

    /// Removes any proxy setting, valid or invalid, returning to direct.
    pub fn clear_proxy(&mut self)
        ensures
            final(self)@.proxy == ProxySettingView::Direct,
            final(self)@.ipv6_enabled == old(self)@.ipv6_enabled,
    {
        self.proxy = ProxySetting::Direct;
    }

    /// The current proxy, or the configuration error when the invalid
    /// sentinel is installed.
    pub fn proxy(&self) -> (r: Result<Option<&ConnectionProxyConfig>, InvalidProxyConfig>)
        ensures
            match r {
                Ok(None) => self@.proxy == ProxySettingView::Direct,
                Ok(Some(p)) => self@.proxy == ProxySettingView::Proxied(p@),
                Err(e) => self@.proxy == ProxySettingView::Invalid && e == InvalidProxyConfig,
            },
    {
        match &self.proxy {
            ProxySetting::Direct => Ok(None),
            ProxySetting::Proxied(p) => Ok(Some(p)),
            ProxySetting::Invalid => Err(InvalidProxyConfig),
        }
    }

    /// Sets whether IPv6 routes may be used; the proxy setting is untouched.
    pub fn set_ipv6_enabled(&mut self, ipv6_enabled: bool)
        ensures
            final(self)@.ipv6_enabled == ipv6_enabled,
            final(self)@.proxy == old(self)@.proxy,
    {
        self.ipv6_enabled = ipv6_enabled;
    }
}

} // verus!
