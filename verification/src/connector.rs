//! Connector composition and test-double substitution.
//!
//! A connector chain is a value-level tree of composition wrappers over
//! terminal transport connectors. Its shape is fixed at construction; only
//! leaf behavior (real vs. fake) varies. Substitution walks the tree,
//! recursing into every composition wrapper and replacing every terminal
//! connector with a supplied test double, so that tests exercise the identical
//! composition logic as production and differ only in what touches the
//! network.

use vstd::prelude::*;

verus! {

/// Terminal connector that performs a direct transport connection.
#[derive(Clone, Copy, PartialEq, Eq, Structural, Debug)]
pub struct StatelessDirect;

/// Terminal connector that performs a transport connection through a proxy.
#[derive(Clone, Copy, PartialEq, Eq, Structural, Debug)]
pub struct StatelessProxied;

/// The test double that substitution installs in place of every terminal
/// connector. The tag tells doubles apart in assertions.
#[derive(Clone, Copy, PartialEq, Eq, Structural, Debug)]
pub struct FakeTransportConnector {
    pub tag: u64,
}

/// Chains an outer connector's output into an inner connector.
#[derive(PartialEq, Eq, Structural, Debug)]
pub struct ComposedConnector<Outer, Inner> {
    pub outer: Outer,
    pub inner: Inner,
}

impl<Outer, Inner> ComposedConnector<Outer, Inner> {
    /// Composes two connectors.
    pub fn new(outer: Outer, inner: Inner) -> (r: ComposedConnector<Outer, Inner>)
        ensures
            r.outer == outer,
            r.inner == inner,
    {
        ComposedConnector { outer, inner }
    }

    /// Decomposes into the two connectors; nothing is lost.
    pub fn into_connectors(self) -> (r: (Outer, Inner))
        ensures
            r.0 == self.outer,
            r.1 == self.inner,
    {
        (self.outer, self.inner)
    }
}

/// Chooses between a direct and a proxied connector based on configuration.
#[derive(PartialEq, Eq, Structural, Debug)]
pub struct DirectOrProxy<D, P> {
    pub direct: D,
    pub proxy: P,
}

impl<D, P> DirectOrProxy<D, P> {
    /// Pairs the direct and proxied variants.
    pub fn new(direct: D, proxy: P) -> (r: DirectOrProxy<D, P>)
        ensures
            r.direct == direct,
            r.proxy == proxy,
    {
        DirectOrProxy { direct, proxy }
    }

    /// Decomposes into the two variants; nothing is lost.
    pub fn into_connectors(self) -> (r: (D, P))
        ensures
            r.0 == self.direct,
            r.1 == self.proxy,
    {
        (self.direct, self.proxy)
    }
}

/// Limits how many connection attempts may drive the inner connector at once.
#[derive(PartialEq, Eq, Structural, Debug)]
pub struct ThrottlingConnector<C> {
    pub connector: C,
    pub permits: u64,
}

impl<C> ThrottlingConnector<C> {
    /// Wraps `connector`, allowing `permits` concurrent attempts through.
    pub fn new(connector: C, permits: u64) -> (r: ThrottlingConnector<C>)
        ensures
            r.connector == connector,
            r.permits == permits,
    {
        ThrottlingConnector { connector, permits }
    }

    /// Swaps the inner connector, keeping the permit budget.
    pub fn replace_connector<N>(self, connector: N) -> (r: ThrottlingConnector<N>)
        ensures
            r.connector == connector,
            r.permits == self.permits,
    {
        ThrottlingConnector { connector, permits: self.permits }
    }
}

/// Replaces every terminal transport connector in a composed connector with a
/// test double, preserving the composition shape exactly.
pub trait ReplaceStatelessConnectorsWithFake: Sized {
    /// The type after replacement: the same wrapper nesting with every
    /// terminal connector's type replaced by [`FakeTransportConnector`].
    type Replacement;

    /// The replaced value: the same wrappers over `fake` at every leaf.
    spec fn spec_replaced(self, fake: FakeTransportConnector) -> Self::Replacement;

    /// Consumes `self` and swaps out all terminal connectors for `fake`.
    fn replace_with_fake(self, fake: FakeTransportConnector) -> (r: Self::Replacement)
        ensures
            r == self.spec_replaced(fake),
    ;
}

impl ReplaceStatelessConnectorsWithFake for StatelessDirect {
    type Replacement = FakeTransportConnector;

    open spec fn spec_replaced(self, fake: FakeTransportConnector) -> FakeTransportConnector {
        fake
    }

    fn replace_with_fake(self, fake: FakeTransportConnector) -> (r: FakeTransportConnector) {
        fake
    }
}

impl ReplaceStatelessConnectorsWithFake for StatelessProxied {
    type Replacement = FakeTransportConnector;

    open spec fn spec_replaced(self, fake: FakeTransportConnector) -> FakeTransportConnector {
        fake
    }

    fn replace_with_fake(self, fake: FakeTransportConnector) -> (r: FakeTransportConnector) {
        fake
    }
}

impl<Outer, Inner> ReplaceStatelessConnectorsWithFake for ComposedConnector<Outer, Inner> where
    Outer: ReplaceStatelessConnectorsWithFake,
    Inner: ReplaceStatelessConnectorsWithFake,
 {
    type Replacement = ComposedConnector<Outer::Replacement, Inner::Replacement>;

    open spec fn spec_replaced(self, fake: FakeTransportConnector) -> ComposedConnector<
        Outer::Replacement,
        Inner::Replacement,
    > {
        ComposedConnector {
            outer: self.outer.spec_replaced(fake),
            inner: self.inner.spec_replaced(fake),
        }
    }

    fn replace_with_fake(self, fake: FakeTransportConnector) -> (r: ComposedConnector<
        Outer::Replacement,
        Inner::Replacement,
    >) {
        let (outer, inner) = self.into_connectors();
        ComposedConnector::new(outer.replace_with_fake(fake), inner.replace_with_fake(fake))
    }
}

impl<D, P> ReplaceStatelessConnectorsWithFake for DirectOrProxy<D, P> where
    D: ReplaceStatelessConnectorsWithFake,
    P: ReplaceStatelessConnectorsWithFake,
 {
    type Replacement = DirectOrProxy<D::Replacement, P::Replacement>;

    open spec fn spec_replaced(self, fake: FakeTransportConnector) -> DirectOrProxy<
        D::Replacement,
        P::Replacement,
    > {
        DirectOrProxy {
            direct: self.direct.spec_replaced(fake),
            proxy: self.proxy.spec_replaced(fake),
        }
    }

    fn replace_with_fake(self, fake: FakeTransportConnector) -> (r: DirectOrProxy<
        D::Replacement,
        P::Replacement,
    >) {
        let (direct, proxy) = self.into_connectors();
        DirectOrProxy::new(direct.replace_with_fake(fake), proxy.replace_with_fake(fake))
    }
}

impl<C: ReplaceStatelessConnectorsWithFake> ReplaceStatelessConnectorsWithFake for ThrottlingConnector<C> {
    type Replacement = ThrottlingConnector<C::Replacement>;

    open spec fn spec_replaced(self, fake: FakeTransportConnector) -> ThrottlingConnector<
        C::Replacement,
    > {
        ThrottlingConnector { connector: self.connector.spec_replaced(fake), permits: self.permits }
    }

    fn replace_with_fake(self, fake: FakeTransportConnector) -> (r: ThrottlingConnector<
        C::Replacement,
    >) {
        let permits = self.permits;
        ThrottlingConnector { connector: self.connector.replace_with_fake(fake), permits }
    }
}

/// Substitution is structure-preserving: replacing the terminals of a chain
/// composed of a throttled direct-or-proxy pair chained into a terminal
/// yields the identical wrapper nesting — same composition order, same permit
/// budget — with every terminal connector equal to the supplied test double.
pub proof fn lemma_substitution_preserves_structure(
    c: ComposedConnector<ThrottlingConnector<DirectOrProxy<StatelessDirect, StatelessProxied>>, StatelessDirect>,
    fake: FakeTransportConnector,
)
    ensures
        c.spec_replaced(fake) == (ComposedConnector {
            outer: ThrottlingConnector {
                connector: DirectOrProxy { direct: fake, proxy: fake },
                permits: c.outer.permits,
            },
            inner: fake,
        }),
{
}

} // verus!
