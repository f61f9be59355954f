use connection_manager::connector::{
    ComposedConnector, DirectOrProxy, FakeTransportConnector, ReplaceStatelessConnectorsWithFake,
    StatelessDirect, StatelessProxied, ThrottlingConnector,
};

#[test]
fn substitution_preserves_wrapper_nesting() {
    let chain = ComposedConnector::new(
        ThrottlingConnector::new(DirectOrProxy::new(StatelessDirect, StatelessProxied), 7),
        StatelessDirect,
    );
    let fake = FakeTransportConnector { tag: 42 };

    let replaced = chain.replace_with_fake(fake);

    // Identical wrapper nesting; only the terminal connectors differ.
    let expected = ComposedConnector::new(
        ThrottlingConnector::new(DirectOrProxy::new(fake, fake), 7),
        fake,
    );
    assert!(replaced == expected);
}

#[test]
fn terminal_connectors_become_the_supplied_fake() {
    let fake = FakeTransportConnector { tag: 9 };
    assert_eq!(StatelessDirect.replace_with_fake(fake), fake);
    assert_eq!(StatelessProxied.replace_with_fake(fake), fake);
}

#[test]
fn throttling_keeps_its_permit_budget() {
    let fake = FakeTransportConnector { tag: 1 };
    let throttled = ThrottlingConnector::new(StatelessProxied, 3);
    let replaced = throttled.replace_with_fake(fake);
    assert_eq!(replaced.permits, 3);
    assert_eq!(replaced.connector, fake);
}

#[test]
fn composition_decomposes_without_loss() {
    let composed = ComposedConnector::new(StatelessDirect, StatelessProxied);
    let (outer, inner) = composed.into_connectors();
    assert_eq!(outer, StatelessDirect);
    assert_eq!(inner, StatelessProxied);

    let either = DirectOrProxy::new(StatelessDirect, StatelessProxied);
    let (direct, proxy) = either.into_connectors();
    assert_eq!(direct, StatelessDirect);
    assert_eq!(proxy, StatelessProxied);

    let throttled = ThrottlingConnector::new(StatelessDirect, 5);
    let swapped = throttled.replace_connector(StatelessProxied);
    assert_eq!(swapped.permits, 5);
    assert_eq!(swapped.connector, StatelessProxied);
}
