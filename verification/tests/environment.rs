use connection_manager::environment::Environment;

#[test]
fn environment_decodes_from_its_integer_tag() {
    assert!(matches!(Environment::try_from_u8(0), Some(Environment::Staging)));
    assert!(matches!(Environment::try_from_u8(1), Some(Environment::Prod)));
    assert!(Environment::try_from_u8(2).is_none());
    assert!(Environment::try_from_u8(255).is_none());
}

#[test]
fn environment_names() {
    assert_eq!(Environment::Staging.name(), "Staging");
    assert_eq!(Environment::Prod.name(), "Prod");
}

#[test]
fn service_tables_differ_per_environment() {
    let staging = Environment::Staging.env();
    let prod = Environment::Prod.env();

    assert_eq!(staging.chat.hostname, "chat.staging.signal.org");
    assert_eq!(prod.chat.hostname, "chat.signal.org");
    assert_eq!(staging.cdsi.hostname, "cdsi.staging.signal.org");
    assert_eq!(prod.cdsi.hostname, "cdsi.signal.org");
    assert_eq!(staging.chat.port, 443);
    assert_eq!(prod.chat.port, 443);
    assert!(!staging.chat.fronting_hostnames.is_empty());
    assert!(!prod.chat.fronting_hostnames.is_empty());
}
