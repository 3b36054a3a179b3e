use transport_factory::config::{ConfigMap, TransportConfig};
use transport_factory::error::{ConfigErrorKind, ErrorCategory};
use transport_factory::factory::{TransportFactory, TransportKind};

fn config_with(protocol: &str, host: &str, port: u16) -> TransportConfig {
    TransportFactory::config_from_server("server", protocol, host, port, ConfigMap::new())
}

#[test]
fn test_supported_protocols() {
    let protocols = TransportFactory::supported_protocols();
    assert!(protocols.contains(&"http"));
    assert!(protocols.contains(&"https"));
    assert!(protocols.contains(&"ws"));
    assert!(protocols.contains(&"wss"));
    assert!(protocols.contains(&"websocket"));
}

#[test]
fn test_is_protocol_supported() {
    assert!(TransportFactory::is_protocol_supported("http"));
    assert!(TransportFactory::is_protocol_supported("HTTP"));
    assert!(TransportFactory::is_protocol_supported("https"));
    assert!(!TransportFactory::is_protocol_supported("unknown"));
}

#[test]
fn test_default_config() {
    let config = TransportFactory::default_config("http").unwrap();
    assert_eq!(config.protocol, "http");
    assert_eq!(config.host, "localhost");
    assert_eq!(config.port, 80);
    assert!(!config.tls);

    let config = TransportFactory::default_config("https").unwrap();
    assert_eq!(config.protocol, "https");
    assert_eq!(config.port, 443);
    assert!(config.tls);
}

#[test]
fn test_validate_config() {
    let mut config = TransportFactory::default_config("http").unwrap();
    assert!(TransportFactory::validate_config(&config).is_ok());

    config.protocol = "invalid".to_string();
    assert!(TransportFactory::validate_config(&config).is_err());

    config.protocol = "http".to_string();
    config.host = "".to_string();
    assert!(TransportFactory::validate_config(&config).is_err());

    config.host = "localhost".to_string();
    config.port = 0;
    assert!(TransportFactory::validate_config(&config).is_err());
}

#[test]
fn supported_protocols_listing_order() {
    assert_eq!(
        TransportFactory::supported_protocols(),
        vec!["http", "https", "ws", "wss", "websocket"]
    );
}

#[test]
fn unknown_protocol_rejected_everywhere() {
    assert!(!TransportFactory::is_protocol_supported("ftp"));
    assert!(!TransportFactory::is_protocol_supported("mqtt"));
    assert!(!TransportFactory::is_protocol_supported(""));

    let err = TransportFactory::default_config("ftp").unwrap_err();
    assert_eq!(err.category, ErrorCategory::Configuration);
    assert_eq!(err.kind, ConfigErrorKind::UnsupportedProtocol);
    assert_eq!(err.message(), "Unsupported protocol: ftp");
    assert!(err.cause.is_none());

    let err = TransportFactory::create_transport(config_with("ftp", "example.com", 21)).err().unwrap();
    assert_eq!(err.kind, ConfigErrorKind::UnsupportedProtocol);
    assert_eq!(err.message, "Unsupported protocol: ftp");

    let err = TransportFactory::validate_config(&config_with("ftp", "example.com", 21)).unwrap_err();
    assert_eq!(err.kind, ConfigErrorKind::UnsupportedProtocol);
    assert_eq!(err.message, "Unsupported protocol: ftp");
}

#[test]
fn protocol_support_ignores_case() {
    assert_eq!(
        TransportFactory::is_protocol_supported("HTTP"),
        TransportFactory::is_protocol_supported("http")
    );
    assert!(TransportFactory::is_protocol_supported("HTTPS"));
    assert!(TransportFactory::is_protocol_supported("WebSocket"));
    assert!(TransportFactory::is_protocol_supported("WsS"));
    assert!(!TransportFactory::is_supported_name("HTTP"));
    assert!(TransportFactory::is_supported_name("http"));
}

#[test]
fn default_config_websocket_family() {
    let config = TransportFactory::default_config("ws").unwrap();
    assert_eq!((config.port, config.tls), (80, false));
    let config = TransportFactory::default_config("websocket").unwrap();
    assert_eq!((config.port, config.tls), (80, false));
    let config = TransportFactory::default_config("WSS").unwrap();
    assert_eq!(config.protocol, "WSS");
    assert_eq!((config.port, config.tls), (443, true));
    assert!(config.username.is_none());
    assert!(config.password.is_none());
    assert!(!config.additional_config.contains_key("tls"));
}

#[test]
fn default_settings_table() {
    assert_eq!(TransportFactory::default_settings_for("ws"), Some((80, false)));
    assert_eq!(TransportFactory::default_settings_for("wss"), Some((443, true)));
    assert_eq!(TransportFactory::default_settings_for("http"), Some((80, false)));
    assert_eq!(TransportFactory::default_settings_for("https"), Some((443, true)));
    assert_eq!(TransportFactory::default_settings_for("HTTPS"), None);
}

#[test]
fn create_transport_websocket_only() {
    let t = TransportFactory::create_transport(config_with("WS", "example.com", 80)).ok().unwrap();
    assert_eq!(t.kind, TransportKind::WebSocket);
    assert_eq!(t.config().host, "example.com");
    assert_eq!(t.config().protocol, "WS");

    let err = TransportFactory::create_transport(config_with("http", "example.com", 80)).err().unwrap();
    assert_eq!(err.kind, ConfigErrorKind::UnsupportedProtocol);
    assert_eq!(err.message, "Unsupported protocol: http");
    assert_eq!(TransportFactory::transport_kind_for("websocket"), Some(TransportKind::WebSocket));
    assert_eq!(TransportFactory::transport_kind_for("https"), None);
}

#[test]
fn empty_host_fails_validation() {
    for protocol in ["http", "https", "ws", "wss", "websocket"] {
        let err = TransportFactory::validate_config(&config_with(protocol, "", 443)).unwrap_err();
        assert_eq!(err.kind, ConfigErrorKind::EmptyHost);
        assert_eq!(err.message, "Host cannot be empty");
    }
}

#[test]
fn zero_port_fails_validation() {
    for protocol in ["http", "HTTPS", "ws", "wss", "websocket"] {
        let err = TransportFactory::validate_config(&config_with(protocol, "example.com", 0)).unwrap_err();
        assert_eq!(err.kind, ConfigErrorKind::ZeroPort);
        assert_eq!(err.message, "Port cannot be zero");
    }
}

#[test]
fn nonstandard_port_only_warns() {
    let config = config_with("http", "localhost", 8080);
    assert!(TransportFactory::validate_config(&config).is_ok());
    assert!(TransportFactory::uses_nonstandard_port(&config));

    let mut options = ConfigMap::new();
    options.insert("custom_port".to_string(), "yes".to_string());
    let config = TransportFactory::config_from_server("s", "http", "localhost", 8080, options);
    assert!(TransportFactory::validate_config(&config).is_ok());
    assert!(!TransportFactory::uses_nonstandard_port(&config));

    assert!(!TransportFactory::uses_nonstandard_port(&config_with("wss", "h", 443)));
    assert!(!TransportFactory::uses_nonstandard_port(&config_with("ws", "h", 80)));
    assert!(!TransportFactory::uses_nonstandard_port(&config_with("WSS", "h", 443)));
    assert!(!TransportFactory::uses_nonstandard_port(&config_with("HTTPS", "h", 443)));
    assert!(TransportFactory::uses_nonstandard_port(&config_with("WSS", "h", 80)));
}

#[test]
fn batch_with_bad_entry_fails() {
    let configs = vec![
        ("a".to_string(), config_with("ws", "one", 80)),
        ("b".to_string(), config_with("gopher", "two", 70)),
        ("c".to_string(), config_with("wss", "three", 443)),
    ];
    let err = TransportFactory::create_transports(configs).err().unwrap();
    assert_eq!(err.kind, ConfigErrorKind::UnsupportedProtocol);
    assert_eq!(err.message, "Unsupported protocol: gopher");
    assert_eq!(err.category, ErrorCategory::Configuration);
    assert!(err.cause.is_none());
}

#[test]
fn batch_keeps_entries_sharing_a_name() {
    let configs = vec![
        ("a".to_string(), config_with("ws", "one", 80)),
        ("a".to_string(), config_with("wss", "two", 443)),
    ];
    let built = TransportFactory::create_transports(configs).ok().unwrap();
    assert_eq!(built.len(), 2);
    assert_eq!(built[0].1.config().host, "one");
    assert_eq!(built[1].1.config().host, "two");
}

#[test]
fn batch_of_good_entries_builds_all() {
    let configs = vec![
        ("a".to_string(), config_with("ws", "one", 80)),
        ("c".to_string(), config_with("wss", "three", 443)),
    ];
    let built = TransportFactory::create_transports(configs).ok().unwrap();
    assert_eq!(built.len(), 2);
    assert_eq!(built[0].0, "a");
    assert_eq!(built[0].1.config().host, "one");
    assert_eq!(built[1].0, "c");
    assert_eq!(built[1].1.config().host, "three");
    assert!(TransportFactory::create_transports(Vec::new()).ok().unwrap().is_empty());
}

#[test]
fn config_from_server_infers_tls() {
    let config = TransportFactory::config_from_server("name", "https", "example.com", 443, ConfigMap::new());
    assert!(config.tls);
    assert_eq!(config.protocol, "https");
    assert_eq!(config.host, "example.com");
    assert_eq!(config.port, 443);
    assert!(config.username.is_none());

    assert!(config_with("ws", "h", 80).tls);
    assert!(!config_with("http", "h", 80).tls);
    assert!(!config_with("HTTPS", "h", 443).tls);

    let mut options = ConfigMap::new();
    options.insert("tls".to_string(), "true".to_string());
    options.insert("username".to_string(), "alice".to_string());
    options.insert("password".to_string(), "SECRET-REDACTED".to_string());
    let config = TransportFactory::config_from_server("name", "http", "h", 80, options);
    assert!(config.tls);
    assert_eq!(config.username.as_deref(), Some("alice"));
    assert_eq!(config.password.as_deref(), Some("SECRET-REDACTED"));

    let mut options = ConfigMap::new();
    options.insert("tls".to_string(), "yes".to_string());
    assert!(!TransportFactory::config_from_server("name", "http", "h", 80, options).tls);
}

#[test]
fn config_map_replaces_values() {
    let mut m = ConfigMap::new();
    assert!(m.get("k").is_none());
    m.insert("k".to_string(), "1".to_string());
    m.insert("j".to_string(), "2".to_string());
    m.insert("k".to_string(), "3".to_string());
    assert_eq!(m.get("k").unwrap(), "3");
    assert_eq!(m.get_cloned("j"), Some("2".to_string()));
    assert!(m.contains_key("j"));
    assert!(!m.contains_key("x"));
}
