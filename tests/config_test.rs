use vmonitor::cli::{apply_edit, listing, Commands};
use vmonitor::config::{
    default_base_delay, default_connection, default_enabled, default_max_delay,
    default_max_retries, AppConfig, ConnectionConfig, EditError, Endpoint,
};
use vmonitor::loader::{ConfigError, ConfigField, Field, RawConfig, RawConnection, RawEndpoint};

fn create_default_config() -> AppConfig {
    AppConfig {
        endpoints: vec![],
        connection: ConnectionConfig {
            base_delay: 1,
            max_delay: 60,
            max_retries: -1,
        },
    }
}

fn endpoint(name: &str, enabled: bool) -> Endpoint {
    Endpoint {
        name: name.to_string(),
        server: format!("wss://{}.example.com/ws", name),
        secret: "secret".to_string(),
        enabled,
        connection: None,
    }
}

#[test]
fn test_endpoint_with_defaults() {
    let default_config = create_default_config();
    let endpoint = Endpoint {
        name: "test".to_string(),
        server: "ws://test.com".to_string(),
        secret: "test-secret".to_string(),
        enabled: true,
        connection: None,
    };

    assert_eq!(
        endpoint.connection.clone().unwrap_or_else(|| default_config.connection.clone()),
        default_config.connection
    );
}

#[test]
fn test_endpoint_with_overrides() {
    let default_config = create_default_config();
    let custom_connection = ConnectionConfig {
        base_delay: 2,
        max_delay: 30,
        max_retries: 3,
    };

    let endpoint = Endpoint {
        name: "test".to_string(),
        server: "ws://test.com".to_string(),
        secret: "test-secret".to_string(),
        enabled: true,
        connection: Some(custom_connection.clone()),
    };

    assert_eq!(endpoint.connection.clone().unwrap_or_else(|| default_config.connection.clone()), custom_connection);
}

#[test]
fn defaults_match_documented_values() {
    assert_eq!(default_base_delay(), 1);
    assert_eq!(default_max_delay(), 60);
    assert_eq!(default_max_retries(), -1);
    assert!(default_enabled());
    assert_eq!(default_connection(), create_default_config().connection);
}

#[test]
fn effective_connection_prefers_override() {
    let global = default_connection();
    let own = ConnectionConfig { base_delay: 2, max_delay: 30, max_retries: 3 };
    let mut e = endpoint("a", true);
    assert_eq!(e.effective_connection(global), global);
    e.connection = Some(own);
    assert_eq!(e.effective_connection(global), own);
}

#[test]
fn config_equality_is_structural() {
    let mut a = create_default_config();
    a.endpoints.push(endpoint("a", true));
    let mut b = create_default_config();
    b.endpoints.push(endpoint("a", true));
    assert!(a == b);
    b.endpoints[0].enabled = false;
    assert!(a != b);
    let mut c = create_default_config();
    c.endpoints.push(endpoint("a", true));
    c.connection.max_retries = 3;
    assert!(a != c);
}

#[test]
fn add_endpoint_appends_and_rejects_duplicates() {
    let mut config = create_default_config();
    config.endpoints.push(endpoint("test", true));
    let r = config.add_endpoint(
        "new-endpoint".to_string(),
        "ws://example.com/ws".to_string(),
        "test-secret".to_string(),
        true,
    );
    assert_eq!(r, Ok(()));
    assert_eq!(config.endpoints.len(), 2);
    assert_eq!(config.endpoints[1].name, "new-endpoint");
    assert_eq!(config.endpoints[1].connection, None);
    let dup = config.add_endpoint(
        "test".to_string(),
        "ws://example.com/ws".to_string(),
        "test-secret".to_string(),
        true,
    );
    assert_eq!(dup, Err(EditError::AlreadyExists));
    assert_eq!(config.endpoints.len(), 2);
}

#[test]
fn remove_and_toggle_by_name() {
    let mut config = create_default_config();
    config.endpoints.push(endpoint("a", true));
    config.endpoints.push(endpoint("test", false));
    config.endpoints.push(endpoint("c", true));
    assert_eq!(config.set_enabled("test", true), Ok(()));
    assert!(config.endpoints[1].enabled);
    assert_eq!(config.set_enabled("test", false), Ok(()));
    assert!(!config.endpoints[1].enabled);
    assert_eq!(config.find_endpoint("c"), Some(2));
    assert_eq!(config.remove_endpoint("test"), Ok(()));
    assert_eq!(config.endpoints.len(), 2);
    assert_eq!(config.endpoints[1].name, "c");
    assert_eq!(config.remove_endpoint("nonexistent"), Err(EditError::NotFound));
    assert_eq!(config.set_enabled("nonexistent", true), Err(EditError::NotFound));
    assert_eq!(config.endpoints.len(), 2);
}

#[test]
fn apply_edit_dispatches_commands() {
    let mut config = create_default_config();
    config.endpoints.push(endpoint("test", true));
    assert_eq!(apply_edit(&mut config, Commands::List), None);
    assert_eq!(apply_edit(&mut config, Commands::Version), None);
    assert_eq!(
        apply_edit(&mut config, Commands::Disable { name: "test".to_string() }),
        Some(Ok(()))
    );
    assert!(!config.endpoints[0].enabled);
    assert_eq!(
        apply_edit(&mut config, Commands::Enable { name: "test".to_string() }),
        Some(Ok(()))
    );
    assert!(config.endpoints[0].enabled);
    assert_eq!(
        apply_edit(&mut config, Commands::Remove { name: "nonexistent".to_string() }),
        Some(Err(EditError::NotFound))
    );
    assert_eq!(
        apply_edit(
            &mut config,
            Commands::Add {
                name: "test".to_string(),
                server: "ws://example.com/ws".to_string(),
                secret: "test-secret".to_string(),
                enabled: true,
            }
        ),
        Some(Err(EditError::AlreadyExists))
    );
    assert_eq!(
        apply_edit(&mut config, Commands::Remove { name: "test".to_string() }),
        Some(Ok(()))
    );
    assert!(config.endpoints.is_empty());
}

#[test]
fn listing_shows_state_of_each_endpoint() {
    let mut config = create_default_config();
    config.endpoints.push(endpoint("test", true));
    config.endpoints.push(endpoint("off", false));
    let lines = listing(&config);
    assert_eq!(lines, vec!["  - test (enabled)".to_string(), "  - off (disabled)".to_string()]);
}

fn raw_endpoint(name: &str, enabled: Field<bool>) -> Field<RawEndpoint> {
    Field::Present(RawEndpoint {
        name: Field::Present(name.to_string()),
        server: Field::Present("wss://test.example.com/ws".to_string()),
        secret: Field::Present("test-secret".to_string()),
        enabled,
        connection: Field::Missing,
    })
}

#[test]
fn schema_applies_defaults() {
    let raw = RawConfig {
        endpoints: Field::Present(vec![raw_endpoint("test-endpoint", Field::Missing)]),
        connection: Field::Missing,
    };
    let config = AppConfig::from_raw(raw).unwrap();
    assert_eq!(config.connection, default_connection());
    assert_eq!(config.endpoints.len(), 1);
    assert!(config.endpoints[0].enabled);
    assert_eq!(config.endpoints[0].connection, None);
}

#[test]
fn schema_reads_values() {
    let raw = RawConfig {
        endpoints: Field::Present(vec![
            raw_endpoint("test-endpoint", Field::Present(true)),
            raw_endpoint("disabled-endpoint", Field::Present(false)),
        ]),
        connection: Field::Present(RawConnection {
            base_delay: Field::Present(2),
            max_delay: Field::Present(120),
            max_retries: Field::Present(3),
        }),
    };
    let config = AppConfig::from_raw(raw).unwrap();
    assert_eq!(config.connection.base_delay, 2);
    assert_eq!(config.connection.max_delay, 120);
    assert_eq!(config.connection.max_retries, 3);
    assert_eq!(config.endpoints[0].name, "test-endpoint");
    assert_eq!(config.endpoints[0].server, "wss://test.example.com/ws");
    assert_eq!(config.endpoints[0].secret, "test-secret");
    assert!(config.endpoints[0].enabled);
    assert_eq!(config.endpoints[1].name, "disabled-endpoint");
    assert!(!config.endpoints[1].enabled);
}

#[test]
fn schema_reports_errors() {
    let missing = RawConfig { endpoints: Field::Missing, connection: Field::Missing };
    assert_eq!(AppConfig::from_raw(missing), Err(ConfigError::Missing(ConfigField::Endpoints)));
    let mut no_name = RawEndpoint {
        name: Field::Missing,
        server: Field::Present("ws://x".to_string()),
        secret: Field::Present("s".to_string()),
        enabled: Field::Missing,
        connection: Field::Missing,
    };
    assert_eq!(Endpoint::from_raw(no_name.clone()), Err(ConfigError::Missing(ConfigField::Name)));
    no_name.name = Field::Present("n".to_string());
    no_name.enabled = Field::Invalid;
    assert_eq!(Endpoint::from_raw(no_name), Err(ConfigError::Invalid(ConfigField::Enabled)));
    let too_big = RawConnection {
        base_delay: Field::Missing,
        max_delay: Field::Missing,
        max_retries: Field::Present(1i64 << 40),
    };
    assert_eq!(
        ConnectionConfig::from_raw(too_big),
        Err(ConfigError::Invalid(ConfigField::MaxRetries))
    );
    let bad_entry = RawConfig {
        endpoints: Field::Present(vec![raw_endpoint("a", Field::Missing), Field::Invalid]),
        connection: Field::Missing,
    };
    assert_eq!(AppConfig::from_raw(bad_entry), Err(ConfigError::Invalid(ConfigField::Endpoints)));
}

#[test]
fn test_config_parsing() {
    let config_str = r#"
        [connection]
        base_delay = 2
        max_delay = 120
        max_retries = 3

        [[endpoints]]
        name = "test-endpoint"
        server = "wss://test.example.com/ws"
        secret = "test-secret"
        enabled = true

        [[endpoints]]
        name = "disabled-endpoint"
        server = "wss://disabled.example.com/ws"
        secret = "disabled-secret"
        enabled = false
    "#;

    // Parse config
    let config = AppConfig::from_toml(config_str).unwrap();

    // Verify config values
    assert_eq!(config.connection.base_delay, 2);
    assert_eq!(config.connection.max_delay, 120);
    assert_eq!(config.connection.max_retries, 3);
    assert_eq!(config.endpoints.len(), 2);

    // Verify first endpoint
    let endpoint = &config.endpoints[0];
    assert_eq!(endpoint.name, "test-endpoint");
    assert_eq!(endpoint.server, "wss://test.example.com/ws");
    assert_eq!(endpoint.secret, "test-secret");
    assert!(endpoint.enabled);

    // Verify second endpoint
    let endpoint = &config.endpoints[1];
    assert_eq!(endpoint.name, "disabled-endpoint");
    assert!(!endpoint.enabled);
}

#[test]
fn toml_omitted_keys_take_defaults() {
    let text = r#"
        [[endpoints]]
        name = "e"
        server = "wss://e.example.com/ws"
        secret = "s"

        [[endpoints]]
        name = "f"
        server = "wss://f.example.com/ws"
        secret = "s"
        [endpoints.connection]
        max_retries = 4
    "#;
    let config = AppConfig::from_toml(text).unwrap();
    assert_eq!(config.connection, default_connection());
    assert!(config.endpoints[0].enabled);
    assert_eq!(config.endpoints[0].connection, None);
    assert_eq!(
        config.endpoints[1].connection,
        Some(ConnectionConfig { base_delay: 1, max_delay: 60, max_retries: 4 })
    );
}

#[test]
fn toml_errors() {
    assert!(matches!(AppConfig::from_toml("invalid toml content"), Err(ConfigError::Load(_))));
    assert_eq!(
        AppConfig::from_toml("[connection]\nbase_delay = 2\n"),
        Err(ConfigError::Missing(ConfigField::Endpoints))
    );
    assert_eq!(
        AppConfig::from_toml("[[endpoints]]\nname = \"a\"\nsecret = \"s\"\n"),
        Err(ConfigError::Missing(ConfigField::Server))
    );
    assert_eq!(
        AppConfig::from_toml("[[endpoints]]\nname = \"a\"\nserver = \"x\"\nsecret = \"s\"\nenabled = 3\n"),
        Err(ConfigError::Invalid(ConfigField::Enabled))
    );
}

#[test]
fn from_file_reports_unreadable_file() {
    let r = AppConfig::from_file("/nonexistent/dir/no_such_config.toml");
    assert!(matches!(r, Err(ConfigError::Load(_))));
}
