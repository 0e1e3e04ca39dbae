use msgserver::config::{AppConfig, ConfigError};

const FULL_CONFIG: &str = r#"
server:
  bind_address: "127.0.0.1"
  port: 8080
  max_connections: 100
  tls:
    enabled: true
    cert_path: "certs/cert.pem"
    key_path: "certs/key.pem"

database:
  url: "DATABASE_URL"
  max_connections: 30

security:
  encryption_key: "supersecretkey123"
  token_expiration: 3600

message:
  lifespan: 24
"#;

#[test]
fn test_config_load() {
    let config = AppConfig::new(FULL_CONFIG);
    assert!(config.is_ok());

    let config = config.unwrap();

    assert_eq!(config.server.bind_address, "127.0.0.1");
    assert_eq!(config.server.port, 8080);
    assert_eq!(config.server.max_connections, 100);
    assert!(config.server.tls.enabled);
    assert_eq!(config.server.tls.cert_path, "certs/cert.pem");
    assert_eq!(config.server.tls.key_path, "certs/key.pem");

    assert_eq!(config.database.url, "DATABASE_URL");
    assert_eq!(config.database.max_connections, 30);

    assert_eq!(config.security.encryption_key, "supersecretkey123");
    assert_eq!(config.security.token_expiration, 3600);

    assert_eq!(config.message.lifespan, 24);
}

#[test]
fn missing_lifespan_is_a_parse_error() {
    let without_lifespan = r#"
server:
  bind_address: "127.0.0.1"
  port: 8080
  max_connections: 100
  tls:
    enabled: true
    cert_path: "certs/cert.pem"
    key_path: "certs/key.pem"

database:
  url: "DATABASE_URL"
  max_connections: 30

security:
  encryption_key: "supersecretkey123"
  token_expiration: 3600

message: {}
"#;
    let config = AppConfig::new(without_lifespan);
    assert!(matches!(config, Err(ConfigError::ParseConfigError(_))));
}

#[test]
fn missing_server_section_is_a_parse_error() {
    let config = AppConfig::new("message:\n  lifespan: 24\n");
    assert!(matches!(config, Err(ConfigError::ParseConfigError(_))));
}

#[test]
fn invalid_yaml_is_a_parse_error() {
    let config = AppConfig::new("server: [unclosed");
    assert!(matches!(config, Err(ConfigError::ParseConfigError(_))));
}

#[test]
fn out_of_range_port_is_a_parse_error() {
    let bad_port = FULL_CONFIG.replace("port: 8080", "port: 70000");
    let config = AppConfig::new(&bad_port);
    assert!(matches!(config, Err(ConfigError::ParseConfigError(_))));
}

#[test]
fn wrongly_typed_field_is_a_parse_error() {
    let bad_lifespan = FULL_CONFIG.replace("lifespan: 24", "lifespan: \"soon\"");
    let config = AppConfig::new(&bad_lifespan);
    assert!(matches!(config, Err(ConfigError::ParseConfigError(_))));
}

#[test]
fn negative_lifespan_is_accepted_unvalidated() {
    let negative = FULL_CONFIG.replace("lifespan: 24", "lifespan: -3");
    let config = AppConfig::new(&negative).unwrap();
    assert_eq!(config.message.lifespan, -3);
}
