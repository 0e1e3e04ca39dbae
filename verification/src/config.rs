//! The configuration loader: validates a parsed YAML configuration file and
//! builds the immutable application configuration. Reading the file itself is
//! the caller's business; this module turns its text into a checked
//! `AppConfig` or a parse error.

use vstd::prelude::*;

verus! {

/// Why a configuration could not be loaded. The first three arise while
/// locating and reading the file; the last while parsing its text.
#[derive(Debug)]
pub enum ConfigError {
    EnvVarNotFound(String),
    ConfigFileNotFound(String),
    ReadConfigFileError(String),
    ParseConfigError(String),
}

/// TLS material for the listening socket.
#[derive(Debug)]
pub struct TlsConfig {
    pub enabled: bool,
    pub cert_path: String,
    pub key_path: String,
}

/// Where and how the server listens.
#[derive(Debug)]
pub struct ServerConfig {
    pub bind_address: String,
    pub port: u16,
    pub max_connections: u32,
    pub tls: TlsConfig,
}

/// How the backing database is reached.
#[derive(Debug)]
pub struct DatabaseConfig {
    pub url: String,
    pub max_connections: u32,
}

/// Security parameters.
#[derive(Debug)]
pub struct SecurityConfig {
    pub encryption_key: String,
    pub token_expiration: u64,
}

/// Message-lifecycle parameters: the lifespan, in hours, added to a message's
/// creation instant to compute its expiration.
#[derive(Debug)]
pub struct MessageConfig {
    pub lifespan: i64,
}

/// The whole application configuration.
#[derive(Debug)]
pub struct AppConfig {
    pub server: ServerConfig,
    pub database: DatabaseConfig,
    pub security: SecurityConfig,
    pub message: MessageConfig,
}

/// The fields of a configuration file as found in its YAML text: absent when
/// the field is missing or carries a value of the wrong kind.
pub struct RawConfig {
    pub bind_address: Option<String>,
    pub port: Option<u64>,
    pub max_connections: Option<u64>,
    pub tls_enabled: Option<bool>,
    pub tls_cert_path: Option<String>,
    pub tls_key_path: Option<String>,
    pub database_url: Option<String>,
    pub database_max_connections: Option<u64>,
    pub encryption_key: Option<String>,
    pub token_expiration: Option<u64>,
    pub lifespan: Option<i64>,
}

/// Every field is present and within its type's range. Exactly these raw
/// configurations yield an `AppConfig`.
pub open spec fn raw_complete(raw: RawConfig) -> bool {
    &&& raw.bind_address is Some
    &&& raw.port is Some && raw.port.unwrap() <= 0xFFFF
    &&& raw.max_connections is Some && raw.max_connections.unwrap() <= 0xFFFF_FFFF
    &&& raw.tls_enabled is Some
    &&& raw.tls_cert_path is Some
    &&& raw.tls_key_path is Some
    &&& raw.database_url is Some
    &&& raw.database_max_connections is Some && raw.database_max_connections.unwrap()
        <= 0xFFFF_FFFF
    &&& raw.encryption_key is Some
    &&& raw.token_expiration is Some
    &&& raw.lifespan is Some
}

#[verifier::external_type_specification]
#[verifier::external_body]
pub struct ExYamlValue(serde_yaml::Value);

// Names for what the YAML functions of serde_yaml return. Each result depends
// on the arguments alone; the trusted wrappers below tie each name to its
// function, and the loader's contract speaks of the names.
pub uninterp spec fn yaml_doc_of(s: Seq<char>) -> Option<serde_yaml::Value>;

pub uninterp spec fn yaml_child_of(v: serde_yaml::Value, key: Seq<char>) -> Option<
    serde_yaml::Value,
>;

pub uninterp spec fn yaml_string_of(v: serde_yaml::Value) -> Option<Seq<char>>;

pub uninterp spec fn yaml_bool_of(v: serde_yaml::Value) -> Option<bool>;

pub uninterp spec fn yaml_i64_of(v: serde_yaml::Value) -> Option<i64>;

pub uninterp spec fn yaml_u64_of(v: serde_yaml::Value) -> Option<u64>;

/// The view of an optional owned string.
pub open spec fn opt_view(o: Option<String>) -> Option<Seq<char>> {
    match o {
        Some(s) => Some(s@),
        None => None,
    }
}

/// The value behind an optional reference.
pub open spec fn opt_val(o: Option<&serde_yaml::Value>) -> Option<serde_yaml::Value> {
    match o {
        Some(v) => Some(*v),
        None => None,
    }
}

/// Relies on serde_yaml::from_str: parses YAML text into a value tree, a
/// function of the text alone; on text that is not valid YAML it fails with
/// the parser's message.
#[verifier::external_body]
fn yaml_parse(content: &str) -> (r: Result<serde_yaml::Value, String>)
    ensures
        r matches Ok(v) ==> yaml_doc_of(content@) == Some(v),
        r is Err <==> yaml_doc_of(content@) is None,
{
    match serde_yaml::from_str::<serde_yaml::Value>(content) {
        Ok(v) => Ok(v),
        Err(e) => Err(e.to_string()),
    }
}

/// Relies on serde_yaml::Value::get: the value under a key of a YAML mapping,
/// a function of the value and key alone; nothing when the value is not a
/// mapping or the key is absent.
#[verifier::external_body]
fn yaml_get<'a>(v: &'a serde_yaml::Value, key: &str) -> (r: Option<&'a serde_yaml::Value>)
    ensures
        opt_val(r) == yaml_child_of(*v, key@),
{
    v.get(key)
}

/// Relies on serde_yaml::Value::as_str: the text of a YAML string value, a
/// function of the value alone; nothing for any other kind of value.
#[verifier::external_body]
fn yaml_as_string(v: &serde_yaml::Value) -> (r: Option<String>)
    ensures
        opt_view(r) == yaml_string_of(*v),
{
    match v.as_str() {
        Some(s) => Some(s.to_owned()),
        None => None,
    }
}

/// Relies on serde_yaml::Value::as_bool: the value of a YAML boolean, a
/// function of the value alone; nothing for any other kind of value.
#[verifier::external_body]
fn yaml_as_bool(v: &serde_yaml::Value) -> (r: Option<bool>)
    ensures
        r == yaml_bool_of(*v),
{
    v.as_bool()
}

/// Relies on serde_yaml::Value::as_i64: the value of a YAML integer when it
/// fits a signed 64-bit integer, a function of the value alone.
#[verifier::external_body]
fn yaml_as_i64(v: &serde_yaml::Value) -> (r: Option<i64>)
    ensures
        r == yaml_i64_of(*v),
{
    v.as_i64()
}

/// Relies on serde_yaml::Value::as_u64: the value of a YAML integer when it
/// fits an unsigned 64-bit integer, a function of the value alone.
#[verifier::external_body]
fn yaml_as_u64(v: &serde_yaml::Value) -> (r: Option<u64>)
    ensures
        r == yaml_u64_of(*v),
{
    v.as_u64()
}

/// The child under `key`, when `v` holds a value at all.
pub open spec fn child_of(v: Option<serde_yaml::Value>, key: Seq<char>) -> Option<
    serde_yaml::Value,
> {
    match v {
        Some(doc) => yaml_child_of(doc, key),
        None => None,
    }
}

/// The text of a string value, when `v` holds a value at all.
pub open spec fn string_at(v: Option<serde_yaml::Value>) -> Option<Seq<char>> {
    match v {
        Some(w) => yaml_string_of(w),
        None => None,
    }
}

/// The value of a boolean, when `v` holds a value at all.
pub open spec fn bool_at(v: Option<serde_yaml::Value>) -> Option<bool> {
    match v {
        Some(w) => yaml_bool_of(w),
        None => None,
    }
}

/// The value of a signed integer, when `v` holds a value at all.
pub open spec fn i64_at(v: Option<serde_yaml::Value>) -> Option<i64> {
    match v {
        Some(w) => yaml_i64_of(w),
        None => None,
    }
}

/// The value of an unsigned integer, when `v` holds a value at all.
pub open spec fn u64_at(v: Option<serde_yaml::Value>) -> Option<u64> {
    match v {
        Some(w) => yaml_u64_of(w),
        None => None,
    }
}

/// The `server` section of a parsed configuration file.
pub open spec fn spec_server(d: Option<serde_yaml::Value>) -> Option<serde_yaml::Value> {
    child_of(d, "server"@)
}

/// The `server.tls` section of a parsed configuration file.
pub open spec fn spec_tls(d: Option<serde_yaml::Value>) -> Option<serde_yaml::Value> {
    child_of(spec_server(d), "tls"@)
}

/// The `database` section of a parsed configuration file.
pub open spec fn spec_database(d: Option<serde_yaml::Value>) -> Option<serde_yaml::Value> {
    child_of(d, "database"@)
}

/// The `security` section of a parsed configuration file.
pub open spec fn spec_security(d: Option<serde_yaml::Value>) -> Option<serde_yaml::Value> {
    child_of(d, "security"@)
}

/// The `message` section of a parsed configuration file.
pub open spec fn spec_message(d: Option<serde_yaml::Value>) -> Option<serde_yaml::Value> {
    child_of(d, "message"@)
}

/// The `server.bind_address` field of a parsed configuration file.
pub open spec fn spec_bind_address(d: Option<serde_yaml::Value>) -> Option<Seq<char>> {
    string_at(child_of(spec_server(d), "bind_address"@))
}

/// The `server.port` field of a parsed configuration file.
pub open spec fn spec_port(d: Option<serde_yaml::Value>) -> Option<u64> {
    u64_at(child_of(spec_server(d), "port"@))
}

/// The `server.max_connections` field of a parsed configuration file.
pub open spec fn spec_max_connections(d: Option<serde_yaml::Value>) -> Option<u64> {
    u64_at(child_of(spec_server(d), "max_connections"@))
}

/// The `server.tls.enabled` field of a parsed configuration file.
pub open spec fn spec_tls_enabled(d: Option<serde_yaml::Value>) -> Option<bool> {
    bool_at(child_of(spec_tls(d), "enabled"@))
}

/// The `server.tls.cert_path` field of a parsed configuration file.
pub open spec fn spec_tls_cert_path(d: Option<serde_yaml::Value>) -> Option<Seq<char>> {
    string_at(child_of(spec_tls(d), "cert_path"@))
}

/// The `server.tls.key_path` field of a parsed configuration file.
pub open spec fn spec_tls_key_path(d: Option<serde_yaml::Value>) -> Option<Seq<char>> {
    string_at(child_of(spec_tls(d), "key_path"@))
}

/// The `database.url` field of a parsed configuration file.
pub open spec fn spec_database_url(d: Option<serde_yaml::Value>) -> Option<Seq<char>> {
    string_at(child_of(spec_database(d), "url"@))
}

/// The `database.max_connections` field of a parsed configuration file.
pub open spec fn spec_database_max_connections(d: Option<serde_yaml::Value>) -> Option<u64> {
    u64_at(child_of(spec_database(d), "max_connections"@))
}

/// The `security.encryption_key` field of a parsed configuration file.
pub open spec fn spec_encryption_key(d: Option<serde_yaml::Value>) -> Option<Seq<char>> {
    string_at(child_of(spec_security(d), "encryption_key"@))
}

/// The `security.token_expiration` field of a parsed configuration file.
pub open spec fn spec_token_expiration(d: Option<serde_yaml::Value>) -> Option<u64> {
    u64_at(child_of(spec_security(d), "token_expiration"@))
}

/// The `message.lifespan` field of a parsed configuration file.
pub open spec fn spec_lifespan(d: Option<serde_yaml::Value>) -> Option<i64> {
    i64_at(child_of(spec_message(d), "lifespan"@))
}

/// The text parses as YAML and every field of the schema is present and in
/// range: exactly the texts from which a configuration is loaded.
pub open spec fn spec_config_ok(s: Seq<char>) -> bool {
    let d = yaml_doc_of(s);
    &&& spec_bind_address(d) is Some
    &&& spec_port(d) is Some && spec_port(d).unwrap() <= 0xFFFF
    &&& spec_max_connections(d) is Some && spec_max_connections(d).unwrap() <= 0xFFFF_FFFF
    &&& spec_tls_enabled(d) is Some
    &&& spec_tls_cert_path(d) is Some
    &&& spec_tls_key_path(d) is Some
    &&& spec_database_url(d) is Some
    &&& spec_database_max_connections(d) is Some && spec_database_max_connections(d).unwrap()
        <= 0xFFFF_FFFF
    &&& spec_encryption_key(d) is Some
    &&& spec_token_expiration(d) is Some
    &&& spec_lifespan(d) is Some
}

/// Collects the schema's fields from a parsed configuration file, recording an
/// absent or ill-kinded field as absent.
fn extract_raw(doc: &serde_yaml::Value) -> (raw: RawConfig)
    ensures
        opt_view(raw.bind_address) == spec_bind_address(Some(*doc)),
        raw.port == spec_port(Some(*doc)),
        raw.max_connections == spec_max_connections(Some(*doc)),
        raw.tls_enabled == spec_tls_enabled(Some(*doc)),
        opt_view(raw.tls_cert_path) == spec_tls_cert_path(Some(*doc)),
        opt_view(raw.tls_key_path) == spec_tls_key_path(Some(*doc)),
        opt_view(raw.database_url) == spec_database_url(Some(*doc)),
        raw.database_max_connections == spec_database_max_connections(Some(*doc)),
        opt_view(raw.encryption_key) == spec_encryption_key(Some(*doc)),
        raw.token_expiration == spec_token_expiration(Some(*doc)),
        raw.lifespan == spec_lifespan(Some(*doc)),
{
    let mut raw = RawConfig {
        bind_address: None,
        port: None,
        max_connections: None,
        tls_enabled: None,
        tls_cert_path: None,
        tls_key_path: None,
        database_url: None,
        database_max_connections: None,
        encryption_key: None,
        token_expiration: None,
        lifespan: None,
    };
    if let Some(server) = yaml_get(doc, "server") {
        if let Some(v) = yaml_get(server, "bind_address") {
            raw.bind_address = yaml_as_string(v);
        }
        if let Some(v) = yaml_get(server, "port") {
            raw.port = yaml_as_u64(v);
        }
        if let Some(v) = yaml_get(server, "max_connections") {
            raw.max_connections = yaml_as_u64(v);
        }
        if let Some(tls) = yaml_get(server, "tls") {
            if let Some(v) = yaml_get(tls, "enabled") {
                raw.tls_enabled = yaml_as_bool(v);
            }
            if let Some(v) = yaml_get(tls, "cert_path") {
                raw.tls_cert_path = yaml_as_string(v);
            }
            if let Some(v) = yaml_get(tls, "key_path") {
                raw.tls_key_path = yaml_as_string(v);
            }
        }
    }
    if let Some(database) = yaml_get(doc, "database") {
        if let Some(v) = yaml_get(database, "url") {
            raw.database_url = yaml_as_string(v);
        }
        if let Some(v) = yaml_get(database, "max_connections") {
            raw.database_max_connections = yaml_as_u64(v);
        }
    }
    if let Some(security) = yaml_get(doc, "security") {
        if let Some(v) = yaml_get(security, "encryption_key") {
            raw.encryption_key = yaml_as_string(v);
        }
        if let Some(v) = yaml_get(security, "token_expiration") {
            raw.token_expiration = yaml_as_u64(v);
        }
    }
    if let Some(message) = yaml_get(doc, "message") {
        if let Some(v) = yaml_get(message, "lifespan") {
            raw.lifespan = yaml_as_i64(v);
        }
    }
    raw
}

impl AppConfig {
    /// Builds the configuration from the collected raw fields: succeeds
    /// exactly when every field of the schema is present and in range, and
    /// then carries each raw value over unchanged; any gap is a parse error.
    pub fn from_raw(raw: RawConfig) -> (r: Result<AppConfig, ConfigError>)
        ensures
            r is Ok <==> raw_complete(raw),
            r matches Ok(c) ==> {
                &&& c.server.bind_address == raw.bind_address.unwrap()
                &&& c.server.port as int == raw.port.unwrap() as int
                &&& c.server.max_connections as int == raw.max_connections.unwrap() as int
                &&& c.server.tls.enabled == raw.tls_enabled.unwrap()
                &&& c.server.tls.cert_path == raw.tls_cert_path.unwrap()
                &&& c.server.tls.key_path == raw.tls_key_path.unwrap()
                &&& c.database.url == raw.database_url.unwrap()
                &&& c.database.max_connections as int == raw.database_max_connections.unwrap()
                    as int
                &&& c.security.encryption_key == raw.encryption_key.unwrap()
                &&& c.security.token_expiration == raw.token_expiration.unwrap()
                &&& c.message.lifespan == raw.lifespan.unwrap()
            },
            r matches Err(e) ==> e is ParseConfigError,
    {
        let bind_address = match raw.bind_address {
            Some(s) => s,
            None => {
                return Err(
                    ConfigError::ParseConfigError(
                        "missing or invalid field: server.bind_address".to_owned(),
                    ),
                );
            },
        };
        let port_raw = match raw.port {
            Some(p) => p,
            None => {
                return Err(
                    ConfigError::ParseConfigError(
                        "missing or invalid field: server.port".to_owned(),
                    ),
                );
            },
        };
        if port_raw > 0xFFFF {
            return Err(
                ConfigError::ParseConfigError("missing or invalid field: server.port".to_owned()),
            );
        }
        let max_connections_raw = match raw.max_connections {
            Some(m) => m,
            None => {
                return Err(
                    ConfigError::ParseConfigError(
                        "missing or invalid field: server.max_connections".to_owned(),
                    ),
                );
            },
        };
        if max_connections_raw > 0xFFFF_FFFF {
            return Err(
                ConfigError::ParseConfigError(
                    "missing or invalid field: server.max_connections".to_owned(),
                ),
            );
        }
        let tls_enabled = match raw.tls_enabled {
            Some(b) => b,
            None => {
                return Err(
                    ConfigError::ParseConfigError(
                        "missing or invalid field: server.tls.enabled".to_owned(),
                    ),
                );
            },
        };
        let tls_cert_path = match raw.tls_cert_path {
            Some(s) => s,
            None => {
                return Err(
                    ConfigError::ParseConfigError(
                        "missing or invalid field: server.tls.cert_path".to_owned(),
                    ),
                );
            },
        };
        let tls_key_path = match raw.tls_key_path {
            Some(s) => s,
            None => {
                return Err(
                    ConfigError::ParseConfigError(
                        "missing or invalid field: server.tls.key_path".to_owned(),
                    ),
                );
            },
        };
        let database_url = match raw.database_url {
            Some(s) => s,
            None => {
                return Err(
                    ConfigError::ParseConfigError(
                        "missing or invalid field: database.url".to_owned(),
                    ),
                );
            },
        };
        let database_max_connections_raw = match raw.database_max_connections {
            Some(m) => m,
            None => {
                return Err(
                    ConfigError::ParseConfigError(
                        "missing or invalid field: database.max_connections".to_owned(),
                    ),
                );
            },
        };
        if database_max_connections_raw > 0xFFFF_FFFF {
            return Err(
                ConfigError::ParseConfigError(
                    "missing or invalid field: database.max_connections".to_owned(),
                ),
            );
        }
        let encryption_key = match raw.encryption_key {
            Some(s) => s,
            None => {
                return Err(
                    ConfigError::ParseConfigError(
                        "missing or invalid field: security.encryption_key".to_owned(),
                    ),
                );
            },
        };
        let token_expiration = match raw.token_expiration {
            Some(t) => t,
            None => {
                return Err(
                    ConfigError::ParseConfigError(
                        "missing or invalid field: security.token_expiration".to_owned(),
                    ),
                );
            },
        };
        let lifespan = match raw.lifespan {
            Some(l) => l,
            None => {
                return Err(
                    ConfigError::ParseConfigError(
                        "missing or invalid field: message.lifespan".to_owned(),
                    ),
                );
            },
        };
        Ok(
            AppConfig {
                server: ServerConfig {
                    bind_address,
                    port: port_raw as u16,
                    max_connections: max_connections_raw as u32,
                    tls: TlsConfig {
                        enabled: tls_enabled,
                        cert_path: tls_cert_path,
                        key_path: tls_key_path,
                    },
                },
                database: DatabaseConfig {
                    url: database_url,
                    max_connections: database_max_connections_raw as u32,
                },
                security: SecurityConfig { encryption_key, token_expiration },
                message: MessageConfig { lifespan },
            },
        )
    }

    /// Loads the configuration from the text of a configuration file: parses
    /// it as YAML and builds the configuration from its fields. It succeeds
    /// exactly when the text parses and carries the whole schema, and then
    /// returns the fields the text holds; every failure is a parse error (the
    /// other error kinds arise before the text exists).
    pub fn new(content: &str) -> (r: Result<AppConfig, ConfigError>)
        ensures
            r is Ok <==> spec_config_ok(content@),
            r matches Ok(c) ==> {
                let d = yaml_doc_of(content@);
                &&& c.server.bind_address@ == spec_bind_address(d).unwrap()
                &&& c.server.port as int == spec_port(d).unwrap() as int
                &&& c.server.max_connections as int == spec_max_connections(d).unwrap() as int
                &&& c.server.tls.enabled == spec_tls_enabled(d).unwrap()
                &&& c.server.tls.cert_path@ == spec_tls_cert_path(d).unwrap()
                &&& c.server.tls.key_path@ == spec_tls_key_path(d).unwrap()
                &&& c.database.url@ == spec_database_url(d).unwrap()
                &&& c.database.max_connections as int == spec_database_max_connections(
                    d,
                ).unwrap() as int
                &&& c.security.encryption_key@ == spec_encryption_key(d).unwrap()
                &&& c.security.token_expiration == spec_token_expiration(d).unwrap()
                &&& c.message.lifespan == spec_lifespan(d).unwrap()
            },
            r matches Err(e) ==> e is ParseConfigError,
    {
        match yaml_parse(content) {
            Err(msg) => Err(ConfigError::ParseConfigError(msg)),
            Ok(doc) => {
                let raw = extract_raw(&doc);
                proof {
                    assert(yaml_doc_of(content@) == Some(doc));
                    assert(raw_complete(raw) == spec_config_ok(content@));
                }
                AppConfig::from_raw(raw)
            },
        }
    }
}

} // verus!
