use crate::config::{
    default_base_delay, default_connection, default_connection_spec, default_enabled,
    default_max_delay, default_max_retries, AppConfig, AppConfigView, ConnectionConfig, Endpoint,
    EndpointView,
};
use crate::json::{
    as_bool, as_i64, as_string, as_u64, bool_of, field, field_of, i64_of, is_object, str_of,
    to_document, u64_of, Json,
};
use serde_json::Value;
use vstd::prelude::*;

verus! {

/// A configuration key as found in the file: absent, of the wrong type, or a value.
#[derive(Clone, Copy, Debug, PartialEq, Eq)]
pub enum Field<T> {
    Missing,
    Invalid,
    Present(T),
}

/// The keys of the configuration file.
#[derive(Clone, Copy, Debug, PartialEq, Eq, Structural)]
pub enum ConfigField {
    Endpoints,
    Connection,
    Name,
    Server,
    Secret,
    Enabled,
    BaseDelay,
    MaxDelay,
    MaxRetries,
}

/// Why a configuration could not be loaded.
#[derive(Clone, Debug, PartialEq, Eq)]
pub enum ConfigError {
    /// The file could not be read or parsed; the message says why.
    Load(String),
    /// A required key is absent.
    Missing(ConfigField),
    /// A key holds a value of the wrong type or range.
    Invalid(ConfigField),
}

/// The `[connection]` table as found.
#[derive(Clone, Copy, Debug, PartialEq, Eq)]
pub struct RawConnection {
    pub base_delay: Field<u64>,
    pub max_delay: Field<u64>,
    pub max_retries: Field<i64>,
}

/// One `[[endpoints]]` entry as found.
#[derive(Clone, Debug, PartialEq, Eq)]
pub struct RawEndpoint {
    pub name: Field<String>,
    pub server: Field<String>,
    pub secret: Field<String>,
    pub enabled: Field<bool>,
    pub connection: Field<RawConnection>,
}

/// The whole file as found.
#[derive(Clone, Debug, PartialEq, Eq)]
pub struct RawConfig {
    pub endpoints: Field<Vec<Field<RawEndpoint>>>,
    pub connection: Field<RawConnection>,
}

pub open spec fn u64_or(f: Field<u64>, default: u64, key: ConfigField) -> Result<u64, ConfigError> {
    match f {
        Field::Missing => Ok(default),
        Field::Invalid => Err(ConfigError::Invalid(key)),
        Field::Present(v) => Ok(v),
    }
}

pub open spec fn retries_spec(f: Field<i64>) -> Result<i32, ConfigError> {
    match f {
        Field::Missing => Ok(-1i32),
        Field::Invalid => Err(ConfigError::Invalid(ConfigField::MaxRetries)),
        Field::Present(v) => if i32::MIN <= v <= i32::MAX {
            Ok(v as i32)
        } else {
            Err(ConfigError::Invalid(ConfigField::MaxRetries))
        },
    }
}

/// Each key of `[connection]` falls back to its default when absent.
pub open spec fn connection_spec(raw: RawConnection) -> Result<ConnectionConfig, ConfigError> {
    match u64_or(raw.base_delay, 1, ConfigField::BaseDelay) {
        Err(e) => Err(e),
        Ok(b) => match u64_or(raw.max_delay, 60, ConfigField::MaxDelay) {
            Err(e) => Err(e),
            Ok(m) => match retries_spec(raw.max_retries) {
                Err(e) => Err(e),
                Ok(r) => Ok(ConnectionConfig { base_delay: b, max_delay: m, max_retries: r }),
            },
        },
    }
}

pub open spec fn required_spec(f: Field<String>, key: ConfigField) -> Result<Seq<char>, ConfigError> {
    match f {
        Field::Missing => Err(ConfigError::Missing(key)),
        Field::Invalid => Err(ConfigError::Invalid(key)),
        Field::Present(s) => Ok(s@),
    }
}

pub open spec fn enabled_spec(f: Field<bool>) -> Result<bool, ConfigError> {
    match f {
        Field::Missing => Ok(true),
        Field::Invalid => Err(ConfigError::Invalid(ConfigField::Enabled)),
        Field::Present(b) => Ok(b),
    }
}

pub open spec fn endpoint_connection_spec(f: Field<RawConnection>) -> Result<Option<ConnectionConfig>, ConfigError> {
    match f {
        Field::Missing => Ok(None),
        Field::Invalid => Err(ConfigError::Invalid(ConfigField::Connection)),
        Field::Present(rc) => match connection_spec(rc) {
            Ok(c) => Ok(Some(c)),
            Err(e) => Err(e),
        },
    }
}

/// `name`, `server` and `secret` are required; `enabled` defaults to true and
/// the endpoint's own `connection` to none.
pub open spec fn endpoint_spec(raw: RawEndpoint) -> Result<EndpointView, ConfigError> {
    match required_spec(raw.name, ConfigField::Name) {
        Err(e) => Err(e),
        Ok(name) => match required_spec(raw.server, ConfigField::Server) {
            Err(e) => Err(e),
            Ok(server) => match required_spec(raw.secret, ConfigField::Secret) {
                Err(e) => Err(e),
                Ok(secret) => match enabled_spec(raw.enabled) {
                    Err(e) => Err(e),
                    Ok(enabled) => match endpoint_connection_spec(raw.connection) {
                        Err(e) => Err(e),
                        Ok(connection) => Ok(
                            EndpointView { name, server, secret, enabled, connection },
                        ),
                    },
                },
            },
        },
    }
}

/// The entries in order; the first entry in error decides the error.
pub open spec fn endpoints_spec(s: Seq<Field<RawEndpoint>>) -> Result<Seq<EndpointView>, ConfigError>
    decreases s.len(),
{
    if s.len() == 0 {
        Ok(seq![])
    } else {
        match endpoints_spec(s.drop_last()) {
            Err(e) => Err(e),
            Ok(prev) => match s.last() {
                Field::Present(raw) => match endpoint_spec(raw) {
                    Ok(e) => Ok(prev.push(e)),
                    Err(e) => Err(e),
                },
                _ => Err(ConfigError::Invalid(ConfigField::Endpoints)),
            },
        }
    }
}

pub open spec fn list_view(f: Field<Vec<Field<RawEndpoint>>>) -> Field<Seq<Field<RawEndpoint>>> {
    match f {
        Field::Missing => Field::Missing,
        Field::Invalid => Field::Invalid,
        Field::Present(list) => Field::Present(list@),
    }
}

/// `endpoints` is required; `connection` defaults to the global default policy.
pub open spec fn config_parts_spec(
    endpoints: Field<Seq<Field<RawEndpoint>>>,
    connection: Field<RawConnection>,
) -> Result<AppConfigView, ConfigError> {
    match endpoints {
        Field::Missing => Err(ConfigError::Missing(ConfigField::Endpoints)),
        Field::Invalid => Err(ConfigError::Invalid(ConfigField::Endpoints)),
        Field::Present(list) => match endpoints_spec(list) {
            Err(e) => Err(e),
            Ok(endpoints) => match connection {
                Field::Missing => Ok(
                    AppConfigView { endpoints, connection: default_connection_spec() },
                ),
                Field::Invalid => Err(ConfigError::Invalid(ConfigField::Connection)),
                Field::Present(rc) => match connection_spec(rc) {
                    Err(e) => Err(e),
                    Ok(connection) => Ok(AppConfigView { endpoints, connection }),
                },
            },
        },
    }
}

pub open spec fn config_spec(raw: RawConfig) -> Result<AppConfigView, ConfigError> {
    config_parts_spec(list_view(raw.endpoints), raw.connection)
}

pub open spec fn endpoint_result_view(r: Result<Endpoint, ConfigError>) -> Result<EndpointView, ConfigError> {
    match r {
        Ok(e) => Ok(e@),
        Err(e) => Err(e),
    }
}

pub open spec fn config_result_view(r: Result<AppConfig, ConfigError>) -> Result<AppConfigView, ConfigError> {
    match r {
        Ok(c) => Ok(c@),
        Err(e) => Err(e),
    }
}

fn u64_or_default(f: Field<u64>, default: u64, key: ConfigField) -> (r: Result<u64, ConfigError>)
    ensures
        r == u64_or(f, default, key),
{
    match f {
        Field::Missing => Ok(default),
        Field::Invalid => Err(ConfigError::Invalid(key)),
        Field::Present(v) => Ok(v),
    }
}

fn required(f: Field<String>, key: ConfigField) -> (r: Result<String, ConfigError>)
    ensures
        match r {
            Ok(s) => required_spec(f, key) == Ok::<Seq<char>, ConfigError>(s@),
            Err(e) => required_spec(f, key) == Err::<Seq<char>, ConfigError>(e),
        },
{
    match f {
        Field::Missing => Err(ConfigError::Missing(key)),
        Field::Invalid => Err(ConfigError::Invalid(key)),
        Field::Present(s) => Ok(s),
    }
}

/// Once a prefix of the entries is in error, so is the whole list, with the same error.
proof fn lemma_endpoints_error_persists(s: Seq<Field<RawEndpoint>>, k: int, e: ConfigError)
    requires
        0 <= k <= s.len(),
        endpoints_spec(s.subrange(0, k)) == Err::<Seq<EndpointView>, ConfigError>(e),
    ensures
        endpoints_spec(s) == Err::<Seq<EndpointView>, ConfigError>(e),
    decreases s.len() - k,
{
    if k < s.len() {
        assert(s.subrange(0, k + 1).drop_last() =~= s.subrange(0, k));
        lemma_endpoints_error_persists(s, k + 1, e);
    } else {
        assert(s.subrange(0, k) =~= s);
    }
}

impl ConnectionConfig {
    /// The policy a `[connection]` table describes.
    pub fn from_raw(raw: RawConnection) -> (r: Result<ConnectionConfig, ConfigError>)
        ensures
            r == connection_spec(raw),
    {
        let base_delay = match u64_or_default(
            raw.base_delay,
            default_base_delay(),
            ConfigField::BaseDelay,
        ) {
            Ok(v) => v,
            Err(e) => return Err(e),
        };
        let max_delay = match u64_or_default(raw.max_delay, default_max_delay(), ConfigField::MaxDelay) {
            Ok(v) => v,
            Err(e) => return Err(e),
        };
        let max_retries = match raw.max_retries {
            Field::Missing => default_max_retries(),
            Field::Invalid => return Err(ConfigError::Invalid(ConfigField::MaxRetries)),
            Field::Present(v) => {
                if v < i32::MIN as i64 || v > i32::MAX as i64 {
                    return Err(ConfigError::Invalid(ConfigField::MaxRetries));
                }
                v as i32
            },
        };
        Ok(ConnectionConfig { base_delay, max_delay, max_retries })
    }
}

impl Endpoint {
    /// The endpoint an `[[endpoints]]` entry describes.
    pub fn from_raw(raw: RawEndpoint) -> (r: Result<Endpoint, ConfigError>)
        ensures
            endpoint_result_view(r) == endpoint_spec(raw),
    {
        let name = match required(raw.name, ConfigField::Name) {
            Ok(s) => s,
            Err(e) => return Err(e),
        };
        let server = match required(raw.server, ConfigField::Server) {
            Ok(s) => s,
            Err(e) => return Err(e),
        };
        let secret = match required(raw.secret, ConfigField::Secret) {
            Ok(s) => s,
            Err(e) => return Err(e),
        };
        let enabled = match raw.enabled {
            Field::Missing => default_enabled(),
            Field::Invalid => return Err(ConfigError::Invalid(ConfigField::Enabled)),
            Field::Present(b) => b,
        };
        let connection = match raw.connection {
            Field::Missing => None,
            Field::Invalid => return Err(ConfigError::Invalid(ConfigField::Connection)),
            Field::Present(rc) => match ConnectionConfig::from_raw(rc) {
                Ok(c) => Some(c),
                Err(e) => return Err(e),
            },
        };
        Ok(Endpoint { name, server, secret, enabled, connection })
    }
}

impl AppConfig {
    /// The configuration a parsed file describes.
    pub fn from_raw(raw: RawConfig) -> (r: Result<AppConfig, ConfigError>)
        ensures
            config_result_view(r) == config_spec(raw),
    {
        let list = match raw.endpoints {
            Field::Missing => return Err(ConfigError::Missing(ConfigField::Endpoints)),
            Field::Invalid => return Err(ConfigError::Invalid(ConfigField::Endpoints)),
            Field::Present(list) => list,
        };
        let ghost entries = list@;
        assert(raw.endpoints is Present && raw.endpoints->Present_0@ == entries);
        let n = list.len();
        let mut rest = list;
        let mut endpoints: Vec<Endpoint> = Vec::new();
        let mut i: usize = 0;
        proof {
            assert(entries.subrange(0, 0) =~= Seq::<Field<RawEndpoint>>::empty());
            assert(endpoints@.map_values(|e: Endpoint| e@) =~= Seq::<EndpointView>::empty());
        }
        while i < n
            invariant
                raw.endpoints is Present,
                raw.endpoints->Present_0@ == entries,
                n == entries.len(),
                i <= n,
                rest@ == entries.subrange(i as int, n as int),
                endpoints_spec(entries.subrange(0, i as int)) == Ok::<Seq<EndpointView>, ConfigError>(
                    endpoints@.map_values(|e: Endpoint| e@),
                ),
            decreases n - i,
        {
            let ghost sub = entries.subrange(0, i as int + 1);
            proof {
                assert(sub.drop_last() =~= entries.subrange(0, i as int));
                assert(sub.last() == entries[i as int]);
                assert(rest@[0] == entries[i as int]);
            }
            let item = rest.remove(0);
            match item {
                Field::Present(raw_endpoint) => match Endpoint::from_raw(raw_endpoint) {
                    Ok(e) => {
                        let ghost before = endpoints@;
                        endpoints.push(e);
                        proof {
                            assert(endpoints@.map_values(|e: Endpoint| e@) =~= before.map_values(
                                |e: Endpoint| e@,
                            ).push(e@));
                        }
                    },
                    Err(e) => {
                        proof {
                            lemma_endpoints_error_persists(entries, i as int + 1, e);
                        }
                        return Err(e);
                    },
                },
                _ => {
                    proof {
                        lemma_endpoints_error_persists(
                            entries,
                            i as int + 1,
                            ConfigError::Invalid(ConfigField::Endpoints),
                        );
                    }
                    return Err(ConfigError::Invalid(ConfigField::Endpoints));
                },
            }
            proof {
                assert(rest@ =~= entries.subrange(i as int + 1, n as int));
            }
            i = i + 1;
        }
        proof {
            assert(entries.subrange(0, n as int) =~= entries);
        }
        let connection = match raw.connection {
            Field::Missing => default_connection(),
            Field::Invalid => return Err(ConfigError::Invalid(ConfigField::Connection)),
            Field::Present(rc) => match ConnectionConfig::from_raw(rc) {
                Ok(c) => c,
                Err(e) => return Err(e),
            },
        };
        Ok(AppConfig { endpoints, connection })
    }
}

pub open spec fn u64_field_spec(obj: Json, key: Seq<char>) -> Field<u64> {
    match field_of(obj, key) {
        None => Field::Missing,
        Some(v) => match u64_of(v) {
            Some(n) => Field::Present(n),
            None => Field::Invalid,
        },
    }
}

pub open spec fn i64_field_spec(obj: Json, key: Seq<char>) -> Field<i64> {
    match field_of(obj, key) {
        None => Field::Missing,
        Some(v) => match i64_of(v) {
            Some(n) => Field::Present(n),
            None => Field::Invalid,
        },
    }
}

pub open spec fn bool_field_spec(obj: Json, key: Seq<char>) -> Field<bool> {
    match field_of(obj, key) {
        None => Field::Missing,
        Some(v) => match bool_of(v) {
            Some(b) => Field::Present(b),
            None => Field::Invalid,
        },
    }
}

pub open spec fn string_field_spec(obj: Json, key: Seq<char>) -> Field<String> {
    match field_of(obj, key) {
        None => Field::Missing,
        Some(v) => match str_of(v) {
            Some(s) => Field::Present(s),
            None => Field::Invalid,
        },
    }
}

pub open spec fn connection_field_spec(obj: Json, key: Seq<char>) -> Field<RawConnection> {
    match field_of(obj, key) {
        None => Field::Missing,
        Some(v) => if v is Object {
            Field::Present(
                RawConnection {
                    base_delay: u64_field_spec(v, "base_delay"@),
                    max_delay: u64_field_spec(v, "max_delay"@),
                    max_retries: i64_field_spec(v, "max_retries"@),
                },
            )
        } else {
            Field::Invalid
        },
    }
}

pub open spec fn raw_endpoint_spec(v: Json) -> Field<RawEndpoint> {
    if v is Object {
        Field::Present(
            RawEndpoint {
                name: string_field_spec(v, "name"@),
                server: string_field_spec(v, "server"@),
                secret: string_field_spec(v, "secret"@),
                enabled: bool_field_spec(v, "enabled"@),
                connection: connection_field_spec(v, "connection"@),
            },
        )
    } else {
        Field::Invalid
    }
}

pub open spec fn raw_endpoints_spec(tree: Json) -> Field<Seq<Field<RawEndpoint>>> {
    match field_of(tree, "endpoints"@) {
        None => Field::Missing,
        Some(Json::Array(items)) => Field::Present(
            items@.map_values(|x: Json| raw_endpoint_spec(x)),
        ),
        Some(_) => Field::Invalid,
    }
}

/// The configuration a parsed document describes.
pub open spec fn document_spec(tree: Json) -> Result<AppConfigView, ConfigError> {
    config_parts_spec(raw_endpoints_spec(tree), connection_field_spec(tree, "connection"@))
}

fn u64_field(obj: &Json, key: &str) -> (r: Field<u64>)
    ensures
        r == u64_field_spec(*obj, key@),
{
    match field(obj, key) {
        None => Field::Missing,
        Some(v) => match as_u64(v) {
            Some(n) => Field::Present(n),
            None => Field::Invalid,
        },
    }
}

fn i64_field(obj: &Json, key: &str) -> (r: Field<i64>)
    ensures
        r == i64_field_spec(*obj, key@),
{
    match field(obj, key) {
        None => Field::Missing,
        Some(v) => match as_i64(v) {
            Some(n) => Field::Present(n),
            None => Field::Invalid,
        },
    }
}

fn string_field(obj: &Json, key: &str) -> (r: Field<String>)
    ensures
        r == string_field_spec(*obj, key@),
{
    match field(obj, key) {
        None => Field::Missing,
        Some(v) => match as_string(v) {
            Some(s) => Field::Present(s),
            None => Field::Invalid,
        },
    }
}

fn bool_field(obj: &Json, key: &str) -> (r: Field<bool>)
    ensures
        r == bool_field_spec(*obj, key@),
{
    match field(obj, key) {
        None => Field::Missing,
        Some(v) => match as_bool(v) {
            Some(b) => Field::Present(b),
            None => Field::Invalid,
        },
    }
}

fn connection_field(obj: &Json, key: &str) -> (r: Field<RawConnection>)
    ensures
        r == connection_field_spec(*obj, key@),
{
    proof {
        reveal_strlit("base_delay");
        reveal_strlit("max_delay");
        reveal_strlit("max_retries");
    }
    match field(obj, key) {
        None => Field::Missing,
        Some(v) => {
            if !is_object(v) {
                return Field::Invalid;
            }
            Field::Present(
                RawConnection {
                    base_delay: u64_field(v, "base_delay"),
                    max_delay: u64_field(v, "max_delay"),
                    max_retries: i64_field(v, "max_retries"),
                },
            )
        },
    }
}

fn raw_endpoint(v: &Json) -> (r: Field<RawEndpoint>)
    ensures
        r == raw_endpoint_spec(*v),
{
    if !is_object(v) {
        return Field::Invalid;
    }
    Field::Present(
        RawEndpoint {
            name: string_field(v, "name"),
            server: string_field(v, "server"),
            secret: string_field(v, "secret"),
            enabled: bool_field(v, "enabled"),
            connection: connection_field(v, "connection"),
        },
    )
}

/// The keys of a parsed configuration document, each as found.
pub fn raw_config(tree: &Json) -> (r: RawConfig)
    ensures
        list_view(r.endpoints) == raw_endpoints_spec(*tree),
        r.connection == connection_field_spec(*tree, "connection"@),
{
    let endpoints = match field(tree, "endpoints") {
        None => Field::Missing,
        Some(Json::Array(items)) => {
            let mut entries: Vec<Field<RawEndpoint>> = Vec::new();
            let n = items.len();
            let mut i: usize = 0;
            while i < n
                invariant
                    n == items@.len(),
                    i <= n,
                    entries@ == items@.subrange(0, i as int).map_values(
                        |x: Json| raw_endpoint_spec(x),
                    ),
                decreases n - i,
            {
                let e = raw_endpoint(&items[i]);
                let ghost before = entries@;
                entries.push(e);
                proof {
                    assert(entries@ =~= items@.subrange(0, i as int + 1).map_values(
                        |x: Json| raw_endpoint_spec(x),
                    ));
                }
                i = i + 1;
            }
            proof {
                assert(items@.subrange(0, n as int) =~= items@);
            }
            Field::Present(entries)
        },
        Some(_) => Field::Invalid,
    };
    RawConfig { endpoints, connection: connection_field(tree, "connection") }
}

/// The parse of TOML text; `None` when it is not TOML.
pub uninterp spec fn toml_of(text: Seq<char>) -> Option<Json>;

/// Relies on the `config` crate (`Config::builder`, `add_source` with
/// `File::from_str` in TOML format, `build`, `try_deserialize`): parses TOML
/// text; the document depends on the text alone, the error's text says why.
#[verifier::external_body]
fn parse_toml(text: &str) -> (r: Result<Json, String>)
    ensures
        match r {
            Ok(d) => toml_of(text@) == Some(d),
            Err(_) => toml_of(text@) is None,
        },
{
    let source = config::File::from_str(text, config::FileFormat::Toml);
    match config::Config::builder().add_source(source).build() {
        Ok(c) => match c.try_deserialize::<Value>() {
            Ok(tree) => Ok(to_document(tree)),
            Err(e) => Err(e.to_string()),
        },
        Err(e) => Err(e.to_string()),
    }
}

/// Relies on the `config` crate (`Config::builder`, `add_source` with
/// `File::with_name`, `build`, `try_deserialize`): reads the file at `path`
/// (extension optional) and parses it; the error's text otherwise.
#[verifier::external_body]
fn load_file(path: &str) -> (r: Result<Json, String>) {
    let built = config::Config::builder().add_source(config::File::with_name(path)).build();
    match built {
        Ok(c) => match c.try_deserialize::<Value>() {
            Ok(tree) => Ok(to_document(tree)),
            Err(e) => Err(e.to_string()),
        },
        Err(e) => Err(e.to_string()),
    }
}

impl AppConfig {
    /// The configuration a parsed document describes.
    pub fn from_document(tree: &Json) -> (r: Result<AppConfig, ConfigError>)
        ensures
            config_result_view(r) == document_spec(*tree),
    {
        let raw = raw_config(tree);
        AppConfig::from_raw(raw)
    }

    /// Parses a configuration from TOML text: text that is not TOML is `Load`,
    /// anything else is decided by the schema.
    pub fn from_toml(text: &str) -> (r: Result<AppConfig, ConfigError>)
        ensures
            match toml_of(text@) {
                Some(tree) => config_result_view(r) == document_spec(tree),
                None => r matches Err(ConfigError::Load(_)),
            },
    {
        match parse_toml(text) {
            Ok(tree) => AppConfig::from_document(&tree),
            Err(msg) => Err(ConfigError::Load(msg)),
        }
    }

    /// Loads the configuration file at `path`: a read or parse failure is
    /// `Load`; otherwise the result is what the schema gives for the
    /// document read.
    pub fn from_file(path: &str) -> (r: Result<AppConfig, ConfigError>)
        ensures
            r matches Err(ConfigError::Load(_)) || exists|tree: Json|
                config_result_view(r) == document_spec(tree),
    {
        match load_file(path) {
            Ok(tree) => {
                let r = AppConfig::from_document(&tree);
                assert(config_result_view(r) == document_spec(tree));
                r
            },
            Err(msg) => Err(ConfigError::Load(msg)),
        }
    }
}

} // verus!
