//! The configuration resolver: from a loosely typed configuration document and
//! the values found in the environment to a complete connection configuration.
//!
//! Each field has its own chain of sources, and the first one that is present
//! wins. Only the token has no default.

use crate::error::{result_value, BridgeError, ErrorValue};
use crate::json::{member, text_option, Json, JsonNumber, JsonValue};
use vstd::prelude::*;
use vstd::string::*;

verus! {

/// The configuration as the caller wrote it: every field is optional.
#[derive(Debug, PartialEq, Eq)]
pub struct ConfigInput {
    pub ip: Option<String>,
    pub host: Option<String>,
    pub port: Option<u16>,
    pub token: Option<String>,
    pub tenant_id: Option<String>,
    pub tenant: Option<String>,
    pub tenant_id_env: Option<String>,
    pub no_noise: Option<bool>,
    pub connect_timeout_ms: Option<u64>,
    pub request_timeout_ms: Option<u64>,
    pub protocol_version: Option<u16>,
}

/// The mathematical value of a [`ConfigInput`].
pub struct ConfigInputValue {
    pub ip: Option<Seq<char>>,
    pub host: Option<Seq<char>>,
    pub port: Option<u16>,
    pub token: Option<Seq<char>>,
    pub tenant_id: Option<Seq<char>>,
    pub tenant: Option<Seq<char>>,
    pub tenant_id_env: Option<Seq<char>>,
    pub no_noise: Option<bool>,
    pub connect_timeout_ms: Option<u64>,
    pub request_timeout_ms: Option<u64>,
    pub protocol_version: Option<u16>,
}

impl View for ConfigInput {
    type V = ConfigInputValue;

    open spec fn view(&self) -> ConfigInputValue {
        ConfigInputValue {
            ip: text_option(self.ip),
            host: text_option(self.host),
            port: self.port,
            token: text_option(self.token),
            tenant_id: text_option(self.tenant_id),
            tenant: text_option(self.tenant),
            tenant_id_env: text_option(self.tenant_id_env),
            no_noise: self.no_noise,
            connect_timeout_ms: self.connect_timeout_ms,
            request_timeout_ms: self.request_timeout_ms,
            protocol_version: self.protocol_version,
        }
    }
}

/// What the process environment holds for the resolver: the values of
/// `EVENTDBX_HOST`, `EVENTDBX_TOKEN` and `EVENTDBX_TENANT_ID`, where they are
/// set.
#[derive(Debug, PartialEq, Eq)]
pub struct Environment {
    pub host: Option<String>,
    pub token: Option<String>,
    pub tenant_id: Option<String>,
}

/// The mathematical value of an [`Environment`].
pub struct EnvironmentValue {
    pub host: Option<Seq<char>>,
    pub token: Option<Seq<char>>,
    pub tenant_id: Option<Seq<char>>,
}

impl View for Environment {
    type V = EnvironmentValue;

    open spec fn view(&self) -> EnvironmentValue {
        EnvironmentValue {
            host: text_option(self.host),
            token: text_option(self.token),
            tenant_id: text_option(self.tenant_id),
        }
    }
}

/// The resolved configuration of a connection. A port, a protocol version or a
/// connect timeout that is absent leaves the client's own default in place; an
/// absent request timeout means that requests do not time out.
#[derive(Debug, PartialEq, Eq)]
pub struct ConnectionConfig {
    pub host: String,
    pub port: Option<u16>,
    pub token: String,
    pub tenant: String,
    pub connect_timeout_ms: Option<u64>,
    pub request_timeout_ms: Option<u64>,
    pub protocol_version: Option<u16>,
    pub noise_enabled: bool,
}

/// The mathematical value of a [`ConnectionConfig`].
pub struct ConnectionConfigValue {
    pub host: Seq<char>,
    pub port: Option<u16>,
    pub token: Seq<char>,
    pub tenant: Seq<char>,
    pub connect_timeout_ms: Option<u64>,
    pub request_timeout_ms: Option<u64>,
    pub protocol_version: Option<u16>,
    pub noise_enabled: bool,
}

impl View for ConnectionConfig {
    type V = ConnectionConfigValue;

    open spec fn view(&self) -> ConnectionConfigValue {
        ConnectionConfigValue {
            host: self.host@,
            port: self.port,
            token: self.token@,
            tenant: self.tenant@,
            connect_timeout_ms: self.connect_timeout_ms,
            request_timeout_ms: self.request_timeout_ms,
            protocol_version: self.protocol_version,
            noise_enabled: self.noise_enabled,
        }
    }
}

impl ConnectionConfig {
    /// A resolved configuration carries a token.
    pub open spec fn wf(&self) -> bool {
        self.token@.len() > 0
    }
}

/// A text field of the document: absent where the member is missing or null,
/// and malformed where it is anything but a string.
pub open spec fn text_field(doc: JsonValue, key: Seq<char>) -> Result<Option<Seq<char>>, ()> {
    match member(doc, key) {
        None => Ok(None),
        Some(JsonValue::Null) => Ok(None),
        Some(JsonValue::String(s)) => Ok(Some(s)),
        Some(_) => Err(()),
    }
}

/// A boolean field of the document.
pub open spec fn bool_field(doc: JsonValue, key: Seq<char>) -> Result<Option<bool>, ()> {
    match member(doc, key) {
        None => Ok(None),
        Some(JsonValue::Null) => Ok(None),
        Some(JsonValue::Bool(b)) => Ok(Some(b)),
        Some(_) => Err(()),
    }
}

/// A 64-bit field of the document: only a non-negative integer is accepted.
pub open spec fn u64_field(doc: JsonValue, key: Seq<char>) -> Result<Option<u64>, ()> {
    match member(doc, key) {
        None => Ok(None),
        Some(JsonValue::Null) => Ok(None),
        Some(JsonValue::Number(JsonNumber::Unsigned(n))) => Ok(Some(n)),
        Some(_) => Err(()),
    }
}

/// A 16-bit field of the document: only a non-negative integer below 65536 is
/// accepted.
pub open spec fn u16_field(doc: JsonValue, key: Seq<char>) -> Result<Option<u16>, ()> {
    match u64_field(doc, key) {
        Ok(Some(n)) => if n <= u16::MAX {
            Ok(Some(n as u16))
        } else {
            Err(())
        },
        Ok(None) => Ok(None),
        Err(_) => Err(()),
    }
}

/// The fields of a configuration document, or the key of the first field that
/// is malformed, the fields taken in the alphabetical order of their keys.
/// Members under other keys are ignored, and a document that is no object has
/// no fields.
pub open spec fn config_input(doc: JsonValue) -> Result<ConfigInputValue, Seq<char>> {
    if u64_field(doc, "connectTimeoutMs"@) is Err {
        Err("connectTimeoutMs"@)
    } else if text_field(doc, "host"@) is Err {
        Err("host"@)
    } else if text_field(doc, "ip"@) is Err {
        Err("ip"@)
    } else if bool_field(doc, "noNoise"@) is Err {
        Err("noNoise"@)
    } else if u16_field(doc, "port"@) is Err {
        Err("port"@)
    } else if u16_field(doc, "protocolVersion"@) is Err {
        Err("protocolVersion"@)
    } else if u64_field(doc, "requestTimeoutMs"@) is Err {
        Err("requestTimeoutMs"@)
    } else if text_field(doc, "tenant"@) is Err {
        Err("tenant"@)
    } else if text_field(doc, "tenantId"@) is Err {
        Err("tenantId"@)
    } else if text_field(doc, "tenantIdEnv"@) is Err {
        Err("tenantIdEnv"@)
    } else if text_field(doc, "token"@) is Err {
        Err("token"@)
    } else {
        Ok(
            ConfigInputValue {
                ip: text_field(doc, "ip"@)->Ok_0,
                host: text_field(doc, "host"@)->Ok_0,
                port: u16_field(doc, "port"@)->Ok_0,
                token: text_field(doc, "token"@)->Ok_0,
                tenant_id: text_field(doc, "tenantId"@)->Ok_0,
                tenant: text_field(doc, "tenant"@)->Ok_0,
                tenant_id_env: text_field(doc, "tenantIdEnv"@)->Ok_0,
                no_noise: bool_field(doc, "noNoise"@)->Ok_0,
                connect_timeout_ms: u64_field(doc, "connectTimeoutMs"@)->Ok_0,
                request_timeout_ms: u64_field(doc, "requestTimeoutMs"@)->Ok_0,
                protocol_version: u16_field(doc, "protocolVersion"@)->Ok_0,
            },
        )
    }
}

/// The first of two optional values that is present.
pub open spec fn or_else(first: Option<Seq<char>>, second: Option<Seq<char>>) -> Option<
    Seq<char>,
> {
    match first {
        Some(_) => first,
        None => second,
    }
}

/// The host: `host`, then `ip`, then the environment, then `127.0.0.1`.
pub open spec fn resolved_host(cfg: ConfigInputValue, env: EnvironmentValue) -> Seq<char> {
    match or_else(cfg.host, or_else(cfg.ip, env.host)) {
        Some(host) => host,
        None => "127.0.0.1"@,
    }
}

/// The token: `token`, then the environment; there is no default.
pub open spec fn resolved_token(cfg: ConfigInputValue, env: EnvironmentValue) -> Option<
    Seq<char>,
> {
    or_else(cfg.token, env.token)
}

/// The tenant: `tenantId`, then `tenant`, then `tenantIdEnv` (a value, not the
/// name of a variable), then the environment, then `default`.
pub open spec fn resolved_tenant(cfg: ConfigInputValue, env: EnvironmentValue) -> Seq<char> {
    match or_else(cfg.tenant_id, or_else(cfg.tenant, or_else(cfg.tenant_id_env, env.tenant_id))) {
        Some(tenant) => tenant,
        None => "default"@,
    }
}

/// The connection configuration that the fields and the environment resolve
/// to. It fails where no token is found, or the token found is empty.
pub open spec fn connection_config(cfg: ConfigInputValue, env: EnvironmentValue) -> Result<
    ConnectionConfigValue,
    ErrorValue,
> {
    match resolved_token(cfg, env) {
        Some(token) => if token.len() > 0 {
            Ok(
                ConnectionConfigValue {
                    host: resolved_host(cfg, env),
                    port: cfg.port,
                    token,
                    tenant: resolved_tenant(cfg, env),
                    connect_timeout_ms: cfg.connect_timeout_ms,
                    request_timeout_ms: cfg.request_timeout_ms,
                    protocol_version: cfg.protocol_version,
                    noise_enabled: cfg.no_noise != Some(true),
                },
            )
        } else {
            Err(ErrorValue::MissingToken)
        },
        None => Err(ErrorValue::MissingToken),
    }
}

/// The connection configuration of a document: an object is read field by
/// field, null stands for an object without members, and anything else is
/// refused.
pub open spec fn client_config(doc: JsonValue, env: EnvironmentValue) -> Result<
    ConnectionConfigValue,
    ErrorValue,
> {
    if doc is Object || doc is Null {
        match config_input(doc) {
            Ok(cfg) => connection_config(cfg, env),
            Err(key) => Err(ErrorValue::InvalidConfig(Some(key))),
        }
    } else {
        Err(ErrorValue::InvalidConfig(None))
    }
}

/// Without a token in the document and in the environment, no configuration
/// is resolved: a document whose fields are well-formed fails with
/// `MissingToken`.
pub proof fn lemma_missing_token(doc: JsonValue, env: EnvironmentValue)
    requires
        doc is Object || doc is Null,
        config_input(doc) is Ok,
        text_field(doc, "token"@) == Ok::<Option<Seq<char>>, ()>(None),
        env.token is None,
    ensures
        client_config(doc, env) == Err::<ConnectionConfigValue, ErrorValue>(
            ErrorValue::MissingToken,
        ),
{
}

/// The value of a decoded field.
pub open spec fn text_field_result(r: Result<Option<String>, BridgeError>) -> Result<
    Option<Seq<char>>,
    (),
> {
    match r {
        Ok(t) => Ok(text_option(t)),
        Err(_) => Err(()),
    }
}

/// The failure that names a malformed field.
fn malformed(key: &str) -> (e: BridgeError)
    ensures
        e@ == ErrorValue::InvalidConfig(Some(key@)),
{
    BridgeError::InvalidConfig(Some(String::from_str(key)))
}

/// Reads a text field of the document.
pub fn read_text_field(doc: &Json, key: &str) -> (r: Result<Option<String>, BridgeError>)
    ensures
        text_field_result(r) == text_field(doc@, key@),
        r matches Err(e) ==> e@ == ErrorValue::InvalidConfig(Some(key@)),
{
    match doc.get(key) {
        None => Ok(None),
        Some(v) => match v {
            Json::Null => Ok(None),
            Json::String(s) => Ok(Some(s.clone())),
            _ => Err(malformed(key)),
        },
    }
}

/// Reads a boolean field of the document.
pub fn read_bool_field(doc: &Json, key: &str) -> (r: Result<Option<bool>, BridgeError>)
    ensures
        match r {
            Ok(b) => bool_field(doc@, key@) == Ok::<Option<bool>, ()>(b),
            Err(e) => bool_field(doc@, key@) is Err && e@ == ErrorValue::InvalidConfig(
                Some(key@),
            ),
        },
{
    match doc.get(key) {
        None => Ok(None),
        Some(v) => match v {
            Json::Null => Ok(None),
            Json::Bool(b) => Ok(Some(*b)),
            _ => Err(malformed(key)),
        },
    }
}

/// Reads a 64-bit field of the document.
pub fn read_u64_field(doc: &Json, key: &str) -> (r: Result<Option<u64>, BridgeError>)
    ensures
        match r {
            Ok(n) => u64_field(doc@, key@) == Ok::<Option<u64>, ()>(n),
            Err(e) => u64_field(doc@, key@) is Err && e@ == ErrorValue::InvalidConfig(Some(key@)),
        },
{
    match doc.get(key) {
        None => Ok(None),
        Some(v) => match v {
            Json::Null => Ok(None),
            Json::Number(JsonNumber::Unsigned(n)) => Ok(Some(*n)),
            _ => Err(malformed(key)),
        },
    }
}

/// Reads a 16-bit field of the document.
pub fn read_u16_field(doc: &Json, key: &str) -> (r: Result<Option<u16>, BridgeError>)
    ensures
        match r {
            Ok(n) => u16_field(doc@, key@) == Ok::<Option<u16>, ()>(n),
            Err(e) => u16_field(doc@, key@) is Err && e@ == ErrorValue::InvalidConfig(Some(key@)),
        },
{
    match read_u64_field(doc, key) {
        Ok(Some(n)) => if n <= 65535 {
            Ok(Some(n as u16))
        } else {
            Err(malformed(key))
        },
        Ok(None) => Ok(None),
        Err(e) => Err(e),
    }
}

/// Reads the fields of a configuration document.
pub fn decode_config(doc: &Json) -> (r: Result<ConfigInput, BridgeError>)
    ensures
        match r {
            Ok(cfg) => config_input(doc@) == Ok::<ConfigInputValue, Seq<char>>(cfg@),
            Err(e) => config_input(doc@) matches Err(key) && e@ == ErrorValue::InvalidConfig(
                Some(key),
            ),
        },
{
    let connect_timeout_ms = match read_u64_field(doc, "connectTimeoutMs") {
        Ok(v) => v,
        Err(e) => {
            return Err(e);
        },
    };
    let host = match read_text_field(doc, "host") {
        Ok(v) => v,
        Err(e) => {
            return Err(e);
        },
    };
    let ip = match read_text_field(doc, "ip") {
        Ok(v) => v,
        Err(e) => {
            return Err(e);
        },
    };
    let no_noise = match read_bool_field(doc, "noNoise") {
        Ok(v) => v,
        Err(e) => {
            return Err(e);
        },
    };
    let port = match read_u16_field(doc, "port") {
        Ok(v) => v,
        Err(e) => {
            return Err(e);
        },
    };
    let protocol_version = match read_u16_field(doc, "protocolVersion") {
        Ok(v) => v,
        Err(e) => {
            return Err(e);
        },
    };
    let request_timeout_ms = match read_u64_field(doc, "requestTimeoutMs") {
        Ok(v) => v,
        Err(e) => {
            return Err(e);
        },
    };
    let tenant = match read_text_field(doc, "tenant") {
        Ok(v) => v,
        Err(e) => {
            return Err(e);
        },
    };
    let tenant_id = match read_text_field(doc, "tenantId") {
        Ok(v) => v,
        Err(e) => {
            return Err(e);
        },
    };
    let tenant_id_env = match read_text_field(doc, "tenantIdEnv") {
        Ok(v) => v,
        Err(e) => {
            return Err(e);
        },
    };
    let token = match read_text_field(doc, "token") {
        Ok(v) => v,
        Err(e) => {
            return Err(e);
        },
    };
    Ok(
        ConfigInput {
            ip,
            host,
            port,
            token,
            tenant_id,
            tenant,
            tenant_id_env,
            no_noise,
            connect_timeout_ms,
            request_timeout_ms,
            protocol_version,
        },
    )
}

/// A copy of an optional text.
fn copy_text(text: &Option<String>) -> (r: Option<String>)
    ensures
        text_option(r) == text_option(*text),
{
    match text {
        Some(t) => Some(t.clone()),
        None => None,
    }
}

/// The first of two optional texts that is present.
fn first_text(first: Option<String>, second: Option<String>) -> (r: Option<String>)
    ensures
        text_option(r) == or_else(text_option(first), text_option(second)),
{
    match first {
        Some(t) => Some(t),
        None => second,
    }
}

/// The host to connect to. `host` wins over `ip`, both win over the
/// environment, and without any of them the host is `127.0.0.1`.
pub fn default_host(cfg: &ConfigInput, env: &Environment) -> (host: String)
    ensures
        host@ == resolved_host(cfg@, env@),
        cfg.host matches Some(h) ==> host@ == h@,
        cfg.host is None && cfg.ip is Some ==> host@ == cfg.ip->0@,
        cfg.host is None && cfg.ip is None && env.host is Some ==> host@ == env.host->0@,
        cfg.host is None && cfg.ip is None && env.host is None ==> host@ == "127.0.0.1"@,
{
    let found = first_text(
        copy_text(&cfg.host),
        first_text(copy_text(&cfg.ip), copy_text(&env.host)),
    );
    match found {
        Some(host) => host,
        None => String::from_str("127.0.0.1"),
    }
}

/// The token to authenticate with, if there is one. `token` wins over the
/// environment.
pub fn default_token(cfg: &ConfigInput, env: &Environment) -> (token: Option<String>)
    ensures
        text_option(token) == resolved_token(cfg@, env@),
        cfg.token is None && env.token is None ==> token is None,
{
    first_text(copy_text(&cfg.token), copy_text(&env.token))
}

/// The tenant to work in. `tenantId` wins over `tenant`, that over
/// `tenantIdEnv`, that over the environment, and without any of them the
/// tenant is `default`.
pub fn default_tenant(cfg: &ConfigInput, env: &Environment) -> (tenant: String)
    ensures
        tenant@ == resolved_tenant(cfg@, env@),
{
    let found = first_text(
        copy_text(&cfg.tenant_id),
        first_text(
            copy_text(&cfg.tenant),
            first_text(copy_text(&cfg.tenant_id_env), copy_text(&env.tenant_id)),
        ),
    );
    match found {
        Some(tenant) => tenant,
        None => String::from_str("default"),
    }
}

/// Resolves the fields and the environment into a connection configuration.
pub fn resolve(cfg: &ConfigInput, env: &Environment) -> (r: Result<ConnectionConfig, BridgeError>)
    ensures
        result_value(r) == connection_config(cfg@, env@),
        r matches Ok(c) ==> c.wf(),
        cfg.token is None && env.token is None ==> (r matches Err(e) && e@
            == ErrorValue::MissingToken),
{
    let host = default_host(cfg, env);
    let token = match default_token(cfg, env) {
        Some(token) => token,
        None => {
            return Err(BridgeError::MissingToken);
        },
    };
    if token.as_str().is_empty() {
        return Err(BridgeError::MissingToken);
    }
    let noise_enabled = match cfg.no_noise {
        Some(no_noise) => !no_noise,
        None => true,
    };
    Ok(
        ConnectionConfig {
            host,
            port: cfg.port,
            token,
            tenant: default_tenant(cfg, env),
            connect_timeout_ms: cfg.connect_timeout_ms,
            request_timeout_ms: cfg.request_timeout_ms,
            protocol_version: cfg.protocol_version,
            noise_enabled,
        },
    )
}

/// Resolves a configuration document and the environment into a connection
/// configuration.
pub fn resolve_config(doc: &Json, env: &Environment) -> (r: Result<ConnectionConfig, BridgeError>)
    ensures
        result_value(r) == client_config(doc@, env@),
        r matches Ok(c) ==> c.wf(),
{
    match doc {
        Json::Object(_) => {},
        Json::Null => {},
        _ => {
            return Err(BridgeError::InvalidConfig(None));
        },
    }
    match decode_config(doc) {
        Ok(cfg) => resolve(&cfg, env),
        Err(e) => Err(e),
    }
}

} // verus!
