//! The server's settings and how they are read from a loaded configuration.

use vstd::prelude::*;

verus! {

/// The settings of the upload server.
#[derive(Clone, Debug)]
pub struct ServerConfig {
    /// Directory that receives the stripped uploads.
    pub path: String,
    /// Bearer token that clients must present.
    pub token: String,
    /// Base URL under which the uploads are published.
    pub url: String,
    /// Port to listen on.
    pub port: u16,
    /// Address to listen on.
    pub ip: String,
}

impl PartialEq for ServerConfig {
    fn eq(&self, other: &ServerConfig) -> (r: bool) {
        self.path == other.path && self.token == other.token && self.url == other.url
            && self.port == other.port && self.ip == other.ip
    }
}

impl vstd::std_specs::cmp::PartialEqSpecImpl for ServerConfig {
    open spec fn obeys_eq_spec() -> bool {
        true
    }

    open spec fn eq_spec(&self, other: &ServerConfig) -> bool {
        &&& self.path@ == other.path@
        &&& self.token@ == other.token@
        &&& self.url@ == other.url@
        &&& self.port == other.port
        &&& self.ip@ == other.ip@
    }
}

/// The settings that a configuration must provide.
#[derive(Debug, Clone, Copy, PartialEq, Eq, Structural)]
pub enum ConfigKey {
    Path,
    Token,
    Url,
    Port,
    Ip,
}

/// Why no `ServerConfig` could be read.
#[derive(Debug, Clone, Copy, PartialEq, Eq, Structural)]
pub enum ConfigError {
    /// The setting is missing or does not have the expected type.
    Unreadable(ConfigKey),
}

/// The settings read for each key, in the order in which they are looked up:
/// the first one missing is reported.
pub open spec fn assembled(
    path: Option<String>,
    token: Option<String>,
    url: Option<String>,
    port: Option<u16>,
    ip: Option<String>,
) -> Result<ServerConfig, ConfigError> {
    if path is None {
        Err(ConfigError::Unreadable(ConfigKey::Path))
    } else if token is None {
        Err(ConfigError::Unreadable(ConfigKey::Token))
    } else if url is None {
        Err(ConfigError::Unreadable(ConfigKey::Url))
    } else if port is None {
        Err(ConfigError::Unreadable(ConfigKey::Port))
    } else if ip is None {
        Err(ConfigError::Unreadable(ConfigKey::Ip))
    } else {
        Ok(
            ServerConfig {
                path: path->0,
                token: token->0,
                url: url->0,
                port: port->0,
                ip: ip->0,
            },
        )
    }
}

/// Builds the settings from the values read for each key (see `assembled`).
pub fn assemble_server_config(
    path: Option<String>,
    token: Option<String>,
    url: Option<String>,
    port: Option<u16>,
    ip: Option<String>,
) -> (r: Result<ServerConfig, ConfigError>)
    ensures
        r == assembled(path, token, url, port, ip),
{
    let path = match path {
        Some(v) => v,
        None => {
            return Err(ConfigError::Unreadable(ConfigKey::Path));
        },
    };
    let token = match token {
        Some(v) => v,
        None => {
            return Err(ConfigError::Unreadable(ConfigKey::Token));
        },
    };
    let url = match url {
        Some(v) => v,
        None => {
            return Err(ConfigError::Unreadable(ConfigKey::Url));
        },
    };
    let port = match port {
        Some(v) => v,
        None => {
            return Err(ConfigError::Unreadable(ConfigKey::Port));
        },
    };
    let ip = match ip {
        Some(v) => v,
        None => {
            return Err(ConfigError::Unreadable(ConfigKey::Ip));
        },
    };
    Ok(ServerConfig { path, token, url, port, ip })
}

/// `config::Config`, a loaded configuration, carried through opaquely.
#[verifier::external_type_specification]
#[verifier::external_body]
pub struct ExConfig(config::Config);

/// The settings of a loaded configuration that `config::Config::get::<String>`
/// reads as strings, by key.
pub uninterp spec fn config_strings(c: config::Config) -> Map<Seq<char>, Seq<char>>;

/// The settings of a loaded configuration that `config::Config::get::<u16>`
/// reads as `u16` values, by key.
pub uninterp spec fn config_u16s(c: config::Config) -> Map<Seq<char>, u16>;

/// The entry of `m` for `key`, if there is one.
pub open spec fn entry<V>(m: Map<Seq<char>, V>, key: Seq<char>) -> Option<V> {
    if m.dom().contains(key) {
        Some(m[key])
    } else {
        None
    }
}

/// Calls `config::Config::get::<String>` and keeps the value when there is
/// one. `get` looks the key up in the loaded configuration and converts the
/// value it finds; what it returns is a function of the configuration and
/// the key, named here by `config_strings`. The contract claims that the
/// result is the entry of that map for `key`, and `None` when there is none.
#[verifier::external_body]
fn config_get_string(cfg: &config::Config, key: &str) -> (r: Option<String>)
    ensures
        match r {
            Some(v) => entry(config_strings(*cfg), key@) == Some(v@),
            None => entry(config_strings(*cfg), key@) is None,
        },
{
    cfg.get::<String>(key).ok()
}

/// Calls `config::Config::get::<u16>` and keeps the value when there is one.
/// As for `config_get_string`, the contract claims that the result is the
/// entry for `key` of the map named `config_u16s`.
#[verifier::external_body]
fn config_get_u16(cfg: &config::Config, key: &str) -> (r: Option<u16>)
    ensures
        r == entry(config_u16s(*cfg), key@),
{
    cfg.get::<u16>(key).ok()
}

/// The first setting, in the order `path`, `token`, `url`, `port`, `ip`,
/// that a configuration with these string and `u16` entries lacks.
pub open spec fn first_unreadable(strings: Map<Seq<char>, Seq<char>>, u16s: Map<Seq<char>, u16>) -> Option<ConfigKey> {
    if !strings.dom().contains("path"@) {
        Some(ConfigKey::Path)
    } else if !strings.dom().contains("token"@) {
        Some(ConfigKey::Token)
    } else if !strings.dom().contains("url"@) {
        Some(ConfigKey::Url)
    } else if !u16s.dom().contains("port"@) {
        Some(ConfigKey::Port)
    } else if !strings.dom().contains("ip"@) {
        Some(ConfigKey::Ip)
    } else {
        None
    }
}

/// Whether `r` is what reading the settings from `cfg` gives: the first
/// setting that is missing or mistyped, or else the settings with the values
/// of their keys.
pub open spec fn parsed_from(cfg: config::Config, r: Result<ServerConfig, ConfigError>) -> bool {
    let strings = config_strings(cfg);
    let u16s = config_u16s(cfg);
    match first_unreadable(strings, u16s) {
        Some(k) => r == Err::<ServerConfig, ConfigError>(ConfigError::Unreadable(k)),
        None => r matches Ok(c) && {
            &&& c.path@ == strings["path"@]
            &&& c.token@ == strings["token"@]
            &&& c.url@ == strings["url"@]
            &&& c.port == u16s["port"@]
            &&& c.ip@ == strings["ip"@]
        },
    }
}

/// Reads the settings `path`, `token`, `url`, `port` and `ip` from a loaded
/// configuration; the first one that is missing or mistyped is reported.
pub fn parse_config(cfg: &config::Config) -> (r: Result<ServerConfig, ConfigError>)
    ensures
        parsed_from(*cfg, r),
{
    let path = config_get_string(cfg, "path");
    let token = config_get_string(cfg, "token");
    let url = config_get_string(cfg, "url");
    let port = config_get_u16(cfg, "port");
    let ip = config_get_string(cfg, "ip");
    assemble_server_config(path, token, url, port, ip)
}

/// Two reads of the same configuration give equal settings.
pub proof fn lemma_parse_config_deterministic(
    cfg: config::Config,
    r1: Result<ServerConfig, ConfigError>,
    r2: Result<ServerConfig, ConfigError>,
)
    requires
        parsed_from(cfg, r1),
        parsed_from(cfg, r2),
    ensures
        match (r1, r2) {
            (Ok(c1), Ok(c2)) => c1.path@ == c2.path@ && c1.token@ == c2.token@ && c1.url@ == c2.url@
                && c1.port == c2.port && c1.ip@ == c2.ip@,
            (Err(e1), Err(e2)) => e1 == e2,
            _ => false,
        },
{
}

} // verus!
