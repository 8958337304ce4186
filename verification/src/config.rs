//! The settings of an instance, read from the texts of its environment.

use crate::host::{get_url_host, url_host};
use crate::text::{chars_of, parse_decimal, parse_i64, str_eq};
use vstd::prelude::*;

verus! {

/// The port that is listened on where none is set.
pub const DEFAULT_PORT: u16 = 3333;

/// The settings of an instance.
#[derive(Debug, Clone, PartialEq, Eq)]
pub struct Config {
    /// The origin of every activity identifier.
    pub host_url_apub: String,
    /// The origin of the client API.
    pub host_url_api: String,
    pub database_url: String,
    pub port: u16,
    pub apub_proxy_rewrites: bool,
    /// The host of `host_url_apub`.
    pub local_hostname: String,
}

/// Why the settings cannot be used.
#[derive(Debug, Clone, Copy, PartialEq, Eq, Structural)]
pub enum ConfigError {
    MissingHostUrlActivityPub,
    MissingHostUrlApi,
    InvalidProxyRewrites,
    MissingDatabaseUrl,
    InvalidPort,
    InvalidHostUrlActivityPub,
}

/// The port that a text names: an optional plus sign and decimal digits
/// that stand for a number up to 65535.
pub open spec fn port_of(text: Seq<char>) -> Option<u16> {
    if text.len() > 0 && text[0] == '-' {
        None
    } else {
        match parse_decimal(text) {
            Some(v) => if 0 <= v <= 65535 {
                Some(v as u16)
            } else {
                None
            },
            None => None,
        }
    }
}

/// Reads a port.
pub fn parse_port(text: &str) -> (r: Option<u16>)
    ensures
        r == port_of(text@),
{
    let s = chars_of(text);
    if s.len() > 0 && s[0] == '-' {
        return None;
    }
    match parse_i64(s.as_slice()) {
        Some(v) => {
            if 0 <= v && v <= 65535 {
                Some(v as u16)
            } else {
                None
            }
        },
        None => {
            proof {
                match parse_decimal(text@) {
                    Some(v) => {
                        assert(v >= 0);
                    },
                    None => {},
                }
            }
            None
        },
    }
}

/// The truth value that a text names: `true` or `false`.
pub open spec fn flag_of(text: Seq<char>) -> Option<bool> {
    if text == "true"@ {
        Some(true)
    } else if text == "false"@ {
        Some(false)
    } else {
        None
    }
}

/// Reads a truth value.
pub fn parse_flag(text: &str) -> (r: Option<bool>)
    ensures
        r == flag_of(text@),
{
    if str_eq(text, "true") {
        Some(true)
    } else if str_eq(text, "false") {
        Some(false)
    } else {
        None
    }
}

/// Reads the settings from the texts of the environment, each `None` where
/// the variable is not set. The two origins and the database are required.
/// The port defaults to 3333 and the rewriting of links to off; a text that
/// is set must be readable. The host name is the host of the public origin.
pub fn read_config(
    host_url_apub: Option<&str>,
    host_url_api: Option<&str>,
    apub_proxy_rewrites: Option<&str>,
    database_url: Option<&str>,
    port: Option<&str>,
) -> (r: Result<Config, ConfigError>)
    ensures
        match r {
            Ok(c) => {
                &&& host_url_apub matches Some(a) && c.host_url_apub@ == a@
                &&& host_url_api matches Some(a) && c.host_url_api@ == a@
                &&& database_url matches Some(d) && c.database_url@ == d@
                &&& match port {
                    Some(p) => port_of(p@) == Some(c.port),
                    None => c.port == DEFAULT_PORT,
                }
                &&& match apub_proxy_rewrites {
                    Some(f) => flag_of(f@) == Some(c.apub_proxy_rewrites),
                    None => !c.apub_proxy_rewrites,
                }
                &&& url_host(c.host_url_apub@) == Some(c.local_hostname@)
            },
            Err(e) => e == if host_url_apub is None {
                ConfigError::MissingHostUrlActivityPub
            } else if host_url_api is None {
                ConfigError::MissingHostUrlApi
            } else if apub_proxy_rewrites is Some && flag_of(apub_proxy_rewrites->0@) is None {
                ConfigError::InvalidProxyRewrites
            } else if database_url is None {
                ConfigError::MissingDatabaseUrl
            } else if port is Some && port_of(port->0@) is None {
                ConfigError::InvalidPort
            } else {
                ConfigError::InvalidHostUrlActivityPub
            } && (e == ConfigError::InvalidHostUrlActivityPub ==> url_host(host_url_apub->0@)
                is None),
        },
{
    let apub = match host_url_apub {
        Some(s) => s,
        None => {
            return Err(ConfigError::MissingHostUrlActivityPub);
        },
    };
    let api = match host_url_api {
        Some(s) => s,
        None => {
            return Err(ConfigError::MissingHostUrlApi);
        },
    };
    let rewrites = match apub_proxy_rewrites {
        Some(text) => match parse_flag(text) {
            Some(flag) => flag,
            None => {
                return Err(ConfigError::InvalidProxyRewrites);
            },
        },
        None => false,
    };
    let database = match database_url {
        Some(s) => s,
        None => {
            return Err(ConfigError::MissingDatabaseUrl);
        },
    };
    let port = match port {
        Some(text) => match parse_port(text) {
            Some(port) => port,
            None => {
                return Err(ConfigError::InvalidPort);
            },
        },
        None => DEFAULT_PORT,
    };
    let local_hostname = match get_url_host(apub) {
        Some(host) => host,
        None => {
            return Err(ConfigError::InvalidHostUrlActivityPub);
        },
    };
    Ok(
        Config {
            host_url_apub: apub.to_owned(),
            host_url_api: api.to_owned(),
            database_url: database.to_owned(),
            port,
            apub_proxy_rewrites: rewrites,
            local_hostname,
        },
    )
}

} // verus!
