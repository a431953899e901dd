//! Connection settings of the cluster and of the optional forwarded port.

use vstd::prelude::*;

verus! {

/// The cluster's direct address and credentials.
#[derive(Debug, Clone)]
pub struct ElasticConfig {
    pub host: String,
    pub port: u16,
    pub protocol: String,
    pub username: String,
    pub password: String,
    pub version: String,
}

/// The forwarded local port that stands in for the cluster when `enabled`.
#[derive(Debug, Clone)]
pub struct Proxy {
    pub enabled: bool,
    pub host: String,
    pub port: u16,
    pub protocol: String,
    pub key: String,
    pub user: String,
    pub remote_user: String,
    pub timeout: u8,
}

/// Everything the client is configured with.
#[derive(Debug, Clone)]
pub struct Config {
    pub elastic: ElasticConfig,
    pub proxy: Option<Proxy>,
}

/// What an `ElasticConfig` holds, as plain values.
pub struct ElasticConfigView {
    pub host: Seq<char>,
    pub port: u16,
    pub protocol: Seq<char>,
    pub username: Seq<char>,
    pub password: Seq<char>,
    pub version: Seq<char>,
}

/// What a `Proxy` holds, as plain values.
pub struct ProxyView {
    pub enabled: bool,
    pub host: Seq<char>,
    pub port: u16,
    pub protocol: Seq<char>,
    pub key: Seq<char>,
    pub user: Seq<char>,
    pub remote_user: Seq<char>,
    pub timeout: u8,
}

/// What a `Config` holds, as plain values.
pub struct ConfigView {
    pub elastic: ElasticConfigView,
    pub proxy: Option<ProxyView>,
}

impl View for ElasticConfig {
    type V = ElasticConfigView;

    open spec fn view(&self) -> ElasticConfigView {
        ElasticConfigView {
            host: self.host@,
            port: self.port,
            protocol: self.protocol@,
            username: self.username@,
            password: self.password@,
            version: self.version@,
        }
    }
}

impl View for Proxy {
    type V = ProxyView;

    open spec fn view(&self) -> ProxyView {
        ProxyView {
            enabled: self.enabled,
            host: self.host@,
            port: self.port,
            protocol: self.protocol@,
            key: self.key@,
            user: self.user@,
            remote_user: self.remote_user@,
            timeout: self.timeout,
        }
    }
}

impl View for Config {
    type V = ConfigView;

    open spec fn view(&self) -> ConfigView {
        ConfigView {
            elastic: self.elastic@,
            proxy: match self.proxy {
                Some(p) => Some(p@),
                None => None,
            },
        }
    }
}

pub const PROTOCOL_DEFAULT: &'static str = "http";

pub const HOST_DEFAULT: &'static str = "127.0.0.1";

pub const PORT_DEFAULT: u16 = 9200;

pub const VERSION_DEFAULT: &'static str = "8.8.0";

pub const USERNAME_DEFAULT: &'static str = "elastic";

pub const PASSWORD_DEFAULT: &'static str = "changeme";

/// The settings in force when no configuration directory is given: a local
/// cluster on the standard port, the stock credentials, and no proxy.
pub open spec fn default_config() -> ConfigView {
    ConfigView {
        elastic: ElasticConfigView {
            host: HOST_DEFAULT@,
            port: PORT_DEFAULT,
            protocol: PROTOCOL_DEFAULT@,
            username: USERNAME_DEFAULT@,
            password: PASSWORD_DEFAULT@,
            version: VERSION_DEFAULT@,
        },
        proxy: None,
    }
}

/// Builds the default settings.
pub fn get_default_config() -> (config: Config)
    ensures
        config@ == default_config(),
{
    Config {
        elastic: ElasticConfig {
            protocol: String::from_str(PROTOCOL_DEFAULT),
            host: String::from_str(HOST_DEFAULT),
            port: PORT_DEFAULT,
            version: String::from_str(VERSION_DEFAULT),
            username: String::from_str(USERNAME_DEFAULT),
            password: String::from_str(PASSWORD_DEFAULT),
        },
        proxy: None,
    }
}

} // verus!
