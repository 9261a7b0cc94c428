//! The application configuration and the conditions it must meet before use.
use vstd::prelude::*;

use crate::codec::{is_hyphenated_uuid, new_uuid_text};
use crate::proxy_service::ProxyApiInfo;
use crate::text::{has_prefix, starts_with};

verus! {

/// How often and against what the proxies are probed.
#[derive(Debug, Clone)]
pub struct HealthCheckConfig {
    pub interval_time: u64,
    pub connect_timeout: u64,
    pub test_url: String,
}

/// Basic-auth credentials for the web server.
#[derive(Debug, Clone)]
pub struct AuthServerConfig {
    pub username: String,
    pub password: String,
}

/// Where the web server listens and what it serves.
#[derive(Debug, Clone)]
pub struct ServerConfig {
    pub bind: String,
    pub port: u16,
    pub web: String,
    pub auth: Option<AuthServerConfig>,
}

/// The airport subscription that feeds the built-in proxy.
#[derive(Debug, Clone)]
pub struct AirportInnerProxyConfig {
    pub url_type: String,
    pub url: String,
}

/// The built-in proxy application.
#[derive(Debug, Clone)]
pub struct InnerProxyConfig {
    pub core: String,
    pub controller: String,
    pub secret: String,
    pub airport: AirportInnerProxyConfig,
}

/// An already running proxy application.
#[derive(Debug, Clone)]
pub struct ExternalProxyConfig {
    pub enabled: bool,
    pub external_controller: String,
    pub secret: String,
}

/// Which proxy application is used.
#[derive(Debug, Clone)]
pub struct ProxyConfig {
    pub enabled: bool,
    pub inner: Option<InnerProxyConfig>,
    pub external: Option<ExternalProxyConfig>,
}

/// The whole configuration file.
#[derive(Debug, Clone)]
pub struct Config {
    pub server: ServerConfig,
    pub health_check: HealthCheckConfig,
    pub proxy: ProxyConfig,
}

/// Why a configuration is refused.
#[derive(Debug, Clone, Copy, PartialEq, Eq)]
pub enum ConfigError {
    /// The health-check test address is empty.
    EmptyTestUrl,
    /// The health-check test address does not begin with `http`.
    TestUrlNotHttp,
    /// Neither a built-in nor an external proxy is configured.
    NoProxy,
}

/// The error, if any, that a configuration is refused with; the conditions are tested
/// in this order.
pub open spec fn config_error(c: Config) -> Option<ConfigError> {
    if c.health_check.test_url@.len() == 0 {
        Some(ConfigError::EmptyTestUrl)
    } else if !has_prefix(c.health_check.test_url@, "http"@) {
        Some(ConfigError::TestUrlNotHttp)
    } else if c.proxy.inner is None && c.proxy.external is None {
        Some(ConfigError::NoProxy)
    } else {
        None
    }
}

/// `after` is `before` with at most the built-in proxy's secret changed:
/// kept when it was set, a fresh hyphenated UUID when it was empty.
pub open spec fn secret_filled(before: Config, after: Config) -> bool {
    &&& after.server == before.server
    &&& after.health_check == before.health_check
    &&& after.proxy.enabled == before.proxy.enabled
    &&& after.proxy.external == before.proxy.external
    &&& match before.proxy.inner {
        None => after.proxy.inner is None,
        Some(i) => after.proxy.inner matches Some(j) && {
            &&& j.core == i.core
            &&& j.controller == i.controller
            &&& j.airport == i.airport
            &&& if i.secret@.len() == 0 {
                is_hyphenated_uuid(j.secret@)
            } else {
                j.secret == i.secret
            }
        },
    }
}

/// Checks a configuration that was read from the configuration file: the
/// test address must be set and begin with `http`, and at least one proxy
/// must be configured. A built-in proxy without a secret gets a random one.
pub fn validate_config(config: Config) -> (r: Result<Config, ConfigError>)
    ensures
        match config_error(config) {
            Some(e) => r == Err::<Config, ConfigError>(e),
            None => r matches Ok(c) && secret_filled(config, c),
        },
{
    if config.health_check.test_url.as_str().is_empty() {
        return Err(ConfigError::EmptyTestUrl);
    }
    if !starts_with(config.health_check.test_url.as_str(), "http") {
        proof {
            reveal_strlit("http");
        }
        return Err(ConfigError::TestUrlNotHttp);
    }
    proof {
        reveal_strlit("http");
    }
    if config.proxy.inner.is_none() && config.proxy.external.is_none() {
        return Err(ConfigError::NoProxy);
    }
    let Config { server, health_check, proxy } = config;
    let ProxyConfig { enabled, inner, external } = proxy;
    let inner = match inner {
        None => None,
        Some(i) => {
            let InnerProxyConfig { core, controller, secret, airport } = i;
            let secret = if secret.as_str().is_empty() {
                new_uuid_text()
            } else {
                secret
            };
            Some(InnerProxyConfig { core, controller, secret, airport })
        },
    };
    Ok(Config { server, health_check, proxy: ProxyConfig { enabled, inner, external } })
}

/// Whether the built-in proxy is used: it is configured and the external
/// one is not enabled. The external proxy must be configured whenever the
/// built-in one is.
pub fn uses_inner_proxy(config: &Config) -> (r: bool)
    requires
        config.proxy.inner is Some ==> config.proxy.external is Some,
    ensures
        r == (config.proxy.inner is Some && !config.proxy.external->0.enabled),
{
    match &config.proxy.inner {
        Some(_) => match &config.proxy.external {
            Some(e) => !e.enabled,
            None => false,
        },
        None => false,
    }
}

/// The controller address and secret of the proxy that is used: the
/// built-in one when `uses_inner_proxy`, else the external one. Either way
/// the external proxy is read, so it must be configured.
pub fn proxy_api_info(config: &Config) -> (r: ProxyApiInfo)
    requires
        config.proxy.external is Some,
    ensures
        if config.proxy.inner is Some && !config.proxy.external->0.enabled {
            r.external_controller@ == config.proxy.inner->0.controller@ && r.secret@
                == config.proxy.inner->0.secret@
        } else {
            r.external_controller@ == config.proxy.external->0.external_controller@ && r.secret@
                == config.proxy.external->0.secret@
        },
{
    if uses_inner_proxy(config) {
        let inner = config.proxy.inner.as_ref().unwrap();
        ProxyApiInfo {
            external_controller: inner.controller.clone(),
            secret: inner.secret.clone(),
        }
    } else {
        let external = config.proxy.external.as_ref().unwrap();
        ProxyApiInfo {
            external_controller: external.external_controller.clone(),
            secret: external.secret.clone(),
        }
    }
}

} // verus!
