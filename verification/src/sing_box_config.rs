//! The part of a sing-box configuration that the subscriptions produce.
use vstd::prelude::*;

verus! {

/// The log settings.
#[derive(Debug, Clone)]
pub struct SingBoxLogConfig {
    pub level: String,
}

/// The cache-file settings.
#[derive(Debug, Clone)]
pub struct SingBoxExperimentalCacheFileConfig {
    pub enabled: bool,
}

/// The Clash-compatible API of sing-box.
#[derive(Debug, Clone)]
pub struct SingBoxExperimentalClashApiConfig {
    pub external_controller: String,
    pub secret: String,
}

/// The experimental settings.
#[derive(Debug, Clone)]
pub struct SingBoxExperimentalConfig {
    pub cache_file: SingBoxExperimentalCacheFileConfig,
    pub clash_api: SingBoxExperimentalClashApiConfig,
}

/// The TLS settings of an outbound.
#[derive(Debug, Clone)]
pub struct SingBoxTlsConfig {
    pub enabled: bool,
    pub server_name: String,
    pub insecure: bool,
}

/// One outbound. `outbound_type` is the `type` key of the file.
#[derive(Debug, Clone)]
pub struct SingBoxOutboundsConfig {
    pub outbound_type: String,
    pub tag: String,
    pub server: String,
    pub server_port: u16,
    pub password: Option<String>,
    pub method: Option<String>,
    pub plugin: Option<String>,
    pub plugin_opts: Option<String>,
    pub tls: Option<SingBoxTlsConfig>,
}

/// A sing-box configuration.
#[derive(Debug, Clone)]
pub struct SingBoxConfig {
    pub outbounds: Vec<SingBoxOutboundsConfig>,
    pub experimental: SingBoxExperimentalConfig,
    pub log: SingBoxLogConfig,
}

/// The model of `SingBoxTlsConfig`.
pub struct TlsModel {
    pub enabled: bool,
    pub server_name: Seq<char>,
    pub insecure: bool,
}

/// The model of `SingBoxOutboundsConfig`.
pub struct OutboundModel {
    pub outbound_type: Seq<char>,
    pub tag: Seq<char>,
    pub server: Seq<char>,
    pub server_port: u16,
    pub password: Option<Seq<char>>,
    pub method: Option<Seq<char>>,
    pub plugin: Option<Seq<char>>,
    pub plugin_opts: Option<Seq<char>>,
    pub tls: Option<TlsModel>,
}

/// The model of `SingBoxConfig`.
pub struct SingBoxModel {
    pub outbounds: Seq<OutboundModel>,
    pub cache_file_enabled: bool,
    pub external_controller: Seq<char>,
    pub secret: Seq<char>,
    pub log_level: Seq<char>,
}

impl View for SingBoxTlsConfig {
    type V = TlsModel;

    open spec fn view(&self) -> TlsModel {
        TlsModel { enabled: self.enabled, server_name: self.server_name@, insecure: self.insecure }
    }
}

impl View for SingBoxOutboundsConfig {
    type V = OutboundModel;

    open spec fn view(&self) -> OutboundModel {
        OutboundModel {
            outbound_type: self.outbound_type@,
            tag: self.tag@,
            server: self.server@,
            server_port: self.server_port,
            password: self.password.deep_view(),
            method: self.method.deep_view(),
            plugin: self.plugin.deep_view(),
            plugin_opts: self.plugin_opts.deep_view(),
            tls: match self.tls {
                Some(t) => Some(t@),
                None => None,
            },
        }
    }
}

/// The models of a list of outbounds, in order.
pub open spec fn outbounds_view(v: Seq<SingBoxOutboundsConfig>) -> Seq<OutboundModel> {
    v.map_values(|o: SingBoxOutboundsConfig| o@)
}

impl View for SingBoxConfig {
    type V = SingBoxModel;

    open spec fn view(&self) -> SingBoxModel {
        SingBoxModel {
            outbounds: outbounds_view(self.outbounds@),
            cache_file_enabled: self.experimental.cache_file.enabled,
            external_controller: self.experimental.clash_api.external_controller@,
            secret: self.experimental.clash_api.secret@,
            log_level: self.log.level@,
        }
    }
}

} // verus!
