//! The part of a Clash (mihomo) configuration that the subscriptions carry.
use vstd::prelude::*;

verus! {

/// The options of an `obfs` plugin.
#[derive(Debug, Clone)]
pub struct ClashProxiesPluginOptsConfig {
    pub mode: String,
    pub host: String,
}

/// One proxy node. `proxy_type` is the `type` key of the file.
#[derive(Debug, Clone)]
pub struct ClashProxiesConfig {
    pub name: String,
    pub proxy_type: String,
    pub server: String,
    pub port: u16,
    pub password: Option<String>,
    pub cipher: Option<String>,
    pub sni: Option<String>,
    pub skip_cert_verify: Option<bool>,
    pub plugin: Option<String>,
    pub plugin_opts: Option<ClashProxiesPluginOptsConfig>,
}

/// A Clash configuration: its proxies and its controller.
#[derive(Debug, Clone)]
pub struct ClashConfig {
    pub proxies: Vec<ClashProxiesConfig>,
    pub external_controller: String,
    pub secret: Option<String>,
}

/// The model of `ClashProxiesPluginOptsConfig`.
pub struct PluginOptsModel {
    pub mode: Seq<char>,
    pub host: Seq<char>,
}

/// The model of `ClashProxiesConfig`.
pub struct ClashProxyModel {
    pub name: Seq<char>,
    pub proxy_type: Seq<char>,
    pub server: Seq<char>,
    pub port: u16,
    pub password: Option<Seq<char>>,
    pub cipher: Option<Seq<char>>,
    pub sni: Option<Seq<char>>,
    pub skip_cert_verify: Option<bool>,
    pub plugin: Option<Seq<char>>,
    pub plugin_opts: Option<PluginOptsModel>,
}

/// The model of `ClashConfig`.
pub struct ClashConfigModel {
    pub proxies: Seq<ClashProxyModel>,
    pub external_controller: Seq<char>,
    pub secret: Option<Seq<char>>,
}

impl View for ClashProxiesPluginOptsConfig {
    type V = PluginOptsModel;

    open spec fn view(&self) -> PluginOptsModel {
        PluginOptsModel { mode: self.mode@, host: self.host@ }
    }
}

impl View for ClashProxiesConfig {
    type V = ClashProxyModel;

    open spec fn view(&self) -> ClashProxyModel {
        ClashProxyModel {
            name: self.name@,
            proxy_type: self.proxy_type@,
            server: self.server@,
            port: self.port,
            password: self.password.deep_view(),
            cipher: self.cipher.deep_view(),
            sni: self.sni.deep_view(),
            skip_cert_verify: self.skip_cert_verify,
            plugin: self.plugin.deep_view(),
            plugin_opts: match self.plugin_opts {
                Some(o) => Some(o@),
                None => None,
            },
        }
    }
}

/// The models of a list of proxies, in order.
pub open spec fn proxies_view(v: Seq<ClashProxiesConfig>) -> Seq<ClashProxyModel> {
    v.map_values(|p: ClashProxiesConfig| p@)
}

impl View for ClashConfig {
    type V = ClashConfigModel;

    open spec fn view(&self) -> ClashConfigModel {
        ClashConfigModel {
            proxies: proxies_view(self.proxies@),
            external_controller: self.external_controller@,
            secret: self.secret.deep_view(),
        }
    }
}

} // verus!
