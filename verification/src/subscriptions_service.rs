//! Turning an airport subscription into the configuration of the proxy
//! core: a Clash subscription is used as it is (mihomo) or converted to
//! sing-box; a universal subscription (base64 of one share link per line)
//! is parsed into either.
use vstd::prelude::*;
use vstd::utf8::{decode_utf8, valid_utf8};

use crate::app_config::InnerProxyConfig;
use crate::base64_util::{base64_decoded, decode};
use crate::clash_config::{
    proxies_view, ClashConfig, ClashConfigModel, ClashProxiesConfig, ClashProxiesPluginOptsConfig,
    ClashProxyModel, PluginOptsModel,
};
use crate::codec::{parse_url, parsed_url, percent_decode_text, percent_decoded_text, utf8_string};
use crate::sing_box_config::{
    outbounds_view, OutboundModel, SingBoxConfig, SingBoxExperimentalCacheFileConfig,
    SingBoxExperimentalClashApiConfig, SingBoxExperimentalConfig, SingBoxLogConfig, SingBoxModel,
    SingBoxOutboundsConfig, SingBoxTlsConfig, TlsModel,
};
use crate::text::{
    eq_ignore_ascii_case, eq_ignore_case, split_char, split_once_char, split_once_seq, split_seq,
    text_eq, trim, trim_seq,
};

verus! {

// ---------------------------------------------------------------------------
// Which conversion applies
// ---------------------------------------------------------------------------

/// The subscription is a Clash configuration (`url_type` is `Clash` in any
/// ASCII case); otherwise it is a universal one.
pub fn is_clash_subscription(inner: &InnerProxyConfig) -> (r: bool)
    ensures
        r == eq_ignore_case(inner.airport.url_type@, "Clash"@),
{
    eq_ignore_ascii_case(inner.airport.url_type.as_str(), "Clash")
}

/// The proxy core is mihomo (`core` is `mihomo` in any ASCII case);
/// otherwise it is sing-box.
pub fn is_mihomo_core(inner: &InnerProxyConfig) -> (r: bool)
    ensures
        r == eq_ignore_case(inner.core@, "mihomo"@),
{
    eq_ignore_ascii_case(inner.core.as_str(), "mihomo")
}

// ---------------------------------------------------------------------------
// Clash subscriptions
// ---------------------------------------------------------------------------

/// A Clash subscription made to answer on the built-in controller.
pub fn with_controller(clash: ClashConfig, inner: &InnerProxyConfig) -> (r: ClashConfig)
    ensures
        r@ == (ClashConfigModel {
            proxies: clash@.proxies,
            external_controller: inner.controller@,
            secret: Some(inner.secret@),
        }),
{
    ClashConfig {
        proxies: clash.proxies,
        external_controller: inner.controller.clone(),
        secret: Some(inner.secret.clone()),
    }
}

/// The `plugin_opts` text of sing-box for the options of an `obfs` plugin.
pub open spec fn obfs_opts_text(o: PluginOptsModel) -> Seq<char> {
    "obfs="@ + o.mode + ";obfs-host="@ + o.host
}

/// The sing-box outbound for one Clash proxy: name, server, port and
/// password carry over; `ss` becomes `shadowsocks` with its cipher and, for
/// the `obfs` plugin, `obfs-local` with its options; `trojan` gets TLS with
/// the SNI (or the server) and certificate checks skipped only when the
/// proxy says so; any other type stays empty.
pub open spec fn outbound_of(p: ClashProxyModel) -> OutboundModel {
    if p.proxy_type == "ss"@ {
        let obfs = p.plugin == Some("obfs"@);
        OutboundModel {
            outbound_type: "shadowsocks"@,
            tag: p.name,
            server: p.server,
            server_port: p.port,
            password: p.password,
            method: p.cipher,
            plugin: if obfs {
                Some("obfs-local"@)
            } else {
                None
            },
            plugin_opts: if obfs && p.plugin_opts is Some {
                Some(obfs_opts_text(p.plugin_opts->0))
            } else {
                None
            },
            tls: None,
        }
    } else if p.proxy_type == "trojan"@ {
        OutboundModel {
            outbound_type: "trojan"@,
            tag: p.name,
            server: p.server,
            server_port: p.port,
            password: p.password,
            method: None,
            plugin: None,
            plugin_opts: None,
            tls: Some(
                TlsModel {
                    enabled: true,
                    server_name: match p.sni {
                        Some(s) => s,
                        None => p.server,
                    },
                    insecure: p.skip_cert_verify == Some(true),
                },
            ),
        }
    } else {
        OutboundModel {
            outbound_type: Seq::<char>::empty(),
            tag: p.name,
            server: p.server,
            server_port: p.port,
            password: p.password,
            method: None,
            plugin: None,
            plugin_opts: None,
            tls: None,
        }
    }
}

/// A copy of an optional text.
fn copy_text(o: &Option<String>) -> (r: Option<String>)
    ensures
        r.deep_view() == o.deep_view(),
{
    match o {
        Some(s) => Some(s.clone()),
        None => None,
    }
}

/// The sing-box outbound for one Clash proxy.
pub fn outbound_from_clash(p: &ClashProxiesConfig) -> (r: SingBoxOutboundsConfig)
    ensures
        r@ == outbound_of(p@),
{
    let mut ob = SingBoxOutboundsConfig {
        outbound_type: String::new(),
        tag: p.name.clone(),
        server: p.server.clone(),
        server_port: p.port,
        password: copy_text(&p.password),
        method: None,
        plugin: None,
        plugin_opts: None,
        tls: None,
    };
    if text_eq(p.proxy_type.as_str(), "ss") {
        ob.outbound_type = "shadowsocks".to_owned();
        ob.method = copy_text(&p.cipher);
        let obfs = match &p.plugin {
            Some(plugin) => text_eq(plugin.as_str(), "obfs"),
            None => false,
        };
        if obfs {
            ob.plugin = Some("obfs-local".to_owned());
            match &p.plugin_opts {
                Some(o) => {
                    let mut opts = "obfs=".to_owned();
                    opts.append(o.mode.as_str());
                    opts.append(";obfs-host=");
                    opts.append(o.host.as_str());
                    assert(opts@ =~= obfs_opts_text(o@));
                    ob.plugin_opts = Some(opts);
                },
                None => {},
            }
        }
    } else if text_eq(p.proxy_type.as_str(), "trojan") {
        ob.outbound_type = "trojan".to_owned();
        let server_name = match &p.sni {
            Some(s) => s.clone(),
            None => p.server.clone(),
        };
        let insecure = match p.skip_cert_verify {
            Some(b) => b,
            None => false,
        };
        ob.tls = Some(SingBoxTlsConfig { enabled: true, server_name, insecure });
    }
    assert(ob@ =~= outbound_of(p@));
    ob
}

/// The sing-box configuration of the built-in proxy: its log level,
/// cache file, controller and secret, and no outbounds yet.
pub open spec fn sing_box_base(inner_controller: Seq<char>, inner_secret: Seq<char>) -> SingBoxModel {
    SingBoxModel {
        outbounds: Seq::<OutboundModel>::empty(),
        cache_file_enabled: true,
        external_controller: inner_controller,
        secret: inner_secret,
        log_level: "info"@,
    }
}

/// An empty sing-box configuration for the built-in proxy.
fn new_sing_box(inner: &InnerProxyConfig) -> (r: SingBoxConfig)
    ensures
        r@ == sing_box_base(inner.controller@, inner.secret@),
{
    let r = SingBoxConfig {
        outbounds: Vec::new(),
        experimental: SingBoxExperimentalConfig {
            cache_file: SingBoxExperimentalCacheFileConfig { enabled: true },
            clash_api: SingBoxExperimentalClashApiConfig {
                external_controller: inner.controller.clone(),
                secret: inner.secret.clone(),
            },
        },
        log: SingBoxLogConfig { level: "info".to_owned() },
    };
    assert(outbounds_view(r.outbounds@) =~= Seq::<OutboundModel>::empty());
    r
}

/// The sing-box configuration made from a Clash subscription: one outbound
/// per proxy, in order (`outbound_of`), on the built-in controller.
pub fn clash_to_sing_box(clash: &ClashConfig, inner: &InnerProxyConfig) -> (r: SingBoxConfig)
    ensures
        r@ == (SingBoxModel {
            outbounds: clash@.proxies.map_values(|p: ClashProxyModel| outbound_of(p)),
            ..sing_box_base(inner.controller@, inner.secret@)
        }),
{
    let mut r = new_sing_box(inner);
    let mut i: usize = 0;
    assert(proxies_view(clash.proxies@).take(0).map_values(|p: ClashProxyModel| outbound_of(p))
        =~= Seq::<OutboundModel>::empty());
    while i < clash.proxies.len()
        invariant
            i <= clash.proxies@.len(),
            r@ == (SingBoxModel {
                outbounds: proxies_view(clash.proxies@).take(i as int).map_values(
                    |p: ClashProxyModel| outbound_of(p),
                ),
                ..sing_box_base(inner.controller@, inner.secret@)
            }),
        decreases clash.proxies.len() - i,
    {
        let ob = outbound_from_clash(&clash.proxies[i]);
        let ghost before = outbounds_view(r.outbounds@);
        r.outbounds.push(ob);
        assert(outbounds_view(r.outbounds@) =~= before.push(ob@));
        assert(proxies_view(clash.proxies@).take(i + 1).map_values(|p: ClashProxyModel| outbound_of(p))
            =~= proxies_view(clash.proxies@).take(i as int).map_values(
            |p: ClashProxyModel| outbound_of(p),
        ).push(outbound_of(clash.proxies@[i as int]@)));
        i = i + 1;
    }
    assert(proxies_view(clash.proxies@).take(clash.proxies@.len() as int) =~= proxies_view(
        clash.proxies@,
    ));
    r
}

// ---------------------------------------------------------------------------
// Universal subscriptions
// ---------------------------------------------------------------------------

/// Why a universal subscription cannot be used.
#[derive(Debug, Clone, Copy, PartialEq, Eq)]
pub enum SubscriptionError {
    /// The subscription or a shadowsocks user part is not base64.
    InvalidBase64,
    /// Decoded bytes are not UTF-8.
    InvalidUtf8,
    /// A line is not a URL.
    InvalidUrl,
    /// A share link lacks a part that must be there: the fragment (the
    /// name), the host, the port, the user part, the `:` between cipher and
    /// password, or the `obfs`/`obfs-host` options of a Clash plugin.
    Malformed,
}

/// A result with its value replaced by its model.
pub open spec fn result_view<T: View>(r: Result<T, SubscriptionError>) -> Result<
    T::V,
    SubscriptionError,
> {
    match r {
        Ok(v) => Ok(v@),
        Err(e) => Err(e),
    }
}

/// What every share link gives: its name, server, port, user part, scheme
/// and query pairs.
pub struct NodeLink {
    pub name: String,
    pub server: String,
    pub port: u16,
    pub password: String,
    pub scheme: String,
    pub query_pairs: Vec<(String, String)>,
}

/// The model of a `NodeLink`.
pub struct NodeLinkModel {
    pub name: Seq<char>,
    pub server: Seq<char>,
    pub port: u16,
    pub password: Seq<char>,
    pub scheme: Seq<char>,
    pub query_pairs: Seq<(Seq<char>, Seq<char>)>,
}

impl View for NodeLink {
    type V = NodeLinkModel;

    open spec fn view(&self) -> NodeLinkModel {
        NodeLinkModel {
            name: self.name@,
            server: self.server@,
            port: self.port,
            password: self.password@,
            scheme: self.scheme@,
            query_pairs: self.query_pairs@.map_values(|p: (String, String)| (p.0@, p.1@)),
        }
    }
}

/// The parts of one share link: it must be a URL; its fragment must be
/// there and percent-decode to UTF-8, and trimmed it is the name; host and
/// port must be there; the user name, or the password when the user name
/// is empty, is the user part.
pub open spec fn node_link(line: Seq<char>) -> Result<NodeLinkModel, SubscriptionError> {
    match parsed_url(line) {
        None => Err(SubscriptionError::InvalidUrl),
        Some(u) => match u.fragment {
            None => Err(SubscriptionError::Malformed),
            Some(f) => match percent_decoded_text(f) {
                None => Err(SubscriptionError::InvalidUtf8),
                Some(name) => if u.host is None || u.port is None {
                    Err(SubscriptionError::Malformed)
                } else if u.username.len() == 0 && u.password is None {
                    Err(SubscriptionError::Malformed)
                } else {
                    Ok(
                        NodeLinkModel {
                            name: trim_seq(name),
                            server: u.host->0,
                            port: u.port->0,
                            password: if u.username.len() == 0 {
                                u.password->0
                            } else {
                                u.username
                            },
                            scheme: u.scheme,
                            query_pairs: u.query_pairs,
                        },
                    )
                },
            },
        },
    }
}

/// Reads the parts of one share link.
pub fn parse_node_link(line: &str) -> (r: Result<NodeLink, SubscriptionError>)
    ensures
        result_view(r) == node_link(line@),
{
    let url = match parse_url(line) {
        Some(u) => u,
        None => return Err(SubscriptionError::InvalidUrl),
    };
    let ghost m = url@;
    let fragment = match &url.fragment {
        Some(f) => f,
        None => return Err(SubscriptionError::Malformed),
    };
    let name = match percent_decode_text(fragment.as_str()) {
        Some(n) => n,
        None => return Err(SubscriptionError::InvalidUtf8),
    };
    let name = trim(name.as_str());
    let server = match &url.host {
        Some(h) => h.clone(),
        None => return Err(SubscriptionError::Malformed),
    };
    let port = match url.port {
        Some(p) => p,
        None => return Err(SubscriptionError::Malformed),
    };
    let password = if url.username.as_str().is_empty() {
        match &url.password {
            Some(p) => p.clone(),
            None => return Err(SubscriptionError::Malformed),
        }
    } else {
        url.username.clone()
    };
    let r = NodeLink {
        name,
        server,
        port,
        password,
        scheme: url.scheme.clone(),
        query_pairs: url.query_pairs,
    };
    assert(r@ == node_link(line@)->Ok_0);
    Ok(r)
}

/// The value of the last query pair whose key is `key`.
pub open spec fn query_lookup(pairs: Seq<(Seq<char>, Seq<char>)>, key: Seq<char>) -> Option<
    Seq<char>,
>
    decreases pairs.len(),
{
    if pairs.len() == 0 {
        None
    } else if pairs.last().0 == key {
        Some(pairs.last().1)
    } else {
        query_lookup(pairs.drop_last(), key)
    }
}

/// Looks up a query parameter; a later pair overrides an earlier one.
pub fn query_param(pairs: &Vec<(String, String)>, key: &str) -> (r: Option<String>)
    ensures
        r.deep_view() == query_lookup(
            pairs@.map_values(|p: (String, String)| (p.0@, p.1@)),
            key@,
        ),
{
    let ghost view = pairs@.map_values(|p: (String, String)| (p.0@, p.1@));
    let mut i = pairs.len();
    assert(view.take(i as int) =~= view);
    while i > 0
        invariant
            i <= pairs@.len(),
            view == pairs@.map_values(|p: (String, String)| (p.0@, p.1@)),
            query_lookup(view, key@) == query_lookup(view.take(i as int), key@),
        decreases i,
    {
        let ghost prefix = view.take(i as int);
        assert(prefix.drop_last() =~= view.take(i - 1));
        if text_eq(pairs[i - 1].0.as_str(), key) {
            return Some(pairs[i - 1].1.clone());
        }
        i = i - 1;
    }
    None
}

/// The cipher and password of a shadowsocks link: the user part is base64
/// of UTF-8 text whose first two `:`-separated pieces they are.
pub open spec fn ss_credentials(password: Seq<char>) -> Result<
    (Seq<char>, Seq<char>),
    SubscriptionError,
> {
    match base64_decoded(password) {
        None => Err(SubscriptionError::InvalidBase64),
        Some(b) => if !valid_utf8(b) {
            Err(SubscriptionError::InvalidUtf8)
        } else {
            let parts = split_seq(decode_utf8(b), ':');
            if parts.len() < 2 {
                Err(SubscriptionError::Malformed)
            } else {
                Ok((parts[0], parts[1]))
            }
        },
    }
}

/// Reads the cipher and password of a shadowsocks link.
pub fn shadowsocks_credentials(password: &str) -> (r: Result<(String, String), SubscriptionError>)
    ensures
        match r {
            Ok((c, p)) => ss_credentials(password@) == Ok::<(Seq<char>, Seq<char>), SubscriptionError>((c@, p@)),
            Err(e) => ss_credentials(password@) == Err::<(Seq<char>, Seq<char>), SubscriptionError>(e),
        },
{
    let bytes = match decode(password) {
        Ok(b) => b,
        Err(_) => return Err(SubscriptionError::InvalidBase64),
    };
    let text = match utf8_string(bytes) {
        Some(t) => t,
        None => return Err(SubscriptionError::InvalidUtf8),
    };
    let parts = split_char(text.as_str(), ':');
    if parts.len() < 2 {
        return Err(SubscriptionError::Malformed);
    }
    assert(parts.deep_view()[0] == parts@[0]@);
    assert(parts.deep_view()[1] == parts@[1]@);
    Ok((parts[0].clone(), parts[1].clone()))
}

/// The value of `key` among two `key=value` settings, the second winning.
pub open spec fn setting_lookup(kv1: Seq<Seq<char>>, kv2: Seq<Seq<char>>, key: Seq<char>) -> Option<
    Seq<char>,
> {
    if kv2[0] == key {
        Some(kv2[1])
    } else if kv1[0] == key {
        Some(kv1[1])
    } else {
        None
    }
}

/// The plugin of a shadowsocks link for Clash: the `plugin` parameter,
/// percent-decoded as UTF-8, is `name;k=v;k=v`, and the two settings must
/// give `obfs` and `obfs-host`.
pub open spec fn clash_plugin(param: Option<Seq<char>>) -> Result<
    Option<(Seq<char>, PluginOptsModel)>,
    SubscriptionError,
> {
    match param {
        None => Ok(None),
        Some(p) => match percent_decoded_text(p) {
            None => Err(SubscriptionError::InvalidUtf8),
            Some(t) => {
                let parts = split_seq(t, ';');
                if parts.len() < 3 {
                    Err(SubscriptionError::Malformed)
                } else {
                    let kv1 = split_seq(parts[1], '=');
                    let kv2 = split_seq(parts[2], '=');
                    if kv1.len() < 2 || kv2.len() < 2 {
                        Err(SubscriptionError::Malformed)
                    } else {
                        let mode = setting_lookup(kv1, kv2, "obfs"@);
                        let host = setting_lookup(kv1, kv2, "obfs-host"@);
                        if mode is None || host is None {
                            Err(SubscriptionError::Malformed)
                        } else {
                            Ok(Some((parts[0], PluginOptsModel { mode: mode->0, host: host->0 })))
                        }
                    }
                }
            },
        },
    }
}

/// Looks up a key among two `key=value` settings, the second winning.
fn setting_value(kv1: &Vec<String>, kv2: &Vec<String>, key: &str) -> (r: Option<String>)
    requires
        kv1@.len() >= 2,
        kv2@.len() >= 2,
    ensures
        r.deep_view() == setting_lookup(kv1.deep_view(), kv2.deep_view(), key@),
{
    assert(kv1.deep_view()[0] == kv1@[0]@ && kv1.deep_view()[1] == kv1@[1]@);
    assert(kv2.deep_view()[0] == kv2@[0]@ && kv2.deep_view()[1] == kv2@[1]@);
    if text_eq(kv2[0].as_str(), key) {
        Some(kv2[1].clone())
    } else if text_eq(kv1[0].as_str(), key) {
        Some(kv1[1].clone())
    } else {
        None
    }
}

/// Reads the plugin of a shadowsocks link for Clash.
fn clash_plugin_of(param: Option<String>) -> (r: Result<
    Option<(String, ClashProxiesPluginOptsConfig)>,
    SubscriptionError,
>)
    ensures
        match r {
            Ok(Some((n, o))) => clash_plugin(param.deep_view()) == Ok::<
                Option<(Seq<char>, PluginOptsModel)>,
                SubscriptionError,
            >(Some((n@, o@))),
            Ok(None) => clash_plugin(param.deep_view()) == Ok::<
                Option<(Seq<char>, PluginOptsModel)>,
                SubscriptionError,
            >(None),
            Err(e) => clash_plugin(param.deep_view()) == Err::<
                Option<(Seq<char>, PluginOptsModel)>,
                SubscriptionError,
            >(e),
        },
{
    let p = match param {
        Some(p) => p,
        None => return Ok(None),
    };
    let text = match percent_decode_text(p.as_str()) {
        Some(t) => t,
        None => return Err(SubscriptionError::InvalidUtf8),
    };
    let parts = split_char(text.as_str(), ';');
    if parts.len() < 3 {
        return Err(SubscriptionError::Malformed);
    }
    assert(parts.deep_view()[0] == parts@[0]@);
    assert(parts.deep_view()[1] == parts@[1]@);
    assert(parts.deep_view()[2] == parts@[2]@);
    let kv1 = split_char(parts[1].as_str(), '=');
    let kv2 = split_char(parts[2].as_str(), '=');
    if kv1.len() < 2 || kv2.len() < 2 {
        return Err(SubscriptionError::Malformed);
    }
    let mode = setting_value(&kv1, &kv2, "obfs");
    let host = setting_value(&kv1, &kv2, "obfs-host");
    match (mode, host) {
        (Some(mode), Some(host)) => Ok(
            Some((parts[0].clone(), ClashProxiesPluginOptsConfig { mode, host })),
        ),
        _ => Err(SubscriptionError::Malformed),
    }
}

/// The server name of a trojan link: its `sni` parameter, else its server.
pub open spec fn trojan_sni(pairs: Seq<(Seq<char>, Seq<char>)>, server: Seq<char>) -> Seq<char> {
    match query_lookup(pairs, "sni"@) {
        Some(s) => s,
        None => server,
    }
}

/// Certificate checks are skipped for a trojan link with `tls=false` or
/// `allowInsecure=1`.
pub open spec fn trojan_insecure(pairs: Seq<(Seq<char>, Seq<char>)>) -> bool {
    query_lookup(pairs, "tls"@) == Some("false"@) || query_lookup(pairs, "allowInsecure"@) == Some(
        "1"@,
    )
}

/// Reads the certificate-check setting of a trojan link.
fn trojan_insecure_of(pairs: &Vec<(String, String)>) -> (r: bool)
    ensures
        r == trojan_insecure(pairs@.map_values(|p: (String, String)| (p.0@, p.1@))),
{
    let tls_false = match query_param(pairs, "tls") {
        Some(v) => text_eq(v.as_str(), "false"),
        None => false,
    };
    let allow_insecure = match query_param(pairs, "allowInsecure") {
        Some(v) => text_eq(v.as_str(), "1"),
        None => false,
    };
    tls_false || allow_insecure
}

/// The Clash proxy for one share link of a universal subscription.
pub open spec fn clash_node(line: Seq<char>) -> Result<ClashProxyModel, SubscriptionError> {
    match node_link(line) {
        Err(e) => Err(e),
        Ok(b) => if b.scheme == "ss"@ {
            match ss_credentials(b.password) {
                Err(e) => Err(e),
                Ok((cipher, password)) => match clash_plugin(query_lookup(b.query_pairs, "plugin"@)) {
                    Err(e) => Err(e),
                    Ok(plugin) => Ok(
                        ClashProxyModel {
                            name: b.name,
                            proxy_type: "shadowsocks"@,
                            server: b.server,
                            port: b.port,
                            password: Some(password),
                            cipher: Some(cipher),
                            sni: None,
                            skip_cert_verify: None,
                            plugin: match plugin {
                                Some(pl) => Some(pl.0),
                                None => None,
                            },
                            plugin_opts: match plugin {
                                Some(pl) => Some(pl.1),
                                None => None,
                            },
                        },
                    ),
                },
            }
        } else if b.scheme == "trojan"@ {
            Ok(
                ClashProxyModel {
                    name: b.name,
                    proxy_type: "trojan"@,
                    server: b.server,
                    port: b.port,
                    password: Some(b.password),
                    cipher: None,
                    sni: Some(trojan_sni(b.query_pairs, b.server)),
                    skip_cert_verify: Some(trojan_insecure(b.query_pairs)),
                    plugin: None,
                    plugin_opts: None,
                },
            )
        } else {
            Ok(
                ClashProxyModel {
                    name: b.name,
                    proxy_type: Seq::<char>::empty(),
                    server: b.server,
                    port: b.port,
                    password: None,
                    cipher: None,
                    sni: None,
                    skip_cert_verify: None,
                    plugin: None,
                    plugin_opts: None,
                },
            )
        },
    }
}

/// Reads one share link of a universal subscription as a Clash proxy.
pub fn clash_proxy_from_link(line: &str) -> (r: Result<ClashProxiesConfig, SubscriptionError>)
    ensures
        result_view(r) == clash_node(line@),
{
    let link = match parse_node_link(line) {
        Ok(l) => l,
        Err(e) => return Err(e),
    };
    let mut cpc = ClashProxiesConfig {
        name: link.name.clone(),
        proxy_type: String::new(),
        server: link.server.clone(),
        port: link.port,
        password: None,
        cipher: None,
        sni: None,
        skip_cert_verify: None,
        plugin: None,
        plugin_opts: None,
    };
    if text_eq(link.scheme.as_str(), "ss") {
        cpc.proxy_type = "shadowsocks".to_owned();
        let (cipher, password) = match shadowsocks_credentials(link.password.as_str()) {
            Ok(c) => c,
            Err(e) => return Err(e),
        };
        cpc.cipher = Some(cipher);
        cpc.password = Some(password);
        match clash_plugin_of(query_param(&link.query_pairs, "plugin")) {
            Ok(Some((plugin, opts))) => {
                cpc.plugin = Some(plugin);
                cpc.plugin_opts = Some(opts);
            },
            Ok(None) => {},
            Err(e) => return Err(e),
        }
    } else if text_eq(link.scheme.as_str(), "trojan") {
        cpc.proxy_type = "trojan".to_owned();
        cpc.password = Some(link.password.clone());
        let sni = match query_param(&link.query_pairs, "sni") {
            Some(s) => s,
            None => link.server.clone(),
        };
        cpc.sni = Some(sni);
        cpc.skip_cert_verify = Some(trojan_insecure_of(&link.query_pairs));
    }
    assert(cpc@ =~= clash_node(line@)->Ok_0);
    Ok(cpc)
}

/// The plugin of a shadowsocks link for sing-box: the `plugin` parameter,
/// percent-decoded as UTF-8, split at its first `;` into the plugin and its
/// options (no plugin when there is no `;`).
pub open spec fn sing_box_plugin(param: Option<Seq<char>>) -> Result<
    Option<(Seq<char>, Seq<char>)>,
    SubscriptionError,
> {
    match param {
        None => Ok(None),
        Some(p) => match percent_decoded_text(p) {
            None => Err(SubscriptionError::InvalidUtf8),
            Some(t) => Ok(split_once_seq(t, ';')),
        },
    }
}

/// The sing-box outbound for one share link of a universal subscription.
pub open spec fn sing_box_node(line: Seq<char>) -> Result<OutboundModel, SubscriptionError> {
    match node_link(line) {
        Err(e) => Err(e),
        Ok(b) => if b.scheme == "ss"@ {
            match ss_credentials(b.password) {
                Err(e) => Err(e),
                Ok((method, password)) => match sing_box_plugin(
                    query_lookup(b.query_pairs, "plugin"@),
                ) {
                    Err(e) => Err(e),
                    Ok(plugin) => Ok(
                        OutboundModel {
                            outbound_type: "shadowsocks"@,
                            tag: b.name,
                            server: b.server,
                            server_port: b.port,
                            password: Some(password),
                            method: Some(method),
                            plugin: match plugin {
                                Some(pl) => Some(pl.0),
                                None => None,
                            },
                            plugin_opts: match plugin {
                                Some(pl) => Some(pl.1),
                                None => None,
                            },
                            tls: None,
                        },
                    ),
                },
            }
        } else if b.scheme == "trojan"@ {
            Ok(
                OutboundModel {
                    outbound_type: "trojan"@,
                    tag: b.name,
                    server: b.server,
                    server_port: b.port,
                    password: Some(b.password),
                    method: None,
                    plugin: None,
                    plugin_opts: None,
                    tls: Some(
                        TlsModel {
                            enabled: true,
                            server_name: trojan_sni(b.query_pairs, b.server),
                            insecure: trojan_insecure(b.query_pairs),
                        },
                    ),
                },
            )
        } else {
            Ok(
                OutboundModel {
                    outbound_type: Seq::<char>::empty(),
                    tag: b.name,
                    server: b.server,
                    server_port: b.port,
                    password: None,
                    method: None,
                    plugin: None,
                    plugin_opts: None,
                    tls: None,
                },
            )
        },
    }
}

/// Reads one share link of a universal subscription as a sing-box outbound.
pub fn outbound_from_link(line: &str) -> (r: Result<SingBoxOutboundsConfig, SubscriptionError>)
    ensures
        result_view(r) == sing_box_node(line@),
{
    let link = match parse_node_link(line) {
        Ok(l) => l,
        Err(e) => return Err(e),
    };
    let mut oc = SingBoxOutboundsConfig {
        outbound_type: String::new(),
        tag: link.name.clone(),
        server: link.server.clone(),
        server_port: link.port,
        password: None,
        method: None,
        plugin: None,
        plugin_opts: None,
        tls: None,
    };
    if text_eq(link.scheme.as_str(), "ss") {
        oc.outbound_type = "shadowsocks".to_owned();
        let (method, password) = match shadowsocks_credentials(link.password.as_str()) {
            Ok(c) => c,
            Err(e) => return Err(e),
        };
        oc.method = Some(method);
        oc.password = Some(password);
        match query_param(&link.query_pairs, "plugin") {
            Some(p) => {
                let text = match percent_decode_text(p.as_str()) {
                    Some(t) => t,
                    None => return Err(SubscriptionError::InvalidUtf8),
                };
                match split_once_char(text.as_str(), ';') {
                    Some((plugin, opts)) => {
                        oc.plugin = Some(plugin);
                        oc.plugin_opts = Some(opts);
                    },
                    None => {},
                }
            },
            None => {},
        }
    } else if text_eq(link.scheme.as_str(), "trojan") {
        oc.outbound_type = "trojan".to_owned();
        oc.password = Some(link.password.clone());
        let insecure = trojan_insecure_of(&link.query_pairs);
        let server_name = match query_param(&link.query_pairs, "sni") {
            Some(s) => s,
            None => link.server.clone(),
        };
        oc.tls = Some(SingBoxTlsConfig { enabled: true, insecure, server_name });
    }
    assert(oc@ =~= sing_box_node(line@)->Ok_0);
    Ok(oc)
}

/// The Clash proxies of the lines of a subscription, empty lines skipped, in order;
/// the first line that fails decides the error.
pub open spec fn clash_nodes(lines: Seq<Seq<char>>) -> Result<Seq<ClashProxyModel>, SubscriptionError>
    decreases lines.len(),
{
    if lines.len() == 0 {
        Ok(Seq::<ClashProxyModel>::empty())
    } else {
        match clash_nodes(lines.drop_last()) {
            Err(e) => Err(e),
            Ok(nodes) => if lines.last().len() == 0 {
                Ok(nodes)
            } else {
                match clash_node(lines.last()) {
                    Err(e) => Err(e),
                    Ok(n) => Ok(nodes.push(n)),
                }
            },
        }
    }
}

/// Once a prefix of the lines fails, all of them fail with the same error.
proof fn lemma_clash_error_persists(lines: Seq<Seq<char>>, k: int, e: SubscriptionError)
    requires
        0 <= k <= lines.len(),
        clash_nodes(lines.take(k)) == Err::<Seq<ClashProxyModel>, SubscriptionError>(e),
    ensures
        clash_nodes(lines) == Err::<Seq<ClashProxyModel>, SubscriptionError>(e),
    decreases lines.len() - k,
{
    if k < lines.len() {
        assert(lines.take(k + 1).drop_last() =~= lines.take(k));
        lemma_clash_error_persists(lines, k + 1, e);
    } else {
        assert(lines.take(k) =~= lines);
    }
}

/// The sing-box outbounds of the lines of a subscription, empty lines skipped, in order;
/// the first line that fails decides the error.
pub open spec fn sing_box_nodes(lines: Seq<Seq<char>>) -> Result<Seq<OutboundModel>, SubscriptionError>
    decreases lines.len(),
{
    if lines.len() == 0 {
        Ok(Seq::<OutboundModel>::empty())
    } else {
        match sing_box_nodes(lines.drop_last()) {
            Err(e) => Err(e),
            Ok(nodes) => if lines.last().len() == 0 {
                Ok(nodes)
            } else {
                match sing_box_node(lines.last()) {
                    Err(e) => Err(e),
                    Ok(n) => Ok(nodes.push(n)),
                }
            },
        }
    }
}

/// Once a prefix of the lines fails, all of them fail with the same error.
proof fn lemma_sing_box_error_persists(lines: Seq<Seq<char>>, k: int, e: SubscriptionError)
    requires
        0 <= k <= lines.len(),
        sing_box_nodes(lines.take(k)) == Err::<Seq<OutboundModel>, SubscriptionError>(e),
    ensures
        sing_box_nodes(lines) == Err::<Seq<OutboundModel>, SubscriptionError>(e),
    decreases lines.len() - k,
{
    if k < lines.len() {
        assert(lines.take(k + 1).drop_last() =~= lines.take(k));
        lemma_sing_box_error_persists(lines, k + 1, e);
    } else {
        assert(lines.take(k) =~= lines);
    }
}

/// The text of a universal subscription: base64 of UTF-8.
pub open spec fn universal_text(text: Seq<char>) -> Result<Seq<char>, SubscriptionError> {
    match base64_decoded(text) {
        None => Err(SubscriptionError::InvalidBase64),
        Some(b) => if valid_utf8(b) {
            Ok(decode_utf8(b))
        } else {
            Err(SubscriptionError::InvalidUtf8)
        },
    }
}

/// Decodes a universal subscription to its text.
fn decode_universal(text: &str) -> (r: Result<String, SubscriptionError>)
    ensures
        match r {
            Ok(t) => universal_text(text@) == Ok::<Seq<char>, SubscriptionError>(t@),
            Err(e) => universal_text(text@) == Err::<Seq<char>, SubscriptionError>(e),
        },
{
    let bytes = match decode(text) {
        Ok(b) => b,
        Err(_) => return Err(SubscriptionError::InvalidBase64),
    };
    match utf8_string(bytes) {
        Some(t) => Ok(t),
        None => Err(SubscriptionError::InvalidUtf8),
    }
}

/// The Clash configuration of a universal subscription: one proxy per
/// non-empty line, on the built-in controller.
pub open spec fn universal_clash(text: Seq<char>, controller: Seq<char>, secret: Seq<char>) -> Result<
    ClashConfigModel,
    SubscriptionError,
> {
    match universal_text(text) {
        Err(e) => Err(e),
        Ok(t) => match clash_nodes(split_seq(t, '\n')) {
            Err(e) => Err(e),
            Ok(proxies) => Ok(
                ClashConfigModel {
                    proxies,
                    external_controller: controller,
                    secret: Some(secret),
                },
            ),
        },
    }
}

/// Reads a universal subscription into a Clash configuration for the
/// built-in proxy. `Malformed` stands for a share link that lacks a part it
/// must have.
pub fn universal_to_clash(text: &str, inner: &InnerProxyConfig) -> (r: Result<
    ClashConfig,
    SubscriptionError,
>)
    ensures
        result_view(r) == universal_clash(text@, inner.controller@, inner.secret@),
{
    let decoded = match decode_universal(text) {
        Ok(t) => t,
        Err(e) => return Err(e),
    };
    let lines = split_char(decoded.as_str(), '\n');
    let ghost all = lines.deep_view();
    let mut proxies: Vec<ClashProxiesConfig> = Vec::new();
    let mut i: usize = 0;
    assert(all.take(0) =~= Seq::<Seq<char>>::empty());
    assert(proxies_view(proxies@) =~= Seq::<ClashProxyModel>::empty());
    while i < lines.len()
        invariant
            i <= lines@.len(),
            all == lines.deep_view(),
            all == split_seq(decoded@, '\n'),
            universal_text(text@) == Ok::<Seq<char>, SubscriptionError>(decoded@),
            clash_nodes(all.take(i as int)) == Ok::<Seq<ClashProxyModel>, SubscriptionError>(
                proxies_view(proxies@),
            ),
        decreases lines.len() - i,
    {
        assert(all.take(i + 1).drop_last() =~= all.take(i as int));
        assert(all.take(i + 1).last() == lines@[i as int]@);
        let line = lines[i].as_str();
        if !line.is_empty() {
            match clash_proxy_from_link(line) {
                Ok(p) => {
                    let ghost before = proxies_view(proxies@);
                    proxies.push(p);
                    assert(proxies_view(proxies@) =~= before.push(p@));
                },
                Err(e) => {
                    proof {
                        lemma_clash_error_persists(all, i + 1, e);
                    }
                    return Err(e);
                },
            }
        }
        i = i + 1;
    }
    assert(all.take(lines@.len() as int) =~= all);
    let r = ClashConfig {
        proxies,
        external_controller: inner.controller.clone(),
        secret: Some(inner.secret.clone()),
    };
    Ok(r)
}

/// The sing-box configuration of a universal subscription: one outbound
/// per non-empty line, on the built-in controller.
pub open spec fn universal_sing_box(text: Seq<char>, controller: Seq<char>, secret: Seq<char>) -> Result<
    SingBoxModel,
    SubscriptionError,
> {
    match universal_text(text) {
        Err(e) => Err(e),
        Ok(t) => match sing_box_nodes(split_seq(t, '\n')) {
            Err(e) => Err(e),
            Ok(outbounds) => Ok(SingBoxModel { outbounds, ..sing_box_base(controller, secret) }),
        },
    }
}

/// Reads a universal subscription into a sing-box configuration for the
/// built-in proxy. `Malformed` stands for a share link that lacks a part it
/// must have.
pub fn universal_to_sing_box(text: &str, inner: &InnerProxyConfig) -> (r: Result<
    SingBoxConfig,
    SubscriptionError,
>)
    ensures
        result_view(r) == universal_sing_box(text@, inner.controller@, inner.secret@),
{
    let decoded = match decode_universal(text) {
        Ok(t) => t,
        Err(e) => return Err(e),
    };
    let mut config = new_sing_box(inner);
    let lines = split_char(decoded.as_str(), '\n');
    let ghost all = lines.deep_view();
    let mut i: usize = 0;
    assert(all.take(0) =~= Seq::<Seq<char>>::empty());
    while i < lines.len()
        invariant
            i <= lines@.len(),
            all == lines.deep_view(),
            all == split_seq(decoded@, '\n'),
            universal_text(text@) == Ok::<Seq<char>, SubscriptionError>(decoded@),
            config@ == (SingBoxModel {
                outbounds: config@.outbounds,
                ..sing_box_base(inner.controller@, inner.secret@)
            }),
            sing_box_nodes(all.take(i as int)) == Ok::<Seq<OutboundModel>, SubscriptionError>(
                config@.outbounds,
            ),
        decreases lines.len() - i,
    {
        assert(all.take(i + 1).drop_last() =~= all.take(i as int));
        assert(all.take(i + 1).last() == lines@[i as int]@);
        let line = lines[i].as_str();
        if !line.is_empty() {
            match outbound_from_link(line) {
                Ok(o) => {
                    let ghost before = config@.outbounds;
                    config.outbounds.push(o);
                    assert(outbounds_view(config.outbounds@) =~= before.push(o@));
                },
                Err(e) => {
                    proof {
                        lemma_sing_box_error_persists(all, i + 1, e);
                    }
                    return Err(e);
                },
            }
        }
        i = i + 1;
    }
    assert(all.take(lines@.len() as int) =~= all);
    Ok(config)
}

} // verus!
