use airdo::app_config::{AirportInnerProxyConfig, InnerProxyConfig};
use airdo::clash_config::{ClashConfig, ClashProxiesConfig, ClashProxiesPluginOptsConfig};
use airdo::subscriptions_service::{
    clash_proxy_from_link, clash_to_sing_box, is_clash_subscription, is_mihomo_core,
    outbound_from_link, universal_to_clash, universal_to_sing_box, with_controller,
    SubscriptionError,
};
use base64::engine::general_purpose::{STANDARD, URL_SAFE_NO_PAD};
use base64::Engine;

fn inner(core: &str, url_type: &str) -> InnerProxyConfig {
    InnerProxyConfig {
        core: core.to_string(),
        controller: "127.0.0.1:9090".to_string(),
        secret: "s3cret".to_string(),
        airport: AirportInnerProxyConfig {
            url_type: url_type.to_string(),
            url: "https://airport.example/sub".to_string(),
        },
    }
}

fn ss_link() -> String {
    let user = URL_SAFE_NO_PAD.encode("aes-256-gcm:secret");
    format!(
        "ss://{}@ss.example.com:8388/?plugin=obfs-local%3Bobfs%3Dhttp%3Bobfs-host%3Dcdn.example.com#Node%20A",
        user
    )
}

fn trojan_link() -> String {
    "trojan://pass123@trojan.example.com:443?sni=sni.example.com&allowInsecure=1#%20Trojan%20B%20".to_string()
}

fn clash_proxy(name: &str, proxy_type: &str) -> ClashProxiesConfig {
    ClashProxiesConfig {
        name: name.to_string(),
        proxy_type: proxy_type.to_string(),
        server: format!("{}.example.com", name),
        port: 443,
        password: Some("pw".to_string()),
        cipher: None,
        sni: None,
        skip_cert_verify: None,
        plugin: None,
        plugin_opts: None,
    }
}

#[test]
fn subscription_kind_and_core_ignore_case() {
    assert!(is_clash_subscription(&inner("mihomo", "CLASH")));
    assert!(!is_clash_subscription(&inner("mihomo", "universal")));
    assert!(is_mihomo_core(&inner("MiHoMo", "clash")));
    assert!(!is_mihomo_core(&inner("sing-box", "clash")));
}

#[test]
fn with_controller_points_at_built_in_controller() {
    let clash = ClashConfig {
        proxies: vec![clash_proxy("a", "ss")],
        external_controller: "0.0.0.0:1".to_string(),
        secret: None,
    };
    let r = with_controller(clash, &inner("mihomo", "clash"));
    assert_eq!(r.external_controller, "127.0.0.1:9090");
    assert_eq!(r.secret.as_deref(), Some("s3cret"));
    assert_eq!(r.proxies.len(), 1);
    assert_eq!(r.proxies[0].name, "a");
}

#[test]
fn clash_to_sing_box_converts_each_proxy() {
    let mut ss = clash_proxy("a", "ss");
    ss.cipher = Some("aes-128-gcm".to_string());
    ss.plugin = Some("obfs".to_string());
    ss.plugin_opts = Some(ClashProxiesPluginOptsConfig {
        mode: "tls".to_string(),
        host: "h.example".to_string(),
    });
    let mut trojan = clash_proxy("b", "trojan");
    trojan.skip_cert_verify = Some(true);
    let vmess = clash_proxy("c", "vmess");
    let clash = ClashConfig {
        proxies: vec![ss, trojan, vmess],
        external_controller: String::new(),
        secret: None,
    };
    let r = clash_to_sing_box(&clash, &inner("sing-box", "clash"));
    assert_eq!(r.log.level, "info");
    assert!(r.experimental.cache_file.enabled);
    assert_eq!(r.experimental.clash_api.external_controller, "127.0.0.1:9090");
    assert_eq!(r.experimental.clash_api.secret, "s3cret");
    assert_eq!(r.outbounds.len(), 3);

    let o = &r.outbounds[0];
    assert_eq!(o.outbound_type, "shadowsocks");
    assert_eq!(o.tag, "a");
    assert_eq!(o.server, "a.example.com");
    assert_eq!(o.server_port, 443);
    assert_eq!(o.password.as_deref(), Some("pw"));
    assert_eq!(o.method.as_deref(), Some("aes-128-gcm"));
    assert_eq!(o.plugin.as_deref(), Some("obfs-local"));
    assert_eq!(o.plugin_opts.as_deref(), Some("obfs=tls;obfs-host=h.example"));
    assert!(o.tls.is_none());

    let o = &r.outbounds[1];
    assert_eq!(o.outbound_type, "trojan");
    let tls = o.tls.as_ref().unwrap();
    assert!(tls.enabled);
    assert!(tls.insecure);
    assert_eq!(tls.server_name, "b.example.com");

    let o = &r.outbounds[2];
    assert_eq!(o.outbound_type, "");
    assert_eq!(o.tag, "c");
    assert_eq!(o.password.as_deref(), Some("pw"));
}

#[test]
fn ss_link_becomes_clash_proxy() {
    let p = clash_proxy_from_link(&ss_link()).unwrap();
    assert_eq!(p.name, "Node A");
    assert_eq!(p.proxy_type, "shadowsocks");
    assert_eq!(p.server, "ss.example.com");
    assert_eq!(p.port, 8388);
    assert_eq!(p.cipher.as_deref(), Some("aes-256-gcm"));
    assert_eq!(p.password.as_deref(), Some("secret"));
    assert_eq!(p.plugin.as_deref(), Some("obfs-local"));
    let opts = p.plugin_opts.unwrap();
    assert_eq!(opts.mode, "http");
    assert_eq!(opts.host, "cdn.example.com");
}

#[test]
fn trojan_link_becomes_clash_proxy() {
    let p = clash_proxy_from_link(&trojan_link()).unwrap();
    assert_eq!(p.name, "Trojan B");
    assert_eq!(p.proxy_type, "trojan");
    assert_eq!(p.server, "trojan.example.com");
    assert_eq!(p.port, 443);
    assert_eq!(p.password.as_deref(), Some("pass123"));
    assert_eq!(p.sni.as_deref(), Some("sni.example.com"));
    assert_eq!(p.skip_cert_verify, Some(true));
}

#[test]
fn ss_link_becomes_outbound() {
    let o = outbound_from_link(&ss_link()).unwrap();
    assert_eq!(o.tag, "Node A");
    assert_eq!(o.outbound_type, "shadowsocks");
    assert_eq!(o.method.as_deref(), Some("aes-256-gcm"));
    assert_eq!(o.password.as_deref(), Some("secret"));
    assert_eq!(o.plugin.as_deref(), Some("obfs-local"));
    assert_eq!(o.plugin_opts.as_deref(), Some("obfs=http;obfs-host=cdn.example.com"));
}

#[test]
fn trojan_link_becomes_outbound() {
    let o = outbound_from_link("trojan://pw@t.example.com:8443?tls=false#T").unwrap();
    assert_eq!(o.outbound_type, "trojan");
    assert_eq!(o.password.as_deref(), Some("pw"));
    let tls = o.tls.unwrap();
    assert!(tls.enabled);
    assert!(tls.insecure);
    assert_eq!(tls.server_name, "t.example.com");
}

#[test]
fn link_errors_are_told_apart() {
    assert_eq!(clash_proxy_from_link("not a url").err(), Some(SubscriptionError::InvalidUrl));
    assert_eq!(
        clash_proxy_from_link("trojan://pw@t.example.com:443").err(),
        Some(SubscriptionError::Malformed)
    );
    assert_eq!(
        clash_proxy_from_link("trojan://pw@t.example.com#name").err(),
        Some(SubscriptionError::Malformed)
    );
    assert_eq!(
        clash_proxy_from_link("trojan://pw@t.example.com:443#%FF").err(),
        Some(SubscriptionError::InvalidUtf8)
    );
    assert_eq!(
        clash_proxy_from_link("ss://!!!!@s.example.com:443#n").err(),
        Some(SubscriptionError::InvalidBase64)
    );
    let no_colon = URL_SAFE_NO_PAD.encode("nocolon");
    assert_eq!(
        clash_proxy_from_link(&format!("ss://{}@s.example.com:443#n", no_colon)).err(),
        Some(SubscriptionError::Malformed)
    );
}

#[test]
fn clash_plugin_without_obfs_host_is_malformed_but_sing_box_accepts_it() {
    let user = URL_SAFE_NO_PAD.encode("aes-256-gcm:secret");
    let link = format!("ss://{}@s.example.com:443/?plugin=simple%3Bmode%3Dx%3Bother%3Dy#n", user);
    assert_eq!(clash_proxy_from_link(&link).err(), Some(SubscriptionError::Malformed));
    let o = outbound_from_link(&link).unwrap();
    assert_eq!(o.plugin.as_deref(), Some("simple"));
    assert_eq!(o.plugin_opts.as_deref(), Some("mode=x;other=y"));
}

#[test]
fn universal_subscription_to_clash() {
    let text = STANDARD.encode(format!("{}\n\n{}\n", ss_link(), trojan_link()));
    let r = universal_to_clash(&text, &inner("mihomo", "universal")).unwrap();
    assert_eq!(r.external_controller, "127.0.0.1:9090");
    assert_eq!(r.secret.as_deref(), Some("s3cret"));
    assert_eq!(r.proxies.len(), 2);
    assert_eq!(r.proxies[0].name, "Node A");
    assert_eq!(r.proxies[1].name, "Trojan B");
}

#[test]
fn universal_subscription_to_sing_box() {
    let text = STANDARD.encode(format!("{}\n{}", ss_link(), trojan_link()));
    let r = universal_to_sing_box(&text, &inner("sing-box", "universal")).unwrap();
    assert_eq!(r.log.level, "info");
    assert_eq!(r.outbounds.len(), 2);
    assert_eq!(r.outbounds[0].tag, "Node A");
    assert_eq!(r.outbounds[1].tag, "Trojan B");
}

#[test]
fn universal_subscription_errors() {
    let i = inner("mihomo", "universal");
    assert_eq!(universal_to_clash("@@@", &i).err(), Some(SubscriptionError::InvalidBase64));
    let not_utf8 = STANDARD.encode([0xffu8, 0xfe]);
    assert_eq!(universal_to_clash(&not_utf8, &i).err(), Some(SubscriptionError::InvalidUtf8));
    let bad_second = STANDARD.encode(format!("{}\nnot a url", ss_link()));
    assert_eq!(universal_to_sing_box(&bad_second, &i).err(), Some(SubscriptionError::InvalidUrl));
}

#[test]
fn universal_subscription_of_empty_lines_has_no_nodes() {
    let text = STANDARD.encode("\n\n");
    let r = universal_to_clash(&text, &inner("mihomo", "universal")).unwrap();
    assert!(r.proxies.is_empty());
}
