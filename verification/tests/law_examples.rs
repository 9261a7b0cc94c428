use airdo::app_config::{
    validate_config, AirportInnerProxyConfig, Config, HealthCheckConfig, InnerProxyConfig,
    ProxyConfig, ServerConfig,
};
use airdo::clash_config::{ClashConfig, ClashProxiesConfig};
use airdo::proxy_service::{api_probe_step, delay_path, filter_proxy_nodes, ProbeStep};
use airdo::subscriptions_service::{clash_to_sing_box, universal_to_clash, universal_to_sing_box};
use airdo::text::trim;
use base64::engine::general_purpose::STANDARD;
use base64::Engine;

fn inner() -> InnerProxyConfig {
    InnerProxyConfig {
        core: "sing-box".into(),
        controller: "127.0.0.1:9090".into(),
        secret: String::new(),
        airport: AirportInnerProxyConfig { url_type: "universal".into(), url: "u".into() },
    }
}

#[test]
fn accepted_config_is_usable() {
    let c = Config {
        server: ServerConfig { bind: "0.0.0.0".into(), port: 1, web: "w".into(), auth: None },
        health_check: HealthCheckConfig {
            interval_time: 1,
            connect_timeout: 1,
            test_url: "http://cp.cloudflare.com".into(),
        },
        proxy: ProxyConfig { enabled: true, inner: Some(inner()), external: None },
    };
    let c = validate_config(c).unwrap();
    assert!(c.health_check.test_url.starts_with("http"));
    assert!(!c.proxy.inner.unwrap().secret.is_empty());
}

#[test]
fn sing_box_outbounds_follow_clash_proxies() {
    let proxies: Vec<ClashProxiesConfig> = (0..4u16)
        .map(|i| ClashProxiesConfig {
            name: format!("n{}", i),
            proxy_type: ["ss", "trojan", "vmess", "ss"][i as usize].into(),
            server: format!("s{}", i),
            port: 1000 + i,
            password: Some(format!("p{}", i)),
            cipher: None,
            sni: None,
            skip_cert_verify: None,
            plugin: None,
            plugin_opts: None,
        })
        .collect();
    let clash = ClashConfig { proxies: proxies.clone(), external_controller: String::new(), secret: None };
    let sb = clash_to_sing_box(&clash, &inner());
    assert_eq!(sb.outbounds.len(), proxies.len());
    for (o, p) in sb.outbounds.iter().zip(proxies.iter()) {
        assert_eq!(o.tag, p.name);
        assert_eq!(o.server, p.server);
        assert_eq!(o.server_port, p.port);
        assert_eq!(o.password, p.password);
    }
}

#[test]
fn one_node_per_non_empty_line() {
    let lines = [
        "trojan://a@h1.example:1#one",
        "",
        "trojan://b@h2.example:2#two",
        "vless://c@h3.example:3#three",
        "",
    ];
    let text = STANDARD.encode(lines.join("\n"));
    let clash = universal_to_clash(&text, &inner()).unwrap();
    assert_eq!(clash.proxies.len(), 3);
    let names: Vec<&str> = clash.proxies.iter().map(|p| p.name.as_str()).collect();
    assert_eq!(names, vec!["one", "two", "three"]);
    assert_eq!(clash.proxies[2].proxy_type, "");
    let sb = universal_to_sing_box(&text, &inner()).unwrap();
    assert_eq!(sb.outbounds.len(), 3);
}

#[test]
fn node_filter_is_idempotent_and_drops_builtins() {
    let all: Vec<String> = vec!["a".into(), "REJECT".into(), "b".into(), "direct".into()];
    let once = filter_proxy_nodes(all);
    assert_eq!(once, vec!["a", "b"]);
    assert_eq!(filter_proxy_nodes(once.clone()), once);
}

#[test]
fn delay_path_components_decode_back() {
    for name in ["香港 01", "a/b?c=d&e", "%41", "plain"] {
        let path = delay_path(name, 3000, "https://x.example/?q=1");
        let tail = path.strip_prefix("/proxies/").unwrap();
        let (component, _) = tail.split_once("/delay?timeout=").unwrap();
        let decoded = percent_encoding::percent_decode_str(component).decode_utf8().unwrap();
        assert_eq!(decoded, name);
    }
}

#[test]
fn trim_agrees_with_std_on_white_space() {
    for c in ['\t', '\n', '\u{b}', '\u{c}', '\r', ' ', '\u{85}', '\u{a0}', '\u{1680}', '\u{2000}',
        '\u{2005}', '\u{200a}', '\u{2028}', '\u{2029}', '\u{202f}', '\u{205f}', '\u{3000}',
        '\u{200b}', '\u{feff}', 'x']
    {
        let s = format!("{}{}node{}{}", c, c, c, c);
        assert_eq!(trim(&s), s.trim(), "char {:?}", c);
    }
}

#[test]
fn probe_starts_iff_one_of_five_attempts_connects() {
    for mask in 0u32..64 {
        let connected: Vec<bool> = (0..6).map(|i| mask & (1 << i) != 0).collect();
        let mut attempt = 0u32;
        let started = loop {
            match api_probe_step(attempt, connected[attempt as usize]) {
                ProbeStep::Started => break true,
                ProbeStep::GiveUp => break false,
                ProbeStep::Retry => attempt += 1,
            }
        };
        assert_eq!(started, connected[..5].iter().any(|c| *c), "mask {:b}", mask);
    }
}
