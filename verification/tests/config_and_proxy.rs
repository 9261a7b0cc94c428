use airdo::app_config::{
    proxy_api_info, uses_inner_proxy, validate_config, AirportInnerProxyConfig, Config,
    ConfigError, ExternalProxyConfig, HealthCheckConfig, InnerProxyConfig, ProxyConfig,
    ServerConfig,
};
use airdo::health_check_mapper::{column_name, insert_columns, page_offset, page_total, HealthCheck, HealthCheckColumn};
use airdo::health_check_service::{health_check_record, DelayOutcome};
use airdo::http_util::{authorization_value, controller_url, USER_AGENT_KEY};
use airdo::proxy_service::{
    api_probe_step, delay_path, delay_status_error, filter_proxy_nodes, group_delay_path, node_positions,
    proxy_start_commands,
    DelayStatusError, ProbeStep, ProxyApiInfo,
};
use airdo::version_service::{get_build_time, get_build_version, get_git_sha};
use percent_encoding::{utf8_percent_encode, NON_ALPHANUMERIC};

fn config(test_url: &str, inner_secret: Option<&str>, external: Option<bool>) -> Config {
    Config {
        server: ServerConfig { bind: "0.0.0.0".into(), port: 8080, web: "web".into(), auth: None },
        health_check: HealthCheckConfig {
            interval_time: 60,
            connect_timeout: 5,
            test_url: test_url.into(),
        },
        proxy: ProxyConfig {
            enabled: true,
            inner: inner_secret.map(|s| InnerProxyConfig {
                core: "mihomo".into(),
                controller: "127.0.0.1:9090".into(),
                secret: s.into(),
                airport: AirportInnerProxyConfig { url_type: "clash".into(), url: "u".into() },
            }),
            external: external.map(|enabled| ExternalProxyConfig {
                enabled,
                external_controller: "10.0.0.1:9090".into(),
                secret: "ext".into(),
            }),
        },
    }
}

#[test]
fn validate_config_refuses_empty_test_url() {
    assert_eq!(validate_config(config("", Some("x"), None)).err(), Some(ConfigError::EmptyTestUrl));
}

#[test]
fn validate_config_refuses_non_http_test_url() {
    assert_eq!(
        validate_config(config("ftp://x", Some("x"), None)).err(),
        Some(ConfigError::TestUrlNotHttp)
    );
}

#[test]
fn validate_config_refuses_missing_proxy() {
    assert_eq!(validate_config(config("https://x", None, None)).err(), Some(ConfigError::NoProxy));
}

#[test]
fn validate_config_keeps_a_set_secret() {
    let c = validate_config(config("https://x", Some("keep"), None)).unwrap();
    assert_eq!(c.proxy.inner.unwrap().secret, "keep");
}

#[test]
fn validate_config_fills_an_empty_secret_with_a_uuid() {
    let c = validate_config(config("http://x", Some(""), Some(false))).unwrap();
    let secret = c.proxy.inner.unwrap().secret;
    assert_eq!(secret.len(), 36);
    assert!(uuid::Uuid::parse_str(&secret).is_ok());
    assert_eq!(secret, secret.to_lowercase());
    assert_eq!(secret.as_bytes()[14], b'4');
    assert!(b"89ab".contains(&secret.as_bytes()[19]));
    assert!(c.proxy.external.unwrap().secret == "ext");
}

#[test]
fn proxy_selection_prefers_inner_unless_external_enabled() {
    let c = config("http://x", Some("in"), Some(false));
    assert!(uses_inner_proxy(&c));
    let info = proxy_api_info(&c);
    assert_eq!(info.external_controller, "127.0.0.1:9090");
    assert_eq!(info.secret, "in");
    let c = config("http://x", Some("in"), Some(true));
    assert!(!uses_inner_proxy(&c));
    assert_eq!(proxy_api_info(&c).secret, "ext");
    let c = config("http://x", None, Some(true));
    assert_eq!(proxy_api_info(&c).external_controller, "10.0.0.1:9090");
}

#[test]
fn start_commands_per_core_and_system() {
    assert_eq!(proxy_start_commands("MIHOMO", false), vec!["./mihomo -d ."]);
    assert_eq!(proxy_start_commands("mihomo", true), vec![r".\mihomo.exe -d ."]);
    assert_eq!(proxy_start_commands("sing-box", false), vec!["./sing-box run -c config.json"]);
    assert_eq!(proxy_start_commands("other", true), vec![r".\sing-box.exe run -c config.json"]);
}

#[test]
fn filter_proxy_nodes_drops_builtin_outbounds() {
    let all: Vec<String> = ["DIRECT", "hk-01", "reject", "Direct", "jp-02", "REJECT"]
        .iter()
        .map(|s| s.to_string())
        .collect();
    let nodes = filter_proxy_nodes(all);
    assert_eq!(nodes, vec!["hk-01", "jp-02"]);
    assert_eq!(filter_proxy_nodes(nodes.clone()), nodes);
}

#[test]
fn delay_paths_match_the_controller_format() {
    let timeout = std::time::Duration::from_secs(5);
    let node = "香港 01/a?b";
    let url = "https://cp.cloudflare.com/generate_204";
    let expected = format!(
        "/proxies/{}/delay?timeout={}&url={}",
        utf8_percent_encode(node, NON_ALPHANUMERIC),
        timeout.as_millis(),
        utf8_percent_encode(url, NON_ALPHANUMERIC)
    );
    assert_eq!(delay_path(node, timeout.as_millis(), url), expected);
    let expected = format!(
        "/group/proxy/delay?timeout={}&url={}",
        timeout.as_millis(),
        utf8_percent_encode(url, NON_ALPHANUMERIC)
    );
    assert_eq!(group_delay_path(timeout.as_millis(), url), expected);
}

#[test]
fn delay_path_components_are_only_letters_digits_and_percent() {
    let p = delay_path("a/b&c=d", 1000, "http://x?y=z");
    let tail = p.strip_prefix("/proxies/").unwrap();
    let (node, rest) = tail.split_once("/delay?timeout=").unwrap();
    assert!(node.chars().all(|c| c.is_ascii_alphanumeric() || c == '%'));
    let (_, url) = rest.split_once("&url=").unwrap();
    assert!(url.chars().all(|c| c.is_ascii_alphanumeric() || c == '%'));
}

#[test]
fn api_probe_gives_up_after_five_failures() {
    assert_eq!(api_probe_step(0, true), ProbeStep::Started);
    assert_eq!(api_probe_step(0, false), ProbeStep::Retry);
    assert_eq!(api_probe_step(3, false), ProbeStep::Retry);
    assert_eq!(api_probe_step(4, false), ProbeStep::GiveUp);
    assert_eq!(api_probe_step(4, true), ProbeStep::Started);
}

#[test]
fn delay_status_error_new_keeps_fields() {
    let e = DelayStatusError::new(504, "Gateway Timeout");
    assert_eq!(e.status, 504);
    assert_eq!(e.des, "Gateway Timeout");
}

#[test]
fn delay_status_error_describes_unknown_statuses() {
    let e = delay_status_error(599, None);
    assert_eq!(e.status, 599);
    assert_eq!(e.des, "<unknown status code>");
    assert_eq!(delay_status_error(404, Some("Not Found")).des, "Not Found");
}

#[test]
fn health_check_record_of_each_outcome() {
    let r = health_check_record(100, "hk", DelayOutcome::Delay(123)).unwrap();
    assert_eq!(r.request_time, Some(100));
    assert_eq!(r.node_name.as_deref(), Some("hk"));
    assert_eq!(r.status_code, Some(200));
    assert_eq!(r.status_des.as_deref(), Some("Success"));
    assert_eq!(r.delay_ms, Some(123));
    assert_eq!(r.create_time, None);

    let r = health_check_record(100, "hk", DelayOutcome::Status(DelayStatusError::new(408, "Request Timeout"))).unwrap();
    assert_eq!(r.status_code, Some(408));
    assert_eq!(r.status_des.as_deref(), Some("Request Timeout"));
    assert_eq!(r.delay_ms, Some(-1));

    let r = health_check_record(100, "hk", DelayOutcome::Failure("connection refused".into()));
    assert_eq!(r.err().as_deref(), Some("connection refused"));

    let r = health_check_record(1, "x", DelayOutcome::Delay(4_294_967_296 + 7)).unwrap();
    assert_eq!(r.delay_ms, Some(7));
}

#[test]
fn insert_columns_follow_present_fields() {
    let e = HealthCheck {
        id: Some(1),
        create_time: Some(2),
        request_time: None,
        node_name: Some("n".into()),
        status_code: None,
        status_des: Some("d".into()),
        delay_ms: Some(3),
    };
    let cols = insert_columns(&e);
    assert_eq!(
        cols,
        vec![
            HealthCheckColumn::CreateTime,
            HealthCheckColumn::NodeName,
            HealthCheckColumn::StatusDes,
            HealthCheckColumn::DelayMs
        ]
    );
    let names: Vec<&str> = cols.into_iter().map(column_name).collect();
    assert_eq!(names.join(", "), "create_time, node_name, status_des, delay_ms");
}

#[test]
fn page_offset_counts_pages_from_one() {
    assert_eq!(page_offset(1, 20), 0);
    assert_eq!(page_offset(3, 20), 40);
}

#[test]
fn controller_request_parts() {
    let info = ProxyApiInfo { external_controller: "127.0.0.1:9090".into(), secret: "abc".into() };
    assert_eq!(authorization_value(&info), "Bearer abc");
    assert_eq!(controller_url(&info, "/proxies/"), "http://127.0.0.1:9090/proxies/");
    assert_eq!(USER_AGENT_KEY, "User-Agent");
}

#[test]
fn build_information() {
    assert_eq!(get_build_version(), "0.1.0");
    assert_eq!(get_build_time("2024-05-01T08:30:00.000000000Z"), "2024-05-01T08:30:00.000000000Z");
    assert_eq!(get_git_sha("3f2a9c1d0b7e"), "3f2a9c1d0b7e");
}

#[test]
fn page_total_is_none_for_no_rows() {
    assert_eq!(page_total(0), None);
    assert_eq!(page_total(-3), None);
    assert_eq!(page_total(42), Some(42));
    assert_eq!(page_total(4_294_967_297), Some(1));
}

#[test]
fn delay_status_error_message() {
    let error = delay_status_error(504, Some("Gateway Timeout"));
    assert_eq!(error.message(), "DelayStatusError 504 Gateway Timeout");
    let unknown = delay_status_error(599, None);
    assert_eq!(unknown.message(), "DelayStatusError 599 <unknown status code>");
}

#[test]
fn node_positions_follow_the_group_order() {
    let names: Vec<String> = vec!["b".into(), "missing".into(), "a".into(), "b".into()];
    let keys: Vec<String> = vec!["a".into(), "b".into(), "proxy".into()];
    assert_eq!(node_positions(&names, &keys), vec![Some(1), None, Some(0), Some(1)]);
    assert_eq!(node_positions(&Vec::new(), &keys), Vec::<Option<usize>>::new());
    let repeated: Vec<String> = vec!["x".into(), "x".into()];
    assert_eq!(node_positions(&vec!["x".to_string()], &repeated), vec![Some(0)]);
}
