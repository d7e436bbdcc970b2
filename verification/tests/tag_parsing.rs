use traefik_tailscale_provider::config::{Protocol, ProviderConfig, ServiceInfo};

fn default_config() -> ProviderConfig {
    ProviderConfig::default()
}

#[test]
fn protocol_names_are_case_insensitive() {
    assert_eq!(Protocol::from_str("tcp"), Protocol::Tcp);
    assert_eq!(Protocol::from_str("TCP"), Protocol::Tcp);
    assert_eq!(Protocol::from_str("udp"), Protocol::Udp);
    assert_eq!(Protocol::from_str("uDp"), Protocol::Udp);
    assert_eq!(Protocol::from_str("http"), Protocol::Http);
    assert_eq!(Protocol::from_str("HTTPS"), Protocol::Http);
}

#[test]
fn unknown_protocol_falls_back_to_http() {
    assert_eq!(Protocol::from_str("quic"), Protocol::Http);
    assert_eq!(Protocol::from_str(""), Protocol::Http);
}

#[test]
fn three_segment_tag_round_trip() {
    let cfg = default_config();
    let si = cfg.parse_service_info_from_tag("db-5432-tcp").unwrap();
    assert_eq!(si.name, "db");
    assert_eq!(si.port, Some(5432));
    assert_eq!(si.protocol, Protocol::Tcp);
    assert_eq!(si.scheme, "tcp");
}

#[test]
fn one_segment_tag_uses_defaults() {
    let cfg = default_config();
    let si = cfg.parse_service_info_from_tag("web").unwrap();
    assert_eq!(si.name, "web");
    assert_eq!(si.port, Some(80));
    assert_eq!(si.protocol, Protocol::Http);
    assert_eq!(si.scheme, "http");
}

#[test]
fn invalid_port_is_excluded() {
    let cfg = default_config();
    assert!(cfg.parse_service_info_from_tag("db-notaport").is_none());
    assert!(cfg.parse_service_info_from_tag("db-notaport-tcp").is_none());
    assert!(cfg.parse_service_info_from_tag("db-99999-tcp").is_none());
}

#[test]
fn two_segment_tag_parses_port() {
    let cfg = default_config();
    let si = cfg.parse_service_info_from_tag("service-3000").unwrap();
    assert_eq!(si.name, "service");
    assert_eq!(si.port, Some(3000));
    assert_eq!(si.protocol, Protocol::Http);
    assert_eq!(si.scheme, "http");
}

#[test]
fn tag_prefix_is_stripped() {
    let cfg = default_config();
    let si = cfg.parse_service_info_from_tag("tag:web-3000").unwrap();
    assert_eq!(si.name, "web");
    assert_eq!(si.port, Some(3000));
}

#[test]
fn https_segment_selects_https_scheme() {
    let cfg = default_config();
    let si = cfg.parse_service_info_from_tag("api-8443-https").unwrap();
    assert_eq!(si.name, "api");
    assert_eq!(si.port, Some(8443));
    assert_eq!(si.protocol, Protocol::Http);
    assert_eq!(si.scheme, "https");
}

#[test]
fn multi_segment_name_is_joined() {
    let cfg = default_config();
    let si = cfg.parse_service_info_from_tag("my-cool-app-8080-udp").unwrap();
    assert_eq!(si.name, "my-cool-app");
    assert_eq!(si.port, Some(8080));
    assert_eq!(si.protocol, Protocol::Udp);
    assert_eq!(si.scheme, "udp");
}

#[test]
fn four_segment_tag_with_bad_port_is_excluded() {
    let cfg = default_config();
    assert!(cfg.parse_service_info_from_tag("my-app-x-tcp").is_none());
}

#[test]
fn disabled_extraction_keeps_whole_tag() {
    let mut cfg = default_config();
    cfg.extract_protocol_from_tag = false;
    let si = cfg.parse_service_info_from_tag("tag:db-5432-tcp").unwrap();
    assert_eq!(si.name, "db-5432-tcp");
    assert_eq!(si.port, Some(80));
    assert_eq!(si.protocol, Protocol::Http);
    assert_eq!(si.scheme, "http");
}

#[test]
fn parse_is_stable_across_calls() {
    let cfg = default_config();
    let a: Option<ServiceInfo> = cfg.parse_service_info_from_tag("db-5432-tcp");
    let b: Option<ServiceInfo> = cfg.parse_service_info_from_tag("db-5432-tcp");
    assert_eq!(a, b);
}

#[test]
fn port_with_plus_sign_parses_as_std_does() {
    let cfg = default_config();
    let si = cfg.parse_service_info_from_tag("db-+443").unwrap();
    assert_eq!(si.port, Some(443));
}

#[test]
fn empty_segments_are_kept_by_split() {
    // "a--b" has three segments with an empty middle, which is not a port
    let cfg = default_config();
    assert!(cfg.parse_service_info_from_tag("a--b").is_none());
}
