use traefik_tailscale_provider::config::{Protocol, ProviderConfig};

#[test]
fn domain_mapping_parses_entries() {
    let m = ProviderConfig::parse_domain_mapping("web:app.example.net,api:api.example.net")
        .unwrap();
    assert_eq!(m.len(), 2);
    assert_eq!(m[0], ("web".to_string(), "app.example.net".to_string()));
    assert_eq!(m[1], ("api".to_string(), "api.example.net".to_string()));
}

#[test]
fn domain_mapping_empty_string_is_none() {
    assert!(ProviderConfig::parse_domain_mapping("").is_none());
}

#[test]
fn domain_mapping_drops_malformed_entries() {
    let m = ProviderConfig::parse_domain_mapping("noseparator,web:app.example.net,a:b:c")
        .unwrap();
    assert_eq!(m.len(), 1);
    assert_eq!(m[0], ("web".to_string(), "app.example.net".to_string()));
}

#[test]
fn domain_mapping_all_malformed_is_none() {
    assert!(ProviderConfig::parse_domain_mapping("justtext,another").is_none());
}

#[test]
fn domain_mapping_trims_whitespace() {
    let m = ProviderConfig::parse_domain_mapping(" web : app.example.net ").unwrap();
    assert_eq!(m[0], ("web".to_string(), "app.example.net".to_string()));
}

#[test]
fn domain_mapping_trims_unicode_whitespace() {
    // no-break space and ideographic space around the entry
    let m = ProviderConfig::parse_domain_mapping("\u{a0}web\u{a0}:\u{3000}app.example.net\u{3000}")
        .unwrap();
    assert_eq!(m[0], ("web".to_string(), "app.example.net".to_string()));
}

#[test]
fn domain_mapping_last_entry_wins() {
    let m = ProviderConfig::parse_domain_mapping("web:old.example.net,web:new.example.net")
        .unwrap();
    assert_eq!(m.len(), 1);
    assert_eq!(m[0], ("web".to_string(), "new.example.net".to_string()));
}

#[test]
fn service_mapping_parses_entries() {
    let m = ProviderConfig::parse_service_mapping("db:5432:tcp,cache:6379").unwrap();
    assert_eq!(m.len(), 2);
    assert_eq!(m[0].0, "db");
    assert_eq!(m[0].1.name, "db");
    assert_eq!(m[0].1.port, Some(5432));
    assert_eq!(m[0].1.protocol, Protocol::Tcp);
    assert_eq!(m[0].1.scheme, "tcp");
    assert_eq!(m[1].0, "cache");
    assert_eq!(m[1].1.port, Some(6379));
    assert_eq!(m[1].1.protocol, Protocol::Http);
    assert_eq!(m[1].1.scheme, "http");
}

#[test]
fn service_mapping_drops_bad_ports() {
    let m = ProviderConfig::parse_service_mapping("db:notaport:tcp,ok:80").unwrap();
    assert_eq!(m.len(), 1);
    assert_eq!(m[0].0, "ok");
}

#[test]
fn service_mapping_empty_is_none() {
    assert!(ProviderConfig::parse_service_mapping("").is_none());
    assert!(ProviderConfig::parse_service_mapping("bad").is_none());
}

#[test]
fn default_config_values() {
    let cfg = ProviderConfig::default();
    assert_eq!(cfg.default_port, 80);
    assert!(cfg.exclude_exit_nodes);
    assert!(cfg.exclude_expired);
    assert!(cfg.extract_protocol_from_tag);
    assert_eq!(cfg.health_check_path.as_deref(), Some("/health"));
    assert_eq!(cfg.update_interval_seconds, 30);
    assert_eq!(cfg.server_port, 8080);
    assert_eq!(cfg.default_scheme, "http");
    assert_eq!(cfg.default_protocol, Protocol::Http);
    assert!(cfg.include_tags.is_none());
    assert!(cfg.max_inactive_seconds.is_none());
}
