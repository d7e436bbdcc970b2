use traefik_tailscale_provider::config::ProviderConfig;
use traefik_tailscale_provider::provider::TraefikProvider;
use traefik_tailscale_provider::status::{NodePublic, PeerStatus, StableNodeID, UserID};

fn make_peer(hostname: &str, ips: &[&str], tags: Option<&[&str]>) -> PeerStatus {
    PeerStatus {
        id: StableNodeID("node1".to_string()),
        public_key: NodePublic("key1".to_string()),
        hostname: hostname.to_string(),
        dns_name: format!("{}.example.ts.net.", hostname),
        os: "linux".to_string(),
        user_id: UserID(1),
        tailscale_ips: ips.iter().map(|s| s.to_string()).collect(),
        tags: tags.map(|ts| ts.iter().map(|s| s.to_string()).collect()),
        cur_addr: String::new(),
        relay: String::new(),
        rx_bytes: 0,
        tx_bytes: 0,
        created_unix: 1_700_000_000,
        last_write_unix: 1_700_000_000,
        last_seen_unix: 1_700_000_000,
        last_handshake_unix: 1_700_000_000,
        online: Some(true),
        exit_node: false,
        exit_node_option: false,
        active: true,
        in_network_map: true,
        in_magic_sock: true,
        in_engine: true,
        taildrop_target: None,
        key_expiry_unix: None,
        expired: Some(false),
    }
}

const NOW: i64 = 1_700_000_100;

#[test]
fn online_peer_is_included_by_default() {
    let provider = TraefikProvider::new(ProviderConfig::default());
    let peer = make_peer("box1", &["100.64.0.5"], None);
    assert!(provider.should_include_peer(&peer, NOW));
}

#[test]
fn offline_peer_is_excluded_regardless_of_policy() {
    // even the most permissive policy keeps an offline peer out
    let mut cfg = ProviderConfig::default();
    cfg.exclude_exit_nodes = false;
    cfg.exclude_expired = false;
    let provider = TraefikProvider::new(cfg);
    let mut peer = make_peer("box1", &["100.64.0.5"], None);
    peer.online = Some(false);
    assert!(!provider.should_include_peer(&peer, NOW));
    peer.online = None;
    assert!(!provider.should_include_peer(&peer, NOW));
}

#[test]
fn exit_node_is_excluded_when_configured() {
    let provider = TraefikProvider::new(ProviderConfig::default());
    let mut peer = make_peer("box1", &["100.64.0.5"], None);
    peer.exit_node = true;
    assert!(!provider.should_include_peer(&peer, NOW));
}

#[test]
fn exit_node_is_kept_when_exclusion_is_off() {
    let mut cfg = ProviderConfig::default();
    cfg.exclude_exit_nodes = false;
    let provider = TraefikProvider::new(cfg);
    let mut peer = make_peer("box1", &["100.64.0.5"], None);
    peer.exit_node = true;
    assert!(provider.should_include_peer(&peer, NOW));
}

#[test]
fn include_tags_require_a_substring_match() {
    let mut cfg = ProviderConfig::default();
    cfg.include_tags = Some(vec!["web".to_string()]);
    let provider = TraefikProvider::new(cfg);
    let peer = make_peer("box1", &["100.64.0.5"], Some(&["tag:web-3000"]));
    assert!(provider.should_include_peer(&peer, NOW));
    let other = make_peer("box2", &["100.64.0.6"], Some(&["tag:db-5432"]));
    assert!(!provider.should_include_peer(&other, NOW));
}

#[test]
fn include_tags_exclude_peers_without_tags() {
    let mut cfg = ProviderConfig::default();
    cfg.include_tags = Some(vec!["web".to_string()]);
    let provider = TraefikProvider::new(cfg);
    let peer = make_peer("box1", &["100.64.0.5"], None);
    assert!(!provider.should_include_peer(&peer, NOW));
}

#[test]
fn excluded_hostname_is_dropped() {
    let mut cfg = ProviderConfig::default();
    cfg.exclude_hostnames = Some(vec!["box1".to_string()]);
    let provider = TraefikProvider::new(cfg);
    let peer = make_peer("box1", &["100.64.0.5"], None);
    assert!(!provider.should_include_peer(&peer, NOW));
    let other = make_peer("box2", &["100.64.0.6"], None);
    assert!(provider.should_include_peer(&other, NOW));
}

#[test]
fn inactivity_bound_excludes_stale_and_never_active_peers() {
    let mut cfg = ProviderConfig::default();
    cfg.max_inactive_seconds = Some(60);
    let provider = TraefikProvider::new(cfg);
    // active 100 seconds ago: too old for a 60 second bound
    let stale = make_peer("box1", &["100.64.0.5"], None);
    assert!(!provider.should_include_peer(&stale, NOW));
    // active 30 seconds ago: fine
    let mut fresh = make_peer("box2", &["100.64.0.6"], None);
    fresh.last_write_unix = NOW - 30;
    assert!(provider.should_include_peer(&fresh, NOW));
    // the epoch means never active
    let mut never = make_peer("box3", &["100.64.0.7"], None);
    never.last_write_unix = 0;
    assert!(!provider.should_include_peer(&never, NOW));
}

#[test]
fn os_filter_keeps_only_listed_systems() {
    let mut cfg = ProviderConfig::default();
    cfg.include_os = Some(vec!["linux".to_string()]);
    let provider = TraefikProvider::new(cfg);
    let peer = make_peer("box1", &["100.64.0.5"], None);
    assert!(provider.should_include_peer(&peer, NOW));
    let mut win = make_peer("box2", &["100.64.0.6"], None);
    win.os = "windows".to_string();
    assert!(!provider.should_include_peer(&win, NOW));
}

#[test]
fn expired_peer_is_excluded_when_configured() {
    let provider = TraefikProvider::new(ProviderConfig::default());
    let mut peer = make_peer("box1", &["100.64.0.5"], None);
    peer.expired = Some(true);
    assert!(!provider.should_include_peer(&peer, NOW));
    let mut cfg = ProviderConfig::default();
    cfg.exclude_expired = false;
    let lax = TraefikProvider::new(cfg);
    assert!(lax.should_include_peer(&peer, NOW));
}

#[test]
fn missing_expired_flag_counts_as_not_expired() {
    let provider = TraefikProvider::new(ProviderConfig::default());
    let mut peer = make_peer("box1", &["100.64.0.5"], None);
    peer.expired = None;
    assert!(provider.should_include_peer(&peer, NOW));
}

#[test]
fn service_names_are_stable_and_sanitized() {
    let provider = TraefikProvider::new(ProviderConfig::default());
    let peer = make_peer("My.Box_1", &["100.64.0.5"], None);
    let si = provider.extract_service_infos_from_peer(&peer);
    assert_eq!(si.len(), 1);
    assert_eq!(si[0].name, "default");
    let name1 = provider.generate_service_name_from_info(&peer, &si[0]);
    let name2 = provider.generate_service_name_from_info(&peer, &si[0]);
    assert_eq!(name1, "tailscale-my-box-1");
    assert_eq!(name1, name2);
    let router = provider.generate_router_name_from_info(&peer, &si[0]);
    assert_eq!(router, "tailscale-my-box-1-router");
}

#[test]
fn hostnames_are_lower_cased_beyond_ascii() {
    let provider = TraefikProvider::new(ProviderConfig::default());
    let peer = make_peer("B\u{d6}X.1", &["100.64.0.5"], None);
    let si = provider.extract_service_infos_from_peer(&peer);
    let name = provider.generate_service_name_from_info(&peer, &si[0]);
    assert_eq!(name, "tailscale-b\u{f6}x-1");
}

#[test]
fn extraction_includes_mapped_services() {
    let mut cfg = ProviderConfig::default();
    cfg.tag_service_mapping = ProviderConfig::parse_service_mapping("db:5432:tcp");
    let provider = TraefikProvider::new(cfg);
    let peer = make_peer("box1", &["100.64.0.5"], Some(&["tag:db"]));
    let si = provider.extract_service_infos_from_peer(&peer);
    // the tag itself parses as a bare name, and the mapping adds one more
    assert_eq!(si.len(), 2);
    assert_eq!(si[0].name, "db");
    assert_eq!(si[0].port, Some(80));
    assert_eq!(si[1].name, "db");
    assert_eq!(si[1].port, Some(5432));
}

#[test]
fn include_filter_applies_to_extracted_names() {
    let mut cfg = ProviderConfig::default();
    cfg.include_tags = Some(vec!["web".to_string()]);
    let provider = TraefikProvider::new(cfg);
    let peer = make_peer("box1", &["100.64.0.5"], Some(&["tag:web-3000", "tag:db-5432"]));
    let si = provider.extract_service_infos_from_peer(&peer);
    assert_eq!(si.len(), 1);
    assert_eq!(si[0].name, "web");
}
