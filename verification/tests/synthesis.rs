use traefik_tailscale_provider::config::ProviderConfig;
use traefik_tailscale_provider::provider::TraefikProvider;
use traefik_tailscale_provider::status::{NodePublic, PeerStatus, StableNodeID, Status, UserID};
use traefik_tailscale_provider::traefik::{Router, Service, TcpRouter, TcpService, UdpRouter};

fn make_peer(hostname: &str, ips: &[&str], tags: Option<&[&str]>) -> PeerStatus {
    PeerStatus {
        id: StableNodeID(format!("id-{}", hostname)),
        public_key: NodePublic(format!("key-{}", hostname)),
        hostname: hostname.to_string(),
        dns_name: format!("{}.example.ts.net.", hostname),
        os: "linux".to_string(),
        user_id: UserID(1),
        tailscale_ips: ips.iter().map(|s| s.to_string()).collect(),
        tags: tags.map(|ts| ts.iter().map(|s| s.to_string()).collect()),
        cur_addr: String::new(),
        relay: String::new(),
        rx_bytes: 0,
        tx_bytes: 0,
        created_unix: 1_700_000_000,
        last_write_unix: 1_700_000_000,
        last_seen_unix: 1_700_000_000,
        last_handshake_unix: 1_700_000_000,
        online: Some(true),
        exit_node: false,
        exit_node_option: false,
        active: true,
        in_network_map: true,
        in_magic_sock: true,
        in_engine: true,
        taildrop_target: None,
        key_expiry_unix: None,
        expired: Some(false),
    }
}

fn make_status(peers: Option<Vec<PeerStatus>>) -> Status {
    Status {
        version: "1.80.0".to_string(),
        tun: true,
        backend_state: "Running".to_string(),
        have_node_key: Some(true),
        auth_url: String::new(),
        tailscale_ips: vec!["100.64.0.1".to_string()],
        self_peer: None,
        exit_node_status: None,
        health: Vec::new(),
        magic_dns_suffix: "example.ts.net".to_string(),
        current_tailnet: None,
        cert_domains: None,
        peers: peers.map(|ps| {
            ps.into_iter().map(|p| (p.public_key.clone(), Some(p))).collect()
        }),
        user: None,
        client_version: None,
    }
}

fn get<'a, T>(table: &'a [(String, T)], key: &str) -> Option<&'a T> {
    table.iter().find(|(k, _)| k == key).map(|(_, v)| v)
}

const NOW: i64 = 1_700_000_100;

#[test]
fn scenario_one_http_peer() {
    let provider = TraefikProvider::new(ProviderConfig::default());
    let status = make_status(Some(vec![make_peer(
        "box1",
        &["100.64.0.5"],
        Some(&["web-3000"]),
    )]));
    let config = provider.generate_config(&status, NOW);
    let http = config.http.expect("http section present");
    assert!(config.tcp.is_none());
    assert!(config.udp.is_none());
    let router: &Router = get(&http.routers, "tailscale-box1-web-router").unwrap();
    assert_eq!(router.rule, "HostRegexp(`.*`)");
    assert_eq!(router.service, "tailscale-box1-web");
    let service: &Service = get(&http.services, "tailscale-box1-web").unwrap();
    assert_eq!(service.load_balancer.servers.len(), 1);
    assert_eq!(service.load_balancer.servers[0].url, "http://100.64.0.5:3000");
    assert_eq!(service.load_balancer.servers[0].weight, Some(1));
    let hc = service.load_balancer.health_check.as_ref().unwrap();
    assert_eq!(hc.path, "/health");
    assert_eq!(hc.interval.as_deref(), Some("30s"));
    assert_eq!(hc.timeout.as_deref(), Some("5s"));
}

#[test]
fn scenario_domain_mapping_changes_rule() {
    let mut cfg = ProviderConfig::default();
    cfg.service_domain_mapping = ProviderConfig::parse_domain_mapping("web:app.example.net");
    let provider = TraefikProvider::new(cfg);
    let status = make_status(Some(vec![make_peer(
        "box1",
        &["100.64.0.5"],
        Some(&["web-3000"]),
    )]));
    let config = provider.generate_config(&status, NOW);
    let http = config.http.unwrap();
    let router = get(&http.routers, "tailscale-box1-web-router").unwrap();
    assert_eq!(router.rule, "Host(`app.example.net`)");
}

#[test]
fn scenario_excluded_exit_node_contributes_nothing() {
    let provider = TraefikProvider::new(ProviderConfig::default());
    let mut peer = make_peer("box1", &["100.64.0.5"], Some(&["web-3000"]));
    peer.exit_node = true;
    let status = make_status(Some(vec![peer]));
    let config = provider.generate_config(&status, NOW);
    assert!(config.http.is_none());
    assert!(config.tcp.is_none());
    assert!(config.udp.is_none());
}

#[test]
fn scenario_zero_peers_yields_no_sections() {
    let provider = TraefikProvider::new(ProviderConfig::default());
    let status = make_status(Some(Vec::new()));
    let config = provider.generate_config(&status, NOW);
    assert!(config.http.is_none());
    assert!(config.tcp.is_none());
    assert!(config.udp.is_none());
}

#[test]
fn absent_peer_map_yields_no_sections() {
    let provider = TraefikProvider::new(ProviderConfig::default());
    let status = make_status(None);
    let config = provider.generate_config(&status, NOW);
    assert!(config.http.is_none());
    assert!(config.tcp.is_none());
    assert!(config.udp.is_none());
}

#[test]
fn tcp_tag_fills_the_tcp_section() {
    let provider = TraefikProvider::new(ProviderConfig::default());
    let status = make_status(Some(vec![make_peer(
        "box1",
        &["100.64.0.5"],
        Some(&["db-5432-tcp"]),
    )]));
    let config = provider.generate_config(&status, NOW);
    assert!(config.http.is_none());
    assert!(config.udp.is_none());
    let tcp = config.tcp.unwrap();
    let router: &TcpRouter = get(&tcp.routers, "tailscale-box1-db-router").unwrap();
    assert_eq!(router.rule, "HostSNI(`*`)");
    assert_eq!(router.service, "tailscale-box1-db");
    let service: &TcpService = get(&tcp.services, "tailscale-box1-db").unwrap();
    assert_eq!(service.load_balancer.servers[0].address, "100.64.0.5:5432");
    assert_eq!(service.load_balancer.servers[0].weight, Some(1));
}

#[test]
fn tcp_domain_mapping_becomes_sni_rule() {
    let mut cfg = ProviderConfig::default();
    cfg.service_domain_mapping = ProviderConfig::parse_domain_mapping("db:db.example.net");
    let provider = TraefikProvider::new(cfg);
    let status = make_status(Some(vec![make_peer(
        "box1",
        &["100.64.0.5"],
        Some(&["db-5432-tcp"]),
    )]));
    let config = provider.generate_config(&status, NOW);
    let tcp = config.tcp.unwrap();
    let router = get(&tcp.routers, "tailscale-box1-db-router").unwrap();
    assert_eq!(router.rule, "HostSNI(`db.example.net`)");
}

#[test]
fn udp_router_only_names_its_service() {
    let provider = TraefikProvider::new(ProviderConfig::default());
    let status = make_status(Some(vec![make_peer(
        "box1",
        &["100.64.0.5"],
        Some(&["dns-53-udp"]),
    )]));
    let config = provider.generate_config(&status, NOW);
    let udp = config.udp.unwrap();
    let router: &UdpRouter = get(&udp.routers, "tailscale-box1-dns-router").unwrap();
    assert_eq!(router.service, "tailscale-box1-dns");
    let service = get(&udp.services, "tailscale-box1-dns").unwrap();
    assert_eq!(service.load_balancer.servers[0].address, "100.64.0.5:53");
}

#[test]
fn peer_without_addresses_is_skipped() {
    let provider = TraefikProvider::new(ProviderConfig::default());
    let status = make_status(Some(vec![make_peer("box1", &[], Some(&["web-3000"]))]));
    let config = provider.generate_config(&status, NOW);
    assert!(config.http.is_none());
    assert!(config.tcp.is_none());
    assert!(config.udp.is_none());
}

#[test]
fn untagged_peer_gets_the_default_service() {
    let provider = TraefikProvider::new(ProviderConfig::default());
    let status = make_status(Some(vec![make_peer("box1", &["100.64.0.5"], None)]));
    let config = provider.generate_config(&status, NOW);
    let http = config.http.unwrap();
    let service = get(&http.services, "tailscale-box1").unwrap();
    assert_eq!(service.load_balancer.servers[0].url, "http://100.64.0.5:80");
    assert!(get::<Router>(&http.routers, "tailscale-box1-router").is_some());
}

#[test]
fn colliding_names_are_overwritten_last_wins() {
    let provider = TraefikProvider::new(ProviderConfig::default());
    let mut first = make_peer("box1", &["100.64.0.5"], Some(&["web-3000"]));
    first.public_key = NodePublic("key-a".to_string());
    let mut second = make_peer("Box1", &["100.64.0.9"], Some(&["web-3000"]));
    second.public_key = NodePublic("key-b".to_string());
    let status = make_status(Some(vec![first, second]));
    let config = provider.generate_config(&status, NOW);
    let http = config.http.unwrap();
    assert_eq!(http.services.len(), 1);
    let service = get(&http.services, "tailscale-box1-web").unwrap();
    assert_eq!(service.load_balancer.servers[0].url, "http://100.64.0.9:3000");
}

#[test]
fn synthesis_is_idempotent() {
    let mut cfg = ProviderConfig::default();
    cfg.service_domain_mapping = ProviderConfig::parse_domain_mapping("web:app.example.net");
    let provider = TraefikProvider::new(cfg);
    let status = make_status(Some(vec![
        make_peer("box1", &["100.64.0.5"], Some(&["web-3000", "db-5432-tcp"])),
        make_peer("box2", &["100.64.0.6"], None),
    ]));
    let a = provider.generate_config(&status, NOW);
    let b = provider.generate_config(&status, NOW);
    assert_eq!(a, b);
}

#[test]
fn absent_health_check_path_leaves_services_without_checks() {
    let mut cfg = ProviderConfig::default();
    cfg.health_check_path = None;
    let provider = TraefikProvider::new(cfg);
    let status = make_status(Some(vec![make_peer(
        "box1",
        &["100.64.0.5"],
        Some(&["web-3000"]),
    )]));
    let config = provider.generate_config(&status, NOW);
    let http = config.http.unwrap();
    let service = get(&http.services, "tailscale-box1-web").unwrap();
    assert!(service.load_balancer.health_check.is_none());
}

#[test]
fn absent_peer_entry_is_skipped() {
    let provider = TraefikProvider::new(ProviderConfig::default());
    let mut status = make_status(Some(vec![make_peer(
        "box1",
        &["100.64.0.5"],
        Some(&["web-3000"]),
    )]));
    status
        .peers
        .as_mut()
        .unwrap()
        .push((NodePublic("ghost".to_string()), None));
    let config = provider.generate_config(&status, NOW);
    let http = config.http.unwrap();
    assert_eq!(http.services.len(), 1);
}
