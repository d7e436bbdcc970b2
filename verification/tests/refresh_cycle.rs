use traefik_tailscale_provider::client::TailscaleError;
use traefik_tailscale_provider::platform::{build_local_tcp_endpoint, parse_same_user_proof};
use traefik_tailscale_provider::config::ProviderConfig;
use traefik_tailscale_provider::platform::PlatformError;
use traefik_tailscale_provider::provider::TraefikProvider;
use traefik_tailscale_provider::refresh::{apply_refresh, resolve_read};
use traefik_tailscale_provider::status::{Status, TaildropTargetStatus};
use traefik_tailscale_provider::traefik::DynamicConfig;

fn empty_status() -> Status {
    Status {
        version: "1.80.0".to_string(),
        tun: true,
        backend_state: "Running".to_string(),
        have_node_key: None,
        auth_url: String::new(),
        tailscale_ips: Vec::new(),
        self_peer: None,
        exit_node_status: None,
        health: Vec::new(),
        magic_dns_suffix: String::new(),
        current_tailnet: None,
        cert_domains: None,
        peers: Some(Vec::new()),
        user: None,
        client_version: None,
    }
}

fn some_config() -> DynamicConfig {
    let provider = TraefikProvider::new(ProviderConfig::default());
    provider.generate_config(&empty_status(), 0)
}

#[test]
fn successful_refresh_replaces_the_cache() {
    let fresh = some_config();
    let cache = apply_refresh(None, Ok(fresh.clone()));
    assert_eq!(cache, Some(fresh));
}

#[test]
fn failed_refresh_keeps_the_previous_configuration() {
    let old = some_config();
    let cache = apply_refresh(
        Some(old.clone()),
        Err(TailscaleError::SocketConnection("gone".to_string())),
    );
    assert_eq!(cache, Some(old));
}

#[test]
fn failed_refresh_of_an_empty_cache_stays_empty() {
    let cache = apply_refresh(None, Err(TailscaleError::ApiError("HTTP 500".to_string())));
    assert_eq!(cache, None);
}

#[test]
fn read_serves_the_cache_when_present() {
    let cached = some_config();
    let stale = Err(TailscaleError::ApiError("unused".to_string()));
    let r = resolve_read(Some(cached.clone()), stale);
    assert_eq!(r, Ok(cached));
}

#[test]
fn read_falls_back_to_on_demand_generation() {
    let generated = some_config();
    let r = resolve_read(None, Ok(generated.clone()));
    assert_eq!(r, Ok(generated));
    let e = resolve_read(None, Err(TailscaleError::JsonParse("bad".to_string())));
    assert_eq!(e, Err(TailscaleError::JsonParse("bad".to_string())));
}

#[test]
fn platform_errors_spell_out_their_cause() {
    assert_eq!(
        PlatformError::UnsupportedOS("plan9".to_string()).message(),
        "Unsupported operating system: plan9"
    );
    assert_eq!(
        PlatformError::SocketNotFound("/tmp/sock".to_string()).message(),
        "Tailscale socket not found at: /tmp/sock"
    );
    assert_eq!(
        PlatformError::PermissionDenied("root only".to_string()).message(),
        "Permission denied: root only"
    );
}

#[test]
fn taildrop_codes_round_trip() {
    for code in 0..=9 {
        let s = TaildropTargetStatus::from_code(code);
        assert_eq!(s.code(), code);
    }
    assert_eq!(TaildropTargetStatus::from_code(42), TaildropTargetStatus::Unknown);
    assert_eq!(TaildropTargetStatus::from_code(-1), TaildropTargetStatus::Unknown);
}

#[test]
fn same_user_proof_is_read_from_the_listing() {
    let listing = "p123\nn/Users/me/Library/Group Containers/ABC.tailscale.ipn.macos/sameuserproof-52333-tok123\nf45";
    assert_eq!(
        parse_same_user_proof(listing),
        Some("tcp://127.0.0.1:52333:tok123".to_string())
    );
}

#[test]
fn same_user_proof_needs_port_dash_token() {
    assert_eq!(parse_same_user_proof(""), None);
    assert_eq!(parse_same_user_proof("nothing relevant\nat all"), None);
    // marker without a dash after the port: no token
    assert_eq!(
        parse_same_user_proof("n/x.tailscale.ipn.macos/sameuserproof-52333"),
        None
    );
    // port is not a number: the line is skipped, a later one wins
    let two = "n/x.tailscale.ipn.macos/sameuserproof-abc-tok\nn/x.tailscale.ipn.macos/sameuserproof-1-t";
    assert_eq!(parse_same_user_proof(two), Some("tcp://127.0.0.1:1:t".to_string()));
}

#[test]
fn local_tcp_endpoint_descriptor_shape() {
    assert_eq!(build_local_tcp_endpoint("8080", "tok"), "tcp://127.0.0.1:8080:tok");
}
