use traefik_tailscale_provider::client::{
    api_error_for_status, auth_header_value, http_status_is_success, parse_endpoint, status_path,
    Endpoint, TailscaleError,
};

#[test]
fn tcp_descriptor_with_token() {
    let e = parse_endpoint("tcp://127.0.0.1:8080:tok-123");
    assert_eq!(
        e,
        Endpoint::Tcp {
            base_url: "http://127.0.0.1:8080".to_string(),
            token: Some("tok-123".to_string()),
        }
    );
}

#[test]
fn tcp_descriptor_without_token() {
    let e = parse_endpoint("tcp://127.0.0.1:8080");
    assert_eq!(
        e,
        Endpoint::Tcp { base_url: "http://127.0.0.1:8080".to_string(), token: None }
    );
}

#[test]
fn plain_path_is_a_unix_socket() {
    let e = parse_endpoint("/var/run/tailscale/tailscaled.sock");
    assert_eq!(
        e,
        Endpoint::Unix { socket_path: "/var/run/tailscale/tailscaled.sock".to_string() }
    );
}

#[test]
fn extra_token_segments_are_ignored() {
    let e = parse_endpoint("tcp://h:1:tok:extra");
    assert_eq!(
        e,
        Endpoint::Tcp { base_url: "http://h:1".to_string(), token: Some("tok".to_string()) }
    );
}

#[test]
fn status_paths_are_fixed() {
    assert_eq!(status_path(true), "/localapi/v0/status");
    assert_eq!(status_path(false), "/localapi/v0/status?peers=false");
}

#[test]
fn auth_header_is_base64_of_colon_token() {
    // ":token" in the standard alphabet, padded
    let v = auth_header_value("token").unwrap();
    assert_eq!(v, "Basic OnRva2Vu");
}

#[test]
fn auth_header_of_empty_token() {
    // ":" alone encodes to "Og=="
    let v = auth_header_value("").unwrap();
    assert_eq!(v, "Basic Og==");
}

#[test]
fn success_codes_are_the_two_hundreds() {
    assert!(http_status_is_success(200));
    assert!(http_status_is_success(204));
    assert!(http_status_is_success(299));
    assert!(!http_status_is_success(199));
    assert!(!http_status_is_success(300));
    assert!(!http_status_is_success(404));
    assert!(!http_status_is_success(503));
}

#[test]
fn api_error_carries_code_and_reason() {
    let e = api_error_for_status(503, "Service Unavailable");
    assert_eq!(e, TailscaleError::ApiError("HTTP 503: Service Unavailable".to_string()));
    assert_eq!(e.message(), "Tailscale API error: HTTP 503: Service Unavailable");
}

#[test]
fn error_messages_name_their_kind() {
    assert_eq!(
        TailscaleError::SocketConnection("no socket".to_string()).message(),
        "Socket connection error: no socket"
    );
    assert_eq!(
        TailscaleError::HttpRequest("timed out".to_string()).message(),
        "HTTP request error: timed out"
    );
    assert_eq!(
        TailscaleError::JsonParse("bad json".to_string()).message(),
        "JSON parse error: bad json"
    );
}
