use frontdoor::router::{
    decision_status, default_body_http1, default_body_http2, header_contains_upgrade,
    missing_key_body, route_http1, route_http2, RequestHead, RouteDecision,
};

fn head(
    path: &str,
    upgrade: Option<&str>,
    connection: Option<&str>,
    ws_key: Option<&str>,
) -> RequestHead {
    RequestHead {
        path: path.as_bytes().to_vec(),
        upgrade: upgrade.map(|v| v.as_bytes().to_vec()),
        connection: connection.map(|v| v.as_bytes().to_vec()),
        ws_key: ws_key.map(|v| v.as_bytes().to_vec()),
    }
}

#[test]
fn upgrade_request_yields_switching_protocols() {
    let h = head(
        "/chat",
        Some("websocket"),
        Some("Upgrade"),
        Some("dGhlIHNhbXBsZSBub25jZQ=="),
    );
    let d = route_http1(&h);
    match d {
        RouteDecision::Upgrade { ref accept } => {
            assert_eq!(accept, "s3pPLMBiTxaQ9kYGzzhZRbK+xOo=");
        }
        _ => panic!("expected an upgrade decision"),
    }
    assert_eq!(decision_status(&d), 101);
}

#[test]
fn upgrade_without_key_is_refused() {
    let h = head("/chat", Some("websocket"), Some("Upgrade"), None);
    let d = route_http1(&h);
    assert!(matches!(d, RouteDecision::BadUpgrade));
    assert_eq!(decision_status(&d), 400);
}

#[test]
fn upgrade_with_empty_key_is_refused() {
    let h = head("/chat", Some("websocket"), Some("Upgrade"), Some(""));
    assert!(matches!(route_http1(&h), RouteDecision::BadUpgrade));
}

#[test]
fn connection_header_is_case_insensitive() {
    let h = head(
        "/",
        Some("websocket"),
        Some("keep-alive, UPGRADE"),
        Some("x3JJHMbDL1EzLkh9GBhXDw=="),
    );
    assert!(matches!(route_http1(&h), RouteDecision::Upgrade { .. }));
}

#[test]
fn upgrade_header_must_match_exactly() {
    let h = head(
        "/",
        Some("WebSocket"),
        Some("Upgrade"),
        Some("x3JJHMbDL1EzLkh9GBhXDw=="),
    );
    assert!(matches!(route_http1(&h), RouteDecision::Plain));
}

#[test]
fn missing_connection_header_is_no_upgrade() {
    let h = head("/", Some("websocket"), None, Some("x3JJHMbDL1EzLkh9GBhXDw=="));
    assert!(matches!(route_http1(&h), RouteDecision::Plain));
}

#[test]
fn stream_path_streams() {
    let h = head("/stream", None, None, None);
    let d = route_http1(&h);
    assert!(matches!(d, RouteDecision::Stream));
    assert_eq!(decision_status(&d), 200);
}

#[test]
fn other_paths_get_default_response() {
    let h = head("/anything", None, None, None);
    let d = route_http1(&h);
    assert!(matches!(d, RouteDecision::Plain));
    assert_eq!(decision_status(&d), 200);
}

#[test]
fn http2_router_never_upgrades() {
    let h = head(
        "/chat",
        Some("websocket"),
        Some("Upgrade"),
        Some("dGhlIHNhbXBsZSBub25jZQ=="),
    );
    assert!(matches!(route_http2(&h), RouteDecision::Plain));
    let s = head("/stream", None, None, None);
    assert!(matches!(route_http2(&s), RouteDecision::Stream));
}

#[test]
fn header_contains_upgrade_cases() {
    assert!(header_contains_upgrade(b"upgrade"));
    assert!(header_contains_upgrade(b"Upgrade"));
    assert!(header_contains_upgrade(b"keep-alive, Upgrade"));
    assert!(header_contains_upgrade(b"UPGRADE, keep-alive"));
    assert!(!header_contains_upgrade(b"keep-alive"));
    assert!(!header_contains_upgrade(b""));
    assert!(!header_contains_upgrade(b"upgrad"));
}

#[test]
fn fixed_bodies() {
    assert_eq!(default_body_http1(), "Hello");
    assert_eq!(default_body_http2(), "Hello from http2");
    assert_eq!(missing_key_body(), "Missing Sec-WebSocket-Key");
}
