use tauri_leptos_core::server::{
    cors_policy, echo_action, hello_message, origin_allowed, strip_scheme, CorsPolicy, EchoAction,
    WsMessageKind,
};

#[test]
fn hello_greets_by_name() {
    assert_eq!(
        hello_message(Some("Ada")),
        "Hello, Ada! You've been greeted from Rust!"
    );
}

#[test]
fn hello_defaults_to_world() {
    assert_eq!(
        hello_message(None),
        "Hello, world! You've been greeted from Rust!"
    );
}

#[test]
fn ws_rejects_foreign_origin() {
    assert!(!origin_allowed(
        Some("http://evil.example"),
        Some("127.0.0.1:3000"),
        &[]
    ));
}

#[test]
fn ws_allows_same_origin_and_configured_origins() {
    for (origin, allowed) in [
        ("http://127.0.0.1:3000", vec![]),
        ("http://app.example", vec!["http://app.example".to_owned()]),
        ("http://anywhere.example", vec!["*".to_owned()]),
    ] {
        assert!(
            origin_allowed(Some(origin), Some("127.0.0.1:3000"), &allowed),
            "origin {origin} should be allowed"
        );
    }
}

#[test]
fn ws_without_origin_or_host() {
    assert!(origin_allowed(None, None, &[]));
    assert!(origin_allowed(None, Some("x"), &["http://a".to_owned()]));
    assert!(!origin_allowed(Some("http://a"), None, &[]));
    assert!(origin_allowed(Some("https://host:1"), Some("host:1"), &[]));
    assert!(!origin_allowed(Some("https://host:1"), Some("host:2"), &[]));
    assert!(origin_allowed(Some("host:1"), Some("host:1"), &[]));
    assert!(!origin_allowed(
        Some("http://other"),
        Some("h"),
        &["http://a".to_owned(), "http://b".to_owned()]
    ));
}

#[test]
fn strip_scheme_removes_http_and_https_only() {
    assert_eq!(strip_scheme("https://a.example"), "a.example");
    assert_eq!(strip_scheme("http://a.example"), "a.example");
    assert_eq!(strip_scheme("ws://a.example"), "ws://a.example");
    assert_eq!(strip_scheme("http:/a"), "http:/a");
}

#[test]
fn cors_policy_follows_the_configured_origins() {
    assert_eq!(cors_policy(&[]), CorsPolicy::SameOriginOnly);
    assert_eq!(
        cors_policy(&["http://a".to_owned(), "*".to_owned()]),
        CorsPolicy::AnyOrigin
    );
    assert_eq!(
        cors_policy(&[
            "http://a".to_owned(),
            "http://bad\nvalue".to_owned(),
            "http://b".to_owned(),
            "http://ü.example".to_owned(),
            "tab\tok".to_owned(),
            "del\u{7f}".to_owned(),
        ]),
        CorsPolicy::Origins(vec![
            "http://a".to_owned(),
            "http://b".to_owned(),
            "http://ü.example".to_owned(),
            "tab\tok".to_owned(),
        ])
    );
}

#[test]
fn echo_returns_data_and_stops_on_close() {
    assert_eq!(echo_action(WsMessageKind::Text), EchoAction::SendBack);
    assert_eq!(echo_action(WsMessageKind::Binary), EchoAction::SendBack);
    assert_eq!(echo_action(WsMessageKind::Close), EchoAction::Stop);
    assert_eq!(echo_action(WsMessageKind::Ping), EchoAction::Skip);
    assert_eq!(echo_action(WsMessageKind::Pong), EchoAction::Skip);
}
