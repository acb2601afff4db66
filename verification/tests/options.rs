use rhenite::SessionContext;
use rhenite::SocketOptions;

#[test]
fn options_new_has_no_headers() {
    let ctx = SessionContext::new();
    let opts = SocketOptions::new("wss://example.com/chat".to_string());
    let plan = ctx.prepare_connection(opts).unwrap();
    assert_eq!(plan.uri, "wss://example.com/chat");
    assert!(plan.headers.is_empty());
    assert!(plan.anchors.is_empty());
}

#[test]
fn builder_collects_uri_and_headers() {
    let ctx = SessionContext::new();
    let opts = SocketOptions::builder()
        .uri("wss://example.com/chat".to_string())
        .header("authorization".to_string(), "token".to_string())
        .header("x-client".to_string(), "one".to_string())
        .build();
    let plan = ctx.prepare_connection(opts).unwrap();
    assert_eq!(plan.uri, "wss://example.com/chat");
    assert_eq!(
        plan.headers,
        vec![
            ("authorization".to_string(), "token".to_string()),
            ("x-client".to_string(), "one".to_string()),
        ]
    );
}

#[test]
fn builder_header_replaces_existing_key() {
    let ctx = SessionContext::new();
    let opts = SocketOptions::builder()
        .uri("wss://example.com/chat".to_string())
        .header("a".to_string(), "1".to_string())
        .header("b".to_string(), "2".to_string())
        .header("a".to_string(), "3".to_string())
        .build();
    let plan = ctx.prepare_connection(opts).unwrap();
    assert_eq!(
        plan.headers,
        vec![
            ("a".to_string(), "3".to_string()),
            ("b".to_string(), "2".to_string()),
        ]
    );
}
