use headless_browser::control::{
    fork_reply, health_reply, invalid_port_reply, not_found_reply, parse_u32, poll_outcome,
    route_request, should_poll_again, shutdown_reply, version_reply, HttpMethod, Route,
};

#[test]
fn routes_resolve() {
    assert!(matches!(
        route_request(HttpMethod::Get, b"/health"),
        Route::Health
    ));
    assert!(matches!(route_request(HttpMethod::Get, b"/"), Route::Health));
    assert!(matches!(
        route_request(HttpMethod::Get, b"/json/version"),
        Route::JsonVersion
    ));
    assert!(matches!(
        route_request(HttpMethod::Post, b"/fork"),
        Route::Fork(None)
    ));
    assert!(matches!(
        route_request(HttpMethod::Post, b"/fork/9224"),
        Route::Fork(Some(9224))
    ));
    assert!(matches!(
        route_request(HttpMethod::Post, b"/fork/9224/extra"),
        Route::Fork(Some(9224))
    ));
    assert!(matches!(
        route_request(HttpMethod::Post, b"/fork/notaport"),
        Route::InvalidForkPort
    ));
    assert!(matches!(
        route_request(HttpMethod::Post, b"/fork/"),
        Route::InvalidForkPort
    ));
    assert!(matches!(
        route_request(HttpMethod::Post, b"/shutdown"),
        Route::Shutdown
    ));
    assert!(matches!(
        route_request(HttpMethod::Get, b"/fork"),
        Route::NotFound
    ));
    assert!(matches!(
        route_request(HttpMethod::Post, b"/health"),
        Route::NotFound
    ));
    assert!(matches!(
        route_request(HttpMethod::OtherMethod, b"/health"),
        Route::NotFound
    ));
    assert!(matches!(
        route_request(HttpMethod::Get, b"/nowhere"),
        Route::NotFound
    ));
}

#[test]
fn port_parsing() {
    assert_eq!(parse_u32(b"123"), Some(123));
    assert_eq!(parse_u32(b"+123"), Some(123));
    assert_eq!(parse_u32(b"0"), Some(0));
    assert_eq!(parse_u32(b"4294967295"), Some(u32::MAX));
    assert_eq!(parse_u32(b"4294967296"), None);
    assert_eq!(parse_u32(b"99999999999999999999"), None);
    assert_eq!(parse_u32(b""), None);
    assert_eq!(parse_u32(b"+"), None);
    assert_eq!(parse_u32(b"12a"), None);
    assert_eq!(parse_u32(b"-1"), None);
}

#[test]
fn health_replies() {
    let ok = health_reply(true);
    assert_eq!(ok.status, 200);
    assert_eq!(ok.body, b"healthy".to_vec());
    let bad = health_reply(false);
    assert_eq!(bad.status, 503);
    assert_eq!(bad.body, b"unhealthy".to_vec());
}

#[test]
fn fork_and_shutdown_replies() {
    let r = fork_reply(70);
    assert_eq!(r.status, 200);
    assert_eq!(r.body, b"Forked process with pid: 70".to_vec());
    let zero = fork_reply(0);
    assert_eq!(zero.body, b"Forked process with pid: 0".to_vec());
    let s = shutdown_reply();
    assert_eq!(s.status, 200);
    assert_eq!(s.body, b"Shutdown successful.".to_vec());
}

#[test]
fn error_replies() {
    let nf = not_found_reply();
    assert_eq!(nf.status, 404);
    assert_eq!(nf.body, b"Not Found".to_vec());
    let ip = invalid_port_reply();
    assert_eq!(ip.status, 200);
    assert_eq!(ip.body, b"Invalid port argument".to_vec());
}

#[test]
fn version_replies() {
    let ok = version_reply(Some(b"{\"Browser\":\"x\"}".to_vec()));
    assert_eq!(ok.status, 200);
    assert!(ok.json);
    assert_eq!(ok.body, b"{\"Browser\":\"x\"}".to_vec());

    let fallback = version_reply(None);
    assert_eq!(fallback.status, 500);
    assert!(fallback.json);
    assert_eq!(
        fallback.body,
        b"{\"Browser\":\"\",\"Protocol-Version\":\"\",\"User-Agent\":\"\",\"V8-Version\":\"\",\"WebKit-Version\":\"\",\"webSocketDebuggerUrl\":\"\"}"
            .to_vec()
    );
}

#[test]
fn poll_policy_boundary() {
    assert!(should_poll_again(0));
    assert!(should_poll_again(9));
    assert!(!should_poll_again(10));
}

#[test]
fn poll_takes_first_document_within_cap() {
    let mut results: Vec<Option<Vec<u8>>> = vec![None; 12];
    results[4] = Some(b"doc".to_vec());
    results[6] = Some(b"late".to_vec());
    assert_eq!(poll_outcome(&results), Some(b"doc".to_vec()));
}

#[test]
fn poll_gives_up_after_cap() {
    let empty: Vec<Option<Vec<u8>>> = vec![None; 12];
    assert_eq!(poll_outcome(&empty), None);
    let mut beyond: Vec<Option<Vec<u8>>> = vec![None; 12];
    beyond[10] = Some(b"doc".to_vec());
    assert_eq!(poll_outcome(&beyond), None);
}
