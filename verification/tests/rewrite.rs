use headless_browser::conf::{loopback_host_bytes, make_port_literal, target_replacement};
use headless_browser::rewrite::{replace_all, PayloadRewriter};

fn default_rewriter(hostname: &[u8]) -> PayloadRewriter {
    let (port_pat, port_rep) = target_replacement(9223);
    PayloadRewriter::new(loopback_host_bytes(), hostname.to_vec(), port_pat, port_rep)
}

#[test]
fn rewrite_literal_scenario() {
    let rw = default_rewriter(b"host.example");
    let body = b"{\"webSocketDebuggerUrl\":\"ws://127.0.0.1:9223/devtools/x\"}";
    let out = rw.rewrite(body);
    assert_eq!(
        out,
        b"{\"webSocketDebuggerUrl\":\"ws://host.example:9222/devtools/x\"}".to_vec()
    );
}

#[test]
fn rewrite_identity_without_occurrences() {
    let rw = default_rewriter(b"host.example");
    let body = b"{\"Browser\":\"Chrome/120.0\",\"note\":\"no literals here\"}";
    let out = rw.rewrite(body);
    assert_eq!(out, body.to_vec());
}

#[test]
fn rewrite_clears_every_occurrence() {
    let rw = default_rewriter(b"gw.internal");
    let body = b"a 127.0.0.1 b 127.0.0.1:9223 c :9223 d";
    let out = rw.rewrite(body);
    assert_eq!(out, b"a gw.internal b gw.internal:9222 c :9222 d".to_vec());
    let host_free = replace_all(&out, b"127.0.0.1", b"");
    assert_eq!(host_free, out);
    let port_free = replace_all(&out, b":9223", b"");
    assert_eq!(port_free, out);
}

#[test]
fn rewrite_empty_body() {
    let rw = default_rewriter(b"host.example");
    let out = rw.rewrite(b"");
    assert_eq!(out, Vec::<u8>::new());
}

#[test]
fn replace_all_leftmost_and_order_preserving() {
    let out = replace_all(b"xxabyabz", b"ab", b"Q");
    assert_eq!(out, b"xxQyQz".to_vec());
    let out2 = replace_all(b"aaa", b"aa", b"b");
    assert_eq!(out2, b"ba".to_vec());
}

#[test]
fn replace_all_adjacent_occurrences() {
    let out = replace_all(b"127.0.0.1127.0.0.1", b"127.0.0.1", b"h");
    assert_eq!(out, b"hh".to_vec());
}

#[test]
fn port_literal_bytes() {
    assert_eq!(make_port_literal(9223), b":9223".to_vec());
    assert_eq!(make_port_literal(0), b":0".to_vec());
    let (pat, rep) = target_replacement(9300);
    assert_eq!(pat, b":9224".to_vec());
    assert_eq!(rep, b":9223".to_vec());
}

#[test]
fn loopback_literal_bytes() {
    assert_eq!(loopback_host_bytes(), b"127.0.0.1".to_vec());
}
