use headless_browser::cache::{shape_fetched_body, CacheCore, RequestAction};
use headless_browser::conf::{loopback_host_bytes, target_replacement};
use headless_browser::rewrite::PayloadRewriter;

#[test]
fn single_flight_within_ttl_window() {
    let mut cache = CacheCore::new();
    let mut fetches = 0;

    // Three concurrent requests arrive before any fetch completes.
    for _ in 0..3 {
        match cache.on_request(100) {
            RequestAction::StartFetch | RequestAction::FetchDirect => fetches += 1,
            RequestAction::AwaitLeader => {}
            RequestAction::Serve(_) => panic!("nothing cached yet"),
        }
    }
    assert_eq!(fetches, 1);

    // The one shared fetch lands; later requests in the window are served.
    cache.on_fetch_done(101, Some(b"doc".to_vec()));
    for t in [101u64, 105, 110] {
        match cache.on_request(t) {
            RequestAction::Serve(b) => assert_eq!(b, b"doc".to_vec()),
            _ => panic!("expected the cached document at {t}"),
        }
    }
    assert_eq!(fetches, 1);
}

#[test]
fn entry_goes_stale_after_ttl() {
    let mut cache = CacheCore::new();
    assert!(matches!(cache.on_request(50), RequestAction::StartFetch));
    cache.on_fetch_done(50, Some(b"doc".to_vec()));
    assert!(matches!(cache.on_request(59), RequestAction::Serve(_)));
    assert!(matches!(cache.on_request(60), RequestAction::StartFetch));
}

#[test]
fn uncacheable_window_bypasses_cache() {
    let mut cache = CacheCore::new();
    assert!(matches!(cache.on_request(10), RequestAction::StartFetch));
    cache.on_fetch_done(10, Some(b"doc".to_vec()));
    cache.invalidate(12);
    assert!(!cache.is_cacheable());
    assert!(matches!(cache.on_request(13), RequestAction::FetchDirect));
    cache.on_direct_fetch_done(false);
    assert!(!cache.is_healthy());
    cache.on_direct_fetch_done(true);
    assert!(cache.is_healthy());
}

#[test]
fn failed_fetch_flips_health() {
    let mut cache = CacheCore::new();
    assert!(cache.is_healthy());
    assert!(matches!(cache.on_request(5), RequestAction::StartFetch));
    cache.on_fetch_done(5, None);
    assert!(!cache.is_healthy());
    assert!(matches!(cache.on_request(6), RequestAction::StartFetch));
    cache.on_fetch_done(6, Some(b"doc".to_vec()));
    assert!(cache.is_healthy());
}

#[test]
fn heal_only_after_cooldown() {
    let mut cache = CacheCore::new();
    cache.invalidate(100);
    cache.try_heal(105);
    assert!(!cache.is_cacheable());
    cache.try_heal(109);
    assert!(!cache.is_cacheable());
    cache.try_heal(110);
    assert!(cache.is_cacheable());
}

#[test]
fn fetched_body_shaping() {
    let (port_pat, port_rep) = target_replacement(9223);
    let rw = PayloadRewriter::new(
        loopback_host_bytes(),
        b"host.example".to_vec(),
        port_pat,
        port_rep,
    );
    let raw = b"ws://127.0.0.1:9223/x".to_vec();
    let shaped = shape_fetched_body(Some(raw.clone()), &rw, true);
    assert_eq!(shaped, Some(b"ws://host.example:9222/x".to_vec()));
    let unshaped = shape_fetched_body(Some(raw.clone()), &rw, false);
    assert_eq!(unshaped, Some(raw));
    assert_eq!(shape_fetched_body(None, &rw, true), None);
}
