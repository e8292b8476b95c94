use headless_browser::dial::{default_dial_policy, dial_outcome, should_retry_dial};

#[test]
fn dial_profile() {
    let p = default_dial_policy();
    assert_eq!(p.max_attempts, 20);
    assert_eq!(p.delay_ms, 250);
    assert_eq!(p.timeout_secs, 7);
}

#[test]
fn unreachable_target_exhausts_attempt_cap() {
    let p = default_dial_policy();
    let outcomes = vec![false; 32];
    assert_eq!(dial_outcome(&p, &outcomes), None);
}

#[test]
fn first_success_wins() {
    let p = default_dial_policy();
    let mut outcomes = vec![false; 20];
    outcomes[3] = true;
    outcomes[7] = true;
    assert_eq!(dial_outcome(&p, &outcomes), Some(3));
}

#[test]
fn success_past_the_cap_is_not_reached() {
    let p = default_dial_policy();
    let mut outcomes = vec![false; 25];
    outcomes[20] = true;
    assert_eq!(dial_outcome(&p, &outcomes), None);
}

#[test]
fn retry_decision_boundary() {
    let p = default_dial_policy();
    assert!(should_retry_dial(&p, 19));
    assert!(!should_retry_dial(&p, 20));
    assert!(!should_retry_dial(&p, 21));
}
