use headless_browser::gateway::{
    classify_error, conn_step, effective_buffer_size, plan_after_attempt, relay_decision,
    ConnEvent, ConnPhase, ErrorClass, RelayErrorKind, RelayStep,
};

#[test]
fn failure_classification() {
    assert_eq!(
        classify_error(RelayErrorKind::NotConnected),
        ErrorClass::RestartAndRetry
    );
    assert_eq!(
        classify_error(RelayErrorKind::Unclassified),
        ErrorClass::RestartAndRetry
    );
    assert_eq!(classify_error(RelayErrorKind::ConnectionReset), ErrorClass::Benign);
    assert_eq!(classify_error(RelayErrorKind::OtherFailure), ErrorClass::LogAndDrop);
}

#[test]
fn restart_trigger_exactly_once() {
    let plan = plan_after_attempt(Some(RelayErrorKind::NotConnected), true);
    assert!(plan.restart);
    assert!(plan.invalidate);
    assert!(plan.retry);
    assert!(plan.log);

    // The single retry can trigger nothing further.
    let retry_plan = plan_after_attempt(Some(RelayErrorKind::NotConnected), false);
    assert!(!retry_plan.restart);
    assert!(!retry_plan.invalidate);
    assert!(!retry_plan.retry);
}

#[test]
fn benign_reset_closes_silently() {
    let plan = plan_after_attempt(Some(RelayErrorKind::ConnectionReset), true);
    assert!(!plan.restart);
    assert!(!plan.invalidate);
    assert!(!plan.retry);
    assert!(!plan.log);
}

#[test]
fn other_errors_log_and_drop() {
    let plan = plan_after_attempt(Some(RelayErrorKind::OtherFailure), true);
    assert!(!plan.restart);
    assert!(!plan.retry);
    assert!(plan.log);
}

#[test]
fn clean_relay_runs_heal_check() {
    let plan = plan_after_attempt(None, true);
    assert!(!plan.restart);
    assert!(!plan.retry);
    assert!(!plan.log);
    assert!(plan.heal_check);
}

#[test]
fn connection_lifecycle_clean() {
    let start = ConnPhase::Connecting { retrying: false };
    let (phase, plan) = conn_step(start, ConnEvent::DialOk);
    assert!(matches!(phase, ConnPhase::Relaying { retrying: false }));
    assert!(!plan.restart && !plan.retry);
    let (phase, plan) = conn_step(phase, ConnEvent::RelayEnded);
    assert!(matches!(phase, ConnPhase::ClosedClean));
    assert!(plan.heal_check);
}

#[test]
fn connection_lifecycle_retries_once_then_closes() {
    let start = ConnPhase::Connecting { retrying: false };
    let (phase, plan) = conn_step(start, ConnEvent::DialFailed(RelayErrorKind::Unclassified));
    assert!(matches!(phase, ConnPhase::Connecting { retrying: true }));
    assert!(plan.restart && plan.invalidate && plan.retry);
    let (phase, plan) = conn_step(phase, ConnEvent::DialFailed(RelayErrorKind::Unclassified));
    assert!(matches!(phase, ConnPhase::ClosedFailedRetried));
    assert!(!plan.restart && !plan.retry && !plan.invalidate);
}

#[test]
fn connection_lifecycle_drops_without_retry() {
    let start = ConnPhase::Connecting { retrying: false };
    let (phase, plan) = conn_step(start, ConnEvent::DialFailed(RelayErrorKind::OtherFailure));
    assert!(matches!(phase, ConnPhase::ClosedFailed));
    assert!(!plan.retry && plan.log);
    let (reset_phase, reset_plan) = conn_step(
        ConnPhase::Relaying { retrying: false },
        ConnEvent::RelayFailed(RelayErrorKind::ConnectionReset),
    );
    assert!(matches!(reset_phase, ConnPhase::ClosedFailed));
    assert!(!reset_plan.log && !reset_plan.retry && !reset_plan.restart);
}

#[test]
fn connection_retry_that_relays_cleanly_closes_clean() {
    let start = ConnPhase::Connecting { retrying: false };
    let (phase, _) = conn_step(start, ConnEvent::RelayFailed(RelayErrorKind::NotConnected));
    // An event that does not fit the phase moves nothing.
    assert!(matches!(phase, ConnPhase::Connecting { retrying: false }));
    let (phase, _) = conn_step(phase, ConnEvent::DialFailed(RelayErrorKind::NotConnected));
    let (phase, _) = conn_step(phase, ConnEvent::DialOk);
    assert!(matches!(phase, ConnPhase::Relaying { retrying: true }));
    let (phase, plan) = conn_step(phase, ConnEvent::RelayEnded);
    assert!(matches!(phase, ConnPhase::ClosedClean));
    // The heal check belongs to the first attempt only.
    assert!(!plan.heal_check);
}

#[test]
fn relay_steps() {
    assert_eq!(relay_decision(None), RelayStep::Stop);
    assert_eq!(relay_decision(Some(0)), RelayStep::Stop);
    assert_eq!(relay_decision(Some(512)), RelayStep::Forward(512));
}

#[test]
fn buffer_size_default() {
    assert_eq!(effective_buffer_size(None), 131072);
    assert_eq!(effective_buffer_size(Some(4096)), 4096);
}
