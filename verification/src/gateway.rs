//! The proxy gateway's verified core: failure classification of dial and
//! relay errors, the per-connection plan (restart the backend, invalidate
//! the cache, retry the same client exactly once, or close silently), the
//! relay-step decision, and the auto-heal cooldown law.
//!
//! The socket loop runs outside: it hands each connection attempt's
//! outcome to these functions and performs the actions they return.

use crate::cache::{heal_next, CacheModel};
use crate::conf::CACHE_COOLDOWN_SECS;
use vstd::prelude::*;

verus! {

/// The kind of a dial or relay failure, as the operating system reported
/// it.
#[derive(PartialEq, Eq, Structural, Clone, Copy, Debug)]
pub enum RelayErrorKind {
    /// The transport reported "not connected".
    NotConnected,
    /// An unclassified failure; exhausting the dial retries surfaces as
    /// this.
    Unclassified,
    /// The peer reset the connection.
    ConnectionReset,
    /// Any other error kind.
    OtherFailure,
}

/// What a failure means for the gateway.
#[derive(PartialEq, Eq, Structural, Clone, Copy, Debug)]
pub enum ErrorClass {
    /// Treat the upstream as dead: restart it and retry the client once.
    RestartAndRetry,
    /// Benign; close silently with no escalation and no log noise.
    Benign,
    /// Log and close; no retry, no restart.
    LogAndDrop,
}

/// The class of each failure kind.
pub open spec fn classification(k: RelayErrorKind) -> ErrorClass {
    match k {
        RelayErrorKind::NotConnected => ErrorClass::RestartAndRetry,
        RelayErrorKind::Unclassified => ErrorClass::RestartAndRetry,
        RelayErrorKind::ConnectionReset => ErrorClass::Benign,
        RelayErrorKind::OtherFailure => ErrorClass::LogAndDrop,
    }
}

/// Classifies a dial or relay failure.
pub fn classify_error(k: RelayErrorKind) -> (c: ErrorClass)
    ensures
        c == classification(k),
{
    match k {
        RelayErrorKind::NotConnected => ErrorClass::RestartAndRetry,
        RelayErrorKind::Unclassified => ErrorClass::RestartAndRetry,
        RelayErrorKind::ConnectionReset => ErrorClass::Benign,
        RelayErrorKind::OtherFailure => ErrorClass::LogAndDrop,
    }
}

/// What the gateway does after one connection attempt.
#[derive(PartialEq, Eq, Structural, Clone, Copy, Debug)]
pub struct ConnectionPlan {
    /// Terminate every registered instance and fork a fresh one.
    pub restart: bool,
    /// Flip the cacheability flag off and stamp the invalidation time.
    pub invalidate: bool,
    /// Retry the same client connection, exactly once.
    pub retry: bool,
    /// Emit a log line for the failure.
    pub log: bool,
    /// Run the auto-heal cooldown check.
    pub heal_check: bool,
}

/// The plan after one attempt: `outcome` is the attempt's failure, if it
/// failed, and `first_attempt` is false on the single per-client retry.
pub open spec fn plan_for(outcome: Option<RelayErrorKind>, first_attempt: bool) -> ConnectionPlan {
    match outcome {
        None => ConnectionPlan {
            restart: false,
            invalidate: false,
            retry: false,
            log: false,
            heal_check: first_attempt,
        },
        Some(k) => {
            if !first_attempt {
                ConnectionPlan {
                    restart: false,
                    invalidate: false,
                    retry: false,
                    log: false,
                    heal_check: false,
                }
            } else {
                match classification(k) {
                    ErrorClass::RestartAndRetry => ConnectionPlan {
                        restart: true,
                        invalidate: true,
                        retry: true,
                        log: true,
                        heal_check: false,
                    },
                    ErrorClass::Benign => ConnectionPlan {
                        restart: false,
                        invalidate: false,
                        retry: false,
                        log: false,
                        heal_check: false,
                    },
                    ErrorClass::LogAndDrop => ConnectionPlan {
                        restart: false,
                        invalidate: false,
                        retry: false,
                        log: true,
                        heal_check: false,
                    },
                }
            }
        },
    }
}

/// Decides what to do after one connection attempt.
pub fn plan_after_attempt(outcome: Option<RelayErrorKind>, first_attempt: bool) -> (p:
    ConnectionPlan)
    ensures
        p == plan_for(outcome, first_attempt),
{
    match outcome {
        None => ConnectionPlan {
            restart: false,
            invalidate: false,
            retry: false,
            log: false,
            heal_check: first_attempt,
        },
        Some(k) => {
            if !first_attempt {
                ConnectionPlan {
                    restart: false,
                    invalidate: false,
                    retry: false,
                    log: false,
                    heal_check: false,
                }
            } else {
                match classify_error(k) {
                    ErrorClass::RestartAndRetry => ConnectionPlan {
                        restart: true,
                        invalidate: true,
                        retry: true,
                        log: true,
                        heal_check: false,
                    },
                    ErrorClass::Benign => ConnectionPlan {
                        restart: false,
                        invalidate: false,
                        retry: false,
                        log: false,
                        heal_check: false,
                    },
                    ErrorClass::LogAndDrop => ConnectionPlan {
                        restart: false,
                        invalidate: false,
                        retry: false,
                        log: true,
                        heal_check: false,
                    },
                }
            }
        },
    }
}

/// Restart trigger: a first-attempt "not connected" or unclassified
/// failure yields exactly one restart cycle with a cache invalidation and
/// exactly one client retry; the retry attempt itself can trigger nothing
/// further, and no other outcome restarts at all.
pub proof fn lemma_restart_trigger(k: RelayErrorKind)
    ensures
        classification(k) == ErrorClass::RestartAndRetry ==> plan_for(Some(k), true)
            == (ConnectionPlan {
            restart: true,
            invalidate: true,
            retry: true,
            log: true,
            heal_check: false,
        }),
        classification(k) != ErrorClass::RestartAndRetry ==> !plan_for(Some(k), true).restart
            && !plan_for(Some(k), true).retry && !plan_for(Some(k), true).invalidate,
        !plan_for(Some(k), false).restart && !plan_for(Some(k), false).retry && !plan_for(
            Some(k),
            false,
        ).invalidate,
        !plan_for(None, true).restart && !plan_for(None, true).retry,
{
}

/// As long as every auto-heal check runs before the cooldown window since
/// the invalidation has elapsed, the cache stays uncacheable; the flag
/// returns to true only once a check runs at or after the window's end.
pub proof fn lemma_cooldown_holds(s: CacheModel, times: Seq<u64>)
    requires
        !s.cacheable,
        forall|i: int| 0 <= i < times.len() ==> #[trigger] times[i] < s.invalidated_at
            + CACHE_COOLDOWN_SECS,
    ensures
        run_heals(s, times) == s,
        !run_heals(s, times).cacheable,
    decreases times.len(),
{
    if times.len() > 0 {
        assert(heal_next(s, times[0]) == s);
        lemma_cooldown_holds(s, times.skip(1));
    }
}

/// The state after a sequence of auto-heal checks.
pub open spec fn run_heals(s: CacheModel, times: Seq<u64>) -> CacheModel
    decreases times.len(),
{
    if times.len() == 0 {
        s
    } else {
        run_heals(heal_next(s, times[0]), times.skip(1))
    }
}

/// The lifecycle phase of one proxied client connection.
pub enum ConnPhase {
    /// Dialing the internal debug port; `retrying` marks the single
    /// per-client retry granted after a restart-class failure.
    Connecting { retrying: bool },
    /// Full-duplex byte relay between the client and the upstream.
    Relaying { retrying: bool },
    /// The relay ran to end-of-stream and closed cleanly.
    ClosedClean,
    /// A failure closed the connection with no retry.
    ClosedFailed,
    /// The single retry was spent and the connection still failed.
    ClosedFailedRetried,
}

/// What happened to the connection.
pub enum ConnEvent {
    /// The upstream dial succeeded.
    DialOk,
    /// The upstream dial failed with this kind.
    DialFailed(RelayErrorKind),
    /// The relay reached end-of-stream on either side.
    RelayEnded,
    /// The relay failed mid-stream with this kind.
    RelayFailed(RelayErrorKind),
}

/// A connection is still open in these phases.
pub open spec fn phase_active(p: ConnPhase) -> bool {
    p is Connecting || p is Relaying
}

/// True on the single granted retry and in every phase after it.
pub open spec fn phase_retrying(p: ConnPhase) -> bool {
    match p {
        ConnPhase::Connecting { retrying } => retrying,
        ConnPhase::Relaying { retrying } => retrying,
        _ => false,
    }
}

/// The plan that does nothing.
pub open spec fn idle_plan() -> ConnectionPlan {
    ConnectionPlan { restart: false, invalidate: false, retry: false, log: false, heal_check: false }
}

/// The step taken on a failure: the plan for it, and either the single
/// granted retry or the terminal phase.
pub open spec fn failure_step(retrying: bool, k: RelayErrorKind) -> (ConnPhase, ConnectionPlan) {
    let plan = plan_for(Some(k), !retrying);
    if plan.retry {
        (ConnPhase::Connecting { retrying: true }, plan)
    } else if retrying {
        (ConnPhase::ClosedFailedRetried, plan)
    } else {
        (ConnPhase::ClosedFailed, plan)
    }
}

/// One step of the connection lifecycle: the next phase and the plan of
/// actions to perform. An event that does not fit the phase moves
/// nothing.
pub open spec fn conn_step_spec(p: ConnPhase, e: ConnEvent) -> (ConnPhase, ConnectionPlan) {
    match (p, e) {
        (ConnPhase::Connecting { retrying }, ConnEvent::DialOk) => (
            ConnPhase::Relaying { retrying },
            idle_plan(),
        ),
        (ConnPhase::Connecting { retrying }, ConnEvent::DialFailed(k)) => failure_step(
            retrying,
            k,
        ),
        (ConnPhase::Relaying { retrying }, ConnEvent::RelayEnded) => (
            ConnPhase::ClosedClean,
            plan_for(None, !retrying),
        ),
        (ConnPhase::Relaying { retrying }, ConnEvent::RelayFailed(k)) => failure_step(retrying, k),
        _ => (p, idle_plan()),
    }
}

/// Advances one connection by one event.
pub fn conn_step(p: ConnPhase, e: ConnEvent) -> (r: (ConnPhase, ConnectionPlan))
    ensures
        r == conn_step_spec(p, e),
{
    match (p, e) {
        (ConnPhase::Connecting { retrying }, ConnEvent::DialOk) => (
            ConnPhase::Relaying { retrying },
            plan_after_attempt(None, false),
        ),
        (ConnPhase::Connecting { retrying }, ConnEvent::DialFailed(k)) => {
            let plan = plan_after_attempt(Some(k), !retrying);
            if plan.retry {
                (ConnPhase::Connecting { retrying: true }, plan)
            } else if retrying {
                (ConnPhase::ClosedFailedRetried, plan)
            } else {
                (ConnPhase::ClosedFailed, plan)
            }
        },
        (ConnPhase::Relaying { retrying }, ConnEvent::RelayEnded) => (
            ConnPhase::ClosedClean,
            plan_after_attempt(None, !retrying),
        ),
        (ConnPhase::Relaying { retrying }, ConnEvent::RelayFailed(k)) => {
            let plan = plan_after_attempt(Some(k), !retrying);
            if plan.retry {
                (ConnPhase::Connecting { retrying: true }, plan)
            } else if retrying {
                (ConnPhase::ClosedFailedRetried, plan)
            } else {
                (ConnPhase::ClosedFailed, plan)
            }
        },
        (other, _) => (other, plan_after_attempt(None, false)),
    }
}

/// The phase after a sequence of events.
pub open spec fn run_conn(p: ConnPhase, events: Seq<ConnEvent>) -> ConnPhase
    decreases events.len(),
{
    if events.len() == 0 {
        p
    } else {
        run_conn(conn_step_spec(p, events[0]).0, events.skip(1))
    }
}

/// How many steps of a run grant a retry.
pub open spec fn count_retry_grants(p: ConnPhase, events: Seq<ConnEvent>) -> nat
    decreases events.len(),
{
    if events.len() == 0 {
        0
    } else {
        (if conn_step_spec(p, events[0]).1.retry {
            1nat
        } else {
            0nat
        }) + count_retry_grants(conn_step_spec(p, events[0]).0, events.skip(1))
    }
}

/// From the granted retry on, no further retry is ever granted.
proof fn lemma_no_retry_after_retry(p: ConnPhase, events: Seq<ConnEvent>)
    requires
        phase_retrying(p) || !phase_active(p),
    ensures
        count_retry_grants(p, events) == 0,
    decreases events.len(),
{
    if events.len() > 0 {
        let (next, plan) = conn_step_spec(p, events[0]);
        assert(!plan.retry);
        assert(phase_retrying(next) || !phase_active(next));
        lemma_no_retry_after_retry(next, events.skip(1));
    }
}

/// Each client connection is retried at most once, whatever happens: no
/// run of connection events grants more than one retry.
pub proof fn lemma_retry_at_most_once(p: ConnPhase, events: Seq<ConnEvent>)
    ensures
        count_retry_grants(p, events) <= 1,
    decreases events.len(),
{
    if events.len() > 0 {
        let (next, plan) = conn_step_spec(p, events[0]);
        if plan.retry {
            assert(next == ConnPhase::Connecting { retrying: true });
            lemma_no_retry_after_retry(next, events.skip(1));
        } else {
            lemma_retry_at_most_once(next, events.skip(1));
        }
    }
}

/// What the relay loop does with one completed read.
#[derive(PartialEq, Eq, Structural, Clone, Copy, Debug)]
pub enum RelayStep {
    /// Forward this many bytes to the opposite side.
    Forward(usize),
    /// Stop relaying: end of stream or a failed read.
    Stop,
}

/// Decides one relay step from a read's outcome: a failed read or an
/// end-of-stream read of zero bytes ends the relay; any other read is
/// forwarded whole, in order.
pub fn relay_decision(read: Option<usize>) -> (s: RelayStep)
    ensures
        s == match read {
            None => RelayStep::Stop,
            Some(n) => if n == 0 {
                RelayStep::Stop
            } else {
                RelayStep::Forward(n)
            },
        },
{
    match read {
        None => RelayStep::Stop,
        Some(n) => if n == 0 {
            RelayStep::Stop
        } else {
            RelayStep::Forward(n)
        },
    }
}

/// The relay buffer size: the configured value when one was given, the
/// default otherwise.
pub fn effective_buffer_size(configured: Option<usize>) -> (n: usize)
    ensures
        n == match configured {
            Some(c) => c,
            None => crate::conf::DEFAULT_BUFFER_SIZE,
        },
{
    match configured {
        Some(c) => c,
        None => crate::conf::DEFAULT_BUFFER_SIZE,
    }
}

} // verus!
