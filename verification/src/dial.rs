//! The bounded dial-retry policy: a fixed number of attempts, a fixed
//! delay between attempts, and a fixed per-attempt connect timeout,
//! applied uniformly to every upstream dial.

use vstd::prelude::*;

verus! {

/// One dial profile, applied uniformly.
#[derive(PartialEq, Eq, Structural, Clone, Copy, Debug)]
pub struct DialPolicy {
    /// How many connection attempts are made before giving up.
    pub max_attempts: u32,
    /// The pause between attempts, in milliseconds.
    pub delay_ms: u64,
    /// The connect timeout of each attempt, in seconds.
    pub timeout_secs: u64,
}

/// The dial profile in use: twenty attempts, 250 ms apart, seven seconds
/// of connect timeout each.
pub fn default_dial_policy() -> (p: DialPolicy)
    ensures
        p.max_attempts == 20,
        p.delay_ms == 250,
        p.timeout_secs == 7,
{
    DialPolicy { max_attempts: 20, delay_ms: 250, timeout_secs: 7 }
}

/// Whether to retry after a failed attempt: `attempts_done` counts the
/// failures so far, the failed attempt included.
pub fn should_retry_dial(policy: &DialPolicy, attempts_done: u32) -> (r: bool)
    ensures
        r == (attempts_done < policy.max_attempts),
{
    attempts_done < policy.max_attempts
}

/// Runs the dial policy over a pre-recorded sequence of per-attempt
/// outcomes (`true` is a successful connect): the index of the first
/// successful attempt, or nothing once the attempt cap is exhausted.
/// Dialing a permanently unreachable target (every outcome `false`)
/// reports failure after exactly `max_attempts` attempts rather than
/// retrying indefinitely.
pub fn dial_outcome(policy: &DialPolicy, outcomes: &[bool]) -> (r: Option<usize>)
    requires
        policy.max_attempts >= 1,
        outcomes@.len() >= policy.max_attempts,
    ensures
        match r {
            Some(i) => i < policy.max_attempts && outcomes@[i as int] && forall|j: int|
                0 <= j < i ==> !outcomes@[j],
            None => forall|j: int| 0 <= j < policy.max_attempts ==> !outcomes@[j],
        },
{
    let mut attempts: u32 = 0;
    while attempts < policy.max_attempts
        invariant
            0 <= attempts <= policy.max_attempts,
            outcomes@.len() >= policy.max_attempts,
            forall|j: int| 0 <= j < attempts ==> !outcomes@[j],
        decreases policy.max_attempts - attempts,
    {
        if outcomes[attempts as usize] {
            return Some(attempts as usize);
        }
        attempts = attempts + 1;
    }
    None
}

} // verus!
