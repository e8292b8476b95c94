//! Management and gateway layer in front of headless-browser processes that
//! expose a debugging wire protocol over TCP.
//!
//! The verified core covers the byte-level payload rewriter, the instance
//! registry of the browser supervisor, the TTL/single-flight metadata cache
//! state machine, the proxy gateway's failure classification and restart
//! policy, the bounded dial-retry policy, and the control-plane routing.
//! The surrounding socket, process and HTTP plumbing drives these decision
//! functions from an unverified binary shell.

pub mod cache;
pub mod conf;
pub mod control;
pub mod dial;
pub mod gateway;
pub mod render;
pub mod rewrite;
pub mod supervisor;
pub mod text;

use vstd::prelude::*;

verus! {

/// The sentinel instance id meaning "no instance / spawn failed".
pub const SENTINEL_INSTANCE: u32 = 0;

} // verus!
