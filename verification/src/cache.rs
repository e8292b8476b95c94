//! The metadata cache core: a TTL cache with a single-flight gate, a
//! cacheability flag with a failure-triggered invalidation window, and the
//! health flag written by every fetch attempt.
//!
//! The core is a state machine: callers report request and completion
//! events with their timestamps, and the core decides whether to serve the
//! cached document, start the one shared upstream fetch, wait for the
//! fetch already in flight, or bypass the cache entirely.

use crate::conf::{CACHE_COOLDOWN_SECS, CACHE_TTL_SECS};
use vstd::prelude::*;

verus! {

/// The mathematical state of the cache core.
pub struct CacheModel {
    /// The cached document and the second it was stored, if any.
    pub entry: Option<(Seq<u8>, u64)>,
    /// False inside a failure-triggered invalidation window.
    pub cacheable: bool,
    /// The second of the last invalidation.
    pub invalidated_at: u64,
    /// Last-write-wins outcome of the most recent fetch attempt.
    pub healthy: bool,
    /// True while the one shared upstream fetch is under way.
    pub inflight: bool,
}

/// A cached entry is fresh at `now` when it was stored no more than the
/// TTL ago.
pub open spec fn entry_fresh(entry: Option<(Seq<u8>, u64)>, now: u64) -> bool {
    match entry {
        Some(e) => e.1 <= now < e.1 + CACHE_TTL_SECS,
        None => false,
    }
}

/// What a metadata request at `now` is told to do.
pub enum RequestDecision {
    /// Serve this cached body; no upstream traffic.
    Serve(Seq<u8>),
    /// The caller starts the one shared upstream fetch.
    StartFetch,
    /// A fetch is already in flight; wait for its result.
    AwaitLeader,
    /// The cache is bypassed: fetch fresh, do not store.
    FetchDirect,
}

/// The decision for a request at `now`.
pub open spec fn request_decision(s: CacheModel, now: u64) -> RequestDecision {
    if !s.cacheable {
        RequestDecision::FetchDirect
    } else if entry_fresh(s.entry, now) {
        RequestDecision::Serve(s.entry->Some_0.0)
    } else if s.inflight {
        RequestDecision::AwaitLeader
    } else {
        RequestDecision::StartFetch
    }
}

/// True when the decision sends traffic upstream.
pub open spec fn decision_fetches(d: RequestDecision) -> bool {
    d is StartFetch || d is FetchDirect
}

/// The state after a request at `now`: only becoming the fetch leader
/// changes anything, raising the in-flight gate.
pub open spec fn request_next(s: CacheModel, now: u64) -> CacheModel {
    if request_decision(s, now) is StartFetch {
        CacheModel { inflight: true, ..s }
    } else {
        s
    }
}

/// The state after the shared fetch finishes at `now`: the in-flight
/// flag falls, the health flag records the outcome, and a successful
/// body replaces the entry wholesale.
pub open spec fn fetch_done_next(s: CacheModel, now: u64, body: Option<Seq<u8>>) -> CacheModel {
    match body {
        Some(b) => CacheModel {
            inflight: false,
            healthy: true,
            entry: Some((b, now)),
            ..s
        },
        None => CacheModel { inflight: false, healthy: false, ..s },
    }
}

/// The state after a failure-triggered invalidation at `now`.
pub open spec fn invalidate_next(s: CacheModel, now: u64) -> CacheModel {
    CacheModel { cacheable: false, invalidated_at: now, ..s }
}

/// The state after an auto-heal check at `now`: the flag returns to true
/// only once the cooldown window has elapsed since the invalidation.
pub open spec fn heal_next(s: CacheModel, now: u64) -> CacheModel {
    if !s.cacheable && now >= s.invalidated_at + CACHE_COOLDOWN_SECS {
        CacheModel { cacheable: true, ..s }
    } else {
        s
    }
}

/// The state after processing a sequence of requests, in order.
pub open spec fn run_requests(s: CacheModel, times: Seq<u64>) -> CacheModel
    decreases times.len(),
{
    if times.len() == 0 {
        s
    } else {
        run_requests(request_next(s, times[0]), times.skip(1))
    }
}

/// How many of a sequence of requests go upstream.
pub open spec fn count_fetches(s: CacheModel, times: Seq<u64>) -> nat
    decreases times.len(),
{
    if times.len() == 0 {
        0
    } else {
        (if decision_fetches(request_decision(s, times[0])) {
            1nat
        } else {
            0nat
        }) + count_fetches(request_next(s, times[0]), times.skip(1))
    }
}

/// While the shared fetch is in flight and the cache usable, no request
/// goes upstream and the state does not move, whatever the request times.
pub proof fn lemma_inflight_blocks_fetches(s: CacheModel, times: Seq<u64>)
    requires
        s.cacheable,
        s.inflight,
    ensures
        count_fetches(s, times) == 0,
        run_requests(s, times) == s,
    decreases times.len(),
{
    if times.len() > 0 {
        lemma_inflight_blocks_fetches(s, times.skip(1));
    }
}

/// While the cache is usable and its entry fresh at every request time,
/// no request goes upstream and the state does not move.
pub proof fn lemma_fresh_window_serves(s: CacheModel, times: Seq<u64>)
    requires
        s.cacheable,
        forall|i: int| 0 <= i < times.len() ==> entry_fresh(s.entry, #[trigger] times[i]),
    ensures
        count_fetches(s, times) == 0,
        run_requests(s, times) == s,
    decreases times.len(),
{
    if times.len() > 0 {
        assert(entry_fresh(s.entry, times[0]));
        lemma_fresh_window_serves(s, times.skip(1));
    }
}

/// Cache single-flight: with the cache usable and no fresh entry, the
/// first request becomes the one fetch leader; every concurrent request
/// before the fetch completes waits instead of fetching; and once the
/// shared fetch lands, every request inside its TTL window is served the
/// fetched body from the cache. One upstream fetch serves them all.
pub proof fn lemma_single_flight(
    s0: CacheModel,
    t0: u64,
    mid: Seq<u64>,
    tc: u64,
    body: Seq<u8>,
    later: Seq<u64>,
)
    requires
        s0.cacheable,
        !s0.inflight,
        !entry_fresh(s0.entry, t0),
        forall|i: int| 0 <= i < later.len() ==> tc <= #[trigger] later[i] < tc + CACHE_TTL_SECS,
    ensures
        ({
            let s1 = request_next(s0, t0);
            let s2 = run_requests(s1, mid);
            let s3 = fetch_done_next(s2, tc, Some(body));
            &&& request_decision(s0, t0) == RequestDecision::StartFetch
            &&& count_fetches(s1, mid) == 0
            &&& count_fetches(s3, later) == 0
            &&& forall|i: int|
                0 <= i < later.len() ==> request_decision(
                    run_requests(s3, later.take(i)),
                    #[trigger] later[i],
                ) == RequestDecision::Serve(body)
        }),
{
    let s1 = request_next(s0, t0);
    let s2 = run_requests(s1, mid);
    lemma_inflight_blocks_fetches(s1, mid);
    let s3 = fetch_done_next(s2, tc, Some(body));
    assert(forall|i: int| 0 <= i < later.len() ==> entry_fresh(s3.entry, #[trigger] later[i]));
    lemma_fresh_window_serves(s3, later);
    assert forall|i: int| 0 <= i < later.len() implies request_decision(
        run_requests(s3, later.take(i)),
        later[i],
    ) == RequestDecision::Serve(body) by {
        assert(forall|j: int|
            0 <= j < later.take(i).len() ==> entry_fresh(s3.entry, #[trigger] later.take(i)[j]));
        lemma_fresh_window_serves(s3, later.take(i));
        assert(entry_fresh(s3.entry, later[i]));
    }
}

/// The executable cache core.
pub struct CacheCore {
    entry: Option<(Vec<u8>, u64)>,
    cacheable: bool,
    invalidated_at: u64,
    healthy: bool,
    inflight: bool,
}

/// What a metadata request is told to do, carrying the served bytes.
pub enum RequestAction {
    Serve(Vec<u8>),
    StartFetch,
    AwaitLeader,
    FetchDirect,
}

impl CacheCore {
    /// The core, seen as its mathematical state.
    pub closed spec fn view(&self) -> CacheModel {
        CacheModel {
            entry: match self.entry {
                Some(e) => Some((e.0@, e.1)),
                None => None,
            },
            cacheable: self.cacheable,
            invalidated_at: self.invalidated_at,
            healthy: self.healthy,
            inflight: self.inflight,
        }
    }

    /// A fresh core: no entry, cacheable, healthy, no fetch in flight.
    pub fn new() -> (r: CacheCore)
        ensures
            r@ == (CacheModel {
                entry: None,
                cacheable: true,
                invalidated_at: 0,
                healthy: true,
                inflight: false,
            }),
    {
        CacheCore {
            entry: None,
            cacheable: true,
            invalidated_at: 0,
            healthy: true,
            inflight: false,
        }
    }

    /// The health flag, read by the control boundary.
    pub fn is_healthy(&self) -> (r: bool)
        ensures
            r == self@.healthy,
    {
        self.healthy
    }

    /// The cacheability flag.
    pub fn is_cacheable(&self) -> (r: bool)
        ensures
            r == self@.cacheable,
    {
        self.cacheable
    }

    /// Decides what a metadata request arriving at `now` does, and raises
    /// the in-flight gate when the caller becomes the fetch leader.
    pub fn on_request(&mut self, now: u64) -> (a: RequestAction)
        ensures
            final(self)@ == request_next(old(self)@, now),
            match a {
                RequestAction::Serve(b) => request_decision(old(self)@, now)
                    == RequestDecision::Serve(b@),
                RequestAction::StartFetch => request_decision(old(self)@, now)
                    == RequestDecision::StartFetch,
                RequestAction::AwaitLeader => request_decision(old(self)@, now)
                    == RequestDecision::AwaitLeader,
                RequestAction::FetchDirect => request_decision(old(self)@, now)
                    == RequestDecision::FetchDirect,
            },
    {
        if !self.cacheable {
            return RequestAction::FetchDirect;
        }
        let fresh = match &self.entry {
            Some(e) => e.1 <= now && now - e.1 < CACHE_TTL_SECS,
            None => false,
        };
        if fresh {
            match &self.entry {
                Some(e) => {
                    let body = vstd::slice::slice_to_vec(e.0.as_slice());
                    return RequestAction::Serve(body);
                },
                None => {
                    proof {
                        assert(false);
                    }
                    return RequestAction::AwaitLeader;
                },
            }
        }
        if self.inflight {
            RequestAction::AwaitLeader
        } else {
            self.inflight = true;
            RequestAction::StartFetch
        }
    }

    /// Records the completion of the shared fetch at `now`.
    pub fn on_fetch_done(&mut self, now: u64, body: Option<Vec<u8>>)
        ensures
            final(self)@ == fetch_done_next(
                old(self)@,
                now,
                match body {
                    Some(b) => Some(b@),
                    None => None,
                },
            ),
    {
        self.inflight = false;
        match body {
            Some(b) => {
                self.healthy = true;
                self.entry = Some((b, now));
            },
            None => {
                self.healthy = false;
            },
        }
    }

    /// Records the outcome of a cache-bypassing direct fetch: only the
    /// health flag moves.
    pub fn on_direct_fetch_done(&mut self, ok: bool)
        ensures
            final(self)@ == (CacheModel { healthy: ok, ..old(self)@ }),
    {
        self.healthy = ok;
    }

    /// Marks the cache unusable after a detected upstream death at `now`.
    pub fn invalidate(&mut self, now: u64)
        ensures
            final(self)@ == invalidate_next(old(self)@, now),
            !final(self)@.cacheable,
            final(self)@.invalidated_at == now,
    {
        self.cacheable = false;
        self.invalidated_at = now;
    }

    /// Auto-heal check at `now`: restores cacheability if and only if the
    /// cooldown window has fully elapsed since the invalidation.
    pub fn try_heal(&mut self, now: u64)
        ensures
            final(self)@ == heal_next(old(self)@, now),
            final(self)@.cacheable == (old(self)@.cacheable || now >= old(self)@.invalidated_at
                + CACHE_COOLDOWN_SECS),
    {
        if !self.cacheable && now >= self.invalidated_at && now - self.invalidated_at
            >= CACHE_COOLDOWN_SECS {
            self.cacheable = true;
        }
    }
}

/// Shapes a fetched metadata document: with a hostname override
/// configured the body passes through the payload rewriter, otherwise it
/// is handed back unchanged; a failed fetch stays empty.
pub fn shape_fetched_body(
    raw: Option<Vec<u8>>,
    rw: &crate::rewrite::PayloadRewriter,
    use_rewrite: bool,
) -> (out: Option<Vec<u8>>)
    requires
        rw.wf(),
    ensures
        match raw {
            None => out is None,
            Some(b) => match out {
                Some(o) => o@ == if use_rewrite {
                    crate::rewrite::rewritten(b@, rw.host_pat@, rw.host_rep@, rw.port_pat@, rw.port_rep@)
                } else {
                    b@
                },
                None => false,
            },
        },
{
    match raw {
        None => None,
        Some(b) => {
            if use_rewrite {
                Some(rw.rewrite(b.as_slice()))
            } else {
                Some(b)
            }
        },
    }
}

} // verus!
