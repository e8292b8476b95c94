//! The control-plane contract: route resolution for the management HTTP
//! API, decimal port parsing, the exact response bodies, and the bounded
//! poll policy the metadata route applies before falling back to the
//! placeholder document.
//!
//! The HTTP server itself runs outside; it forwards each request's method
//! and path here and writes back the reply this module builds.

use crate::rewrite::is_prefix;
use crate::text::{ascii_bytes, dec_digits, str_bytes};
use vstd::prelude::*;

verus! {

/// An ASCII decimal digit.
pub open spec fn is_digit(b: u8) -> bool {
    48 <= b <= 57
}

/// Every byte is a decimal digit.
pub open spec fn all_digits(s: Seq<u8>) -> bool {
    forall|i: int| 0 <= i < s.len() ==> is_digit(#[trigger] s[i])
}

/// The number the digit string denotes.
pub open spec fn dec_value(s: Seq<u8>) -> int
    decreases s.len(),
{
    if s.len() == 0 {
        0
    } else {
        dec_value(s.drop_last()) * 10 + (s.last() - 48)
    }
}

/// The digits of a decimal token: an optional leading plus sign is
/// stripped.
pub open spec fn digits_part(s: Seq<u8>) -> Seq<u8> {
    if s.len() >= 1 && s[0] == 43 {
        s.skip(1)
    } else {
        s
    }
}

/// True when the token parses as a `u32`: at least one digit, digits
/// only, and a value in range.
pub open spec fn parses_u32(s: Seq<u8>) -> bool {
    &&& digits_part(s).len() > 0
    &&& all_digits(digits_part(s))
    &&& dec_value(digits_part(s)) <= u32::MAX
}

/// A digit string's value never falls below any prefix's value.
proof fn lemma_dec_value_prefix(s: Seq<u8>, i: int)
    requires
        all_digits(s),
        0 <= i <= s.len(),
    ensures
        dec_value(s) >= dec_value(s.take(i)),
        dec_value(s) >= 0,
    decreases s.len() - i,
{
    if i == s.len() {
        assert(s.take(i) =~= s);
        lemma_dec_value_nonneg(s);
    } else {
        lemma_dec_value_prefix(s, i + 1);
        assert(s.take(i + 1).drop_last() =~= s.take(i));
        assert(all_digits(s.take(i + 1)));
        lemma_dec_value_nonneg(s.take(i));
        assert(dec_value(s.take(i + 1)) == dec_value(s.take(i)) * 10 + (s[i] - 48));
        assert(dec_value(s.take(i)) * 10 >= dec_value(s.take(i)));
    }
}

/// A digit string's value is never negative.
proof fn lemma_dec_value_nonneg(s: Seq<u8>)
    requires
        all_digits(s),
    ensures
        dec_value(s) >= 0,
    decreases s.len(),
{
    if s.len() > 0 {
        assert(all_digits(s.drop_last()));
        lemma_dec_value_nonneg(s.drop_last());
    }
}

/// Parses a decimal `u32` token: digits with an optional leading plus
/// sign. Returns the value if and only if the token is well-formed and
/// in range.
pub fn parse_u32(s: &[u8]) -> (r: Option<u32>)
    ensures
        match r {
            Some(v) => parses_u32(s@) && v == dec_value(digits_part(s@)),
            None => !parses_u32(s@),
        },
{
    let ghost dp = digits_part(s@);
    let start: usize = if s.len() >= 1 && s[0] == 43 {
        1
    } else {
        0
    };
    proof {
        assert(dp =~= s@.skip(start as int));
    }
    if start == s.len() {
        return None;
    }
    let mut acc: u32 = 0;
    let mut k: usize = start;
    while k < s.len()
        invariant
            start <= k <= s@.len(),
            dp == digits_part(s@),
            dp == s@.skip(start as int),
            dp.len() == s@.len() - start,
            all_digits(dp.take(k - start)),
            acc == dec_value(dp.take(k - start)),
        decreases s@.len() - k,
    {
        let b = s[k];
        if b < 48 || b > 57 {
            proof {
                assert(dp[k - start] == s@[k as int]);
                assert(!is_digit(dp[k - start]));
                assert(!all_digits(dp));
                assert(!parses_u32(s@));
            }
            return None;
        }
        let d = b - 48;
        proof {
            assert(dp.take(k - start + 1).drop_last() =~= dp.take(k - start));
            assert(dp.take(k - start + 1).last() == s@[k as int]);
            assert(all_digits(dp.take(k - start + 1)));
        }
        let wide = match acc.checked_mul(10) {
            Some(w) => match w.checked_add(d as u32) {
                Some(w2) => w2,
                None => {
                    proof {
                        assert(dec_value(dp.take(k - start + 1)) > u32::MAX);
                        if all_digits(dp) {
                            lemma_dec_value_prefix(dp, k - start + 1);
                            assert(dec_value(dp) > u32::MAX);
                        }
                        assert(!parses_u32(s@));
                    }
                    return None;
                },
            },
            None => {
                proof {
                    lemma_dec_value_nonneg(dp.take(k - start));
                    assert(dec_value(dp.take(k - start + 1)) > u32::MAX);
                    if all_digits(dp) {
                        lemma_dec_value_prefix(dp, k - start + 1);
                        assert(dec_value(dp) > u32::MAX);
                    }
                    assert(!parses_u32(s@));
                }
                return None;
            },
        };
        acc = wide;
        k = k + 1;
    }
    proof {
        assert(dp.take(s@.len() - start) =~= dp);
    }
    Some(acc)
}

/// The method of a control-plane request, as far as routing cares.
#[derive(PartialEq, Eq, Structural, Clone, Copy, Debug)]
pub enum HttpMethod {
    Get,
    Post,
    OtherMethod,
}

/// Where a control-plane request goes.
pub enum Route {
    /// Report the health flag.
    Health,
    /// Serve the (possibly rewritten) metadata document.
    JsonVersion,
    /// Fork a backend instance, on the given port when one was supplied.
    Fork(Option<u32>),
    /// A fork route whose port segment does not parse.
    InvalidForkPort,
    /// Terminate every registered instance.
    Shutdown,
    /// Anything else.
    NotFound,
}

/// The length of the first path segment: the bytes before the next
/// slash, or the whole remainder.
pub open spec fn seg_len(s: Seq<u8>) -> int
    decreases s.len(),
{
    if s.len() == 0 {
        0
    } else if s[0] == 47 {
        0
    } else {
        1 + seg_len(s.skip(1))
    }
}

/// The port segment of a fork route: the bytes after `/fork/` up to the
/// next slash or the end of the path.
pub open spec fn fork_port_segment(path: Seq<u8>) -> Seq<u8> {
    path.skip(6).take(seg_len(path.skip(6)))
}

/// The route of a request.
pub open spec fn route_spec(m: HttpMethod, path: Seq<u8>) -> Route {
    if m == HttpMethod::Get && (path == ascii_bytes("/health"@) || path == ascii_bytes("/"@)) {
        Route::Health
    } else if m == HttpMethod::Get && path == ascii_bytes("/json/version"@) {
        Route::JsonVersion
    } else if m == HttpMethod::Post && path == ascii_bytes("/fork"@) {
        Route::Fork(None)
    } else if m == HttpMethod::Post && is_prefix(ascii_bytes("/fork/"@), path) {
        if parses_u32(fork_port_segment(path)) {
            Route::Fork(Some(dec_value(digits_part(fork_port_segment(path))) as u32))
        } else {
            Route::InvalidForkPort
        }
    } else if m == HttpMethod::Post && path == ascii_bytes("/shutdown"@) {
        Route::Shutdown
    } else {
        Route::NotFound
    }
}

/// The first path segment of `s`, as a vector.
fn take_segment(s: &[u8], from: usize) -> (seg: Vec<u8>)
    requires
        from <= s@.len(),
    ensures
        seg@ == s@.skip(from as int).take(seg_len(s@.skip(from as int))),
{
    let mut seg: Vec<u8> = Vec::new();
    let mut k: usize = from;
    while k < s.len() && s[k] != 47
        invariant
            from <= k <= s@.len(),
            seg@ =~= s@.subrange(from as int, k as int),
            forall|m: int| from <= m < k ==> s@[m] != 47,
        decreases s@.len() - k,
    {
        seg.push(s[k]);
        k = k + 1;
    }
    proof {
        lemma_seg_len_scan(s@.skip(from as int), k - from);
        assert(s@.skip(from as int).take(k - from) =~= s@.subrange(from as int, k as int));
    }
    seg
}

/// If the first `n` bytes are not slashes and byte `n` (when there is
/// one) is a slash, the first segment is exactly `n` bytes long.
proof fn lemma_seg_len_scan(s: Seq<u8>, n: int)
    requires
        0 <= n <= s.len(),
        forall|m: int| 0 <= m < n ==> s[m] != 47,
        n < s.len() ==> s[n] == 47,
    ensures
        seg_len(s) == n,
    decreases n,
{
    if n == 0 {
    } else {
        lemma_seg_len_scan(s.skip(1), n - 1);
    }
}

/// A control-plane reply: the status code, the body, and whether the
/// body is the JSON metadata document.
pub struct HttpReply {
    pub status: u16,
    pub body: Vec<u8>,
    pub json: bool,
}

/// The placeholder metadata document served when no upstream document
/// could be fetched.
pub open spec fn placeholder_document() -> Seq<u8> {
    ascii_bytes(
        "{\"Browser\":\"\",\"Protocol-Version\":\"\",\"User-Agent\":\"\",\"V8-Version\":\"\",\"WebKit-Version\":\"\",\"webSocketDebuggerUrl\":\"\"}"@,
    )
}

/// The health reply: 200 "healthy" or 503 "unhealthy".
pub fn health_reply(healthy: bool) -> (r: HttpReply)
    ensures
        healthy ==> r.status == 200 && r.body@ == ascii_bytes("healthy"@),
        !healthy ==> r.status == 503 && r.body@ == ascii_bytes("unhealthy"@),
        !r.json,
{
    proof {
        reveal_strlit("healthy");
        reveal_strlit("unhealthy");
    }
    if healthy {
        HttpReply { status: 200, body: str_bytes("healthy"), json: false }
    } else {
        HttpReply { status: 503, body: str_bytes("unhealthy"), json: false }
    }
}

/// The fork reply: 200 with the forked id, the sentinel id included.
pub fn fork_reply(id: u32) -> (r: HttpReply)
    ensures
        r.status == 200,
        r.body@ == ascii_bytes("Forked process with pid: "@) + dec_digits(id as nat),
        !r.json,
{
    proof {
        reveal_strlit("Forked process with pid: ");
    }
    let mut body = str_bytes("Forked process with pid: ");
    let digits = crate::text::u32_to_dec(id);
    crate::text::append_bytes(&mut body, digits.as_slice());
    HttpReply { status: 200, body, json: false }
}

/// The shutdown reply.
pub fn shutdown_reply() -> (r: HttpReply)
    ensures
        r.status == 200,
        r.body@ == ascii_bytes("Shutdown successful."@),
        !r.json,
{
    proof {
        reveal_strlit("Shutdown successful.");
    }
    HttpReply { status: 200, body: str_bytes("Shutdown successful."), json: false }
}

/// The reply for an unmatched route.
pub fn not_found_reply() -> (r: HttpReply)
    ensures
        r.status == 404,
        r.body@ == ascii_bytes("Not Found"@),
        !r.json,
{
    proof {
        reveal_strlit("Not Found");
    }
    HttpReply { status: 404, body: str_bytes("Not Found"), json: false }
}

/// The reply for a fork route whose port segment does not parse.
pub fn invalid_port_reply() -> (r: HttpReply)
    ensures
        r.status == 200,
        r.body@ == ascii_bytes("Invalid port argument"@),
        !r.json,
{
    proof {
        reveal_strlit("Invalid port argument");
    }
    HttpReply { status: 200, body: str_bytes("Invalid port argument"), json: false }
}

/// The metadata reply: the fetched document with 200, or the placeholder
/// document with 500 when every poll attempt came back empty.
pub fn version_reply(body: Option<Vec<u8>>) -> (r: HttpReply)
    ensures
        r.json,
        match body {
            Some(b) => r.status == 200 && r.body@ == b@,
            None => r.status == 500 && r.body@ == placeholder_document(),
        },
{
    proof {
        reveal_strlit(
            "{\"Browser\":\"\",\"Protocol-Version\":\"\",\"User-Agent\":\"\",\"V8-Version\":\"\",\"WebKit-Version\":\"\",\"webSocketDebuggerUrl\":\"\"}",
        );
    }
    match body {
        Some(b) => HttpReply { status: 200, body: b, json: true },
        None => HttpReply {
            status: 500,
            body: str_bytes(
                "{\"Browser\":\"\",\"Protocol-Version\":\"\",\"User-Agent\":\"\",\"V8-Version\":\"\",\"WebKit-Version\":\"\",\"webSocketDebuggerUrl\":\"\"}",
            ),
            json: true,
        },
    }
}

/// How often the metadata route polls the cache before falling back to
/// the placeholder document.
pub const METADATA_POLL_ATTEMPTS: u32 = 10;

/// The pause between metadata polls, in milliseconds.
pub const METADATA_POLL_DELAY_MS: u64 = 25;

/// Whether the metadata route polls again after an empty result:
/// `attempts_done` counts the attempts so far, the empty one included.
pub fn should_poll_again(attempts_done: u32) -> (r: bool)
    ensures
        r == (attempts_done < METADATA_POLL_ATTEMPTS),
{
    attempts_done < METADATA_POLL_ATTEMPTS
}

/// Runs the metadata poll policy over a pre-recorded sequence of per-poll
/// results: the first document that came back within the attempt cap, or
/// nothing once the cap is exhausted. This is how the control boundary
/// absorbs transient startup races before falling back to the placeholder
/// document.
pub fn poll_outcome(results: &Vec<Option<Vec<u8>>>) -> (r: Option<Vec<u8>>)
    requires
        results@.len() >= METADATA_POLL_ATTEMPTS,
    ensures
        match r {
            Some(b) => exists|i: int|
                0 <= i < METADATA_POLL_ATTEMPTS && #[trigger] results@[i] is Some && b@
                    == results@[i]->Some_0@ && (forall|j: int|
                    0 <= j < i ==> #[trigger] results@[j] is None),
            None => forall|j: int|
                0 <= j < METADATA_POLL_ATTEMPTS ==> #[trigger] results@[j] is None,
        },
{
    let mut attempts: u32 = 0;
    while attempts < METADATA_POLL_ATTEMPTS
        invariant
            0 <= attempts <= METADATA_POLL_ATTEMPTS,
            results@.len() >= METADATA_POLL_ATTEMPTS,
            forall|j: int| 0 <= j < attempts ==> #[trigger] results@[j] is None,
        decreases METADATA_POLL_ATTEMPTS - attempts,
    {
        match &results[attempts as usize] {
            Some(b) => {
                let body = vstd::slice::slice_to_vec(b.as_slice());
                return Some(body);
            },
            None => {},
        }
        attempts = attempts + 1;
    }
    None
}

/// Resolves the route of a control-plane request.
pub fn route_request(m: HttpMethod, path: &[u8]) -> (r: Route)
    ensures
        r == route_spec(m, path@),
{
    proof {
        reveal_strlit("/health");
        reveal_strlit("/");
        reveal_strlit("/json/version");
        reveal_strlit("/fork");
        reveal_strlit("/fork/");
        reveal_strlit("/shutdown");
    }
    let health = str_bytes("/health");
    let root = str_bytes("/");
    let json_version = str_bytes("/json/version");
    let fork = str_bytes("/fork");
    let fork_prefix = str_bytes("/fork/");
    let shutdown = str_bytes("/shutdown");
    match m {
        HttpMethod::Get => {
            if crate::text::bytes_eq(path, health.as_slice()) || crate::text::bytes_eq(
                path,
                root.as_slice(),
            ) {
                Route::Health
            } else if crate::text::bytes_eq(path, json_version.as_slice()) {
                Route::JsonVersion
            } else {
                Route::NotFound
            }
        },
        HttpMethod::Post => {
            if crate::text::bytes_eq(path, fork.as_slice()) {
                Route::Fork(None)
            } else if crate::text::starts_with(path, fork_prefix.as_slice()) {
                let seg = take_segment(path, 6);
                match parse_u32(seg.as_slice()) {
                    Some(v) => Route::Fork(Some(v)),
                    None => Route::InvalidForkPort,
                }
            } else if crate::text::bytes_eq(path, shutdown.as_slice()) {
                Route::Shutdown
            } else {
                Route::NotFound
            }
        },
        HttpMethod::OtherMethod => Route::NotFound,
    }
}

} // verus!
