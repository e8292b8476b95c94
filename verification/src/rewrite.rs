//! The payload rewriter: single-pass, leftmost-first literal byte
//! substitution, applied twice (host literal, then port literal) to relocate
//! the host and port literals inside the debug protocol's root document.
//!
//! No structural parsing is performed: every byte outside a matched literal
//! is copied unchanged and in order.

use vstd::prelude::*;

verus! {

/// True when `pat` occurs in `s` starting at index `i`.
pub open spec fn occurs_at(s: Seq<u8>, pat: Seq<u8>, i: int) -> bool {
    0 <= i && i + pat.len() <= s.len() && s.subrange(i, i + pat.len() as int) == pat
}

/// True when `pat` occurs somewhere in `s`.
pub open spec fn occurs(s: Seq<u8>, pat: Seq<u8>) -> bool {
    exists|i: int| occurs_at(s, pat, i)
}

/// True when `p` is a prefix of `s`.
pub open spec fn is_prefix(p: Seq<u8>, s: Seq<u8>) -> bool {
    p.len() <= s.len() && s.subrange(0, p.len() as int) == p
}

/// True when `p` is a suffix of `s`.
pub open spec fn is_suffix(p: Seq<u8>, s: Seq<u8>) -> bool {
    p.len() <= s.len() && s.subrange(s.len() - p.len(), s.len() as int) == p
}

/// The single-pass, leftmost-first replacement of `pat` by `rep` in `s`:
/// scan left to right; at a match emit `rep` and step over the match;
/// otherwise emit the byte and step by one.
pub open spec fn replaced(s: Seq<u8>, pat: Seq<u8>, rep: Seq<u8>) -> Seq<u8>
    decreases s.len(),
{
    if s.len() == 0 {
        Seq::empty()
    } else if 0 < pat.len() <= s.len() && s.subrange(0, pat.len() as int) == pat {
        rep + replaced(s.skip(pat.len() as int), pat, rep)
    } else {
        seq![s[0]] + replaced(s.skip(1), pat, rep)
    }
}

/// The two-pass rewrite of a payload: first the host literal, then the
/// port literal.
pub open spec fn rewritten(
    body: Seq<u8>,
    host_pat: Seq<u8>,
    host_rep: Seq<u8>,
    port_pat: Seq<u8>,
    port_rep: Seq<u8>,
) -> Seq<u8> {
    replaced(replaced(body, host_pat, host_rep), port_pat, port_rep)
}

/// True when `s[i..i + pat.len()]` equals `pat`, decided byte by byte.
fn matches_at(s: &[u8], pat: &[u8], i: usize) -> (r: bool)
    requires
        i + pat@.len() <= s@.len(),
    ensures
        r == occurs_at(s@, pat@, i as int),
{
    let mut k: usize = 0;
    while k < pat.len()
        invariant
            0 <= k <= pat@.len(),
            i + pat@.len() <= s@.len(),
            forall|m: int| 0 <= m < k ==> s@[i + m] == pat@[m],
        decreases pat@.len() - k,
    {
        let n = s.len();
        assert(i + k < n);
        if s[i + k] != pat[k] {
            assert(s@.subrange(i as int, i + pat@.len()) != pat@) by {
                assert(s@.subrange(i as int, i + pat@.len())[k as int] != pat@[k as int]);
            }
            return false;
        }
        k = k + 1;
    }
    assert(s@.subrange(i as int, i + pat@.len()) =~= pat@);
    true
}

/// Replaces every leftmost-first occurrence of `pat` in `s` by `rep`.
pub fn replace_all(s: &[u8], pat: &[u8], rep: &[u8]) -> (out: Vec<u8>)
    requires
        pat@.len() > 0,
    ensures
        out@ == replaced(s@, pat@, rep@),
{
    let mut out: Vec<u8> = Vec::new();
    let mut i: usize = 0;
    proof {
        assert(s@.skip(0) =~= s@);
        assert(Seq::<u8>::empty() + replaced(s@, pat@, rep@) =~= replaced(s@, pat@, rep@));
    }
    while i < s.len()
        invariant
            0 <= i <= s@.len(),
            pat@.len() > 0,
            replaced(s@, pat@, rep@) == out@ + replaced(s@.skip(i as int), pat@, rep@),
        decreases s@.len() - i,
    {
        let ghost suf = s@.skip(i as int);
        if pat.len() <= s.len() - i && matches_at(s, pat, i) {
            proof {
                assert(suf.subrange(0, pat@.len() as int) =~= s@.subrange(
                    i as int,
                    i + pat@.len(),
                ));
                assert(suf.skip(pat@.len() as int) =~= s@.skip(i + pat@.len()));
                assert(replaced(suf, pat@, rep@) == rep@ + replaced(
                    s@.skip(i + pat@.len()),
                    pat@,
                    rep@,
                ));
            }
            crate::text::append_bytes(&mut out, rep);
            proof {
                assert(replaced(s@, pat@, rep@) == out@ + replaced(
                    s@.skip(i + pat@.len()),
                    pat@,
                    rep@,
                )) by {
                    assert(replaced(s@, pat@, rep@) =~= out@ + replaced(
                        s@.skip(i + pat@.len()),
                        pat@,
                        rep@,
                    ));
                }
            }
            i = i + pat.len();
        } else {
            proof {
                if 0 < pat@.len() <= suf.len() && suf.subrange(0, pat@.len() as int) == pat@ {
                    assert(i + pat@.len() <= s@.len());
                    assert(occurs_at(s@, pat@, i as int)) by {
                        assert(s@.subrange(i as int, i + pat@.len()) =~= suf.subrange(
                            0,
                            pat@.len() as int,
                        ));
                    }
                    assert(false);
                }
                assert(replaced(suf, pat@, rep@) == seq![suf[0]] + replaced(
                    suf.skip(1),
                    pat@,
                    rep@,
                ));
                assert(suf.skip(1) =~= s@.skip(i + 1));
                assert(suf[0] == s@[i as int]);
            }
            let b = s[i];
            out.push(b);
            proof {
                assert(replaced(s@, pat@, rep@) =~= out@ + replaced(s@.skip(i + 1), pat@, rep@));
            }
            i = i + 1;
        }
    }
    proof {
        assert(s@.skip(s@.len() as int).len() == 0);
        assert(replaced(s@.skip(i as int), pat@, rep@) =~= Seq::<u8>::empty());
        assert(out@ + Seq::<u8>::empty() =~= out@);
    }
    out
}

/// An occurrence inside a suffix of `s` is an occurrence in `s`.
proof fn lemma_occurs_at_skip(s: Seq<u8>, pat: Seq<u8>, k: int, j: int)
    requires
        0 <= k <= s.len(),
        occurs_at(s.skip(k), pat, j),
    ensures
        occurs_at(s, pat, j + k),
{
    assert(s.subrange(j + k, j + k + pat.len()) =~= s.skip(k).subrange(j, j + pat.len()));
}

/// A pattern that occurs nowhere in `s` is left alone: the replacement pass
/// is the identity.
pub proof fn lemma_replaced_identity(s: Seq<u8>, pat: Seq<u8>, rep: Seq<u8>)
    requires
        pat.len() > 0,
        !occurs(s, pat),
    ensures
        replaced(s, pat, rep) == s,
    decreases s.len(),
{
    if s.len() == 0 {
        assert(replaced(s, pat, rep) =~= s);
    } else {
        assert(!occurs_at(s, pat, 0));
        if 0 < pat.len() <= s.len() && s.subrange(0, pat.len() as int) == pat {
            assert(occurs_at(s, pat, 0));
            assert(false);
        }
        assert(!occurs(s.skip(1), pat)) by {
            if occurs(s.skip(1), pat) {
                let j = choose|j: int| occurs_at(s.skip(1), pat, j);
                lemma_occurs_at_skip(s, pat, 1, j);
                assert(occurs_at(s, pat, j + 1));
                assert(false);
            }
        }
        lemma_replaced_identity(s.skip(1), pat, rep);
        assert(seq![s[0]] + s.skip(1) =~= s);
    }
}

/// The conditions under which inserting `rep` blocks into a byte stream can
/// neither contain nor create an occurrence of `q`: `q` does not occur in
/// `rep`; no nonempty proper prefix of `q` is a suffix of `rep`; no nonempty
/// proper suffix of `q` is a prefix of `rep`; and `rep` does not occur in
/// `q` anywhere past its start.
pub open spec fn compat(q: Seq<u8>, rep: Seq<u8>) -> bool {
    &&& !occurs(rep, q)
    &&& forall|k: int| 0 < k < q.len() ==> !is_suffix(#[trigger] q.subrange(0, k), rep)
    &&& forall|j: int| 0 < j < q.len() ==> !is_prefix(#[trigger] q.skip(j), rep)
    &&& forall|j: int| 1 <= j ==> !occurs_at(q, rep, j)
}

/// A byte-level sufficient condition for `compat`: `q`'s first byte
/// appears nowhere in `rep` past its start, `rep`'s first byte appears
/// nowhere in `q` past its start, a longer `q` starts differently from
/// `rep`, and a `q` no longer than `rep` differs from `rep`'s start
/// somewhere.
pub proof fn lemma_compat_by_bytes(q: Seq<u8>, rep: Seq<u8>)
    requires
        q.len() > 0,
        rep.len() > 0,
        forall|j: int| 1 <= j < rep.len() ==> #[trigger] rep[j] != q[0],
        forall|j: int| 1 <= j < q.len() ==> #[trigger] q[j] != rep[0],
        q.len() > rep.len() ==> q[0] != rep[0],
        q.len() <= rep.len() ==> exists|d: int| 0 <= d < q.len() && #[trigger] q[d] != rep[d],
    ensures
        compat(q, rep),
{
    assert(!occurs(rep, q)) by {
        if occurs(rep, q) {
            let j = choose|j: int| occurs_at(rep, q, j);
            if j >= 1 {
                assert(rep.subrange(j, j + q.len())[0] == rep[j]);
            } else {
                assert(q.len() <= rep.len());
                let d = choose|d: int| 0 <= d < q.len() && q[d] != rep[d];
                assert(rep.subrange(0, q.len() as int)[d] == rep[d]);
            }
            assert(false);
        }
    }
    assert forall|k: int| 0 < k < q.len() implies !is_suffix(#[trigger] q.subrange(0, k), rep) by {
        if is_suffix(q.subrange(0, k), rep) {
            assert(rep.subrange(rep.len() - k, rep.len() as int)[0] == rep[rep.len() - k]);
            assert(q.subrange(0, k)[0] == q[0]);
            if rep.len() - k >= 1 {
                assert(rep[rep.len() - k] != q[0]);
            } else {
                assert(rep[0] == q[0]);
                assert(q.len() > rep.len());
            }
            assert(false);
        }
    }
    assert forall|j: int| 0 < j < q.len() implies !is_prefix(#[trigger] q.skip(j), rep) by {
        if is_prefix(q.skip(j), rep) {
            assert(rep.subrange(0, q.len() - j)[0] == rep[0]);
            assert(q.skip(j)[0] == q[j]);
            assert(false);
        }
    }
    assert forall|j: int| 1 <= j implies !occurs_at(q, rep, j) by {
        if occurs_at(q, rep, j) {
            assert(q.subrange(j, j + rep.len())[0] == q[j]);
            assert(false);
        }
    }
}

/// If a nonempty proper suffix of `q` is a prefix of a replacement pass's
/// output, it was already a prefix of that pass's input.
proof fn lemma_suffix_prefix_of_replaced(
    t: Seq<u8>,
    pat: Seq<u8>,
    rep: Seq<u8>,
    q: Seq<u8>,
    x: Seq<u8>,
)
    requires
        pat.len() > 0,
        q.len() > 0,
        compat(q, rep),
        x.len() > 0,
        x.len() < q.len(),
        is_suffix(x, q),
        is_prefix(x, replaced(t, pat, rep)),
    ensures
        is_prefix(x, t),
    decreases t.len(),
{
    let out = replaced(t, pat, rep);
    if t.len() == 0 {
        assert(false);
    } else if 0 < pat.len() <= t.len() && t.subrange(0, pat.len() as int) == pat {
        let rest = replaced(t.skip(pat.len() as int), pat, rep);
        assert(out == rep + rest);
        let j = q.len() - x.len();
        assert(q.skip(j) =~= x);
        if x.len() <= rep.len() {
            assert(is_prefix(x, rep)) by {
                assert(rep.subrange(0, x.len() as int) =~= out.subrange(0, x.len() as int));
            }
            assert(!is_prefix(q.skip(j), rep));
            assert(false);
        } else {
            assert(occurs_at(q, rep, j)) by {
                assert(q.subrange(j, j + rep.len()) =~= out.subrange(0, rep.len() as int));
                assert(out.subrange(0, rep.len() as int) =~= rep);
            }
            assert(false);
        }
    } else {
        let rest = replaced(t.skip(1), pat, rep);
        assert(out == seq![t[0]] + rest);
        assert(x[0] == t[0]) by {
            assert(out.subrange(0, x.len() as int)[0] == x[0]);
        }
        if x.len() == 1 {
            assert(t.subrange(0, 1) =~= x);
        } else {
            assert(is_prefix(x.skip(1), rest)) by {
                assert(rest.subrange(0, x.len() - 1) =~= out.subrange(0, x.len() as int).skip(1));
                assert(out.subrange(0, x.len() as int).skip(1) =~= x.skip(1));
            }
            assert(is_suffix(x.skip(1), q)) by {
                assert(q.subrange(q.len() - (x.len() - 1), q.len() as int) =~= x.skip(1));
            }
            lemma_suffix_prefix_of_replaced(t.skip(1), pat, rep, q, x.skip(1));
            assert(is_prefix(x, t)) by {
                assert(t.subrange(0, x.len() as int) =~= x) by {
                    assert(t.skip(1).subrange(0, x.len() - 1) =~= x.skip(1));
                    assert forall|m: int| 0 <= m < x.len() implies t.subrange(0, x.len() as int)[m]
                        == x[m] by {
                        if m >= 1 {
                            assert(x.skip(1)[m - 1] == x[m]);
                            assert(t.skip(1).subrange(0, x.len() - 1)[m - 1] == t[m]);
                        }
                    }
                }
            }
        }
    }
}

/// After one replacement pass, `q` does not occur in the output, provided
/// `q` is the replaced pattern itself or did not occur in the input, and
/// the inserted blocks are compatible with `q`.
pub proof fn lemma_replaced_free_of(s: Seq<u8>, pat: Seq<u8>, rep: Seq<u8>, q: Seq<u8>)
    requires
        pat.len() > 0,
        q.len() > 0,
        compat(q, rep),
        q == pat || !occurs(s, q),
    ensures
        !occurs(replaced(s, pat, rep), q),
    decreases s.len(),
{
    let out = replaced(s, pat, rep);
    if s.len() == 0 {
        if occurs(out, q) {
            let j = choose|j: int| occurs_at(out, q, j);
            assert(false);
        }
    } else if 0 < pat.len() <= s.len() && s.subrange(0, pat.len() as int) == pat {
        let tail = s.skip(pat.len() as int);
        let rest = replaced(tail, pat, rep);
        assert(out == rep + rest);
        assert(q == pat || !occurs(tail, q)) by {
            if q != pat && occurs(tail, q) {
                let j = choose|j: int| occurs_at(tail, q, j);
                lemma_occurs_at_skip(s, q, pat.len() as int, j);
                assert(false);
            }
        }
        lemma_replaced_free_of(tail, pat, rep, q);
        if occurs(out, q) {
            let j = choose|j: int| occurs_at(out, q, j);
            if j + q.len() <= rep.len() {
                assert(occurs_at(rep, q, j)) by {
                    assert(rep.subrange(j, j + q.len()) =~= out.subrange(j, j + q.len()));
                }
                assert(false);
            } else if j >= rep.len() {
                assert(occurs_at(rest, q, j - rep.len())) by {
                    assert(rest.subrange(j - rep.len(), j - rep.len() + q.len()) =~= out.subrange(
                        j,
                        j + q.len(),
                    ));
                }
                assert(false);
            } else {
                let k = rep.len() - j;
                assert(0 < k < q.len());
                assert(is_suffix(q.subrange(0, k), rep)) by {
                    assert(rep.subrange(rep.len() - k, rep.len() as int) =~= out.subrange(
                        j,
                        j + q.len(),
                    ).subrange(0, k));
                    assert(out.subrange(j, j + q.len()).subrange(0, k) =~= q.subrange(0, k));
                }
                assert(false);
            }
        }
    } else {
        let tail = s.skip(1);
        let rest = replaced(tail, pat, rep);
        assert(out == seq![s[0]] + rest);
        assert(q == pat || !occurs(tail, q)) by {
            if q != pat && occurs(tail, q) {
                let j = choose|j: int| occurs_at(tail, q, j);
                lemma_occurs_at_skip(s, q, 1, j);
                assert(false);
            }
        }
        lemma_replaced_free_of(tail, pat, rep, q);
        if occurs(out, q) {
            let j = choose|j: int| occurs_at(out, q, j);
            if j >= 1 {
                assert(occurs_at(rest, q, j - 1)) by {
                    assert(rest.subrange(j - 1, j - 1 + q.len()) =~= out.subrange(j, j + q.len()));
                }
                assert(false);
            } else {
                assert(q[0] == s[0]) by {
                    assert(out.subrange(0, q.len() as int)[0] == q[0]);
                }
                if q.len() == 1 {
                    assert(s.subrange(0, 1) =~= q);
                    if q == pat {
                        assert(false);
                    } else {
                        assert(occurs_at(s, q, 0));
                        assert(false);
                    }
                } else {
                    let x = q.skip(1);
                    assert(is_prefix(x, rest)) by {
                        assert(rest.subrange(0, q.len() - 1) =~= out.subrange(
                            0,
                            q.len() as int,
                        ).skip(1));
                        assert(out.subrange(0, q.len() as int).skip(1) =~= x);
                    }
                    assert(is_suffix(x, q)) by {
                        assert(q.subrange(q.len() - (q.len() - 1), q.len() as int) =~= x);
                    }
                    lemma_suffix_prefix_of_replaced(tail, pat, rep, q, x);
                    assert(occurs_at(s, q, 0)) by {
                        assert(s.subrange(0, q.len() as int) =~= q) by {
                            assert(tail.subrange(0, q.len() - 1) =~= x);
                            assert forall|m: int| 0 <= m < q.len() implies s.subrange(
                                0,
                                q.len() as int,
                            )[m] == q[m] by {
                                if m >= 1 {
                                    assert(x[m - 1] == q[m]);
                                    assert(tail.subrange(0, q.len() - 1)[m - 1] == s[m]);
                                }
                            }
                        }
                    }
                    if q == pat {
                        assert(s.subrange(0, pat.len() as int) == pat);
                        assert(false);
                    } else {
                        assert(false);
                    }
                }
            }
        }
    }
}

/// The leftmost-first scan replaces occurrences in order: if the leftmost
/// occurrence of `pat` in `s` starts at `j`, the output is the untouched
/// bytes before `j`, then `rep`, then the rewrite of what follows the match.
/// Every byte outside a matched span is kept unchanged and in order.
pub proof fn lemma_replaced_leftmost(s: Seq<u8>, pat: Seq<u8>, rep: Seq<u8>, j: int)
    requires
        pat.len() > 0,
        occurs_at(s, pat, j),
        forall|i: int| 0 <= i < j ==> !occurs_at(s, pat, i),
    ensures
        replaced(s, pat, rep) == s.subrange(0, j) + rep + replaced(s.skip(j + pat.len()), pat, rep),
    decreases j,
{
    if j == 0 {
        assert(s.subrange(0, pat.len() as int) =~= pat);
        assert(s.subrange(0, 0) + rep + replaced(s.skip(pat.len() as int), pat, rep) =~= rep
            + replaced(s.skip(pat.len() as int), pat, rep));
    } else {
        assert(!occurs_at(s, pat, 0));
        if 0 < pat.len() <= s.len() && s.subrange(0, pat.len() as int) == pat {
            assert(occurs_at(s, pat, 0));
            assert(false);
        }
        let tail = s.skip(1);
        assert(occurs_at(tail, pat, j - 1)) by {
            assert(tail.subrange(j - 1, j - 1 + pat.len()) =~= s.subrange(j, j + pat.len()));
        }
        assert(forall|i: int| 0 <= i < j - 1 ==> !occurs_at(tail, pat, i)) by {
            assert forall|i: int| 0 <= i < j - 1 implies !occurs_at(tail, pat, i) by {
                if occurs_at(tail, pat, i) {
                    lemma_occurs_at_skip(s, pat, 1, i);
                    assert(false);
                }
            }
        }
        lemma_replaced_leftmost(tail, pat, rep, j - 1);
        assert(tail.skip(j - 1 + pat.len()) =~= s.skip(j + pat.len()));
        assert(seq![s[0]] + (tail.subrange(0, j - 1) + rep + replaced(
            s.skip(j + pat.len()),
            pat,
            rep,
        )) =~= s.subrange(0, j) + rep + replaced(s.skip(j + pat.len()), pat, rep));
    }
}

/// After the two-pass rewrite, neither the host literal nor the port
/// literal occurs in the output, whatever the input body was, provided the
/// two inserted replacements are compatible with both literals.
pub proof fn lemma_rewrite_clears_literals(
    body: Seq<u8>,
    host_pat: Seq<u8>,
    host_rep: Seq<u8>,
    port_pat: Seq<u8>,
    port_rep: Seq<u8>,
)
    requires
        host_pat.len() > 0,
        port_pat.len() > 0,
        compat(host_pat, host_rep),
        compat(port_pat, port_rep),
        compat(host_pat, port_rep),
    ensures
        !occurs(rewritten(body, host_pat, host_rep, port_pat, port_rep), host_pat),
        !occurs(rewritten(body, host_pat, host_rep, port_pat, port_rep), port_pat),
{
    let pass1 = replaced(body, host_pat, host_rep);
    lemma_replaced_free_of(body, host_pat, host_rep, host_pat);
    lemma_replaced_free_of(pass1, port_pat, port_rep, port_pat);
    lemma_replaced_free_of(pass1, port_pat, port_rep, host_pat);
}

/// A body with no occurrence of either literal passes through the two-pass
/// rewrite byte-identical.
pub proof fn lemma_rewrite_identity(
    body: Seq<u8>,
    host_pat: Seq<u8>,
    host_rep: Seq<u8>,
    port_pat: Seq<u8>,
    port_rep: Seq<u8>,
)
    requires
        host_pat.len() > 0,
        port_pat.len() > 0,
        !occurs(body, host_pat),
        !occurs(body, port_pat),
    ensures
        rewritten(body, host_pat, host_rep, port_pat, port_rep) == body,
{
    lemma_replaced_identity(body, host_pat, host_rep);
    lemma_replaced_identity(body, port_pat, port_rep);
}

/// The fixed substitution rules applied to the metadata document: the host
/// literal with its configured replacement, and the fixed-width internal
/// port literal with the external one.
pub struct PayloadRewriter {
    pub host_pat: Vec<u8>,
    pub host_rep: Vec<u8>,
    pub port_pat: Vec<u8>,
    pub port_rep: Vec<u8>,
}

impl PayloadRewriter {
    /// Both searched literals are nonempty, so a scan always makes progress.
    pub open spec fn wf(&self) -> bool {
        self.host_pat@.len() > 0 && self.port_pat@.len() > 0
    }

    /// Builds a rewriter from the four literals.
    pub fn new(host_pat: Vec<u8>, host_rep: Vec<u8>, port_pat: Vec<u8>, port_rep: Vec<u8>) -> (r:
        PayloadRewriter)
        requires
            host_pat@.len() > 0,
            port_pat@.len() > 0,
        ensures
            r.wf(),
            r.host_pat@ == host_pat@,
            r.host_rep@ == host_rep@,
            r.port_pat@ == port_pat@,
            r.port_rep@ == port_rep@,
    {
        PayloadRewriter { host_pat, host_rep, port_pat, port_rep }
    }

    /// The two sequential single-pass substitutions: host literal first,
    /// then the port literal.
    pub fn rewrite(&self, body: &[u8]) -> (out: Vec<u8>)
        requires
            self.wf(),
        ensures
            out@ == rewritten(body@, self.host_pat@, self.host_rep@, self.port_pat@, self.port_rep@),
    {
        let pass1 = replace_all(body, self.host_pat.as_slice(), self.host_rep.as_slice());
        let pass2 = replace_all(pass1.as_slice(), self.port_pat.as_slice(), self.port_rep.as_slice());
        pass2
    }
}

} // verus!
