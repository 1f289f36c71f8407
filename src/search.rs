//! Scanning the candidate space. Candidate `c` belongs to the residue class
//! that starts at `start` with step `stride` when `c = start + k * stride` for
//! some `k >= 0`. The sequential search scans the class that starts at zero
//! with step one; worker `w` of `n` scans the class that starts at `w` with
//! step `n`.

use vstd::prelude::*;
use vstd::arithmetic::div_mod::{lemma_fundamental_div_mod, lemma_mod_add_multiples_vanish, lemma_small_mod};
use crate::digest::{digest, digest_spec, Digest};

verus! {

/// `c` is one of `start, start + stride, start + 2 * stride, ...`.
pub open spec fn in_class(c: int, start: int, stride: int) -> bool {
    start <= c && (c - start) % stride == 0
}

/// Candidate `c` has the digest `target`.
pub open spec fn is_match(target: Seq<u8>, c: int) -> bool {
    0 <= c && digest_spec(c as nat) == target
}

/// No candidate of the class below `bound` has the digest `target`.
pub open spec fn none_below(target: Seq<u8>, start: int, stride: int, bound: int) -> bool {
    forall|d: int| #[trigger] in_class(d, start, stride) && d < bound ==> !is_match(target, d)
}

/// `c` is the smallest candidate of the class whose digest is `target`.
pub open spec fn is_first_match(target: Seq<u8>, start: int, stride: int, c: int) -> bool {
    in_class(c, start, stride) && is_match(target, c) && none_below(target, start, stride, c)
}

/// How the scan of one class ended.
#[derive(Clone, Copy, Debug, PartialEq, Eq, Structural)]
pub enum Outcome {
    /// The smallest candidate of the class with the target digest.
    Found(u64),
    /// Every candidate of the class that fits in a `u64` was tried, none matched.
    Exhausted,
    /// The scan was told to stop; the candidate held is the next one it would
    /// have tried.
    Cancelled(u64),
}

/// Two members of a class lie at least one step apart.
proof fn lemma_class_gap(start: int, stride: int, i: int, d: int)
    requires
        stride > 0,
        in_class(i, start, stride),
        in_class(d, start, stride),
        i < d,
    ensures
        i + stride <= d,
{
    lemma_fundamental_div_mod(d - start, stride);
    lemma_fundamental_div_mod(i - start, stride);
    let q1 = (d - start) / stride;
    let q2 = (i - start) / stride;
    assert(d - i == stride * (q1 - q2)) by (nonlinear_arith)
        requires
            d - start == stride * q1,
            i - start == stride * q2,
    ;
    assert(stride <= d - i) by (nonlinear_arith)
        requires
            d - i == stride * (q1 - q2),
            d - i > 0,
            stride > 0,
    ;
}

/// The member of a class that follows `i` is `i + stride`.
proof fn lemma_class_next(start: int, stride: int, i: int)
    requires
        stride > 0,
        in_class(i, start, stride),
    ensures
        in_class(i + stride, start, stride),
        forall|d: int| #[trigger] in_class(d, start, stride) && i < d ==> i + stride <= d,
{
    lemma_mod_add_multiples_vanish(i - start, stride);
    assert(i + stride - start == stride + (i - start));
    assert forall|d: int| #[trigger] in_class(d, start, stride) && i < d implies i + stride <= d by {
        lemma_class_gap(start, stride, i, d);
    }
}

/// With step one from zero the class is every non-negative integer.
proof fn lemma_step_one(c: int)
    requires
        c >= 0,
    ensures
        in_class(c, 0, 1),
{
    assert(c % 1 == 0);
}

/// Scans the class that starts at `start` with step `stride` in increasing
/// order, and returns the first candidate whose digest equals `target`.
/// Before each candidate it asks `stop`; when `stop` answers `true` the scan
/// ends with `Cancelled`.
pub fn search_class<F: Fn() -> bool>(target: &Digest, start: u64, stride: u64, stop: &F) -> (r:
    Outcome)
    requires
        stride > 0,
        forall|| #[trigger] stop.requires(()),
    ensures
        match r {
            Outcome::Found(c) => is_first_match(target@, start as int, stride as int, c as int),
            Outcome::Exhausted => none_below(
                target@,
                start as int,
                stride as int,
                u64::MAX as int + 1,
            ),
            Outcome::Cancelled(next) => {
                &&& in_class(next as int, start as int, stride as int)
                &&& none_below(target@, start as int, stride as int, next as int)
                &&& stop.ensures((), true)
            },
        },
{
    let mut i: u64 = start;
    proof {
        lemma_small_mod(0, stride as nat);
    }
    assert(in_class(i as int, start as int, stride as int));
    loop
        invariant
            stride > 0,
            forall|| #[trigger] stop.requires(()),
            in_class(i as int, start as int, stride as int),
            none_below(target@, start as int, stride as int, i as int),
        decreases u64::MAX - i,
    {
        if stop() {
            return Outcome::Cancelled(i);
        }
        let d = digest(i);
        if d.equals(target) {
            return Outcome::Found(i);
        }
        proof {
            lemma_class_next(start as int, stride as int, i as int);
        }
        if i > u64::MAX - stride {
            return Outcome::Exhausted;
        }
        i = i + stride;
    }
}

/// The sequential search: tries `0, 1, 2, ...` and returns the first
/// candidate whose digest equals `target`, or `None` when no candidate that
/// fits in a `u64` has it.
pub fn naive_hashing(target: &Digest) -> (r: Option<u64>)
    ensures
        match r {
            Some(c) => is_first_match(target@, 0, 1, c as int),
            None => forall|d: int| 0 <= d <= u64::MAX ==> !#[trigger] is_match(target@, d),
        },
{
    let never = || -> (b: bool)
        ensures
            !b,
        { false };
    match search_class(target, 0, 1, &never) {
        Outcome::Found(c) => Some(c),
        Outcome::Exhausted => {
            assert forall|d: int| 0 <= d <= u64::MAX implies !#[trigger] is_match(target@, d) by {
                lemma_step_one(d);
            }
            None
        },
        Outcome::Cancelled(_) => {
            assert(false);
            None
        },
    }
}

/// The worker, out of `num_workers`, whose class holds `candidate`.
pub fn worker_of(candidate: u64, num_workers: u64) -> (r: u64)
    requires
        num_workers > 0,
    ensures
        r == candidate % num_workers,
        r < num_workers,
        in_class(candidate as int, r as int, num_workers as int),
{
    proof {
        lemma_partition(num_workers as int, candidate as int);
    }
    candidate % num_workers
}

/// Partition into interleaved classes: for `n > 0`, the classes that start at
/// `0, 1, ..., n - 1` with step `n` cover every non-negative integer, and each
/// integer lies in exactly one of them, the one that starts at `c % n`.
pub proof fn lemma_partition(n: int, c: int)
    requires
        n > 0,
        c >= 0,
    ensures
        0 <= c % n < n,
        in_class(c, c % n, n),
        forall|w: int| 0 <= w < n && #[trigger] in_class(c, w, n) ==> w == c % n,
{
    lemma_fundamental_div_mod(c, n);
    let q = c / n;
    assert(c - c % n == n * q);
    assert((n * q) % n == 0) by {
        vstd::arithmetic::div_mod::lemma_mod_multiples_basic(q, n);
        vstd::arithmetic::mul::lemma_mul_is_commutative(n, q);
    }
    assert forall|w: int| 0 <= w < n && #[trigger] in_class(c, w, n) implies w == c % n by {
        lemma_fundamental_div_mod(c - w, n);
        let k = (c - w) / n;
        assert(c == w + n * k);
        vstd::arithmetic::div_mod::lemma_fundamental_div_mod_converse(c, n, k, w);
    }
}

/// The owner of the first match wins: when `t` is the smallest candidate
/// whose digest is `target`, the worker `t % n` of `n` finds exactly `t` (its
/// scan cannot run out when `t` fits in a `u64`), and any other worker that
/// finds a match finds a larger candidate.
pub proof fn lemma_owner_finds_first_match(target: Seq<u8>, n: int, t: int)
    requires
        n > 0,
        is_first_match(target, 0, 1, t),
    ensures
        is_first_match(target, t % n, n, t),
        t <= u64::MAX ==> !none_below(target, t % n, n, u64::MAX as int + 1),
        forall|w: int, c: int|
            0 <= w < n && w != t % n && #[trigger] is_first_match(target, w, n, c) ==> c > t,
{
    lemma_partition(n, t);
    assert forall|d: int| #[trigger] in_class(d, t % n, n) && d < t implies !is_match(target, d) by {
        lemma_step_one(d);
    }
    assert forall|w: int, c: int|
        0 <= w < n && w != t % n && #[trigger] is_first_match(target, w, n, c) implies c > t by {
        if c < t {
            lemma_step_one(c);
        }
    }
}

/// The sequential search cannot come back empty-handed for the digest of a
/// candidate `t` that fits in a `u64`, and the candidate it returns is no
/// greater than `t` and has the same digest.
pub proof fn lemma_sequential_reaches_target(t: int, c: int)
    requires
        0 <= t <= u64::MAX,
    ensures
        is_match(digest_spec(t as nat), t),
        is_first_match(digest_spec(t as nat), 0, 1, c) ==> c <= t && digest_spec(c as nat)
            == digest_spec(t as nat),
{
    if is_first_match(digest_spec(t as nat), 0, 1, c) && c > t {
        lemma_step_one(t);
    }
}

} // verus!
