//! Integer square roots and root-mean-square values of spans.

use crate::time_types::NtpDuration;
use vstd::prelude::*;

verus! {

/// Whether `r` is the square root of `n` rounded down.
pub open spec fn is_floor_sqrt(n: nat, r: nat) -> bool {
    r * r <= n < (r + 1) * (r + 1)
}

/// The square root of `n`, rounded down.
pub open spec fn floor_sqrt(n: nat) -> nat {
    choose|r: nat| is_floor_sqrt(n, r)
}

/// At most one number is the rounded-down square root of `n`.
pub proof fn lemma_floor_sqrt_unique(n: nat, a: nat, b: nat)
    requires
        is_floor_sqrt(n, a),
        is_floor_sqrt(n, b),
    ensures
        a == b,
{
    if a < b {
        assert((a + 1) * (a + 1) <= b * b) by (nonlinear_arith)
            requires
                a + 1 <= b,
        ;
    } else if b < a {
        assert((b + 1) * (b + 1) <= a * a) by (nonlinear_arith)
            requires
                b + 1 <= a,
        ;
    }
}

/// A number that brackets `n` between its square and the next is the
/// square root of `n` rounded down.
pub proof fn lemma_floor_sqrt_is(n: nat, r: nat)
    requires
        is_floor_sqrt(n, r),
    ensures
        floor_sqrt(n) == r,
{
    lemma_floor_sqrt_unique(n, floor_sqrt(n), r);
}

/// The square root of `n`, rounded down.
pub fn isqrt(n: u128) -> (r: u64)
    ensures
        is_floor_sqrt(n as nat, r as nat),
        r == floor_sqrt(n as nat),
{
    let mut lo: u128 = 0;
    let mut hi: u128 = 0x1_0000_0000_0000_0000;
    assert(hi * hi > n) by (nonlinear_arith)
        requires
            hi == 0x1_0000_0000_0000_0000,
            n <= u128::MAX,
    ;
    while hi - lo > 1
        invariant
            0 <= lo < hi <= 0x1_0000_0000_0000_0000,
            lo * lo <= n,
            n < hi * hi,
        decreases hi - lo,
    {
        let mid: u128 = lo + (hi - lo) / 2;
        assert(mid * mid <= 0xffff_ffff_ffff_ffff * 0xffff_ffff_ffff_ffff) by (nonlinear_arith)
            requires
                0 <= mid <= 0xffff_ffff_ffff_ffff,
        ;
        if mid * mid <= n {
            lo = mid;
        } else {
            hi = mid;
        }
    }
    proof {
        assert(hi == lo + 1);
        lemma_floor_sqrt_is(n as nat, lo as nat);
    }
    lo as u64
}

/// The sum of the squares of the first `n` spans.
pub open spec fn sum_of_squares(spans: Seq<NtpDuration>, n: nat) -> nat
    decreases n,
{
    if n == 0 {
        0
    } else {
        sum_of_squares(spans, (n - 1) as nat) + (spans[n - 1].duration * spans[n
            - 1].duration) as nat
    }
}

/// The root of the mean of the squares of `spans`, rounded down at both
/// steps and no larger than a span can be; zero for no spans at all.
pub open spec fn spec_root_mean_square(spans: Seq<NtpDuration>) -> NtpDuration {
    if spans.len() == 0 {
        NtpDuration { duration: 0 }
    } else {
        let root = floor_sqrt(sum_of_squares(spans, spans.len()) / spans.len());
        NtpDuration {
            duration: if root > i64::MAX {
                i64::MAX
            } else {
                root as i64
            },
        }
    }
}

proof fn lemma_square_bound(d: i64)
    ensures
        0 <= d * d <= 0x4000_0000_0000_0000_0000_0000_0000_0000,
{
    assert(0 <= d * d <= 0x4000_0000_0000_0000_0000_0000_0000_0000) by (nonlinear_arith)
        requires
            -0x8000_0000_0000_0000 <= d <= 0x7fff_ffff_ffff_ffff,
    ;
}

proof fn lemma_split_sum(q: nat, r: nat, n: nat, t: nat)
    requires
        n > 0,
    ensures
        (q + t / n) * n + (r + t % n) == q * n + r + t,
{
    assert(t == (t / n) * n + t % n) by (nonlinear_arith)
        requires
            n > 0,
    ;
    assert((q + t / n) * n == q * n + (t / n) * n) by (nonlinear_arith);
}

proof fn lemma_join_sum(q: nat, r: nat, n: nat)
    requires
        n > 0,
    ensures
        (q * n + r) / n == q + r / n,
{
    assert((q * n + r) / n == q + r / n) by (nonlinear_arith)
        requires
            n > 0,
    ;
}

proof fn lemma_quotient_bound(t: nat, n: nat, k: nat, q: nat)
    requires
        0 < n,
        k < n,
        t <= 0x4000_0000_0000_0000_0000_0000_0000_0000,
        q * n <= k * 0x4000_0000_0000_0000_0000_0000_0000_0000,
    ensures
        (q + t / n) * n <= (k + 1) * 0x4000_0000_0000_0000_0000_0000_0000_0000,
        q + t / n <= 0x4000_0000_0000_0000_0000_0000_0000_0000,
{
    let big: nat = 0x4000_0000_0000_0000_0000_0000_0000_0000;
    assert((t / n) * n <= t) by (nonlinear_arith)
        requires
            n > 0,
    ;
    assert((q + t / n) * n == q * n + (t / n) * n) by (nonlinear_arith);
    assert((k + 1) * big == k * big + big) by (nonlinear_arith);
    assert((k + 1) * big <= n * big) by (nonlinear_arith)
        requires
            k + 1 <= n,
    ;
    assert(q + t / n <= big) by (nonlinear_arith)
        requires
            (q + t / n) * n <= n * big,
            n > 0,
    ;
}

/// The root of the mean of the squares of `spans`.
#[verifier::rlimit(50)]
pub fn root_mean_square(spans: &Vec<NtpDuration>) -> (r: NtpDuration)
    ensures
        r == spec_root_mean_square(spans@),
        r.duration >= 0,
{
    let n = spans.len();
    if n == 0 {
        return NtpDuration::zero();
    }
    let count: u128 = n as u128;
    // The sum is kept as `quotient * count + rest`, which never leaves the
    // range although the sum itself may.
    let mut quotient: u128 = 0;
    let mut rest: u128 = 0;
    let mut i: usize = 0;
    while i < n
        invariant
            0 <= i <= n,
            n == spans.len(),
            count == n,
            n > 0,
            quotient * count + rest == sum_of_squares(spans@, i as nat),
            quotient * count <= i * 0x4000_0000_0000_0000_0000_0000_0000_0000,
            rest <= i * (count - 1),
        decreases n - i,
    {
        let d: i128 = spans[i].duration as i128;
        proof {
            lemma_square_bound(spans[i as int].duration);
        }
        let square: u128 = (d * d) as u128;
        proof {
            lemma_split_sum(quotient as nat, rest as nat, count as nat, square as nat);
            lemma_quotient_bound(square as nat, count as nat, i as nat, quotient as nat);
            assert((i + 1) * (count - 1) == i * (count - 1) + (count - 1)) by (nonlinear_arith);
            assert((i + 1) * (count - 1) <= 0xffff_ffff_ffff_ffff * 0xffff_ffff_ffff_ffff)
                by (nonlinear_arith)
                requires
                    0 <= i + 1 <= 0xffff_ffff_ffff_ffff,
                    0 <= count - 1 <= 0xffff_ffff_ffff_ffff,
            ;
        }
        quotient = quotient + square / count;
        rest = rest + square % count;
        i = i + 1;
    }
    proof {
        lemma_join_sum(quotient as nat, rest as nat, count as nat);
        assert(quotient <= 0x4000_0000_0000_0000_0000_0000_0000_0000) by (nonlinear_arith)
            requires
                quotient * count <= n * 0x4000_0000_0000_0000_0000_0000_0000_0000,
                count == n,
                n > 0,
        ;
        assert(rest / count <= n) by (nonlinear_arith)
            requires
                rest <= n * (count - 1),
                count == n,
                n > 0,
        ;
    }
    let mean: u128 = quotient + rest / count;
    let root: u64 = isqrt(mean);
    if root > i64::MAX as u64 {
        NtpDuration { duration: i64::MAX }
    } else {
        NtpDuration { duration: root as i64 }
    }
}

} // verus!
