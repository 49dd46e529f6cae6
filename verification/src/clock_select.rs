//! Clock selection: which peers agree with each other, and what offset
//! they stand for together.

use crate::identifiers::PeerIndex;
use crate::math::{root_mean_square, spec_root_mean_square};
use crate::time_types::{saturate, NtpDuration};
use vstd::prelude::*;

verus! {

/// The unit in which a root distance is weighed: 2^20 units of time,
/// about a quarter of a millisecond.
pub const WEIGHT_GRAIN: i64 = 0x10_0000;

/// The weight of a peer whose root distance is at most one grain.
pub const WEIGHT_SCALE: i64 = 0x100_0000_0000;

/// A peer that offers its time: the offset it measured and how far from
/// the truth that may be.
#[derive(Debug, Copy, Clone, PartialEq, Eq, Structural)]
pub struct Candidate {
    pub index: PeerIndex,
    pub offset: NtpDuration,
    pub distance: NtpDuration,
}

/// The lowest offset that the candidate allows for.
pub open spec fn low(c: Candidate) -> int {
    c.offset.duration - c.distance.duration
}

/// The highest offset that the candidate allows for.
pub open spec fn high(c: Candidate) -> int {
    c.offset.duration + c.distance.duration
}

/// Whether the candidate allows for the offset `p`.
pub open spec fn covers(c: Candidate, p: int) -> bool {
    low(c) <= p <= high(c)
}

/// How many of the first `n` candidates allow for `p`.
pub open spec fn count_covering(cs: Seq<Candidate>, p: int, n: nat) -> nat
    decreases n,
{
    if n == 0 {
        0
    } else {
        count_covering(cs, p, (n - 1) as nat) + if covers(cs[n - 1], p) {
            1nat
        } else {
            0nat
        }
    }
}

/// Among the first `n` candidates, the first whose lowest offset the most
/// candidates of all allow for.
pub open spec fn densest(cs: Seq<Candidate>, n: nat) -> int
    decreases n,
{
    if n <= 1 {
        0
    } else {
        let before = densest(cs, (n - 1) as nat);
        if count_covering(cs, low(cs[n - 1]), cs.len()) > count_covering(
            cs,
            low(cs[before]),
            cs.len(),
        ) {
            n - 1
        } else {
            before
        }
    }
}

/// The offset on which the most candidates agree.
pub open spec fn meeting_point(cs: Seq<Candidate>) -> int {
    low(cs[densest(cs, cs.len())])
}

/// Those of the first `n` candidates that allow for `p`, in their order.
pub open spec fn covering(cs: Seq<Candidate>, p: int, n: nat) -> Seq<Candidate>
    decreases n,
{
    if n == 0 {
        Seq::empty()
    } else {
        let before = covering(cs, p, (n - 1) as nat);
        if covers(cs[n - 1], p) {
            before.push(cs[n - 1])
        } else {
            before
        }
    }
}

/// The candidates that agree on the meeting point.
pub open spec fn survivors(cs: Seq<Candidate>) -> Seq<Candidate> {
    if cs.len() == 0 {
        Seq::empty()
    } else {
        covering(cs, meeting_point(cs), cs.len())
    }
}

/// The weight of a candidate: in proportion to one over the square of
/// its root distance, counted in grains and never below one grain; at
/// least 1.
pub open spec fn weight(distance: NtpDuration) -> int {
    let grains = if distance.duration < WEIGHT_GRAIN {
        1
    } else {
        distance.duration as int / (WEIGHT_GRAIN as int)
    };
    let w = WEIGHT_SCALE as int / (grains * grains);
    if w < 1 {
        1
    } else {
        w
    }
}

/// The sum over the first `n` of `s` of weight times distance from `p`.
pub open spec fn weighted_sum(s: Seq<Candidate>, p: int, n: nat) -> int
    decreases n,
{
    if n == 0 {
        0
    } else {
        weighted_sum(s, p, (n - 1) as nat) + weight(s[n - 1].distance) * (s[n
            - 1].offset.duration - p)
    }
}

/// The sum of the weights of the first `n` of `s`.
pub open spec fn weight_total(s: Seq<Candidate>, n: nat) -> int
    decreases n,
{
    if n == 0 {
        0
    } else {
        weight_total(s, (n - 1) as nat) + weight(s[n - 1].distance)
    }
}

/// The mean of the offsets of `s`, each counted by its weight, taken
/// from `p` on and rounded down.
pub open spec fn combined_offset(s: Seq<Candidate>, p: int) -> NtpDuration {
    NtpDuration {
        duration: saturate(p + weighted_sum(s, p, s.len()) / weight_total(s, s.len())),
    }
}

/// How far each offset of `s` lies from `center`.
pub open spec fn spread(s: Seq<Candidate>, center: NtpDuration) -> Seq<NtpDuration> {
    Seq::new(s.len(), |i: int| s[i].offset.spec_minus(center))
}

/// The place of the lowest root distance among the first `n` of `s`; of
/// several, the first.
pub open spec fn nearest(s: Seq<Candidate>, n: nat) -> int
    decreases n,
{
    if n <= 1 {
        0
    } else {
        let before = nearest(s, (n - 1) as nat);
        if s[n - 1].distance.duration < s[before].distance.duration {
            n - 1
        } else {
            before
        }
    }
}

/// The names of the candidates in `s`, in their order.
pub open spec fn names(s: Seq<Candidate>) -> Seq<PeerIndex> {
    Seq::new(s.len(), |i: int| s[i].index)
}

/// What selection and combination give.
pub struct Combined {
    /// The survivor with the lowest root distance.
    pub system_peer: PeerIndex,
    pub survivors: Seq<PeerIndex>,
    pub offset: NtpDuration,
    pub jitter: NtpDuration,
}

/// The peers that agree, if they are at least `min_survivors` and at
/// least one, with the offset and the jitter that they give together.
pub open spec fn spec_combine(cs: Seq<Candidate>, min_survivors: usize) -> Option<Combined> {
    let s = survivors(cs);
    if s.len() == 0 || s.len() < min_survivors {
        None
    } else {
        let offset = combined_offset(s, meeting_point(cs));
        Some(
            Combined {
                system_peer: s[nearest(s, s.len())].index,
                survivors: names(s),
                offset,
                jitter: spec_root_mean_square(spread(s, offset)),
            },
        )
    }
}

/// What selection and combination give.
#[derive(Debug, Clone, PartialEq, Eq)]
pub struct Selection {
    /// The survivor with the lowest root distance.
    pub system_peer: PeerIndex,
    /// Every peer that agrees on the meeting point.
    pub survivors: Vec<PeerIndex>,
    /// The offset of the system clock.
    pub offset: NtpDuration,
    /// The root mean square of the distances of the survivors' offsets
    /// from the system's.
    pub jitter: NtpDuration,
}

impl Selection {
    pub open spec fn view(&self) -> Combined {
        Combined {
            system_peer: self.system_peer,
            survivors: self.survivors@,
            offset: self.offset,
            jitter: self.jitter,
        }
    }
}

proof fn lemma_covering_len(cs: Seq<Candidate>, p: int, n: nat)
    requires
        n <= cs.len(),
    ensures
        covering(cs, p, n).len() == count_covering(cs, p, n),
        forall|j: int|
            0 <= j < covering(cs, p, n).len() ==> covers(#[trigger] covering(cs, p, n)[j], p),
    decreases n,
{
    if n > 0 {
        lemma_covering_len(cs, p, (n - 1) as nat);
    }
}

/// Where every candidate that allows for `p` allows for `q` too, no more
/// candidates allow for `p` than for `q`.
proof fn lemma_count_monotonic(cs: Seq<Candidate>, p: int, q: int, n: nat)
    requires
        n <= cs.len(),
        forall|j: int| 0 <= j < n && covers(#[trigger] cs[j], p) ==> covers(cs[j], q),
    ensures
        count_covering(cs, p, n) <= count_covering(cs, q, n),
    decreases n,
{
    if n > 0 {
        lemma_count_monotonic(cs, p, q, (n - 1) as nat);
    }
}

proof fn lemma_densest(cs: Seq<Candidate>, n: nat)
    requires
        0 < n <= cs.len(),
    ensures
        0 <= densest(cs, n) < n,
        forall|j: int|
            0 <= j < n ==> count_covering(cs, low(#[trigger] cs[j]), cs.len()) <= count_covering(
                cs,
                low(cs[densest(cs, n)]),
                cs.len(),
            ),
    decreases n,
{
    if n > 1 {
        lemma_densest(cs, (n - 1) as nat);
    }
}

/// Among the first `n` candidates that allow for `p`, the place of one
/// whose lowest offset is the highest; -1 where none allows for `p`.
spec fn highest_low(cs: Seq<Candidate>, p: int, n: nat) -> int
    decreases n,
{
    if n == 0 {
        -1
    } else {
        let before = highest_low(cs, p, (n - 1) as nat);
        if covers(cs[n - 1], p) && (before < 0 || low(cs[n - 1]) > low(cs[before])) {
            n - 1
        } else {
            before
        }
    }
}

proof fn lemma_highest_low(cs: Seq<Candidate>, p: int, n: nat)
    requires
        n <= cs.len(),
    ensures
        -1 <= highest_low(cs, p, n) < n,
        highest_low(cs, p, n) >= 0 ==> covers(cs[highest_low(cs, p, n)], p),
        forall|j: int|
            0 <= j < n && covers(#[trigger] cs[j], p) ==> highest_low(cs, p, n) >= 0 && low(cs[j])
                <= low(cs[highest_low(cs, p, n)]),
    decreases n,
{
    if n > 0 {
        lemma_highest_low(cs, p, (n - 1) as nat);
    }
}

/// The survivors are a largest set of candidates with an offset in
/// common: whatever offset `p` is taken, no more candidates allow for it
/// than there are survivors. And every survivor allows for the meeting
/// point.
pub proof fn lemma_survivors_are_most(cs: Seq<Candidate>, p: int)
    ensures
        count_covering(cs, p, cs.len()) <= survivors(cs).len(),
        forall|j: int|
            0 <= j < survivors(cs).len() ==> covers(
                #[trigger] survivors(cs)[j],
                meeting_point(cs),
            ),
{
    let n = cs.len();
    if n > 0 {
        lemma_covering_len(cs, meeting_point(cs), n);
        lemma_densest(cs, n);
        lemma_highest_low(cs, p, n);
        let h = highest_low(cs, p, n);
        if h >= 0 {
            let q = low(cs[h]);
            assert forall|j: int| 0 <= j < n && covers(#[trigger] cs[j], p) implies covers(
                cs[j],
                q,
            ) by {}
            lemma_count_monotonic(cs, p, q, n);
        } else {
            lemma_count_monotonic(cs, p, meeting_point(cs), n);
        }
    }
}

/// With fewer candidates than are asked for that share any offset at
/// all, nothing is selected.
pub proof fn lemma_too_few_survivors(cs: Seq<Candidate>, min_survivors: usize)
    requires
        forall|p: int| count_covering(cs, p, cs.len()) < min_survivors,
    ensures
        spec_combine(cs, min_survivors) is None,
{
    if cs.len() > 0 {
        lemma_covering_len(cs, meeting_point(cs), cs.len());
    }
}

proof fn lemma_weight_bounds(distance: NtpDuration)
    requires
        distance.duration >= 0,
    ensures
        1 <= weight(distance) <= WEIGHT_SCALE,
        weight(distance) * distance.duration <= 0x7fff_ffff_ffff_ffff,
{
    let d = distance.duration as int;
    let grain = WEIGHT_GRAIN as int;
    let scale = WEIGHT_SCALE as int;
    let g = if d < grain {
        1
    } else {
        d / grain
    };
    assert(g >= 1);
    assert(d < (g + 1) * grain) by {
        if d >= grain {
            assert(d < (d / grain + 1) * grain) by (nonlinear_arith)
                requires
                    grain == 0x10_0000,
                    d >= 0,
            ;
        }
    }
    let sq = g * g;
    assert(sq >= g) by (nonlinear_arith)
        requires
            sq == g * g,
            g >= 1,
    ;
    let w0 = scale / sq;
    assert(0 <= w0 <= scale && w0 * sq <= scale) by (nonlinear_arith)
        requires
            w0 == scale / sq,
            sq >= 1,
            scale >= 0,
    ;
    if w0 < 1 {
        assert(weight(distance) == 1);
    } else {
        assert(weight(distance) == w0);
        // w0 * d < w0 * (g + 1) * grain <= 2 * w0 * g * grain
        //        <= 2 * w0 * sq * grain <= 2 * scale * grain = 2^61
        assert(w0 * d <= 2 * scale * grain) by (nonlinear_arith)
            requires
                w0 >= 1,
                g >= 1,
                sq >= g,
                w0 * sq <= scale,
                0 <= d < (g + 1) * grain,
                grain > 0,
        ;
    }
}

proof fn lemma_term_bound(c: Candidate, p: int)
    requires
        covers(c, p),
    ensures
        c.distance.duration >= 0,
        -0x7fff_ffff_ffff_ffff <= weight(c.distance) * (c.offset.duration - p)
            <= 0x7fff_ffff_ffff_ffff,
{
    lemma_weight_bounds(c.distance);
    let w = weight(c.distance);
    let d = c.distance.duration as int;
    let x = c.offset.duration - p;
    assert(-d <= x <= d);
    assert(-(w * d) <= w * x <= w * d) by (nonlinear_arith)
        requires
            w >= 1,
            -d <= x <= d,
    ;
}

/// The weight of a candidate.
fn weigh(distance: NtpDuration) -> (r: i128)
    requires
        distance.duration >= 0,
    ensures
        r == weight(distance),
        1 <= r <= WEIGHT_SCALE,
{
    let grains: i128 = if distance.duration < WEIGHT_GRAIN {
        1
    } else {
        (distance.duration / WEIGHT_GRAIN) as i128
    };
    assert(1 <= grains * grains <= 0x7fff_ffff_ffff_ffff * 0x7fff_ffff_ffff_ffff)
        by (nonlinear_arith)
        requires
            1 <= grains <= 0x7fff_ffff_ffff_ffff,
    ;
    let w: i128 = (WEIGHT_SCALE as i128) / (grains * grains);
    proof {
        lemma_weight_bounds(distance);
    }
    if w < 1 {
        1
    } else {
        w
    }
}

/// `a / b` rounded toward negative infinity.
fn floor_div(a: i128, b: i128) -> (r: i128)
    requires
        b > 0,
        a > i128::MIN,
    ensures
        r == a as int / b as int,
{
    if a >= 0 {
        a / b
    } else {
        let q: i128 = (-a) / b;
        let m: i128 = (-a) % b;
        assert((-a) as int == q * b + m) by (nonlinear_arith)
            requires
                q == (-a) as int / b as int,
                m == (-a) as int % b as int,
                b > 0,
        ;
        assert((-q) * b == -(q * b) && (-q - 1) * b == -(q * b) - b) by (nonlinear_arith);
        if m == 0 {
            assert(a as int / b as int == -q) by (nonlinear_arith)
                requires
                    a as int == (-q) * b,
                    b > 0,
            ;
            -q
        } else {
            assert(a as int / b as int == -q - 1) by (nonlinear_arith)
                requires
                    a as int == (-q - 1) * b + (b - m),
                    0 < b - m < b,
            ;
            -q - 1
        }
    }
}

/// How many candidates allow for `p`.
fn count_at(candidates: &Vec<Candidate>, p: i128) -> (r: usize)
    ensures
        r == count_covering(candidates@, p as int, candidates@.len()),
{
    let n = candidates.len();
    let mut count: usize = 0;
    let mut j: usize = 0;
    while j < n
        invariant
            0 <= j <= n,
            n == candidates@.len(),
            count == count_covering(candidates@, p as int, j as nat),
            count <= j,
        decreases n - j,
    {
        let c = candidates[j];
        let lo: i128 = c.offset.duration as i128 - c.distance.duration as i128;
        let hi: i128 = c.offset.duration as i128 + c.distance.duration as i128;
        if lo <= p && p <= hi {
            count = count + 1;
        }
        j = j + 1;
    }
    count
}

/// The place of the candidate whose lowest offset the most candidates
/// allow for.
fn find_densest(candidates: &Vec<Candidate>) -> (r: usize)
    requires
        candidates@.len() > 0,
    ensures
        r == densest(candidates@, candidates@.len()),
        r < candidates@.len(),
{
    let n = candidates.len();
    let first = candidates[0];
    let mut best: usize = 0;
    let mut best_count: usize = count_at(
        candidates,
        first.offset.duration as i128 - first.distance.duration as i128,
    );
    let mut i: usize = 1;
    while i < n
        invariant
            1 <= i <= n,
            n == candidates@.len(),
            0 <= best < i,
            best == densest(candidates@, i as nat),
            best_count == count_covering(candidates@, low(candidates@[best as int]), n as nat),
        decreases n - i,
    {
        let c = candidates[i];
        let count = count_at(candidates, c.offset.duration as i128 - c.distance.duration as i128);
        if count > best_count {
            best = i;
            best_count = count;
        }
        i = i + 1;
    }
    best
}

/// The candidates that allow for `p`.
fn collect_covering(candidates: &Vec<Candidate>, p: i128) -> (r: Vec<Candidate>)
    ensures
        r@ == covering(candidates@, p as int, candidates@.len()),
{
    let n = candidates.len();
    let mut out: Vec<Candidate> = Vec::new();
    let mut j: usize = 0;
    while j < n
        invariant
            0 <= j <= n,
            n == candidates@.len(),
            out@ == covering(candidates@, p as int, j as nat),
        decreases n - j,
    {
        let c = candidates[j];
        let lo: i128 = c.offset.duration as i128 - c.distance.duration as i128;
        let hi: i128 = c.offset.duration as i128 + c.distance.duration as i128;
        if lo <= p && p <= hi {
            out.push(c);
        }
        j = j + 1;
    }
    out
}

/// The weighted mean of the offsets of `chosen`, all of which allow for
/// `p`.
#[verifier::rlimit(50)]
fn combine_offsets(chosen: &Vec<Candidate>, p: i128) -> (r: NtpDuration)
    requires
        chosen@.len() > 0,
        -0x1_0000_0000_0000_0000 <= p <= 0x1_0000_0000_0000_0000,
        forall|j: int| 0 <= j < chosen@.len() ==> covers(#[trigger] chosen@[j], p as int),
    ensures
        r == combined_offset(chosen@, p as int),
{
    let n = chosen.len();
    let mut numerator: i128 = 0;
    let mut denominator: i128 = 0;
    let mut i: usize = 0;
    while i < n
        invariant
            0 <= i <= n,
            n == chosen@.len(),
            forall|j: int| 0 <= j < chosen@.len() ==> covers(#[trigger] chosen@[j], p as int),
            numerator == weighted_sum(chosen@, p as int, i as nat),
            denominator == weight_total(chosen@, i as nat),
            -(i * 0x7fff_ffff_ffff_ffff) <= numerator <= i * 0x7fff_ffff_ffff_ffff,
            i <= denominator <= i * WEIGHT_SCALE,
        decreases n - i,
    {
        let c = chosen[i];
        proof {
            assert(covers(chosen@[i as int], p as int));
            lemma_term_bound(c, p as int);
            assert((i + 1) * 0x7fff_ffff_ffff_ffff == i * 0x7fff_ffff_ffff_ffff
                + 0x7fff_ffff_ffff_ffff) by (nonlinear_arith);
            assert((i + 1) * 0x7fff_ffff_ffff_ffff <= 0xffff_ffff_ffff_ffff
                * 0x7fff_ffff_ffff_ffff) by (nonlinear_arith)
                requires
                    i + 1 <= 0xffff_ffff_ffff_ffff,
            ;
            assert((i + 1) * WEIGHT_SCALE == i * WEIGHT_SCALE + WEIGHT_SCALE)
                by (nonlinear_arith);
            assert((i + 1) * WEIGHT_SCALE <= 0xffff_ffff_ffff_ffff * WEIGHT_SCALE)
                by (nonlinear_arith)
                requires
                    i + 1 <= 0xffff_ffff_ffff_ffff,
                    WEIGHT_SCALE > 0,
            ;
        }
        let w = weigh(c.distance);
        let x: i128 = c.offset.duration as i128 - p;
        numerator = numerator + w * x;
        denominator = denominator + w;
        i = i + 1;
    }
    let mean = floor_div(numerator, denominator);
    assert(-0x7fff_ffff_ffff_ffff <= mean <= 0x7fff_ffff_ffff_ffff) by (nonlinear_arith)
        requires
            mean == numerator as int / denominator as int,
            n <= denominator,
            n > 0,
            -(n * 0x7fff_ffff_ffff_ffff) <= numerator <= n * 0x7fff_ffff_ffff_ffff,
    ;
    let total: i128 = p + mean;
    NtpDuration {
        duration: if total > i64::MAX as i128 {
            i64::MAX
        } else if total < i64::MIN as i128 {
            i64::MIN
        } else {
            total as i64
        },
    }
}

/// The place of the lowest root distance in `chosen`.
fn find_nearest(chosen: &Vec<Candidate>) -> (r: usize)
    requires
        chosen@.len() > 0,
    ensures
        r == nearest(chosen@, chosen@.len()),
        r < chosen@.len(),
{
    let n = chosen.len();
    let mut best: usize = 0;
    let mut i: usize = 1;
    while i < n
        invariant
            1 <= i <= n,
            n == chosen@.len(),
            0 <= best < i,
            best == nearest(chosen@, i as nat),
        decreases n - i,
    {
        if chosen[i].distance.duration < chosen[best].distance.duration {
            best = i;
        }
        i = i + 1;
    }
    best
}

/// Selects the largest set of candidates whose offsets can all be true
/// at once, and combines them. Gives `None` where fewer than
/// `min_survivors` agree, or none at all.
#[verifier::rlimit(50)]
pub fn combine(candidates: &Vec<Candidate>, min_survivors: usize) -> (r: Option<Selection>)
    ensures
        match spec_combine(candidates@, min_survivors) {
            Some(combined) => r is Some && r->Some_0@ == combined,
            None => r is None,
        },
        survivors(candidates@).len() < min_survivors ==> r is None,
{
    if candidates.len() == 0 {
        return None;
    }
    let at = find_densest(candidates);
    let anchor = candidates[at];
    let p: i128 = anchor.offset.duration as i128 - anchor.distance.duration as i128;
    let chosen = collect_covering(candidates, p);
    if chosen.len() == 0 || chosen.len() < min_survivors {
        return None;
    }
    proof {
        lemma_covering_len(candidates@, p as int, candidates@.len());
    }
    let offset = combine_offsets(&chosen, p);
    let n = chosen.len();
    let mut apart: Vec<NtpDuration> = Vec::new();
    let mut members: Vec<PeerIndex> = Vec::new();
    let mut i: usize = 0;
    while i < n
        invariant
            0 <= i <= n,
            n == chosen@.len(),
            apart@.len() == i,
            members@.len() == i,
            forall|j: int| 0 <= j < i ==> apart@[j] == chosen@[j].offset.spec_minus(offset),
            forall|j: int| 0 <= j < i ==> members@[j] == chosen@[j].index,
        decreases n - i,
    {
        apart.push(chosen[i].offset.minus(offset));
        members.push(chosen[i].index);
        i = i + 1;
    }
    assert(apart@ =~= spread(chosen@, offset));
    assert(members@ =~= names(chosen@));
    let jitter = root_mean_square(&apart);
    let system_peer = chosen[find_nearest(&chosen)].index;
    Some(Selection { system_peer, survivors: members, offset, jitter })
}

} // verus!
