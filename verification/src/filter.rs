//! The clock filter: the last few measurements of one association and
//! what they say together.

use crate::math::{root_mean_square, spec_root_mean_square};
use crate::time_types::{saturate, NtpDuration, NtpInstant};
use vstd::prelude::*;

verus! {

/// How many measurements the register keeps.
pub const FILTER_CAPACITY: usize = 8;

/// Parts per million by which the dispersion of a sample grows with each
/// second of its age.
pub const DISPERSION_RATE: i64 = 15;

/// One accepted measurement as the register keeps it.
#[derive(Debug, Copy, Clone, PartialEq, Eq, Structural)]
pub struct FilterSample {
    pub offset: NtpDuration,
    pub delay: NtpDuration,
    pub dispersion: NtpDuration,
    pub time: NtpInstant,
}

/// What the register says of its association.
#[derive(Debug, Copy, Clone, PartialEq, Eq, Structural)]
pub struct PeerStatistics {
    pub offset: NtpDuration,
    pub delay: NtpDuration,
    pub dispersion: NtpDuration,
    pub jitter: NtpDuration,
}

impl Default for PeerStatistics {
    fn default() -> (r: PeerStatistics)
        ensures
            r == (PeerStatistics {
                offset: NtpDuration { duration: 0 },
                delay: NtpDuration { duration: 0 },
                dispersion: NtpDuration { duration: 0 },
                jitter: NtpDuration { duration: 0 },
            }),
    {
        PeerStatistics {
            offset: NtpDuration::zero(),
            delay: NtpDuration::zero(),
            dispersion: NtpDuration::zero(),
            jitter: NtpDuration::zero(),
        }
    }
}

/// The place of the sample with the lowest delay among the first `n`; of
/// several with that delay, the first.
pub open spec fn best_index(samples: Seq<FilterSample>, n: nat) -> int
    decreases n,
{
    if n <= 1 {
        0
    } else {
        let before = best_index(samples, (n - 1) as nat);
        if samples[n - 1].delay.duration < samples[before].delay.duration {
            n - 1
        } else {
            before
        }
    }
}

/// The place that `best_index` names holds the lowest delay of all, and
/// no earlier place holds the same.
pub proof fn lemma_best_index(samples: Seq<FilterSample>, n: nat)
    requires
        0 < n <= samples.len(),
    ensures
        0 <= best_index(samples, n) < n,
        forall|j: int|
            0 <= j < n ==> samples[best_index(samples, n)].delay.duration
                <= #[trigger] samples[j].delay.duration,
        forall|j: int|
            0 <= j < best_index(samples, n) ==> samples[best_index(samples, n)].delay.duration
                < #[trigger] samples[j].delay.duration,
    decreases n,
{
    if n > 1 {
        lemma_best_index(samples, (n - 1) as nat);
    }
}

/// How far each sample's offset lies from `center`.
pub open spec fn deviations(samples: Seq<FilterSample>, center: NtpDuration) -> Seq<NtpDuration> {
    Seq::new(samples.len(), |i: int| samples[i].offset.spec_minus(center))
}

/// The growth of a dispersion over `age`.
pub open spec fn spec_aging(age: NtpDuration) -> NtpDuration {
    NtpDuration { duration: saturate((age.duration * DISPERSION_RATE) / 1_000_000) }
}

/// What `samples` say together at `now`: offset and delay of the sample
/// with the lowest delay, its dispersion grown by its age, and as jitter
/// the root mean square of the distances of all offsets from the chosen
/// one.
pub open spec fn spec_output(samples: Seq<FilterSample>, now: NtpInstant) -> Option<
    PeerStatistics,
> {
    if samples.len() == 0 {
        None
    } else {
        let best = samples[best_index(samples, samples.len())];
        Some(
            PeerStatistics {
                offset: best.offset,
                delay: best.delay,
                dispersion: best.dispersion.spec_plus(spec_aging(now.spec_abs_diff(best.time))),
                jitter: spec_root_mean_square(deviations(samples, best.offset)),
            },
        )
    }
}

/// The register after `sample` has come in: the new sample first, then
/// the earlier ones, the oldest dropped where there is no room.
pub open spec fn spec_pushed(samples: Seq<FilterSample>, sample: FilterSample) -> Seq<
    FilterSample,
> {
    if samples.len() >= FILTER_CAPACITY {
        seq![sample] + samples.take(FILTER_CAPACITY - 1)
    } else {
        seq![sample] + samples
    }
}

/// The growth of a dispersion over `age`.
pub fn aging(age: NtpDuration) -> (r: NtpDuration)
    ensures
        r == spec_aging(age),
{
    let product: i128 = (age.duration as i128) * (DISPERSION_RATE as i128);
    let scaled: i128 = if product >= 0 {
        product / 1_000_000
    } else {
        // Rounds toward negative infinity.
        -((-product + 999_999) / 1_000_000)
    };
    NtpDuration {
        duration: if scaled > i64::MAX as i128 {
            i64::MAX
        } else if scaled < i64::MIN as i128 {
            i64::MIN
        } else {
            scaled as i64
        },
    }
}

/// The most recent measurements of one association, newest first.
pub struct FilterRegister {
    samples: Vec<FilterSample>,
}

impl FilterRegister {
    #[verifier::type_invariant]
    spec fn inv(self) -> bool {
        self.samples@.len() <= FILTER_CAPACITY
    }

    /// The samples held, newest first.
    pub closed spec fn view(&self) -> Seq<FilterSample> {
        self.samples@
    }

    pub fn new() -> (r: FilterRegister)
        ensures
            r@.len() == 0,
    {
        FilterRegister { samples: Vec::new() }
    }

    pub fn len(&self) -> (r: usize)
        ensures
            r == self@.len(),
            r <= FILTER_CAPACITY,
    {
        proof {
            use_type_invariant(self);
        }
        self.samples.len()
    }

    /// Drops every sample.
    pub fn clear(&mut self)
        ensures
            final(self)@.len() == 0,
    {
        self.samples = Vec::new();
    }

    /// Takes in a new sample.
    pub fn push(&mut self, sample: FilterSample)
        ensures
            final(self)@ == spec_pushed(old(self)@, sample),
            final(self)@.len() <= FILTER_CAPACITY,
            final(self)@.len() >= 1,
            final(self)@[0] == sample,
    {
        proof {
            use_type_invariant(&*self);
        }
        let mut next: Vec<FilterSample> = Vec::new();
        next.push(sample);
        let keep: usize = if self.samples.len() >= FILTER_CAPACITY {
            FILTER_CAPACITY - 1
        } else {
            self.samples.len()
        };
        let mut i: usize = 0;
        while i < keep
            invariant
                0 <= i <= keep <= self.samples@.len(),
                keep <= FILTER_CAPACITY - 1,
                next@ == seq![sample] + self.samples@.take(i as int),
            decreases keep - i,
        {
            next.push(self.samples[i]);
            assert(next@ =~= seq![sample] + self.samples@.take(i + 1));
            i = i + 1;
        }
        assert(self.samples@.len() < FILTER_CAPACITY ==> self.samples@.take(keep as int)
            =~= self.samples@);
        self.samples = next;
    }

    /// The place of the sample with the lowest delay.
    fn best(&self) -> (r: usize)
        requires
            self@.len() > 0,
        ensures
            r == best_index(self@, self@.len()),
            r < self@.len(),
    {
        let n = self.samples.len();
        let mut best: usize = 0;
        let mut i: usize = 1;
        while i < n
            invariant
                1 <= i <= n,
                n == self.samples@.len(),
                best == best_index(self.samples@, i as nat),
                0 <= best < i,
            decreases n - i,
        {
            if self.samples[i].delay.duration < self.samples[best].delay.duration {
                best = i;
            }
            i = i + 1;
        }
        best
    }

    /// Whether the newest sample is the one with the lowest delay.
    pub fn newest_is_best(&self) -> (r: bool)
        ensures
            r == (self@.len() > 0 && best_index(self@, self@.len()) == 0),
    {
        self.samples.len() > 0 && self.best() == 0
    }

    /// What the register says at `now`; `None` while it is empty.
    pub fn output(&self, now: NtpInstant) -> (r: Option<PeerStatistics>)
        ensures
            r == spec_output(self@, now),
            self@.len() > 0 ==> r is Some,
    {
        proof {
            use_type_invariant(self);
        }
        let n = self.samples.len();
        if n == 0 {
            return None;
        }
        let best = self.best();
        let chosen = self.samples[best];
        let mut spread: Vec<NtpDuration> = Vec::new();
        let mut k: usize = 0;
        while k < n
            invariant
                0 <= k <= n,
                n == self.samples@.len(),
                spread@.len() == k,
                forall|j: int|
                    0 <= j < k ==> spread@[j] == self.samples@[j].offset.spec_minus(chosen.offset),
            decreases n - k,
        {
            spread.push(self.samples[k].offset.minus(chosen.offset));
            k = k + 1;
        }
        assert(spread@ =~= deviations(self.samples@, chosen.offset));
        let jitter = root_mean_square(&spread);
        let age = now.abs_diff(chosen.time);
        Some(
            PeerStatistics {
                offset: chosen.offset,
                delay: chosen.delay,
                dispersion: chosen.dispersion.plus(aging(age)),
                jitter,
            },
        )
    }
}

} // verus!
