//! Fixed-point time values shared by every other module.
//!
//! All quantities use the NTP scale: one unit is 2^-32 seconds.

use crate::bytes::{be_int_u32, be_int_u64, be_seq_u32, be_seq_u64, u32_from_be, u32_to_be, u64_from_be, u64_to_be};
use vstd::prelude::*;

verus! {

/// Units in one second.
pub const ONE_SECOND: i64 = 0x1_0000_0000;

/// An eighth of a second: offsets above it are stepped, not slewed.
pub const STEP_THRESHOLD: i64 = 0x2000_0000;

/// 1000 seconds: outside startup a larger offset is refused.
pub const PANIC_THRESHOLD: i64 = 1000 * 0x1_0000_0000;

/// 900 seconds: how long a large offset must persist before it is believed.
pub const SPIKE_INTERVAL: i64 = 900 * 0x1_0000_0000;

/// Shortest poll interval, as log2 seconds.
pub const MIN_POLL: i8 = 4;

/// Longest poll interval, as log2 seconds.
pub const MAX_POLL: i8 = 17;

/// The value of `x` clamped into the range of `i64`.
pub open spec fn saturate(x: int) -> i64 {
    if x > i64::MAX {
        i64::MAX
    } else if x < i64::MIN {
        i64::MIN
    } else {
        x as i64
    }
}

/// Division by two that rounds toward zero.
pub open spec fn half_toward_zero(x: int) -> int {
    if x >= 0 {
        x / 2
    } else {
        -((-x) / 2)
    }
}

/// 2^e for a natural exponent.
pub open spec fn pow2(e: nat) -> nat
    decreases e,
{
    if e == 0 {
        1
    } else {
        2 * pow2((e - 1) as nat)
    }
}

pub proof fn lemma_pow2_step(e: nat)
    ensures
        pow2(e + 1) == 2 * pow2(e),
        pow2(e) >= 1,
    decreases e,
{
    if e > 0 {
        lemma_pow2_step((e - 1) as nat);
    }
}

pub proof fn lemma_pow2_monotonic(a: nat, b: nat)
    requires
        a <= b,
    ensures
        pow2(a) <= pow2(b),
    decreases b,
{
    if a < b {
        lemma_pow2_monotonic(a, (b - 1) as nat);
        lemma_pow2_step((b - 1) as nat);
    }
}

pub proof fn lemma_pow2_values()
    ensures
        pow2(0) == 1,
        pow2(8) == 0x100,
        pow2(16) == 0x1_0000,
        pow2(32) == 0x1_0000_0000,
        pow2(62) == 0x4000_0000_0000_0000,
        pow2(63) == 0x8000_0000_0000_0000,
        pow2(64) == 0x1_0000_0000_0000_0000,
{
    reveal_with_fuel(pow2, 9);
    assert(pow2(8) == 0x100);
    assert(pow2(16) == 0x100 * pow2(8));
    assert(pow2(24) == 0x100 * pow2(16));
    assert(pow2(32) == 0x100 * pow2(24));
    assert(pow2(40) == 0x100 * pow2(32));
    assert(pow2(48) == 0x100 * pow2(40));
    assert(pow2(56) == 0x100 * pow2(48));
    assert(pow2(62) == 0x40 * pow2(56));
    assert(pow2(63) == 2 * pow2(62));
    assert(pow2(64) == 2 * pow2(63));
}

fn clamp_to_i64(x: i128) -> (r: i64)
    ensures
        r == saturate(x as int),
{
    if x > i64::MAX as i128 {
        i64::MAX
    } else if x < i64::MIN as i128 {
        i64::MIN
    } else {
        x as i64
    }
}

/// A span of time as a signed 32.32 fixed-point number of seconds.
/// Arithmetic saturates at the ends of the range.
#[derive(Debug, Copy, Clone, PartialEq, Eq, Structural, Hash)]
pub struct NtpDuration {
    pub duration: i64,
}

impl NtpDuration {
    pub fn from_fixed_int(duration: i64) -> (r: NtpDuration)
        ensures
            r.duration == duration,
    {
        NtpDuration { duration }
    }

    pub fn to_fixed_int(self) -> (r: i64)
        ensures
            r == self.duration,
    {
        self.duration
    }

    pub fn zero() -> (r: NtpDuration)
        ensures
            r.duration == 0,
    {
        NtpDuration { duration: 0 }
    }

    pub fn one() -> (r: NtpDuration)
        ensures
            r.duration == ONE_SECOND,
    {
        NtpDuration { duration: ONE_SECOND }
    }

    pub fn step_threshold() -> (r: NtpDuration)
        ensures
            r.duration == STEP_THRESHOLD,
    {
        NtpDuration { duration: STEP_THRESHOLD }
    }

    pub fn panic_threshold() -> (r: NtpDuration)
        ensures
            r.duration == PANIC_THRESHOLD,
    {
        NtpDuration { duration: PANIC_THRESHOLD }
    }

    pub fn spike_interval() -> (r: NtpDuration)
        ensures
            r.duration == SPIKE_INTERVAL,
    {
        NtpDuration { duration: SPIKE_INTERVAL }
    }

    /// A whole number of seconds.
    pub fn from_seconds(seconds: i32) -> (r: NtpDuration)
        ensures
            r.duration == seconds * ONE_SECOND,
    {
        NtpDuration { duration: (seconds as i64) * ONE_SECOND }
    }

    pub open spec fn spec_plus(self, other: NtpDuration) -> NtpDuration {
        NtpDuration { duration: saturate(self.duration + other.duration) }
    }

    /// Saturating sum.
    pub fn plus(self, other: NtpDuration) -> (r: NtpDuration)
        ensures
            r == self.spec_plus(other),
    {
        NtpDuration { duration: clamp_to_i64(self.duration as i128 + other.duration as i128) }
    }

    pub open spec fn spec_minus(self, other: NtpDuration) -> NtpDuration {
        NtpDuration { duration: saturate(self.duration - other.duration) }
    }

    /// Saturating difference.
    pub fn minus(self, other: NtpDuration) -> (r: NtpDuration)
        ensures
            r == self.spec_minus(other),
    {
        NtpDuration { duration: clamp_to_i64(self.duration as i128 - other.duration as i128) }
    }

    pub open spec fn spec_abs(self) -> NtpDuration {
        NtpDuration {
            duration: saturate(
                if self.duration < 0 {
                    -self.duration
                } else {
                    self.duration as int
                },
            ),
        }
    }

    /// Magnitude, saturating for the most negative value.
    pub fn abs(self) -> (r: NtpDuration)
        ensures
            r == self.spec_abs(),
            r.duration >= 0,
    {
        if self.duration < 0 {
            NtpDuration { duration: clamp_to_i64(-(self.duration as i128)) }
        } else {
            self
        }
    }

    pub open spec fn spec_negated(self) -> NtpDuration {
        NtpDuration { duration: saturate(-self.duration) }
    }

    /// Saturating negation.
    pub fn negated(self) -> (r: NtpDuration)
        ensures
            r == self.spec_negated(),
    {
        NtpDuration { duration: clamp_to_i64(-(self.duration as i128)) }
    }

    pub open spec fn spec_times(self, factor: i64) -> NtpDuration {
        NtpDuration { duration: saturate(self.duration * factor) }
    }

    /// Saturating product with an integer.
    pub fn times(self, factor: i64) -> (r: NtpDuration)
        ensures
            r == self.spec_times(factor),
    {
        let a: i128 = self.duration as i128;
        let b: i128 = factor as i128;
        assert(-0x4000_0000_0000_0000_0000_0000_0000_0000 <= a * b
            <= 0x4000_0000_0000_0000_0000_0000_0000_0000) by (nonlinear_arith)
            requires
                -0x8000_0000_0000_0000 <= a <= 0x7fff_ffff_ffff_ffff,
                -0x8000_0000_0000_0000 <= b <= 0x7fff_ffff_ffff_ffff,
        ;
        NtpDuration { duration: clamp_to_i64(a * b) }
    }

    pub open spec fn spec_halved(self) -> NtpDuration {
        NtpDuration { duration: half_toward_zero(self.duration as int) as i64 }
    }

    /// Half the span, rounded toward zero.
    pub fn halved(self) -> (r: NtpDuration)
        ensures
            r == self.spec_halved(),
    {
        NtpDuration { duration: self.duration / 2 }
    }

    /// The span carried by the 16.16 short format, whose four bytes are in
    /// network order.
    pub open spec fn spec_from_bits_short(bits: Seq<u8>) -> NtpDuration {
        NtpDuration { duration: (be_int_u32(bits) * 0x1_0000) as i64 }
    }

    pub fn from_bits_short(bits: [u8; 4]) -> (r: NtpDuration)
        ensures
            r == Self::spec_from_bits_short(bits@),
            r.duration == be_int_u32(bits@) * 0x1_0000,
    {
        let raw: u32 = u32_from_be(bits);
        NtpDuration { duration: (raw as i64) * 0x1_0000 }
    }

    /// The 32 bits of the short format: the span in units of 2^-16 seconds,
    /// with a negative span taken as zero and a span beyond the format
    /// taken as its largest value.
    pub open spec fn short_bits(self) -> int {
        if self.duration < 0 {
            0
        } else if self.duration > 0xffff_ffff_ffff {
            0xffff_ffff
        } else {
            self.duration as int / 0x1_0000
        }
    }

    /// The short format of the span, in network order.
    pub fn to_bits_short(self) -> (r: [u8; 4])
        ensures
            r@ == be_seq_u32(self.short_bits()),
    {
        let bits: u32 = if self.duration < 0 {
            0
        } else if self.duration > 0xffff_ffff_ffff {
            0xffff_ffff
        } else {
            (self.duration / 0x1_0000) as u32
        };
        u32_to_be(bits)
    }
}

/// A point in time as unsigned 32.32 fixed-point seconds since the start
/// of the NTP era. The value wraps every 2^32 seconds.
#[derive(Debug, Copy, Clone, PartialEq, Eq, Structural, Hash)]
pub struct NtpTimestamp {
    pub timestamp: u64,
}

impl NtpTimestamp {
    pub fn from_fixed_int(timestamp: u64) -> (r: NtpTimestamp)
        ensures
            r.timestamp == timestamp,
    {
        NtpTimestamp { timestamp }
    }

    pub fn to_fixed_int(self) -> (r: u64)
        ensures
            r == self.timestamp,
    {
        self.timestamp
    }

    /// The timestamp that eight bytes in network order spell.
    pub fn from_bits(bits: [u8; 8]) -> (r: NtpTimestamp)
        ensures
            r.timestamp == be_int_u64(bits@),
    {
        NtpTimestamp { timestamp: u64_from_be(bits) }
    }

    /// The eight bytes of the timestamp in network order.
    pub fn to_bits(self) -> (r: [u8; 8])
        ensures
            r@ == be_seq_u64(self.timestamp as int),
    {
        u64_to_be(self.timestamp)
    }

    pub open spec fn spec_from_seconds_nanos(seconds: u32, nanos: u32) -> NtpTimestamp {
        NtpTimestamp {
            timestamp: ((seconds as int * 0x1_0000_0000 + (nanos as int * 0x1_0000_0000)
                / 1_000_000_000) % 0x1_0000_0000_0000_0000) as u64,
        }
    }

    /// The instant `seconds` and `nanos` after the start of the era.
    pub fn from_seconds_nanos_since_ntp_era(seconds: u32, nanos: u32) -> (r: NtpTimestamp)
        ensures
            r == Self::spec_from_seconds_nanos(seconds, nanos),
    {
        let fraction: u64 = ((nanos as u64) * 0x1_0000_0000) / 1_000_000_000;
        let whole: u64 = (seconds as u64) * 0x1_0000_0000;
        NtpTimestamp { timestamp: whole.wrapping_add(fraction) }
    }

    /// The signed distance from `other` to `self` along the shorter way
    /// round the era.
    pub open spec fn spec_minus(self, other: NtpTimestamp) -> NtpDuration {
        let d = (self.timestamp - other.timestamp) % 0x1_0000_0000_0000_0000;
        NtpDuration {
            duration: (if d >= 0x8000_0000_0000_0000 {
                d - 0x1_0000_0000_0000_0000
            } else {
                d
            }) as i64,
        }
    }

    pub fn minus(self, other: NtpTimestamp) -> (r: NtpDuration)
        ensures
            r == self.spec_minus(other),
    {
        let d: u64 = self.timestamp.wrapping_sub(other.timestamp);
        if d >= 0x8000_0000_0000_0000 {
            NtpDuration { duration: -((u64::MAX - d) as i64) - 1 }
        } else {
            NtpDuration { duration: d as i64 }
        }
    }

    pub open spec fn spec_plus(self, span: NtpDuration) -> NtpTimestamp {
        NtpTimestamp {
            timestamp: ((self.timestamp + span.duration) % 0x1_0000_0000_0000_0000) as u64,
        }
    }

    /// The instant `span` later, wrapping at the end of the era.
    pub fn plus(self, span: NtpDuration) -> (r: NtpTimestamp)
        ensures
            r == self.spec_plus(span),
    {
        NtpTimestamp { timestamp: self.timestamp.wrapping_add_signed(span.duration) }
    }

    pub open spec fn spec_is_before(self, other: NtpTimestamp) -> bool {
        self.spec_minus(other).duration < 0
    }

    /// Whether `self` lies before `other`, judged by their signed distance.
    pub fn is_before(self, other: NtpTimestamp) -> (r: bool)
        ensures
            r == self.spec_is_before(other),
    {
        self.minus(other).duration < 0
    }
}

impl Default for NtpTimestamp {
    fn default() -> (r: NtpTimestamp)
        ensures
            r.timestamp == 0,
    {
        NtpTimestamp { timestamp: 0 }
    }
}

impl Default for NtpDuration {
    fn default() -> (r: NtpDuration)
        ensures
            r.duration == 0,
    {
        NtpDuration { duration: 0 }
    }
}

/// A reading of a monotonic clock, in 2^-32 seconds since an origin that
/// the process fixes once.
#[derive(Debug, Copy, Clone, PartialEq, Eq, Structural, Hash)]
pub struct NtpInstant {
    pub ticks: u64,
}

impl NtpInstant {
    pub fn from_fixed_int(ticks: u64) -> (r: NtpInstant)
        ensures
            r.ticks == ticks,
    {
        NtpInstant { ticks }
    }

    pub open spec fn spec_from_elapsed(seconds: u64, nanos: u32) -> NtpInstant {
        let exact = seconds as int * 0x1_0000_0000 + (nanos as int * 0x1_0000_0000) / 1_000_000_000;
        NtpInstant {
            ticks: if exact > u64::MAX {
                u64::MAX
            } else {
                exact as u64
            },
        }
    }

    /// The instant `seconds` and `nanos` after the origin, saturating at the
    /// end of the representable range.
    pub fn from_elapsed(seconds: u64, nanos: u32) -> (r: NtpInstant)
        ensures
            r == Self::spec_from_elapsed(seconds, nanos),
    {
        let fraction: u128 = ((nanos as u128) * 0x1_0000_0000) / 1_000_000_000;
        let exact: u128 = (seconds as u128) * 0x1_0000_0000 + fraction;
        if exact > u64::MAX as u128 {
            NtpInstant { ticks: u64::MAX }
        } else {
            NtpInstant { ticks: exact as u64 }
        }
    }

    pub open spec fn spec_abs_diff(self, other: NtpInstant) -> NtpDuration {
        NtpDuration {
            duration: saturate(
                if self.ticks >= other.ticks {
                    self.ticks - other.ticks
                } else {
                    other.ticks - self.ticks
                },
            ),
        }
    }

    /// The time between two instants, whichever came first.
    pub fn abs_diff(self, other: NtpInstant) -> (r: NtpDuration)
        ensures
            r == self.spec_abs_diff(other),
            r.duration >= 0,
    {
        let d: u64 = if self.ticks >= other.ticks {
            self.ticks - other.ticks
        } else {
            other.ticks - self.ticks
        };
        if d > i64::MAX as u64 {
            NtpDuration { duration: i64::MAX }
        } else {
            NtpDuration { duration: d as i64 }
        }
    }

    pub open spec fn spec_plus(self, span: NtpDuration) -> NtpInstant {
        let exact = self.ticks + span.duration;
        NtpInstant {
            ticks: if exact > u64::MAX {
                u64::MAX
            } else if exact < 0 {
                0
            } else {
                exact as u64
            },
        }
    }

    /// The instant `span` later, saturating at both ends of the range.
    pub fn plus(self, span: NtpDuration) -> (r: NtpInstant)
        ensures
            r == self.spec_plus(span),
    {
        let exact: i128 = self.ticks as i128 + span.duration as i128;
        if exact > u64::MAX as i128 {
            NtpInstant { ticks: u64::MAX }
        } else if exact < 0 {
            NtpInstant { ticks: 0 }
        } else {
            NtpInstant { ticks: exact as u64 }
        }
    }

    /// The instant a whole number of seconds later.
    pub fn plus_seconds(self, seconds: u32) -> (r: NtpInstant)
        ensures
            r == self.spec_plus(NtpDuration { duration: saturate(seconds * ONE_SECOND) }),
    {
        self.plus(NtpDuration { duration: clamp_to_i64((seconds as i128) * (ONE_SECOND as i128)) })
    }
}

/// Log2 of the number of seconds between two polls.
#[derive(Debug, Copy, Clone, PartialEq, Eq, Structural, Hash)]
pub struct PollInterval {
    pub log: i8,
}

/// The bounds between which an association may choose its poll interval.
#[derive(Debug, Copy, Clone, PartialEq, Eq, Structural)]
pub struct PollIntervalLimits {
    pub min: PollInterval,
    pub max: PollInterval,
}

impl Default for PollIntervalLimits {
    fn default() -> (r: PollIntervalLimits)
        ensures
            r.min.log == MIN_POLL,
            r.max.log == 10,
    {
        PollIntervalLimits { min: PollInterval { log: MIN_POLL }, max: PollInterval { log: 10 } }
    }
}

impl Default for PollInterval {
    fn default() -> (r: PollInterval)
        ensures
            r.log == MIN_POLL,
    {
        PollInterval { log: MIN_POLL }
    }
}

impl PollInterval {
    /// `value` clamped into `[low, high]`; `low` wins where the bounds cross.
    pub open spec fn clamp(value: int, low: int, high: int) -> int {
        if value < low {
            low
        } else if value > high {
            if high < low {
                low
            } else {
                high
            }
        } else {
            value
        }
    }

    pub fn from_log(log: i8) -> (r: PollInterval)
        ensures
            r.log == log,
    {
        PollInterval { log }
    }

    pub fn shortest() -> (r: PollInterval)
        ensures
            r.log == MIN_POLL,
    {
        PollInterval { log: MIN_POLL }
    }

    pub fn longest() -> (r: PollInterval)
        ensures
            r.log == MAX_POLL,
    {
        PollInterval { log: MAX_POLL }
    }

    pub fn as_log(self) -> (r: i8)
        ensures
            r == self.log,
    {
        self.log
    }

    pub open spec fn spec_inc(self) -> PollInterval {
        PollInterval { log: Self::clamp(self.log + 1, MIN_POLL as int, MAX_POLL as int) as i8 }
    }

    /// One step longer, within `[MIN_POLL, MAX_POLL]`.
    pub fn inc(self) -> (r: PollInterval)
        ensures
            r == self.spec_inc(),
            MIN_POLL <= r.log <= MAX_POLL,
    {
        if self.log < MIN_POLL {
            PollInterval { log: MIN_POLL }
        } else if self.log >= MAX_POLL {
            PollInterval { log: MAX_POLL }
        } else {
            PollInterval { log: self.log + 1 }
        }
    }

    pub open spec fn spec_dec(self) -> PollInterval {
        PollInterval { log: Self::clamp(self.log - 1, MIN_POLL as int, MAX_POLL as int) as i8 }
    }

    /// One step shorter, within `[MIN_POLL, MAX_POLL]`.
    pub fn dec(self) -> (r: PollInterval)
        ensures
            r == self.spec_dec(),
            MIN_POLL <= r.log <= MAX_POLL,
    {
        if self.log <= MIN_POLL {
            PollInterval { log: MIN_POLL }
        } else if self.log > MAX_POLL {
            PollInterval { log: MAX_POLL }
        } else {
            PollInterval { log: self.log - 1 }
        }
    }

    pub open spec fn spec_within(self, limits: PollIntervalLimits) -> PollInterval {
        PollInterval {
            log: Self::clamp(self.log as int, limits.min.log as int, limits.max.log as int) as i8,
        }
    }

    /// The interval clamped into `limits`.
    pub fn within(self, limits: PollIntervalLimits) -> (r: PollInterval)
        ensures
            r == self.spec_within(limits),
    {
        if self.log < limits.min.log {
            limits.min
        } else if self.log > limits.max.log {
            if limits.max.log < limits.min.log {
                limits.min
            } else {
                limits.max
            }
        } else {
            self
        }
    }

    pub open spec fn spec_longer_of(self, other: PollInterval) -> PollInterval {
        if self.log >= other.log {
            self
        } else {
            other
        }
    }

    pub fn longer_of(self, other: PollInterval) -> (r: PollInterval)
        ensures
            r == self.spec_longer_of(other),
    {
        if self.log >= other.log {
            self
        } else {
            other
        }
    }

    /// 2^log seconds as a whole number: zero below one second, and
    /// `u64::MAX` where the power does not fit.
    pub open spec fn spec_as_seconds(self) -> u64 {
        if self.log < 0 {
            0
        } else if self.log >= 64 {
            u64::MAX
        } else {
            pow2(self.log as nat) as u64
        }
    }

    pub fn as_seconds(self) -> (r: u64)
        ensures
            r == self.spec_as_seconds(),
    {
        if self.log < 0 {
            0
        } else if self.log >= 64 {
            u64::MAX
        } else {
            let mut r: u64 = 1;
            let mut i: i8 = 0;
            while i < self.log
                invariant
                    0 <= i <= self.log < 64,
                    r == pow2(i as nat),
                decreases self.log - i,
            {
                proof {
                    lemma_pow2_step(i as nat);
                    lemma_pow2_monotonic((i + 1) as nat, 63);
                    lemma_pow2_values();
                }
                r = r * 2;
                i = i + 1;
            }
            r
        }
    }

    /// 2^log seconds as a span: saturated above the range, zero where the
    /// power is below one unit.
    pub open spec fn spec_as_duration(self) -> NtpDuration {
        NtpDuration {
            duration: if self.log < -32 {
                0
            } else if self.log >= 31 {
                i64::MAX
            } else {
                pow2((self.log + 32) as nat) as i64
            },
        }
    }

    pub fn as_duration(self) -> (r: NtpDuration)
        ensures
            r == self.spec_as_duration(),
            r.duration >= 0,
    {
        if self.log < -32 {
            NtpDuration { duration: 0 }
        } else if self.log >= 31 {
            NtpDuration { duration: i64::MAX }
        } else {
            let target: i8 = self.log + 32;
            let mut r: i64 = 1;
            let mut i: i8 = 0;
            while i < target
                invariant
                    0 <= i <= target < 63,
                    r == pow2(i as nat),
                decreases target - i,
            {
                proof {
                    lemma_pow2_step(i as nat);
                    lemma_pow2_monotonic((i + 1) as nat, 62);
                    lemma_pow2_values();
                }
                r = r * 2;
                i = i + 1;
            }
            NtpDuration { duration: r }
        }
    }
}

} // verus!
