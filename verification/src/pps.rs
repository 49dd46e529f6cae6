//! Pulse-per-second signals: reading their time, and snapping the
//! offsets of other sources to the second boundaries that a pulse marks.

use crate::math::{floor_sqrt, isqrt};
use crate::packet::NtpLeapIndicator;
use crate::time_types::{saturate, NtpDuration, NtpTimestamp, ONE_SECOND};
use vstd::prelude::*;

verus! {

/// Seconds from the start of the NTP era to the start of the Unix era.
pub const UNIX_TO_NTP_OFFSET: u64 = 2_208_988_800;

/// Units of the NTP fraction in one second.
pub const NTP_SCALE_FRAC: u64 = 4_294_967_296;

/// The NTP time of a Unix time: the seconds moved to the NTP era and
/// counted modulo the era's length, the nanoseconds scaled to the NTP
/// fraction, and nanoseconds beyond a second carried over.
pub open spec fn spec_from_unix_timestamp(unix_timestamp: u64, nanos: u32) -> NtpTimestamp {
    let ntp_seconds = (unix_timestamp + UNIX_TO_NTP_OFFSET) % 0x1_0000_0000;
    let fraction = (nanos as int * NTP_SCALE_FRAC) / 1_000_000_000;
    NtpTimestamp {
        timestamp: ((ntp_seconds * 0x1_0000_0000 + fraction) % 0x1_0000_0000_0000_0000) as u64,
    }
}

/// Converts a Unix timestamp to an NTP timestamp.
pub fn from_unix_timestamp(unix_timestamp: u64, nanos: u32) -> (r: NtpTimestamp)
    ensures
        r == spec_from_unix_timestamp(unix_timestamp, nanos),
{
    let ntp_seconds: u128 = (unix_timestamp as u128 + UNIX_TO_NTP_OFFSET as u128) % 0x1_0000_0000;
    let fraction: u128 = ((nanos as u128) * (NTP_SCALE_FRAC as u128)) / 1_000_000_000;
    let timestamp: u128 = (ntp_seconds * 0x1_0000_0000 + fraction) % 0x1_0000_0000_0000_0000;
    NtpTimestamp::from_fixed_int(timestamp as u64)
}

/// A reading of the system clock: seconds since the start of the Unix
/// era and microseconds within the second.
#[derive(Debug, Copy, Clone, PartialEq, Eq, Structural)]
pub struct SystemTime {
    pub seconds: i64,
    pub micros: u32,
}

/// One pulse: its time, the system's time when it was read, and how far
/// the two are apart.
#[derive(Debug, Copy, Clone, PartialEq, Eq, Structural)]
pub struct PpsSample {
    pub timestamp: NtpTimestamp,
    pub system_time: SystemTime,
    pub offset: NtpDuration,
}

/// Nanoseconds between the pulse and the reading of the system clock.
pub open spec fn spec_gap_nanos(
    pps_seconds: u64,
    pps_nanos: u32,
    system_time: SystemTime,
) -> int {
    let gap = (system_time.seconds - pps_seconds) * 1_000_000_000 + (system_time.micros * 1000
        - pps_nanos);
    if gap < 0 {
        -gap
    } else {
        gap
    }
}

/// A number of nanoseconds as a span, rounded down and saturated.
pub open spec fn spec_span_of_nanos(nanos: int) -> NtpDuration {
    NtpDuration {
        duration: saturate(
            (nanos / 1_000_000_000) * ONE_SECOND + ((nanos % 1_000_000_000) * ONE_SECOND)
                / 1_000_000_000,
        ),
    }
}

/// What is known of a pulse-per-second source.
#[derive(Debug, Copy, Clone, PartialEq, Eq, Structural)]
pub struct Pps {
    /// How far the latest pulse was from the system clock.
    pub latest_offset: Option<NtpDuration>,
}

/// What became of polling for a pulse.
#[derive(Debug, Copy, Clone, PartialEq, Eq, Structural)]
pub enum AcceptResult {
    Accept(NtpTimestamp, SystemTime, NtpDuration),
    Ignore,
}

impl Pps {
    pub fn new() -> (r: Pps)
        ensures
            r.latest_offset is None,
    {
        Pps { latest_offset: None }
    }

    /// Takes the time of a pulse and the reading of the system clock
    /// that was made with it: gives the pulse as an NTP timestamp, the
    /// reading, and the distance between the two, and remembers the
    /// distance.
    pub fn poll_pps_signal(
        &mut self,
        pps_seconds: u64,
        pps_nanos: u32,
        system_time: SystemTime,
    ) -> (r: PpsSample)
        ensures
            r.timestamp == spec_from_unix_timestamp(pps_seconds, pps_nanos),
            r.system_time == system_time,
            r.offset == spec_span_of_nanos(spec_gap_nanos(pps_seconds, pps_nanos, system_time)),
            final(self).latest_offset == Some(r.offset),
    {
        let timestamp = Self::from_unix_timestamp(pps_seconds, pps_nanos);
        let seconds_apart: i128 = system_time.seconds as i128 - pps_seconds as i128;
        let within: i128 = (system_time.micros as i128) * 1000 - pps_nanos as i128;
        let signed: i128 = seconds_apart * 1_000_000_000 + within;
        let gap: i128 = if signed < 0 {
            -signed
        } else {
            signed
        };
        let whole: i128 = gap / 1_000_000_000;
        let part: i128 = ((gap % 1_000_000_000) * (ONE_SECOND as i128)) / 1_000_000_000;
        let exact: i128 = whole * (ONE_SECOND as i128) + part;
        let offset = NtpDuration {
            duration: if exact > i64::MAX as i128 {
                i64::MAX
            } else {
                exact as i64
            },
        };
        self.latest_offset = Some(offset);
        PpsSample { timestamp, system_time, offset }
    }

    /// Converts a Unix timestamp to an NTP timestamp.
    pub fn from_unix_timestamp(unix_timestamp: u64, nanos: u32) -> (r: NtpTimestamp)
        ensures
            r == spec_from_unix_timestamp(unix_timestamp, nanos),
    {
        self::from_unix_timestamp(unix_timestamp, nanos)
    }

    /// Judges the outcome of polling for a pulse: a pulse is accepted, a
    /// failure is ignored.
    pub fn accept_pps_time(result: Result<PpsSample, String>) -> (r: AcceptResult)
        ensures
            r == spec_accept_pps_time(result),
    {
        self::accept_pps_time(result)
    }
}

pub open spec fn spec_accept_pps_time(result: Result<PpsSample, String>) -> AcceptResult {
    match result {
        Ok(sample) => AcceptResult::Accept(sample.timestamp, sample.system_time, sample.offset),
        Err(_) => AcceptResult::Ignore,
    }
}

/// Judges the outcome of polling for a pulse: a pulse is accepted, a
/// failure is ignored.
pub fn accept_pps_time(result: Result<PpsSample, String>) -> (r: AcceptResult)
    ensures
        r == spec_accept_pps_time(result),
{
    match result {
        Ok(sample) => AcceptResult::Accept(sample.timestamp, sample.system_time, sample.offset),
        Err(_) => AcceptResult::Ignore,
    }
}

/// Offset and frequency of a source.
#[derive(Debug, Copy, Clone, PartialEq, Eq, Structural)]
pub struct Vector2 {
    pub e0: i64,
    pub e1: i64,
}

impl Vector2 {
    pub fn new_vector(entries: [i64; 2]) -> (r: Vector2)
        ensures
            r.e0 == entries[0],
            r.e1 == entries[1],
    {
        Vector2 { e0: entries[0], e1: entries[1] }
    }

    pub fn ventry(&self, i: usize) -> (r: i64)
        requires
            i < 2,
        ensures
            r == if i == 0 {
                self.e0
            } else {
                self.e1
            },
    {
        if i == 0 {
            self.e0
        } else {
            self.e1
        }
    }
}

/// The uncertainty of offset and frequency: variances on the diagonal,
/// covariances off it.
#[derive(Debug, Copy, Clone, PartialEq, Eq, Structural)]
pub struct Matrix2 {
    pub e00: i128,
    pub e01: i128,
    pub e10: i128,
    pub e11: i128,
}

impl Matrix2 {
    pub fn new(entries: [[i128; 2]; 2]) -> (r: Matrix2)
        ensures
            r.e00 == entries[0][0],
            r.e01 == entries[0][1],
            r.e10 == entries[1][0],
            r.e11 == entries[1][1],
    {
        Matrix2 { e00: entries[0][0], e01: entries[0][1], e10: entries[1][0], e11: entries[1][1] }
    }

    pub fn entry(&self, i: usize, j: usize) -> (r: i128)
        requires
            i < 2,
            j < 2,
        ensures
            r == if i == 0 {
                if j == 0 {
                    self.e00
                } else {
                    self.e01
                }
            } else {
                if j == 0 {
                    self.e10
                } else {
                    self.e11
                }
            },
    {
        if i == 0 {
            if j == 0 {
                self.e00
            } else {
                self.e01
            }
        } else {
            if j == 0 {
                self.e10
            } else {
                self.e11
            }
        }
    }
}

/// What a time source says of the local clock at one moment. Offsets are
/// in units of 2^-32 seconds, variances in their squares.
#[derive(Debug, Copy, Clone, PartialEq)]
pub struct SourceSnapshot<Index: Copy> {
    pub index: Index,
    pub state: Vector2,
    pub uncertainty: Matrix2,
    pub delay: NtpDuration,
    pub source_uncertainty: NtpDuration,
    pub source_delay: NtpDuration,
    pub leap_indicator: NtpLeapIndicator,
    pub last_update: NtpTimestamp,
}

impl<Index: Copy> SourceSnapshot<Index> {
    pub open spec fn spec_offset(&self) -> NtpDuration {
        NtpDuration { duration: self.state.e0 }
    }

    pub fn offset(&self) -> (r: NtpDuration)
        ensures
            r == self.spec_offset(),
    {
        NtpDuration { duration: self.state.e0 }
    }

    /// The square root of the variance of the offset, rounded down; a
    /// variance below zero counts as zero.
    pub open spec fn spec_offset_uncertainty(&self) -> NtpDuration {
        let root = if self.uncertainty.e00 <= 0 {
            0
        } else {
            floor_sqrt(self.uncertainty.e00 as nat)
        };
        NtpDuration {
            duration: if root > i64::MAX {
                i64::MAX
            } else {
                root as i64
            },
        }
    }

    pub fn offset_uncertainty(&self) -> (r: NtpDuration)
        ensures
            r == self.spec_offset_uncertainty(),
    {
        if self.uncertainty.e00 <= 0 {
            NtpDuration { duration: 0 }
        } else {
            let root = isqrt(self.uncertainty.e00 as u128);
            if root > i64::MAX as u64 {
                NtpDuration { duration: i64::MAX }
            } else {
                NtpDuration { duration: root as i64 }
            }
        }
    }
}

/// The whole second at or below `span`.
pub open spec fn spec_whole_floor(span: NtpDuration) -> NtpDuration {
    NtpDuration { duration: (span.duration - span.duration % ONE_SECOND) as i64 }
}

/// The whole second at or above `span`, saturated.
pub open spec fn spec_whole_ceil(span: NtpDuration) -> NtpDuration {
    if span.duration % ONE_SECOND == 0 {
        span
    } else {
        NtpDuration { duration: saturate(spec_whole_floor(span).duration + ONE_SECOND) }
    }
}

fn whole_floor(span: NtpDuration) -> (r: NtpDuration)
    ensures
        r == spec_whole_floor(span),
{
    let d: i128 = span.duration as i128;
    // The remainder of a division that rounds toward negative infinity.
    let shifted: i128 = d + 0x8000_0000_0000_0000;
    let part: i128 = shifted % (ONE_SECOND as i128);
    assert(part == span.duration as int % (ONE_SECOND as int)) by {
        assert(0x8000_0000_0000_0000int == 0x8000_0000 * 0x1_0000_0000);
        assert((d + 0x8000_0000 * 0x1_0000_0000) % 0x1_0000_0000 == d % 0x1_0000_0000)
            by (nonlinear_arith);
    }
    NtpDuration { duration: (d - part) as i64 }
}

fn whole_ceil(span: NtpDuration) -> (r: NtpDuration)
    ensures
        r == spec_whole_ceil(span),
{
    let floor = whole_floor(span);
    if floor.duration == span.duration {
        span
    } else {
        floor.plus(NtpDuration { duration: ONE_SECOND })
    }
}

/// The four offsets that lie as far from a whole second as the pulse
/// lies from its own: the pulse's offset above and below the second
/// under `other`, and above and below the second over it.
pub open spec fn spec_snap_points(pulse: NtpDuration, other: NtpDuration) -> (
    NtpDuration,
    NtpDuration,
    NtpDuration,
    NtpDuration,
) {
    let floor = spec_whole_floor(other);
    let ceil = spec_whole_ceil(other);
    (floor.spec_plus(pulse), floor.spec_minus(pulse), ceil.spec_plus(pulse), ceil.spec_minus(pulse))
}

/// The one of the four snap points that lies closest to its end of the
/// other source's range: the lower end for the two points about the
/// second below, the upper end for the two about the second above. Of
/// several equally close, the first.
pub open spec fn spec_snapped_offset(
    pulse: NtpDuration,
    other: NtpDuration,
    other_uncertainty: NtpDuration,
) -> NtpDuration {
    let (floor_above, floor_below, ceil_above, ceil_below) = spec_snap_points(pulse, other);
    let low = other.spec_minus(other_uncertainty);
    let high = other.spec_plus(other_uncertainty);
    let d1 = floor_above.spec_minus(low).spec_abs().duration;
    let d2 = floor_below.spec_minus(low).spec_abs().duration;
    let d3 = ceil_above.spec_minus(high).spec_abs().duration;
    let d4 = ceil_below.spec_minus(high).spec_abs().duration;
    if d1 <= d2 && d1 <= d3 && d1 <= d4 {
        floor_above
    } else if d2 <= d3 && d2 <= d4 {
        floor_below
    } else if d3 <= d4 {
        ceil_above
    } else {
        ceil_below
    }
}

/// The other source with its offset snapped to the pulse, and with the
/// pulse's uncertainty in place of its own. All else is the other
/// source's.
pub open spec fn spec_combine_sources<Index: Copy>(
    pps_snapshot: SourceSnapshot<Index>,
    other_snapshot: SourceSnapshot<Index>,
) -> SourceSnapshot<Index> {
    SourceSnapshot {
        state: Vector2 {
            e0: spec_snapped_offset(
                pps_snapshot.spec_offset(),
                other_snapshot.spec_offset(),
                other_snapshot.spec_offset_uncertainty(),
            ).duration,
            e1: other_snapshot.state.e1,
        },
        uncertainty: Matrix2 {
            e00: pps_snapshot.spec_offset_uncertainty().duration as i128,
            ..other_snapshot.uncertainty
        },
        ..other_snapshot
    }
}

/// Combines a pulse with another source: the pulse knows the fraction of
/// the second well and the second itself not at all, so the other
/// source's offset is moved to the nearest offset that agrees with the
/// pulse.
pub fn combine_sources<Index: Copy>(
    pps_snapshot: SourceSnapshot<Index>,
    other_snapshot: SourceSnapshot<Index>,
) -> (r: SourceSnapshot<Index>)
    ensures
        r == spec_combine_sources(pps_snapshot, other_snapshot),
{
    let pps_offset = pps_snapshot.offset();
    let pps_offset_uncertainty = pps_snapshot.offset_uncertainty();
    let other_offset = other_snapshot.offset();
    let other_offset_uncertainty = other_snapshot.offset_uncertainty();

    // The whole seconds below and above the other source's offset.
    let full_second_floor = whole_floor(other_offset);
    let full_second_ceil = whole_ceil(other_offset);

    // The pulse's offset about each of the two.
    let pps_floor_positive = full_second_floor.plus(pps_offset);
    let pps_floor_negative = full_second_floor.minus(pps_offset);
    let pps_ceil_positive = full_second_ceil.plus(pps_offset);
    let pps_ceil_negative = full_second_ceil.minus(pps_offset);

    // The ends of the other source's range.
    let other_minimum = other_offset.minus(other_offset_uncertainty);
    let other_maximum = other_offset.plus(other_offset_uncertainty);

    let floor_positive_diff = pps_floor_positive.minus(other_minimum).abs().duration;
    let floor_negative_diff = pps_floor_negative.minus(other_minimum).abs().duration;
    let ceil_positive_diff = pps_ceil_positive.minus(other_maximum).abs().duration;
    let ceil_negative_diff = pps_ceil_negative.minus(other_maximum).abs().duration;

    let new_offset = if floor_positive_diff <= floor_negative_diff && floor_positive_diff
        <= ceil_positive_diff && floor_positive_diff <= ceil_negative_diff {
        pps_floor_positive
    } else if floor_negative_diff <= ceil_positive_diff && floor_negative_diff
        <= ceil_negative_diff {
        pps_floor_negative
    } else if ceil_positive_diff <= ceil_negative_diff {
        pps_ceil_positive
    } else {
        pps_ceil_negative
    };

    SourceSnapshot {
        index: other_snapshot.index,
        state: Vector2 { e0: new_offset.duration, e1: other_snapshot.state.ventry(1) },
        uncertainty: Matrix2 {
            e00: pps_offset_uncertainty.duration as i128,
            e01: other_snapshot.uncertainty.entry(0, 1),
            e10: other_snapshot.uncertainty.entry(1, 0),
            e11: other_snapshot.uncertainty.entry(1, 1),
        },
        delay: other_snapshot.delay,
        source_uncertainty: other_snapshot.source_uncertainty,
        source_delay: other_snapshot.source_delay,
        leap_indicator: other_snapshot.leap_indicator,
        last_update: other_snapshot.last_update,
    }
}

/// Each candidate, followed by the candidate combined with the pulse.
pub open spec fn spec_combine_with_pps<Index: Copy>(
    pps: SourceSnapshot<Index>,
    candidates: Seq<SourceSnapshot<Index>>,
) -> Seq<SourceSnapshot<Index>> {
    Seq::new(
        2 * candidates.len(),
        |i: int|
            if i % 2 == 0 {
                candidates[i / 2]
            } else {
                spec_combine_sources(pps, candidates[i / 2])
            },
    )
}

/// Gives, for every candidate, the candidate as it is and the candidate
/// snapped to the pulse, one after the other.
pub fn combine_with_pps<Index: Copy>(
    pps: SourceSnapshot<Index>,
    candidates: Vec<SourceSnapshot<Index>>,
) -> (r: Vec<SourceSnapshot<Index>>)
    ensures
        r@ == spec_combine_with_pps(pps, candidates@),
        r@.len() == 2 * candidates@.len(),
{
    let mut results: Vec<SourceSnapshot<Index>> = Vec::new();
    let n = candidates.len();
    let mut i: usize = 0;
    while i < n
        invariant
            0 <= i <= n,
            n == candidates@.len(),
            results@.len() == 2 * i,
            forall|j: int|
                0 <= j < 2 * i ==> results@[j] == spec_combine_with_pps(pps, candidates@)[j],
        decreases n - i,
    {
        let snapshot = candidates[i];
        results.push(snapshot);
        let combined = combine_sources(pps, snapshot);
        results.push(combined);
        i = i + 1;
    }
    assert(results@ =~= spec_combine_with_pps(pps, candidates@));
    results
}

} // verus!
