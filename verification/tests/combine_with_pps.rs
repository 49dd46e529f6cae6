use ntp_client::packet::NtpLeapIndicator;
use ntp_client::pps::{combine_sources, combine_with_pps, Matrix2, SourceSnapshot, Vector2};
use ntp_client::time_types::{NtpDuration, NtpTimestamp};

// Seconds as units of 2^-32 seconds.
fn fixed(seconds: f64) -> i64 {
    (seconds * 4294967296.0).round() as i64
}

// Square seconds as squares of units of 2^-32 seconds.
fn fixed_square(value: f64) -> i128 {
    (value * 18446744073709551616.0).round() as i128
}

fn seconds(units: i64) -> f64 {
    units as f64 / 4294967296.0
}

// Helper to create the snapshots, to be used in testing
fn create_snapshot<Index: Copy>(
    index: Index,
    _offset: f64,
    _offset_uncertainty: f64,
    state_vector: [f64; 2],
    uncertainty_matrix: [[f64; 2]; 2],
) -> SourceSnapshot<Index> {
    SourceSnapshot {
        index,
        state: Vector2::new_vector([fixed(state_vector[0]), fixed(state_vector[1])]),
        uncertainty: Matrix2::new([
            [fixed_square(uncertainty_matrix[0][0]), fixed_square(uncertainty_matrix[0][1])],
            [fixed_square(uncertainty_matrix[1][0]), fixed_square(uncertainty_matrix[1][1])],
        ]),
        delay: NtpDuration::from_fixed_int(fixed(0.0)),
        source_uncertainty: NtpDuration::from_fixed_int(fixed(0.0)),
        source_delay: NtpDuration::from_fixed_int(fixed(0.0)),
        leap_indicator: NtpLeapIndicator::NoWarning,
        last_update: NtpTimestamp::from_fixed_int(0),
    }
}

// Tests the combination of PPS when there is only one candidate
#[test]
fn test_combine_with_pps_single_candidate() {
    let pps_snapshot = create_snapshot(1, 1.0, 0.1, [1.0, 0.0], [[0.1, 0.0], [0.0, 0.1]]);

    let candidate_snapshot = create_snapshot(2, 1.2, 0.2, [1.2, 0.0], [[0.2, 0.0], [0.0, 0.2]]);

    let combined = combine_with_pps(pps_snapshot, vec![candidate_snapshot]);
    assert_eq!(combined.len(), 2);
}

// Tests the combination of PPS when there are multiple candidates
#[test]
fn test_combine_with_pps_multiple_candidates() {
    let pps_snapshot = create_snapshot(1, 1.0, 0.1, [1.0, 0.0], [[0.1, 0.0], [0.0, 0.1]]);

    let candidate_snapshot1 = create_snapshot(2, 1.2, 0.2, [1.2, 0.0], [[0.2, 0.0], [0.0, 0.2]]);

    let candidate_snapshot2 = create_snapshot(3, 1.4, 0.3, [1.4, 0.0], [[0.3, 0.0], [0.0, 0.3]]);

    let combined = combine_with_pps(pps_snapshot, vec![candidate_snapshot1, candidate_snapshot2]);
    assert_eq!(combined.len(), 4);
}

// Tests the combination of PPS when there are no candidates
#[test]
fn test_combine_with_pps_no_candidates() {
    let pps_snapshot = create_snapshot(1, 1.0, 0.1, [1.0, 0.0], [[0.1, 0.0], [0.0, 0.1]]);

    let combined = combine_with_pps(pps_snapshot, vec![]);
    assert!(combined.is_empty());
}

// Tests the combine_sources function when the inputs have the same offsets and uncertainties, 0
#[test]
fn test_combine_sources_zeros() {
    let pps_snapshot = create_snapshot(1, 0.0, 0.0, [0.0, 0.0], [[0.0, 0.0], [0.0, 0.0]]);

    let other_snapshot = create_snapshot(2, 0.0, 0.0, [0.0, 0.0], [[0.0, 0.0], [0.0, 0.0]]);

    let combined_snapshot = combine_sources(pps_snapshot, other_snapshot);

    assert_eq!(seconds(combined_snapshot.state.ventry(0)), 0.0);
    assert_eq!(combined_snapshot.uncertainty.entry(0, 0) as f64, 0.0);
}

// Tests the combine_sources function when the inputs have the same offsets and no uncertainty
#[test]
fn test_combine_sources_zero_uncertainty() {
    let pps_snapshot = create_snapshot(1, 1.0, 0.0, [1.0, 0.0], [[0.0, 0.0], [0.0, 0.0]]);

    let other_snapshot = create_snapshot(2, 1.0, 0.0, [1.0, 0.0], [[0.0, 0.0], [0.0, 0.0]]);

    let combined_snapshot = combine_sources(pps_snapshot, other_snapshot);

    assert!((seconds(combined_snapshot.state.ventry(0)) - 2.0).abs() < 1e-6);
    assert!(combined_snapshot.uncertainty.entry(0, 0) as f64 == 0.0);
}

// Tests the combine_sources function when the inputs have the different offsets and same large uncertainty
#[test]
fn test_combine_sources_large_uncertainty() {
    let pps_snapshot = create_snapshot(1, 1.0, 50.0, [1.0, 0.0], [[50.0, 0.0], [0.0, 50.0]]);

    let other_snapshot = create_snapshot(2, 2.0, 50.0, [2.0, 0.0], [[50.0, 0.0], [0.0, 50.0]]);

    let combined_snapshot = combine_sources(pps_snapshot, other_snapshot);

    assert!(
        seconds(combined_snapshot.state.ventry(0)) >= 1.0
            && seconds(combined_snapshot.state.ventry(0)) <= 2.0
    );
}

// Tests the combine_sources function when the uncertainty difference is very small
#[test]
fn test_combine_sources_small_uncertainty() {
    let pps_snapshot = create_snapshot(1, 0.4, 0.01, [0.4, 0.0], [[0.01, 0.0], [0.0, 0.01]]);

    let other_snapshot = create_snapshot(2, 0.5, 0.01, [0.5, 0.0], [[0.01, 0.0], [0.0, 0.01]]);

    let combined_snapshot = combine_sources(pps_snapshot, other_snapshot);

    assert_eq!(combined_snapshot.state.ventry(0), fixed(0.4));
}

// Tests the combine_sources function when the offsets are on the opposite ends of the spectrum
#[test]
fn test_combine_sources_high_difference_in_offsets() {
    let pps_snapshot = create_snapshot(1, 0.4, 0.1, [0.4, 0.0], [[0.1, 0.0], [0.0, 0.1]]);

    let other_snapshot = create_snapshot(2, -0.4, 0.1, [-0.4, 0.0], [[0.1, 0.0], [0.0, 0.1]]);

    let combined_snapshot = combine_sources(pps_snapshot, other_snapshot);

    assert_eq!(fixed(-0.6), combined_snapshot.state.ventry(0));
}

#[test]
fn combine_with_pps_alternates_candidate_and_snapped_candidate() {
    let pps = create_snapshot(7usize, 0.25, 0.0, [0.25, 0.0], [[0.0, 0.0], [0.0, 0.0]]);
    let first = create_snapshot(1usize, 3.3, 0.0, [3.3, 0.5], [[0.04, 0.1], [0.2, 0.3]]);
    let second = create_snapshot(2usize, -1.9, 0.0, [-1.9, 0.0], [[0.01, 0.0], [0.0, 0.0]]);
    let combined = combine_with_pps(pps, vec![first, second]);
    assert_eq!(combined.len(), 4);
    assert_eq!(combined[0], first);
    assert_eq!(combined[1], combine_sources(pps, first));
    assert_eq!(combined[2], second);
    assert_eq!(combined[3], combine_sources(pps, second));
    // 3.3 lies between 3 and 4; of 3.25, 2.75, 4.25 and 3.75 the first is
    // the nearest to its end of the range.
    assert_eq!(combined[1].state.ventry(0), fixed(3.0) + fixed(0.25));
    assert_eq!(combined[1].state.ventry(1), fixed(0.5));
    assert_eq!(combined[1].index, 1);
    assert_eq!(combined[1].uncertainty.entry(0, 0), 0);
    assert_eq!(combined[1].uncertainty.entry(0, 1), fixed_square(0.1));
    assert_eq!(combined[1].uncertainty.entry(1, 0), fixed_square(0.2));
    assert_eq!(combined[1].uncertainty.entry(1, 1), fixed_square(0.3));
    // -1.9 lies between -2 and -1: -1.75 is the nearest.
    assert_eq!(combined[3].state.ventry(0), fixed(-2.0) + fixed(0.25));
}

#[test]
fn combined_source_takes_the_root_of_the_pulse_variance() {
    let pps = create_snapshot(1, 0.0, 0.0, [0.0, 0.0], [[4.0, 0.0], [0.0, 0.0]]);
    let other = create_snapshot(2, 0.0, 0.0, [0.0, 0.0], [[9.0, 0.0], [0.0, 0.0]]);
    assert_eq!(pps.offset_uncertainty(), NtpDuration::from_fixed_int(fixed(2.0)));
    assert_eq!(other.offset_uncertainty(), NtpDuration::from_fixed_int(fixed(3.0)));
    let combined = combine_sources(pps, other);
    assert_eq!(combined.uncertainty.entry(0, 0), fixed(2.0) as i128);
    let negative = create_snapshot(3, 0.0, 0.0, [0.0, 0.0], [[-1.0, 0.0], [0.0, 0.0]]);
    assert_eq!(negative.offset_uncertainty(), NtpDuration::from_fixed_int(0));
}
