use ntp_client::clock_select::{combine, Candidate, Selection};
use ntp_client::identifiers::PeerIndex;
use ntp_client::time_types::NtpDuration;

const SECOND: f64 = 4294967296.0;

// A candidate that allows for offsets from `low` to `high` seconds.
fn between(index: usize, low: f64, high: f64) -> Candidate {
    Candidate {
        index: PeerIndex::from_inner(index),
        offset: NtpDuration::from_fixed_int(((low + high) / 2.0 * SECOND) as i64),
        distance: NtpDuration::from_fixed_int(((high - low) / 2.0 * SECOND) as i64),
    }
}

fn raw(index: usize, offset: i64, distance: i64) -> Candidate {
    Candidate {
        index: PeerIndex::from_inner(index),
        offset: NtpDuration::from_fixed_int(offset),
        distance: NtpDuration::from_fixed_int(distance),
    }
}

#[test]
fn intersection_rejects_minority() {
    let candidates = vec![between(0, -10.0, -5.0), between(1, 5.0, 10.0), between(2, 6.0, 9.0)];
    assert_eq!(combine(&candidates, 3), None);
}

#[test]
fn majority_is_selected_and_combined() {
    let candidates = vec![between(0, -10.0, -5.0), between(1, 5.0, 10.0), between(2, 6.0, 9.0)];
    let selection = combine(&candidates, 2).unwrap();
    assert_eq!(
        selection,
        Selection {
            system_peer: PeerIndex::from_inner(2),
            survivors: vec![PeerIndex::from_inner(1), PeerIndex::from_inner(2)],
            offset: NtpDuration::from_fixed_int((7.5 * SECOND) as i64),
            jitter: NtpDuration::from_fixed_int(0),
        }
    );
    assert_eq!(combine(&candidates, 0), combine(&candidates, 2));
    assert_eq!(combine(&candidates, 1), combine(&candidates, 2));
}

#[test]
fn nothing_is_selected_from_nothing() {
    assert_eq!(combine(&Vec::new(), 0), None);
    assert_eq!(combine(&Vec::new(), 1), None);
    // A candidate with a distance below zero allows for no offset at all.
    assert_eq!(combine(&vec![raw(0, 5, -1)], 0), None);
}

#[test]
fn single_candidate_gives_its_own_offset() {
    let selection = combine(&vec![raw(9, -77, 5)], 1).unwrap();
    assert_eq!(selection.system_peer, PeerIndex::from_inner(9));
    assert_eq!(selection.survivors, vec![PeerIndex::from_inner(9)]);
    assert_eq!(selection.offset.to_fixed_int(), -77);
    assert_eq!(selection.jitter.to_fixed_int(), 0);
    assert_eq!(combine(&vec![raw(9, -77, 5)], 2), None);
}

#[test]
fn offsets_are_weighed_by_the_inverse_square_of_the_distance() {
    // Distances of one and of two grains: weights 2^40 and 2^38, four to
    // one. The offsets 0 and 2^20 meet in 2^20 / 5, rounded down.
    let candidates = vec![raw(0, 0, 1 << 20), raw(1, 1 << 20, 2 << 20)];
    let selection = combine(&candidates, 2).unwrap();
    assert_eq!(selection.offset.to_fixed_int(), 209715);
    // Distances from it are -209715 and 838861.
    assert_eq!(selection.jitter.to_fixed_int(), 611419);
    assert_eq!(selection.system_peer, PeerIndex::from_inner(0));
    assert_eq!(selection.survivors, vec![PeerIndex::from_inner(0), PeerIndex::from_inner(1)]);
}

#[test]
fn of_equal_groups_the_first_lowest_end_wins() {
    // Two pairs that do not meet each other.
    let candidates = vec![raw(0, 100, 10), raw(1, 105, 10), raw(2, 500, 10), raw(3, 505, 10)];
    let selection = combine(&candidates, 2).unwrap();
    assert_eq!(selection.survivors, vec![PeerIndex::from_inner(0), PeerIndex::from_inner(1)]);
    assert_eq!(combine(&candidates, 3), None);
}

#[test]
fn extreme_values_do_not_overflow() {
    let candidates = vec![
        raw(0, i64::MAX, i64::MAX),
        raw(1, i64::MIN, i64::MAX),
        raw(2, 0, i64::MAX),
        raw(3, -1, 0),
    ];
    assert_eq!(combine(&candidates, 4), None);
    let selection = combine(&candidates, 3).unwrap();
    assert_eq!(
        selection.survivors,
        vec![PeerIndex::from_inner(1), PeerIndex::from_inner(2), PeerIndex::from_inner(3)]
    );
    assert_eq!(selection.system_peer, PeerIndex::from_inner(3));
    // The candidate without any distance outweighs the others.
    assert!(selection.offset.to_fixed_int().abs() < (1 << 40));
}
