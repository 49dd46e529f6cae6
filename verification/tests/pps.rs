use ntp_client::pps::{
    accept_pps_time, from_unix_timestamp, AcceptResult, Pps, PpsSample, SystemTime,
    NTP_SCALE_FRAC, UNIX_TO_NTP_OFFSET,
};
use ntp_client::time_types::{NtpDuration, NtpTimestamp};

#[test]
fn unix_time_is_moved_to_the_ntp_era() {
    assert_eq!(UNIX_TO_NTP_OFFSET, 2_208_988_800);
    assert_eq!(NTP_SCALE_FRAC, 1 << 32);
    assert_eq!(
        from_unix_timestamp(0, 0),
        NtpTimestamp::from_fixed_int(0x83aa_7e80_0000_0000)
    );
    assert_eq!(
        from_unix_timestamp(1_700_000_000, 500_000_000),
        NtpTimestamp::from_fixed_int(0xe8fe_6f80_8000_0000)
    );
    assert_eq!(
        Pps::from_unix_timestamp(1_700_000_000, 500_000_000),
        from_unix_timestamp(1_700_000_000, 500_000_000)
    );
    // The era wraps in 2036.
    assert_eq!(from_unix_timestamp((1 << 32) - 2_208_988_800, 0), NtpTimestamp::from_fixed_int(0));
    assert_eq!(
        from_unix_timestamp(u64::MAX, 999_999_999),
        NtpTimestamp::from_fixed_int(((2_208_988_799u64) << 32) + 4294967291)
    );
    // Nanoseconds beyond a second are carried over.
    assert_eq!(from_unix_timestamp(0, 1_000_000_000), from_unix_timestamp(1, 0));
}

#[test]
fn a_pulse_is_measured_against_the_system_time() {
    let mut pps = Pps::new();
    assert_eq!(pps.latest_offset, None);
    let system_time = SystemTime { seconds: 1_700_000_000, micros: 750_000 };
    let sample = pps.poll_pps_signal(1_700_000_000, 500_000_000, system_time);
    assert_eq!(
        sample,
        PpsSample {
            timestamp: from_unix_timestamp(1_700_000_000, 500_000_000),
            system_time,
            // A quarter of a second.
            offset: NtpDuration::from_fixed_int(1073741824),
        }
    );
    assert_eq!(pps.latest_offset, Some(NtpDuration::from_fixed_int(1 << 30)));
    // The distance has no sign.
    let earlier = SystemTime { seconds: 1_699_999_998, micros: 500_000 };
    let sample = pps.poll_pps_signal(1_700_000_000, 500_000_000, earlier);
    assert_eq!(sample.offset, NtpDuration::from_seconds(2));
    assert_eq!(pps.latest_offset, Some(NtpDuration::from_seconds(2)));
    let sample = pps.poll_pps_signal(u64::MAX, 0, SystemTime { seconds: i64::MIN, micros: 0 });
    assert_eq!(sample.offset, NtpDuration::from_fixed_int(i64::MAX));
}

#[test]
fn a_failed_poll_is_ignored() {
    let sample = PpsSample {
        timestamp: NtpTimestamp::from_fixed_int(77),
        system_time: SystemTime { seconds: 5, micros: 6 },
        offset: NtpDuration::from_fixed_int(9),
    };
    assert_eq!(
        accept_pps_time(Ok(sample)),
        AcceptResult::Accept(
            NtpTimestamp::from_fixed_int(77),
            SystemTime { seconds: 5, micros: 6 },
            NtpDuration::from_fixed_int(9)
        )
    );
    assert_eq!(accept_pps_time(Err("no pulse".to_string())), AcceptResult::Ignore);
    assert_eq!(Pps::accept_pps_time(Err(String::new())), AcceptResult::Ignore);
    assert_eq!(Pps::accept_pps_time(Ok(sample)), accept_pps_time(Ok(sample)));
}
