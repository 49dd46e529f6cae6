use ntp_client::packet::{
    NtpAssociationMode, NtpHeader, NtpLeapIndicator, KISS_DENY, KISS_RATE, KISS_RSTR,
};
use ntp_client::time_types::{NtpDuration, NtpTimestamp};

#[test]
fn roundtrip_bitrep_leap() {
    for i in 0..4 as u8 {
        let a = NtpLeapIndicator::from_bits(i);
        let b = a.to_bits();
        let c = NtpLeapIndicator::from_bits(b);
        assert_eq!(i, b);
        assert_eq!(a, c);
    }
}

#[test]
fn roundtrip_bitrep_mode() {
    for i in 0..8 as u8 {
        let a = NtpAssociationMode::from_bits(i);
        let b = a.to_bits();
        let c = NtpAssociationMode::from_bits(b);
        assert_eq!(i, b);
        assert_eq!(a, c);
    }
}

#[test]
fn test_captured_client() {
    let packet = b"\x23\x02\x06\xe8\x00\x00\x03\xff\x00\x00\x03\x7d\x5e\xc6\x9f\x0f\xe5\xf6\x62\x98\x7b\x61\xb9\xaf\xe5\xf6\x63\x66\x7b\x64\x99\x5d\xe5\xf6\x63\x66\x81\x40\x55\x90\xe5\xf6\x63\xa8\x76\x1d\xde\x48";
    let reference = NtpHeader {
        leap: NtpLeapIndicator::NoWarning,
        version: 4,
        mode: NtpAssociationMode::Client,
        stratum: 2,
        poll: 6,
        precision: -24,
        root_delay: NtpDuration::from_fixed_int(1023 << 16),
        root_dispersion: NtpDuration::from_fixed_int(893 << 16),
        reference_id: 0x5ec69f0f,
        reference_timestamp: NtpTimestamp::from_fixed_int(0xe5f662987b61b9af),
        origin_timestamp: NtpTimestamp::from_fixed_int(0xe5f663667b64995d),
        receive_timestamp: NtpTimestamp::from_fixed_int(0xe5f6636681405590),
        transmit_timestamp: NtpTimestamp::from_fixed_int(0xe5f663a8761dde48),
    };

    assert_eq!(reference, NtpHeader::deserialize(packet));
    assert_eq!(packet[..], reference.serialize()[..]);
}

#[test]
fn test_captured_server() {
    let packet = b"\x24\x02\x06\xe9\x00\x00\x02\x36\x00\x00\x03\xb7\xc0\x35\x67\x6c\xe5\xf6\x61\xfd\x6f\x16\x5f\x03\xe5\xf6\x63\xa8\x76\x19\xef\x40\xe5\xf6\x63\xa8\x79\x8c\x65\x81\xe5\xf6\x63\xa8\x79\x8e\xae\x2b";
    let reference = NtpHeader {
        leap: NtpLeapIndicator::NoWarning,
        version: 4,
        mode: NtpAssociationMode::Server,
        stratum: 2,
        poll: 6,
        precision: -23,
        root_delay: NtpDuration::from_fixed_int(566 << 16),
        root_dispersion: NtpDuration::from_fixed_int(951 << 16),
        reference_id: 0xc035676c,
        reference_timestamp: NtpTimestamp::from_fixed_int(0xe5f661fd6f165f03),
        origin_timestamp: NtpTimestamp::from_fixed_int(0xe5f663a87619ef40),
        receive_timestamp: NtpTimestamp::from_fixed_int(0xe5f663a8798c6581),
        transmit_timestamp: NtpTimestamp::from_fixed_int(0xe5f663a8798eae2b),
    };

    assert_eq!(reference, NtpHeader::deserialize(packet));
    assert_eq!(packet[..], reference.serialize()[..])
}

#[test]
fn test_abstract() {
    let packet = [
        0x0, 1, 2, 3, 4, 5, 6, 7, 8, 9, 10, 11, 12, 13, 14, 15, 16, 17, 18, 19, 20, 21, 22, 23,
        24, 25, 26, 27, 28, 29, 30, 31, 32, 33, 34, 35, 36, 37, 38, 39, 40, 41, 42, 43, 44, 45,
        46, 47,
    ];
    let a = NtpHeader::deserialize(&packet);
    let b = a.serialize();
    let c = NtpHeader::deserialize(&b);
    assert_eq!(packet, b);
    assert_eq!(a, c);
}

#[test]
fn test_packed_flags() {
    let base = [
        0, 1, 2, 3, 4, 5, 6, 7, 8, 9, 10, 11, 12, 13, 14, 15, 16, 17, 18, 19, 20, 21, 22, 23,
        24, 25, 26, 27, 28, 29, 30, 31, 32, 33, 34, 35, 36, 37, 38, 39, 40, 41, 42, 43, 44, 45,
        46, 47,
    ];
    let base_structured = NtpHeader::deserialize(&base);

    for leap_type in 0..3 {
        for mode in 0..8 {
            for version in 0..8 {
                let mut header = base_structured;
                header.leap = NtpLeapIndicator::from_bits(leap_type);
                header.mode = NtpAssociationMode::from_bits(mode);
                header.version = version;

                let data = header.serialize();
                let copy = NtpHeader::deserialize(&data);
                assert_eq!(header, copy);
            }
        }
    }

    for i in 0..=0xFF {
        let mut packet = base;
        packet[0] = i;
        let a = NtpHeader::deserialize(&packet);
        let b = a.serialize();
        assert_eq!(packet, b);
    }
}

#[test]
fn new_header_is_an_empty_version_four_client_packet() {
    let header = NtpHeader::new();
    assert_eq!(header.version(), 4);
    assert_eq!(header.mode, NtpAssociationMode::Client);
    assert_eq!(header.leap, NtpLeapIndicator::NoWarning);
    assert_eq!(header.stratum, 0);
    assert_eq!(header, NtpHeader::default());
    let mut expected = [0u8; 48];
    expected[0] = 0x23;
    assert_eq!(header.serialize(), expected);
}

#[test]
fn with_version_takes_three_bits_only() {
    let header = NtpHeader::new();
    for version in 0..8u8 {
        assert_eq!(header.with_version(version).unwrap().version(), version);
    }
    for version in 8..=255u8 {
        assert_eq!(header.with_version(version), None);
    }
}

#[test]
fn parse_rejects_short_datagrams_and_ignores_a_suffix() {
    let mut long = Vec::new();
    for i in 0..60u8 {
        long.push(i);
    }
    assert_eq!(NtpHeader::parse(&long[..47]), None);
    assert_eq!(NtpHeader::parse(&[]), None);
    let mut exact = [0u8; 48];
    exact.copy_from_slice(&long[..48]);
    assert_eq!(NtpHeader::parse(&long[..48]), Some(NtpHeader::deserialize(&exact)));
    assert_eq!(NtpHeader::parse(&long), Some(NtpHeader::deserialize(&exact)));
}

#[test]
fn every_first_byte_round_trips_with_full_fields() {
    let mut packet = [0xffu8; 48];
    for first in 0..=255u8 {
        packet[0] = first;
        let header = NtpHeader::deserialize(&packet);
        assert!(header.version() < 8);
        assert_eq!(header.poll, -1);
        assert_eq!(header.precision, -1);
        assert_eq!(header.reference_id, 0xffff_ffff);
        assert_eq!(header.root_delay, NtpDuration::from_fixed_int(0xffff_ffff_0000));
        assert_eq!(header.transmit_timestamp, NtpTimestamp::from_fixed_int(u64::MAX));
        assert_eq!(header.serialize(), packet);
    }
}

#[test]
fn kiss_codes_are_told_apart_by_the_reference_id() {
    let mut header = NtpHeader::new();
    header.mode = NtpAssociationMode::Server;
    header.reference_id = u32::from_be_bytes(*b"DENY");
    assert_eq!(header.reference_id, KISS_DENY);
    assert!(header.is_kiss() && header.is_kiss_deny());
    assert!(!header.is_kiss_rstr() && !header.is_kiss_rate());
    header.reference_id = u32::from_be_bytes(*b"RSTR");
    assert_eq!(header.reference_id, KISS_RSTR);
    assert!(header.is_kiss_rstr() && !header.is_kiss_deny() && !header.is_kiss_rate());
    header.reference_id = u32::from_be_bytes(*b"RATE");
    assert_eq!(header.reference_id, KISS_RATE);
    assert!(header.is_kiss_rate() && !header.is_kiss_deny() && !header.is_kiss_rstr());
    header.stratum = 1;
    assert!(!header.is_kiss() && !header.is_kiss_rate());
    header.reference_id = KISS_DENY;
    assert!(!header.is_kiss_deny());
}

#[test]
fn short_format_saturates_out_of_range_spans() {
    assert_eq!(NtpDuration::from_fixed_int(-1).to_bits_short(), [0, 0, 0, 0]);
    assert_eq!(NtpDuration::from_fixed_int(i64::MAX).to_bits_short(), [0xff, 0xff, 0xff, 0xff]);
    assert_eq!(NtpDuration::from_fixed_int(0x1_0000).to_bits_short(), [0, 0, 0, 1]);
    assert_eq!(NtpDuration::from_fixed_int(0xffff).to_bits_short(), [0, 0, 0, 0]);
    assert_eq!(NtpDuration::from_bits_short([0, 1, 0, 0]), NtpDuration::from_fixed_int(1 << 32));
}
