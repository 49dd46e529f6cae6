//! The 48-byte NTPv4 header and its wire format.

use crate::bytes::{
    be_int_u32, be_int_u64, be_seq_u32, be_seq_u64, lemma_bytes_u32_roundtrip,
    lemma_bytes_u64_roundtrip, lemma_u32_bytes_roundtrip, lemma_u64_bytes_roundtrip, u32_from_be,
    u32_to_be,
};
use crate::time_types::{NtpDuration, NtpTimestamp};
use vstd::prelude::*;

verus! {

/// Length of the header on the wire.
pub const HEADER_LENGTH: usize = 48;

/// Reference id of a kiss packet that tells the client to stop: "DENY".
pub const KISS_DENY: u32 = 0x44454E59;

/// Reference id of a kiss packet that tells the client to stop: "RSTR".
pub const KISS_RSTR: u32 = 0x52535452;

/// Reference id of a kiss packet that asks for slower polling: "RATE".
pub const KISS_RATE: u32 = 0x52415445;

#[derive(Debug, Copy, Clone, PartialEq, Eq, Structural)]
pub enum NtpLeapIndicator {
    NoWarning,
    Leap61,
    Leap59,
    Unknown,
}

impl NtpLeapIndicator {
    pub open spec fn spec_from_bits(bits: int) -> NtpLeapIndicator {
        if bits == 0 {
            NtpLeapIndicator::NoWarning
        } else if bits == 1 {
            NtpLeapIndicator::Leap61
        } else if bits == 2 {
            NtpLeapIndicator::Leap59
        } else {
            NtpLeapIndicator::Unknown
        }
    }

    pub open spec fn spec_to_bits(self) -> int {
        match self {
            NtpLeapIndicator::NoWarning => 0,
            NtpLeapIndicator::Leap61 => 1,
            NtpLeapIndicator::Leap59 => 2,
            NtpLeapIndicator::Unknown => 3,
        }
    }

    /// The indicator that a two-bit value stands for.
    pub fn from_bits(bits: u8) -> (r: NtpLeapIndicator)
        requires
            bits < 4,
        ensures
            r == Self::spec_from_bits(bits as int),
            r.spec_to_bits() == bits,
    {
        if bits == 0 {
            NtpLeapIndicator::NoWarning
        } else if bits == 1 {
            NtpLeapIndicator::Leap61
        } else if bits == 2 {
            NtpLeapIndicator::Leap59
        } else {
            NtpLeapIndicator::Unknown
        }
    }

    pub fn to_bits(self) -> (r: u8)
        ensures
            r == self.spec_to_bits(),
            r < 4,
            Self::spec_from_bits(r as int) == self,
    {
        match self {
            NtpLeapIndicator::NoWarning => 0,
            NtpLeapIndicator::Leap61 => 1,
            NtpLeapIndicator::Leap59 => 2,
            NtpLeapIndicator::Unknown => 3,
        }
    }
}

#[derive(Debug, Copy, Clone, PartialEq, Eq, Structural)]
pub enum NtpAssociationMode {
    Reserved,
    SymmetricActive,
    SymmetricPassive,
    Client,
    Server,
    Broadcast,
    Control,
    Private,
}

impl NtpAssociationMode {
    pub open spec fn spec_from_bits(bits: int) -> NtpAssociationMode {
        if bits == 0 {
            NtpAssociationMode::Reserved
        } else if bits == 1 {
            NtpAssociationMode::SymmetricActive
        } else if bits == 2 {
            NtpAssociationMode::SymmetricPassive
        } else if bits == 3 {
            NtpAssociationMode::Client
        } else if bits == 4 {
            NtpAssociationMode::Server
        } else if bits == 5 {
            NtpAssociationMode::Broadcast
        } else if bits == 6 {
            NtpAssociationMode::Control
        } else {
            NtpAssociationMode::Private
        }
    }

    pub open spec fn spec_to_bits(self) -> int {
        match self {
            NtpAssociationMode::Reserved => 0,
            NtpAssociationMode::SymmetricActive => 1,
            NtpAssociationMode::SymmetricPassive => 2,
            NtpAssociationMode::Client => 3,
            NtpAssociationMode::Server => 4,
            NtpAssociationMode::Broadcast => 5,
            NtpAssociationMode::Control => 6,
            NtpAssociationMode::Private => 7,
        }
    }

    /// The mode that a three-bit value stands for.
    pub fn from_bits(bits: u8) -> (r: NtpAssociationMode)
        requires
            bits < 8,
        ensures
            r == Self::spec_from_bits(bits as int),
            r.spec_to_bits() == bits,
    {
        if bits == 0 {
            NtpAssociationMode::Reserved
        } else if bits == 1 {
            NtpAssociationMode::SymmetricActive
        } else if bits == 2 {
            NtpAssociationMode::SymmetricPassive
        } else if bits == 3 {
            NtpAssociationMode::Client
        } else if bits == 4 {
            NtpAssociationMode::Server
        } else if bits == 5 {
            NtpAssociationMode::Broadcast
        } else if bits == 6 {
            NtpAssociationMode::Control
        } else {
            NtpAssociationMode::Private
        }
    }

    pub fn to_bits(self) -> (r: u8)
        ensures
            r == self.spec_to_bits(),
            r < 8,
            Self::spec_from_bits(r as int) == self,
    {
        match self {
            NtpAssociationMode::Reserved => 0,
            NtpAssociationMode::SymmetricActive => 1,
            NtpAssociationMode::SymmetricPassive => 2,
            NtpAssociationMode::Client => 3,
            NtpAssociationMode::Server => 4,
            NtpAssociationMode::Broadcast => 5,
            NtpAssociationMode::Control => 6,
            NtpAssociationMode::Private => 7,
        }
    }
}

/// The signed value of a byte read as two's complement.
pub open spec fn signed_byte(b: u8) -> i8 {
    if b >= 128 {
        (b - 256) as i8
    } else {
        b as i8
    }
}

/// The byte that holds a signed value as two's complement.
pub open spec fn unsigned_byte(v: i8) -> u8 {
    if v < 0 {
        (v + 256) as u8
    } else {
        v as u8
    }
}

fn byte_to_signed(b: u8) -> (r: i8)
    ensures
        r == signed_byte(b),
        unsigned_byte(r) == b,
{
    if b >= 128 {
        ((b as i16) - 256) as i8
    } else {
        b as i8
    }
}

fn signed_to_byte(v: i8) -> (r: u8)
    ensures
        r == unsigned_byte(v),
        signed_byte(r) == v,
{
    if v < 0 {
        ((v as i16) + 256) as u8
    } else {
        v as u8
    }
}

fn four_bytes(data: &[u8; 48], at: usize) -> (r: [u8; 4])
    requires
        at + 4 <= 48,
    ensures
        r@ == data@.subrange(at as int, at + 4),
{
    let r = [data[at], data[at + 1], data[at + 2], data[at + 3]];
    assert(r@ =~= data@.subrange(at as int, at + 4));
    r
}

fn eight_bytes(data: &[u8; 48], at: usize) -> (r: [u8; 8])
    requires
        at + 8 <= 48,
    ensures
        r@ == data@.subrange(at as int, at + 8),
{
    let r = [
        data[at],
        data[at + 1],
        data[at + 2],
        data[at + 3],
        data[at + 4],
        data[at + 5],
        data[at + 6],
        data[at + 7],
    ];
    assert(r@ =~= data@.subrange(at as int, at + 8));
    r
}

#[derive(Debug, Copy, Clone, PartialEq, Eq, Structural)]
pub struct NtpHeader {
    pub leap: NtpLeapIndicator,
    pub version: u8,
    pub mode: NtpAssociationMode,
    pub stratum: u8,
    pub poll: i8,
    pub precision: i8,
    pub root_delay: NtpDuration,
    pub root_dispersion: NtpDuration,
    pub reference_id: u32,
    pub reference_timestamp: NtpTimestamp,
    pub origin_timestamp: NtpTimestamp,
    pub receive_timestamp: NtpTimestamp,
    pub transmit_timestamp: NtpTimestamp,
}

impl NtpHeader {
    /// The header of an empty version 4 client packet.
    pub open spec fn spec_new() -> NtpHeader {
        NtpHeader {
            leap: NtpLeapIndicator::NoWarning,
            version: 4,
            mode: NtpAssociationMode::Client,
            stratum: 0,
            poll: 0,
            precision: 0,
            root_delay: NtpDuration { duration: 0 },
            root_dispersion: NtpDuration { duration: 0 },
            reference_id: 0,
            reference_timestamp: NtpTimestamp { timestamp: 0 },
            origin_timestamp: NtpTimestamp { timestamp: 0 },
            receive_timestamp: NtpTimestamp { timestamp: 0 },
            transmit_timestamp: NtpTimestamp { timestamp: 0 },
        }
    }

    /// A new, empty header.
    pub fn new() -> (r: NtpHeader)
        ensures
            r == Self::spec_new(),
    {
        NtpHeader {
            leap: NtpLeapIndicator::NoWarning,
            version: 4,
            mode: NtpAssociationMode::Client,
            stratum: 0,
            poll: 0,
            precision: 0,
            root_delay: NtpDuration::zero(),
            root_dispersion: NtpDuration::zero(),
            reference_id: 0,
            reference_timestamp: NtpTimestamp::from_fixed_int(0),
            origin_timestamp: NtpTimestamp::from_fixed_int(0),
            receive_timestamp: NtpTimestamp::from_fixed_int(0),
            transmit_timestamp: NtpTimestamp::from_fixed_int(0),
        }
    }

    pub fn version(&self) -> (r: u8)
        ensures
            r == self.version,
    {
        self.version
    }

    /// The header with another protocol version, where three bits can
    /// hold it.
    pub fn with_version(self, version: u8) -> (r: Option<NtpHeader>)
        ensures
            version < 8 ==> r == Some(NtpHeader { version, ..self }),
            version >= 8 ==> r is None,
    {
        if version < 8 {
            Some(NtpHeader { version, ..self })
        } else {
            None
        }
    }

    /// What the first 48 bytes of `data` say, field by field.
    pub open spec fn spec_deserialize(data: Seq<u8>) -> NtpHeader
        recommends
            data.len() >= 48,
    {
        NtpHeader {
            leap: NtpLeapIndicator::spec_from_bits(data[0] as int / 64),
            version: ((data[0] as int / 8) % 8) as u8,
            mode: NtpAssociationMode::spec_from_bits(data[0] as int % 8),
            stratum: data[1],
            poll: signed_byte(data[2]),
            precision: signed_byte(data[3]),
            root_delay: NtpDuration::spec_from_bits_short(data.subrange(4, 8)),
            root_dispersion: NtpDuration::spec_from_bits_short(data.subrange(8, 12)),
            reference_id: be_int_u32(data.subrange(12, 16)) as u32,
            reference_timestamp: NtpTimestamp {
                timestamp: be_int_u64(data.subrange(16, 24)) as u64,
            },
            origin_timestamp: NtpTimestamp { timestamp: be_int_u64(data.subrange(24, 32)) as u64 },
            receive_timestamp: NtpTimestamp {
                timestamp: be_int_u64(data.subrange(32, 40)) as u64,
            },
            transmit_timestamp: NtpTimestamp {
                timestamp: be_int_u64(data.subrange(40, 48)) as u64,
            },
        }
    }

    /// Reads a header from its 48 bytes.
    pub fn deserialize(data: &[u8; 48]) -> (r: NtpHeader)
        ensures
            r == Self::spec_deserialize(data@),
            r.version < 8,
    {
        NtpHeader {
            leap: NtpLeapIndicator::from_bits(data[0] / 64),
            version: (data[0] / 8) % 8,
            mode: NtpAssociationMode::from_bits(data[0] % 8),
            stratum: data[1],
            poll: byte_to_signed(data[2]),
            precision: byte_to_signed(data[3]),
            root_delay: NtpDuration::from_bits_short(four_bytes(data, 4)),
            root_dispersion: NtpDuration::from_bits_short(four_bytes(data, 8)),
            reference_id: u32_from_be(four_bytes(data, 12)),
            reference_timestamp: NtpTimestamp::from_bits(eight_bytes(data, 16)),
            origin_timestamp: NtpTimestamp::from_bits(eight_bytes(data, 24)),
            receive_timestamp: NtpTimestamp::from_bits(eight_bytes(data, 32)),
            transmit_timestamp: NtpTimestamp::from_bits(eight_bytes(data, 40)),
        }
    }

    /// Reads a header from a datagram: `None` where it is shorter than a
    /// header, and whatever follows the header is left unread.
    pub fn parse(data: &[u8]) -> (r: Option<NtpHeader>)
        ensures
            data@.len() < 48 ==> r is None,
            data@.len() >= 48 ==> r == Some(Self::spec_deserialize(data@.subrange(0, 48))),
    {
        if data.len() < HEADER_LENGTH {
            return None;
        }
        let mut buf: [u8; 48] = [0u8; 48];
        let mut i: usize = 0;
        while i < 48
            invariant
                0 <= i <= 48,
                data@.len() >= 48,
                forall|j: int| 0 <= j < i ==> buf@[j] == data@[j],
            decreases 48 - i,
        {
            buf[i] = data[i];
            i = i + 1;
        }
        assert(buf@ =~= data@.subrange(0, 48));
        Some(Self::deserialize(&buf))
    }

    /// The first byte on the wire: leap indicator, version and mode.
    pub open spec fn flags_byte(self) -> u8 {
        (self.leap.spec_to_bits() * 64 + (self.version as int % 8) * 8
            + self.mode.spec_to_bits()) as u8
    }

    /// The first four bytes on the wire: flags, stratum, poll and
    /// precision.
    pub open spec fn wire_head(self) -> Seq<u8> {
        seq![
            self.flags_byte(),
            self.stratum,
            unsigned_byte(self.poll),
            unsigned_byte(self.precision),
        ]
    }

    /// The 48 bytes that carry the header.
    pub open spec fn wire(self) -> Seq<u8> {
        self.wire_head() + be_seq_u32(self.root_delay.short_bits()) + be_seq_u32(
            self.root_dispersion.short_bits(),
        ) + be_seq_u32(self.reference_id as int) + be_seq_u64(
            self.reference_timestamp.timestamp as int,
        ) + be_seq_u64(self.origin_timestamp.timestamp as int) + be_seq_u64(
            self.receive_timestamp.timestamp as int,
        ) + be_seq_u64(self.transmit_timestamp.timestamp as int)
    }

    /// Writes the header as its 48 bytes.
    pub fn serialize(&self) -> (r: [u8; 48])
        requires
            self.version < 8,
        ensures
            r@ == self.wire(),
    {
        let root_delay = self.root_delay.to_bits_short();
        let root_dispersion = self.root_dispersion.to_bits_short();
        let reference_id = u32_to_be(self.reference_id);
        let reference_timestamp = self.reference_timestamp.to_bits();
        let origin_timestamp = self.origin_timestamp.to_bits();
        let receive_timestamp = self.receive_timestamp.to_bits();
        let transmit_timestamp = self.transmit_timestamp.to_bits();

        let r = [
            self.leap.to_bits() * 64 + (self.version % 8) * 8 + self.mode.to_bits(),
            self.stratum,
            signed_to_byte(self.poll),
            signed_to_byte(self.precision),
            root_delay[0],
            root_delay[1],
            root_delay[2],
            root_delay[3],
            root_dispersion[0],
            root_dispersion[1],
            root_dispersion[2],
            root_dispersion[3],
            reference_id[0],
            reference_id[1],
            reference_id[2],
            reference_id[3],
            reference_timestamp[0],
            reference_timestamp[1],
            reference_timestamp[2],
            reference_timestamp[3],
            reference_timestamp[4],
            reference_timestamp[5],
            reference_timestamp[6],
            reference_timestamp[7],
            origin_timestamp[0],
            origin_timestamp[1],
            origin_timestamp[2],
            origin_timestamp[3],
            origin_timestamp[4],
            origin_timestamp[5],
            origin_timestamp[6],
            origin_timestamp[7],
            receive_timestamp[0],
            receive_timestamp[1],
            receive_timestamp[2],
            receive_timestamp[3],
            receive_timestamp[4],
            receive_timestamp[5],
            receive_timestamp[6],
            receive_timestamp[7],
            transmit_timestamp[0],
            transmit_timestamp[1],
            transmit_timestamp[2],
            transmit_timestamp[3],
            transmit_timestamp[4],
            transmit_timestamp[5],
            transmit_timestamp[6],
            transmit_timestamp[7],
        ];
        assert(r@ =~= self.wire());
        r
    }

    pub open spec fn spec_is_kiss(&self) -> bool {
        self.stratum == 0
    }

    /// Whether this is a kiss-o'-death packet.
    pub fn is_kiss(&self) -> (r: bool)
        ensures
            r == self.spec_is_kiss(),
    {
        self.stratum == 0
    }

    pub fn is_kiss_deny(&self) -> (r: bool)
        ensures
            r == (self.spec_is_kiss() && self.reference_id == KISS_DENY),
    {
        self.is_kiss() && self.reference_id == KISS_DENY
    }

    pub fn is_kiss_rstr(&self) -> (r: bool)
        ensures
            r == (self.spec_is_kiss() && self.reference_id == KISS_RSTR),
    {
        self.is_kiss() && self.reference_id == KISS_RSTR
    }

    pub fn is_kiss_rate(&self) -> (r: bool)
        ensures
            r == (self.spec_is_kiss() && self.reference_id == KISS_RATE),
    {
        self.is_kiss() && self.reference_id == KISS_RATE
    }
}

impl Default for NtpHeader {
    fn default() -> (r: NtpHeader)
        ensures
            r == NtpHeader::spec_new(),
    {
        NtpHeader::new()
    }
}

proof fn lemma_pieces(data: Seq<u8>)
    requires
        data.len() == 48,
    ensures
        data == data.subrange(0, 4) + data.subrange(4, 8) + data.subrange(8, 12) + data.subrange(
            12,
            16,
        ) + data.subrange(16, 24) + data.subrange(24, 32) + data.subrange(32, 40) + data.subrange(
            40,
            48,
        ),
{
    assert(data =~= data.subrange(0, 4) + data.subrange(4, 8) + data.subrange(8, 12)
        + data.subrange(12, 16) + data.subrange(16, 24) + data.subrange(24, 32) + data.subrange(
        32,
        40,
    ) + data.subrange(40, 48));
}

proof fn lemma_joined(
    a: Seq<u8>,
    b: Seq<u8>,
    c: Seq<u8>,
    d: Seq<u8>,
    e: Seq<u8>,
    f: Seq<u8>,
    g: Seq<u8>,
    h: Seq<u8>,
)
    requires
        a.len() == 4,
        b.len() == 4,
        c.len() == 4,
        d.len() == 4,
        e.len() == 8,
        f.len() == 8,
        g.len() == 8,
        h.len() == 8,
    ensures
        ({
            let w = a + b + c + d + e + f + g + h;
            &&& w.len() == 48
            &&& w.subrange(0, 4) == a
            &&& w.subrange(4, 8) == b
            &&& w.subrange(8, 12) == c
            &&& w.subrange(12, 16) == d
            &&& w.subrange(16, 24) == e
            &&& w.subrange(24, 32) == f
            &&& w.subrange(32, 40) == g
            &&& w.subrange(40, 48) == h
        }),
{
    let w = a + b + c + d + e + f + g + h;
    assert(w.subrange(0, 4) =~= a);
    assert(w.subrange(4, 8) =~= b);
    assert(w.subrange(8, 12) =~= c);
    assert(w.subrange(12, 16) =~= d);
    assert(w.subrange(16, 24) =~= e);
    assert(w.subrange(24, 32) =~= f);
    assert(w.subrange(32, 40) =~= g);
    assert(w.subrange(40, 48) =~= h);
}

#[verifier::rlimit(50)]
proof fn lemma_head_roundtrip(data: Seq<u8>)
    requires
        data.len() == 48,
    ensures
        NtpHeader::spec_deserialize(data).version < 8,
        NtpHeader::spec_deserialize(data).wire_head() == data.subrange(0, 4),
{
    let h = NtpHeader::spec_deserialize(data);
    let b = data[0] as int;
    assert(h.leap.spec_to_bits() == b / 64);
    assert(h.mode.spec_to_bits() == b % 8);
    assert(h.flags_byte() == data[0]);
    assert(unsigned_byte(h.poll) == data[2]);
    assert(unsigned_byte(h.precision) == data[3]);
    assert(h.wire_head() =~= data.subrange(0, 4));
}

/// Reading 48 bytes as a header and writing the header out again gives the
/// same 48 bytes; the version read from three bits is always below 8.
#[verifier::rlimit(50)]
pub proof fn lemma_wire_roundtrip(data: Seq<u8>)
    requires
        data.len() == 48,
    ensures
        NtpHeader::spec_deserialize(data).version < 8,
        NtpHeader::spec_deserialize(data).wire() == data,
{
    let h = NtpHeader::spec_deserialize(data);
    lemma_head_roundtrip(data);
    lemma_bytes_u32_roundtrip(data.subrange(4, 8));
    lemma_bytes_u32_roundtrip(data.subrange(8, 12));
    lemma_bytes_u32_roundtrip(data.subrange(12, 16));
    lemma_bytes_u64_roundtrip(data.subrange(16, 24));
    lemma_bytes_u64_roundtrip(data.subrange(24, 32));
    lemma_bytes_u64_roundtrip(data.subrange(32, 40));
    lemma_bytes_u64_roundtrip(data.subrange(40, 48));
    assert(h.root_delay.short_bits() == be_int_u32(data.subrange(4, 8)));
    assert(h.root_dispersion.short_bits() == be_int_u32(data.subrange(8, 12)));
    lemma_pieces(data);
}

/// Whether the wire format can carry every field of the header exactly.
pub open spec fn representable(h: NtpHeader) -> bool {
    &&& h.version < 8
    &&& 0 <= h.root_delay.duration <= 0xffff_ffff_0000
    &&& h.root_delay.duration % 0x1_0000 == 0
    &&& 0 <= h.root_dispersion.duration <= 0xffff_ffff_0000
    &&& h.root_dispersion.duration % 0x1_0000 == 0
}

#[verifier::rlimit(50)]
proof fn lemma_head_fields(h: NtpHeader, w: Seq<u8>)
    requires
        h.version < 8,
        w.len() >= 48,
        w.subrange(0, 4) == h.wire_head(),
    ensures
        NtpHeader::spec_deserialize(w).leap == h.leap,
        NtpHeader::spec_deserialize(w).version == h.version,
        NtpHeader::spec_deserialize(w).mode == h.mode,
        NtpHeader::spec_deserialize(w).stratum == h.stratum,
        NtpHeader::spec_deserialize(w).poll == h.poll,
        NtpHeader::spec_deserialize(w).precision == h.precision,
{
    let head = w.subrange(0, 4);
    assert(w[0] == head[0]);
    assert(w[1] == head[1]);
    assert(w[2] == head[2]);
    assert(w[3] == head[3]);
    let l = h.leap.spec_to_bits();
    let m = h.mode.spec_to_bits();
    let v = h.version as int;
    let b = l * 64 + v * 8 + m;
    assert(0 <= l < 4 && 0 <= m < 8);
    assert(w[0] as int == b);
    assert(b / 64 == l);
    assert(b % 8 == m);
    assert((b / 8) % 8 == v);
}

proof fn lemma_wire_pieces(h: NtpHeader)
    ensures
        h.wire().len() == 48,
        h.wire().subrange(0, 4) == h.wire_head(),
        h.wire().subrange(4, 8) == be_seq_u32(h.root_delay.short_bits()),
        h.wire().subrange(8, 12) == be_seq_u32(h.root_dispersion.short_bits()),
        h.wire().subrange(12, 16) == be_seq_u32(h.reference_id as int),
        h.wire().subrange(16, 24) == be_seq_u64(h.reference_timestamp.timestamp as int),
        h.wire().subrange(24, 32) == be_seq_u64(h.origin_timestamp.timestamp as int),
        h.wire().subrange(32, 40) == be_seq_u64(h.receive_timestamp.timestamp as int),
        h.wire().subrange(40, 48) == be_seq_u64(h.transmit_timestamp.timestamp as int),
{
    lemma_joined(
        h.wire_head(),
        be_seq_u32(h.root_delay.short_bits()),
        be_seq_u32(h.root_dispersion.short_bits()),
        be_seq_u32(h.reference_id as int),
        be_seq_u64(h.reference_timestamp.timestamp as int),
        be_seq_u64(h.origin_timestamp.timestamp as int),
        be_seq_u64(h.receive_timestamp.timestamp as int),
        be_seq_u64(h.transmit_timestamp.timestamp as int),
    );
}

proof fn lemma_short_field(w: Seq<u8>, at: int, span: NtpDuration)
    requires
        0 <= at,
        at + 4 <= w.len(),
        0 <= span.duration <= 0xffff_ffff_0000,
        span.duration % 0x1_0000 == 0,
        w.subrange(at, at + 4) == be_seq_u32(span.short_bits()),
    ensures
        NtpDuration::spec_from_bits_short(w.subrange(at, at + 4)) == span,
{
    lemma_u32_bytes_roundtrip(span.short_bits() as u32);
}

proof fn lemma_long_field(w: Seq<u8>, at: int, value: u64)
    requires
        0 <= at,
        at + 8 <= w.len(),
        w.subrange(at, at + 8) == be_seq_u64(value as int),
    ensures
        be_int_u64(w.subrange(at, at + 8)) == value,
{
    lemma_u64_bytes_roundtrip(value);
}

proof fn lemma_word_field(w: Seq<u8>, at: int, value: u32)
    requires
        0 <= at,
        at + 4 <= w.len(),
        w.subrange(at, at + 4) == be_seq_u32(value as int),
    ensures
        be_int_u32(w.subrange(at, at + 4)) == value,
{
    lemma_u32_bytes_roundtrip(value);
}

/// Writing a header that the format can carry and reading the bytes back
/// gives the same header.
#[verifier::rlimit(50)]
pub proof fn lemma_header_roundtrip(h: NtpHeader)
    requires
        representable(h),
    ensures
        h.wire().len() == 48,
        NtpHeader::spec_deserialize(h.wire()) == h,
{
    let w = h.wire();
    lemma_wire_pieces(h);
    lemma_head_fields(h, w);
    lemma_short_field(w, 4, h.root_delay);
    lemma_short_field(w, 8, h.root_dispersion);
    lemma_word_field(w, 12, h.reference_id);
    lemma_long_field(w, 16, h.reference_timestamp.timestamp);
    lemma_long_field(w, 24, h.origin_timestamp.timestamp);
    lemma_long_field(w, 32, h.receive_timestamp.timestamp);
    lemma_long_field(w, 40, h.transmit_timestamp.timestamp);
}

} // verus!
