//! Integers to and from bytes in network order.

use vstd::prelude::*;

verus! {

/// The four bytes of `x`, most significant first.
pub open spec fn be_seq_u32(x: int) -> Seq<u8> {
    seq![
        (x / 0x100_0000) as u8,
        ((x / 0x1_0000) % 0x100) as u8,
        ((x / 0x100) % 0x100) as u8,
        (x % 0x100) as u8,
    ]
}

/// The eight bytes of `x`, most significant first.
pub open spec fn be_seq_u64(x: int) -> Seq<u8> {
    be_seq_u32(x / 0x1_0000_0000) + be_seq_u32(x % 0x1_0000_0000)
}

/// The number that the first four bytes of `s` spell.
pub open spec fn be_int_u32(s: Seq<u8>) -> int
    recommends
        s.len() >= 4,
{
    s[0] as int * 0x100_0000 + s[1] as int * 0x1_0000 + s[2] as int * 0x100 + s[3] as int
}

/// The number that the first eight bytes of `s` spell.
pub open spec fn be_int_u64(s: Seq<u8>) -> int
    recommends
        s.len() >= 8,
{
    be_int_u32(s) * 0x1_0000_0000 + be_int_u32(s.subrange(4, 8))
}

/// Splitting a 32-bit number into bytes and joining them again gives the
/// number back.
pub proof fn lemma_u32_bytes_roundtrip(x: u32)
    ensures
        be_seq_u32(x as int).len() == 4,
        be_int_u32(be_seq_u32(x as int)) == x,
{
}

/// Joining four bytes and splitting the number again gives the bytes back.
pub proof fn lemma_bytes_u32_roundtrip(s: Seq<u8>)
    requires
        s.len() == 4,
    ensures
        0 <= be_int_u32(s) <= u32::MAX,
        be_seq_u32(be_int_u32(s)) == s,
{
    assert(be_seq_u32(be_int_u32(s)) =~= s);
}

/// Splitting a 64-bit number into bytes and joining them again gives the
/// number back.
pub proof fn lemma_u64_bytes_roundtrip(x: u64)
    ensures
        be_seq_u64(x as int).len() == 8,
        be_int_u64(be_seq_u64(x as int)) == x,
{
    let high = x as int / 0x1_0000_0000;
    let low = x as int % 0x1_0000_0000;
    let s = be_seq_u64(x as int);
    assert(s.subrange(4, 8) =~= be_seq_u32(low));
    assert(be_int_u32(s) == be_int_u32(be_seq_u32(high)));
    lemma_u32_bytes_roundtrip(high as u32);
    lemma_u32_bytes_roundtrip(low as u32);
}

/// Joining eight bytes and splitting the number again gives the bytes back.
pub proof fn lemma_bytes_u64_roundtrip(s: Seq<u8>)
    requires
        s.len() == 8,
    ensures
        0 <= be_int_u64(s) <= u64::MAX,
        be_seq_u64(be_int_u64(s)) == s,
{
    let head = s.subrange(0, 4);
    let tail = s.subrange(4, 8);
    lemma_bytes_u32_roundtrip(head);
    lemma_bytes_u32_roundtrip(tail);
    assert(be_int_u32(s) == be_int_u32(head));
    let x = be_int_u64(s);
    assert(x / 0x1_0000_0000 == be_int_u32(head));
    assert(x % 0x1_0000_0000 == be_int_u32(tail));
    assert(be_seq_u64(x) =~= head + tail);
    assert(head + tail =~= s);
}

pub fn u32_to_be(x: u32) -> (r: [u8; 4])
    ensures
        r@ == be_seq_u32(x as int),
{
    let r = [
        (x / 0x100_0000) as u8,
        ((x / 0x1_0000) % 0x100) as u8,
        ((x / 0x100) % 0x100) as u8,
        (x % 0x100) as u8,
    ];
    assert(r@ =~= be_seq_u32(x as int));
    r
}

pub fn u32_from_be(b: [u8; 4]) -> (r: u32)
    ensures
        r == be_int_u32(b@),
{
    (b[0] as u32) * 0x100_0000 + (b[1] as u32) * 0x1_0000 + (b[2] as u32) * 0x100 + (b[3] as u32)
}

pub fn u64_to_be(x: u64) -> (r: [u8; 8])
    ensures
        r@ == be_seq_u64(x as int),
{
    let high = u32_to_be((x / 0x1_0000_0000) as u32);
    let low = u32_to_be((x % 0x1_0000_0000) as u32);
    let r = [high[0], high[1], high[2], high[3], low[0], low[1], low[2], low[3]];
    assert(r@ =~= be_seq_u64(x as int));
    r
}

pub fn u64_from_be(b: [u8; 8]) -> (r: u64)
    ensures
        r == be_int_u64(b@),
{
    let high: u64 = (b[0] as u64) * 0x100_0000 + (b[1] as u64) * 0x1_0000 + (b[2] as u64) * 0x100
        + (b[3] as u64);
    let low: u64 = (b[4] as u64) * 0x100_0000 + (b[5] as u64) * 0x1_0000 + (b[6] as u64) * 0x100
        + (b[7] as u64);
    assert(b@.subrange(4, 8)[0] == b@[4]);
    assert(b@.subrange(4, 8)[1] == b@[5]);
    assert(b@.subrange(4, 8)[2] == b@[6]);
    assert(b@.subrange(4, 8)[3] == b@[7]);
    high * 0x1_0000_0000 + low
}

} // verus!
