//! The reach register: which of the last eight polls were answered.

use vstd::prelude::*;

verus! {

/// Eight bits, one per poll, the most recent poll in bit 0. A set bit
/// says that the poll was answered.
#[derive(Debug, Copy, Clone, PartialEq, Eq, Structural, Hash)]
pub struct Reach {
    pub bits: u8,
}

/// Whether bit `i` of `bits` is set; no bit beyond the eighth is.
pub open spec fn bit(bits: u8, i: u8) -> bool {
    i < 8 && (bits >> i) & 1 == 1
}

/// The register one poll later.
pub open spec fn shifted(bits: u8) -> u8 {
    bits << 1
}

/// The register after an answer.
pub open spec fn marked(bits: u8) -> u8 {
    bits | 1
}

/// The register after `n` polls that nobody answered.
pub open spec fn after_polls(bits: u8, n: nat) -> u8
    decreases n,
{
    if n == 0 {
        bits
    } else {
        shifted(after_polls(bits, (n - 1) as nat))
    }
}

impl Reach {
    /// A register with no poll answered.
    pub fn new() -> (r: Reach)
        ensures
            r.bits == 0,
    {
        Reach { bits: 0 }
    }

    pub open spec fn spec_is_reachable(&self) -> bool {
        self.bits != 0
    }

    /// Whether any of the last eight polls was answered.
    pub fn is_reachable(&self) -> (r: bool)
        ensures
            r == self.spec_is_reachable(),
    {
        self.bits != 0
    }

    /// Notes that an answer to the latest poll has come.
    pub fn received_packet(&mut self)
        ensures
            final(self).bits == marked(old(self).bits),
            final(self).bits == if old(self).bits % 2 == 1 {
                old(self).bits
            } else {
                (old(self).bits + 1) as u8
            },
            final(self).spec_is_reachable(),
            bit(final(self).bits, 0),
    {
        let before = self.bits;
        self.bits = self.bits | 1;
        assert(before | 1 != 0 && (((before | 1) >> 0u8) & 1 == 1)) by (bit_vector);
        assert(before | 1 == if before % 2 == 1 {
            before
        } else {
            (before + 1) as u8
        }) by (bit_vector);
    }

    /// Notes that a poll has gone out.
    pub fn poll(&mut self)
        ensures
            final(self).bits == shifted(old(self).bits),
            final(self).bits == (old(self).bits * 2) % 256,
            final(self).bits == after_polls(old(self).bits, 1),
    {
        let before = self.bits;
        self.bits = self.bits << 1;
        assert(after_polls(old(self).bits, 1) == shifted(after_polls(old(self).bits, 0)));
        assert(before << 1 == (before * 2) % 256) by (bit_vector);
    }

    pub fn as_byte(&self) -> (r: u8)
        ensures
            r == self.bits,
    {
        self.bits
    }
}

impl Default for Reach {
    fn default() -> (r: Reach)
        ensures
            r.bits == 0,
    {
        Reach { bits: 0 }
    }
}

proof fn lemma_shift_moves_bits(bits: u8, i: u8, j: u8)
    by (bit_vector)
    requires
        j < 7,
        i == j + 1,
    ensures
        (((bits << 1) >> i) & 1 == 1) == ((bits >> j) & 1 == 1),
        ((bits << 1) >> 0u8) & 1 == 0,
{
}

proof fn lemma_mark_keeps_bits(bits: u8, i: u8)
    by (bit_vector)
    ensures
        (i < 8 && ((bits | 1) >> i) & 1 == 1) == (i == 0 || (i < 8 && (bits >> i) & 1 == 1)),
{
}

/// An answer sets bit 0 and leaves every other bit as it was, whatever the
/// register held.
pub proof fn lemma_answer_sets_low_bit(bits: u8, i: u8)
    ensures
        bit(marked(bits), i) == (i == 0 || bit(bits, i)),
        marked(bits) != 0,
{
    lemma_mark_keeps_bits(bits, i);
    assert(bits | 1 != 0) by (bit_vector);
}

/// After `n` polls without an answer the `n` lowest bits are clear, and
/// every higher bit holds what stood `n` places below it before: nothing
/// but the `n` low bits has been cleared.
pub proof fn lemma_unanswered_polls(bits: u8, n: nat, i: u8)
    requires
        i < 8,
    ensures
        bit(after_polls(bits, n), i) == (n <= i && bit(bits, (i - n) as u8)),
    decreases n,
{
    if n > 0 {
        let before = after_polls(bits, (n - 1) as nat);
        if 1 <= i && i < 8 {
            let j = (i - 1) as u8;
            lemma_shift_moves_bits(before, i, j);
            lemma_unanswered_polls(bits, (n - 1) as nat, j);
        } else {
            lemma_shift_moves_bits(before, 1, 0);
        }
    }
}

/// Eight polls without an answer leave the register empty.
pub proof fn lemma_eight_polls_clear(bits: u8)
    ensures
        after_polls(bits, 8) == 0,
{
    reveal_with_fuel(after_polls, 9);
    let b = bits;
    assert((((((((b << 1) << 1) << 1) << 1) << 1) << 1) << 1) << 1 == 0u8) by (bit_vector);
}

} // verus!
