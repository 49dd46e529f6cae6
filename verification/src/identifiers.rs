//! Names for peers, pools, reference clocks and clock resets.

use crate::bytes::{be_int_u32, u32_from_be};
use vstd::prelude::*;

verus! {

/// The 32-bit name of a time source as the protocol carries it.
#[derive(Debug, Copy, Clone, PartialEq, Eq, Structural, Hash)]
pub struct ReferenceId {
    pub id: u32,
}

impl ReferenceId {
    pub fn from_int(id: u32) -> (r: ReferenceId)
        ensures
            r.id == id,
    {
        ReferenceId { id }
    }

    pub fn to_int(self) -> (r: u32)
        ensures
            r == self.id,
    {
        self.id
    }

    /// The name of a source at an IPv4 address: its four octets.
    pub fn from_ipv4(octets: [u8; 4]) -> (r: ReferenceId)
        ensures
            r.id == be_int_u32(octets@),
    {
        ReferenceId { id: u32_from_be(octets) }
    }

    /// The name of a source at an IPv6 address: its first four octets.
    pub fn from_ipv6(octets: [u8; 16]) -> (r: ReferenceId)
        ensures
            r.id == be_int_u32(octets@.subrange(0, 4)),
    {
        let head = [octets[0], octets[1], octets[2], octets[3]];
        assert(head@ =~= octets@.subrange(0, 4));
        ReferenceId { id: u32_from_be(head) }
    }
}

/// The name of one association for as long as the process lives.
#[derive(Debug, Copy, Clone, PartialEq, Eq, Structural, Hash)]
pub struct PeerIndex {
    pub index: usize,
}

impl PeerIndex {
    pub fn from_inner(index: usize) -> (r: PeerIndex)
        ensures
            r.index == index,
    {
        PeerIndex { index }
    }
}

/// Hands out peer names, each once.
#[derive(Debug)]
pub struct PeerIndexIssuer {
    pub next: usize,
}

impl PeerIndexIssuer {
    pub fn new() -> (r: PeerIndexIssuer)
        ensures
            r.next == 0,
    {
        PeerIndexIssuer { next: 0 }
    }

    /// The next unused name; `None` once every name has been given out.
    /// Each name is larger than all given out before it.
    pub fn get(&mut self) -> (r: Option<PeerIndex>)
        ensures
            old(self).next < usize::MAX ==> r == Some(PeerIndex { index: old(self).next })
                && final(self).next == old(self).next + 1,
            old(self).next == usize::MAX ==> r is None && final(self).next == old(self).next,
    {
        if self.next == usize::MAX {
            None
        } else {
            let index = self.next;
            self.next = self.next + 1;
            Some(PeerIndex { index })
        }
    }
}

impl Default for PeerIndexIssuer {
    fn default() -> (r: PeerIndexIssuer)
        ensures
            r.next == 0,
    {
        PeerIndexIssuer { next: 0 }
    }
}

/// The name of one pool, apart from its host name: two pools of one host
/// name stay two pools.
#[derive(Debug, Copy, Clone, PartialEq, Eq, Structural, Hash)]
pub struct PoolIndex {
    pub index: usize,
}

/// Hands out pool names, each once.
#[derive(Debug)]
pub struct PoolIndexIssuer {
    pub next: usize,
}

impl PoolIndexIssuer {
    pub fn new() -> (r: PoolIndexIssuer)
        ensures
            r.next == 0,
    {
        PoolIndexIssuer { next: 0 }
    }

    /// The next unused name; `None` once every name has been given out.
    pub fn get(&mut self) -> (r: Option<PoolIndex>)
        ensures
            old(self).next < usize::MAX ==> r == Some(PoolIndex { index: old(self).next })
                && final(self).next == old(self).next + 1,
            old(self).next == usize::MAX ==> r is None && final(self).next == old(self).next,
    {
        if self.next == usize::MAX {
            None
        } else {
            let index = self.next;
            self.next = self.next + 1;
            Some(PoolIndex { index })
        }
    }
}

impl Default for PoolIndexIssuer {
    fn default() -> (r: PoolIndexIssuer)
        ensures
            r.next == 0,
    {
        PoolIndexIssuer { next: 0 }
    }
}

/// Counts the steps of the clock. What was measured before a step says
/// nothing about the clock after it, and is told apart by this number.
#[derive(Debug, Copy, Clone, PartialEq, Eq, Structural, Hash)]
pub struct ResetEpoch {
    pub epoch: u64,
}

impl ResetEpoch {
    pub fn new() -> (r: ResetEpoch)
        ensures
            r.epoch == 0,
    {
        ResetEpoch { epoch: 0 }
    }

    pub open spec fn spec_inc(self) -> ResetEpoch {
        ResetEpoch {
            epoch: if self.epoch == u64::MAX {
                0
            } else {
                (self.epoch + 1) as u64
            },
        }
    }

    /// The epoch after one more step. It differs from the one before, and
    /// is larger unless the counter has run through all of its range.
    pub fn inc(self) -> (r: ResetEpoch)
        ensures
            r == self.spec_inc(),
            r != self,
            self.epoch < u64::MAX ==> r.epoch > self.epoch,
    {
        ResetEpoch { epoch: self.epoch.wrapping_add(1) }
    }
}

impl Default for ResetEpoch {
    fn default() -> (r: ResetEpoch)
        ensures
            r.epoch == 0,
    {
        ResetEpoch { epoch: 0 }
    }
}

} // verus!
