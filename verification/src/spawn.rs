//! From configured names to peers: what to do with the answers of name
//! resolution, and how a pool is kept filled.

use crate::address::{NormalizedAddress, PeerAddress, SocketAddress};
use crate::identifiers::PoolIndex;
use vstd::prelude::*;

verus! {

/// Milliseconds to wait after a failed attempt before the next.
pub const NETWORK_WAIT_PERIOD: u64 = 1000;

/// The longest wait, in milliseconds, between two attempts to fill a
/// pool.
pub const MAX_WAIT_PERIOD: u64 = 60_000;

#[derive(Debug, Clone, PartialEq, Eq)]
pub struct StandardPeerConfig {
    pub addr: NormalizedAddress,
}

#[derive(Debug, Clone, PartialEq, Eq)]
pub struct PoolPeerConfig {
    pub addr: NormalizedAddress,
    pub max_peers: usize,
}

#[derive(Debug, Clone, PartialEq, Eq)]
pub enum PeerConfig {
    Standard(StandardPeerConfig),
    Pool(PoolPeerConfig),
}

/// A request for new peers.
#[derive(Debug, PartialEq, Eq)]
pub enum SpawnConfig {
    Standard { config: StandardPeerConfig },
    Pool {
        index: PoolIndex,
        config: PoolPeerConfig,
        /// The addresses of the pool's members that are running.
        in_use: Vec<SocketAddress>,
    },
}

/// One peer to start.
#[derive(Debug, PartialEq, Eq)]
pub struct SpawnTask {
    pub peer_address: PeerAddress,
    pub address: SocketAddress,
}

/// The addresses of a pool that were resolved and are not yet in use.
#[derive(Debug, PartialEq, Eq)]
pub struct PoolAddresses {
    pub backups: Vec<SocketAddress>,
}

impl PoolAddresses {
    pub fn new() -> (r: PoolAddresses)
        ensures
            r.backups@.len() == 0,
    {
        PoolAddresses { backups: Vec::new() }
    }
}

impl Default for PoolAddresses {
    fn default() -> (r: PoolAddresses)
        ensures
            r.backups@.len() == 0,
    {
        PoolAddresses { backups: Vec::new() }
    }
}

/// What follows the resolution of a single server's name.
#[derive(Debug, PartialEq, Eq)]
pub enum StandardStep {
    /// Start the peer.
    Spawn(SpawnTask),
    /// Resolve again after `wait` milliseconds.
    Retry { wait: u64 },
}

/// What the resolution of a pool's name brought.
#[derive(Debug, PartialEq, Eq)]
pub enum PoolLookup {
    /// Enough addresses were at hand and nothing was asked.
    NotNeeded,
    Resolved(Vec<SocketAddress>),
    Failed,
}

/// What follows one round of filling a pool.
#[derive(Debug, Copy, Clone, PartialEq, Eq, Structural)]
pub enum PoolNext {
    /// The pool is full.
    Done,
    /// Try again after `wait` milliseconds. `underfilled` says that the
    /// addresses at hand did not fill the pool, which is worth a warning;
    /// otherwise resolution itself failed.
    Wait { wait: u64, underfilled: bool, remaining: usize },
}

/// One round of filling a pool: the peers to start and what to do next.
#[derive(Debug, PartialEq, Eq)]
pub struct PoolRound {
    pub tasks: Vec<SpawnTask>,
    pub next: PoolNext,
}

/// The first answer where there is one, or another attempt after the
/// standard wait.
pub open spec fn spec_spawn_standard(
    config: StandardPeerConfig,
    lookup: Option<Seq<SocketAddress>>,
) -> StandardStep {
    match lookup {
        Some(addresses) => if addresses.len() > 0 {
            StandardStep::Spawn(
                SpawnTask {
                    peer_address: PeerAddress::Peer { address: config.addr },
                    address: addresses[0],
                },
            )
        } else {
            StandardStep::Retry { wait: NETWORK_WAIT_PERIOD }
        },
        None => StandardStep::Retry { wait: NETWORK_WAIT_PERIOD },
    }
}

/// Decides what to do with the resolution of a single server's name;
/// `None` stands for a failed resolution.
pub fn spawn_standard(config: &StandardPeerConfig, lookup: &Option<Vec<SocketAddress>>) -> (r:
    StandardStep)
    ensures
        r == spec_spawn_standard(
            *config,
            match *lookup {
                Some(addresses) => Some(addresses@),
                None => None,
            },
        ),
{
    match lookup {
        Some(addresses) => {
            if addresses.len() > 0 {
                StandardStep::Spawn(
                    SpawnTask {
                        peer_address: PeerAddress::Peer { address: config.addr.duplicate() },
                        address: addresses[0],
                    },
                )
            } else {
                StandardStep::Retry { wait: NETWORK_WAIT_PERIOD }
            }
        },
        None => StandardStep::Retry { wait: NETWORK_WAIT_PERIOD },
    }
}

/// How many members a pool of `max_peers` still lacks.
pub open spec fn spec_remaining(max_peers: usize, in_use: nat) -> nat {
    if max_peers >= in_use {
        (max_peers - in_use) as nat
    } else {
        0
    }
}

/// Those of the first `n` of `addresses` that are not among `taken`, in
/// their order.
pub open spec fn without(addresses: Seq<SocketAddress>, taken: Seq<SocketAddress>, n: nat) -> Seq<
    SocketAddress,
>
    decreases n,
{
    if n == 0 {
        Seq::empty()
    } else {
        let before = without(addresses, taken, (n - 1) as nat);
        if taken.contains(addresses[n - 1]) {
            before
        } else {
            before.push(addresses[n - 1])
        }
    }
}

/// The addresses at hand once a round's lookup is taken in.
pub open spec fn spec_backups_after_lookup(
    backups: Seq<SocketAddress>,
    in_use: Seq<SocketAddress>,
    lookup: PoolLookup,
) -> Seq<SocketAddress> {
    match lookup {
        PoolLookup::Resolved(addresses) => without(addresses@, in_use, addresses@.len()),
        _ => backups,
    }
}

/// How many peers a round starts.
pub open spec fn spec_taken(backups: Seq<SocketAddress>, remaining: nat) -> nat {
    if backups.len() <= remaining {
        backups.len()
    } else {
        remaining
    }
}

/// The addresses that a round takes from `backups`, the last first.
pub open spec fn spec_popped(backups: Seq<SocketAddress>, count: nat) -> Seq<SocketAddress> {
    Seq::new(count, |i: int| backups[backups.len() - 1 - i])
}

/// The wait after a round that left the pool short: twice the one
/// before, and at most the longest.
pub open spec fn spec_next_wait(wait: u64) -> u64 {
    if 2 * wait > MAX_WAIT_PERIOD {
        MAX_WAIT_PERIOD
    } else {
        (2 * wait) as u64
    }
}

/// The filling of one pool, from one round to the next.
#[derive(Debug, PartialEq, Eq)]
pub struct PoolFill {
    pub pool_index: PoolIndex,
    pub config: PoolPeerConfig,
    /// The addresses of the pool's members: those that were running at
    /// the start and those started since.
    pub in_use: Vec<SocketAddress>,
    /// The wait, in milliseconds, that the next miss starts from.
    pub wait_period: u64,
}

fn holds(addresses: &Vec<SocketAddress>, wanted: SocketAddress) -> (r: bool)
    ensures
        r == addresses@.contains(wanted),
{
    let mut i: usize = 0;
    while i < addresses.len()
        invariant
            0 <= i <= addresses@.len(),
            forall|j: int| 0 <= j < i ==> addresses@[j] != wanted,
        decreases addresses@.len() - i,
    {
        if addresses[i] == wanted {
            return true;
        }
        i = i + 1;
    }
    false
}

impl PoolFill {
    pub fn new(pool_index: PoolIndex, config: PoolPeerConfig, in_use: Vec<SocketAddress>) -> (r:
        PoolFill)
        ensures
            r.pool_index == pool_index,
            r.config == config,
            r.in_use == in_use,
            r.wait_period == NETWORK_WAIT_PERIOD,
    {
        PoolFill { pool_index, config, in_use, wait_period: NETWORK_WAIT_PERIOD }
    }

    pub open spec fn remaining_spec(&self) -> nat {
        spec_remaining(self.config.max_peers, self.in_use@.len())
    }

    /// How many members the pool still lacks.
    pub fn remaining(&self) -> (r: usize)
        ensures
            r == self.remaining_spec(),
    {
        if self.config.max_peers >= self.in_use.len() {
            self.config.max_peers - self.in_use.len()
        } else {
            0
        }
    }

    /// Whether the addresses at hand are too few to fill the pool, so
    /// that its name must be resolved again.
    pub fn needs_lookup(&self, pool: &PoolAddresses) -> (r: bool)
        ensures
            r == (pool.backups@.len() < self.remaining_spec()),
    {
        pool.backups.len() < self.remaining()
    }

    /// The peer that `address` becomes as a member of this pool.
    pub open spec fn task_for(&self, address: SocketAddress) -> SpawnTask {
        SpawnTask {
            peer_address: PeerAddress::Pool {
                index: self.pool_index,
                address: self.config.addr,
                socket_address: address,
                max_peers: self.config.max_peers,
            },
            address,
        }
    }

    /// One round of filling the pool. A resolution that came fresh
    /// replaces the addresses at hand, but for those in use. Then peers
    /// are started from the end of the addresses at hand until the pool is
    /// full or no address is left. A pool still short waits twice as long
    /// as before, at most a minute, and is worth a warning; after a
    /// failed resolution the wait is the one before and nothing else
    /// changes.
    #[verifier::rlimit(50)]
    pub fn spawn_pool(&mut self, pool: &mut PoolAddresses, lookup: PoolLookup) -> (r: PoolRound)
        ensures
            final(self).pool_index == old(self).pool_index,
            final(self).config == old(self).config,
            lookup is Failed ==> {
                &&& r.tasks@.len() == 0
                &&& r.next == (PoolNext::Wait {
                    wait: old(self).wait_period,
                    underfilled: false,
                    remaining: old(self).remaining_spec() as usize,
                })
                &&& *final(self) == *old(self)
                &&& *final(pool) == *old(pool)
            },
            !(lookup is Failed) ==> ({
                let at_hand = spec_backups_after_lookup(old(pool).backups@, old(self).in_use@, lookup);
                let count = spec_taken(at_hand, old(self).remaining_spec());
                let started = spec_popped(at_hand, count);
                &&& r.tasks@.len() == count
                &&& forall|i: int|
                    0 <= i < count ==> #[trigger] r.tasks@[i] == old(self).task_for(started[i])
                &&& final(pool).backups@ == at_hand.take(at_hand.len() - count)
                &&& final(self).in_use@ == old(self).in_use@ + started
                &&& final(self).remaining_spec() == old(self).remaining_spec() - count
                &&& final(self).remaining_spec() == 0 ==> r.next == PoolNext::Done
                    && final(self).wait_period == old(self).wait_period
                &&& final(self).remaining_spec() > 0 ==> r.next == (PoolNext::Wait {
                    wait: spec_next_wait(old(self).wait_period),
                    underfilled: true,
                    remaining: final(self).remaining_spec() as usize,
                }) && final(self).wait_period == spec_next_wait(old(self).wait_period)
            }),
    {
        let mut tasks: Vec<SpawnTask> = Vec::new();
        match lookup {
            PoolLookup::Failed => {
                return PoolRound {
                    tasks,
                    next: PoolNext::Wait {
                        wait: self.wait_period,
                        underfilled: false,
                        remaining: self.remaining(),
                    },
                };
            },
            PoolLookup::Resolved(addresses) => {
                let mut fresh: Vec<SocketAddress> = Vec::new();
                let mut i: usize = 0;
                while i < addresses.len()
                    invariant
                        0 <= i <= addresses@.len(),
                        fresh@ == without(addresses@, self.in_use@, i as nat),
                    decreases addresses@.len() - i,
                {
                    if !holds(&self.in_use, addresses[i]) {
                        fresh.push(addresses[i]);
                    }
                    i = i + 1;
                }
                pool.backups = fresh;
            },
            PoolLookup::NotNeeded => {},
        }
        let ghost at_hand = pool.backups@;
        let ghost start_use = self.in_use@;
        let ghost start_remaining = self.remaining_spec();
        let mut remaining = self.remaining();
        let mut taken: usize = 0;
        while remaining > 0 && pool.backups.len() > 0
            invariant
                self.pool_index == old(self).pool_index,
                self.config == old(self).config,
                self.wait_period == old(self).wait_period,
                start_remaining == spec_remaining(self.config.max_peers, start_use.len()),
                remaining == start_remaining - taken,
                remaining == self.remaining_spec(),
                taken <= at_hand.len(),
                taken <= start_remaining,
                pool.backups@ == at_hand.take(at_hand.len() - taken),
                tasks@.len() == taken,
                self.in_use@ == start_use + spec_popped(at_hand, taken as nat),
                forall|i: int|
                    0 <= i < taken ==> #[trigger] tasks@[i] == old(self).task_for(
                        spec_popped(at_hand, taken as nat)[i],
                    ),
            decreases remaining,
        {
            let address = pool.backups.pop().unwrap();
            assert(address == at_hand[at_hand.len() - 1 - taken]);
            tasks.push(
                SpawnTask {
                    peer_address: PeerAddress::Pool {
                        index: self.pool_index,
                        address: self.config.addr.duplicate(),
                        socket_address: address,
                        max_peers: self.config.max_peers,
                    },
                    address,
                },
            );
            self.in_use.push(address);
            proof {
                let before = spec_popped(at_hand, taken as nat);
                let after = spec_popped(at_hand, (taken + 1) as nat);
                assert(after =~= before.push(address));
                assert(self.in_use@ =~= start_use + after);
                assert(pool.backups@ =~= at_hand.take(at_hand.len() - taken - 1));
            }
            remaining = remaining - 1;
            taken = taken + 1;
        }
        if remaining == 0 {
            PoolRound { tasks, next: PoolNext::Done }
        } else {
            let doubled: u64 = if self.wait_period > MAX_WAIT_PERIOD / 2 {
                MAX_WAIT_PERIOD
            } else {
                2 * self.wait_period
            };
            self.wait_period = doubled;
            PoolRound { tasks, next: PoolNext::Wait { wait: doubled, underfilled: true, remaining } }
        }
    }
}

/// A pool that was given fewer addresses than it lacks members starts a
/// peer at each of them and then waits; and a pool that is given no new
/// address waits twice as long as the time before, up to the longest
/// wait.
pub proof fn lemma_backoff_doubles(wait: u64)
    ensures
        spec_next_wait(wait) <= MAX_WAIT_PERIOD,
        wait <= MAX_WAIT_PERIOD / 2 ==> spec_next_wait(wait) == 2 * wait,
        wait >= MAX_WAIT_PERIOD / 2 ==> spec_next_wait(wait) == MAX_WAIT_PERIOD,
{
}

/// No address that is in use comes back from a fresh resolution.
pub proof fn lemma_without_excludes(
    addresses: Seq<SocketAddress>,
    taken: Seq<SocketAddress>,
    n: nat,
)
    requires
        n <= addresses.len(),
    ensures
        forall|j: int|
            0 <= j < without(addresses, taken, n).len() ==> !taken.contains(
                #[trigger] without(addresses, taken, n)[j],
            ),
        without(addresses, taken, n).len() <= n,
    decreases n,
{
    if n > 0 {
        lemma_without_excludes(addresses, taken, (n - 1) as nat);
    }
}

/// The pools whose names have been resolved, each with its addresses at
/// hand.
#[derive(Debug, PartialEq, Eq)]
pub struct Spawner {
    pub pools: Vec<(PoolIndex, PoolAddresses)>,
}

/// The place of pool `index` among the first `n` of `pools`, or -1.
pub open spec fn pool_position(pools: Seq<(PoolIndex, PoolAddresses)>, index: PoolIndex, n: nat)
    -> int
    decreases n,
{
    if n == 0 {
        -1
    } else {
        let before = pool_position(pools, index, (n - 1) as nat);
        if before >= 0 {
            before
        } else if pools[n - 1].0 == index {
            n - 1
        } else {
            -1
        }
    }
}

/// What the spawner starts for one request.
#[derive(Debug, PartialEq, Eq)]
pub enum SpawnJob {
    /// Resolve the name of a single server until it gives an address.
    Standard { config: StandardPeerConfig },
    /// Fill a pool, with the addresses at hand at place `slot`.
    Pool { slot: usize, fill: PoolFill },
}

impl Spawner {
    pub fn new() -> (r: Spawner)
        ensures
            r.pools@.len() == 0,
    {
        Spawner { pools: Vec::new() }
    }

    /// Turns a request into the work to start. A pool that is asked for
    /// the first time gets a place of its own, with no address at hand;
    /// one that is known keeps its place and its addresses.
    pub fn spawn(&mut self, config: SpawnConfig) -> (r: SpawnJob)
        ensures
            match config {
                SpawnConfig::Standard { config } => r == (SpawnJob::Standard { config })
                    && final(self).pools@ == old(self).pools@,
                SpawnConfig::Pool { index, config, in_use } => {
                    let before = old(self).pools@;
                    let after = final(self).pools@;
                    let known = pool_position(before, index, before.len());
                    &&& r matches SpawnJob::Pool { slot, fill }
                    &&& r->Pool_fill == (PoolFill {
                        pool_index: index,
                        config,
                        in_use,
                        wait_period: NETWORK_WAIT_PERIOD,
                    })
                    &&& known >= 0 ==> r->Pool_slot == known && after == before
                    &&& known < 0 ==> {
                        &&& r->Pool_slot == before.len()
                        &&& after.len() == before.len() + 1
                        &&& after.take(before.len() as int) == before
                        &&& after.last().0 == index
                        &&& after.last().1.backups@.len() == 0
                    }
                },
            },
    {
        match config {
            SpawnConfig::Standard { config } => SpawnJob::Standard { config },
            SpawnConfig::Pool { index, config, in_use } => {
                let slot = match self.find(index) {
                    Some(slot) => slot,
                    None => {
                        let slot = self.pools.len();
                        self.pools.push((index, PoolAddresses::new()));
                        assert(self.pools@.take(slot as int) =~= old(self).pools@);
                        slot
                    },
                };
                SpawnJob::Pool { slot, fill: PoolFill::new(index, config, in_use) }
            },
        }
    }

    /// The place of pool `index`, if it has one.
    pub fn find(&self, index: PoolIndex) -> (r: Option<usize>)
        ensures
            match r {
                Some(slot) => slot == pool_position(self.pools@, index, self.pools@.len()),
                None => pool_position(self.pools@, index, self.pools@.len()) < 0,
            },
    {
        let n = self.pools.len();
        let mut i: usize = 0;
        while i < n
            invariant
                0 <= i <= n,
                n == self.pools@.len(),
                pool_position(self.pools@, index, i as nat) == -1,
            decreases n - i,
        {
            if self.pools[i].0 == index {
                proof {
                    lemma_position_stays(self.pools@, index, (i + 1) as nat, n as nat);
                }
                return Some(i);
            }
            i = i + 1;
        }
        None
    }
}

proof fn lemma_position_stays(
    pools: Seq<(PoolIndex, PoolAddresses)>,
    index: PoolIndex,
    n: nat,
    m: nat,
)
    requires
        n <= m,
        pool_position(pools, index, n) >= 0,
    ensures
        pool_position(pools, index, m) == pool_position(pools, index, n),
    decreases m,
{
    if n < m {
        lemma_position_stays(pools, index, n, (m - 1) as nat);
    }
}

} // verus!
