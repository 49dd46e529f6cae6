//! The coordinator: the table of peers, what each message from a peer
//! does to it, and when the clock is corrected.

use crate::address::{NormalizedAddress, PeerAddress, SocketAddress};
use crate::clock::{
    ClockController, ClockInput, ClockPlan, ClockUpdateResult, ControllerState, NtpClock,
    PanicThresholds,
};
use crate::clock_select::{combine, spec_combine, Candidate, Combined};
use crate::config::SystemConfig;
use crate::identifiers::{PeerIndex, PeerIndexIssuer, PoolIndex, PoolIndexIssuer, ResetEpoch};
use crate::observer::ObservablePeerState;
use crate::peer::{PeerSnapshot, SystemSnapshot, TimeSnapshot};
use crate::peer_task::MsgForSystem;
use crate::spawn::{PeerConfig, PoolPeerConfig, SpawnConfig, SpawnTask, StandardPeerConfig};
use crate::time_types::{NtpDuration, NtpInstant, PollInterval};
use vstd::prelude::*;

verus! {

/// Where a peer stands with the system.
#[derive(Debug, Copy, Clone, PartialEq, Eq, Structural)]
pub enum PeerStatus {
    /// The peer is gone for good: its name is in no table and never
    /// returns to one.
    Demobilized,
    /// Nothing is known of the peer that was measured since the clock was
    /// last stepped.
    AwaitingReset,
    Valid(PeerSnapshot),
}

/// What the system keeps of one peer.
#[derive(Debug, PartialEq, Eq)]
pub struct PeerState {
    pub index: PeerIndex,
    /// `AwaitingReset` or `Valid`.
    pub status: PeerStatus,
    /// Whether the peer is fit to synchronise to.
    pub usable: bool,
    /// When the peer's first measurement was made.
    pub since: Option<NtpInstant>,
    pub peer_address: PeerAddress,
}

/// Counters of a responder.
#[derive(Debug, Copy, Clone, PartialEq, Eq, Structural)]
pub struct ServerStats {
    pub received_packets: u64,
    pub accepted_packets: u64,
    pub denied_packets: u64,
    pub rate_limited_packets: u64,
    pub response_send_errors: u64,
}

impl Default for ServerStats {
    fn default() -> (r: ServerStats)
        ensures
            r == (ServerStats {
                received_packets: 0,
                accepted_packets: 0,
                denied_packets: 0,
                rate_limited_packets: 0,
                response_send_errors: 0,
            }),
    {
        ServerStats {
            received_packets: 0,
            accepted_packets: 0,
            denied_packets: 0,
            rate_limited_packets: 0,
            response_send_errors: 0,
        }
    }
}

/// Where a responder listens.
#[derive(Debug, Copy, Clone, PartialEq, Eq, Structural)]
pub struct ServerConfig {
    pub addr: SocketAddress,
}

#[derive(Debug, Copy, Clone, PartialEq, Eq, Structural)]
pub struct ServerData {
    pub stats: ServerStats,
    pub config: ServerConfig,
}

/// The place of peer `index` among the first `n` of `peers`, or -1.
pub open spec fn position(peers: Seq<PeerState>, index: PeerIndex, n: nat) -> int
    decreases n,
{
    if n == 0 {
        -1
    } else {
        let before = position(peers, index, (n - 1) as nat);
        if before >= 0 {
            before
        } else if peers[n - 1].index == index {
            n - 1
        } else {
            -1
        }
    }
}

/// The place of peer `index` in `peers`, or -1.
pub open spec fn place(peers: Seq<PeerState>, index: PeerIndex) -> int {
    position(peers, index, peers.len())
}

/// The names in the table rise from entry to entry and all lie below the
/// next name to be given out: no name occurs twice or was given twice.
pub open spec fn table_wf(peers: Seq<PeerState>, next: usize) -> bool {
    &&& forall|i: int, j: int|
        0 <= i < j < peers.len() ==> (#[trigger] peers[i]).index.index < (
        #[trigger] peers[j]).index.index
    &&& forall|i: int| 0 <= i < peers.len() ==> (#[trigger] peers[i]).index.index < next
}

/// The table without peer `index`.
pub open spec fn spec_removed(peers: Seq<PeerState>, index: PeerIndex) -> Seq<PeerState> {
    if place(peers, index) >= 0 {
        peers.remove(place(peers, index))
    } else {
        peers
    }
}

/// The entry with a new snapshot, and with the time of its first
/// measurement where `measured` is the first.
pub open spec fn spec_refreshed(
    entry: PeerState,
    snapshot: PeerSnapshot,
    usable: bool,
    measured: Option<NtpInstant>,
) -> PeerState {
    PeerState {
        status: PeerStatus::Valid(snapshot),
        usable,
        since: if entry.since is Some {
            entry.since
        } else {
            measured
        },
        ..entry
    }
}

/// The table with a new snapshot for peer `index`.
pub open spec fn spec_stored(
    peers: Seq<PeerState>,
    index: PeerIndex,
    snapshot: PeerSnapshot,
    usable: bool,
    measured: Option<NtpInstant>,
) -> Seq<PeerState> {
    if place(peers, index) >= 0 {
        peers.update(
            place(peers, index),
            spec_refreshed(peers[place(peers, index)], snapshot, usable, measured),
        )
    } else {
        peers
    }
}

/// The table after a step of the clock: whatever was known of a peer is
/// forgotten.
pub open spec fn spec_reset(peers: Seq<PeerState>) -> Seq<PeerState> {
    Seq::new(
        peers.len(),
        |i: int|
            PeerState {
                status: match peers[i].status {
                    PeerStatus::Valid(_) => PeerStatus::AwaitingReset,
                    other => other,
                },
                ..peers[i]
            },
    )
}

/// Whether the entry offers its time to the selection.
pub open spec fn offers(entry: PeerState) -> bool {
    entry.status is Valid && entry.usable
}

/// What the entry offers.
pub open spec fn candidate_of(entry: PeerState) -> Candidate {
    Candidate {
        index: entry.index,
        offset: entry.status->Valid_0.statistics.offset,
        distance: entry.status->Valid_0.spec_root_distance(),
    }
}

/// What the first `n` entries offer, in their order.
pub open spec fn spec_candidates(peers: Seq<PeerState>, n: nat) -> Seq<Candidate>
    decreases n,
{
    if n == 0 {
        Seq::empty()
    } else {
        let before = spec_candidates(peers, (n - 1) as nat);
        if offers(peers[n - 1]) {
            before.push(candidate_of(peers[n - 1]))
        } else {
            before
        }
    }
}

/// The socket addresses of the members of `pool` among the first `n`
/// entries.
pub open spec fn spec_in_use(peers: Seq<PeerState>, pool: PoolIndex, n: nat) -> Seq<SocketAddress>
    decreases n,
{
    if n == 0 {
        Seq::empty()
    } else {
        let before = spec_in_use(peers, pool, (n - 1) as nat);
        match peers[n - 1].peer_address {
            PeerAddress::Pool { index, socket_address, .. } => if index == pool {
                before.push(socket_address)
            } else {
                before
            },
            PeerAddress::Peer { .. } => before,
        }
    }
}

/// The snapshot of peer `index`, where the table holds one.
pub open spec fn spec_snapshot_of(peers: Seq<PeerState>, index: PeerIndex) -> Option<PeerSnapshot> {
    if place(peers, index) >= 0 {
        match peers[place(peers, index)].status {
            PeerStatus::Valid(snapshot) => Some(snapshot),
            _ => None,
        }
    } else {
        None
    }
}

/// What an observer learns of one entry at `now`.
pub open spec fn spec_observe(entry: PeerState, now: NtpInstant) -> ObservablePeerState {
    match entry.status {
        PeerStatus::Valid(snapshot) => ObservablePeerState::Observable {
            statistics: snapshot.statistics,
            reachability: snapshot.reach,
            uptime: match entry.since {
                Some(first) => now.spec_abs_diff(first),
                None => NtpDuration { duration: 0 },
            },
            poll_interval: snapshot.poll_interval,
            peer_id: snapshot.peer_id,
            address: entry.peer_address.spec_name().server_name,
        },
        _ => ObservablePeerState::Nothing,
    }
}

/// The table with one single peer for each address, named 0, 1, 2 and so
/// on, of which `data` says what is known.
pub open spec fn spec_statuslist(
    data: Seq<Option<PeerSnapshot>>,
    addresses: Seq<NormalizedAddress>,
) -> Seq<PeerState> {
    Seq::new(
        data.len(),
        |i: int|
            PeerState {
                index: PeerIndex { index: i as usize },
                status: match data[i] {
                    Some(snapshot) => PeerStatus::Valid(snapshot),
                    None => PeerStatus::AwaitingReset,
                },
                usable: false,
                since: None,
                peer_address: PeerAddress::Peer { address: addresses[i] },
            },
    )
}

/// How many of `wanted` peers can be named when `next` is the next
/// name: all of them, unless the names run out.
pub open spec fn spec_listed_count(next: usize, wanted: nat) -> nat {
    if next + wanted <= usize::MAX {
        wanted
    } else {
        (usize::MAX - next) as nat
    }
}

/// The first `count` single peers of a list, named from `next` on, of
/// which `data` says what is known.
pub open spec fn spec_listed(
    next: usize,
    data: Seq<Option<PeerSnapshot>>,
    addresses: Seq<NormalizedAddress>,
    count: nat,
) -> Seq<PeerState> {
    Seq::new(
        count,
        |i: int|
            PeerState {
                index: PeerIndex { index: (next + i) as usize },
                status: match data[i] {
                    Some(snapshot) => PeerStatus::Valid(snapshot),
                    None => PeerStatus::AwaitingReset,
                },
                usable: false,
                since: None,
                peer_address: PeerAddress::Peer { address: addresses[i] },
            },
    )
}

/// A request for new peers as contracts see it.
pub enum SpawnRequest {
    Standard { address: NormalizedAddress },
    Pool {
        index: PoolIndex,
        address: NormalizedAddress,
        max_peers: usize,
        in_use: Seq<SocketAddress>,
    },
}

/// What a request for new peers asks for.
pub open spec fn request_of(config: SpawnConfig) -> SpawnRequest {
    match config {
        SpawnConfig::Standard { config } => SpawnRequest::Standard { address: config.addr },
        SpawnConfig::Pool { index, config, in_use } => SpawnRequest::Pool {
            index,
            address: config.addr,
            max_peers: config.max_peers,
            in_use: in_use@,
        },
    }
}

/// What the system is to do after a message.
pub enum Reaction {
    Nothing,
    Respawn(SpawnRequest),
    Steered {
        verdict: ClockUpdateResult,
        used_peers: Seq<PeerIndex>,
        system_peer: PeerSnapshot,
        poll_interval: PollInterval,
    },
}

/// What the system is to do after a message.
#[derive(Debug, PartialEq, Eq)]
pub enum PeersUpdate {
    /// Nothing: the table may have changed, the clock was not asked.
    Nothing,
    /// A peer is gone; start another in its place.
    Respawn(SpawnConfig),
    /// The clock controller was asked and gave `verdict`, from the
    /// survivors `used_peers`, of which `system_peer` is the closest.
    Steered {
        verdict: ClockUpdateResult,
        used_peers: Vec<PeerIndex>,
        system_peer: PeerSnapshot,
        poll_interval: PollInterval,
    },
}

impl PeersUpdate {
    pub open spec fn view(&self) -> Reaction {
        match *self {
            PeersUpdate::Nothing => Reaction::Nothing,
            PeersUpdate::Respawn(config) => Reaction::Respawn(request_of(config)),
            PeersUpdate::Steered { verdict, used_peers, system_peer, poll_interval } =>
                Reaction::Steered { verdict, used_peers: used_peers@, system_peer, poll_interval },
        }
    }
}

/// The table of peers and the clock controller as contracts see them.
pub struct PeersModel {
    pub peers: Seq<PeerState>,
    pub servers: Seq<ServerData>,
    /// The next peer name to be given out.
    pub next_peer: usize,
    /// The next pool name to be given out.
    pub next_pool: usize,
    pub controller: ControllerState,
    pub limits: PanicThresholds,
    pub config: SystemConfig,
    pub reset_epoch: ResetEpoch,
}

impl PeersModel {
    /// No name occurs twice in the table, and none that is still to be
    /// given out.
    pub open spec fn wf(self) -> bool {
        table_wf(self.peers, self.next_peer)
    }

    pub open spec fn spec_new(config: SystemConfig, now: NtpInstant) -> PeersModel {
        PeersModel {
            peers: Seq::empty(),
            servers: Seq::empty(),
            next_peer: 0,
            next_pool: 0,
            controller: ControllerState::spec_initial(now),
            limits: PanicThresholds {
                running: config.panic_threshold,
                startup: config.startup_panic_threshold,
            },
            config,
            reset_epoch: ResetEpoch { epoch: 0 },
        }
    }

    /// Whether a snapshot of peer `index` is taken in: the peer is in the
    /// table and the snapshot was made after the latest step of the
    /// clock.
    pub open spec fn takes(self, index: PeerIndex, snapshot: PeerSnapshot) -> bool {
        snapshot.reset_epoch == self.reset_epoch && place(self.peers, index) >= 0
    }

    /// The system with a snapshot taken in, or as it was where the
    /// snapshot is not taken.
    pub open spec fn with_snapshot(
        self,
        index: PeerIndex,
        snapshot: PeerSnapshot,
        measured: Option<NtpInstant>,
    ) -> PeersModel {
        if self.takes(index, snapshot) {
            PeersModel {
                peers: spec_stored(
                    self.peers,
                    index,
                    snapshot,
                    snapshot.spec_accept_synchronization(self.config.local_stratum) is Ok,
                    measured,
                ),
                ..self
            }
        } else {
            self
        }
    }

    pub open spec fn without_peer(self, index: PeerIndex) -> PeersModel {
        PeersModel { peers: spec_removed(self.peers, index), ..self }
    }

    /// The request that replaces peer `index`, where the table holds it.
    pub open spec fn replacement(self, index: PeerIndex) -> Option<SpawnRequest> {
        if place(self.peers, index) >= 0 {
            let rest = spec_removed(self.peers, index);
            match self.peers[place(self.peers, index)].peer_address {
                PeerAddress::Peer { address } => Some(SpawnRequest::Standard { address }),
                PeerAddress::Pool { index: pool, address, max_peers, .. } => Some(
                    SpawnRequest::Pool {
                        index: pool,
                        address,
                        max_peers,
                        in_use: spec_in_use(rest, pool, rest.len()),
                    },
                ),
            }
        } else {
            None
        }
    }

    /// The peers that agree and what they say together.
    pub open spec fn selection(self) -> Option<Combined> {
        spec_combine(
            spec_candidates(self.peers, self.peers.len()),
            self.config.min_intersection_survivors,
        )
    }

    /// The snapshot of the closest of the peers that agree.
    pub open spec fn system_peer(self) -> Option<PeerSnapshot> {
        match self.selection() {
            Some(combined) => spec_snapshot_of(self.peers, combined.system_peer),
            None => None,
        }
    }

    /// What the clock controller is given.
    pub open spec fn clock_input(self) -> Option<ClockInput> {
        match (self.selection(), self.system_peer()) {
            (Some(combined), Some(peer)) => Some(
                ClockInput {
                    offset: combined.offset,
                    jitter: combined.jitter,
                    root_delay: peer.root_delay,
                    root_dispersion: peer.root_dispersion,
                    leap_status: peer.leap_indicator,
                    last_peer_update: peer.time,
                },
            ),
            _ => None,
        }
    }

    /// What the clock controller decides.
    pub open spec fn clock_plan(self) -> Option<ClockPlan> {
        match self.clock_input() {
            Some(input) => Some(self.controller.spec_plan(self.limits, input)),
            None => None,
        }
    }

    /// The system once the clock has done what `plan` asked. After a
    /// step every peer awaits new measurements and the reset count has
    /// moved on.
    pub open spec fn steered(self, plan: ClockPlan) -> PeersModel {
        if plan.result == ClockUpdateResult::Step {
            PeersModel {
                controller: plan.next,
                peers: spec_reset(self.peers),
                reset_epoch: self.reset_epoch.spec_inc(),
                ..self
            }
        } else {
            PeersModel { controller: plan.next, ..self }
        }
    }

    /// What is reported once the clock has done what `plan` asked.
    pub open spec fn report(self, plan: ClockPlan) -> Reaction {
        Reaction::Steered {
            verdict: plan.result,
            used_peers: self.selection()->Some_0.survivors,
            system_peer: self.system_peer()->Some_0,
            poll_interval: plan.next.preferred_poll_interval,
        }
    }

    /// Whether `after` and `outcome` are what `msg` leads to; `outcome`
    /// is `None` where the clock refused what it was asked.
    pub open spec fn leads_to(self, msg: MsgForSystem, after: PeersModel, outcome: Option<Reaction>)
        -> bool {
        match msg {
            MsgForSystem::MustDemobilize(index) => {
                &&& after == self.without_peer(index)
                &&& outcome == Some(Reaction::Nothing)
            },
            MsgForSystem::NetworkIssue(index) => {
                &&& after == self.without_peer(index)
                &&& outcome == Some(
                    match self.replacement(index) {
                        Some(request) => Reaction::Respawn(request),
                        None => Reaction::Nothing,
                    },
                )
            },
            MsgForSystem::UpdatedSnapshot(index, snapshot) => {
                &&& after == self.with_snapshot(index, snapshot, None)
                &&& outcome == Some(Reaction::Nothing)
            },
            MsgForSystem::NewMeasurement(index, snapshot, measurement, _) => {
                let taken = self.with_snapshot(index, snapshot, Some(measurement.monotime));
                if !self.takes(index, snapshot) {
                    after == self && outcome == Some(Reaction::Nothing)
                } else {
                    match taken.clock_plan() {
                        None => after == taken && outcome == Some(Reaction::Nothing),
                        Some(plan) => match outcome {
                            Some(reaction) => after == taken.steered(plan) && reaction
                                == taken.report(plan),
                            None => after == taken && plan.touches_clock(),
                        },
                    }
                }
            },
        }
    }
}

proof fn lemma_position(peers: Seq<PeerState>, index: PeerIndex, n: nat)
    requires
        n <= peers.len(),
    ensures
        -1 <= position(peers, index, n) < n,
        position(peers, index, n) >= 0 ==> peers[position(peers, index, n)].index == index,
        position(peers, index, n) < 0 ==> forall|j: int|
            0 <= j < n ==> (#[trigger] peers[j]).index != index,
    decreases n,
{
    if n > 0 {
        lemma_position(peers, index, (n - 1) as nat);
    }
}

proof fn lemma_position_found(peers: Seq<PeerState>, index: PeerIndex, n: nat, m: nat)
    requires
        n <= m <= peers.len(),
        position(peers, index, n) >= 0,
    ensures
        position(peers, index, m) == position(peers, index, n),
    decreases m,
{
    if n < m {
        lemma_position_found(peers, index, n, (m - 1) as nat);
    }
}

/// The peers of a system, the servers it runs, and the controller of its
/// clock.
pub struct Peers<C: NtpClock> {
    peers: Vec<PeerState>,
    servers: Vec<ServerData>,
    peer_indexer: PeerIndexIssuer,
    pool_indexer: PoolIndexIssuer,
    controller: ClockController<C>,
    config: SystemConfig,
    reset_epoch: ResetEpoch,
}

impl<C: NtpClock> Peers<C> {
    pub closed spec fn view(&self) -> PeersModel {
        PeersModel {
            peers: self.peers@,
            servers: self.servers@,
            next_peer: self.peer_indexer.next,
            next_pool: self.pool_indexer.next,
            controller: self.controller@,
            limits: self.controller.limits(),
            config: self.config,
            reset_epoch: self.reset_epoch,
        }
    }

    /// A system without peers. Fails where the clock refuses to have its
    /// rate set to zero.
    pub fn new(clock: C, config: SystemConfig, now: NtpInstant) -> (r: Result<Peers<C>, C::Error>)
        ensures
            r matches Ok(peers) ==> {
                &&& peers@ == PeersModel::spec_new(config, now)
                &&& peers@.wf()
                &&& peers.spec_clock() == clock
            },
    {
        match ClockController::new(clock, now) {
            Ok(controller) => Ok(Self::with_controller(controller, config)),
            Err(e) => Err(e),
        }
    }

    /// A system without peers or responders whose clock `controller`
    /// steers, under the limits of `config`. No name has been given out
    /// and the clock has not been stepped.
    pub fn with_controller(controller: ClockController<C>, config: SystemConfig) -> (r: Peers<C>)
        ensures
            r@ == (PeersModel {
                peers: Seq::empty(),
                servers: Seq::empty(),
                next_peer: 0,
                next_pool: 0,
                controller: controller@,
                limits: PanicThresholds {
                    running: config.panic_threshold,
                    startup: config.startup_panic_threshold,
                },
                config,
                reset_epoch: ResetEpoch { epoch: 0 },
            }),
            r@.wf(),
            r.spec_clock() == controller.spec_clock(),
    {
        let mut controller = controller;
        controller.update_config(config);
        let peers = Peers {
            peers: Vec::new(),
            servers: Vec::new(),
            peer_indexer: PeerIndexIssuer::new(),
            pool_indexer: PoolIndexIssuer::new(),
            controller,
            config,
            reset_epoch: ResetEpoch::new(),
        };
        assert(peers.peers@ =~= Seq::<PeerState>::empty());
        assert(peers.servers@ =~= Seq::<ServerData>::empty());
        peers
    }

    /// The clock that is steered.
    pub closed spec fn spec_clock(&self) -> C {
        self.controller.spec_clock()
    }

    /// The clock that is steered.
    pub fn clock(&self) -> (r: &C)
        ensures
            *r == self.spec_clock(),
    {
        self.controller.clock()
    }

    /// How often the clock has been stepped.
    pub fn reset_epoch(&self) -> (r: ResetEpoch)
        ensures
            r == self@.reset_epoch,
    {
        self.reset_epoch
    }

    /// The poll interval that the clock controller prefers.
    pub fn preferred_poll_interval(&self) -> (r: PollInterval)
        ensures
            r == self@.controller.preferred_poll_interval,
    {
        self.controller.preferred_poll_interval()
    }

    pub fn controller_state(&self) -> (r: ControllerState)
        ensures
            r == self@.controller,
    {
        self.controller.state()
    }

    /// How many peers the table holds.
    pub fn len(&self) -> (r: usize)
        ensures
            r == self@.peers.len(),
    {
        self.peers.len()
    }

    fn find(&self, index: PeerIndex) -> (r: Option<usize>)
        ensures
            match r {
                Some(at) => at == place(self.peers@, index) && at < self.peers@.len()
                    && self.peers@[at as int].index == index,
                None => place(self.peers@, index) < 0,
            },
    {
        let n = self.peers.len();
        let mut i: usize = 0;
        while i < n
            invariant
                0 <= i <= n,
                n == self.peers@.len(),
                position(self.peers@, index, i as nat) == -1,
            decreases n - i,
        {
            if self.peers[i].index == index {
                proof {
                    lemma_position_found(self.peers@, index, (i + 1) as nat, n as nat);
                }
                return Some(i);
            }
            i = i + 1;
        }
        None
    }

    /// Gives a peer a name and a place in the table. Gives `None`, and
    /// changes nothing, once every name has been given out.
    pub fn spawn_task(&mut self, peer_address: PeerAddress) -> (r: Option<PeerIndex>)
        ensures
            final(self).spec_clock() == old(self).spec_clock(),
            old(self)@.wf() ==> final(self)@.wf(),
            old(self)@.wf() && r is Some ==> place(old(self)@.peers, r->Some_0) < 0,
            old(self)@.next_peer < usize::MAX ==> {
                &&& r == Some(PeerIndex { index: old(self)@.next_peer })
                &&& final(self)@ == (PeersModel {
                    peers: old(self)@.peers.push(
                        PeerState {
                            index: PeerIndex { index: old(self)@.next_peer },
                            status: PeerStatus::AwaitingReset,
                            usable: false,
                            since: None,
                            peer_address,
                        },
                    ),
                    next_peer: (old(self)@.next_peer + 1) as usize,
                    ..old(self)@
                })
            },
            old(self)@.next_peer == usize::MAX ==> r is None && final(self)@ == old(self)@,
    {
        proof {
            lemma_position(
                self.peers@,
                PeerIndex { index: self.peer_indexer.next },
                self.peers@.len(),
            );
        }
        match self.peer_indexer.get() {
            Some(index) => {
                self.peers.push(
                    PeerState {
                        index,
                        status: PeerStatus::AwaitingReset,
                        usable: false,
                        since: None,
                        peer_address,
                    },
                );
                Some(index)
            },
            None => None,
        }
    }

    /// The request for a single peer at `address`.
    pub fn add_peer_internal(&self, address: NormalizedAddress) -> (r: SpawnConfig)
        ensures
            request_of(r) == (SpawnRequest::Standard { address }),
    {
        SpawnConfig::Standard { config: StandardPeerConfig { addr: address } }
    }

    /// The request for a single peer that is not part of a pool.
    pub fn add_peer(&self, address: NormalizedAddress) -> (r: SpawnConfig)
        ensures
            request_of(r) == (SpawnRequest::Standard { address }),
    {
        self.add_peer_internal(address)
    }

    /// The request for up to `max_peers` peers from a new pool. Each pool
    /// gets a name of its own, because two pools may share an address.
    /// Gives `None` once every pool name has been given out.
    pub fn add_new_pool(&mut self, address: NormalizedAddress, max_peers: usize) -> (r: Option<
        SpawnConfig,
    >)
        ensures
            final(self).spec_clock() == old(self).spec_clock(),
            old(self)@.next_pool < usize::MAX ==> {
                &&& r is Some
                &&& request_of(r->Some_0) == (SpawnRequest::Pool {
                    index: PoolIndex { index: old(self)@.next_pool },
                    address,
                    max_peers,
                    in_use: spec_in_use(
                        old(self)@.peers,
                        PoolIndex { index: old(self)@.next_pool },
                        old(self)@.peers.len(),
                    ),
                })
                &&& final(self)@ == (PeersModel {
                    next_pool: (old(self)@.next_pool + 1) as usize,
                    ..old(self)@
                })
            },
            old(self)@.next_pool == usize::MAX ==> r is None && final(self)@ == old(self)@,
    {
        match self.pool_indexer.get() {
            Some(index) => Some(self.add_to_pool(index, address, max_peers)),
            None => None,
        }
    }

    /// The request that fills pool `index` up to `max_peers`, with the
    /// addresses of its members in the table as those in use.
    pub fn add_to_pool(&self, index: PoolIndex, address: NormalizedAddress, max_peers: usize) -> (r:
        SpawnConfig)
        ensures
            request_of(r) == (SpawnRequest::Pool {
                index,
                address,
                max_peers,
                in_use: spec_in_use(self@.peers, index, self@.peers.len()),
            }),
    {
        let n = self.peers.len();
        let mut in_use: Vec<SocketAddress> = Vec::new();
        let mut i: usize = 0;
        while i < n
            invariant
                0 <= i <= n,
                n == self.peers@.len(),
                in_use@ == spec_in_use(self.peers@, index, i as nat),
            decreases n - i,
        {
            match &self.peers[i].peer_address {
                PeerAddress::Pool { index: pool, socket_address, .. } => {
                    if *pool == index {
                        in_use.push(*socket_address);
                    }
                },
                PeerAddress::Peer { .. } => {},
            }
            i = i + 1;
        }
        SpawnConfig::Pool { index, config: PoolPeerConfig { addr: address, max_peers }, in_use }
    }

    /// Notes a responder that the system runs, with all counters at
    /// zero, and gives the counters back.
    pub fn add_server(&mut self, config: ServerConfig) -> (r: ServerStats)
        ensures
            final(self).spec_clock() == old(self).spec_clock(),
            r == (ServerStats {
                received_packets: 0,
                accepted_packets: 0,
                denied_packets: 0,
                rate_limited_packets: 0,
                response_send_errors: 0,
            }),
            final(self)@ == (PeersModel {
                servers: old(self)@.servers.push(ServerData { stats: r, config }),
                ..old(self)@
            }),
    {
        let stats = ServerStats::default();
        self.servers.push(ServerData { stats, config });
        stats
    }

    /// The snapshot of peer `index`, where the table holds one.
    pub fn peer_snapshot(&self, index: PeerIndex) -> (r: Option<PeerSnapshot>)
        ensures
            r == spec_snapshot_of(self@.peers, index),
    {
        match self.find(index) {
            Some(at) => match self.peers[at].status {
                PeerStatus::Valid(snapshot) => Some(snapshot),
                _ => None,
            },
            None => None,
        }
    }

    /// Where peer `index` stands: a peer that the table does not hold is
    /// demobilized.
    pub fn status(&self, index: PeerIndex) -> (r: PeerStatus)
        ensures
            place(self@.peers, index) < 0 ==> r == PeerStatus::Demobilized,
            place(self@.peers, index) >= 0 ==> r == self@.peers[place(self@.peers, index)].status,
    {
        match self.find(index) {
            Some(at) => self.peers[at].status,
            None => PeerStatus::Demobilized,
        }
    }

    /// The responders that the system runs.
    pub fn servers(&self) -> (r: Vec<ServerData>)
        ensures
            r@ == self@.servers,
    {
        let n = self.servers.len();
        let mut out: Vec<ServerData> = Vec::new();
        let mut i: usize = 0;
        while i < n
            invariant
                0 <= i <= n,
                n == self.servers@.len(),
                out@ == self.servers@.take(i as int),
            decreases n - i,
        {
            out.push(self.servers[i]);
            assert(out@ =~= self.servers@.take(i + 1));
            i = i + 1;
        }
        assert(self.servers@.take(n as int) =~= self.servers@);
        out
    }

    /// Takes a new configuration for the system and for the controller of
    /// its clock.
    pub fn update_config(&mut self, config: SystemConfig)
        ensures
            final(self).spec_clock() == old(self).spec_clock(),
            final(self)@ == (PeersModel {
                config,
                limits: PanicThresholds {
                    running: config.panic_threshold,
                    startup: config.startup_panic_threshold,
                },
                ..old(self)@
            }),
    {
        self.controller.update_config(config);
        self.config = config;
    }

    /// What an observer learns of every peer, in the order of the table.
    pub fn observe_peers(&self, now: NtpInstant) -> (r: Vec<ObservablePeerState>)
        ensures
            r@.len() == self@.peers.len(),
            forall|i: int|
                0 <= i < r@.len() ==> #[trigger] r@[i] == spec_observe(self@.peers[i], now),
    {
        let n = self.peers.len();
        let mut out: Vec<ObservablePeerState> = Vec::new();
        let mut i: usize = 0;
        while i < n
            invariant
                0 <= i <= n,
                n == self.peers@.len(),
                out@.len() == i,
                forall|j: int|
                    0 <= j < i ==> #[trigger] out@[j] == spec_observe(self.peers@[j], now),
            decreases n - i,
        {
            let entry = &self.peers[i];
            let seen = match entry.status {
                PeerStatus::Valid(snapshot) => ObservablePeerState::Observable {
                    statistics: snapshot.statistics,
                    reachability: snapshot.reach,
                    uptime: match entry.since {
                        Some(first) => now.abs_diff(first),
                        None => NtpDuration::zero(),
                    },
                    poll_interval: snapshot.poll_interval,
                    peer_id: snapshot.peer_id,
                    address: entry.peer_address.name().server_name.clone(),
                },
                _ => ObservablePeerState::Nothing,
            };
            out.push(seen);
            i = i + 1;
        }
        out
    }

    /// A system whose table holds one single peer for each address, the
    /// first of them with the first of `data` as what is known of it, the
    /// second with the second, and so on. Fails where the clock refuses
    /// to have its rate set to zero.
    #[verifier::rlimit(50)]
    pub fn from_statuslist(
        data: &Vec<Option<PeerSnapshot>>,
        addresses: &Vec<NormalizedAddress>,
        clock: C,
        now: NtpInstant,
    ) -> (r: Result<Peers<C>, C::Error>)
        requires
            data@.len() == addresses@.len(),
        ensures
            r matches Ok(peers) ==> {
                &&& peers@.wf()
                &&& peers@.peers == spec_statuslist(data@, addresses@)
                &&& peers@ == (PeersModel {
                    peers: peers@.peers,
                    next_peer: data@.len() as usize,
                    ..PeersModel::spec_new(SystemConfig::spec_default(), now)
                })
                &&& peers.spec_clock() == clock
            },
    {
        match Peers::new(clock, SystemConfig::default(), now) {
            Ok(peers) => {
                let mut peers = peers;
                peers.add_statuslist(data, addresses);
                proof {
                    assert(data@.len() == data.len());
                    let listed = spec_listed(0, data@, addresses@, data@.len());
                    assert(spec_listed_count(0, data@.len()) == data@.len());
                    assert(listed =~= spec_statuslist(data@, addresses@));
                    assert(Seq::<PeerState>::empty() + listed =~= listed);
                }
                Ok(peers)
            },
            Err(e) => Err(e),
        }
    }

    /// Adds one single peer for each address, in their order, with the
    /// entry of `data` at the same place as what is known of it. Each
    /// gets the next name; once every name has been given out the rest
    /// is left out.
    #[verifier::rlimit(50)]
    pub fn add_statuslist(
        &mut self,
        data: &Vec<Option<PeerSnapshot>>,
        addresses: &Vec<NormalizedAddress>,
    )
        requires
            data@.len() == addresses@.len(),
        ensures
            final(self)@ == (PeersModel {
                peers: old(self)@.peers + spec_listed(
                    old(self)@.next_peer,
                    data@,
                    addresses@,
                    spec_listed_count(old(self)@.next_peer, data@.len()),
                ),
                next_peer: (old(self)@.next_peer + spec_listed_count(
                    old(self)@.next_peer,
                    data@.len(),
                )) as usize,
                ..old(self)@
            }),
            final(self).spec_clock() == old(self).spec_clock(),
            old(self)@.wf() ==> final(self)@.wf(),
    {
        let n = data.len();
        let ghost first = self.peer_indexer.next;
        let ghost before = self.peers@;
        let mut i: usize = 0;
        while i < n && self.peer_indexer.next < usize::MAX
            invariant
                0 <= i <= n,
                n == data@.len(),
                n == addresses@.len(),
                self.servers == old(self).servers,
                self.pool_indexer == old(self).pool_indexer,
                self.controller == old(self).controller,
                self.config == old(self).config,
                self.reset_epoch == old(self).reset_epoch,
                first == old(self).peer_indexer.next,
                before == old(self).peers@,
                self.peer_indexer.next == first + i,
                self.peers@ == before + spec_listed(first, data@, addresses@, i as nat),
                table_wf(before, first) ==> table_wf(self.peers@, self.peer_indexer.next),
            decreases n - i,
        {
            let index = PeerIndex::from_inner(self.peer_indexer.next);
            self.peer_indexer.next = self.peer_indexer.next + 1;
            self.peers.push(
                PeerState {
                    index,
                    status: match data[i] {
                        Some(snapshot) => PeerStatus::Valid(snapshot),
                        None => PeerStatus::AwaitingReset,
                    },
                    usable: false,
                    since: None,
                    peer_address: PeerAddress::Peer { address: addresses[i].duplicate() },
                },
            );
            assert(self.peers@ =~= before + spec_listed(
                first,
                data@,
                addresses@,
                (i + 1) as nat,
            ));
            i = i + 1;
        }
    }

    fn remove(&mut self, index: PeerIndex) -> (r: Option<PeerState>)
        ensures
            final(self).spec_clock() == old(self).spec_clock(),
            final(self)@ == old(self)@.without_peer(index),
            match r {
                Some(entry) => place(old(self)@.peers, index) >= 0 && entry == old(
                    self,
                )@.peers[place(old(self)@.peers, index)],
                None => place(old(self)@.peers, index) < 0,
            },
    {
        match self.find(index) {
            Some(at) => {
                let entry = self.peers.remove(at);
                Some(entry)
            },
            None => None,
        }
    }

    fn store(&mut self, index: PeerIndex, snapshot: PeerSnapshot, measured: Option<NtpInstant>) -> (r:
        bool)
        ensures
            final(self).spec_clock() == old(self).spec_clock(),
            r == old(self)@.takes(index, snapshot),
            final(self)@ == old(self)@.with_snapshot(index, snapshot, measured),
    {
        if snapshot.reset_epoch != self.reset_epoch {
            return false;
        }
        match self.find(index) {
            Some(at) => {
                let usable = snapshot.accept_synchronization(self.config.local_stratum).is_ok();
                let ghost before = self.peers@;
                self.peers[at].status = PeerStatus::Valid(snapshot);
                self.peers[at].usable = usable;
                if self.peers[at].since.is_none() {
                    self.peers[at].since = measured;
                }
                assert(self.peers@ =~= spec_stored(before, index, snapshot, usable, measured));
                true
            },
            None => false,
        }
    }

    fn reset_all(&mut self)
        ensures
            final(self).spec_clock() == old(self).spec_clock(),
            final(self)@ == (PeersModel {
                peers: spec_reset(old(self)@.peers),
                reset_epoch: old(self)@.reset_epoch.spec_inc(),
                ..old(self)@
            }),
    {
        let n = self.peers.len();
        let ghost before = self.peers@;
        let mut i: usize = 0;
        while i < n
            invariant
                0 <= i <= n,
                n == self.peers@.len(),
                n == before.len(),
                self.servers == old(self).servers,
                self.peer_indexer == old(self).peer_indexer,
                self.pool_indexer == old(self).pool_indexer,
                self.controller == old(self).controller,
                self.config == old(self).config,
                self.reset_epoch == old(self).reset_epoch,
                forall|j: int| 0 <= j < i ==> self.peers@[j] == spec_reset(before)[j],
                forall|j: int| i <= j < n ==> self.peers@[j] == before[j],
            decreases n - i,
        {
            match self.peers[i].status {
                PeerStatus::Valid(_) => {
                    self.peers[i].status = PeerStatus::AwaitingReset;
                },
                _ => {},
            }
            i = i + 1;
        }
        assert(self.peers@ =~= spec_reset(before));
        self.reset_epoch = self.reset_epoch.inc();
    }

    fn candidates(&self) -> (r: Vec<Candidate>)
        ensures
            r@ == spec_candidates(self@.peers, self@.peers.len()),
    {
        let n = self.peers.len();
        let mut out: Vec<Candidate> = Vec::new();
        let mut i: usize = 0;
        while i < n
            invariant
                0 <= i <= n,
                n == self.peers@.len(),
                out@ == spec_candidates(self.peers@, i as nat),
            decreases n - i,
        {
            match self.peers[i].status {
                PeerStatus::Valid(snapshot) => {
                    if self.peers[i].usable {
                        out.push(
                            Candidate {
                                index: self.peers[i].index,
                                offset: snapshot.statistics.offset,
                                distance: snapshot.root_distance(),
                            },
                        );
                    }
                },
                _ => {},
            }
            i = i + 1;
        }
        out
    }

    /// Selects among the peers and hands what they say together to the
    /// clock controller.
    #[verifier::rlimit(50)]
    fn steer(&mut self) -> (r: Result<PeersUpdate, C::Error>)
        ensures
            final(self).spec_clock() == old(self).spec_clock(),
            match old(self)@.clock_plan() {
                None => final(self)@ == old(self)@ && r is Ok && r->Ok_0@ == Reaction::Nothing,
                Some(plan) => {
                    &&& !plan.touches_clock() ==> r is Ok
                    &&& r is Err ==> final(self)@ == old(self)@ && plan.touches_clock()
                    &&& r is Ok ==> final(self)@ == old(self)@.steered(plan) && r->Ok_0@ == old(
                        self,
                    )@.report(plan)
                },
            },
    {
        let candidates = self.candidates();
        let selection = match combine(&candidates, self.config.min_intersection_survivors) {
            Some(selection) => selection,
            None => {
                return Ok(PeersUpdate::Nothing);
            },
        };
        let system_peer = match self.peer_snapshot(selection.system_peer) {
            Some(snapshot) => snapshot,
            None => {
                return Ok(PeersUpdate::Nothing);
            },
        };
        let verdict = match self.controller.update(
            selection.offset,
            selection.jitter,
            system_peer.root_delay,
            system_peer.root_dispersion,
            system_peer.leap_indicator,
            system_peer.time,
        ) {
            Ok(verdict) => verdict,
            Err(e) => {
                return Err(e);
            },
        };
        match verdict {
            ClockUpdateResult::Step => {
                self.reset_all();
            },
            _ => {},
        }
        Ok(
            PeersUpdate::Steered {
                verdict,
                used_peers: selection.survivors,
                system_peer,
                poll_interval: self.controller.preferred_poll_interval(),
            },
        )
    }

    /// Takes a message from a peer. A peer that must demobilize, or whose
    /// network is gone, leaves the table, and in place of the second a
    /// new peer is asked for. A snapshot is stored unless it was made
    /// before the latest step of the clock or names a peer that is gone.
    /// A new measurement that was stored leads to a selection among the
    /// peers and, where enough of them agree, to a correction of the
    /// clock. Gives the clock's error where the clock refuses, with the
    /// message's snapshot stored and nothing else changed.
    #[verifier::rlimit(50)]
    pub fn update(&mut self, msg: MsgForSystem) -> (r: Result<PeersUpdate, C::Error>)
        ensures
            final(self).spec_clock() == old(self).spec_clock(),
            old(self)@.leads_to(
                msg,
                final(self)@,
                match r {
                    Ok(update) => Some(update@),
                    Err(_) => None,
                },
            ),
            old(self)@.wf() ==> final(self)@.wf(),
    {
        proof {
            if old(self)@.wf() {
                match msg {
                    MsgForSystem::MustDemobilize(index) => {
                        lemma_order_kept(old(self)@, index);
                    },
                    MsgForSystem::NetworkIssue(index) => {
                        lemma_order_kept(old(self)@, index);
                    },
                    MsgForSystem::UpdatedSnapshot(index, snapshot) => {
                        lemma_order_kept(old(self)@, index);
                    },
                    MsgForSystem::NewMeasurement(index, snapshot, measurement, _) => {
                        lemma_order_kept(old(self)@, index);
                        lemma_order_kept(
                            old(self)@.with_snapshot(index, snapshot, Some(measurement.monotime)),
                            index,
                        );
                    },
                }
            }
        }
        let r = match msg {
            MsgForSystem::MustDemobilize(index) => {
                self.remove(index);
                Ok(PeersUpdate::Nothing)
            },
            MsgForSystem::NetworkIssue(index) => {
                match self.remove(index) {
                    Some(entry) => {
                        match entry.peer_address {
                            PeerAddress::Peer { address } => Ok(
                                PeersUpdate::Respawn(self.add_peer_internal(address)),
                            ),
                            PeerAddress::Pool { index: pool, address, max_peers, .. } => Ok(
                                PeersUpdate::Respawn(self.add_to_pool(pool, address, max_peers)),
                            ),
                        }
                    },
                    None => Ok(PeersUpdate::Nothing),
                }
            },
            MsgForSystem::UpdatedSnapshot(index, snapshot) => {
                self.store(index, snapshot, None);
                Ok(PeersUpdate::Nothing)
            },
            MsgForSystem::NewMeasurement(index, snapshot, measurement, _) => {
                if self.store(index, snapshot, Some(measurement.monotime)) {
                    self.steer()
                } else {
                    Ok(PeersUpdate::Nothing)
                }
            },
        };
        r
    }
}

/// Neither the loss of a peer, nor a new snapshot, nor a step of the
/// clock makes a name occur twice in the table.
#[verifier::rlimit(50)]
pub proof fn lemma_order_kept(before: PeersModel, index: PeerIndex)
    requires
        before.wf(),
    ensures
        before.without_peer(index).wf(),
        forall|snapshot: PeerSnapshot, measured: Option<NtpInstant>| #[trigger]
            before.with_snapshot(index, snapshot, measured).wf(),
        forall|plan: ClockPlan| #[trigger] before.steered(plan).wf(),
{
    lemma_position(before.peers, index, before.peers.len());
    let at = place(before.peers, index);
    if at >= 0 {
        let rest = before.peers.remove(at);
        assert forall|i: int, j: int| 0 <= i < j < rest.len() implies (#[trigger] rest[i]).index.index
            < (#[trigger] rest[j]).index.index by {
            let a = if i < at {
                i
            } else {
                i + 1
            };
            let b = if j < at {
                j
            } else {
                j + 1
            };
            assert(rest[i] == before.peers[a]);
            assert(rest[j] == before.peers[b]);
        }
        assert forall|i: int| 0 <= i < rest.len() implies (#[trigger] rest[i]).index.index
            < before.next_peer by {
            let a = if i < at {
                i
            } else {
                i + 1
            };
            assert(rest[i] == before.peers[a]);
        }
    }
    assert forall|snapshot: PeerSnapshot, measured: Option<NtpInstant>| #[trigger]
        before.with_snapshot(index, snapshot, measured).wf() by {
        let after = before.with_snapshot(index, snapshot, measured).peers;
        assert forall|i: int| 0 <= i < after.len() implies (#[trigger] after[i]).index
            == before.peers[i].index by {}
    }
    assert forall|plan: ClockPlan| #[trigger] before.steered(plan).wf() by {
        let after = before.steered(plan).peers;
        assert forall|i: int| 0 <= i < after.len() implies (#[trigger] after[i]).index
            == before.peers[i].index by {}
    }
}

/// A step of the clock moves the reset count on, to a larger one unless
/// the count has run through all of its range, and leaves no peer with
/// anything known of it.
pub proof fn lemma_step_resets(before: PeersModel, plan: ClockPlan)
    requires
        plan.result == ClockUpdateResult::Step,
    ensures
        before.steered(plan).reset_epoch != before.reset_epoch,
        before.reset_epoch.epoch < u64::MAX ==> before.steered(plan).reset_epoch.epoch
            > before.reset_epoch.epoch,
        before.steered(plan).peers.len() == before.peers.len(),
        forall|i: int|
            0 <= i < before.peers.len() ==> !((#[trigger] before.steered(
                plan,
            ).peers[i]).status is Valid),
{
}

/// Once the clock has been stepped, a snapshot that was stamped before
/// the step changes nothing, whether it comes alone or with a
/// measurement.
pub proof fn lemma_stale_snapshot_dropped(
    before: PeersModel,
    plan: ClockPlan,
    msg: MsgForSystem,
    after: PeersModel,
    outcome: Option<Reaction>,
)
    requires
        plan.result == ClockUpdateResult::Step,
        match msg {
            MsgForSystem::NewMeasurement(_, snapshot, _, _) => snapshot.reset_epoch
                == before.reset_epoch,
            MsgForSystem::UpdatedSnapshot(_, snapshot) => snapshot.reset_epoch
                == before.reset_epoch,
            _ => false,
        },
        before.steered(plan).leads_to(msg, after, outcome),
    ensures
        after == before.steered(plan),
        outcome == Some(Reaction::Nothing),
{
}

/// A peer that has left the table stays away: no message brings its name
/// back.
#[verifier::rlimit(50)]
pub proof fn lemma_demobilized_is_final(
    before: PeersModel,
    index: PeerIndex,
    msg: MsgForSystem,
    after: PeersModel,
    outcome: Option<Reaction>,
)
    requires
        place(before.peers, index) < 0,
        before.leads_to(msg, after, outcome),
    ensures
        place(after.peers, index) < 0,
{
    let peers = before.peers;
    lemma_position(peers, index, peers.len());
    lemma_position(peers, msg.spec_index(), peers.len());
    lemma_position(after.peers, index, after.peers.len());
    let at = place(peers, msg.spec_index());
    assert forall|j: int| 0 <= j < after.peers.len() implies (#[trigger] after.peers[j]).index
        != index by {
        if after.peers.len() < peers.len() {
            let k = if j < at {
                j
            } else {
                j + 1
            };
            assert(after.peers[j] == peers[k]);
        } else {
            assert(after.peers[j].index == peers[j].index);
        }
    }
}

/// What the peers offer once a new measurement is taken in.
pub open spec fn offered_after(before: PeersModel, msg: MsgForSystem) -> Seq<Candidate> {
    match msg {
        MsgForSystem::NewMeasurement(index, snapshot, measurement, _) => {
            let taken = before.with_snapshot(index, snapshot, Some(measurement.monotime));
            spec_candidates(taken.peers, taken.peers.len())
        },
        _ => Seq::empty(),
    }
}

/// With fewer peers that agree than the configuration asks for, a new
/// measurement leaves the clock alone: the controller is not asked and
/// nothing is reported.
pub proof fn lemma_too_few_agree(
    before: PeersModel,
    msg: MsgForSystem,
    after: PeersModel,
    outcome: Option<Reaction>,
)
    requires
        msg is NewMeasurement,
        crate::clock_select::survivors(offered_after(before, msg)).len()
            < before.config.min_intersection_survivors,
        before.leads_to(msg, after, outcome),
    ensures
        outcome == Some(Reaction::Nothing),
        after.controller == before.controller,
        after.reset_epoch == before.reset_epoch,
{
}

/// The system: its configuration, what it publishes of itself, and its
/// peers.
pub struct System<C: NtpClock> {
    config: SystemConfig,
    system: SystemSnapshot,
    peers: Peers<C>,
}

/// The system as contracts see it.
pub struct SystemModel {
    pub config: SystemConfig,
    pub system: SystemSnapshot,
    pub peers: PeersModel,
}

/// What the task that runs the system is to do after an event.
#[derive(Debug, PartialEq, Eq)]
pub struct SystemOutput {
    /// A new state of the system to publish.
    pub snapshot: Option<SystemSnapshot>,
    /// New peers to ask the spawner for.
    pub respawn: Option<SpawnConfig>,
    /// What the clock controller said, where it was asked. With `Panic`
    /// the daemon is to stop: the offset is beyond what may be corrected.
    pub verdict: Option<ClockUpdateResult>,
}

/// What the system publishes of itself once the clock was corrected from
/// `system_peer`.
pub open spec fn spec_published(
    before: SystemSnapshot,
    config: SystemConfig,
    system_peer: PeerSnapshot,
    poll_interval: PollInterval,
    reset_epoch: ResetEpoch,
) -> SystemSnapshot {
    SystemSnapshot {
        stratum: if system_peer.stratum == u8::MAX {
            u8::MAX
        } else {
            (system_peer.stratum + 1) as u8
        },
        reference_id: system_peer.reference_id,
        accumulated_steps_threshold: config.accumulated_threshold,
        time_snapshot: TimeSnapshot {
            poll_interval,
            precision: before.time_snapshot.precision,
            root_delay: system_peer.root_delay,
            root_dispersion: system_peer.root_dispersion,
            leap_indicator: system_peer.leap_indicator,
        },
        reset_epoch,
    }
}

impl SystemModel {
    /// The system's own state after the peers reported `reaction`.
    pub open spec fn published(self, reaction: Reaction, reset_epoch: ResetEpoch) -> Option<
        SystemSnapshot,
    > {
        match reaction {
            Reaction::Steered { verdict, system_peer, poll_interval, .. } => if verdict
                == ClockUpdateResult::Slew || verdict == ClockUpdateResult::Step {
                Some(
                    spec_published(self.system, self.config, system_peer, poll_interval, reset_epoch),
                )
            } else {
                None
            },
            _ => None,
        }
    }
}

impl<C: NtpClock> System<C> {
    pub closed spec fn view(&self) -> SystemModel {
        SystemModel { config: self.config, system: self.system, peers: self.peers@ }
    }

    /// A system without peers, which takes its stratum from the
    /// configuration until it is synchronised. Fails where the clock
    /// refuses to have its rate set to zero.
    pub fn new(clock: C, config: SystemConfig, now: NtpInstant) -> (r: Result<System<C>, C::Error>)
        ensures
            r matches Ok(system) ==> {
                &&& system@ == (SystemModel {
                    config,
                    system: SystemSnapshot {
                        stratum: config.local_stratum,
                        ..SystemSnapshot::spec_default()
                    },
                    peers: PeersModel::spec_new(config, now),
                })
                &&& system.spec_clock() == clock
            },
    {
        match Peers::new(clock, config, now) {
            Ok(peers) => Ok(Self::from_peers(peers, config)),
            Err(e) => Err(e),
        }
    }

    /// The system of `peers` under `config`. Until it is synchronised it
    /// shows the stratum that the configuration gives the local clock,
    /// and for the rest what a system shows that knows nothing.
    pub fn from_peers(peers: Peers<C>, config: SystemConfig) -> (r: System<C>)
        ensures
            r@ == (SystemModel {
                config,
                system: SystemSnapshot {
                    stratum: config.local_stratum,
                    ..SystemSnapshot::spec_default()
                },
                peers: peers@,
            }),
            r.spec_clock() == peers.spec_clock(),
    {
        let mut system = SystemSnapshot::default();
        system.stratum = config.local_stratum;
        System { config, system, peers }
    }

    /// The clock that is steered.
    pub closed spec fn spec_clock(&self) -> C {
        self.peers.spec_clock()
    }

    /// What the system publishes of itself.
    pub fn snapshot(&self) -> (r: SystemSnapshot)
        ensures
            r == self@.system,
    {
        self.system
    }

    pub fn config(&self) -> (r: SystemConfig)
        ensures
            r == self@.config,
    {
        self.config
    }

    pub fn peers(&self) -> (r: &Peers<C>)
        ensures
            r@ == self@.peers,
    {
        &self.peers
    }

    /// Takes a message from a peer: the peers take it, and where the
    /// clock was slewed or stepped the system's own state follows the
    /// peer closest to the truth and is to be published anew. Gives the
    /// clock's error where the clock refuses what it is asked.
    #[verifier::rlimit(50)]
    pub fn handle_message(&mut self, msg: MsgForSystem) -> (r: Result<SystemOutput, C::Error>)
        ensures
            final(self).spec_clock() == old(self).spec_clock(),
            final(self)@.config == old(self)@.config,
            old(self)@.peers.leads_to(
                msg,
                final(self)@.peers,
                match r {
                    Ok(_) => Some(reaction_of(old(self)@.peers, msg, final(self)@.peers)),
                    Err(_) => None,
                },
            ),
            r is Err ==> final(self)@.system == old(self)@.system,
            r matches Ok(output) ==> ({
                let reaction = reaction_of(old(self)@.peers, msg, final(self)@.peers);
                let published = old(self)@.published(reaction, final(self)@.peers.reset_epoch);
                &&& output.snapshot == published
                &&& final(self)@.system == match published {
                    Some(system) => system,
                    None => old(self)@.system,
                }
                &&& match reaction {
                    Reaction::Respawn(request) => output.respawn is Some && request_of(
                        output.respawn->Some_0,
                    ) == request,
                    _ => output.respawn is None,
                }
                &&& match reaction {
                    Reaction::Steered { verdict, .. } => output.verdict == Some(verdict),
                    _ => output.verdict is None,
                }
            }),
    {
        let update = match self.peers.update(msg) {
            Ok(update) => update,
            Err(e) => {
                return Err(e);
            },
        };
        proof {
            lemma_reaction_is(old(self)@.peers, msg, self.peers@, update@);
        }
        match update {
            PeersUpdate::Nothing => Ok(
                SystemOutput { snapshot: None, respawn: None, verdict: None },
            ),
            PeersUpdate::Respawn(config) => Ok(
                SystemOutput { snapshot: None, respawn: Some(config), verdict: None },
            ),
            PeersUpdate::Steered { verdict, used_peers, system_peer, poll_interval } => {
                match verdict {
                    ClockUpdateResult::Slew | ClockUpdateResult::Step => {
                        self.system =
                        SystemSnapshot {
                            stratum: if system_peer.stratum == u8::MAX {
                                u8::MAX
                            } else {
                                system_peer.stratum + 1
                            },
                            reference_id: system_peer.reference_id,
                            accumulated_steps_threshold: self.config.accumulated_threshold,
                            time_snapshot: TimeSnapshot {
                                poll_interval,
                                precision: self.system.time_snapshot.precision,
                                root_delay: system_peer.root_delay,
                                root_dispersion: system_peer.root_dispersion,
                                leap_indicator: system_peer.leap_indicator,
                            },
                            reset_epoch: self.peers.reset_epoch(),
                        };
                        Ok(
                            SystemOutput {
                                snapshot: Some(self.system),
                                respawn: None,
                                verdict: Some(verdict),
                            },
                        )
                    },
                    _ => Ok(SystemOutput { snapshot: None, respawn: None, verdict: Some(verdict) }),
                }
            },
        }
    }

    /// Takes a peer that the spawner resolved: the peer gets a name and a
    /// place in the table. Gives the name under which the peer's task is
    /// to run and the address it is to talk to; `None` once every name
    /// has been given out.
    pub fn handle_spawn_task(&mut self, task: SpawnTask) -> (r: Option<(PeerIndex, SocketAddress)>)
        ensures
            final(self).spec_clock() == old(self).spec_clock(),
            final(self)@.config == old(self)@.config,
            final(self)@.system == old(self)@.system,
            old(self)@.peers.next_peer < usize::MAX ==> {
                &&& r == Some((PeerIndex { index: old(self)@.peers.next_peer }, task.address))
                &&& final(self)@.peers == (PeersModel {
                    peers: old(self)@.peers.peers.push(
                        PeerState {
                            index: PeerIndex { index: old(self)@.peers.next_peer },
                            status: PeerStatus::AwaitingReset,
                            usable: false,
                            since: None,
                            peer_address: task.peer_address,
                        },
                    ),
                    next_peer: (old(self)@.peers.next_peer + 1) as usize,
                    ..old(self)@.peers
                })
            },
            old(self)@.peers.next_peer == usize::MAX ==> r is None && final(self)@ == old(self)@,
    {
        let address = task.address;
        match self.peers.spawn_task(task.peer_address) {
            Some(index) => Some((index, address)),
            None => None,
        }
    }

    /// Takes a new configuration.
    pub fn handle_config(&mut self, config: SystemConfig)
        ensures
            final(self).spec_clock() == old(self).spec_clock(),
            final(self)@ == (SystemModel {
                config,
                system: old(self)@.system,
                peers: PeersModel {
                    config,
                    limits: PanicThresholds {
                        running: config.panic_threshold,
                        startup: config.startup_panic_threshold,
                    },
                    ..old(self)@.peers
                },
            }),
    {
        self.peers.update_config(config);
        self.config = config;
    }

    /// What is to be published once peers were added: what an observer
    /// learns of every peer, and the responders that run.
    pub fn update_snapshots_post_spawn(&self, now: NtpInstant) -> (r: (
        Vec<ObservablePeerState>,
        Vec<ServerData>,
    ))
        ensures
            r.0@.len() == self@.peers.peers.len(),
            forall|i: int|
                0 <= i < r.0@.len() ==> #[trigger] r.0@[i] == spec_observe(
                    self@.peers.peers[i],
                    now,
                ),
            r.1@ == self@.peers.servers,
    {
        (self.peers.observe_peers(now), self.peers.servers())
    }
}

/// What the peers report of `msg`, given the system that it left.
pub open spec fn reaction_of(before: PeersModel, msg: MsgForSystem, after: PeersModel) -> Reaction {
    match msg {
        MsgForSystem::NetworkIssue(index) => match before.replacement(index) {
            Some(request) => Reaction::Respawn(request),
            None => Reaction::Nothing,
        },
        MsgForSystem::NewMeasurement(index, snapshot, measurement, _) => {
            let taken = before.with_snapshot(index, snapshot, Some(measurement.monotime));
            if before.takes(index, snapshot) && taken.clock_plan() is Some {
                taken.report(taken.clock_plan()->Some_0)
            } else {
                Reaction::Nothing
            }
        },
        _ => Reaction::Nothing,
    }
}

proof fn lemma_reaction_is(
    before: PeersModel,
    msg: MsgForSystem,
    after: PeersModel,
    reaction: Reaction,
)
    requires
        before.leads_to(msg, after, Some(reaction)),
    ensures
        reaction == reaction_of(before, msg, after),
{
}

/// How many of the first `n` configurations name a pool.
pub open spec fn pools_among(configs: Seq<PeerConfig>, n: nat) -> nat
    decreases n,
{
    if n == 0 {
        0
    } else {
        pools_among(configs, (n - 1) as nat) + if configs[n - 1] is Pool {
            1nat
        } else {
            0nat
        }
    }
}

/// The requests that the first `n` configurations lead to, in their
/// order, where `peers` run and `next_pool` is the next pool name: a
/// single peer for each single server, and for each pool a request under
/// a name of its own, with the addresses of its members among `peers` as
/// those in use. A pool for which no name is left is passed over.
pub open spec fn spec_configured(
    peers: Seq<PeerState>,
    next_pool: usize,
    configs: Seq<PeerConfig>,
    n: nat,
) -> Seq<SpawnRequest>
    decreases n,
{
    if n == 0 {
        Seq::empty()
    } else {
        let before = spec_configured(peers, next_pool, configs, (n - 1) as nat);
        let pool = next_pool + pools_among(configs, (n - 1) as nat);
        match configs[n - 1] {
            PeerConfig::Standard(config) => before.push(
                SpawnRequest::Standard { address: config.addr },
            ),
            PeerConfig::Pool(config) => if pool < usize::MAX {
                before.push(
                    SpawnRequest::Pool {
                        index: PoolIndex { index: pool as usize },
                        address: config.addr,
                        max_peers: config.max_peers,
                        in_use: spec_in_use(peers, PoolIndex { index: pool as usize }, peers.len()),
                    },
                )
            } else {
                before
            },
        }
    }
}

/// The next pool name once `pools` more pools were named.
pub open spec fn spec_next_pool(next_pool: usize, pools: nat) -> usize {
    if next_pool + pools < usize::MAX {
        (next_pool + pools) as usize
    } else {
        usize::MAX
    }
}

/// What each of `requests` asks for.
pub open spec fn requests_of(requests: Seq<SpawnConfig>) -> Seq<SpawnRequest> {
    Seq::new(requests.len(), |i: int| request_of(requests[i]))
}

/// The first `n` of the responders to run, each with its counters at
/// zero.
pub open spec fn fresh_servers(configs: Seq<ServerConfig>, n: nat) -> Seq<ServerData> {
    Seq::new(
        n,
        |i: int|
            ServerData {
                stats: ServerStats {
                    received_packets: 0,
                    accepted_packets: 0,
                    denied_packets: 0,
                    rate_limited_packets: 0,
                    response_send_errors: 0,
                },
                config: configs[i],
            },
    )
}

impl<C: NtpClock> System<C> {
    /// Takes in what the configuration names: notes the responders to
    /// run, each with its counters at zero, and gives for each
    /// configured peer or pool, in the order of the configuration, the
    /// request to hand to the spawner. The table of peers stays as it
    /// is: peers come to it as the spawner resolves them.
    #[verifier::rlimit(50)]
    pub fn configure(
        &mut self,
        peer_configs: &Vec<PeerConfig>,
        server_configs: &Vec<ServerConfig>,
    ) -> (r: Vec<SpawnConfig>)
        ensures
            final(self)@.config == old(self)@.config,
            final(self)@.system == old(self)@.system,
            final(self).spec_clock() == old(self).spec_clock(),
            final(self)@.peers == (PeersModel {
                servers: old(self)@.peers.servers + fresh_servers(
                    server_configs@,
                    server_configs@.len(),
                ),
                next_pool: spec_next_pool(
                    old(self)@.peers.next_pool,
                    pools_among(peer_configs@, peer_configs@.len()),
                ),
                ..old(self)@.peers
            }),
            requests_of(r@) == spec_configured(
                old(self)@.peers.peers,
                old(self)@.peers.next_pool,
                peer_configs@,
                peer_configs@.len(),
            ),
    {
        let mut requests: Vec<SpawnConfig> = Vec::new();
        let n = peer_configs.len();
        let mut i: usize = 0;
        assert(requests_of(requests@) =~= spec_configured(
            self.peers@.peers,
            self.peers@.next_pool,
            peer_configs@,
            0,
        ));
        while i < n
            invariant
                0 <= i <= n,
                n == peer_configs@.len(),
                self.config == old(self).config,
                self.system == old(self).system,
                self.spec_clock() == old(self).spec_clock(),
                self.peers@ == (PeersModel {
                    next_pool: spec_next_pool(
                        old(self)@.peers.next_pool,
                        pools_among(peer_configs@, i as nat),
                    ),
                    ..old(self)@.peers
                }),
                requests_of(requests@) == spec_configured(
                    old(self)@.peers.peers,
                    old(self)@.peers.next_pool,
                    peer_configs@,
                    i as nat,
                ),
            decreases n - i,
        {
            let ghost done = requests_of(requests@);
            match &peer_configs[i] {
                PeerConfig::Standard(standard) => {
                    let request = self.peers.add_peer(standard.addr.duplicate());
                    requests.push(request);
                    assert(requests_of(requests@) =~= done.push(
                        SpawnRequest::Standard { address: standard.addr },
                    ));
                },
                PeerConfig::Pool(pool) => {
                    match self.peers.add_new_pool(pool.addr.duplicate(), pool.max_peers) {
                        Some(request) => {
                            let ghost asked = request_of(request);
                            requests.push(request);
                            assert(requests_of(requests@) =~= done.push(asked));
                        },
                        None => {
                            assert(requests_of(requests@) =~= done);
                        },
                    }
                },
            }
            i = i + 1;
        }
        let m = server_configs.len();
        let ghost servers = self.peers@.servers;
        let mut k: usize = 0;
        assert(self.peers@.servers =~= servers + fresh_servers(server_configs@, 0));
        while k < m
            invariant
                0 <= k <= m,
                m == server_configs@.len(),
                servers == old(self)@.peers.servers,
                self.config == old(self).config,
                self.system == old(self).system,
                self.spec_clock() == old(self).spec_clock(),
                self.peers@ == (PeersModel {
                    servers: servers + fresh_servers(server_configs@, k as nat),
                    next_pool: spec_next_pool(
                        old(self)@.peers.next_pool,
                        pools_among(peer_configs@, peer_configs@.len()),
                    ),
                    ..old(self)@.peers
                }),
            decreases m - k,
        {
            self.peers.add_server(server_configs[k]);
            assert(self.peers@.servers =~= servers + fresh_servers(
                server_configs@,
                (k + 1) as nat,
            ));
            k = k + 1;
        }
        requests
    }
}

/// Sets the system up: a system without peers that knows the
/// responders it is to run, and for each configured peer or pool, in the
/// order of the configuration, the request to hand to the spawner. Fails
/// where the clock refuses to have its rate set to zero.
#[verifier::rlimit(50)]
pub fn spawn<C: NtpClock>(
    clock: C,
    config: SystemConfig,
    peer_configs: &Vec<PeerConfig>,
    server_configs: &Vec<ServerConfig>,
    now: NtpInstant,
) -> (r: Result<(System<C>, Vec<SpawnConfig>), C::Error>)
    ensures
        r matches Ok((system, requests)) ==> {
            &&& system@.config == config
            &&& system@.system == (SystemSnapshot {
                stratum: config.local_stratum,
                ..SystemSnapshot::spec_default()
            })
            &&& system@.peers == (PeersModel {
                servers: fresh_servers(server_configs@, server_configs@.len()),
                next_pool: spec_next_pool(0, pools_among(peer_configs@, peer_configs@.len())),
                ..PeersModel::spec_new(config, now)
            })
            &&& system.spec_clock() == clock
            &&& requests_of(requests@) == spec_configured(
                Seq::empty(),
                0,
                peer_configs@,
                peer_configs@.len(),
            )
        },
{
    match System::new(clock, config, now) {
        Ok(system) => {
            let mut system = system;
            let requests = system.configure(peer_configs, server_configs);
            proof {
                let fresh = fresh_servers(server_configs@, server_configs@.len());
                assert(Seq::<ServerData>::empty() + fresh =~= fresh);
            }
            Ok((system, requests))
        },
        Err(e) => Err(e),
    }
}

} // verus!
