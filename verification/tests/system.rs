use core::cell::RefCell;
use ntp_client::address::{NormalizedAddress, PeerAddress, SocketAddress};
use ntp_client::clock::{ClockState, ClockUpdateResult, Frequency, NtpClock};
use ntp_client::config::SystemConfig;
use ntp_client::filter::PeerStatistics;
use ntp_client::identifiers::{PeerIndex, PoolIndex, ReferenceId, ResetEpoch};
use ntp_client::observer::{observe, ObservablePeerState, Observation, Observe};
use ntp_client::packet::{NtpHeader, NtpLeapIndicator};
use ntp_client::peer::{Measurement, PeerSnapshot, SystemSnapshot, TimeSnapshot};
use ntp_client::peer_task::MsgForSystem;
use ntp_client::reach::Reach;
use ntp_client::spawn::{
    spawn_standard, PeerConfig, PoolLookup, PoolNext, PoolPeerConfig, SpawnConfig, SpawnJob, SpawnTask,
    Spawner, StandardPeerConfig, StandardStep,
};
use ntp_client::system::{
    Peers, PeerStatus, PeersUpdate, ServerConfig, ServerData, ServerStats, System, SystemOutput,
};
use ntp_client::time_types::{NtpDuration, NtpInstant, NtpTimestamp, PollInterval};

#[derive(Debug, Clone, PartialEq)]
enum Call {
    SetFreq(Frequency),
    Step(NtpDuration),
    Update(NtpDuration, NtpDuration, NtpDuration, PollInterval, NtpLeapIndicator),
}

#[derive(Debug, Default)]
struct TestClock {
    calls: RefCell<Vec<Call>>,
}

impl NtpClock for TestClock {
    type Error = std::io::Error;

    fn now(&self) -> std::result::Result<NtpTimestamp, Self::Error> {
        Ok(NtpTimestamp::default())
    }

    fn set_freq(&self, freq: Frequency) -> Result<(), Self::Error> {
        self.calls.borrow_mut().push(Call::SetFreq(freq));
        Ok(())
    }

    fn step_clock(&self, offset: NtpDuration) -> Result<(), Self::Error> {
        self.calls.borrow_mut().push(Call::Step(offset));
        Ok(())
    }

    fn update_clock(
        &self,
        offset: NtpDuration,
        est_error: NtpDuration,
        max_error: NtpDuration,
        poll_interval: PollInterval,
        leap_status: NtpLeapIndicator,
    ) -> Result<(), Self::Error> {
        self.calls
            .borrow_mut()
            .push(Call::Update(offset, est_error, max_error, poll_interval, leap_status));
        Ok(())
    }
}

// A clock that accepts its rate and nothing else.
#[derive(Debug, Default)]
struct StuckClock {}

impl NtpClock for StuckClock {
    type Error = &'static str;

    fn now(&self) -> Result<NtpTimestamp, Self::Error> {
        Err("stuck")
    }

    fn set_freq(&self, _freq: Frequency) -> Result<(), Self::Error> {
        Ok(())
    }

    fn step_clock(&self, _offset: NtpDuration) -> Result<(), Self::Error> {
        Err("stuck")
    }

    fn update_clock(
        &self,
        _offset: NtpDuration,
        _est_error: NtpDuration,
        _max_error: NtpDuration,
        _poll_interval: PollInterval,
        _leap_status: NtpLeapIndicator,
    ) -> Result<(), Self::Error> {
        Err("stuck")
    }
}

fn base() -> NtpInstant {
    NtpInstant::from_elapsed(50, 0)
}

fn local(last: u8) -> SocketAddress {
    SocketAddress::v4(127, 0, 0, last, 123)
}

fn name(text: &str) -> NormalizedAddress {
    NormalizedAddress::new(text.to_string(), 123)
}

fn seconds(value: f64) -> NtpDuration {
    NtpDuration::from_fixed_int((value * 4294967296.0) as i64)
}

// A fit peer whose offset lies between `low` and `high` seconds.
fn snapshot_between(low: f64, high: f64, epoch: u64, at: NtpInstant) -> PeerSnapshot {
    PeerSnapshot {
        our_id: ReferenceId::from_int(1),
        peer_id: ReferenceId::from_int(2),
        poll_interval: PollInterval::from_log(4),
        reach: Reach { bits: 1 },
        stratum: 2,
        leap_indicator: NtpLeapIndicator::NoWarning,
        root_delay: NtpDuration::zero(),
        root_dispersion: seconds((high - low) / 2.0),
        precision: -20,
        reference_id: ReferenceId::from_int(0x0a00_0001),
        statistics: PeerStatistics {
            offset: seconds((low + high) / 2.0),
            delay: seconds(0.01),
            dispersion: NtpDuration::zero(),
            jitter: NtpDuration::zero(),
        },
        time: at,
        reset_epoch: ResetEpoch { epoch },
    }
}

fn peer_snapshot() -> PeerSnapshot {
    snapshot_between(-0.5, 0.5, 0, base())
}

fn measurement(at: NtpInstant) -> Measurement {
    Measurement {
        delay: seconds(0.1),
        offset: seconds(0.),
        localtime: NtpTimestamp::from_seconds_nanos_since_ntp_era(0, 0),
        monotime: at,
    }
}

fn spawn_single(system: &mut System<TestClock>, last: u8) -> PeerIndex {
    let task = SpawnTask {
        peer_address: PeerAddress::Peer { address: name(&format!("127.0.0.{}", last)) },
        address: local(last),
    };
    let (index, address) = system.handle_spawn_task(task).unwrap();
    assert_eq!(address, local(last));
    index
}

fn valid_peers<C: NtpClock>(peers: &Peers<C>, names: usize) -> i32 {
    let mut count = 0;
    for index in 0..names {
        if matches!(peers.status(PeerIndex::from_inner(index)), PeerStatus::Valid(_)) {
            count += 1;
        }
    }
    count
}

// All three peers report an offset between `low` and `high`; the last
// does so with a new measurement.
fn report(
    system: &mut System<TestClock>,
    low: f64,
    high: f64,
    epoch: u64,
    at: NtpInstant,
) -> SystemOutput {
    for index in 0..2 {
        let out = system
            .handle_message(MsgForSystem::UpdatedSnapshot(
                PeerIndex::from_inner(index),
                snapshot_between(low, high, epoch, at),
            ))
            .unwrap();
        assert_eq!(out, SystemOutput { snapshot: None, respawn: None, verdict: None });
    }
    system
        .handle_message(MsgForSystem::NewMeasurement(
            PeerIndex::from_inner(2),
            snapshot_between(low, high, epoch, at),
            measurement(at),
            NtpHeader::new(),
        ))
        .unwrap()
}

#[test]
fn test_peers() {
    let mut addresses = Vec::new();
    for i in 0..4 {
        addresses.push(name(&format!("127.0.0.{i}:123")));
    }
    let mut peers =
        Peers::from_statuslist(&vec![None; 4], &addresses, TestClock::default(), base()).unwrap();
    let base = base();
    assert_eq!(valid_peers(&peers, 4), 0);

    peers
        .update(MsgForSystem::NewMeasurement(
            PeerIndex { index: 0 },
            peer_snapshot(),
            measurement(base),
            NtpHeader::new(),
        ))
        .unwrap();
    assert_eq!(valid_peers(&peers, 4), 1);

    peers
        .update(MsgForSystem::NewMeasurement(
            PeerIndex { index: 0 },
            peer_snapshot(),
            measurement(base),
            NtpHeader::new(),
        ))
        .unwrap();
    assert_eq!(valid_peers(&peers, 4), 1);

    peers
        .update(MsgForSystem::UpdatedSnapshot(PeerIndex { index: 1 }, peer_snapshot()))
        .unwrap();
    assert_eq!(valid_peers(&peers, 4), 2);

    peers.update(MsgForSystem::MustDemobilize(PeerIndex { index: 1 })).unwrap();
    assert_eq!(valid_peers(&peers, 4), 1);
    assert_eq!(peers.len(), 3);
    assert_eq!(peers.status(PeerIndex { index: 1 }), PeerStatus::Demobilized);
    assert_eq!(peers.peer_snapshot(PeerIndex { index: 0 }), Some(peer_snapshot()));
    assert_eq!(peers.peer_snapshot(PeerIndex { index: 1 }), None);
    assert_eq!(peers.peer_snapshot(PeerIndex { index: 2 }), None);
}

// Runs what the spawner would run for `job`, with names resolved by
// `resolve`, for one round; gives the peers to start.
fn run_job(
    spawner: &mut Spawner,
    job: SpawnJob,
    resolve: &dyn Fn(&NormalizedAddress) -> Vec<SocketAddress>,
) -> (Vec<SpawnTask>, Option<PoolNext>) {
    match job {
        SpawnJob::Standard { config } => {
            let found = Some(resolve(&config.addr));
            match spawn_standard(&config, &found) {
                StandardStep::Spawn(task) => (vec![task], None),
                StandardStep::Retry { .. } => (Vec::new(), None),
            }
        }
        SpawnJob::Pool { slot, mut fill } => {
            let pool = &mut spawner.pools[slot].1;
            let lookup = if fill.needs_lookup(pool) {
                PoolLookup::Resolved(resolve(&fill.config.addr))
            } else {
                PoolLookup::NotNeeded
            };
            let round = fill.spawn_pool(pool, lookup);
            (round.tasks, Some(round.next))
        }
    }
}

fn respawn_of(update: PeersUpdate) -> SpawnConfig {
    match update {
        PeersUpdate::Respawn(config) => config,
        other => panic!("the peer is to be replaced, not {:?}", other),
    }
}

#[test]
fn single_peer_pool() {
    let resolve = |address: &NormalizedAddress| match address.server_name.as_str() {
        "127.0.0.2:123" => vec![local(2)],
        "127.0.0.1:123" => vec![local(1)],
        _ => Vec::new(),
    };
    let mut spawner = Spawner::new();
    let mut peers = Peers::new(TestClock::default(), SystemConfig::default(), base()).unwrap();

    let peer_address = name("127.0.0.2:123");
    let job = spawner.spawn(peers.add_peer(peer_address));
    let (mut tasks, _) = run_job(&mut spawner, job, &resolve);

    let pool_address = name("127.0.0.1:123");
    let max_peers = 1;
    let job = spawner.spawn(peers.add_new_pool(pool_address.clone(), max_peers).unwrap());
    let (more, next) = run_job(&mut spawner, job, &resolve);
    assert_eq!(next, Some(PoolNext::Done));
    tasks.extend(more);

    assert_eq!(tasks.len(), 2);
    for task in tasks {
        peers.spawn_task(task.peer_address);
    }

    // we have 2 peers
    assert_eq!(peers.len(), 2);

    // our pool peer has a network issue
    let update = peers.update(MsgForSystem::NetworkIssue(PeerIndex { index: 1 })).unwrap();
    assert_eq!(peers.len(), 1);

    let job = spawner.spawn(respawn_of(update));
    let (tasks, _) = run_job(&mut spawner, job, &resolve);
    assert_eq!(tasks.len(), 1);
    for task in tasks {
        assert_eq!(task.address, local(1));
        peers.spawn_task(task.peer_address);
    }

    // automatically selects another peer from the pool
    assert_eq!(peers.len(), 2);
    assert_eq!(peers.status(PeerIndex { index: 1 }), PeerStatus::Demobilized);
    assert_eq!(peers.status(PeerIndex { index: 2 }), PeerStatus::AwaitingReset);
}

#[test]
fn max_peers_bigger_than_pool_size() {
    let resolve = |address: &NormalizedAddress| match address.server_name.as_str() {
        "127.0.0.5:123" => vec![local(5)],
        "tweedegolf.nl:123" => vec![local(1)],
        _ => Vec::new(),
    };
    let mut spawner = Spawner::new();
    let mut peers = Peers::new(TestClock::default(), SystemConfig::default(), base()).unwrap();

    let peer_address = name("127.0.0.5:123");
    let job = spawner.spawn(peers.add_peer(peer_address));
    let (mut tasks, _) = run_job(&mut spawner, job, &resolve);

    let pool_address = name("tweedegolf.nl:123");
    let max_peers = 2;
    let job = spawner.spawn(peers.add_new_pool(pool_address.clone(), max_peers).unwrap());
    let (more, next) = run_job(&mut spawner, job, &resolve);
    assert_eq!(next, Some(PoolNext::Wait { wait: 2000, underfilled: true, remaining: 1 }));
    tasks.extend(more);

    assert_eq!(tasks.len(), 2);
    for task in tasks {
        peers.spawn_task(task.peer_address);
    }

    // we have only 2 peers, because the pool has size 1
    assert_eq!(peers.len(), 2);

    // our pool peer has a network issue
    let update = peers.update(MsgForSystem::NetworkIssue(PeerIndex { index: 1 })).unwrap();

    let job = spawner.spawn(respawn_of(update));
    let (tasks, _) = run_job(&mut spawner, job, &resolve);
    assert_eq!(tasks.len(), 1);
    for task in tasks {
        peers.spawn_task(task.peer_address);
    }

    // automatically selects another peer from the pool
    assert_eq!(peers.len(), 2);
}

#[test]
fn simulate_pool() {
    let resolve = |address: &NormalizedAddress| match address.server_name.as_str() {
        "127.0.0.5:123" => vec![local(5)],
        "tweedegolf.nl:123" => vec![local(1), local(2), local(3), local(4)],
        _ => Vec::new(),
    };
    let mut spawner = Spawner::new();
    let mut peers = Peers::new(TestClock::default(), SystemConfig::default(), base()).unwrap();

    let peer_address = name("127.0.0.5:123");
    let job = spawner.spawn(peers.add_peer(peer_address));
    let (mut tasks, _) = run_job(&mut spawner, job, &resolve);

    let pool_address = name("tweedegolf.nl:123");
    let max_peers = 3;
    let job = spawner.spawn(peers.add_new_pool(pool_address.clone(), max_peers).unwrap());
    let (more, next) = run_job(&mut spawner, job, &resolve);
    assert_eq!(next, Some(PoolNext::Done));
    tasks.extend(more);

    assert_eq!(tasks.len(), 4);
    for task in tasks {
        peers.spawn_task(task.peer_address);
    }

    assert_eq!(peers.len(), 4);

    // simulate that a pool peer has a network issue
    let update = peers.update(MsgForSystem::NetworkIssue(PeerIndex { index: 1 })).unwrap();
    let request = respawn_of(update);
    assert_eq!(
        request,
        SpawnConfig::Pool {
            index: PoolIndex { index: 0 },
            config: PoolPeerConfig { addr: name("tweedegolf.nl:123"), max_peers: 3 },
            in_use: vec![local(3), local(2)],
        }
    );

    let job = spawner.spawn(request);
    let (tasks, next) = run_job(&mut spawner, job, &resolve);
    assert_eq!(next, Some(PoolNext::Done));
    assert_eq!(tasks.len(), 1);
    for task in tasks {
        // The one address that was left over.
        assert_eq!(task.address, local(1));
        peers.spawn_task(task.peer_address);
    }

    // automatically selects another peer from the pool
    assert_eq!(peers.len(), 4);
}

#[test]
fn a_single_peer_with_network_issue_is_asked_for_again() {
    let mut peers = Peers::new(TestClock::default(), SystemConfig::default(), base()).unwrap();
    let index = peers.spawn_task(PeerAddress::Peer { address: name("time.test") }).unwrap();
    assert_eq!(index, PeerIndex::from_inner(0));
    let update = peers.update(MsgForSystem::NetworkIssue(index)).unwrap();
    assert_eq!(
        update,
        PeersUpdate::Respawn(SpawnConfig::Standard {
            config: StandardPeerConfig { addr: name("time.test") }
        })
    );
    assert_eq!(peers.len(), 0);
    // A second report of the same peer finds nothing to replace.
    assert_eq!(peers.update(MsgForSystem::NetworkIssue(index)).unwrap(), PeersUpdate::Nothing);
    // Names are not given out twice.
    let next = peers.spawn_task(PeerAddress::Peer { address: name("time.test") }).unwrap();
    assert_eq!(next, PeerIndex::from_inner(1));
}

#[test]
fn messages_of_peers_that_are_gone_change_nothing() {
    let mut system = System::new(TestClock::default(), SystemConfig::default(), base()).unwrap();
    for last in 1..=3 {
        spawn_single(&mut system, last);
    }
    system.handle_message(MsgForSystem::MustDemobilize(PeerIndex::from_inner(1))).unwrap();
    assert_eq!(system.peers().len(), 2);
    let out = system
        .handle_message(MsgForSystem::UpdatedSnapshot(PeerIndex::from_inner(1), peer_snapshot()))
        .unwrap();
    assert_eq!(out, SystemOutput { snapshot: None, respawn: None, verdict: None });
    let out = system
        .handle_message(MsgForSystem::NewMeasurement(
            PeerIndex::from_inner(1),
            peer_snapshot(),
            measurement(base()),
            NtpHeader::new(),
        ))
        .unwrap();
    assert_eq!(out, SystemOutput { snapshot: None, respawn: None, verdict: None });
    assert_eq!(system.peers().status(PeerIndex::from_inner(1)), PeerStatus::Demobilized);
    assert_eq!(system.peers().len(), 2);
}

#[test]
fn intersection_rejects_minority_and_leaves_the_clock_alone() {
    let mut system = System::new(TestClock::default(), SystemConfig::default(), base()).unwrap();
    for last in 1..=3 {
        spawn_single(&mut system, last);
    }
    let at = base().plus_seconds(1);
    let ranges = [(-10.0, -5.0), (5.0, 10.0), (6.0, 9.0)];
    for (index, (low, high)) in ranges.iter().enumerate() {
        let out = system
            .handle_message(MsgForSystem::NewMeasurement(
                PeerIndex::from_inner(index),
                snapshot_between(*low, *high, 0, at),
                measurement(at),
                NtpHeader::new(),
            ))
            .unwrap();
        assert_eq!(out, SystemOutput { snapshot: None, respawn: None, verdict: None });
    }
    // Only the rate was ever set, at the start.
    assert_eq!(system.peers().clock().calls.borrow().len(), 1);
    assert_eq!(system.peers().controller_state().state, ClockState::StartupBlank);
    assert_eq!(system.snapshot().stratum, 16);
    assert_eq!(valid_peers(system.peers(), 3), 3);

    // With two survivors asked for, the two that agree are enough.
    let mut config = SystemConfig::default();
    config.min_intersection_survivors = 2;
    system.handle_config(config);
    assert_eq!(system.config(), config);
    let out = system
        .handle_message(MsgForSystem::NewMeasurement(
            PeerIndex::from_inner(0),
            snapshot_between(-10.0, -5.0, 0, at),
            measurement(at),
            NtpHeader::new(),
        ))
        .unwrap();
    assert_eq!(out.verdict, Some(ClockUpdateResult::Step));
    assert_eq!(
        system.peers().clock().calls.borrow().last(),
        Some(&Call::Step(seconds(7.5)))
    );
}

#[test]
fn unfit_peers_are_left_out_of_the_selection() {
    let mut system = System::new(TestClock::default(), SystemConfig::default(), base()).unwrap();
    for last in 1..=3 {
        spawn_single(&mut system, last);
    }
    let at = base().plus_seconds(1);
    let mut unfit = snapshot_between(-0.5, 0.5, 0, at);
    unfit.leap_indicator = NtpLeapIndicator::Unknown;
    system.handle_message(MsgForSystem::UpdatedSnapshot(PeerIndex::from_inner(0), unfit)).unwrap();
    let mut far = snapshot_between(-0.5, 0.5, 0, at);
    far.stratum = 16;
    system.handle_message(MsgForSystem::UpdatedSnapshot(PeerIndex::from_inner(1), far)).unwrap();
    let mut config = SystemConfig::default();
    config.min_intersection_survivors = 2;
    system.handle_config(config);
    let out = system
        .handle_message(MsgForSystem::NewMeasurement(
            PeerIndex::from_inner(2),
            snapshot_between(-0.5, 0.5, 0, at),
            measurement(at),
            NtpHeader::new(),
        ))
        .unwrap();
    assert_eq!(out, SystemOutput { snapshot: None, respawn: None, verdict: None });
    assert_eq!(valid_peers(system.peers(), 3), 3);
}

#[test]
fn spike_then_step() {
    let mut system = System::new(TestClock::default(), SystemConfig::default(), base()).unwrap();
    for last in 1..=3 {
        assert_eq!(spawn_single(&mut system, last), PeerIndex::from_inner(last as usize - 1));
    }
    assert_eq!(system.snapshot().stratum, 16);
    assert_eq!(system.peers().reset_epoch(), ResetEpoch { epoch: 0 });

    // Startup: the first offset steps the clock.
    let t0 = base().plus_seconds(1);
    let out = report(&mut system, -0.25, 0.25, 0, t0);
    assert_eq!(out.verdict, Some(ClockUpdateResult::Step));
    assert_eq!(system.peers().reset_epoch(), ResetEpoch { epoch: 1 });
    assert_eq!(system.peers().controller_state().state, ClockState::MeasureFreq);
    assert_eq!(valid_peers(system.peers(), 3), 0);
    let published = out.snapshot.unwrap();
    assert_eq!(published, system.snapshot());
    assert_eq!(
        published,
        SystemSnapshot {
            stratum: 3,
            reference_id: ReferenceId::from_int(0x0a00_0001),
            accumulated_steps_threshold: None,
            time_snapshot: TimeSnapshot {
                poll_interval: PollInterval::from_log(4),
                precision: NtpDuration::zero(),
                root_delay: NtpDuration::zero(),
                root_dispersion: seconds(0.25),
                leap_indicator: NtpLeapIndicator::NoWarning,
            },
            reset_epoch: ResetEpoch { epoch: 1 },
        }
    );

    // Fifteen minutes later the rate is measured and the clock is in
    // step.
    let t1 = t0.plus_seconds(900);
    let out = report(&mut system, -0.25, 0.25, 1, t1);
    assert_eq!(out.verdict, Some(ClockUpdateResult::Slew));
    assert_eq!(system.peers().controller_state().state, ClockState::Sync);
    assert_eq!(system.peers().controller_state().offset, seconds(0.0));
    assert_eq!(valid_peers(system.peers(), 3), 3);
    let calls = system.peers().clock().calls.borrow().clone();
    assert_eq!(
        calls,
        vec![
            Call::SetFreq(Frequency { offset: seconds(0.0), interval: seconds(1.0) }),
            Call::Step(seconds(0.0)),
            Call::SetFreq(Frequency { offset: seconds(0.0), interval: seconds(900.0) }),
            Call::Update(
                seconds(0.0),
                seconds(0.0),
                seconds(0.25),
                PollInterval::from_log(4),
                NtpLeapIndicator::NoWarning
            ),
        ]
    );

    // A sample of twice the step threshold is held back as a spike.
    let t2 = t1.plus_seconds(1);
    let out = report(&mut system, 0.0, 0.5, 1, t2);
    assert_eq!(out, SystemOutput { snapshot: None, respawn: None, verdict: Some(ClockUpdateResult::Ignore) });
    assert_eq!(system.peers().controller_state().state, ClockState::Spike);
    assert_eq!(system.peers().reset_epoch(), ResetEpoch { epoch: 1 });
    assert_eq!(valid_peers(system.peers(), 3), 3);
    assert_eq!(system.peers().clock().calls.borrow().len(), 4);

    // It is still there 902 seconds after the last update: the clock is
    // stepped.
    let t3 = t1.plus_seconds(902);
    let out = report(&mut system, 0.0, 0.5, 1, t3);
    assert_eq!(out.verdict, Some(ClockUpdateResult::Step));
    assert_eq!(system.peers().clock().calls.borrow().last(), Some(&Call::Step(seconds(0.25))));
    assert_eq!(system.peers().preferred_poll_interval(), PollInterval::shortest());
    assert_eq!(system.peers().controller_state().state, ClockState::Sync);
    assert_eq!(system.peers().reset_epoch(), ResetEpoch { epoch: 2 });
    assert_eq!(out.snapshot.unwrap().reset_epoch, ResetEpoch { epoch: 2 });
    for index in 0..3 {
        assert_eq!(system.peers().status(PeerIndex::from_inner(index)), PeerStatus::AwaitingReset);
    }

    // What was measured before the step comes too late.
    let late = report(&mut system, 0.0, 0.5, 1, t3);
    assert_eq!(late, SystemOutput { snapshot: None, respawn: None, verdict: None });
    assert_eq!(valid_peers(system.peers(), 3), 0);
    assert_eq!(system.peers().clock().calls.borrow().len(), 5);
    // What is measured after it counts again.
    system
        .handle_message(MsgForSystem::UpdatedSnapshot(
            PeerIndex::from_inner(0),
            snapshot_between(-0.1, 0.1, 2, t3),
        ))
        .unwrap();
    assert_eq!(valid_peers(system.peers(), 3), 1);
}

#[test]
fn an_offset_beyond_the_limit_is_refused() {
    let mut system = System::new(TestClock::default(), SystemConfig::default(), base()).unwrap();
    for last in 1..=3 {
        spawn_single(&mut system, last);
    }
    let t0 = base().plus_seconds(1);
    report(&mut system, -0.25, 0.25, 0, t0);
    let t1 = t0.plus_seconds(900);
    report(&mut system, -0.25, 0.25, 1, t1);
    let before = system.snapshot();
    let out = report(&mut system, 1999.0, 2001.0, 1, t1.plus_seconds(16));
    assert_eq!(
        out,
        SystemOutput { snapshot: None, respawn: None, verdict: Some(ClockUpdateResult::Panic) }
    );
    assert_eq!(system.snapshot(), before);
    assert_eq!(system.peers().controller_state().state, ClockState::Sync);
    assert_eq!(system.peers().clock().calls.borrow().len(), 4);
}

#[test]
fn a_clock_that_refuses_stops_the_update() {
    let mut config = SystemConfig::default();
    config.min_intersection_survivors = 1;
    config.local_stratum = 9;
    let mut system = System::new(StuckClock::default(), config, base()).unwrap();
    assert_eq!(system.snapshot().stratum, 9);
    let task = SpawnTask {
        peer_address: PeerAddress::Peer { address: name("time.test") },
        address: local(1),
    };
    let (index, _) = system.handle_spawn_task(task).unwrap();
    let at = base().plus_seconds(1);
    let outcome = system.handle_message(MsgForSystem::NewMeasurement(
        index,
        snapshot_between(-0.5, 0.5, 0, at),
        measurement(at),
        NtpHeader::new(),
    ));
    assert_eq!(outcome, Err("stuck"));
    // The snapshot is kept, the controller and the system are as they
    // were.
    assert_eq!(system.peers().status(index), PeerStatus::Valid(snapshot_between(-0.5, 0.5, 0, at)));
    assert_eq!(system.peers().controller_state().state, ClockState::StartupBlank);
    assert_eq!(system.peers().reset_epoch(), ResetEpoch { epoch: 0 });
    assert_eq!(system.snapshot().stratum, 9);
}

#[test]
fn observers_see_each_peer() {
    let mut system = System::new(TestClock::default(), SystemConfig::default(), base()).unwrap();
    for last in 1..=2 {
        spawn_single(&mut system, last);
    }
    let at = base().plus_seconds(1);
    system
        .handle_message(MsgForSystem::NewMeasurement(
            PeerIndex::from_inner(1),
            snapshot_between(-0.5, 0.5, 0, at),
            measurement(at),
            NtpHeader::new(),
        ))
        .unwrap();
    let now = at.plus_seconds(30);
    let seen = system.peers().observe_peers(now);
    assert_eq!(
        seen,
        vec![
            ObservablePeerState::Nothing,
            ObservablePeerState::Observable {
                statistics: snapshot_between(-0.5, 0.5, 0, at).statistics,
                reachability: Reach { bits: 1 },
                uptime: NtpDuration::from_seconds(30),
                poll_interval: PollInterval::from_log(4),
                peer_id: ReferenceId::from_int(2),
                address: "127.0.0.2".to_string(),
            },
        ]
    );
    let stats = ServerStats::default();
    assert_eq!(stats.received_packets, 0);
    let (observed, servers) = system.update_snapshots_post_spawn(now);
    assert_eq!(observed, seen);
    assert_eq!(servers, Vec::new());
    assert_eq!(
        observe(Observe::Peers, seen.clone(), system.snapshot()),
        Observation::Peers(seen.clone())
    );
    assert_eq!(
        observe(Observe::System, seen, system.snapshot()),
        Observation::System(system.snapshot())
    );
}

#[test]
fn servers_are_listed_with_fresh_counters() {
    let mut peers = Peers::new(TestClock::default(), SystemConfig::default(), base()).unwrap();
    assert_eq!(peers.servers(), Vec::new());
    let first = ServerConfig { addr: local(1) };
    let second = ServerConfig { addr: local(2) };
    assert_eq!(peers.add_server(first), ServerStats::default());
    peers.add_server(second);
    assert_eq!(
        peers.servers(),
        vec![
            ServerData { stats: ServerStats::default(), config: first },
            ServerData { stats: ServerStats::default(), config: second },
        ]
    );
}

#[test]
fn pools_get_names_of_their_own() {
    let mut peers = Peers::new(TestClock::default(), SystemConfig::default(), base()).unwrap();
    let first = peers.add_new_pool(name("pool.test"), 2).unwrap();
    let second = peers.add_new_pool(name("pool.test"), 2).unwrap();
    let expected = |pool: usize| SpawnConfig::Pool {
        index: PoolIndex { index: pool },
        config: PoolPeerConfig { addr: name("pool.test"), max_peers: 2 },
        in_use: Vec::new(),
    };
    assert_eq!(first, expected(0));
    assert_eq!(second, expected(1));
    let member = |pool: usize, last: u8| PeerAddress::Pool {
        index: PoolIndex { index: pool },
        address: name("pool.test"),
        socket_address: local(last),
        max_peers: 2,
    };
    peers.spawn_task(member(0, 1));
    peers.spawn_task(member(1, 2));
    peers.spawn_task(PeerAddress::Peer { address: name("time.test") });
    peers.spawn_task(member(0, 3));
    assert_eq!(
        peers.add_to_pool(PoolIndex { index: 0 }, name("pool.test"), 2),
        SpawnConfig::Pool {
            index: PoolIndex { index: 0 },
            config: PoolPeerConfig { addr: name("pool.test"), max_peers: 2 },
            in_use: vec![local(1), local(3)],
        }
    );
    assert_eq!(
        peers.add_peer_internal(name("time.test")),
        SpawnConfig::Standard { config: StandardPeerConfig { addr: name("time.test") } }
    );
}

#[test]
fn startup_asks_for_every_configured_peer() {
    let peer_configs = vec![
        PeerConfig::Pool(PoolPeerConfig { addr: name("first.pool"), max_peers: 4 }),
        PeerConfig::Standard(StandardPeerConfig { addr: name("time.test") }),
        PeerConfig::Pool(PoolPeerConfig { addr: name("second.pool"), max_peers: 2 }),
    ];
    let server_configs = vec![ServerConfig { addr: local(9) }];
    let mut config = SystemConfig::default();
    config.local_stratum = 12;
    let (system, requests) = ntp_client::system::spawn(
        TestClock::default(),
        config,
        &peer_configs,
        &server_configs,
        base(),
    )
    .unwrap();
    assert_eq!(
        requests,
        vec![
            SpawnConfig::Pool {
                index: PoolIndex { index: 0 },
                config: PoolPeerConfig { addr: name("first.pool"), max_peers: 4 },
                in_use: Vec::new(),
            },
            SpawnConfig::Standard { config: StandardPeerConfig { addr: name("time.test") } },
            SpawnConfig::Pool {
                index: PoolIndex { index: 1 },
                config: PoolPeerConfig { addr: name("second.pool"), max_peers: 2 },
                in_use: Vec::new(),
            },
        ]
    );
    assert_eq!(system.peers().len(), 0);
    assert_eq!(system.snapshot().stratum, 12);
    assert_eq!(system.config(), config);
    assert_eq!(
        system.peers().servers(),
        vec![ServerData { stats: ServerStats::default(), config: ServerConfig { addr: local(9) } }]
    );
    assert_eq!(system.peers().controller_state().state, ClockState::StartupBlank);
}

#[test]
fn a_status_list_is_added_under_the_next_names() {
    let mut peers = Peers::new(TestClock::default(), SystemConfig::default(), base()).unwrap();
    peers.spawn_task(PeerAddress::Peer { address: name("first.test") });
    peers.add_statuslist(
        &vec![None, Some(peer_snapshot())],
        &vec![name("second.test"), name("third.test")],
    );
    assert_eq!(peers.len(), 3);
    assert_eq!(peers.status(PeerIndex::from_inner(0)), PeerStatus::AwaitingReset);
    assert_eq!(peers.status(PeerIndex::from_inner(1)), PeerStatus::AwaitingReset);
    assert_eq!(peers.status(PeerIndex::from_inner(2)), PeerStatus::Valid(peer_snapshot()));
    assert_eq!(peers.status(PeerIndex::from_inner(3)), PeerStatus::Demobilized);
    // The next name is the fourth.
    assert_eq!(
        peers.spawn_task(PeerAddress::Peer { address: name("fourth.test") }),
        Some(PeerIndex::from_inner(3))
    );
    let update = peers.update(MsgForSystem::NetworkIssue(PeerIndex::from_inner(2))).unwrap();
    assert_eq!(
        update,
        PeersUpdate::Respawn(SpawnConfig::Standard {
            config: StandardPeerConfig { addr: name("third.test") }
        })
    );
}

#[test]
fn a_system_is_made_of_its_parts() {
    let controller =
        ntp_client::clock::ClockController::started(TestClock::default(), base(), Ok(())).unwrap();
    let mut config = SystemConfig::default();
    config.local_stratum = 7;
    config.min_intersection_survivors = 1;
    let peers = Peers::with_controller(controller, config);
    assert_eq!(peers.len(), 0);
    assert_eq!(peers.servers(), Vec::new());
    assert_eq!(peers.reset_epoch(), ResetEpoch { epoch: 0 });
    assert_eq!(peers.controller_state().state, ClockState::StartupBlank);
    assert_eq!(peers.controller_state().last_update_time, base());
    assert_eq!(peers.clock().calls.borrow().len(), 0);
    let mut system = System::from_peers(peers, config);
    assert_eq!(system.config(), config);
    let mut expected = SystemSnapshot::default();
    expected.stratum = 7;
    assert_eq!(system.snapshot(), expected);
    // The limit of one survivor came with the configuration.
    let index = spawn_single(&mut system, 1);
    let at = base().plus_seconds(1);
    let out = system
        .handle_message(MsgForSystem::NewMeasurement(
            index,
            snapshot_between(-0.5, 0.5, 0, at),
            measurement(at),
            NtpHeader::new(),
        ))
        .unwrap();
    assert_eq!(out.verdict, Some(ClockUpdateResult::Step));
}

#[test]
fn configuring_a_running_system_counts_the_members_in_use() {
    let mut system = System::new(TestClock::default(), SystemConfig::default(), base()).unwrap();
    let first = system.configure(
        &vec![PeerConfig::Pool(PoolPeerConfig { addr: name("first.pool"), max_peers: 4 })],
        &vec![ServerConfig { addr: local(8) }],
    );
    assert_eq!(first.len(), 1);
    let member = SpawnTask {
        peer_address: PeerAddress::Pool {
            index: PoolIndex { index: 1 },
            address: name("second.pool"),
            socket_address: local(3),
            max_peers: 2,
        },
        address: local(3),
    };
    system.handle_spawn_task(member).unwrap();
    let requests = system.configure(
        &vec![
            PeerConfig::Standard(StandardPeerConfig { addr: name("time.test") }),
            PeerConfig::Pool(PoolPeerConfig { addr: name("second.pool"), max_peers: 2 }),
            PeerConfig::Pool(PoolPeerConfig { addr: name("third.pool"), max_peers: 1 }),
        ],
        &vec![ServerConfig { addr: local(9) }],
    );
    assert_eq!(
        requests,
        vec![
            SpawnConfig::Standard { config: StandardPeerConfig { addr: name("time.test") } },
            SpawnConfig::Pool {
                index: PoolIndex { index: 1 },
                config: PoolPeerConfig { addr: name("second.pool"), max_peers: 2 },
                in_use: vec![local(3)],
            },
            SpawnConfig::Pool {
                index: PoolIndex { index: 2 },
                config: PoolPeerConfig { addr: name("third.pool"), max_peers: 1 },
                in_use: Vec::new(),
            },
        ]
    );
    assert_eq!(system.peers().len(), 1);
    assert_eq!(
        system.peers().servers(),
        vec![
            ServerData { stats: ServerStats::default(), config: ServerConfig { addr: local(8) } },
            ServerData { stats: ServerStats::default(), config: ServerConfig { addr: local(9) } },
        ]
    );
}
