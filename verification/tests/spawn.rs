use ntp_client::address::{unspecified_for, IpAddress, NormalizedAddress, PeerAddress, SocketAddress};
use ntp_client::identifiers::PoolIndex;
use ntp_client::spawn::{
    spawn_standard, PoolAddresses, PoolFill, PoolLookup, PoolNext, PoolPeerConfig, SpawnConfig,
    SpawnJob, SpawnTask, Spawner, StandardPeerConfig, StandardStep, MAX_WAIT_PERIOD,
    NETWORK_WAIT_PERIOD,
};

fn local(last: u8) -> SocketAddress {
    SocketAddress::v4(127, 0, 0, last, 123)
}

fn name(text: &str) -> NormalizedAddress {
    NormalizedAddress::new(text.to_string(), 123)
}

fn pool_task(pool: usize, address: SocketAddress, max_peers: usize) -> SpawnTask {
    SpawnTask {
        peer_address: PeerAddress::Pool {
            index: PoolIndex { index: pool },
            address: name("pool.test"),
            socket_address: address,
            max_peers,
        },
        address,
    }
}

#[test]
fn pool_under_resolves() {
    let config = PoolPeerConfig { addr: name("pool.test"), max_peers: 3 };
    let mut fill = PoolFill::new(PoolIndex { index: 0 }, config, Vec::new());
    let mut pool = PoolAddresses::new();
    assert_eq!(fill.remaining(), 3);
    assert!(fill.needs_lookup(&pool));

    // The only address that resolves gives exactly one peer.
    let round = fill.spawn_pool(&mut pool, PoolLookup::Resolved(vec![local(1)]));
    assert_eq!(round.tasks, vec![pool_task(0, local(1), 3)]);
    // The pool is short, which is worth a warning, and waits twice the
    // standard wait.
    assert_eq!(round.next, PoolNext::Wait { wait: 2000, underfilled: true, remaining: 2 });
    assert_eq!(fill.in_use, vec![local(1)]);

    // Each further attempt finds the same address, starts nothing and
    // doubles the wait up to a minute.
    let mut expected = 2000;
    for _ in 0..8 {
        assert!(fill.needs_lookup(&pool));
        let round = fill.spawn_pool(&mut pool, PoolLookup::Resolved(vec![local(1)]));
        assert_eq!(round.tasks, Vec::new());
        expected = std::cmp::min(2 * expected, 60_000);
        assert_eq!(round.next, PoolNext::Wait { wait: expected, underfilled: true, remaining: 2 });
    }
    assert_eq!(expected, MAX_WAIT_PERIOD);
    assert_eq!(fill.wait_period, 60_000);
}

#[test]
fn a_failed_resolution_waits_without_doubling() {
    let config = PoolPeerConfig { addr: name("pool.test"), max_peers: 2 };
    let mut fill = PoolFill::new(PoolIndex { index: 4 }, config, Vec::new());
    let mut pool = PoolAddresses { backups: vec![local(9)] };
    let round = fill.spawn_pool(&mut pool, PoolLookup::Failed);
    assert_eq!(round.tasks, Vec::new());
    assert_eq!(
        round.next,
        PoolNext::Wait { wait: NETWORK_WAIT_PERIOD, underfilled: false, remaining: 2 }
    );
    assert_eq!(pool.backups, vec![local(9)]);
    assert_eq!(fill.wait_period, 1000);
    let round = fill.spawn_pool(&mut pool, PoolLookup::Failed);
    assert_eq!(round.next, PoolNext::Wait { wait: 1000, underfilled: false, remaining: 2 });
}

#[test]
fn a_pool_is_filled_from_the_end_of_the_addresses() {
    let config = PoolPeerConfig { addr: name("pool.test"), max_peers: 3 };
    let mut fill = PoolFill::new(PoolIndex { index: 1 }, config, vec![local(3)]);
    let mut pool = PoolAddresses::new();
    assert_eq!(fill.remaining(), 2);
    let resolved = vec![local(1), local(2), local(3), local(4), local(5)];
    let round = fill.spawn_pool(&mut pool, PoolLookup::Resolved(resolved));
    assert_eq!(round.tasks, vec![pool_task(1, local(5), 3), pool_task(1, local(4), 3)]);
    assert_eq!(round.next, PoolNext::Done);
    // What is in use is not kept as a spare.
    assert_eq!(pool.backups, vec![local(1), local(2)]);
    assert_eq!(fill.in_use, vec![local(3), local(5), local(4)]);
    assert_eq!(fill.remaining(), 0);
    assert_eq!(fill.wait_period, 1000);
    assert!(!fill.needs_lookup(&pool));
    let round = fill.spawn_pool(&mut pool, PoolLookup::NotNeeded);
    assert_eq!(round.tasks, Vec::new());
    assert_eq!(round.next, PoolNext::Done);
    assert_eq!(pool.backups, vec![local(1), local(2)]);
}

#[test]
fn spares_are_used_without_asking() {
    let config = PoolPeerConfig { addr: name("pool.test"), max_peers: 3 };
    let mut fill = PoolFill::new(PoolIndex { index: 1 }, config, vec![local(4), local(5)]);
    let mut pool = PoolAddresses { backups: vec![local(1), local(2)] };
    assert!(!fill.needs_lookup(&pool));
    let round = fill.spawn_pool(&mut pool, PoolLookup::NotNeeded);
    assert_eq!(round.tasks, vec![pool_task(1, local(2), 3)]);
    assert_eq!(round.next, PoolNext::Done);
    assert_eq!(pool.backups, vec![local(1)]);
}

#[test]
fn more_members_than_allowed_leave_nothing_to_fill() {
    let config = PoolPeerConfig { addr: name("pool.test"), max_peers: 1 };
    let mut fill = PoolFill::new(PoolIndex { index: 1 }, config, vec![local(4), local(5)]);
    let mut pool = PoolAddresses { backups: vec![local(1)] };
    assert_eq!(fill.remaining(), 0);
    assert!(!fill.needs_lookup(&pool));
    let round = fill.spawn_pool(&mut pool, PoolLookup::NotNeeded);
    assert_eq!(round.tasks, Vec::new());
    assert_eq!(round.next, PoolNext::Done);
}

#[test]
fn a_single_server_takes_the_first_address() {
    let config = StandardPeerConfig { addr: name("time.test") };
    assert_eq!(
        spawn_standard(&config, &Some(vec![local(7), local(8)])),
        StandardStep::Spawn(SpawnTask {
            peer_address: PeerAddress::Peer { address: name("time.test") },
            address: local(7),
        })
    );
    assert_eq!(
        spawn_standard(&config, &Some(Vec::new())),
        StandardStep::Retry { wait: 1000 }
    );
    assert_eq!(spawn_standard(&config, &None), StandardStep::Retry { wait: NETWORK_WAIT_PERIOD });
}

#[test]
fn each_pool_has_a_place_of_its_own() {
    let mut spawner = Spawner::new();
    let standard = SpawnConfig::Standard { config: StandardPeerConfig { addr: name("time.test") } };
    assert_eq!(
        spawner.spawn(standard),
        SpawnJob::Standard { config: StandardPeerConfig { addr: name("time.test") } }
    );
    assert_eq!(spawner.pools.len(), 0);
    let request = |pool: usize, in_use: Vec<SocketAddress>| SpawnConfig::Pool {
        index: PoolIndex { index: pool },
        config: PoolPeerConfig { addr: name("pool.test"), max_peers: 2 },
        in_use,
    };
    let fill = |pool: usize, in_use: Vec<SocketAddress>| {
        PoolFill::new(
            PoolIndex { index: pool },
            PoolPeerConfig { addr: name("pool.test"), max_peers: 2 },
            in_use,
        )
    };
    // Two pools of one name stay apart.
    assert_eq!(spawner.spawn(request(5, Vec::new())), SpawnJob::Pool { slot: 0, fill: fill(5, Vec::new()) });
    assert_eq!(spawner.spawn(request(3, Vec::new())), SpawnJob::Pool { slot: 1, fill: fill(3, Vec::new()) });
    spawner.pools[0].1.backups.push(local(1));
    assert_eq!(
        spawner.spawn(request(5, vec![local(2)])),
        SpawnJob::Pool { slot: 0, fill: fill(5, vec![local(2)]) }
    );
    assert_eq!(spawner.pools.len(), 2);
    assert_eq!(spawner.pools[0], (PoolIndex { index: 5 }, PoolAddresses { backups: vec![local(1)] }));
    assert_eq!(spawner.pools[1], (PoolIndex { index: 3 }, PoolAddresses::default()));
    assert_eq!(spawner.find(PoolIndex { index: 3 }), Some(1));
    assert_eq!(spawner.find(PoolIndex { index: 4 }), None);
}

#[test]
fn the_address_to_bind_to_is_of_the_peers_family() {
    assert_eq!(local(1), SocketAddress { ip: IpAddress::V4(0x7f00_0001), port: 123 });
    assert_eq!(unspecified_for(local(1)), SocketAddress { ip: IpAddress::V4(0), port: 0 });
    let six = SocketAddress { ip: IpAddress::V6(1), port: 123 };
    assert_eq!(unspecified_for(six), SocketAddress { ip: IpAddress::V6(0), port: 0 });
    let pool = PeerAddress::Pool {
        index: PoolIndex { index: 2 },
        address: name("pool.test"),
        socket_address: six,
        max_peers: 4,
    };
    assert_eq!(pool.duplicate(), pool);
    assert_eq!(pool.clone(), pool);
    assert_eq!(pool.name(), &name("pool.test"));
    assert_eq!(name("a").duplicate(), name("a"));
}
