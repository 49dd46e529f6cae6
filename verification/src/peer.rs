//! One association with a time server: what it remembers, the polls it
//! sends, and what it makes of the answers.

use crate::config::SystemConfig;
use crate::filter::{
    aging, best_index, spec_aging, spec_output, spec_pushed, FilterRegister, FilterSample,
    PeerStatistics,
};
use crate::identifiers::{ReferenceId, ResetEpoch};
use crate::packet::{NtpAssociationMode, NtpHeader, NtpLeapIndicator, KISS_DENY, KISS_RATE, KISS_RSTR};
use crate::reach::{marked, shifted, Reach};
use crate::time_types::{NtpDuration, NtpInstant, NtpTimestamp, PollInterval, PollIntervalLimits};
use vstd::prelude::*;

verus! {

/// The highest stratum that a packet may name.
pub const MAX_STRATUM: u8 = 16;

/// What the system knows of its own time.
#[derive(Debug, Copy, Clone, PartialEq, Eq, Structural)]
pub struct TimeSnapshot {
    pub poll_interval: PollInterval,
    pub precision: NtpDuration,
    pub root_delay: NtpDuration,
    pub root_dispersion: NtpDuration,
    pub leap_indicator: NtpLeapIndicator,
}

impl TimeSnapshot {
    pub open spec fn spec_default() -> TimeSnapshot {
        TimeSnapshot {
            poll_interval: PollInterval { log: 4 },
            precision: NtpDuration { duration: 0 },
            root_delay: NtpDuration { duration: 0 },
            root_dispersion: NtpDuration { duration: 0 },
            leap_indicator: NtpLeapIndicator::Unknown,
        }
    }
}

impl Default for TimeSnapshot {
    fn default() -> (r: TimeSnapshot)
        ensures
            r == TimeSnapshot::spec_default(),
    {
        TimeSnapshot {
            poll_interval: PollInterval::shortest(),
            precision: NtpDuration::zero(),
            root_delay: NtpDuration::zero(),
            root_dispersion: NtpDuration::zero(),
            leap_indicator: NtpLeapIndicator::Unknown,
        }
    }
}

/// What the system tells its associations and its observers about
/// itself.
#[derive(Debug, Copy, Clone, PartialEq, Eq, Structural)]
pub struct SystemSnapshot {
    pub stratum: u8,
    pub reference_id: ReferenceId,
    /// The most that all steps together may come to; `None` for no limit.
    pub accumulated_steps_threshold: Option<NtpDuration>,
    pub time_snapshot: TimeSnapshot,
    /// How often the clock has been stepped.
    pub reset_epoch: ResetEpoch,
}

impl SystemSnapshot {
    pub open spec fn spec_default() -> SystemSnapshot {
        SystemSnapshot {
            stratum: 16,
            reference_id: ReferenceId { id: 0 },
            accumulated_steps_threshold: None,
            time_snapshot: TimeSnapshot::spec_default(),
            reset_epoch: ResetEpoch { epoch: 0 },
        }
    }
}

impl Default for SystemSnapshot {
    fn default() -> (r: SystemSnapshot)
        ensures
            r == SystemSnapshot::spec_default(),
    {
        SystemSnapshot {
            stratum: 16,
            reference_id: ReferenceId::from_int(0),
            accumulated_steps_threshold: None,
            time_snapshot: TimeSnapshot::default(),
            reset_epoch: ResetEpoch::new(),
        }
    }
}

/// One exchange with the server, reduced to what it says about the local
/// clock.
#[derive(Debug, Copy, Clone, PartialEq, Eq, Structural)]
pub struct Measurement {
    pub delay: NtpDuration,
    pub offset: NtpDuration,
    pub localtime: NtpTimestamp,
    pub monotime: NtpInstant,
}

impl Measurement {
    /// With t1 the time the request left, t2 and t3 the server's times of
    /// receipt and of reply, and t4 the time the reply came:
    /// offset = ((t2 - t1) + (t3 - t4)) / 2 and
    /// delay = (t4 - t1) - (t3 - t2).
    pub open spec fn spec_from_packet(
        packet: NtpHeader,
        send_timestamp: NtpTimestamp,
        recv_timestamp: NtpTimestamp,
        local_clock_time: NtpInstant,
    ) -> Measurement {
        Measurement {
            delay: recv_timestamp.spec_minus(send_timestamp).spec_minus(
                packet.transmit_timestamp.spec_minus(packet.receive_timestamp),
            ),
            offset: packet.receive_timestamp.spec_minus(send_timestamp).spec_plus(
                packet.transmit_timestamp.spec_minus(recv_timestamp),
            ).spec_halved(),
            localtime: send_timestamp.spec_plus(
                recv_timestamp.spec_minus(send_timestamp).spec_halved(),
            ),
            monotime: local_clock_time,
        }
    }

    pub fn from_packet(
        packet: &NtpHeader,
        send_timestamp: NtpTimestamp,
        recv_timestamp: NtpTimestamp,
        local_clock_time: NtpInstant,
    ) -> (r: Measurement)
        ensures
            r == Self::spec_from_packet(*packet, send_timestamp, recv_timestamp, local_clock_time),
    {
        let outward = packet.receive_timestamp.minus(send_timestamp);
        let homeward = packet.transmit_timestamp.minus(recv_timestamp);
        let round_trip = recv_timestamp.minus(send_timestamp);
        let at_server = packet.transmit_timestamp.minus(packet.receive_timestamp);
        Measurement {
            delay: round_trip.minus(at_server),
            offset: outward.plus(homeward).halved(),
            localtime: send_timestamp.plus(round_trip.halved()),
            monotime: local_clock_time,
        }
    }
}

/// Why a peer is not fit to synchronise to.
#[derive(Debug, Copy, Clone, PartialEq, Eq, Structural)]
pub enum AcceptSynchronizationError {
    /// Its stratum is not below that of the local clock.
    Stratum,
    /// It does not know the time itself.
    NotSynchronized,
}

/// What an association shows of itself.
#[derive(Debug, Copy, Clone, PartialEq, Eq, Structural)]
pub struct PeerSnapshot {
    pub our_id: ReferenceId,
    pub peer_id: ReferenceId,
    pub poll_interval: PollInterval,
    pub reach: Reach,
    pub stratum: u8,
    pub leap_indicator: NtpLeapIndicator,
    pub root_delay: NtpDuration,
    pub root_dispersion: NtpDuration,
    pub precision: i8,
    pub reference_id: ReferenceId,
    /// Offset, delay, dispersion and jitter as of the latest measurement.
    pub statistics: PeerStatistics,
    /// When the latest measurement was made.
    pub time: NtpInstant,
    /// The clock reset after which this was measured.
    pub reset_epoch: ResetEpoch,
}

impl PeerSnapshot {
    /// The stratum is one that a packet may name.
    pub open spec fn wf(self) -> bool {
        self.stratum <= MAX_STRATUM
    }

    pub open spec fn spec_accept_synchronization(self, local_stratum: u8) -> Result<
        (),
        AcceptSynchronizationError,
    > {
        if self.stratum >= local_stratum {
            Err(AcceptSynchronizationError::Stratum)
        } else if self.leap_indicator == NtpLeapIndicator::Unknown {
            Err(AcceptSynchronizationError::NotSynchronized)
        } else {
            Ok(())
        }
    }

    /// Whether the peer is fit to synchronise to: its stratum is below
    /// the local one and it knows the time.
    pub fn accept_synchronization(&self, local_stratum: u8) -> (r: Result<
        (),
        AcceptSynchronizationError,
    >)
        ensures
            r == self.spec_accept_synchronization(local_stratum),
    {
        if self.stratum >= local_stratum {
            Err(AcceptSynchronizationError::Stratum)
        } else {
            match self.leap_indicator {
                NtpLeapIndicator::Unknown => Err(AcceptSynchronizationError::NotSynchronized),
                _ => Ok(()),
            }
        }
    }

    /// Half the root delay plus the root dispersion: how far the peer's
    /// time may be from the truth.
    pub open spec fn spec_root_distance(self) -> NtpDuration {
        self.root_delay.spec_halved().spec_plus(self.root_dispersion)
    }

    pub fn root_distance(&self) -> (r: NtpDuration)
        ensures
            r == self.spec_root_distance(),
    {
        self.root_delay.halved().plus(self.root_dispersion)
    }
}

/// Why an incoming packet changed nothing.
#[derive(Debug, Copy, Clone, PartialEq, Eq, Structural)]
pub enum IgnoreReason {
    /// The packet is not a server's reply.
    InvalidMode,
    /// The packet does not answer the request that is open, or none is.
    InvalidPacketTime,
    /// The packet names a stratum beyond the highest.
    InvalidStratum,
    /// The server asks for slower polling, or sent a kiss code that asks
    /// for nothing.
    KissIgnore,
    /// The server refuses this client.
    KissDemobilize,
}

/// What an accepted packet brought.
#[derive(Debug, Copy, Clone, PartialEq, Eq, Structural)]
pub enum Update {
    /// The snapshot changed, the best measurement did not.
    BareUpdate(PeerSnapshot),
    /// The packet is the best measurement that the association holds.
    NewMeasurement(PeerSnapshot, Measurement, NtpHeader),
}

/// What an association remembers, but for its measurements.
#[derive(Debug, Copy, Clone, PartialEq, Eq, Structural)]
pub struct PeerRecord {
    pub our_id: ReferenceId,
    pub peer_id: ReferenceId,
    pub reach: Reach,
    /// The shortest poll interval that the server has asked for.
    pub remote_min_poll_interval: PollInterval,
    /// The poll interval of the latest poll.
    pub last_poll_interval: PollInterval,
    /// The random mark of the request that is open.
    pub current_request_identifier: Option<NtpTimestamp>,
    pub stratum: u8,
    pub leap_indicator: NtpLeapIndicator,
    pub root_delay: NtpDuration,
    pub root_dispersion: NtpDuration,
    pub precision: i8,
    pub reference_id: ReferenceId,
    pub statistics: PeerStatistics,
    pub time: NtpInstant,
    pub poll_limits: PollIntervalLimits,
    pub reset_epoch: ResetEpoch,
}

/// An association as contracts see it.
pub struct PeerModel {
    pub state: PeerRecord,
    /// The measurements held, newest first.
    pub samples: Seq<FilterSample>,
}

impl PeerRecord {
    pub open spec fn spec_snapshot(self) -> PeerSnapshot {
        PeerSnapshot {
            our_id: self.our_id,
            peer_id: self.peer_id,
            poll_interval: self.last_poll_interval,
            reach: self.reach,
            stratum: self.stratum,
            leap_indicator: self.leap_indicator,
            root_delay: self.root_delay,
            root_dispersion: self.root_dispersion,
            precision: self.precision,
            reference_id: self.reference_id,
            statistics: self.statistics,
            time: self.time,
            reset_epoch: self.reset_epoch,
        }
    }

    pub fn snapshot(&self) -> (r: PeerSnapshot)
        ensures
            r == self.spec_snapshot(),
    {
        PeerSnapshot {
            our_id: self.our_id,
            peer_id: self.peer_id,
            poll_interval: self.last_poll_interval,
            reach: self.reach,
            stratum: self.stratum,
            leap_indicator: self.leap_indicator,
            root_delay: self.root_delay,
            root_dispersion: self.root_dispersion,
            precision: self.precision,
            reference_id: self.reference_id,
            statistics: self.statistics,
            time: self.time,
            reset_epoch: self.reset_epoch,
        }
    }

    /// The poll interval in force: the longer of the system's and the one
    /// the server asked for, within the configured limits.
    pub open spec fn spec_current_poll_interval(self, system: SystemSnapshot) -> PollInterval {
        system.time_snapshot.poll_interval.spec_longer_of(
            self.remote_min_poll_interval,
        ).spec_within(self.poll_limits)
    }

    pub fn current_poll_interval(&self, system: SystemSnapshot) -> (r: PollInterval)
        ensures
            r == self.spec_current_poll_interval(system),
    {
        system.time_snapshot.poll_interval.longer_of(self.remote_min_poll_interval).within(
            self.poll_limits,
        )
    }
}

impl PeerModel {
    pub open spec fn spec_new(
        our_id: ReferenceId,
        peer_id: ReferenceId,
        local_clock_time: NtpInstant,
        config: SystemConfig,
    ) -> PeerModel {
        PeerModel {
            state: PeerRecord {
                our_id,
                peer_id,
                reach: Reach { bits: 0 },
                remote_min_poll_interval: config.poll_limits.min,
                last_poll_interval: config.poll_limits.min,
                current_request_identifier: None,
                stratum: MAX_STRATUM,
                leap_indicator: NtpLeapIndicator::Unknown,
                root_delay: NtpDuration { duration: 0 },
                root_dispersion: NtpDuration { duration: 0 },
                precision: 0,
                reference_id: ReferenceId { id: 0 },
                statistics: PeerStatistics {
                    offset: NtpDuration { duration: 0 },
                    delay: NtpDuration { duration: 0 },
                    dispersion: NtpDuration { duration: 0 },
                    jitter: NtpDuration { duration: 0 },
                },
                time: local_clock_time,
                poll_limits: config.poll_limits,
                reset_epoch: ResetEpoch { epoch: 0 },
            },
            samples: Seq::empty(),
        }
    }

    /// The association once it has seen the system's reset count: after a
    /// reset it has forgotten its measurements.
    pub open spec fn synced(self, system: SystemSnapshot) -> PeerModel {
        if system.reset_epoch == self.state.reset_epoch {
            self
        } else {
            PeerModel {
                state: PeerRecord { reset_epoch: system.reset_epoch, ..self.state },
                samples: Seq::empty(),
            }
        }
    }

    /// The poll that goes out now, marked with `identifier` in place of
    /// any time of the local clock.
    pub open spec fn poll_message(self, system: SystemSnapshot, identifier: NtpTimestamp)
        -> NtpHeader {
        NtpHeader {
            mode: NtpAssociationMode::Client,
            poll: self.state.spec_current_poll_interval(system).log,
            origin_timestamp: identifier,
            transmit_timestamp: identifier,
            ..NtpHeader::spec_new()
        }
    }

    /// The association after it has sent a poll: the reach register has
    /// moved on by one place and the request is open.
    pub open spec fn after_poll(self, system: SystemSnapshot, identifier: NtpTimestamp)
        -> PeerModel {
        let base = self.synced(system);
        PeerModel {
            state: PeerRecord {
                reach: Reach { bits: shifted(base.state.reach.bits) },
                last_poll_interval: base.state.spec_current_poll_interval(system),
                current_request_identifier: Some(identifier),
                ..base.state
            },
            samples: base.samples,
        }
    }

    /// Why `message` is turned away, if it is.
    pub open spec fn refusal(self, message: NtpHeader) -> Option<IgnoreReason> {
        if message.mode != NtpAssociationMode::Server {
            Some(IgnoreReason::InvalidMode)
        } else if self.state.current_request_identifier != Some(message.origin_timestamp) {
            Some(IgnoreReason::InvalidPacketTime)
        } else if message.stratum == 0 && message.reference_id == KISS_RATE {
            Some(IgnoreReason::KissIgnore)
        } else if message.stratum == 0 && (message.reference_id == KISS_DENY
            || message.reference_id == KISS_RSTR) {
            Some(IgnoreReason::KissDemobilize)
        } else if message.stratum == 0 {
            Some(IgnoreReason::KissIgnore)
        } else if message.stratum > MAX_STRATUM {
            Some(IgnoreReason::InvalidStratum)
        } else {
            None
        }
    }

    /// The sample that an accepted `message` puts into the register.
    pub open spec fn sample_of(
        message: NtpHeader,
        local_clock_time: NtpInstant,
        send_timestamp: NtpTimestamp,
        recv_timestamp: NtpTimestamp,
    ) -> FilterSample {
        let m = Measurement::spec_from_packet(
            message,
            send_timestamp,
            recv_timestamp,
            local_clock_time,
        );
        FilterSample {
            offset: m.offset,
            delay: m.delay,
            dispersion: spec_aging(recv_timestamp.spec_minus(send_timestamp).spec_abs()),
            time: local_clock_time,
        }
    }

    /// The association after `message` has come in.
    pub open spec fn after_incoming(
        self,
        system: SystemSnapshot,
        message: NtpHeader,
        local_clock_time: NtpInstant,
        send_timestamp: NtpTimestamp,
        recv_timestamp: NtpTimestamp,
    ) -> PeerModel {
        let base = self.synced(system);
        match base.refusal(message) {
            Some(IgnoreReason::InvalidMode) | Some(IgnoreReason::InvalidPacketTime) => base,
            Some(IgnoreReason::KissIgnore) => PeerModel {
                state: PeerRecord {
                    current_request_identifier: None,
                    remote_min_poll_interval: if message.reference_id == KISS_RATE {
                        base.state.remote_min_poll_interval.spec_longer_of(
                            base.state.last_poll_interval,
                        ).spec_inc()
                    } else {
                        base.state.remote_min_poll_interval
                    },
                    ..base.state
                },
                samples: base.samples,
            },
            Some(_) => PeerModel {
                state: PeerRecord { current_request_identifier: None, ..base.state },
                samples: base.samples,
            },
            None => {
                let samples = spec_pushed(
                    base.samples,
                    Self::sample_of(message, local_clock_time, send_timestamp, recv_timestamp),
                );
                PeerModel {
                    state: PeerRecord {
                        current_request_identifier: None,
                        reach: Reach { bits: marked(base.state.reach.bits) },
                        stratum: message.stratum,
                        leap_indicator: message.leap,
                        root_delay: message.root_delay,
                        root_dispersion: message.root_dispersion,
                        precision: message.precision,
                        reference_id: ReferenceId { id: message.reference_id },
                        statistics: spec_output(samples, local_clock_time)->Some_0,
                        time: local_clock_time,
                        ..base.state
                    },
                    samples,
                }
            },
        }
    }

    /// What the association reports of `message`.
    pub open spec fn incoming_result(
        self,
        system: SystemSnapshot,
        message: NtpHeader,
        local_clock_time: NtpInstant,
        send_timestamp: NtpTimestamp,
        recv_timestamp: NtpTimestamp,
    ) -> Result<Update, IgnoreReason> {
        let base = self.synced(system);
        let after = self.after_incoming(
            system,
            message,
            local_clock_time,
            send_timestamp,
            recv_timestamp,
        );
        match base.refusal(message) {
            Some(reason) => Err(reason),
            None => if best_index(after.samples, after.samples.len()) == 0 {
                Ok(
                    Update::NewMeasurement(
                        after.state.spec_snapshot(),
                        Measurement::spec_from_packet(
                            message,
                            send_timestamp,
                            recv_timestamp,
                            local_clock_time,
                        ),
                        message,
                    ),
                )
            } else {
                Ok(Update::BareUpdate(after.state.spec_snapshot()))
            },
        }
    }
}

/// One association with a time server.
pub struct Peer {
    state: PeerRecord,
    filter: FilterRegister,
}

impl Peer {
    pub closed spec fn view(&self) -> PeerModel {
        PeerModel { state: self.state, samples: self.filter@ }
    }

    /// An association that has neither polled nor heard anything.
    pub fn new(
        our_id: ReferenceId,
        peer_id: ReferenceId,
        local_clock_time: NtpInstant,
        config: SystemConfig,
    ) -> (r: Peer)
        ensures
            r@ == PeerModel::spec_new(our_id, peer_id, local_clock_time, config),
    {
        let r = Peer {
            state: PeerRecord {
                our_id,
                peer_id,
                reach: Reach::new(),
                remote_min_poll_interval: config.poll_limits.min,
                last_poll_interval: config.poll_limits.min,
                current_request_identifier: None,
                stratum: MAX_STRATUM,
                leap_indicator: NtpLeapIndicator::Unknown,
                root_delay: NtpDuration::zero(),
                root_dispersion: NtpDuration::zero(),
                precision: 0,
                reference_id: ReferenceId::from_int(0),
                statistics: PeerStatistics::default(),
                time: local_clock_time,
                poll_limits: config.poll_limits,
                reset_epoch: ResetEpoch::new(),
            },
            filter: FilterRegister::new(),
        };
        assert(r.filter@ =~= Seq::<FilterSample>::empty());
        r
    }

    /// What the association remembers, but for its measurements.
    pub fn state(&self) -> (r: PeerRecord)
        ensures
            r == self@.state,
    {
        self.state
    }

    pub fn snapshot(&self) -> (r: PeerSnapshot)
        ensures
            r == self@.state.spec_snapshot(),
    {
        self.state.snapshot()
    }

    pub fn current_poll_interval(&self, system: SystemSnapshot) -> (r: PollInterval)
        ensures
            r == self@.state.spec_current_poll_interval(system),
    {
        self.state.current_poll_interval(system)
    }

    /// Takes the poll limits from `config`.
    pub fn update_config(&mut self, config: SystemConfig)
        ensures
            final(self)@ == (PeerModel {
                state: PeerRecord { poll_limits: config.poll_limits, ..old(self)@.state },
                samples: old(self)@.samples,
            }),
    {
        self.state.poll_limits = config.poll_limits;
    }

    fn sync_epoch(&mut self, system: SystemSnapshot)
        ensures
            final(self)@ == old(self)@.synced(system),
    {
        if system.reset_epoch != self.state.reset_epoch {
            self.state.reset_epoch = system.reset_epoch;
            self.filter.clear();
            assert(self.filter@ =~= Seq::<FilterSample>::empty());
        }
    }

    /// Makes the next poll and notes that it has been sent. `identifier`
    /// stands in the packet where the local time would; the answer is
    /// known by it.
    pub fn generate_poll_message(&mut self, system: SystemSnapshot, identifier: NtpTimestamp) -> (r:
        NtpHeader)
        ensures
            r == old(self)@.poll_message(system, identifier),
            final(self)@ == old(self)@.after_poll(system, identifier),
            r.version < 8,
    {
        self.sync_epoch(system);
        let interval = self.state.current_poll_interval(system);
        self.state.reach.poll();
        self.state.last_poll_interval = interval;
        self.state.current_request_identifier = Some(identifier);
        let mut packet = NtpHeader::new();
        packet.mode = NtpAssociationMode::Client;
        packet.poll = interval.as_log();
        packet.origin_timestamp = identifier;
        packet.transmit_timestamp = identifier;
        packet
    }

    /// Takes a packet that came from the server. `send_timestamp` is when
    /// the open request left, `recv_timestamp` when the packet came, both
    /// by the clock that is steered; `local_clock_time` is now.
    #[verifier::rlimit(50)]
    pub fn handle_incoming(
        &mut self,
        system: SystemSnapshot,
        message: NtpHeader,
        local_clock_time: NtpInstant,
        send_timestamp: NtpTimestamp,
        recv_timestamp: NtpTimestamp,
    ) -> (r: Result<Update, IgnoreReason>)
        ensures
            r == old(self)@.incoming_result(
                system,
                message,
                local_clock_time,
                send_timestamp,
                recv_timestamp,
            ),
            final(self)@ == old(self)@.after_incoming(
                system,
                message,
                local_clock_time,
                send_timestamp,
                recv_timestamp,
            ),
    {
        self.sync_epoch(system);
        match message.mode {
            NtpAssociationMode::Server => {},
            _ => {
                return Err(IgnoreReason::InvalidMode);
            },
        }
        match self.state.current_request_identifier {
            Some(identifier) => {
                if identifier != message.origin_timestamp {
                    return Err(IgnoreReason::InvalidPacketTime);
                }
            },
            None => {
                return Err(IgnoreReason::InvalidPacketTime);
            },
        }
        self.state.current_request_identifier = None;
        if message.is_kiss_rate() {
            self.state.remote_min_poll_interval =
            self.state.remote_min_poll_interval.longer_of(self.state.last_poll_interval).inc();
            return Err(IgnoreReason::KissIgnore);
        }
        if message.is_kiss_deny() || message.is_kiss_rstr() {
            return Err(IgnoreReason::KissDemobilize);
        }
        if message.is_kiss() {
            return Err(IgnoreReason::KissIgnore);
        }
        if message.stratum > MAX_STRATUM {
            return Err(IgnoreReason::InvalidStratum);
        }
        let measurement = Measurement::from_packet(
            &message,
            send_timestamp,
            recv_timestamp,
            local_clock_time,
        );
        let sample = FilterSample {
            offset: measurement.offset,
            delay: measurement.delay,
            dispersion: aging(recv_timestamp.minus(send_timestamp).abs()),
            time: local_clock_time,
        };
        self.filter.push(sample);
        let statistics = match self.filter.output(local_clock_time) {
            Some(statistics) => statistics,
            None => PeerStatistics::default(),
        };
        self.state.reach.received_packet();
        self.state.stratum = message.stratum;
        self.state.leap_indicator = message.leap;
        self.state.root_delay = message.root_delay;
        self.state.root_dispersion = message.root_dispersion;
        self.state.precision = message.precision;
        self.state.reference_id = ReferenceId::from_int(message.reference_id);
        self.state.statistics = statistics;
        self.state.time = local_clock_time;
        let snapshot = self.state.snapshot();
        if self.filter.newest_is_best() {
            Ok(Update::NewMeasurement(snapshot, measurement, message))
        } else {
            Ok(Update::BareUpdate(snapshot))
        }
    }
}

/// A rate kiss raises the poll interval that the server is taken to ask
/// for above the interval of the latest poll, unless that was the longest
/// there is.
pub proof fn lemma_rate_kiss_slows_polling(
    peer: PeerModel,
    system: SystemSnapshot,
    message: NtpHeader,
    local_clock_time: NtpInstant,
    send_timestamp: NtpTimestamp,
    recv_timestamp: NtpTimestamp,
)
    requires
        peer.synced(system).refusal(message) == Some(IgnoreReason::KissIgnore),
        message.reference_id == KISS_RATE,
        peer.state.last_poll_interval.log < crate::time_types::MAX_POLL,
    ensures
        peer.after_incoming(
            system,
            message,
            local_clock_time,
            send_timestamp,
            recv_timestamp,
        ).state.remote_min_poll_interval.log > peer.state.last_poll_interval.log,
{
}

/// Once a server has refused the client, or while no request is open,
/// nothing that comes in is taken for a measurement.
pub proof fn lemma_unrequested_packets_are_ignored(
    peer: PeerModel,
    system: SystemSnapshot,
    message: NtpHeader,
    local_clock_time: NtpInstant,
    send_timestamp: NtpTimestamp,
    recv_timestamp: NtpTimestamp,
)
    requires
        peer.state.current_request_identifier != Some(message.origin_timestamp),
    ensures
        peer.incoming_result(system, message, local_clock_time, send_timestamp, recv_timestamp)
            is Err,
        peer.after_incoming(system, message, local_clock_time, send_timestamp, recv_timestamp)
            == peer.synced(system),
{
}

/// The stratum that an association shows is never beyond the highest:
/// a new association shows the highest, and neither a poll nor a packet
/// takes it out of the range.
pub proof fn lemma_stratum_in_range(
    peer: PeerModel,
    system: SystemSnapshot,
    message: NtpHeader,
    identifier: NtpTimestamp,
    local_clock_time: NtpInstant,
    send_timestamp: NtpTimestamp,
    recv_timestamp: NtpTimestamp,
)
    requires
        peer.state.spec_snapshot().wf(),
    ensures
        peer.after_poll(system, identifier).state.spec_snapshot().wf(),
        peer.after_incoming(
            system,
            message,
            local_clock_time,
            send_timestamp,
            recv_timestamp,
        ).state.spec_snapshot().wf(),
{
}

} // verus!
