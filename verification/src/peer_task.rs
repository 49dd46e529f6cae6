//! The task that runs one association: what it does when its timer
//! fires, when a datagram comes, and what it tells the system.

use crate::config::SystemConfig;
use crate::identifiers::{PeerIndex, ReferenceId};
use crate::packet::NtpHeader;
use crate::peer::{IgnoreReason, Measurement, Peer, PeerModel, PeerSnapshot, SystemSnapshot, Update};
use crate::time_types::{saturate, NtpDuration, NtpInstant, NtpTimestamp, PollInterval};
use rand::Rng;
use vstd::prelude::*;

verus! {

/// What a peer task tells the system.
#[derive(Debug, Copy, Clone, PartialEq, Eq, Structural)]
pub enum MsgForSystem {
    /// Received a kiss-o'-death and must demobilize.
    MustDemobilize(PeerIndex),
    /// Experienced a network issue and must be restarted.
    NetworkIssue(PeerIndex),
    /// Received an acceptable packet and made a new peer snapshot. A new
    /// measurement should try to trigger a clock select.
    NewMeasurement(PeerIndex, PeerSnapshot, Measurement, NtpHeader),
    /// A snapshot may have been updated, but this should not trigger a
    /// clock select in the system.
    UpdatedSnapshot(PeerIndex, PeerSnapshot),
}

impl MsgForSystem {
    /// The peer that the message is from.
    pub open spec fn spec_index(self) -> PeerIndex {
        match self {
            MsgForSystem::MustDemobilize(index) => index,
            MsgForSystem::NetworkIssue(index) => index,
            MsgForSystem::NewMeasurement(index, _, _, _) => index,
            MsgForSystem::UpdatedSnapshot(index, _) => index,
        }
    }

    pub fn index(&self) -> (r: PeerIndex)
        ensures
            r == self.spec_index(),
    {
        match self {
            MsgForSystem::MustDemobilize(index) => *index,
            MsgForSystem::NetworkIssue(index) => *index,
            MsgForSystem::NewMeasurement(index, _, _, _) => *index,
            MsgForSystem::UpdatedSnapshot(index, _) => *index,
        }
    }
}

/// The least factor, in parts per million, by which the wait for the
/// next poll exceeds the poll interval.
pub const POLL_JITTER_LOW: u32 = 1_010_000;

/// The largest factor, in parts per million, by which the wait for the
/// next poll exceeds the poll interval.
pub const POLL_JITTER_HIGH: u32 = 1_050_000;

/// Draws a number from `low` to `high`, both included, with
/// `rand::Rng::gen_range` on the generator of the thread
/// (`rand::thread_rng`). Which number comes is left open; the range is
/// what the crate promises. The crate panics on an empty range, so the
/// range must not be empty.
#[verifier::external_body]
fn random_between(low: u32, high: u32) -> (r: u32)
    requires
        low <= high,
    ensures
        low <= r <= high,
{
    rand::thread_rng().gen_range(low..=high)
}

/// Draws 64 bits with `rand::Rng::gen` on the generator of the thread.
/// Nothing is promised of them.
#[verifier::external_body]
fn random_bits() -> u64 {
    rand::thread_rng().gen()
}

/// Why the network failed, as far as the task cares.
#[derive(Debug, Copy, Clone, PartialEq, Eq, Structural)]
pub enum NetworkError {
    HostDown,
    HostUnreachable,
    NetworkDown,
    NetworkUnreachable,
    /// Any other failure: it may pass.
    Other,
}

impl NetworkError {
    /// Whether the network is gone, so that the task must end.
    pub open spec fn spec_is_network_gone(self) -> bool {
        self != NetworkError::Other
    }

    pub fn is_network_gone(&self) -> (r: bool)
        ensures
            r == self.spec_is_network_gone(),
    {
        match self {
            NetworkError::Other => false,
            _ => true,
        }
    }
}

/// What became of a poll.
#[derive(Debug, Copy, Clone, PartialEq, Eq, Structural)]
pub enum PollResult {
    /// The task goes on.
    Continue,
    NetworkGone,
}

/// What became of a packet.
#[derive(Debug, Copy, Clone, PartialEq, Eq, Structural)]
pub enum PacketResult {
    /// The task goes on.
    Continue,
    Demobilize,
}

/// What a receive on the socket brought.
#[derive(Debug, Copy, Clone, PartialEq, Eq, Structural)]
pub enum AcceptResult {
    Accept(NtpHeader, NtpTimestamp),
    Ignore,
    NetworkGone,
}

/// A datagram of at least a header's length that came with the time of
/// its receipt is read as a header; a shorter one, or one without that
/// time, is ignored. A failed receive ends the task where the network
/// is gone, and is ignored otherwise.
pub open spec fn spec_accept_packet(
    result: Result<(usize, Option<NtpTimestamp>), NetworkError>,
    buf: Seq<u8>,
) -> AcceptResult {
    match result {
        Ok((size, Some(recv_timestamp))) => if size < 48 {
            AcceptResult::Ignore
        } else {
            AcceptResult::Accept(NtpHeader::spec_deserialize(buf), recv_timestamp)
        },
        Ok((_, None)) => AcceptResult::Ignore,
        Err(error) => if error.spec_is_network_gone() {
            AcceptResult::NetworkGone
        } else {
            AcceptResult::Ignore
        },
    }
}

/// Judges what a receive on the socket brought: `result` holds the size
/// of the datagram and the time of its receipt, `buf` its first 48
/// bytes.
pub fn accept_packet(result: Result<(usize, Option<NtpTimestamp>), NetworkError>, buf: &[u8; 48]) -> (r:
    AcceptResult)
    ensures
        r == spec_accept_packet(result, buf@),
{
    match result {
        Ok((size, Some(recv_timestamp))) => {
            // Packets are allowed to be bigger when including extensions;
            // the extra bytes are safe to ignore.
            if size < 48 {
                AcceptResult::Ignore
            } else {
                AcceptResult::Accept(NtpHeader::deserialize(buf), recv_timestamp)
            }
        },
        Ok((_, None)) => AcceptResult::Ignore,
        Err(error) => {
            if error.is_network_gone() {
                AcceptResult::NetworkGone
            } else {
                AcceptResult::Ignore
            }
        },
    }
}

/// When the next poll is due: the poll interval, stretched by `factor`
/// parts per million, after the latest poll.
pub open spec fn spec_poll_deadline(last_poll_sent: NtpInstant, interval: PollInterval, factor: u32)
    -> NtpInstant {
    last_poll_sent.spec_plus(
        NtpDuration {
            duration: saturate((interval.spec_as_duration().duration * factor) / 1_000_000),
        },
    )
}

pub fn poll_deadline(last_poll_sent: NtpInstant, interval: PollInterval, factor: u32) -> (r:
    NtpInstant)
    ensures
        r == spec_poll_deadline(last_poll_sent, interval, factor),
{
    let span: i128 = interval.as_duration().duration as i128;
    assert(0 <= span * (factor as i128) <= 0x7fff_ffff_ffff_ffff * 0xffff_ffff) by (nonlinear_arith)
        requires
            0 <= span <= 0x7fff_ffff_ffff_ffff,
            0 <= factor <= 0xffff_ffff,
    ;
    let stretched: i128 = (span * (factor as i128)) / 1_000_000;
    let wait = NtpDuration {
        duration: if stretched > i64::MAX as i128 {
            i64::MAX
        } else {
            stretched as i64
        },
    };
    last_poll_sent.plus(wait)
}

/// What the task is to do after its timer fired.
#[derive(Debug, Copy, Clone, PartialEq, Eq)]
pub struct PollOutput {
    /// The message for the system.
    pub message: MsgForSystem,
    /// When the timer is to fire next.
    pub deadline: NtpInstant,
    /// The packet to send; `None` where the clock could not be read, so
    /// that the time of sending would not be known.
    pub packet: Option<[u8; 48]>,
}

/// What the task is to do after a packet came.
#[derive(Debug, Copy, Clone, PartialEq, Eq, Structural)]
pub struct PacketOutput {
    pub result: PacketResult,
    /// The message for the system, if there is one.
    pub message: Option<MsgForSystem>,
    /// When the timer is to fire next.
    pub deadline: NtpInstant,
}

/// What the task is to do after a receive on its socket.
#[derive(Debug, Copy, Clone, PartialEq, Eq, Structural)]
pub struct DatagramOutput {
    /// The message for the system, if there is one.
    pub message: Option<MsgForSystem>,
    /// A new time for the timer to fire, if it changed.
    pub deadline: Option<NtpInstant>,
    /// Whether the task is to end.
    pub stop: bool,
}

/// The beginning of a task: a running task, or the news that it could
/// not start.
pub enum Spawned {
    Running(PeerTask),
    /// The socket could not be opened: wait `wait` milliseconds, then
    /// send `message` to the system and end.
    Failed { wait: u64, message: MsgForSystem },
}

/// The task of one association as contracts see it.
pub struct PeerTaskModel {
    pub index: PeerIndex,
    pub peer: PeerModel,
    /// The local time at which the latest poll left.
    pub last_send_timestamp: Option<NtpTimestamp>,
    /// When the latest poll left, by the monotonic clock.
    pub last_poll_sent: NtpInstant,
    /// Whether the task has ended.
    pub stopped: bool,
}

impl PeerTaskModel {
    /// When the next poll is due.
    pub open spec fn deadline(self, system: SystemSnapshot, factor: u32) -> NtpInstant {
        spec_poll_deadline(
            self.last_poll_sent,
            self.peer.state.spec_current_poll_interval(system),
            factor,
        )
    }

    /// The task after its timer fired at `now`.
    pub open spec fn after_poll(
        self,
        system: SystemSnapshot,
        now: NtpInstant,
        clock_time: Option<NtpTimestamp>,
        identifier: NtpTimestamp,
    ) -> PeerTaskModel {
        PeerTaskModel {
            peer: self.peer.after_poll(system, identifier),
            last_poll_sent: now,
            last_send_timestamp: if clock_time is Some {
                clock_time
            } else {
                self.last_send_timestamp
            },
            ..self
        }
    }

    /// Whether `out` is what the task does when its timer fires and the
    /// poll is marked with `identifier` and delayed by `factor`.
    pub open spec fn polls(
        self,
        system: SystemSnapshot,
        now: NtpInstant,
        clock_time: Option<NtpTimestamp>,
        identifier: NtpTimestamp,
        factor: u32,
        after: PeerTaskModel,
        out: PollOutput,
    ) -> bool {
        &&& after == self.after_poll(system, now, clock_time, identifier)
        &&& out.message == MsgForSystem::UpdatedSnapshot(
            self.index,
            after.peer.state.spec_snapshot(),
        )
        &&& out.deadline == after.deadline(system, factor)
        &&& clock_time is None ==> out.packet is None
        &&& clock_time is Some ==> out.packet is Some && out.packet->Some_0@
            == self.peer.poll_message(system, identifier).wire()
    }

    /// The task after a packet came.
    pub open spec fn after_packet(
        self,
        system: SystemSnapshot,
        packet: NtpHeader,
        send_timestamp: NtpTimestamp,
        recv_timestamp: NtpTimestamp,
        now: NtpInstant,
    ) -> PeerTaskModel {
        PeerTaskModel {
            peer: self.peer.after_incoming(system, packet, now, send_timestamp, recv_timestamp),
            stopped: self.stopped || self.peer.incoming_result(
                system,
                packet,
                now,
                send_timestamp,
                recv_timestamp,
            ) == Err::<Update, IgnoreReason>(IgnoreReason::KissDemobilize),
            ..self
        }
    }

    /// What the task tells the system of a packet.
    pub open spec fn packet_message(
        self,
        system: SystemSnapshot,
        packet: NtpHeader,
        send_timestamp: NtpTimestamp,
        recv_timestamp: NtpTimestamp,
        now: NtpInstant,
    ) -> Option<MsgForSystem> {
        match self.peer.incoming_result(system, packet, now, send_timestamp, recv_timestamp) {
            Ok(Update::BareUpdate(snapshot)) => Some(
                MsgForSystem::UpdatedSnapshot(self.index, snapshot),
            ),
            Ok(Update::NewMeasurement(snapshot, measurement, header)) => Some(
                MsgForSystem::NewMeasurement(self.index, snapshot, measurement, header),
            ),
            Err(IgnoreReason::KissDemobilize) => Some(MsgForSystem::MustDemobilize(self.index)),
            Err(_) => None,
        }
    }

    /// Whether `out` is what the task does with a packet when the next
    /// poll is delayed by `factor`.
    pub open spec fn takes_packet(
        self,
        system: SystemSnapshot,
        packet: NtpHeader,
        send_timestamp: NtpTimestamp,
        recv_timestamp: NtpTimestamp,
        now: NtpInstant,
        factor: u32,
        after: PeerTaskModel,
        out: PacketOutput,
    ) -> bool {
        &&& after == self.after_packet(system, packet, send_timestamp, recv_timestamp, now)
        &&& out.message == self.packet_message(
            system,
            packet,
            send_timestamp,
            recv_timestamp,
            now,
        )
        &&& out.deadline == after.deadline(system, factor)
        &&& out.result == if after.stopped && !self.stopped {
            PacketResult::Demobilize
        } else {
            PacketResult::Continue
        }
    }
}

/// The task of one association.
pub struct PeerTask {
    index: PeerIndex,
    peer: Peer,
    last_send_timestamp: Option<NtpTimestamp>,
    last_poll_sent: NtpInstant,
    stopped: bool,
}

impl PeerTask {
    pub closed spec fn view(&self) -> PeerTaskModel {
        PeerTaskModel {
            index: self.index,
            peer: self.peer@,
            last_send_timestamp: self.last_send_timestamp,
            last_poll_sent: self.last_poll_sent,
            stopped: self.stopped,
        }
    }

    /// A task that has neither polled nor heard anything.
    pub fn new(
        index: PeerIndex,
        our_id: ReferenceId,
        peer_id: ReferenceId,
        now: NtpInstant,
        config: SystemConfig,
    ) -> (r: PeerTask)
        ensures
            r@ == (PeerTaskModel {
                index,
                peer: PeerModel::spec_new(our_id, peer_id, now, config),
                last_send_timestamp: None,
                last_poll_sent: now,
                stopped: false,
            }),
    {
        PeerTask {
            index,
            peer: Peer::new(our_id, peer_id, now, config),
            last_send_timestamp: None,
            last_poll_sent: now,
            stopped: false,
        }
    }

    /// Starts the task of peer `index`. `socket` holds the names of the
    /// two ends of the socket, or `None` where it could not be opened:
    /// then there is no task, and after `network_wait_period`
    /// milliseconds the system is to hear of a network issue.
    pub fn spawn(
        index: PeerIndex,
        socket: Option<(ReferenceId, ReferenceId)>,
        now: NtpInstant,
        network_wait_period: u64,
        config: SystemConfig,
    ) -> (r: Spawned)
        ensures
            match socket {
                Some((our_id, peer_id)) => r matches Spawned::Running(task) && task@
                    == (PeerTaskModel {
                    index,
                    peer: PeerModel::spec_new(our_id, peer_id, now, config),
                    last_send_timestamp: None,
                    last_poll_sent: now,
                    stopped: false,
                }),
                None => r matches Spawned::Failed { wait, message } && wait == network_wait_period
                    && message == MsgForSystem::NetworkIssue(index),
            },
    {
        match socket {
            Some((our_id, peer_id)) => Spawned::Running(
                PeerTask::new(index, our_id, peer_id, now, config),
            ),
            None => Spawned::Failed {
                wait: network_wait_period,
                message: MsgForSystem::NetworkIssue(index),
            },
        }
    }

    pub fn index(&self) -> (r: PeerIndex)
        ensures
            r == self@.index,
    {
        self.index
    }

    /// Whether the task has ended.
    pub fn is_stopped(&self) -> (r: bool)
        ensures
            r == self@.stopped,
    {
        self.stopped
    }

    /// The local time at which the latest poll left.
    pub fn last_send_timestamp(&self) -> (r: Option<NtpTimestamp>)
        ensures
            r == self@.last_send_timestamp,
    {
        self.last_send_timestamp
    }

    pub fn snapshot(&self) -> (r: PeerSnapshot)
        ensures
            r == self@.peer.state.spec_snapshot(),
    {
        self.peer.snapshot()
    }

    /// Takes a new configuration.
    pub fn update_config(&mut self, config: SystemConfig)
        ensures
            final(self)@ == (PeerTaskModel {
                peer: PeerModel {
                    state: crate::peer::PeerRecord {
                        poll_limits: config.poll_limits,
                        ..old(self)@.peer.state
                    },
                    samples: old(self)@.peer.samples,
                },
                ..old(self)@
            }),
    {
        self.peer.update_config(config);
    }

    /// When the next poll is due: the poll interval in force after the
    /// latest poll, stretched a little by chance to make polls harder to
    /// predict.
    pub fn update_poll_wait(&self, system: SystemSnapshot) -> (r: NtpInstant)
        ensures
            exists|factor: u32|
                POLL_JITTER_LOW <= factor <= POLL_JITTER_HIGH && r == #[trigger] self@.deadline(
                    system,
                    factor,
                ),
    {
        let factor = random_between(POLL_JITTER_LOW, POLL_JITTER_HIGH);
        let r = poll_deadline(self.last_poll_sent, self.peer.current_poll_interval(system), factor);
        assert(r == self@.deadline(system, factor));
        r
    }

    /// What the task does when its timer fires at `now`, with the poll
    /// marked by `identifier` and the next poll delayed by `factor`.
    /// `clock_time` is the reading of the clock, or `None` where it
    /// could not be read.
    pub fn poll_with(
        &mut self,
        system: SystemSnapshot,
        now: NtpInstant,
        clock_time: Option<NtpTimestamp>,
        identifier: NtpTimestamp,
        factor: u32,
    ) -> (r: PollOutput)
        ensures
            old(self)@.polls(system, now, clock_time, identifier, factor, final(self)@, r),
    {
        let packet = self.peer.generate_poll_message(system, identifier);
        // Sent a poll, so update waiting to match deadline of next.
        self.last_poll_sent = now;
        let deadline = poll_deadline(
            self.last_poll_sent,
            self.peer.current_poll_interval(system),
            factor,
        );
        let message = MsgForSystem::UpdatedSnapshot(self.index, self.peer.snapshot());
        match clock_time {
            Some(sent) => {
                self.last_send_timestamp = Some(sent);
                PollOutput { message, deadline, packet: Some(packet.serialize()) }
            },
            None => PollOutput { message, deadline, packet: None },
        }
    }

    /// What the task does when its timer fires at `now`: it makes a poll
    /// under a mark drawn by chance, tells the system of its new state,
    /// and sets the timer anew. Gives `None`, and does nothing, where the
    /// task has ended.
    pub fn handle_poll(
        &mut self,
        system: SystemSnapshot,
        now: NtpInstant,
        clock_time: Option<NtpTimestamp>,
    ) -> (r: Option<PollOutput>)
        ensures
            old(self)@.stopped ==> r is None && final(self)@ == old(self)@,
            !old(self)@.stopped ==> r is Some && exists|identifier: NtpTimestamp, factor: u32|
                POLL_JITTER_LOW <= factor <= POLL_JITTER_HIGH && #[trigger] old(self)@.polls(
                    system,
                    now,
                    clock_time,
                    identifier,
                    factor,
                    final(self)@,
                    r->Some_0,
                ),
    {
        if self.stopped {
            return None;
        }
        let identifier = NtpTimestamp::from_fixed_int(random_bits());
        let factor = random_between(POLL_JITTER_LOW, POLL_JITTER_HIGH);
        let out = self.poll_with(system, now, clock_time, identifier, factor);
        let r = Some(out);
        assert(old(self)@.polls(system, now, clock_time, identifier, factor, self@, r->Some_0));
        r
    }

    /// Takes what became of sending the poll: the time at which the
    /// kernel sent it, where the kernel says, replaces the reading of the
    /// clock. A network that is gone ends the task.
    pub fn poll_sent(&mut self, result: Result<Option<NtpTimestamp>, NetworkError>) -> (r: (
        PollResult,
        Option<MsgForSystem>,
    ))
        ensures
            match result {
                Ok(Some(sent)) => r == (PollResult::Continue, None::<MsgForSystem>) && final(self)@
                    == (PeerTaskModel { last_send_timestamp: Some(sent), ..old(self)@ }),
                Ok(None) => r == (PollResult::Continue, None::<MsgForSystem>) && final(self)@ == old(
                    self,
                )@,
                Err(error) => if error.spec_is_network_gone() {
                    r == (
                        PollResult::NetworkGone,
                        Some(MsgForSystem::NetworkIssue(old(self)@.index)),
                    ) && final(self)@ == (PeerTaskModel { stopped: true, ..old(self)@ })
                } else {
                    r == (PollResult::Continue, None::<MsgForSystem>) && final(self)@ == old(self)@
                },
            },
    {
        match result {
            Ok(Some(sent)) => {
                self.last_send_timestamp = Some(sent);
                (PollResult::Continue, None)
            },
            Ok(None) => (PollResult::Continue, None),
            Err(error) => {
                if error.is_network_gone() {
                    self.stopped = true;
                    (PollResult::NetworkGone, Some(MsgForSystem::NetworkIssue(self.index)))
                } else {
                    (PollResult::Continue, None)
                }
            },
        }
    }

    /// What the task does with a packet when the next poll is delayed by
    /// `factor`.
    #[verifier::rlimit(50)]
    pub fn packet_with(
        &mut self,
        system: SystemSnapshot,
        packet: NtpHeader,
        send_timestamp: NtpTimestamp,
        recv_timestamp: NtpTimestamp,
        now: NtpInstant,
        factor: u32,
    ) -> (r: PacketOutput)
        ensures
            old(self)@.takes_packet(
                system,
                packet,
                send_timestamp,
                recv_timestamp,
                now,
                factor,
                final(self)@,
                r,
            ),
    {
        let result = self.peer.handle_incoming(system, packet, now, send_timestamp, recv_timestamp);
        // The packet may have changed the poll interval; respect that.
        let deadline = poll_deadline(
            self.last_poll_sent,
            self.peer.current_poll_interval(system),
            factor,
        );
        match result {
            Ok(Update::BareUpdate(snapshot)) => PacketOutput {
                result: PacketResult::Continue,
                message: Some(MsgForSystem::UpdatedSnapshot(self.index, snapshot)),
                deadline,
            },
            Ok(Update::NewMeasurement(snapshot, measurement, header)) => PacketOutput {
                result: PacketResult::Continue,
                message: Some(
                    MsgForSystem::NewMeasurement(self.index, snapshot, measurement, header),
                ),
                deadline,
            },
            Err(IgnoreReason::KissDemobilize) => {
                let first = !self.stopped;
                self.stopped = true;
                PacketOutput {
                    result: if first {
                        PacketResult::Demobilize
                    } else {
                        PacketResult::Continue
                    },
                    message: Some(MsgForSystem::MustDemobilize(self.index)),
                    deadline,
                }
            },
            Err(_) => PacketOutput { result: PacketResult::Continue, message: None, deadline },
        }
    }

    /// Takes a packet from the server: the association judges it, the
    /// system hears of what it brought, and the timer is set anew. A
    /// server that refuses the client ends the task.
    pub fn handle_packet(
        &mut self,
        system: SystemSnapshot,
        packet: NtpHeader,
        send_timestamp: NtpTimestamp,
        recv_timestamp: NtpTimestamp,
        now: NtpInstant,
    ) -> (r: PacketOutput)
        ensures
            exists|factor: u32|
                POLL_JITTER_LOW <= factor <= POLL_JITTER_HIGH && #[trigger] old(
                    self,
                )@.takes_packet(
                    system,
                    packet,
                    send_timestamp,
                    recv_timestamp,
                    now,
                    factor,
                    final(self)@,
                    r,
                ),
    {
        let factor = random_between(POLL_JITTER_LOW, POLL_JITTER_HIGH);
        self.packet_with(system, packet, send_timestamp, recv_timestamp, now, factor)
    }

    /// Takes what a receive on the socket brought. A packet that comes
    /// before any poll has left is discarded, and so is whatever comes
    /// once the task has ended.
    #[verifier::rlimit(50)]
    pub fn handle_datagram(
        &mut self,
        system: SystemSnapshot,
        result: Result<(usize, Option<NtpTimestamp>), NetworkError>,
        buf: &[u8; 48],
        now: NtpInstant,
    ) -> (r: DatagramOutput)
        ensures
            old(self)@.stopped ==> final(self)@ == old(self)@ && r == (DatagramOutput {
                message: None,
                deadline: None,
                stop: true,
            }),
            !old(self)@.stopped ==> match spec_accept_packet(result, buf@) {
                AcceptResult::Ignore => final(self)@ == old(self)@ && r == (DatagramOutput {
                    message: None,
                    deadline: None,
                    stop: false,
                }),
                AcceptResult::NetworkGone => final(self)@ == (PeerTaskModel {
                    stopped: true,
                    ..old(self)@
                }) && r == (DatagramOutput {
                    message: Some(MsgForSystem::NetworkIssue(old(self)@.index)),
                    deadline: None,
                    stop: true,
                }),
                AcceptResult::Accept(packet, recv_timestamp) => match old(
                    self,
                )@.last_send_timestamp {
                    None => final(self)@ == old(self)@ && r == (DatagramOutput {
                        message: None,
                        deadline: None,
                        stop: false,
                    }),
                    Some(send_timestamp) => exists|factor: u32, out: PacketOutput|
                        {
                            &&& POLL_JITTER_LOW <= factor <= POLL_JITTER_HIGH
                            &&& #[trigger] old(self)@.takes_packet(
                                system,
                                packet,
                                send_timestamp,
                                recv_timestamp,
                                now,
                                factor,
                                final(self)@,
                                out,
                            )
                            &&& r == (DatagramOutput {
                                message: out.message,
                                deadline: Some(out.deadline),
                                stop: out.result == PacketResult::Demobilize,
                            })
                        },
                },
            },
    {
        if self.stopped {
            return DatagramOutput { message: None, deadline: None, stop: true };
        }
        match accept_packet(result, buf) {
            AcceptResult::Accept(packet, recv_timestamp) => {
                let send_timestamp = match self.last_send_timestamp {
                    Some(ts) => ts,
                    None => {
                        return DatagramOutput { message: None, deadline: None, stop: false };
                    },
                };
                let out = self.handle_packet(system, packet, send_timestamp, recv_timestamp, now);
                DatagramOutput {
                    message: out.message,
                    deadline: Some(out.deadline),
                    stop: match out.result {
                        PacketResult::Demobilize => true,
                        PacketResult::Continue => false,
                    },
                }
            },
            AcceptResult::NetworkGone => {
                self.stopped = true;
                DatagramOutput {
                    message: Some(MsgForSystem::NetworkIssue(self.index)),
                    deadline: None,
                    stop: true,
                }
            },
            AcceptResult::Ignore => DatagramOutput { message: None, deadline: None, stop: false },
        }
    }
}

/// However chance falls, the wait for the next poll is at least the poll
/// interval: the factor never goes below one.
pub proof fn lemma_deadline_not_early(last_poll_sent: NtpInstant, interval: PollInterval, factor: u32)
    requires
        POLL_JITTER_LOW <= factor <= POLL_JITTER_HIGH,
    ensures
        spec_poll_deadline(last_poll_sent, interval, factor).ticks >= last_poll_sent.spec_plus(
            interval.spec_as_duration(),
        ).ticks || spec_poll_deadline(last_poll_sent, interval, factor).ticks == u64::MAX,
{
    let span = interval.spec_as_duration().duration as int;
    if -32 <= interval.log < 31 {
        crate::time_types::lemma_pow2_monotonic((interval.log + 32) as nat, 62);
        crate::time_types::lemma_pow2_values();
    }
    assert((span * factor) / 1_000_000 >= span) by (nonlinear_arith)
        requires
            span >= 0,
            factor >= 1_000_000,
    ;
}

/// A new measurement is reported only of a packet that answers a
/// request that is open, and only a poll opens a request: the system
/// has heard of the poll, with the snapshot made at it, before it hears
/// of the measurement.
pub proof fn lemma_measurement_follows_poll(
    task: PeerTaskModel,
    system: SystemSnapshot,
    packet: NtpHeader,
    send_timestamp: NtpTimestamp,
    recv_timestamp: NtpTimestamp,
    now: NtpInstant,
)
    requires
        task.packet_message(system, packet, send_timestamp, recv_timestamp, now) matches Some(
            MsgForSystem::NewMeasurement(_, _, _, _),
        ),
    ensures
        task.peer.state.current_request_identifier == Some(packet.origin_timestamp),
        task.after_packet(
            system,
            packet,
            send_timestamp,
            recv_timestamp,
            now,
        ).peer.state.current_request_identifier is None,
{
}

} // verus!
