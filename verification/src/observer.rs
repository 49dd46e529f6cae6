//! What the daemon shows to whoever asks on its observation socket.

use crate::filter::PeerStatistics;
use crate::identifiers::ReferenceId;
use crate::peer::SystemSnapshot;
use crate::reach::Reach;
use crate::time_types::{NtpDuration, PollInterval};
use vstd::prelude::*;

verus! {

/// What an observer may ask for.
#[derive(Debug, Copy, Clone, PartialEq, Eq, Structural)]
pub enum Observe {
    Peers,
    System,
}

/// What an observer learns of one peer.
#[derive(Debug, Clone, PartialEq, Eq)]
pub enum ObservablePeerState {
    /// Nothing has been heard from the peer since the clock was last
    /// stepped.
    Nothing,
    Observable {
        statistics: PeerStatistics,
        reachability: Reach,
        /// The time since the peer's first measurement.
        uptime: NtpDuration,
        poll_interval: PollInterval,
        peer_id: ReferenceId,
        address: String,
    },
}

/// The answer to an observer.
#[derive(Debug, Clone, PartialEq, Eq)]
pub enum Observation {
    Peers(Vec<ObservablePeerState>),
    System(SystemSnapshot),
}

/// Answers an observer from what the system last published: the state of
/// every peer, or the state of the system.
pub fn observe(request: Observe, peers: Vec<ObservablePeerState>, system: SystemSnapshot) -> (r:
    Observation)
    ensures
        request == Observe::Peers ==> r == Observation::Peers(peers),
        request == Observe::System ==> r == Observation::System(system),
{
    match request {
        Observe::Peers => Observation::Peers(peers),
        Observe::System => Observation::System(system),
    }
}

} // verus!
