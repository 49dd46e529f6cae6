//! Where a peer is found: the name it was configured by and the socket
//! address that the name resolved to.

use crate::identifiers::PoolIndex;
use vstd::prelude::*;

verus! {

/// An internet address as a number: the octets in network order.
#[derive(Debug, Copy, Clone, PartialEq, Eq, Structural, Hash)]
pub enum IpAddress {
    V4(u32),
    V6(u128),
}

/// An internet address with a port.
#[derive(Debug, Copy, Clone, PartialEq, Eq, Structural, Hash)]
pub struct SocketAddress {
    pub ip: IpAddress,
    pub port: u16,
}

impl SocketAddress {
    pub fn v4(a: u8, b: u8, c: u8, d: u8, port: u16) -> (r: SocketAddress)
        ensures
            r == (SocketAddress {
                ip: IpAddress::V4((a as int * 0x100_0000 + b as int * 0x1_0000 + c as int * 0x100 + d as int) as u32),
                port,
            }),
    {
        SocketAddress {
            ip: IpAddress::V4(
                (a as u32) * 0x100_0000 + (b as u32) * 0x1_0000 + (c as u32) * 0x100 + (d as u32),
            ),
            port,
        }
    }
}

/// The address to bind to for talking to `addr`: any address of the same
/// family, any port.
pub open spec fn spec_unspecified_for(addr: SocketAddress) -> SocketAddress {
    match addr.ip {
        IpAddress::V4(_) => SocketAddress { ip: IpAddress::V4(0), port: 0 },
        IpAddress::V6(_) => SocketAddress { ip: IpAddress::V6(0), port: 0 },
    }
}

pub fn unspecified_for(addr: SocketAddress) -> (r: SocketAddress)
    ensures
        r == spec_unspecified_for(addr),
{
    match addr.ip {
        IpAddress::V4(_) => SocketAddress { ip: IpAddress::V4(0), port: 0 },
        IpAddress::V6(_) => SocketAddress { ip: IpAddress::V6(0), port: 0 },
    }
}

/// A host name with a port, as the configuration names a server.
#[derive(Debug, PartialEq, Eq)]
pub struct NormalizedAddress {
    pub server_name: String,
    pub port: u16,
}

impl NormalizedAddress {
    pub fn new(server_name: String, port: u16) -> (r: NormalizedAddress)
        ensures
            r.server_name == server_name,
            r.port == port,
    {
        NormalizedAddress { server_name, port }
    }

    /// A copy of the address.
    pub fn duplicate(&self) -> (r: NormalizedAddress)
        ensures
            r == *self,
    {
        NormalizedAddress { server_name: self.server_name.clone(), port: self.port }
    }
}

impl Clone for NormalizedAddress {
    fn clone(&self) -> (r: NormalizedAddress)
        ensures
            r == *self,
    {
        self.duplicate()
    }
}

/// How a peer came to be: by its own name, or as a member of a pool.
#[derive(Debug, PartialEq, Eq)]
pub enum PeerAddress {
    Peer { address: NormalizedAddress },
    Pool {
        index: PoolIndex,
        address: NormalizedAddress,
        socket_address: SocketAddress,
        max_peers: usize,
    },
}

impl PeerAddress {
    /// A copy of the address.
    pub fn duplicate(&self) -> (r: PeerAddress)
        ensures
            r == *self,
    {
        match self {
            PeerAddress::Peer { address } => PeerAddress::Peer { address: address.duplicate() },
            PeerAddress::Pool { index, address, socket_address, max_peers } => PeerAddress::Pool {
                index: *index,
                address: address.duplicate(),
                socket_address: *socket_address,
                max_peers: *max_peers,
            },
        }
    }

    /// The configured name.
    pub open spec fn spec_name(&self) -> NormalizedAddress {
        match *self {
            PeerAddress::Peer { address } => address,
            PeerAddress::Pool { address, .. } => address,
        }
    }

    pub fn name(&self) -> (r: &NormalizedAddress)
        ensures
            *r == self.spec_name(),
    {
        match self {
            PeerAddress::Peer { address } => address,
            PeerAddress::Pool { address, .. } => address,
        }
    }
}

impl Clone for PeerAddress {
    fn clone(&self) -> (r: PeerAddress)
        ensures
            r == *self,
    {
        self.duplicate()
    }
}

} // verus!
