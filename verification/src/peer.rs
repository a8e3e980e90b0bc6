//! The address a datagram came from, as plain numbers.

use vstd::prelude::*;

verus! {

/// A socket address of a peer: an IPv4 or IPv6 address and a port, each part
/// as the number that the wire carries.
#[derive(Clone, Copy, Debug, PartialEq, Eq, Structural, Hash)]
pub enum PeerAddr {
    /// An IPv4 address, its four octets as one big-endian number.
    V4 { octets: u32, port: u16 },
    /// An IPv6 address, its sixteen octets as one big-endian number, with the
    /// flow label and the scope identifier of the socket address.
    V6 { segments: u128, port: u16, flowinfo: u32, scope_id: u32 },
}

impl PeerAddr {
    /// The port of the address.
    pub fn port(&self) -> (port: u16)
        ensures
            port == self.spec_port(),
    {
        match self {
            PeerAddr::V4 { port, .. } => *port,
            PeerAddr::V6 { port, .. } => *port,
        }
    }

    /// The port of the address.
    pub open spec fn spec_port(&self) -> u16 {
        match *self {
            PeerAddr::V4 { port, .. } => port,
            PeerAddr::V6 { port, .. } => port,
        }
    }

    /// Whether this is an IPv4 address.
    pub fn is_ipv4(&self) -> (v4: bool)
        ensures
            v4 == (*self is V4),
    {
        match self {
            PeerAddr::V4 { .. } => true,
            PeerAddr::V6 { .. } => false,
        }
    }
}

} // verus!
