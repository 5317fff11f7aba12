//! Socket addresses, as the relay reads them

use vstd::prelude::*;

verus! {

/// An IP socket address: an IPv4 address and a port, or an IPv6 address,
/// a port, a flow label and a scope id. The addresses are held as the
/// integers that their octets spell, most significant octet first.
#[derive(Copy, Clone, Debug, PartialEq, Eq, Structural, Hash)]
#[allow(inconsistent_fields)]
pub enum SocketAddress {
    V4 { ip: u32, port: u16 },
    V6 { ip: u128, port: u16, flowinfo: u32, scope_id: u32 },
}

/// The address family of a socket.
#[derive(Copy, Clone, Debug, PartialEq, Eq, Structural)]
pub enum AddressFamily {
    Ipv4,
    Ipv6,
}

impl SocketAddress {
    /// Returns `true` for an IPv4 socket address.
    pub fn is_ipv4(&self) -> (r: bool)
        ensures
            r == (*self is V4),
    {
        match self {
            SocketAddress::V4 { .. } => true,
            SocketAddress::V6 { .. } => false,
        }
    }

    /// Returns `true` for an IPv6 socket address.
    pub fn is_ipv6(&self) -> (r: bool)
        ensures
            r == (*self is V6),
    {
        match self {
            SocketAddress::V4 { .. } => false,
            SocketAddress::V6 { .. } => true,
        }
    }

    /// The port number of the address.
    pub fn port(&self) -> (p: u16)
        ensures
            p == match *self {
                SocketAddress::V4 { port, .. } => port,
                SocketAddress::V6 { port, .. } => port,
            },
    {
        match self {
            SocketAddress::V4 { port, .. } => *port,
            SocketAddress::V6 { port, .. } => *port,
        }
    }

    pub open spec fn spec_family(self) -> AddressFamily {
        if self is V4 {
            AddressFamily::Ipv4
        } else {
            AddressFamily::Ipv6
        }
    }

    /// The address family that a socket for this address must have.
    pub fn family(&self) -> (f: AddressFamily)
        ensures
            f == self.spec_family(),
            (f == AddressFamily::Ipv4) == (*self is V4),
            (f == AddressFamily::Ipv6) == (*self is V6),
    {
        if self.is_ipv4() {
            AddressFamily::Ipv4
        } else {
            AddressFamily::Ipv6
        }
    }
}

/// The family of an address is fixed by its kind alone: IPv4 for every IPv4
/// address, IPv6 for every IPv6 address, whatever the address, port, flow label
/// or scope.
pub proof fn law_family_follows_kind(a: SocketAddress)
    ensures
        (a.spec_family() == AddressFamily::Ipv4) <==> a is V4,
        (a.spec_family() == AddressFamily::Ipv6) <==> a is V6,
        a matches SocketAddress::V6 { .. } ==> a.spec_family() == AddressFamily::Ipv6,
        a matches SocketAddress::V4 { .. } ==> a.spec_family() == AddressFamily::Ipv4,
{
}

} // verus!
