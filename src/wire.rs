use vstd::prelude::*;

verus! {

/// A network-layer address.
///
/// `Invalid` stands for "no address"; it is the address of the default
/// endpoint.
#[derive(Clone, Copy, Debug, PartialEq, Eq, Structural)]
pub enum Address {
    Invalid,
    /// An IPv4 address, by its four octets in network order.
    Ipv4(u8, u8, u8, u8),
}

impl Address {
    /// Whether this is the wildcard address `0.0.0.0`.
    pub open spec fn spec_is_unspecified(self) -> bool {
        self == Address::Ipv4(0, 0, 0, 0)
    }

    /// Return whether this is the wildcard address, which a socket binds to
    /// in order to accept datagrams sent to any local address.
    pub fn is_unspecified(&self) -> (r: bool)
        ensures
            r == self.spec_is_unspecified(),
    {
        match self {
            Address::Invalid => false,
            Address::Ipv4(a, b, c, d) => *a == 0 && *b == 0 && *c == 0 && *d == 0,
        }
    }
}

/// A pair of an address and a port.
#[derive(Clone, Copy, Debug, PartialEq, Eq, Structural)]
pub struct Endpoint {
    pub addr: Address,
    pub port: u16,
}

impl Endpoint {
    /// Create an endpoint from an address and a port.
    pub fn new(addr: Address, port: u16) -> (r: Endpoint)
        ensures
            r == (Endpoint { addr, port }),
    {
        Endpoint { addr, port }
    }

    /// The endpoint that stands for "no endpoint": an invalid address and port 0.
    pub fn invalid() -> (r: Endpoint)
        ensures
            r == (Endpoint { addr: Address::Invalid, port: 0 }),
    {
        Endpoint { addr: Address::Invalid, port: 0 }
    }
}

impl Default for Endpoint {
    /// The default endpoint is the invalid one.
    fn default() -> (r: Endpoint)
        ensures
            r == (Endpoint { addr: Address::Invalid, port: 0 }),
    {
        Endpoint::invalid()
    }
}

/// A parsed datagram: its ports and its payload.
pub struct UdpRepr<'a> {
    pub src_port: u16,
    pub dst_port: u16,
    pub payload: &'a [u8],
}

} // verus!
