//! Network addresses as plain values.

use vstd::prelude::*;

verus! {

/// Port on which the echo server listens unless told otherwise.
pub const DEFAULT_SERVER_PORT: u16 = 5001;

/// An IP address, by its components.
#[derive(Clone, Copy, Debug, PartialEq, Eq, Structural)]
pub enum IpAddress {
    /// An IPv4 address, by its four octets.
    V4(u8, u8, u8, u8),
    /// An IPv6 address, by its eight segments.
    V6(u16, u16, u16, u16, u16, u16, u16, u16),
}

/// An IP address together with a port.
#[derive(Clone, Copy, Debug, PartialEq, Eq, Structural)]
pub struct SocketAddress {
    pub ip: IpAddress,
    pub port: u16,
}

impl IpAddress {
    /// The IPv4 loopback address, `127.0.0.1`.
    pub open spec fn spec_localhost() -> IpAddress {
        IpAddress::V4(127, 0, 0, 1)
    }

    /// The IPv4 loopback address, `127.0.0.1`.
    #[verifier::when_used_as_spec(spec_localhost)]
    pub fn localhost() -> (ip: IpAddress)
        ensures
            ip == IpAddress::spec_localhost(),
    {
        IpAddress::V4(127, 0, 0, 1)
    }
}

impl SocketAddress {
    pub open spec fn spec_new(ip: IpAddress, port: u16) -> SocketAddress {
        SocketAddress { ip, port }
    }

    /// The address made of `ip` and `port`.
    #[verifier::when_used_as_spec(spec_new)]
    pub fn new(ip: IpAddress, port: u16) -> (addr: SocketAddress)
        ensures
            addr == SocketAddress::spec_new(ip, port),
    {
        SocketAddress { ip, port }
    }

    /// Whether the port is left for the system to pick when binding.
    pub open spec fn spec_is_ephemeral(&self) -> bool {
        self.port == 0
    }

    /// Whether the port is left for the system to pick when binding.
    #[verifier::when_used_as_spec(spec_is_ephemeral)]
    pub fn is_ephemeral(&self) -> (b: bool)
        ensures
            b == self.spec_is_ephemeral(),
    {
        self.port == 0
    }
}

} // verus!
