//! Socket addresses as plain values.
use vstd::prelude::*;

verus! {

/// The port that a session listens on unless told otherwise.
pub const DEFAULT_LISTEN_PORT: u16 = 8997;

/// An IP address: four octets, or eight 16-bit segments.
#[derive(Clone, Copy, Debug, PartialEq, Eq, Structural)]
pub enum IpAddress {
    V4(u8, u8, u8, u8),
    V6(u16, u16, u16, u16, u16, u16, u16, u16),
}

/// An IP address and a port.
#[derive(Clone, Copy, Debug, PartialEq, Eq, Structural)]
pub struct SocketAddress {
    pub ip: IpAddress,
    pub port: u16,
}

impl SocketAddress {
    pub fn new(ip: IpAddress, port: u16) -> (r: SocketAddress)
        ensures
            r.ip == ip,
            r.port == port,
    {
        SocketAddress { ip, port }
    }

    /// `0.0.0.0:port`: every local IPv4 interface.
    pub fn unspecified_v4(port: u16) -> (r: SocketAddress)
        ensures
            r.ip == IpAddress::V4(0, 0, 0, 0),
            r.port == port,
    {
        SocketAddress { ip: IpAddress::V4(0, 0, 0, 0), port }
    }

    /// The address a session binds when asked to listen: `0.0.0.0:8997`.
    pub fn default_listen() -> (r: SocketAddress)
        ensures
            r.ip == IpAddress::V4(0, 0, 0, 0),
            r.port == DEFAULT_LISTEN_PORT,
    {
        Self::unspecified_v4(DEFAULT_LISTEN_PORT)
    }
}

} // verus!
