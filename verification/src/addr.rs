//! Network addresses as plain numbers.
use vstd::prelude::*;

verus! {

/// An IP address: the number that its octets spell in network byte order.
#[derive(Debug, Clone, Copy, PartialEq, Eq, Structural)]
pub enum IpAddress {
    V4(u32),
    V6(u128),
}

/// The endpoint of a path: an IP address and a port, and for IPv6 the flow information and the
/// scope that belong to the address.
#[derive(Debug, Clone, Copy, PartialEq, Eq, Structural)]
pub enum SocketAddress {
    V4 { ip: u32, port: u16 },
    V6 { ip: u128, port: u16, flowinfo: u32, scope_id: u32 },
}

/// The endpoint with the given address and port, without flow information or scope.
pub open spec fn socket_address(ip: IpAddress, port: u16) -> SocketAddress {
    match ip {
        IpAddress::V4(ip) => SocketAddress::V4 { ip, port },
        IpAddress::V6(ip) => SocketAddress::V6 { ip, port, flowinfo: 0, scope_id: 0 },
    }
}

impl SocketAddress {
    /// The endpoint with the given address and port, without flow information or scope.
    pub fn new(ip: IpAddress, port: u16) -> (address: SocketAddress)
        ensures
            address == socket_address(ip, port),
    {
        match ip {
            IpAddress::V4(ip) => SocketAddress::V4 { ip, port },
            IpAddress::V6(ip) => SocketAddress::V6 { ip, port, flowinfo: 0, scope_id: 0 },
        }
    }

    pub open spec fn spec_ip(self) -> IpAddress {
        match self {
            SocketAddress::V4 { ip, .. } => IpAddress::V4(ip),
            SocketAddress::V6 { ip, .. } => IpAddress::V6(ip),
        }
    }

    pub open spec fn spec_port(self) -> u16 {
        match self {
            SocketAddress::V4 { port, .. } => port,
            SocketAddress::V6 { port, .. } => port,
        }
    }

    /// The address without the port.
    pub fn ip(&self) -> (ip: IpAddress)
        ensures
            ip == self.spec_ip(),
    {
        match *self {
            SocketAddress::V4 { ip, .. } => IpAddress::V4(ip),
            SocketAddress::V6 { ip, .. } => IpAddress::V6(ip),
        }
    }

    /// The port without the address.
    pub fn port(&self) -> (port: u16)
        ensures
            port == self.spec_port(),
    {
        match *self {
            SocketAddress::V4 { port, .. } => port,
            SocketAddress::V6 { port, .. } => port,
        }
    }
}

/// An endpoint made of an address and a port has that address and that port, and nothing besides.
pub proof fn law_endpoint_has_its_address_and_port(ip: IpAddress, port: u16)
    ensures
        socket_address(ip, port).spec_ip() == ip,
        socket_address(ip, port).spec_port() == port,
        socket_address(ip, port) matches SocketAddress::V6 { flowinfo, scope_id, .. } ==> flowinfo
            == 0 && scope_id == 0,
{
}

/// An endpoint is made of its address and its port, but for what only an IPv6 endpoint has besides.
pub proof fn law_address_and_port_make_the_endpoint(address: SocketAddress)
    ensures
        match address {
            SocketAddress::V4 { .. } => socket_address(address.spec_ip(), address.spec_port())
                == address,
            SocketAddress::V6 { ip, port, flowinfo, scope_id } => flowinfo == 0 && scope_id == 0
                ==> socket_address(address.spec_ip(), address.spec_port()) == address,
        },
        address is V6 <==> address.spec_ip() is V6,
{
}

} // verus!
