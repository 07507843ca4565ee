//! Resolved network addresses, as plain values.

use vstd::prelude::*;

verus! {

/// The protocol family a socket is created for.
#[derive(Clone, Copy, Debug, PartialEq, Eq, Structural)]
pub enum AddressFamily {
    /// IPv4.
    Inet,
    /// IPv6.
    Inet6,
}

/// An IP address together with a port: the target of a connection.
///
/// The address bits are kept in host order, most significant octet first, so
/// that `127.0.0.1` is `0x7f00_0001`.
#[derive(Clone, Copy, Debug, PartialEq, Eq, Structural)]
#[allow(inconsistent_fields)]
pub enum SocketAddress {
    /// An IPv4 address and port.
    V4 { ip: u32, port: u16 },
    /// An IPv6 address and port, with the flow information and scope
    /// identifier that belong to it.
    V6 { ip: u128, port: u16, flowinfo: u32, scope_id: u32 },
}

impl SocketAddress {
    /// The family implied by the address.
    pub open spec fn spec_family(&self) -> AddressFamily {
        match *self {
            SocketAddress::V4 { .. } => AddressFamily::Inet,
            SocketAddress::V6 { .. } => AddressFamily::Inet6,
        }
    }

    /// The family a socket must have to reach this address.
    #[verifier::when_used_as_spec(spec_family)]
    pub fn family(&self) -> (family: AddressFamily)
        ensures
            family == self.spec_family(),
    {
        match self {
            SocketAddress::V4 { .. } => AddressFamily::Inet,
            SocketAddress::V6 { .. } => AddressFamily::Inet6,
        }
    }
}

} // verus!
