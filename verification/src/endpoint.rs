//! Socket addresses as plain values.
//!
//! An [`Endpoint`] holds what identifies one end of a datagram exchange: the
//! address family, the IP address as a number, the port and, for IPv6, the
//! flow information and the scope identifier. Two endpoints are the same peer
//! exactly when all of these agree.

use vstd::prelude::*;

verus! {

/// One end of a datagram exchange: a local bind address or a remote peer.
#[derive(Clone, Copy, Debug, PartialEq, Eq, Structural, Hash)]
#[allow(inconsistent_fields)]
pub enum Endpoint {
    /// An IPv4 socket address. `addr` holds the four octets, first octet in
    /// the most significant byte.
    V4 { addr: u32, port: u16 },
    /// An IPv6 socket address. `addr` holds the sixteen octets, first octet in
    /// the most significant byte.
    V6 { addr: u128, port: u16, flowinfo: u32, scope_id: u32 },
}

/// What an endpoint is filed under in a registry: the family (`true` for
/// IPv6), the address, the port, the flow information and the scope
/// identifier.
pub type Key = (bool, u128, u16, u32, u32);

impl Endpoint {
    /// The number that four octets stand for, first octet most significant.
    pub open spec fn v4_bits(a: u8, b: u8, c: u8, d: u8) -> int {
        a * 0x100_0000 + b * 0x1_0000 + c * 0x100 + d
    }

    /// The tuple of integers under which an endpoint is filed in a registry.
    ///
    /// The first component tells the family apart; an IPv4 endpoint has no
    /// flow information or scope, so both are zero there.
    pub open spec fn key(self) -> Key {
        match self {
            Endpoint::V4 { addr, port } => (false, addr as u128, port, 0u32, 0u32),
            Endpoint::V6 { addr, port, flowinfo, scope_id } => (
                true,
                addr,
                port,
                flowinfo,
                scope_id,
            ),
        }
    }

    /// The IPv4 endpoint `a.b.c.d:port`.
    pub fn v4(a: u8, b: u8, c: u8, d: u8, port: u16) -> (e: Endpoint)
        ensures
            e == (Endpoint::V4 { addr: Self::v4_bits(a, b, c, d) as u32, port }),
            Self::v4_bits(a, b, c, d) <= u32::MAX,
    {
        let high: u32 = (a as u32) * 0x100_0000 + (b as u32) * 0x1_0000;
        let low: u32 = (c as u32) * 0x100 + (d as u32);
        Endpoint::V4 { addr: high + low, port }
    }

    /// Whether this is an IPv4 endpoint.
    pub fn is_ipv4(&self) -> (r: bool)
        ensures
            r == (*self is V4),
    {
        match self {
            Endpoint::V4 { .. } => true,
            Endpoint::V6 { .. } => false,
        }
    }

    /// The port number.
    pub fn port(&self) -> (p: u16)
        ensures
            p == match *self {
                Endpoint::V4 { port, .. } => port,
                Endpoint::V6 { port, .. } => port,
            },
    {
        match self {
            Endpoint::V4 { port, .. } => *port,
            Endpoint::V6 { port, .. } => *port,
        }
    }

    /// Computes [`Endpoint::key`].
    pub fn to_key(&self) -> (k: Key)
        ensures
            k == self.key(),
    {
        match self {
            Endpoint::V4 { addr, port } => (false, *addr as u128, *port, 0u32, 0u32),
            Endpoint::V6 { addr, port, flowinfo, scope_id } => (
                true,
                *addr,
                *port,
                *flowinfo,
                *scope_id,
            ),
        }
    }
}

/// Distinct endpoints have distinct keys, so a set of keys stands for a set
/// of endpoints.
pub proof fn lemma_key_injective(a: Endpoint, b: Endpoint)
    ensures
        a.key() == b.key() <==> a == b,
{
}

} // verus!
