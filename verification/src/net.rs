//! Network addresses and operating-system errors as plain values.

use vstd::prelude::*;

verus! {

/// An IP address, as the number its bytes spell in network order.
#[derive(Clone, Copy, Debug, PartialEq, Eq, Structural)]
pub enum IpAddr {
    /// An IPv4 address
    V4(u32),
    /// An IPv6 address
    V6(u128),
}

/// A transport endpoint.
#[derive(Clone, Copy, Debug, PartialEq, Eq, Structural)]
pub struct SocketAddr {
    /// Address of the host
    pub ip: IpAddr,
    /// Transport-layer number of the endpoint on that host
    pub port: u16,
    /// Flow information of an IPv6 endpoint, zero for IPv4
    pub flowinfo: u32,
    /// Scope of an IPv6 endpoint, zero for IPv4
    pub scope_id: u32,
}

/// What the operating system reports about a call that failed.
#[derive(Clone, Copy, Debug, PartialEq, Eq, Structural)]
pub struct OsError {
    /// The raw error number, if the error carries one
    pub raw_os_error: Option<i32>,
    /// Whether the caller lacked the permission for the call
    pub permission_denied: bool,
}

impl IpAddr {
    /// Whether this is an IPv4 address.
    pub fn is_ipv4(&self) -> (v4: bool)
        ensures
            v4 == (self is V4),
    {
        match self {
            IpAddr::V4(_) => true,
            IpAddr::V6(_) => false,
        }
    }
}

/// Whether the version nibble of a packet is `version`.
pub open spec fn has_ip_version(pkt: Seq<u8>, version: int) -> bool {
    pkt.len() > 0 && pkt[0] as int / 16 == version
}

/// Whether `pkt` declares itself an IPv4 packet.
pub fn ipv4_is_valid_packet(pkt: &[u8]) -> (valid: bool)
    ensures
        valid == has_ip_version(pkt@, 4),
{
    pkt.len() > 0 && pkt[0] / 16 == 4
}

/// Whether `pkt` declares itself an IPv6 packet.
pub fn ipv6_is_valid_packet(pkt: &[u8]) -> (valid: bool)
    ensures
        valid == has_ip_version(pkt@, 6),
{
    pkt.len() > 0 && pkt[0] / 16 == 6
}

/// Offset of the protocol number in an IPv4 header
pub const IPV4_PROTOCOL_OFFSET: usize = 9;

/// Protocol number of TCP
pub const IP_PROTOCOL_TCP: u8 = 6;

/// Whether a packet is IPv4 and carries TCP.
pub open spec fn carries_tcp(pkt: Seq<u8>) -> bool {
    &&& has_ip_version(pkt, 4)
    &&& pkt.len() >= crate::IPV4_HEADER_SIZE
    &&& pkt[IPV4_PROTOCOL_OFFSET as int] == IP_PROTOCOL_TCP
}

/// Whether `pkt` is an IPv4 packet that carries TCP.
pub fn ipv4_is_tcp(pkt: &[u8]) -> (tcp: bool)
    ensures
        tcp == carries_tcp(pkt@),
{
    ipv4_is_valid_packet(pkt) && pkt.len() >= crate::IPV4_HEADER_SIZE && pkt[IPV4_PROTOCOL_OFFSET]
        == IP_PROTOCOL_TCP
}

} // verus!
