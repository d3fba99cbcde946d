//! Socket addresses as plain values, and the address-equality predicate
//! used by the sender-filtered receive.
//!
//! A dual-stack socket may report one peer either as a plain IPv4
//! address or as its IPv4-mapped IPv6 form (`::ffff:a.b.c.d`), so the
//! two must compare equal.  Equality is therefore an explicit function
//! that canonicalizes a mapped address before comparing, never the
//! structural equality of the representations.

use vstd::prelude::*;

verus! {

/// An IP address: four IPv4 octets, or eight 16-bit IPv6 segments.
#[derive(Clone, Copy, Debug, PartialEq, Eq, Structural)]
pub enum Ip {
    V4(u8, u8, u8, u8),
    V6(u16, u16, u16, u16, u16, u16, u16, u16),
}

/// A socket address: an IP address together with a UDP port.
#[derive(Clone, Copy, Debug, PartialEq, Eq, Structural)]
pub struct SocketAddress {
    pub ip: Ip,
    pub port: u16,
}

/// The canonical form of an IP address: an IPv4-mapped IPv6 address
/// denotes the IPv4 address held in its two low segments; every other
/// address denotes itself.
pub open spec fn canonical_ip(ip: Ip) -> Ip {
    match ip {
        Ip::V6(s0, s1, s2, s3, s4, s5, s6, s7) => {
            if s0 == 0 && s1 == 0 && s2 == 0 && s3 == 0 && s4 == 0 && s5 == 0xffff {
                Ip::V4((s6 / 256) as u8, (s6 % 256) as u8, (s7 / 256) as u8, (s7 % 256) as u8)
            } else {
                ip
            }
        },
        Ip::V4(..) => ip,
    }
}

/// Whether two socket addresses name the same endpoint: equal ports and
/// equal canonical IP addresses.
pub open spec fn address_equal(a: SocketAddress, b: SocketAddress) -> bool {
    a.port == b.port && canonical_ip(a.ip) == canonical_ip(b.ip)
}

/// Returns the canonical form of `ip`, rewriting an IPv4-mapped IPv6
/// address to the plain IPv4 address it denotes.
pub fn canonicalize(ip: &Ip) -> (r: Ip)
    ensures
        r == canonical_ip(*ip),
{
    match *ip {
        Ip::V6(s0, s1, s2, s3, s4, s5, s6, s7) => {
            if s0 == 0 && s1 == 0 && s2 == 0 && s3 == 0 && s4 == 0 && s5 == 0xffff {
                Ip::V4((s6 / 256) as u8, (s6 % 256) as u8, (s7 / 256) as u8, (s7 % 256) as u8)
            } else {
                *ip
            }
        },
        Ip::V4(a, b, c, d) => Ip::V4(a, b, c, d),
    }
}

/// Compares two socket addresses for equality under IPv4-mapped-IPv6
/// normalization.
pub fn socket_address_equal(a: &SocketAddress, b: &SocketAddress) -> (r: bool)
    ensures
        r == address_equal(*a, *b),
{
    a.port == b.port && canonicalize(&a.ip) == canonicalize(&b.ip)
}

} // verus!
