//! Network addresses as plain values, and the private/local classification
//! that decides whether an announcing server is co-located with the registry.

use vstd::prelude::*;

verus! {

/// A network address, held as plain integers so that the classification
/// below can be stated and proved over its parts.
#[derive(Clone, Copy, Debug, PartialEq, Eq, Structural)]
pub enum IpAddress {
    /// An IPv4 address `a.b.c.d`.
    V4 { a: u8, b: u8, c: u8, d: u8 },
    /// An IPv6 address, eight 16-bit segments.
    V6 { s0: u16, s1: u16, s2: u16, s3: u16, s4: u16, s5: u16, s6: u16, s7: u16 },
}

/// An address counts as local when it is an IPv4 address in one of the
/// private ranges (10/8, 172.16/12, 192.168/16) or in the loopback range
/// (127/8). IPv6 addresses are never counted as local.
pub open spec fn spec_is_local(ip: IpAddress) -> bool {
    match ip {
        IpAddress::V4 { a, b, c: _, d: _ } => {
            ||| a == 10u8
            ||| a == 172u8 && 16u8 <= b && b <= 31u8
            ||| a == 192u8 && b == 168u8
            ||| a == 127u8
        },
        IpAddress::V6 { .. } => false,
    }
}

impl IpAddress {
    /// Whether this address lies in a private or loopback IPv4 range, so
    /// that the connection it came over is taken to be co-located with the
    /// registry host.
    pub fn is_local(&self) -> (r: bool)
        ensures
            r == spec_is_local(*self),
    {
        match *self {
            IpAddress::V4 { a, b, c: _, d: _ } => {
                a == 10 || (a == 172 && 16 <= b && b <= 31) || (a == 192 && b == 168) || a == 127
            },
            IpAddress::V6 { .. } => false,
        }
    }
}

} // verus!
