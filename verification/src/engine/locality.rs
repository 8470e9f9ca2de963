//! Which addresses count as local, and what a QUIC Initial packet looks like.
use vstd::prelude::*;

use crate::ip::{v4_octet0, v4_octet1, IpAddress};
use crate::packet_invariants::{has_initial_header, initial_header};

verus! {

/// Whether an IPv4 address belongs to this host or to a private range:
/// 127/8, 10/8, 172.16/12, 192.168/16, 100.64/10.
pub open spec fn private_v4(a: u32) -> bool {
    ||| v4_octet0(a) == 127
    ||| v4_octet0(a) == 10
    ||| v4_octet0(a) == 172 && 16 <= v4_octet1(a) <= 31
    ||| v4_octet0(a) == 192 && v4_octet1(a) == 168
    ||| v4_octet0(a) == 100 && 64 <= v4_octet1(a) <= 127
}

/// The first sixteen bits of an IPv6 address.
pub open spec fn first_segment(a: u128) -> u128 {
    a / 0x1_0000_0000_0000_0000_0000_0000_0000
}

/// Whether an IPv6 address is ::1, ::, unique local (fc00::/7) or link local
/// (fe80::/10).
pub open spec fn private_v6(a: u128) -> bool {
    ||| a == 1
    ||| a == 0
    ||| 0xfc00 <= first_segment(a) < 0xfe00
    ||| 0xfe80 <= first_segment(a) < 0xfec0
}

/// Whether traffic from an address leaves this host: the address is one of
/// the host's own or lies in a private range.
pub open spec fn outbound_from(local: Seq<IpAddress>, src: IpAddress) -> bool {
    local.contains(src) || match src {
        IpAddress::V4(a) => private_v4(a),
        IpAddress::V6(a) => private_v6(a),
    }
}

/// Whether an address is in a list.
pub fn lists_address(list: &Vec<IpAddress>, ip: IpAddress) -> (r: bool)
    ensures
        r == list@.contains(ip),
{
    let mut i: usize = 0;
    while i < list.len()
        invariant
            i <= list@.len(),
            forall|j: int| 0 <= j < i ==> list@[j] != ip,
        decreases list@.len() - i,
    {
        if list[i] == ip {
            assert(list@[i as int] == ip);
            return true;
        }
        i = i + 1;
    }
    false
}

/// Whether traffic from an address leaves this host. `local` holds the
/// addresses of the host's interfaces.
pub fn is_outbound_cached(local: &Vec<IpAddress>, src_ip: IpAddress) -> (r: bool)
    ensures
        r == outbound_from(local@, src_ip),
{
    if lists_address(local, src_ip) {
        return true;
    }
    match src_ip {
        IpAddress::V4(a) => {
            let o0: u32 = a / 0x100_0000;
            let o1: u32 = (a / 0x1_0000) % 256;
            o0 == 127 || o0 == 10 || (o0 == 172 && o1 >= 16 && o1 <= 31) || (o0 == 192 && o1 == 168)
                || (o0 == 100 && o1 >= 64 && o1 <= 127)
        },
        IpAddress::V6(a) => {
            let seg: u128 = a / 0x1_0000_0000_0000_0000_0000_0000_0000;
            a == 1 || a == 0 || (0xfc00 <= seg && seg < 0xfe00) || (0xfe80 <= seg && seg < 0xfec0)
        },
    }
}

/// Whether a UDP payload of five bytes or more starts like a QUIC Initial
/// packet.
pub fn is_quic_initial_check(payload: &[u8]) -> (r: bool)
    ensures
        r == (payload@.len() >= 5 && initial_header(payload@)),
{
    payload.len() >= 5 && has_initial_header(payload)
}

/// Every address of the 10/8 range, from which stand-in addresses for domains
/// are taken, counts as local.
pub proof fn stand_in_addresses_are_local(local: Seq<IpAddress>, a: u32)
    requires
        v4_octet0(a) == 10,
    ensures
        outbound_from(local, IpAddress::V4(a)),
{
}

/// An IPv4 address counts as one of this side exactly where it lies in
/// 127.0.0.0/8, 10.0.0.0/8, 172.16.0.0/12, 192.168.0.0/16 or 100.64.0.0/10, or
/// is an address of the host.
pub proof fn local_v4_addresses_are_ranges(local: Seq<IpAddress>, a: u32)
    ensures
        outbound_from(local, IpAddress::V4(a)) <==> {
            ||| local.contains(IpAddress::V4(a))
            ||| 0x7f00_0000 <= a <= 0x7fff_ffff
            ||| 0x0a00_0000 <= a <= 0x0aff_ffff
            ||| 0xac10_0000 <= a <= 0xac1f_ffff
            ||| 0xc0a8_0000 <= a <= 0xc0a8_ffff
            ||| 0x6440_0000 <= a <= 0x647f_ffff
        },
{
}

/// An IPv6 address counts as one of this side exactly where it is ::1 or ::,
/// lies in fc00::/7 or fe80::/10, or is an address of the host.
pub proof fn local_v6_addresses_are_ranges(local: Seq<IpAddress>, a: u128)
    ensures
        outbound_from(local, IpAddress::V6(a)) <==> {
            ||| local.contains(IpAddress::V6(a))
            ||| a <= 1
            ||| 0xfc00_0000_0000_0000_0000_0000_0000_0000 <= a < 0xfe00_0000_0000_0000_0000_0000_0000_0000
            ||| 0xfe80_0000_0000_0000_0000_0000_0000_0000 <= a < 0xfec0_0000_0000_0000_0000_0000_0000_0000
        },
{
}

} // verus!
