//! Captured packets, what is read out of them, and what becomes of them.
use vstd::prelude::*;

use crate::ip::IpAddress;
use crate::proxy::rewrite::{ip_header, parse_ip_header_local};
use crate::wire::{be16, be32, be_value, read_be16, read_be32};

verus! {

/// Where a packet was captured: a handle on what the driver said, and the
/// direction.
#[derive(Debug, Clone, Copy, PartialEq, Eq, Structural)]
pub struct CaptureAddress {
    pub id: u64,
    pub outbound: bool,
}

/// A captured packet.
#[derive(Debug, Clone)]
pub struct CapturedPacket {
    pub data: Vec<u8>,
    pub addr: CaptureAddress,
}

/// How extra packets are sent.
#[derive(Debug, Clone, Copy, PartialEq, Eq, Structural)]
pub enum InjectProtocol {
    Tcp,
    Udp,
}

/// Which way extra packets go.
#[derive(Debug, Clone, Copy, PartialEq, Eq, Structural)]
pub enum InjectDirection {
    /// The way of the captured packet.
    PreserveOriginal,
    ForceOutbound,
    ForceInbound,
    /// The way that the addresses of the packet say, which is out.
    DerivedFromPacketTuple,
}

/// What becomes of a captured packet.
#[derive(Debug, Clone)]
pub enum PacketDecision {
    /// It goes on.
    Forward,
    /// Another packet goes on in its place.
    Modify(Vec<u8>),
    /// Extra packets are sent, and it or another packet goes on.
    Desync {
        inject: Vec<Vec<u8>>,
        modified: Option<Vec<u8>>,
        inject_protocol: InjectProtocol,
        /// The time between two extra packets in microseconds.
        inter_delay_us: u32,
        inject_direction: InjectDirection,
        /// Whether it is discarded where nothing goes on in its place.
        drop_original: bool,
    },
    /// It is discarded.
    Drop,
}

/// The address that extra packets are sent with.
pub open spec fn directed(addr: CaptureAddress, direction: InjectDirection) -> CaptureAddress {
    match direction {
        InjectDirection::ForceOutbound | InjectDirection::DerivedFromPacketTuple => CaptureAddress {
            outbound: true,
            ..addr
        },
        InjectDirection::ForceInbound => CaptureAddress { outbound: false, ..addr },
        InjectDirection::PreserveOriginal => addr,
    }
}

/// The address that extra packets are sent with.
pub fn apply_inject_direction(original: &CaptureAddress, direction: InjectDirection) -> (r:
    CaptureAddress)
    ensures
        r == directed(*original, direction),
{
    let mut addr: CaptureAddress = *original;
    match direction {
        InjectDirection::ForceOutbound => {
            addr.outbound = true;
        },
        InjectDirection::ForceInbound => {
            addr.outbound = false;
        },
        InjectDirection::PreserveOriginal => {},
        InjectDirection::DerivedFromPacketTuple => {
            addr.outbound = true;
        },
    }
    addr
}

/// What the classifier read out of a packet.
#[derive(Debug, Clone, Copy, PartialEq, Eq, Structural)]
pub struct ClassifiedPacket {
    pub src_ip: IpAddress,
    pub dst_ip: IpAddress,
    pub src_port: u16,
    pub dst_port: u16,
    /// The IP protocol number.
    pub protocol: u8,
    /// Where the payload starts in the packet.
    pub payload_offset: usize,
    pub payload_len: usize,
}

/// What kind of packet the classifier takes a packet for.
#[derive(Debug, Clone, Copy, PartialEq, Eq, Structural)]
pub enum Classification {
    Tls(ClassifiedPacket),
    Quic(ClassifiedPacket),
    Dns(ClassifiedPacket),
    Http(ClassifiedPacket),
    Other(ClassifiedPacket),
    /// Truncated or unrecognisable.
    Unknown,
}

impl Classification {
    /// What was read out of the packet.
    pub open spec fn parts(self) -> Option<ClassifiedPacket> {
        match self {
            Classification::Tls(cp)
            | Classification::Quic(cp)
            | Classification::Dns(cp)
            | Classification::Http(cp)
            | Classification::Other(cp) => Some(cp),
            Classification::Unknown => None,
        }
    }

    /// What was read out of the packet.
    pub fn packet(&self) -> (r: Option<ClassifiedPacket>)
        ensures
            r == self.parts(),
    {
        match self {
            Classification::Tls(cp) => Some(*cp),
            Classification::Quic(cp) => Some(*cp),
            Classification::Dns(cp) => Some(*cp),
            Classification::Http(cp) => Some(*cp),
            Classification::Other(cp) => Some(*cp),
            Classification::Unknown => None,
        }
    }
}

/// Where the TCP header of a packet starts, if the packet holds a whole one
/// after its IP header.
pub open spec fn tcp_header_at(p: Seq<u8>) -> Option<int> {
    match ip_header(p) {
        Some(h) => if h.header_len >= 20 && p.len() >= h.header_len + 20 {
            Some(h.header_len as int)
        } else {
            None
        },
        None => None,
    }
}

/// Where the TCP header of a packet starts.
pub fn find_tcp_header(packet: &[u8]) -> (r: Option<usize>)
    ensures
        match (r, tcp_header_at(packet@)) {
            (Some(a), Some(b)) => a == b,
            (None, None) => true,
            _ => false,
        },
        r matches Some(at) ==> 20 <= at <= 60 && at + 20 <= packet@.len(),
{
    match parse_ip_header_local(packet) {
        Some(h) => if h.header_len >= 20 && packet.len() >= 20 && packet.len() - 20
            >= h.header_len {
            Some(h.header_len)
        } else {
            None
        },
        None => None,
    }
}

/// The flags of a TCP packet.
pub open spec fn tcp_flags(p: Seq<u8>) -> Option<u8> {
    match tcp_header_at(p) {
        Some(at) => Some(p[at + 13]),
        None => None,
    }
}

/// The sequence number of a TCP packet.
pub open spec fn tcp_sequence(p: Seq<u8>) -> Option<u32> {
    match tcp_header_at(p) {
        Some(at) => Some(be32(p[at + 4], p[at + 5], p[at + 6], p[at + 7]) as u32),
        None => None,
    }
}

/// Reads the flags of a TCP packet.
pub fn read_tcp_flags(packet: &[u8]) -> (r: Option<u8>)
    ensures
        r == tcp_flags(packet@),
{
    match find_tcp_header(packet) {
        Some(at) => Some(packet[at + 13]),
        None => None,
    }
}

/// Reads the sequence number of a TCP packet.
pub fn read_tcp_sequence(packet: &[u8]) -> (r: Option<u32>)
    ensures
        r == tcp_sequence(packet@),
{
    match find_tcp_header(packet) {
        Some(at) => Some(read_be32(packet, at + 4)),
        None => None,
    }
}

/// The flag SYN.
pub open spec fn syn(flags: u8) -> bool {
    (flags / 2) % 2 == 1
}

/// The flag RST.
pub open spec fn rst(flags: u8) -> bool {
    (flags / 4) % 2 == 1
}

/// The flag ACK.
pub open spec fn ack(flags: u8) -> bool {
    (flags / 16) % 2 == 1
}

/// Whether a packet has the flag SYN.
pub open spec fn has_syn(p: Seq<u8>) -> bool {
    match tcp_flags(p) {
        Some(f) => syn(f),
        None => false,
    }
}

/// Whether a packet opens a connection: SYN without ACK.
pub open spec fn opens_connection(p: Seq<u8>) -> bool {
    match tcp_flags(p) {
        Some(f) => syn(f) && !ack(f),
        None => false,
    }
}

/// Whether a packet has the flag SYN.
pub fn is_syn(packet: &[u8]) -> (r: bool)
    ensures
        r == has_syn(packet@),
{
    match read_tcp_flags(packet) {
        Some(f) => (f / 2) % 2 == 1,
        None => false,
    }
}

/// Whether a packet opens a connection.
pub fn is_opening(packet: &[u8]) -> (r: bool)
    ensures
        r == opens_connection(packet@),
{
    match read_tcp_flags(packet) {
        Some(f) => (f / 2) % 2 == 1 && (f / 16) % 2 == 0,
        None => false,
    }
}

/// The time to live of a packet that is long enough for an IPv4 header.
pub open spec fn ttl_of(p: Seq<u8>) -> Option<u8> {
    if p.len() >= 20 {
        Some(p[8])
    } else {
        None
    }
}

/// Reads the time to live of a packet.
pub fn read_ttl(packet: &[u8]) -> (r: Option<u8>)
    ensures
        r == ttl_of(packet@),
{
    if packet.len() >= 20 {
        Some(packet[8])
    } else {
        None
    }
}

/// The IP protocol number of a packet and where its transport header starts.
pub open spec fn transport_of(p: Seq<u8>) -> Option<(u8, int)> {
    match ip_header(p) {
        Some(h) => if h.src is V4 {
            if h.header_len >= 20 {
                Some((p[9], h.header_len as int))
            } else {
                None
            }
        } else {
            Some((p[6], 40))
        },
        None => None,
    }
}

/// The addresses, ports and protocol of a TCP or UDP packet.
pub open spec fn five_tuple(p: Seq<u8>) -> Option<(IpAddress, IpAddress, u16, u16, u8)> {
    match transport_of(p) {
        Some((protocol, at)) => if (protocol == 6 && p.len() >= at + 20) || (protocol == 17
            && p.len() >= at + 8) {
            Some(
                (
                    ip_header(p)->0.src,
                    ip_header(p)->0.dst,
                    be16(p[at], p[at + 1]) as u16,
                    be16(p[at + 2], p[at + 3]) as u16,
                    protocol,
                ),
            )
        } else {
            None
        },
        None => None,
    }
}

/// Reads the addresses, ports and protocol of a TCP or UDP packet.
pub fn read_five_tuple(packet: &[u8]) -> (r: Option<(IpAddress, IpAddress, u16, u16, u8)>)
    ensures
        r == five_tuple(packet@),
{
    match parse_ip_header_local(packet) {
        Some(h) => {
            let protocol: u8 = if h.src.is_v4() {
                if h.header_len < 20 {
                    return None;
                }
                packet[9]
            } else {
                packet[6]
            };
            let at: usize = h.header_len;
            if (protocol == 6 && packet.len() >= 20 && packet.len() - 20 >= at) || (protocol == 17
                && packet.len() >= 8 && packet.len() - 8 >= at) {
                Some((h.src, h.dst, read_be16(packet, at), read_be16(packet, at + 2), protocol))
            } else {
                None
            }
        },
        None => None,
    }
}

/// The flags are read from their own bits: SYN is the second lowest, RST the
/// third, ACK the fifth, and no other bit plays a part.
pub proof fn flags_are_single_bits(flags: u8)
    ensures
        syn(flags) <==> flags & 2 != 0,
        rst(flags) <==> flags & 4 != 0,
        ack(flags) <==> flags & 16 != 0,
{
    assert((flags / 2) % 2 == 1 <==> flags & 2 != 0) by (bit_vector);
    assert((flags / 4) % 2 == 1 <==> flags & 4 != 0) by (bit_vector);
    assert((flags / 16) % 2 == 1 <==> flags & 16 != 0) by (bit_vector);
}

/// What is read out of the TCP header of an IPv4 or IPv6 packet: the flags are
/// its fourteenth byte, the sequence number its second four. A packet opens a
/// connection where SYN is set and ACK is not.
pub proof fn tcp_fields_are_read_in_place(p: Seq<u8>)
    ensures
        ({
            let v4 = p.len() >= 20 && p[0] / 16 == 4;
            let v6 = p.len() >= 40 && p[0] / 16 == 6;
            let off: int = if v4 {
                (p[0] % 16) * 4
            } else {
                40
            };
            let whole = (v4 || v6) && off >= 20 && p.len() >= off + 20;
            &&& tcp_flags(p) is Some <==> whole
            &&& tcp_sequence(p) is Some <==> whole
            &&& whole ==> {
                &&& tcp_flags(p) == Some(p[off + 13])
                &&& tcp_sequence(p)->0 == p[off + 4] * 0x100_0000 + p[off + 5] * 0x1_0000 + p[off + 6]
                    * 0x100 + p[off + 7]
                &&& has_syn(p) <==> p[off + 13] & 2 != 0
                &&& opens_connection(p) <==> p[off + 13] & 2 != 0 && p[off + 13] & 16 == 0
            }
            &&& !whole ==> !has_syn(p) && !opens_connection(p)
        }),
{
    if let Some(f) = tcp_flags(p) {
        flags_are_single_bits(f);
    }
}

/// What tells connections apart is read in place: the protocol from the IP
/// header, the ports from the first four bytes behind it. Only whole TCP and UDP
/// headers are read.
pub proof fn five_tuples_are_read_in_place(p: Seq<u8>)
    requires
        five_tuple(p) is Some,
    ensures
        ({
            let (src, dst, sport, dport, protocol) = five_tuple(p)->0;
            let off: int = if p[0] / 16 == 4 {
                (p[0] % 16) * 4
            } else {
                40
            };
            &&& p[0] / 16 == 4 || p[0] / 16 == 6
            &&& protocol == (if p[0] / 16 == 4 {
                p[9]
            } else {
                p[6]
            })
            &&& protocol == 6 || protocol == 17
            &&& sport == p[off] * 256 + p[off + 1]
            &&& dport == p[off + 2] * 256 + p[off + 3]
            &&& p[0] / 16 == 4 ==> src is V4 && dst is V4 && src->V4_0 == p[12] * 0x100_0000 + p[13]
                * 0x1_0000 + p[14] * 0x100 + p[15] && dst->V4_0 == p[16] * 0x100_0000 + p[17]
                * 0x1_0000 + p[18] * 0x100 + p[19]
            &&& p[0] / 16 == 6 ==> src is V6 && dst is V6 && src->V6_0 == be_value(
                p.subrange(8, 24),
            ) && dst->V6_0 == be_value(p.subrange(24, 40))
            &&& p.len() >= off + (if protocol == 6 {
                20int
            } else {
                8int
            })
        }),
{
    vstd::arithmetic::power2::lemma2_to64();
    vstd::arithmetic::power2::lemma_pow2_adds(64, 64);
    if p[0] / 16 == 4 {
        crate::wire::lemma_be_digits_of_value(p.subrange(12, 16));
        crate::wire::lemma_be_digits_of_value(p.subrange(16, 20));
        crate::proxy::rewrite::lemma_four_bytes(p.subrange(12, 16));
        crate::proxy::rewrite::lemma_four_bytes(p.subrange(16, 20));
    } else {
        crate::wire::lemma_be_digits_of_value(p.subrange(8, 24));
        crate::wire::lemma_be_digits_of_value(p.subrange(24, 40));
    }
}

/// Extra packets are sent outwards or inwards where that is said, outwards where
/// it is taken from the packet, and the way of the packet where it is kept; only
/// the direction changes.
pub proof fn directions_are_obeyed(addr: CaptureAddress, direction: InjectDirection)
    ensures
        directed(addr, direction).id == addr.id,
        direction is ForceOutbound || direction is DerivedFromPacketTuple ==> directed(
            addr,
            direction,
        ).outbound,
        direction is ForceInbound ==> !directed(addr, direction).outbound,
        direction is PreserveOriginal ==> directed(addr, direction).outbound == addr.outbound,
{
}

/// Which packets have addresses and ports to read: TCP and UDP over IPv4 with a
/// proper header, or over IPv6, that hold the whole header of their protocol.
pub proof fn whole_packets_have_ends(p: Seq<u8>)
    ensures
        ({
            let v4 = p.len() >= 20 && p[0] / 16 == 4;
            let v6 = p.len() >= 40 && p[0] / 16 == 6;
            let off: int = if v4 {
                (p[0] % 16) * 4
            } else {
                40
            };
            let protocol = if v4 {
                p[9]
            } else {
                p[6]
            };
            five_tuple(p) is Some <==> {
                &&& v4 || v6
                &&& off >= 20
                &&& (protocol == 6 && p.len() >= off + 20) || (protocol == 17 && p.len() >= off + 8)
            }
        }),
        ttl_of(p) is Some <==> p.len() >= 20,
        p.len() >= 20 ==> ttl_of(p) == Some(p[8]),
{
}

} // verus!
