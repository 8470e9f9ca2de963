//! Rewriting the addresses of a TCP packet, with its checksums.
use vstd::prelude::*;

use pnet_packet::ipv4::Ipv4Packet;
use pnet_packet::tcp::TcpPacket;
use pnet_packet::udp::UdpPacket;

use crate::checksum::{fold, internet_checksum, verifies, word_sum};
use crate::ip::{be_number, IpAddress};
use crate::packet_invariants::ihl;
use crate::wire::{be16_bytes, be_digits, be_value, copy_range, overwrite, push_be16, written_at};

verus! {

/// Why a packet could not be rewritten.
#[derive(Debug, Clone, Copy, PartialEq, Eq, Structural)]
pub enum RewriteError {
    /// The packet has no IP header that can be read.
    InvalidIpHeader,
    /// The IPv4 header gives itself a length under twenty bytes.
    BadIpv4Slice,
    /// The packet and the new address are of different IP versions.
    VersionMismatch(End),
    /// No TCP header follows the IP header.
    InvalidTcpHeader,
}

impl RewriteError {
    /// The error in words.
    pub open spec fn message_spec(self) -> Seq<char> {
        match self {
            RewriteError::InvalidIpHeader => "invalid ip header"@,
            RewriteError::BadIpv4Slice => "bad ipv4 slice"@,
            RewriteError::VersionMismatch(
                End::Destination,
            ) => "ip version mismatch between packet and new_dst_ip"@,
            RewriteError::VersionMismatch(
                End::Source,
            ) => "ip version mismatch between packet and new_src_ip"@,
            RewriteError::InvalidTcpHeader => "invalid tcp header"@,
        }
    }

    /// The error in words.
    pub fn message(&self) -> (r: &'static str)
        ensures
            r@ == self.message_spec(),
    {
        match self {
            RewriteError::InvalidIpHeader => "invalid ip header",
            RewriteError::BadIpv4Slice => "bad ipv4 slice",
            RewriteError::VersionMismatch(
                End::Destination,
            ) => "ip version mismatch between packet and new_dst_ip",
            RewriteError::VersionMismatch(
                End::Source,
            ) => "ip version mismatch between packet and new_src_ip",
            RewriteError::InvalidTcpHeader => "invalid tcp header",
        }
    }
}

/// Which end of a connection is rewritten.
#[derive(Debug, Clone, Copy, PartialEq, Eq, Structural)]
pub enum End {
    Source,
    Destination,
}

/// The addresses and the length of an IP header.
#[derive(Debug, Clone, Copy, PartialEq, Eq, Structural)]
pub struct ParsedIpHeader {
    pub src: IpAddress,
    pub dst: IpAddress,
    pub header_len: usize,
}

/// The IP header that a packet starts with.
pub open spec fn ip_header(p: Seq<u8>) -> Option<ParsedIpHeader> {
    if p.len() >= 20 && p[0] / 16 == 4 {
        Some(
            ParsedIpHeader {
                src: IpAddress::V4(be_value(p.subrange(12, 16)) as u32),
                dst: IpAddress::V4(be_value(p.subrange(16, 20)) as u32),
                header_len: ihl(p) as usize,
            },
        )
    } else if p.len() >= 40 && p[0] / 16 == 6 {
        Some(
            ParsedIpHeader {
                src: IpAddress::V6(be_value(p.subrange(8, 24)) as u128),
                dst: IpAddress::V6(be_value(p.subrange(24, 40)) as u128),
                header_len: 40,
            },
        )
    } else {
        None
    }
}

/// The checksum of a transport segment under the pseudo-header of its
/// addresses; the word at byte `at` counts as zero.
pub open spec fn transport_checksum(
    src: IpAddress,
    dst: IpAddress,
    protocol: nat,
    segment: Seq<u8>,
    at: int,
) -> u16 {
    (65535 - fold(pseudo_sum(src, dst, protocol, segment.len()) + word_sum(
        written_at(segment, at, seq![0u8, 0u8]),
    ))) as u16
}

/// The word sum of a pseudo-header.
pub open spec fn pseudo_sum(src: IpAddress, dst: IpAddress, protocol: nat, len: nat) -> nat {
    word_sum(src.octets_spec()) + word_sum(dst.octets_spec()) + protocol + len
}

/// Where the rewritten address starts in the IP header.
pub open spec fn address_offset(p: Seq<u8>, end: End) -> int {
    if p[0] / 16 == 4 {
        if end == End::Source {
            12
        } else {
            16
        }
    } else {
        if end == End::Source {
            8
        } else {
            24
        }
    }
}

/// Where the rewritten port starts in the TCP header.
pub open spec fn port_offset(end: End) -> int {
    if end == End::Source {
        0
    } else {
        2
    }
}

/// A packet with one address replaced, and for IPv4 the header checksum
/// brought up to date.
pub open spec fn with_address(p: Seq<u8>, end: End, ip: IpAddress) -> Seq<u8> {
    let q = written_at(p, address_offset(p, end), ip.octets_spec());
    if p[0] / 16 == 4 {
        let zeroed = written_at(q.subrange(0, ihl(p)), 10, seq![0u8, 0u8]);
        written_at(q, 10, be16_bytes(internet_checksum(zeroed)))
    } else {
        q
    }
}

/// A packet with the address and the port of one end replaced and both
/// checksums brought up to date.
pub open spec fn rewritten(p: Seq<u8>, end: End, ip: IpAddress, port: u16) -> Seq<u8> {
    let h = ip_header(p)->0;
    let off = h.header_len as int;
    let q = written_at(with_address(p, end, ip), off + port_offset(end), be16_bytes(port));
    let src = if end == End::Source {
        ip
    } else {
        h.src
    };
    let dst = if end == End::Source {
        h.dst
    } else {
        ip
    };
    let csum = transport_checksum(src, dst, 6, q.subrange(off, q.len() as int), 16);
    written_at(q, off + 16, be16_bytes(csum))
}

/// What rewriting one end of a packet gives.
pub open spec fn rewrite_outcome(p: Seq<u8>, end: End, ip: IpAddress, port: u16) -> Result<
    Seq<u8>,
    RewriteError,
> {
    match ip_header(p) {
        None => Err(RewriteError::InvalidIpHeader),
        Some(h) => if (h.src is V4) != (ip is V4) {
            Err(RewriteError::VersionMismatch(end))
        } else if h.header_len < 20 {
            Err(RewriteError::BadIpv4Slice)
        } else if p.len() < h.header_len + 20 {
            Err(RewriteError::InvalidTcpHeader)
        } else {
            Ok(rewritten(p, end, ip, port))
        },
    }
}

/// The packets that can be rewritten or refused: an IPv4 header has to lie
/// inside the packet, and the packet has to be short enough for a 32-bit
/// running sum.
pub open spec fn rewritable(p: Seq<u8>, ip: IpAddress) -> bool {
    &&& p.len() <= 131_000
    &&& ip_header(p) is Some && ip_header(p)->0.src is V4 && ip is V4 ==> ihl(p) <= p.len()
}

/// `pnet_packet::ipv4::checksum`, on the packet view of `header`: the Internet
/// checksum of the header, with the checksum word counted as zero.
#[verifier::external_body]
fn pnet_ipv4_checksum(header: &[u8]) -> (r: u16)
    requires
        header@.len() >= 20,
        header@.len() == ihl(header@),
    ensures
        r == internet_checksum(written_at(header@, 10, seq![0u8, 0u8])),
{
    pnet_packet::ipv4::checksum(&Ipv4Packet::new(header).unwrap())
}

/// `pnet_packet::tcp::ipv4_checksum`, on the packet view of `segment`: the
/// checksum under the IPv4 pseudo-header, with the checksum word counted as
/// zero.
#[verifier::external_body]
fn pnet_tcp_checksum_v4(segment: &[u8], src: u32, dst: u32) -> (r: u16)
    requires
        20 <= segment@.len() <= 131_000,
    ensures
        r == transport_checksum(IpAddress::V4(src), IpAddress::V4(dst), 6, segment@, 16),
{
    let packet = TcpPacket::new(segment).unwrap();
    pnet_packet::tcp::ipv4_checksum(&packet, &src.into(), &dst.into())
}

/// `pnet_packet::tcp::ipv6_checksum`, on the packet view of `segment`: the
/// checksum under the IPv6 pseudo-header, with the checksum word counted as
/// zero.
#[verifier::external_body]
fn pnet_tcp_checksum_v6(segment: &[u8], src: u128, dst: u128) -> (r: u16)
    requires
        20 <= segment@.len() <= 131_000,
    ensures
        r == transport_checksum(IpAddress::V6(src), IpAddress::V6(dst), 6, segment@, 16),
{
    let packet = TcpPacket::new(segment).unwrap();
    pnet_packet::tcp::ipv6_checksum(&packet, &src.into(), &dst.into())
}

/// `pnet_packet::udp::ipv4_checksum`, on the packet view of `datagram`: the
/// checksum under the IPv4 pseudo-header, with the checksum word counted as
/// zero.
#[verifier::external_body]
fn pnet_udp_checksum_v4(datagram: &[u8], src: u32, dst: u32) -> (r: u16)
    requires
        8 <= datagram@.len() <= 131_000,
    ensures
        r == transport_checksum(IpAddress::V4(src), IpAddress::V4(dst), 17, datagram@, 6),
{
    let packet = UdpPacket::new(datagram).unwrap();
    pnet_packet::udp::ipv4_checksum(&packet, &src.into(), &dst.into())
}

/// `pnet_packet::udp::ipv6_checksum`, on the packet view of `datagram`: the
/// checksum under the IPv6 pseudo-header, with the checksum word counted as
/// zero.
#[verifier::external_body]
fn pnet_udp_checksum_v6(datagram: &[u8], src: u128, dst: u128) -> (r: u16)
    requires
        8 <= datagram@.len() <= 131_000,
    ensures
        r == transport_checksum(IpAddress::V6(src), IpAddress::V6(dst), 17, datagram@, 6),
{
    let packet = UdpPacket::new(datagram).unwrap();
    pnet_packet::udp::ipv6_checksum(&packet, &src.into(), &dst.into())
}

/// Reads the IP header that a packet starts with.
pub fn parse_ip_header_local(buf: &[u8]) -> (r: Option<ParsedIpHeader>)
    ensures
        r == ip_header(buf@),
{
    proof {
        vstd::arithmetic::power2::lemma2_to64();
    }
    if buf.len() == 0 {
        return None;
    }
    let version: u8 = buf[0] / 16;
    if version == 4 && buf.len() >= 20 {
        Some(
            ParsedIpHeader {
                src: IpAddress::V4(be_number(buf, 12, 16) as u32),
                dst: IpAddress::V4(be_number(buf, 16, 20) as u32),
                header_len: (buf[0] % 16) as usize * 4,
            },
        )
    } else if version == 6 && buf.len() >= 40 {
        Some(
            ParsedIpHeader {
                src: IpAddress::V6(be_number(buf, 8, 24)),
                dst: IpAddress::V6(be_number(buf, 24, 40)),
                header_len: 40,
            },
        )
    } else {
        None
    }
}

fn tcp_checksum(segment: &[u8], src: IpAddress, dst: IpAddress) -> (r: u16)
    requires
        20 <= segment@.len() <= 131_000,
        src is V4 == dst is V4,
    ensures
        r == transport_checksum(src, dst, 6, segment@, 16),
{
    match (src, dst) {
        (IpAddress::V4(s), IpAddress::V4(d)) => pnet_tcp_checksum_v4(segment, s, d),
        (IpAddress::V6(s), IpAddress::V6(d)) => pnet_tcp_checksum_v6(segment, s, d),
        _ => 0,
    }
}

fn write_be16(data: &mut Vec<u8>, at: usize, x: u16)
    requires
        at + 2 <= old(data)@.len(),
    ensures
        final(data)@ == written_at(old(data)@, at as int, be16_bytes(x)),
{
    let mut bytes: Vec<u8> = Vec::new();
    push_be16(&mut bytes, x);
    assert(bytes@ =~= be16_bytes(x));
    overwrite(data, at, bytes.as_slice());
}

/// Rewrites the address and the port of one end.
fn rewrite_end(packet_data: &[u8], end: End, ip: IpAddress, port: u16) -> (r: Result<
    Vec<u8>,
    RewriteError,
>)
    requires
        rewritable(packet_data@, ip),
    ensures
        (match r {
            Ok(v) => Ok(v@),
            Err(e) => Err(e),
        }) == rewrite_outcome(packet_data@, end, ip, port),
{
    let h: ParsedIpHeader = match parse_ip_header_local(packet_data) {
        Some(h) => h,
        None => {
            return Err(RewriteError::InvalidIpHeader);
        },
    };
    let is_v4: bool = h.src.is_v4();
    if is_v4 != ip.is_v4() {
        return Err(RewriteError::VersionMismatch(end));
    }
    if h.header_len < 20 {
        return Err(RewriteError::BadIpv4Slice);
    }
    if packet_data.len() < h.header_len + 20 {
        return Err(RewriteError::InvalidTcpHeader);
    }
    let ghost p: Seq<u8> = packet_data@;
    let mut buf: Vec<u8> = copy_range(packet_data, 0, packet_data.len());
    assert(buf@ =~= p);
    let octets: Vec<u8> = ip.octets();
    let at: usize = match (is_v4, end) {
        (true, End::Source) => 12,
        (true, End::Destination) => 16,
        (false, End::Source) => 8,
        (false, End::Destination) => 24,
    };
    overwrite(&mut buf, at, octets.as_slice());
    if is_v4 {
        let header: Vec<u8> = copy_range(buf.as_slice(), 0, h.header_len);
        assert(header@[0] == p[0]);
        let csum: u16 = pnet_ipv4_checksum(header.as_slice());
        write_be16(&mut buf, 10, csum);
    }
    assert(buf@ == with_address(p, end, ip));
    let port_at: usize = match end {
        End::Source => 0,
        End::Destination => 2,
    };
    write_be16(&mut buf, h.header_len + port_at, port);
    let segment: Vec<u8> = copy_range(buf.as_slice(), h.header_len, buf.len());
    let csum: u16 = match end {
        End::Source => tcp_checksum(segment.as_slice(), ip, h.dst),
        End::Destination => tcp_checksum(segment.as_slice(), h.src, ip),
    };
    write_be16(&mut buf, h.header_len + 16, csum);
    Ok(buf)
}

/// Rewrites the destination address and port of a TCP packet and recomputes
/// the IP and TCP checksums.
pub fn rewrite_dst_addr(packet_data: &[u8], new_dst_ip: IpAddress, new_dst_port: u16) -> (r: Result<
    Vec<u8>,
    RewriteError,
>)
    requires
        rewritable(packet_data@, new_dst_ip),
    ensures
        (match r {
            Ok(v) => Ok(v@),
            Err(e) => Err(e),
        }) == rewrite_outcome(packet_data@, End::Destination, new_dst_ip, new_dst_port),
{
    rewrite_end(packet_data, End::Destination, new_dst_ip, new_dst_port)
}

/// Rewrites the source address and port of a TCP packet and recomputes the IP
/// and TCP checksums.
pub fn rewrite_src_addr(packet_data: &[u8], new_src_ip: IpAddress, new_src_port: u16) -> (r: Result<
    Vec<u8>,
    RewriteError,
>)
    requires
        rewritable(packet_data@, new_src_ip),
    ensures
        (match r {
            Ok(v) => Ok(v@),
            Err(e) => Err(e),
        }) == rewrite_outcome(packet_data@, End::Source, new_src_ip, new_src_port),
{
    rewrite_end(packet_data, End::Source, new_src_ip, new_src_port)
}

/// The UDP checksum of a datagram under its pseudo-header; zero where the two
/// addresses are of different IP versions.
pub fn udp_checksum(src: IpAddress, dst: IpAddress, udp_packet: &[u8]) -> (r: u16)
    requires
        src is V4 == dst is V4 ==> 8 <= udp_packet@.len() <= 131_000,
    ensures
        src is V4 == dst is V4 ==> r == transport_checksum(src, dst, 17, udp_packet@, 6),
        src is V4 != dst is V4 ==> r == 0,
{
    match (src, dst) {
        (IpAddress::V4(s), IpAddress::V4(d)) => pnet_udp_checksum_v4(udp_packet, s, d),
        (IpAddress::V6(s), IpAddress::V6(d)) => pnet_udp_checksum_v6(udp_packet, s, d),
        _ => 0,
    }
}

/// Rewriting keeps the length of a packet, and changes only the address, the
/// port and the two checksums.
pub proof fn rewrite_touches_only_its_fields(p: Seq<u8>, end: End, ip: IpAddress, port: u16, i: int)
    requires
        rewritable(p, ip),
        rewrite_outcome(p, end, ip, port) is Ok,
        0 <= i < p.len(),
        ({
            let off = ip_header(p)->0.header_len as int;
            let a = address_offset(p, end);
            &&& !(a <= i < a + ip.octets_spec().len())
            &&& !(p[0] / 16 == 4 && 10 <= i < 12)
            &&& !(off + port_offset(end) <= i < off + port_offset(end) + 2)
            &&& !(off + 16 <= i < off + 18)
        }),
    ensures
        rewritten(p, end, ip, port).len() == p.len(),
        rewritten(p, end, ip, port)[i] == p[i],
{
}

/// The IPv4 header of a rewritten packet verifies.
pub proof fn rewritten_header_verifies(p: Seq<u8>, end: End, ip: IpAddress, port: u16)
    requires
        rewritable(p, ip),
        rewrite_outcome(p, end, ip, port) is Ok,
        ip is V4,
    ensures
        verifies(rewritten(p, end, ip, port).subrange(0, ihl(p))),
{
    crate::wire::lemma_be_digits_len(ip->V4_0 as nat, 4);
    let q = written_at(p, address_offset(p, end), ip.octets_spec());
    let zeroed = written_at(q.subrange(0, ihl(p)), 10, seq![0u8, 0u8]);
    let filled = written_at(zeroed, 10, be16_bytes(internet_checksum(zeroed)));
    assert(rewritten(p, end, ip, port).subrange(0, ihl(p)) =~= filled);
    crate::checksum::checksum_makes_header_verify(zeroed, 10, filled);
}

/// A segment that carries, in its checksum word, its own checksum, folds to
/// 65535 together with its pseudo-header.
proof fn lemma_segment_verifies(
    src: IpAddress,
    dst: IpAddress,
    protocol: nat,
    segment: Seq<u8>,
    at: int,
)
    requires
        0 <= at,
        at % 2 == 0,
        at + 2 <= segment.len(),
    ensures
        ({
            let csum = transport_checksum(src, dst, protocol, segment, at);
            fold(pseudo_sum(src, dst, protocol, segment.len()) + word_sum(
                written_at(segment, at, be16_bytes(csum)),
            )) == 65535
        }),
{
    let csum = transport_checksum(src, dst, protocol, segment, at);
    let zeroed = written_at(segment, at, seq![0u8, 0u8]);
    let filled = written_at(segment, at, be16_bytes(csum));
    let base = pseudo_sum(src, dst, protocol, segment.len());
    crate::checksum::lemma_fill_word(zeroed, at, csum);
    assert(filled =~= written_at(zeroed, at, be16_bytes(csum)));
    crate::checksum::lemma_fold_complement(base + word_sum(zeroed));
}

/// The TCP checksum of a rewritten packet verifies under the pseudo-header of
/// the rewritten packet's own addresses.
pub proof fn rewritten_segment_verifies(p: Seq<u8>, end: End, ip: IpAddress, port: u16)
    requires
        rewritable(p, ip),
        rewrite_outcome(p, end, ip, port) is Ok,
    ensures
        ({
            let q = rewritten(p, end, ip, port);
            let h = ip_header(q)->0;
            let segment = q.subrange(h.header_len as int, q.len() as int);
            &&& ip_header(q) is Some
            &&& h.header_len == ip_header(p)->0.header_len
            &&& (end == End::Destination ==> h.dst == ip && h.src == ip_header(p)->0.src)
            &&& (end == End::Source ==> h.src == ip && h.dst == ip_header(p)->0.dst)
            &&& fold(pseudo_sum(h.src, h.dst, 6, segment.len()) + word_sum(segment)) == 65535
        }),
{
    let q = rewritten(p, end, ip, port);
    let h0 = ip_header(p)->0;
    let off = h0.header_len as int;
    lemma_address_read_back(p, end, ip, port);
    let h = ip_header(q)->0;
    let body = written_at(with_address(p, end, ip), off + port_offset(end), be16_bytes(port));
    let segment0 = body.subrange(off, body.len() as int);
    lemma_segment_verifies(h.src, h.dst, 6, segment0, 16);
    let csum = transport_checksum(h.src, h.dst, 6, segment0, 16);
    assert(q.subrange(off, q.len() as int) =~= written_at(segment0, 16, be16_bytes(csum)));
}

proof fn lemma_address_read_back(p: Seq<u8>, end: End, ip: IpAddress, port: u16)
    requires
        rewritable(p, ip),
        rewrite_outcome(p, end, ip, port) is Ok,
    ensures
        ({
            let q = rewritten(p, end, ip, port);
            let h = ip_header(q)->0;
            &&& ip_header(q) is Some
            &&& h.header_len == ip_header(p)->0.header_len
            &&& (end == End::Destination ==> h.dst == ip && h.src == ip_header(p)->0.src)
            &&& (end == End::Source ==> h.src == ip && h.dst == ip_header(p)->0.dst)
        }),
{
    vstd::arithmetic::power2::lemma2_to64();
    vstd::arithmetic::power2::lemma_pow2_adds(64, 64);
    let q = rewritten(p, end, ip, port);
    match ip {
        IpAddress::V4(a) => {
            crate::wire::lemma_be_digits_len(a as nat, 4);
            crate::wire::lemma_be_value_of_digits(a as nat, 4);
            if end == End::Source {
                assert(q.subrange(12, 16) =~= be_digits(a as nat, 4));
                assert(q.subrange(16, 20) =~= p.subrange(16, 20));
            } else {
                assert(q.subrange(16, 20) =~= be_digits(a as nat, 4));
                assert(q.subrange(12, 16) =~= p.subrange(12, 16));
            }
        },
        IpAddress::V6(a) => {
            crate::wire::lemma_be_digits_len(a as nat, 16);
            crate::wire::lemma_be_value_of_digits(a as nat, 16);
            if end == End::Source {
                assert(q.subrange(8, 24) =~= be_digits(a as nat, 16));
                assert(q.subrange(24, 40) =~= p.subrange(24, 40));
            } else {
                assert(q.subrange(24, 40) =~= be_digits(a as nat, 16));
                assert(q.subrange(8, 24) =~= p.subrange(8, 24));
            }
        },
    }
}

/// The ends of a rewritten packet are read back from its bytes: the end that
/// was rewritten has the new port and the new address, the other end has the
/// port and the address that it had, and the rest of the packet, but for the
/// checksums, is as it was.
pub proof fn rewritten_ends_are_read_back(
    p: Seq<u8>,
    end: End,
    ip: IpAddress,
    port: u16,
    q: Seq<u8>,
)
    requires
        rewrite_outcome(p, end, ip, port) == Ok::<Seq<u8>, RewriteError>(q),
    ensures
        q.len() == p.len(),
        ({
            let off: int = if p[0] / 16 == 4 {
                (p[0] % 16) * 4
            } else {
                40
            };
            &&& end == End::Source ==> q[off] * 256 + q[off + 1] == port && q[off + 2] == p[off + 2]
                && q[off + 3] == p[off + 3]
            &&& end == End::Destination ==> q[off + 2] * 256 + q[off + 3] == port && q[off]
                == p[off] && q[off + 1] == p[off + 1]
            &&& forall|i: int|
                off + 4 <= i < p.len() && i != off + 16 && i != off + 17 ==> #[trigger] q[i] == p[i]
            &&& forall|i: int|
                0 <= i < off && (p[0] / 16 == 4 ==> i < 10 || i >= 20) && (p[0] / 16 != 4 ==> i < 8)
                    ==> #[trigger] q[i] == p[i]
        }),
        ip matches IpAddress::V4(a) ==> ({
            let at: int = if end == End::Source {
                12
            } else {
                16
            };
            let other: int = 28 - at;
            &&& p[0] / 16 == 4
            &&& q[at] * 0x100_0000 + q[at + 1] * 0x1_0000 + q[at + 2] * 0x100 + q[at + 3] == a
            &&& q.subrange(other, other + 4) == p.subrange(other, other + 4)
        }),
        ip matches IpAddress::V6(a) ==> ({
            let at: int = if end == End::Source {
                8
            } else {
                24
            };
            let other: int = 32 - at;
            &&& p[0] / 16 == 6
            &&& be_value(q.subrange(at, at + 16)) == a
            &&& q.subrange(other, other + 16) == p.subrange(other, other + 16)
        }),
{
    vstd::arithmetic::power2::lemma2_to64();
    vstd::arithmetic::power2::lemma_pow2_adds(64, 64);
    let h = ip_header(p)->0;
    let off = h.header_len as int;
    let written = written_at(with_address(p, end, ip), off + port_offset(end), be16_bytes(port));
    assert(port as int == be16_bytes(port)[0] * 256 + be16_bytes(port)[1]);
    match ip {
        IpAddress::V4(a) => {
            let at: int = if end == End::Source {
                12
            } else {
                16
            };
            let digits = be_digits(a as nat, 4);
            crate::wire::lemma_be_digits_len(a as nat, 4);
            crate::wire::lemma_be_value_of_digits(a as nat, 4);
            assert(q.subrange(at, at + 4) =~= digits);
            lemma_four_bytes(digits);
            assert(q[at] == digits[0] && q[at + 1] == digits[1] && q[at + 2] == digits[2] && q[at
                + 3] == digits[3]);
            let other: int = 28 - at;
            assert(q.subrange(other, other + 4) =~= p.subrange(other, other + 4));
        },
        IpAddress::V6(a) => {
            let at: int = if end == End::Source {
                8
            } else {
                24
            };
            crate::wire::lemma_be_digits_len(a as nat, 16);
            crate::wire::lemma_be_value_of_digits(a as nat, 16);
            assert(q.subrange(at, at + 16) =~= be_digits(a as nat, 16));
            let other: int = 32 - at;
            assert(q.subrange(other, other + 16) =~= p.subrange(other, other + 16));
        },
    }
}

pub proof fn lemma_four_bytes(s: Seq<u8>)
    requires
        s.len() == 4,
    ensures
        be_value(s) == s[0] * 0x100_0000 + s[1] * 0x1_0000 + s[2] * 0x100 + s[3],
{
    reveal_with_fuel(be_value, 5);
    assert(s.drop_last().drop_last().drop_last().drop_last().len() == 0);
}

proof fn lemma_octets_are_the_bytes(q: Seq<u8>, at: int, n: int)
    requires
        0 <= at,
        n == 4 || n == 16,
        at + n <= q.len(),
    ensures
        n == 4 ==> IpAddress::V4(be_value(q.subrange(at, at + n)) as u32).octets_spec()
            == q.subrange(at, at + n),
        n == 16 ==> IpAddress::V6(be_value(q.subrange(at, at + n)) as u128).octets_spec()
            == q.subrange(at, at + n),
{
    vstd::arithmetic::power2::lemma2_to64();
    vstd::arithmetic::power2::lemma_pow2_adds(64, 64);
    crate::wire::lemma_be_digits_of_value(q.subrange(at, at + n));
}

/// The checksums of a rewritten packet are those of what it says: the words of
/// an IPv4 header, and the words of the segment with those of the addresses, the
/// number of TCP and the length, add up to all ones.
pub proof fn rewritten_packets_add_up(
    p: Seq<u8>,
    end: End,
    ip: IpAddress,
    port: u16,
    q: Seq<u8>,
)
    requires
        rewritable(p, ip),
        rewrite_outcome(p, end, ip, port) == Ok::<Seq<u8>, RewriteError>(q),
    ensures
        p[0] / 16 == 4 ==> ({
            let off: int = (p[0] % 16) * 4;
            &&& fold(word_sum(q.subrange(0, off))) == 65535
            &&& fold(word_sum(q.subrange(12, 20)) + 6 + (q.len() - off) as nat + word_sum(q.subrange(off, q.len() as int)))
                == 65535
        }),
        p[0] / 16 == 6 ==> fold(
            word_sum(q.subrange(8, 40)) + 6 + (q.len() - 40) as nat + word_sum(q.subrange(40, q.len() as int)),
        ) == 65535,
{
    rewritten_segment_verifies(p, end, ip, port);
    let h = ip_header(q)->0;
    let off = h.header_len as int;
    if p[0] / 16 == 4 {
        rewritten_header_verifies(p, end, ip, port);
        lemma_octets_are_the_bytes(q, 12, 4);
        lemma_octets_are_the_bytes(q, 16, 4);
        assert(q.subrange(12, 20) =~= q.subrange(12, 16) + q.subrange(16, 20));
        crate::checksum::lemma_word_sum_concat(q.subrange(12, 16), q.subrange(16, 20));
    } else {
        lemma_octets_are_the_bytes(q, 8, 16);
        lemma_octets_are_the_bytes(q, 24, 16);
        assert(q.subrange(8, 40) =~= q.subrange(8, 24) + q.subrange(24, 40));
        crate::checksum::lemma_word_sum_concat(q.subrange(8, 24), q.subrange(24, 40));
    }
}

/// Which packets are refused, and why: those without an IP header, those of
/// another IP version than the new address, those whose IPv4 header says it is
/// under twenty bytes, and those that end before a TCP header does.
pub proof fn only_whole_packets_are_rewritten(p: Seq<u8>, end: End, ip: IpAddress, port: u16)
    ensures
        ({
            let r = rewrite_outcome(p, end, ip, port);
            let v4 = p.len() >= 20 && p[0] / 16 == 4;
            let v6 = p.len() >= 40 && p[0] / 16 == 6;
            let off: int = if v4 {
                (p[0] % 16) * 4
            } else {
                40
            };
            &&& r == Err::<Seq<u8>, RewriteError>(RewriteError::InvalidIpHeader) <==> !v4 && !v6
            &&& r == Err::<Seq<u8>, RewriteError>(RewriteError::VersionMismatch(end)) <==> (v4
                && ip is V6) || (v6 && ip is V4)
            &&& r == Err::<Seq<u8>, RewriteError>(RewriteError::BadIpv4Slice) <==> v4 && ip is V4
                && off < 20
            &&& r is Ok <==> ((v4 && ip is V4) || (v6 && ip is V6)) && off >= 20 && p.len() >= off
                + 20
        }),
{
}

/// The checksum of a segment balances the sum of its words, those of both
/// addresses, its protocol and its length, to a multiple of 65535; what stood in
/// the place of the checksum does not count.
pub proof fn segment_checksums_balance_the_sum(
    src: IpAddress,
    dst: IpAddress,
    protocol: nat,
    segment: Seq<u8>,
    at: int,
)
    requires
        0 <= at,
        at + 2 <= segment.len(),
    ensures
        ({
            let zeroed = written_at(segment, at, seq![0u8, 0u8]);
            let sum = word_sum(src.octets_spec()) + word_sum(dst.octets_spec()) + protocol
                + segment.len() + word_sum(zeroed);
            &&& (sum + transport_checksum(src, dst, protocol, segment, at)) % 65535 == 0
            &&& transport_checksum(src, dst, protocol, segment, at) == 65535 <==> sum == 0
            &&& transport_checksum(src, dst, protocol, segment, at) == transport_checksum(
                src,
                dst,
                protocol,
                zeroed,
                at,
            )
            &&& transport_checksum(src, dst, protocol, segment, at) == transport_checksum(
                dst,
                src,
                protocol,
                segment,
                at,
            )
        }),
{
    let zeroed = written_at(segment, at, seq![0u8, 0u8]);
    assert(written_at(zeroed, at, seq![0u8, 0u8]) =~= zeroed);
    let w = (pseudo_sum(src, dst, protocol, segment.len()) + word_sum(zeroed)) as int;
    if w > 0 {
        let k: int = (w - 1) / 65535;
        assert(w - 1 == 65535 * k + (w - 1) % 65535);
        assert(w + (65535 - fold(w as nat)) == 65535 * (k + 1));
        assert((65535 * (k + 1)) % 65535 == 0);
    }
}

} // verus!
