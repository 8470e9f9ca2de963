//! The last look at a packet before it goes out: its headers have to be
//! consistent with its length.
use vstd::prelude::*;

use crate::checksum::{internet_checksum, ipv4_checksum};
use crate::wire::{be16, copy_range, read_be16, written_at};

verus! {

/// Why a packet must not be sent.
#[derive(Debug, Clone, Copy, PartialEq, Eq, Structural)]
pub enum PacketInvalidReason {
    TooShort,
    UnsupportedIpVersion(u8),
    Ipv4HeaderTooShort,
    Ipv4TotalLengthMismatch,
    Ipv4BadHeaderChecksum,
    Ipv6PayloadLengthMismatch,
    TcpHeaderTooShort,
    UdpHeaderTooShort,
    UdpLengthMismatch,
    QuicInitialTooSmall,
}

/// How much of a packet is looked at.
#[derive(Debug, Clone, Copy, PartialEq, Eq, Structural)]
pub enum ValidationMode {
    /// Lengths only.
    Fast,
    /// Lengths and the IPv4 header checksum.
    Strict,
}

/// The length in bytes that the IPv4 header of a packet gives for itself.
pub open spec fn ihl(p: Seq<u8>) -> int {
    (p[0] % 16) as int * 4
}

/// The Internet checksum that the IPv4 header of a packet should carry.
pub open spec fn expected_header_checksum(p: Seq<u8>) -> u16 {
    internet_checksum(written_at(p.subrange(0, ihl(p)), 10, seq![0u8, 0u8]))
}

/// Whether a UDP payload is a QUIC long-header packet of type Initial with a
/// version other than zero.
pub open spec fn quic_initial(payload: Seq<u8>) -> bool {
    &&& payload.len() >= 6
    &&& initial_header(payload)
}

/// Whether the first five bytes are those of a QUIC Initial packet: the two
/// high bits set, the two type bits clear, a version other than zero.
pub open spec fn initial_header(payload: Seq<u8>) -> bool {
    &&& 192 <= payload[0] < 208
    &&& !(payload[1] == 0 && payload[2] == 0 && payload[3] == 0 && payload[4] == 0)
}

/// What is wrong with the TCP header at `off`.
pub open spec fn tcp_fault(p: Seq<u8>, off: int) -> Option<PacketInvalidReason> {
    let data_offset = (p[off + 12] / 16) as int * 4;
    if p.len() < off + 20 || data_offset < 20 || p.len() < off + data_offset {
        Some(PacketInvalidReason::TcpHeaderTooShort)
    } else {
        None
    }
}

/// What is wrong with the UDP datagram at `off`.
pub open spec fn udp_fault(p: Seq<u8>, off: int) -> Option<PacketInvalidReason> {
    let udp_len = be16(p[off + 4], p[off + 5]) as int;
    let payload = p.subrange(off + 8, off + udp_len);
    if p.len() < off + 8 {
        Some(PacketInvalidReason::UdpHeaderTooShort)
    } else if udp_len < 8 || off + udp_len > p.len() {
        Some(PacketInvalidReason::UdpLengthMismatch)
    } else if be16(p[off + 2], p[off + 3]) == 443 && quic_initial(payload) && payload.len() < 1200 {
        Some(PacketInvalidReason::QuicInitialTooSmall)
    } else {
        None
    }
}

/// What is wrong with what the packet carries from `off` on.
pub open spec fn transport_fault(p: Seq<u8>, protocol: u8, off: int) -> Option<
    PacketInvalidReason,
> {
    if protocol == 6 {
        tcp_fault(p, off)
    } else if protocol == 17 {
        udp_fault(p, off)
    } else {
        None
    }
}

/// What is wrong with an IPv4 packet.
pub open spec fn ipv4_fault(p: Seq<u8>, mode: ValidationMode) -> Option<PacketInvalidReason> {
    if p.len() < 20 {
        Some(PacketInvalidReason::TooShort)
    } else if ihl(p) < 20 || p.len() < ihl(p) {
        Some(PacketInvalidReason::Ipv4HeaderTooShort)
    } else if be16(p[2], p[3]) != p.len() {
        Some(PacketInvalidReason::Ipv4TotalLengthMismatch)
    } else if mode == ValidationMode::Strict && expected_header_checksum(p) != be16(p[10], p[11]) {
        Some(PacketInvalidReason::Ipv4BadHeaderChecksum)
    } else if ihl(p) < p.len() {
        transport_fault(p, p[9], ihl(p))
    } else {
        None
    }
}

/// What is wrong with an IPv6 packet.
pub open spec fn ipv6_fault(p: Seq<u8>) -> Option<PacketInvalidReason> {
    if p.len() < 40 {
        Some(PacketInvalidReason::TooShort)
    } else if be16(p[4], p[5]) + 40 > p.len() {
        Some(PacketInvalidReason::Ipv6PayloadLengthMismatch)
    } else {
        transport_fault(p, p[6], 40)
    }
}

/// The first thing that is wrong with a packet, if anything is.
pub open spec fn packet_fault(p: Seq<u8>, mode: ValidationMode) -> Option<PacketInvalidReason> {
    if p.len() == 0 {
        Some(PacketInvalidReason::TooShort)
    } else if p[0] / 16 == 4 {
        ipv4_fault(p, mode)
    } else if p[0] / 16 == 6 {
        ipv6_fault(p)
    } else {
        Some(PacketInvalidReason::UnsupportedIpVersion(p[0] / 16))
    }
}

/// The result that stands for a fault, or for none.
pub open spec fn as_result(fault: Option<PacketInvalidReason>) -> Result<(), PacketInvalidReason> {
    match fault {
        Some(reason) => Err(reason),
        None => Ok(()),
    }
}

/// Checks a packet and names the first thing that is wrong with it.
pub fn validate_before_send(packet: &[u8], mode: ValidationMode) -> (r: Result<
    (),
    PacketInvalidReason,
>)
    ensures
        r == as_result(packet_fault(packet@, mode)),
{
    if packet.len() == 0 {
        return Err(PacketInvalidReason::TooShort);
    }
    let version: u8 = packet[0] / 16;
    if version == 4 {
        validate_ipv4(packet, mode)
    } else if version == 6 {
        validate_ipv6(packet)
    } else {
        Err(PacketInvalidReason::UnsupportedIpVersion(version))
    }
}

fn validate_ipv4(packet: &[u8], mode: ValidationMode) -> (r: Result<(), PacketInvalidReason>)
    requires
        packet@.len() > 0,
    ensures
        r == as_result(ipv4_fault(packet@, mode)),
{
    if packet.len() < 20 {
        return Err(PacketInvalidReason::TooShort);
    }
    let header_len: usize = (packet[0] % 16) as usize * 4;
    if header_len < 20 || packet.len() < header_len {
        return Err(PacketInvalidReason::Ipv4HeaderTooShort);
    }
    let total_len: usize = read_be16(packet, 2) as usize;
    if total_len != packet.len() {
        return Err(PacketInvalidReason::Ipv4TotalLengthMismatch);
    }
    if mode == ValidationMode::Strict {
        let mut header: Vec<u8> = copy_range(packet, 0, header_len);
        header.set(10, 0);
        header.set(11, 0);
        assert(header@ =~= written_at(packet@.subrange(0, ihl(packet@)), 10, seq![0u8, 0u8]));
        let expected: u16 = ipv4_checksum(header.as_slice());
        let actual: u16 = read_be16(packet, 10);
        if expected != actual {
            return Err(PacketInvalidReason::Ipv4BadHeaderChecksum);
        }
    }
    if header_len < packet.len() {
        match packet[9] {
            6 => validate_tcp(packet, header_len),
            17 => validate_udp(packet, header_len),
            _ => Ok(()),
        }
    } else {
        Ok(())
    }
}

fn validate_ipv6(packet: &[u8]) -> (r: Result<(), PacketInvalidReason>)
    requires
        packet@.len() > 0,
    ensures
        r == as_result(ipv6_fault(packet@)),
{
    if packet.len() < 40 {
        return Err(PacketInvalidReason::TooShort);
    }
    let payload_len: usize = read_be16(packet, 4) as usize;
    if payload_len + 40 > packet.len() {
        return Err(PacketInvalidReason::Ipv6PayloadLengthMismatch);
    }
    let next_header: u8 = packet[6];
    if next_header == 6 {
        validate_tcp(packet, 40)
    } else if next_header == 17 {
        validate_udp(packet, 40)
    } else {
        Ok(())
    }
}

fn validate_tcp(packet: &[u8], tcp_off: usize) -> (r: Result<(), PacketInvalidReason>)
    requires
        tcp_off <= 60,
    ensures
        r == as_result(tcp_fault(packet@, tcp_off as int)),
{
    if packet.len() < tcp_off + 20 {
        return Err(PacketInvalidReason::TcpHeaderTooShort);
    }
    let data_offset: usize = (packet[tcp_off + 12] / 16) as usize * 4;
    if data_offset < 20 || packet.len() < tcp_off + data_offset {
        return Err(PacketInvalidReason::TcpHeaderTooShort);
    }
    Ok(())
}

fn validate_udp(packet: &[u8], udp_off: usize) -> (r: Result<(), PacketInvalidReason>)
    requires
        udp_off <= 60,
    ensures
        r == as_result(udp_fault(packet@, udp_off as int)),
{
    if packet.len() < udp_off + 8 {
        return Err(PacketInvalidReason::UdpHeaderTooShort);
    }
    let udp_len: usize = read_be16(packet, udp_off + 4) as usize;
    if udp_len < 8 || udp_off + udp_len > packet.len() {
        return Err(PacketInvalidReason::UdpLengthMismatch);
    }
    let dst_port: u16 = read_be16(packet, udp_off + 2);
    if dst_port == 443 {
        let payload: Vec<u8> = copy_range(packet, udp_off + 8, udp_off + udp_len);
        if is_quic_initial(payload.as_slice()) && payload.len() < 1200 {
            return Err(PacketInvalidReason::QuicInitialTooSmall);
        }
    }
    Ok(())
}

/// Whether a UDP payload of six bytes or more starts like a QUIC Initial
/// packet.
pub fn is_quic_initial(payload: &[u8]) -> (r: bool)
    ensures
        r == quic_initial(payload@),
{
    payload.len() >= 6 && has_initial_header(payload)
}

/// Whether the first five bytes are those of a QUIC Initial packet.
pub fn has_initial_header(payload: &[u8]) -> (r: bool)
    requires
        payload@.len() >= 5,
    ensures
        r == initial_header(payload@),
{
    payload[0] >= 192 && payload[0] < 208 && !(payload[1] == 0 && payload[2] == 0 && payload[3] == 0
        && payload[4] == 0)
}

/// A packet that passes has, for IPv4, exactly the length that its header
/// states and a header that lies inside it; for IPv6, at least the length
/// that its header states.
pub proof fn accepted_packet_has_its_stated_length(p: Seq<u8>, mode: ValidationMode)
    requires
        packet_fault(p, mode) is None,
    ensures
        p.len() > 0,
        p[0] / 16 == 4 ==> 20 <= ihl(p) <= p.len() && be16(p[2], p[3]) == p.len(),
        p[0] / 16 == 6 ==> be16(p[4], p[5]) + 40 <= p.len(),
        p[0] / 16 == 4 || p[0] / 16 == 6,
{
}

/// What passes the strict check passes the fast one.
pub proof fn strict_implies_fast(p: Seq<u8>)
    requires
        packet_fault(p, ValidationMode::Strict) is None,
    ensures
        packet_fault(p, ValidationMode::Fast) is None,
{
}

/// Apart from the header checksum the two checks agree.
pub proof fn modes_differ_in_checksum_only(p: Seq<u8>)
    ensures
        packet_fault(p, ValidationMode::Strict) == packet_fault(p, ValidationMode::Fast)
            || packet_fault(p, ValidationMode::Strict) == Some(
            PacketInvalidReason::Ipv4BadHeaderChecksum,
        ),
{
}

/// An IPv4 header whose checksum field holds the checksum of the header with
/// that field zero passes the strict checksum test.
pub proof fn stored_checksum_is_accepted(p: Seq<u8>)
    requires
        p.len() >= 20,
        p[0] / 16 == 4,
        ihl(p) >= 20,
        p.len() >= ihl(p),
        be16(p[10], p[11]) == expected_header_checksum(p),
    ensures
        packet_fault(p, ValidationMode::Strict) == packet_fault(p, ValidationMode::Fast),
{
}

/// The bytes of a QUIC Initial packet: a long header, of the first of the four
/// types, with a version.
pub proof fn initial_headers_are_told_by_their_bits(p: Seq<u8>)
    requires
        p.len() >= 5,
    ensures
        initial_header(p) <==> p[0] & 0xf0 == 0xc0 && (p[1] != 0 || p[2] != 0 || p[3] != 0 || p[4]
            != 0),
{
    let b = p[0];
    assert(192 <= b < 208 <==> b & 0xf0 == 0xc0) by (bit_vector);
}

/// A packet may be sent exactly where its headers are whole and agree with its
/// length: an IPv4 packet is as long as it says, an IPv6 packet at least as
/// long; a TCP header lies inside the packet, and so does what a UDP header says
/// it carries. A QUIC Initial to port 443 has at least 1200 bytes.
pub proof fn packets_pass_exactly_so(p: Seq<u8>)
    ensures
        packet_fault(p, ValidationMode::Fast) is None <==> {
            let v4 = p.len() >= 20 && p[0] / 16 == 4 && (p[0] % 16) * 4 >= 20 && (p[0] % 16) * 4
                <= p.len() && p[2] * 256 + p[3] == p.len();
            let v6 = p.len() >= 40 && p[0] / 16 == 6 && p[4] * 256 + p[5] + 40 <= p.len();
            let off: int = if v4 {
                (p[0] % 16) * 4
            } else {
                40
            };
            let protocol = if v4 {
                p[9]
            } else {
                p[6]
            };
            let bare = v4 && off == p.len();
            let size = p[off + 4] * 256 + p[off + 5];
            let tcp = p.len() >= off + 20 && p[off + 12] / 16 >= 5 && p.len() >= off + (p[off + 12]
                / 16) * 4;
            let udp = p.len() >= off + 8 && size >= 8 && off + size <= p.len() && !(p[off + 2] * 256
                + p[off + 3] == 443 && size >= 14 && size < 1208 && p[off + 8] & 0xf0 == 0xc0 && (p[
            off + 9] != 0 || p[off + 10] != 0 || p[off + 11] != 0 || p[off + 12] != 0));
            (v4 || v6) && (bare || (protocol == 6 ==> tcp) && (protocol == 17 ==> udp))
        },
{
    if p.len() >= 20 {
        let off: int = if p[0] / 16 == 4 {
            (p[0] % 16) * 4
        } else {
            40
        };
        let size = p[off + 4] * 256 + p[off + 5];
        let payload = p.subrange(off + 8, off + size);
        if off + 14 <= p.len() && size >= 14 && off + size <= p.len() {
            initial_headers_are_told_by_their_bits(payload);
            assert(payload[0] == p[off + 8] && payload[1] == p[off + 9] && payload[2] == p[off + 10]
                && payload[3] == p[off + 11] && payload[4] == p[off + 12]);
        }
    }
}

/// The strict check asks one thing more: that the words of an IPv4 header add up
/// with the checksum that it carries.
pub proof fn strict_checks_ask_for_the_checksum(p: Seq<u8>)
    requires
        packet_fault(p, ValidationMode::Fast) is None,
    ensures
        p[0] / 16 == 6 ==> packet_fault(p, ValidationMode::Strict) is None,
        p[0] / 16 == 4 ==> (packet_fault(p, ValidationMode::Strict) is None <==> p[10] * 256 + p[11]
            == internet_checksum(
            written_at(p.subrange(0, (p[0] % 16) * 4), 10, seq![0u8, 0u8]),
        )),
        packet_fault(p, ValidationMode::Strict) is Some ==> packet_fault(p, ValidationMode::Strict)
            == Some(PacketInvalidReason::Ipv4BadHeaderChecksum),
{
}

/// What is named as wrong is wrong: the version that is not known is named as
/// it stands, a packet that is too short lacks its IP header, and lengths are
/// named where they disagree.
pub proof fn faults_are_named_rightly(p: Seq<u8>, mode: ValidationMode)
    ensures
        ({
            let fault = packet_fault(p, mode);
            let version = p[0] / 16;
            &&& fault matches Some(PacketInvalidReason::UnsupportedIpVersion(v)) ==> p.len() > 0
                && v == version && v != 4 && v != 6
            &&& p.len() > 0 && version != 4 && version != 6 ==> fault == Some(
                PacketInvalidReason::UnsupportedIpVersion(version),
            )
            &&& fault == Some(PacketInvalidReason::TooShort) <==> p.len() == 0 || (version == 4
                && p.len() < 20) || (version == 6 && p.len() < 40)
            &&& fault == Some(PacketInvalidReason::Ipv4HeaderTooShort) <==> p.len() >= 20 && version
                == 4 && ((p[0] % 16) * 4 < 20 || p.len() < (p[0] % 16) * 4)
            &&& fault == Some(PacketInvalidReason::Ipv4TotalLengthMismatch) ==> version == 4 && p[2]
                * 256 + p[3] != p.len()
            &&& fault == Some(PacketInvalidReason::Ipv6PayloadLengthMismatch) <==> p.len() >= 40
                && version == 6 && p[4] * 256 + p[5] + 40 > p.len()
            &&& fault == Some(PacketInvalidReason::TcpHeaderTooShort) ==> (version == 4 && p[9] == 6)
                || (version == 6 && p[6] == 6)
            &&& fault == Some(PacketInvalidReason::UdpHeaderTooShort) || fault == Some(
                PacketInvalidReason::UdpLengthMismatch,
            ) || fault == Some(PacketInvalidReason::QuicInitialTooSmall) ==> (version == 4 && p[9]
                == 17) || (version == 6 && p[6] == 17)
        }),
{
}

} // verus!
