use byebyedpi_core::checksum::ipv4_checksum;
use byebyedpi_core::ip::{be_bytes, be_number, IpAddress, LOCALHOST};
use byebyedpi_core::packet_engine::{
    try_return_to_pool, DriverError, EngineMode, PacketBufferPool, PacketEngine, PacketStats, RawInjectError, RawSocket,
    POOLED_BUF_SIZE,
};
use byebyedpi_core::packet_invariants::{validate_before_send, PacketInvalidReason, ValidationMode};
use byebyedpi_core::proxy::rewrite::{
    parse_ip_header_local, rewrite_dst_addr, rewrite_src_addr, udp_checksum, End, RewriteError,
};
use byebyedpi_core::Protocol;

use pnet_packet::ipv4::Ipv4Packet;
use pnet_packet::tcp::TcpPacket;

#[test]
fn test_protocol_from_ip() {
    assert_eq!(Protocol::from_ip_protocol(6), Protocol::Tcp);
    assert_eq!(Protocol::from_ip_protocol(17), Protocol::Udp);
    assert_eq!(Protocol::from_ip_protocol(1), Protocol::Icmp);
    assert_eq!(Protocol::from_ip_protocol(255), Protocol::Unknown);
}

#[test]
fn test_ipv4_checksum_and_length_validation() {
    let mut pkt = vec![0u8; 40];
    pkt[0] = 0x45;
    pkt[2] = 0x00;
    pkt[3] = 0x28;
    pkt[9] = 6;
    pkt[20 + 12] = 0x50;

    pkt[10] = 0;
    pkt[11] = 0;
    let csum = ipv4_checksum(&pkt[..20]);
    pkt[10] = (csum >> 8) as u8;
    pkt[11] = (csum & 0xff) as u8;

    assert_eq!(validate_before_send(&pkt, ValidationMode::Fast), Ok(()));
    assert_eq!(validate_before_send(&pkt, ValidationMode::Strict), Ok(()));

    pkt[10] ^= 0xff;
    assert_eq!(validate_before_send(&pkt, ValidationMode::Fast), Ok(()));
    assert_eq!(
        validate_before_send(&pkt, ValidationMode::Strict),
        Err(PacketInvalidReason::Ipv4BadHeaderChecksum)
    );

    pkt[3] = 0x20;
    assert_eq!(
        validate_before_send(&pkt, ValidationMode::Fast),
        Err(PacketInvalidReason::Ipv4TotalLengthMismatch)
    );
}

#[test]
fn test_quic_initial_size_limit() {
    let mut pkt = vec![0u8; 48];
    pkt[0] = 0x45;
    pkt[2] = 0x00;
    pkt[3] = 0x30;
    pkt[9] = 17;
    pkt[20 + 2] = 0x01;
    pkt[20 + 3] = 0xbb;
    pkt[20 + 4] = 0x00;
    pkt[20 + 5] = 28;
    pkt[28] = 0xc0;
    pkt[29] = 0x01;
    pkt[30] = 0x02;
    pkt[31] = 0x03;
    pkt[32] = 0x04;

    assert_eq!(
        validate_before_send(&pkt, ValidationMode::Fast),
        Err(PacketInvalidReason::QuicInitialTooSmall)
    );
}

#[test]
fn each_fault_has_its_reason() {
    assert_eq!(validate_before_send(&[], ValidationMode::Fast), Err(PacketInvalidReason::TooShort));
    assert_eq!(
        validate_before_send(&[0x50; 40], ValidationMode::Fast),
        Err(PacketInvalidReason::UnsupportedIpVersion(5))
    );
    let mut v4 = vec![0u8; 40];
    v4[0] = 0x44;
    assert_eq!(validate_before_send(&v4, ValidationMode::Fast), Err(PacketInvalidReason::Ipv4HeaderTooShort));
    v4[0] = 0x45;
    v4[3] = 40;
    v4[9] = 6;
    v4[32] = 0x40;
    assert_eq!(validate_before_send(&v4, ValidationMode::Fast), Err(PacketInvalidReason::TcpHeaderTooShort));
    let mut udp = vec![0u8; 24];
    udp[0] = 0x45;
    udp[3] = 24;
    udp[9] = 17;
    assert_eq!(validate_before_send(&udp, ValidationMode::Fast), Err(PacketInvalidReason::UdpHeaderTooShort));
    let mut udp = vec![0u8; 30];
    udp[0] = 0x45;
    udp[3] = 30;
    udp[9] = 17;
    udp[25] = 11;
    assert_eq!(validate_before_send(&udp, ValidationMode::Fast), Err(PacketInvalidReason::UdpLengthMismatch));
    let mut v6 = vec![0u8; 60];
    v6[0] = 0x60;
    v6[5] = 21;
    assert_eq!(
        validate_before_send(&v6, ValidationMode::Fast),
        Err(PacketInvalidReason::Ipv6PayloadLengthMismatch)
    );
}

fn syn_packet() -> Vec<u8> {
    let mut ip_hdr = [0u8; 20];
    ip_hdr[0] = 0x45;
    ip_hdr[8] = 64;
    ip_hdr[9] = 6;
    ip_hdr[12..16].copy_from_slice(&[192, 168, 1, 100]);
    ip_hdr[16..20].copy_from_slice(&[8, 8, 8, 8]);

    let mut tcp_hdr = [0u8; 20];
    tcp_hdr[0..2].copy_from_slice(&12345u16.to_be_bytes());
    tcp_hdr[2..4].copy_from_slice(&443u16.to_be_bytes());
    tcp_hdr[12] = 0x50;
    tcp_hdr[13] = 0x02;

    let mut pkt = Vec::new();
    pkt.extend_from_slice(&ip_hdr);
    pkt.extend_from_slice(&tcp_hdr);
    let total_len = pkt.len() as u16;
    pkt[2..4].copy_from_slice(&total_len.to_be_bytes());
    pkt
}

#[test]
fn test_rewrite_checksum_verification() {
    let pkt = syn_packet();
    let new_dst = IpAddress::v4(127, 0, 0, 1);
    let rewritten = rewrite_dst_addr(&pkt, new_dst, 17650).unwrap();

    let ip_pkt = Ipv4Packet::new(&rewritten).unwrap();
    let tcp_pkt = TcpPacket::new(&rewritten[20..]).unwrap();
    let calculated_csum =
        pnet_packet::tcp::ipv4_checksum(&tcp_pkt, &ip_pkt.get_source(), &ip_pkt.get_destination());
    assert_eq!(calculated_csum, tcp_pkt.get_checksum());
    assert_eq!(ip_pkt.get_checksum(), pnet_packet::ipv4::checksum(&ip_pkt));
    assert_eq!(tcp_pkt.get_destination(), 17650);
    assert_eq!(&rewritten[16..20], &[127, 0, 0, 1]);
}

#[test]
fn rewriting_touches_only_its_fields() {
    let pkt = syn_packet();
    let out = rewrite_src_addr(&pkt, IpAddress::v4(9, 9, 9, 9), 53).unwrap();
    for i in 0..pkt.len() {
        let rewritten = (10..12).contains(&i) || (12..16).contains(&i) || (20..22).contains(&i) || (36..38).contains(&i);
        if !rewritten {
            assert_eq!(out[i], pkt[i], "byte {}", i);
        }
    }
}

#[test]
fn rewriting_ipv6_sums_up_the_long_addresses() {
    let mut pkt = vec![0u8; 60];
    pkt[0] = 0x60;
    pkt[5] = 20;
    pkt[6] = 6;
    pkt[23] = 1;
    pkt[39] = 2;
    pkt[52] = 0x50;
    let out = rewrite_dst_addr(&pkt, IpAddress::V6(0x20010db8 << 96), 443).unwrap();
    let tcp = TcpPacket::new(&out[40..]).unwrap();
    let mut sum: u32 = 0;
    let mut all = out[8..40].to_vec();
    all.extend_from_slice(&[0, 20, 0, 6]);
    all.extend_from_slice(&out[40..]);
    for w in all.chunks(2) {
        sum += u32::from(w[0]) * 256 + u32::from(w[1]);
    }
    while sum > 0xffff {
        sum = (sum & 0xffff) + (sum >> 16);
    }
    assert_eq!(sum, 0xffff);
    assert_eq!(tcp.get_destination(), 443);
}

#[test]
fn what_cannot_be_rewritten_says_why() {
    let pkt = syn_packet();
    assert_eq!(rewrite_dst_addr(&[], IpAddress::V4(1), 1), Err(RewriteError::InvalidIpHeader));
    assert_eq!(
        rewrite_dst_addr(&pkt, IpAddress::V6(1), 1),
        Err(RewriteError::VersionMismatch(End::Destination))
    );
    assert_eq!(
        rewrite_src_addr(&pkt, IpAddress::V6(1), 1),
        Err(RewriteError::VersionMismatch(End::Source))
    );
    assert_eq!(rewrite_dst_addr(&pkt[..30], IpAddress::V4(1), 1), Err(RewriteError::InvalidTcpHeader));
    let mut short = pkt.clone();
    short[0] = 0x44;
    assert_eq!(rewrite_dst_addr(&short, IpAddress::V4(1), 1), Err(RewriteError::BadIpv4Slice));
    assert_eq!(RewriteError::InvalidTcpHeader.message(), "invalid tcp header");
}

#[test]
fn udp_checksums_are_computed() {
    let datagram = [0x00, 0x35, 0x00, 0x35, 0x00, 0x0a, 0x00, 0x00, 0xab, 0xcd];
    let r = udp_checksum(IpAddress::v4(10, 0, 0, 1), IpAddress::v4(10, 0, 0, 2), &datagram);
    let mut sum: u32 = 0x0a00 + 1 + 0x0a00 + 2 + 17 + 10 + 0x35 + 0x35 + 0x0a + 0xabcd;
    while sum > 0xffff {
        sum = (sum & 0xffff) + (sum >> 16);
    }
    assert_eq!(r, !(sum as u16));
    let v6 = udp_checksum(IpAddress::V6(1), IpAddress::V6(2), &datagram);
    let mut sum: u32 = 1 + 2 + 17 + 10 + 0x35 + 0x35 + 0x0a + 0xabcd;
    while sum > 0xffff {
        sum = (sum & 0xffff) + (sum >> 16);
    }
    assert_eq!(v6, !(sum as u16));
}

#[test]
fn headers_and_addresses_are_read() {
    let h = parse_ip_header_local(&syn_packet()).unwrap();
    assert_eq!(h.src, IpAddress::v4(192, 168, 1, 100));
    assert_eq!(h.header_len, 20);
    assert!(parse_ip_header_local(&[0x45; 19]).is_none());
    assert_eq!(IpAddress::V4(LOCALHOST).octets(), vec![127, 0, 0, 1]);
    assert!(!IpAddress::V6(1).is_v4());
    assert_eq!(be_bytes(0x0102, 3), vec![0, 1, 2]);
    assert_eq!(be_number(&[9, 1, 2], 1, 3), 0x0102);
}

#[test]
fn test_packet_stats_default() {
    let stats = PacketStats::new();
    assert_eq!(stats.packets_received, 0);
    assert_eq!(stats.packets_sent, 0);
    assert_eq!(stats.packets_injected, 0);
    assert_eq!(stats.packets_dropped, 0);
}

#[test]
fn test_packet_stats_snapshot() {
    let mut engine = PacketEngine::new_api_only(false, false);
    engine.stats.packets_received += 1;
    engine.stats.packets_sent += 2;
    engine.stats.packets_injected += 3;
    engine.stats.packets_dropped += 4;
    let snap = engine.stats_snapshot();
    assert_eq!(snap.packets_received, 1);
    assert_eq!(snap.packets_sent, 2);
    assert_eq!(snap.packets_injected, 3);
    assert_eq!(snap.packets_dropped, 4);
}

#[test]
fn test_api_only_engine() {
    let mut engine = PacketEngine::new_api_only(false, false);
    assert!(!engine.has_divert());
    let mut pool = PacketBufferPool::new(1);
    assert!(engine.start_recv(&mut pool).is_err());
    assert_eq!(engine.mode(), EngineMode::ApiOnly);
    engine.filter_changing();
    engine.filter_changed(true);
    assert!(engine.has_divert());
    assert!(engine.start_recv(&mut pool).is_ok());
}

#[test]
fn captured_packets_are_cut_and_counted() {
    let mut engine = PacketEngine::with_divert(false, false);
    let mut pool = PacketBufferPool::new(1);
    let mut buf = engine.start_recv(&mut pool).unwrap();
    buf[..3].copy_from_slice(&[1, 2, 3]);
    let packet = engine.finish_recv(&mut pool, buf, Some(3)).unwrap();
    assert_eq!(&packet[..], &[1, 2, 3]);
    assert_eq!(engine.stats_snapshot().packets_received, 1);
    assert_eq!(engine.send_blocking_and_release(packet, Some(3), &mut pool), Ok(3));
    let buf = engine.start_recv(&mut pool).unwrap();
    assert_eq!(buf[..3], [1, 2, 3]);
    assert_eq!(engine.finish_recv(&mut pool, buf, None), Err(DriverError::Failed));
    assert_eq!(pool.acquire()[..3], [1, 2, 3]);
    assert_eq!(engine.send_blocking(Some(5)), Ok(5));
    assert_eq!(engine.send_blocking(None), Err(DriverError::Failed));
    assert_eq!(engine.inject_via_divert(Some(7)), Ok(7));
    assert!(engine.inject_raw_udp(&[0x45, 0], 2));
    assert!(!engine.inject_raw_udp(&[0x45, 0], 1));
    engine.drop_packet();
    engine.filter_changing();
    assert_eq!(engine.send_blocking(Some(5)), Err(DriverError::NotOpen));
    assert_eq!(engine.inject_via_divert(Some(5)), Err(DriverError::NotOpen));
    let snap = engine.stats_snapshot();
    assert_eq!((snap.packets_received, snap.packets_sent), (1, 2));
    assert_eq!((snap.packets_injected, snap.packets_dropped), (2, 1));
}

#[test]
fn test_inject_raw_no_socket() {
    let engine = PacketEngine::new_api_only(false, true);
    assert_eq!(engine.raw_socket_for(&[0x45, 0x00, 0x00, 0x14]), Err(RawInjectError::NoSocketV4));
    assert_eq!(engine.raw_socket_for(&[0x60]), Ok(RawSocket::V6));
    assert_eq!(engine.raw_socket_for(&[]), Err(RawInjectError::Empty));
    assert_eq!(engine.raw_socket_for(&[0x10]), Err(RawInjectError::UnknownVersion(1)));
    assert!(engine.has_raw_socket());
    assert!(!engine.has_raw_socket_v4());
    let engine = PacketEngine::with_divert(true, false);
    assert_eq!(engine.raw_socket_for(&[0x60]), Err(RawInjectError::NoSocketV6));
    assert_eq!(engine.raw_socket_for(&[0x45]), Ok(RawSocket::V4));
}

#[test]
fn test_pool_acquire_release() {
    let mut pool = PacketBufferPool::new(4);
    let buf = pool.acquire();
    assert_eq!(buf.len(), POOLED_BUF_SIZE);
    assert_eq!(buf.capacity(), POOLED_BUF_SIZE);
    pool.release(buf);
    let buf2 = pool.acquire();
    assert_eq!(buf2.len(), POOLED_BUF_SIZE);
}

#[test]
fn test_pool_reuse_count() {
    let mut pool = PacketBufferPool::new(4);
    let mut addrs = Vec::new();
    for _ in 0..4 {
        let buf = pool.acquire();
        addrs.push(buf.as_ptr() as usize);
        pool.release(buf);
    }
    for addr in &addrs {
        let buf = pool.acquire();
        assert_eq!(buf.as_ptr() as usize, *addr, "the buffer is not out of the pool");
    }
}

#[test]
fn test_pool_reuse_count_exhausted() {
    let mut pool = PacketBufferPool::new(2);
    let _a = pool.acquire();
    let _b = pool.acquire();
    let c = pool.acquire();
    assert_eq!(c.len(), POOLED_BUF_SIZE);
}

#[test]
fn test_pool_release_bytes_returns_to_pool() {
    let mut pool = PacketBufferPool::new(2);
    let buf = pool.acquire();
    let frozen: bytes::Bytes = buf.freeze();
    pool.release_bytes(frozen);
    let reused = pool.acquire();
    assert_eq!(reused.len(), POOLED_BUF_SIZE);
}

#[test]
fn test_pool_release_bytes_shared_noop() {
    let mut pool = PacketBufferPool::new(2);
    let buf = pool.acquire();
    let frozen: bytes::Bytes = buf.freeze();
    let _clone = frozen.clone();
    let ptr_before = frozen.as_ptr() as usize;
    pool.release_bytes(frozen);
    let reused = pool.acquire();
    assert_ne!(reused.as_ptr() as usize, ptr_before, "a shared packet must not be pooled");
}

#[test]
fn test_pool_release_small_noop() {
    let mut pool = PacketBufferPool::new(2);
    let mut small = bytes::BytesMut::with_capacity(100);
    small.resize(100, 0);
    let small = small.freeze();
    pool.release_bytes(small);
    let _a = pool.acquire();
    let _b = pool.acquire();
    let c = pool.acquire();
    assert_eq!(c.len(), POOLED_BUF_SIZE);
    assert_eq!(c.capacity(), POOLED_BUF_SIZE);
}

#[test]
fn buffers_that_come_back_keep_their_bytes() {
    let mut pool = PacketBufferPool::new(1);
    let mut buf = pool.acquire();
    buf[0] = 7;
    buf.truncate(10);
    try_return_to_pool(buf.freeze(), &mut pool);
    let again = pool.acquire();
    assert_eq!(again[0], 7);
    assert_eq!(again.len(), POOLED_BUF_SIZE);
    assert_eq!(again[10], 0);
}

#[test]
fn large_buffers_are_let_go() {
    let mut pool = PacketBufferPool::new(1);
    let _only = pool.acquire();
    pool.release(bytes::BytesMut::with_capacity(9000));
    let fresh = pool.acquire();
    assert_eq!(fresh.len(), POOLED_BUF_SIZE);
    assert_eq!(fresh.capacity(), POOLED_BUF_SIZE);
    pool.release_measured(bytes::BytesMut::from(&[5u8; 3000][..]), 3000);
    assert_eq!(pool.acquire()[0], 0);
    pool.release_bytes(bytes::Bytes::from(vec![5u8; 3000]));
    assert_eq!(pool.acquire()[0], 0);
    pool.release_measured(bytes::BytesMut::from(&[5u8; 100][..]), 100);
    assert_eq!(pool.acquire()[0], 0);
    pool.release_measured(bytes::BytesMut::from(&[5u8; 100][..]), POOLED_BUF_SIZE);
    let pooled = pool.acquire();
    assert_eq!((pooled[99], pooled[100]), (5, 0));
}

#[test]
fn only_recovered_buffers_come_back() {
    let mut pool = PacketBufferPool::new(1);
    let mut buf = pool.acquire();
    buf[0] = 9;
    pool.release_recovered(None);
    assert_eq!(pool.acquire()[0], 0);
    pool.release_recovered(Some(buf));
    assert_eq!(pool.acquire()[0], 9);
}
