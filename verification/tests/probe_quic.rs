use byebyedpi_core::probe::classifier::TcpFailureCode;
use byebyedpi_core::probe::quic_probe::{
    build_quic_initial_packet, classify_receive_error, encode_varint, parse_quic_response,
    probe_result, QuicExchange, QuicProbe, QuicProbeResult, QuicResponseType, QuicVerdict,
};

#[test]
fn test_quic_response_type_is_ok() {
    assert!(QuicResponseType::Retry.is_ok());
    assert!(QuicResponseType::Handshake.is_ok());
    assert!(QuicResponseType::Initial.is_ok());
    assert!(!QuicResponseType::Timeout.is_ok());
    assert!(!QuicResponseType::IcmpUnreachable.is_ok());
}

#[test]
fn test_quic_response_type_is_blocked() {
    assert!(QuicResponseType::Timeout.is_blocked());
    assert!(QuicResponseType::IcmpUnreachable.is_blocked());
    assert!(QuicResponseType::ConnectionClose.is_blocked());
    assert!(!QuicResponseType::Retry.is_blocked());
}

#[test]
fn quic_probe_test_discriminate_no_blocking() {
    let quic = QuicProbeResult {
        response_type: QuicResponseType::Retry,
        rtt_ms: 50,
        response_size: 100,
        response_preview: vec![],
        version: Some(1),
    };
    let verdict = QuicProbe::discriminate(&quic, TcpFailureCode::ConnectOk);
    assert_eq!(verdict, QuicVerdict::NoBlocking);
}

#[test]
fn test_discriminate_quic_blocked() {
    let quic = QuicProbeResult {
        response_type: QuicResponseType::Timeout,
        rtt_ms: 3000,
        response_size: 0,
        response_preview: vec![],
        version: None,
    };
    let verdict = QuicProbe::discriminate(&quic, TcpFailureCode::ConnectOk);
    assert_eq!(verdict, QuicVerdict::QuicBlocked);
}

#[test]
fn test_discriminate_quic_bypass() {
    let quic = QuicProbeResult {
        response_type: QuicResponseType::Handshake,
        rtt_ms: 50,
        response_size: 200,
        response_preview: vec![],
        version: Some(1),
    };
    let verdict = QuicProbe::discriminate(&quic, TcpFailureCode::Reset);
    assert_eq!(verdict, QuicVerdict::QuicBypass);
}

#[test]
fn test_discriminate_general_blocking() {
    let quic = QuicProbeResult {
        response_type: QuicResponseType::Timeout,
        rtt_ms: 3000,
        response_size: 0,
        response_preview: vec![],
        version: None,
    };
    let verdict = QuicProbe::discriminate(&quic, TcpFailureCode::Reset);
    assert_eq!(verdict, QuicVerdict::GeneralBlocking);
}

#[test]
fn test_parse_quic_response_retry() {
    // Retry packet: Long Header, type=0b01, version=1
    let response = vec![0xD0, 0x00, 0x00, 0x00, 0x01, 0x08, 0x12, 0x34];
    let (rt, version) = parse_quic_response(&response);
    assert_eq!(rt, QuicResponseType::Retry);
    assert_eq!(version, Some(1));
}

#[test]
fn test_parse_quic_response_handshake() {
    let response = vec![0xE0, 0x00, 0x00, 0x00, 0x01, 0x08];
    let (rt, version) = parse_quic_response(&response);
    assert_eq!(rt, QuicResponseType::Handshake);
    assert_eq!(version, Some(1));
}

#[test]
fn test_parse_quic_response_empty() {
    let (rt, version) = parse_quic_response(&[]);
    assert_eq!(rt, QuicResponseType::Garbage);
    assert_eq!(version, None);
}

#[test]
fn test_encode_varint_1byte() {
    assert_eq!(encode_varint(37), vec![0x25]);
}

#[test]
fn test_encode_varint_2byte() {
    let encoded = encode_varint(15293);
    assert_eq!(encoded.len(), 2);
    assert_eq!(encoded[0] & 0xC0, 0x40);
}

#[test]
fn test_encode_varint_4byte() {
    let encoded = encode_varint(15293000);
    assert_eq!(encoded.len(), 4);
    assert_eq!(encoded[0] & 0xC0, 0x80);
}

#[test]
fn test_default_quic() {
    assert_eq!(QuicVerdict::default(), QuicVerdict::Ambiguous);
    let quic = QuicProbeResult::default();
    assert_eq!(quic.response_type, QuicResponseType::Timeout);
    assert_eq!(quic.rtt_ms, 0);
    assert_eq!(quic.response_size, 0);
}

#[test]
fn varints_have_their_exact_bytes() {
    assert_eq!(encode_varint(15293), vec![0x7b, 0xbd]);
    assert_eq!(encode_varint(494878333), vec![0x9d, 0x7f, 0x3e, 0x7d]);
    assert_eq!(encode_varint(151288809941952652), vec![0xc2, 0x19, 0x7c, 0x5e, 0xff, 0x14, 0xe8, 0x8c]);
}

#[test]
fn receive_errors_are_read_in_any_case() {
    assert_eq!(classify_receive_error("ICMP Port UNREACHABLE"), QuicResponseType::IcmpUnreachable);
    assert_eq!(classify_receive_error("operation timed out"), QuicResponseType::Timeout);
}

#[test]
fn exchanges_become_results() {
    let r = probe_result(&QuicExchange::BindFailed, 5);
    assert_eq!(r.response_type, QuicResponseType::SendError);
    let r = probe_result(&QuicExchange::Received(vec![0xD0, 0, 0, 0, 1, 8, 0x12, 0x34]), 9);
    assert_eq!(r.response_type, QuicResponseType::Retry);
    assert_eq!(r.rtt_ms, 9);
    assert_eq!(r.response_size, 8);
    assert_eq!(r.response_preview.len(), 8);
}

#[test]
fn initial_packets_are_padded() {
    let p = build_quic_initial_packet(&[1, 2, 3, 4, 5, 6, 7, 8], &[0x01; 300]);
    assert_eq!(p.header.len() + p.payload.len() + 20, 1200);
    assert_eq!(p.header[0] & 0xf0, 0xc0);
    assert_eq!(&p.header[1..5], &[0, 0, 0, 1]);
}
