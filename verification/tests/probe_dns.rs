use byebyedpi_core::base64::base64url_encode;
use byebyedpi_core::probe::classifier::DnsFailureCode;
use byebyedpi_core::probe::dns_probe::{
    assemble, build_dns_query, cross_validate, doh_query_url, doh_reply, is_fake_ip,
    parse_dns_response_detailed, parse_dns_response_ips, summarize_doh, summarize_udp, udp_reply,
    DnsProbeResult, DohDnsResult, DohExchange, UdpDnsResult,
};

fn v4(a: u8, b: u8, c: u8, d: u8) -> u32 {
    u32::from_be_bytes([a, b, c, d])
}

#[test]
fn test_build_dns_query() {
    let query = build_dns_query("example.com");
    assert!(query.len() > 20);
    assert_eq!(query[0], 0xAB);
    assert_eq!(query[1], 0xCD);
    assert_eq!(query[4], 0x00);
    assert_eq!(query[5], 0x01);
}

#[test]
fn test_cross_validate_ok() {
    let udp = vec![v4(8, 8, 8, 8)];
    let doh = vec![v4(8, 8, 8, 8)];
    assert_eq!(cross_validate(&udp, &doh, false, false), DnsFailureCode::DnsOk);
}

#[test]
fn test_cross_validate_poisoned() {
    let udp = vec![v4(1, 2, 3, 4)];
    let doh = vec![v4(8, 8, 8, 8)];
    assert_eq!(
        cross_validate(&udp, &doh, false, false),
        DnsFailureCode::Poisoned
    );
}

#[test]
fn test_cross_validate_empty_spoof() {
    let udp: Vec<u32> = vec![];
    let doh = vec![v4(8, 8, 8, 8)];
    assert_eq!(
        cross_validate(&udp, &doh, false, false),
        DnsFailureCode::EmptySpoof
    );
}

#[test]
fn test_cross_validate_nxdomain_spoof() {
    let udp: Vec<u32> = vec![];
    let doh = vec![v4(8, 8, 8, 8)];
    assert_eq!(
        cross_validate(&udp, &doh, false, true),
        DnsFailureCode::NxdomainSpoof
    );
}

#[test]
fn test_cross_validate_intercepted() {
    let udp: Vec<u32> = vec![];
    let doh = vec![v4(8, 8, 8, 8)];
    assert_eq!(
        cross_validate(&udp, &doh, true, false),
        DnsFailureCode::Intercepted
    );
}

#[test]
fn test_cross_validate_unresolvable() {
    let udp: Vec<u32> = vec![];
    let doh: Vec<u32> = vec![];
    assert_eq!(
        cross_validate(&udp, &doh, false, true),
        DnsFailureCode::Unresolvable
    );
}

#[test]
fn test_cross_validate_doh_blocked() {
    let udp: Vec<u32> = vec![];
    let doh: Vec<u32> = vec![];
    assert_eq!(
        cross_validate(&udp, &doh, false, false),
        DnsFailureCode::DohBlocked
    );
}

#[test]
fn test_is_fake_ip_198_18() {
    assert!(is_fake_ip(v4(198, 18, 0, 1)));
    assert!(is_fake_ip(v4(198, 19, 255, 255)));
    assert!(!is_fake_ip(v4(198, 17, 255, 255)));
    assert!(!is_fake_ip(v4(198, 20, 0, 0)));
}

#[test]
fn test_is_fake_ip_100_64() {
    assert!(is_fake_ip(v4(100, 64, 0, 1)));
    assert!(is_fake_ip(v4(100, 127, 255, 255)));
    assert!(!is_fake_ip(v4(100, 63, 255, 255)));
    assert!(!is_fake_ip(v4(100, 128, 0, 0)));
}

#[test]
fn test_is_fake_ip_normal() {
    assert!(!is_fake_ip(v4(8, 8, 8, 8)));
    assert!(!is_fake_ip(v4(1, 1, 1, 1)));
}

#[test]
fn test_base64url_encode() {
    assert_eq!(base64url_encode(b"Hello, World!"), "SGVsbG8sIFdvcmxkIQ");
    assert_eq!(base64url_encode(b"\x00\x01"), "AAE");
}

#[test]
fn test_parse_dns_response_empty() {
    let response = [0u8; 12];
    let ips = parse_dns_response_ips(&response);
    assert!(ips.is_empty());
}

#[test]
fn test_parse_nxdomain() {
    // flags with rcode=3 (NXDOMAIN)
    let mut response = [0u8; 12];
    response[2] = 0x81; // QR=1, OPCODE=0
    response[3] = 0x83; // RCODE=3 (NXDOMAIN)
    let result = parse_dns_response_detailed(&response);
    assert!(matches!(result, UdpDnsResult::Nxdomain(..)));
}

fn response_with(ips: &[[u8; 4]], domain: &str) -> Vec<u8> {
    let mut r = build_dns_query(domain);
    r[2] = 0x81;
    r[3] = 0x80;
    r[6] = (ips.len() >> 8) as u8;
    r[7] = ips.len() as u8;
    for ip in ips {
        r.extend_from_slice(&[0xc0, 0x0c, 0x00, 0x01, 0x00, 0x01, 0, 0, 0, 60, 0x00, 0x04]);
        r.extend_from_slice(ip);
    }
    r
}

#[test]
fn query_spells_out_the_labels() {
    let q = build_dns_query("a.bc");
    assert_eq!(
        q,
        vec![
            0xAB, 0xCD, 0x01, 0x00, 0x00, 0x01, 0, 0, 0, 0, 0, 0, 1, b'a', 2, b'b', b'c', 0, 0, 1,
            0, 1
        ]
    );
}

#[test]
fn answers_are_read_behind_the_question() {
    let r = response_with(&[[8, 8, 4, 4], [8, 8, 8, 8]], "dns.google");
    assert_eq!(parse_dns_response_ips(&r), vec![v4(8, 8, 4, 4), v4(8, 8, 8, 8)]);
    match udp_reply(&r, 1234) {
        UdpDnsResult::Answer(ips, latency, size) => {
            assert_eq!(ips, vec![v4(8, 8, 4, 4), v4(8, 8, 8, 8)]);
            assert_eq!(latency, 1234);
            assert_eq!(size, r.len());
        }
        _ => panic!("an answer was expected"),
    }
}

#[test]
fn short_and_refused_responses_are_told_apart() {
    assert!(matches!(parse_dns_response_detailed(&[0; 5]), UdpDnsResult::Error));
    assert!(matches!(parse_dns_response_detailed(&[0; 12]), UdpDnsResult::EmptyResponse(12)));
}

#[test]
fn doh_url_carries_the_query() {
    let url = doh_query_url("https://dns.google/resolve", "a.bc");
    assert_eq!(url, format!("https://dns.google/resolve?dns={}", base64url_encode(&build_dns_query("a.bc"))));
}

#[test]
fn doh_replies_are_judged() {
    let body = response_with(&[[1, 2, 3, 4]], "x.y");
    let r = doh_reply(&DohExchange::Body(body.clone()), 77);
    assert_eq!(r.ips, vec![v4(1, 2, 3, 4)]);
    assert_eq!(r.latency_us, 77);
    assert_eq!(r.size, body.len());
    assert!(doh_reply(&DohExchange::NoResponse, 77).ips.is_empty());
    assert_eq!(doh_reply(&DohExchange::BadResponse, 77).latency_us, 77);
}

#[test]
fn servers_are_summed_up() {
    let udp = vec![
        UdpDnsResult::Timeout,
        UdpDnsResult::Answer(vec![v4(8, 8, 8, 8)], 900, 40),
        UdpDnsResult::Answer(vec![v4(8, 8, 8, 8)], 300, 60),
    ];
    let doh = vec![DohDnsResult { ips: vec![v4(8, 8, 8, 8)], latency_us: 500, size: 80 }];
    let u = summarize_udp(&udp);
    assert!(u.timed_out);
    assert!(!u.nxdomain);
    assert_eq!(u.rtt_us, 300);
    assert_eq!(u.size, 60);
    assert_eq!(u.ips, vec![v4(8, 8, 8, 8)]);
    let d = summarize_doh(&doh);
    assert_eq!(d.rtt_us, 500);
    let r = assemble(&udp, &doh, 1000);
    assert_eq!(r.verdict, DnsFailureCode::DnsOk);
    assert_eq!(r.resolved_ips, vec![v4(8, 8, 8, 8)]);
    assert!(!r.fake_ip_detected);
    assert_eq!(r.latency_us, 1000);
}

#[test]
fn stand_in_addresses_are_noticed() {
    let doh = vec![DohDnsResult { ips: vec![v4(198, 18, 0, 7)], latency_us: 5, size: 8 }];
    let udp = vec![UdpDnsResult::Answer(vec![v4(198, 18, 0, 7)], 5, 8)];
    assert!(assemble(&udp, &doh, 1).fake_ip_detected);
}

#[test]
fn default_dns_result_is_empty() {
    let dns = DnsProbeResult::default();
    assert_eq!(dns.verdict, DnsFailureCode::DnsOk);
    assert!(dns.resolved_ips.is_empty());
    assert_eq!(dns.latency_us, 0);
    assert!(!dns.fake_ip_detected);
}

#[test]
fn all_answers_are_read_in_order() {
    let mut response = build_dns_query("example.com");
    response[2] = 0x81;
    response[3] = 0x80;
    response[7] = 3;
    for ip in [[1u8, 2, 3, 4], [200, 0, 0, 1], [1, 2, 3, 4]] {
        response.extend_from_slice(&[0xc0, 0x0c, 0, 1, 0, 1, 0, 0, 0x0e, 0x10, 0, 4]);
        response.extend_from_slice(&ip);
    }
    assert_eq!(parse_dns_response_ips(&response), vec![0x0102_0304, 0xc800_0001, 0x0102_0304]);
    response.truncate(response.len() - 1);
    assert_eq!(parse_dns_response_ips(&response), vec![0x0102_0304, 0xc800_0001]);
}
