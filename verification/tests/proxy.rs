use byebyedpi_core::base64::{base64_decode, base64_encode, base64_encode_no_pad};
use byebyedpi_core::ip::{Endpoint, IpAddress};
use byebyedpi_core::proxy::awg_obfuscator::{AwgObfuscationConfig, AwgObfuscator};
use byebyedpi_core::proxy::awg_tunnel::{
    address_part, burst_for, on_due, on_received, on_sealed, parse_ipv4_udp, rewrite_ipv4_udp, tunnel_keys,
    wants_junk, AwgTunnel, TunnelAction, TunnelError, TunnelNat,
};
use byebyedpi_core::proxy::wire_tunnel::{Instants, Sealed, TimerEvent, TunnelEvent, WireReason};
use byebyedpi_core::proxy::http_tunnel::{
    ends_head, judge_attempt, status_code, wants_warm, AfterAttempt, Attempt, LineReader, LineStep, OperaTunnel,
};
use byebyedpi_core::proxy::redirector::{
    entry_for, next_port, target_host, CustomProxyConfig, Hop, RedirectError, SocksRedirector,
};
use byebyedpi_core::proxy::socks5_client::{
    connect_reply, connect_request, credentials, credentials_reply, greeting, method_reply, rest_after_length,
    AuthStep, ReplyRest, Socks5Error,
};
use byebyedpi_core::proxy::surfeasy::{
    after_request, api_failure, capital_hex_sha1, extract_digest_param, form_body, parse_challenge,
    random_email_local_part, random_hex_string, response_failure, urlencode, AfterRequest, ChallengeError,
    DigestState, SeIpEntry, SurfEasyClient,
};
use byebyedpi_core::proxy::types::{
    DomainBlocklist, FakeIpManager, OperaProxyPool, RedirectEntry, RedirectTable, PROBED_TTL_US,
};
use byebyedpi_core::proxy::zero_config::{
    choose_proxy, ZeroConfigConfig, ZeroConfigEngine, ZeroConfigState, ZeroStep,
};

fn ip(a: u8, b: u8, c: u8, d: u8) -> IpAddress {
    IpAddress::v4(a, b, c, d)
}

#[test]
fn test_redirect_table() {
    let mut table = RedirectTable::new();
    let entry = RedirectEntry {
        orig_dst_ip: ip(8, 8, 8, 8),
        orig_dst_port: 443,
        domain: Some("netflix.com".to_string()),
        created_us: 0,
    };
    table.insert(12345, entry);
    let fetched = table.get(12345).unwrap();
    assert_eq!(fetched.orig_dst_port, 443);
    assert_eq!(fetched.domain.as_deref(), Some("netflix.com"));
    let removed = table.remove(12345).unwrap();
    assert_eq!(removed.orig_dst_port, 443);
    assert!(table.get(12345).is_none());
    assert!(table.remove(12345).is_none());
}

#[test]
fn test_opera_proxy_pool() {
    let addr1 = Endpoint { ip: ip(127, 0, 0, 1), port: 1080 };
    let addr2 = Endpoint { ip: ip(127, 0, 0, 1), port: 1081 };
    let mut pool = OperaProxyPool::new(vec![addr1, addr2], 0);
    assert_eq!(pool.select_best(), Some(addr1));
    pool.mark_result(addr1, false, 1);
    pool.mark_result(addr1, false, 2);
    pool.mark_result(addr1, false, 3);
    assert_eq!(pool.select_best(), Some(addr2));
    pool.mark_result(addr1, true, 4);
    assert_eq!(pool.select_best(), Some(addr1));
    assert_eq!(pool.proxies[0].last_check_us, 4);
    assert!(pool.is_known_ip(&ip(127, 0, 0, 1)));
    assert!(!pool.is_known_ip(&ip(127, 0, 0, 2)));
    pool.mark_result(Endpoint { ip: ip(1, 1, 1, 1), port: 1 }, false, 5);
    assert_eq!(pool.proxies.len(), 2);
}

#[test]
fn test_domain_blocklist() {
    let mut blocklist = DomainBlocklist::new(vec!["netflix.com".to_string()]);
    assert!(blocklist.should_tunnel("netflix.com", 0));
    assert!(!blocklist.should_tunnel("google.com", 0));
    blocklist.mark_probed_blocked("google.com", 0);
    assert!(blocklist.should_tunnel("google.com", 0));
}

#[test]
fn blocked_domains_expire_and_case_does_not_matter() {
    let mut b = DomainBlocklist::new(vec!["Netflix.COM".to_string(), "netflix.com".to_string()]);
    assert!(b.should_tunnel("NETFLIX.com", 0));
    b.mark_probed_blocked("GOOGLE.com", 10);
    assert!(b.should_tunnel("google.com", 9 + PROBED_TTL_US));
    assert!(!b.should_tunnel("google.com", 10 + PROBED_TTL_US));
    b.set_user_domains(vec!["Mine.org".to_string()]);
    assert!(b.should_tunnel("mine.ORG", 0));
    b.set_user_domains(vec![]);
    assert!(!b.should_tunnel("mine.org", 0));
}

#[test]
fn test_fake_ip_manager_idempotency() {
    let mut manager = FakeIpManager::new(10);
    let ip1 = manager.allocate("netflix.com").unwrap();
    let ip2 = manager.allocate("netflix.com").unwrap();
    assert_eq!(ip1, ip2);
}

#[test]
fn stand_ins_lead_back_to_their_domains() {
    let mut m = FakeIpManager::new(2);
    let a = m.allocate("A.com").unwrap();
    let b = m.allocate("b.com").unwrap();
    assert_eq!(a, 0x0a00_0001);
    assert_ne!(a, b);
    assert!(m.allocate("c.com").is_none());
    assert_eq!(m.allocate("a.COM"), Some(a));
    assert_eq!(m.lookup(&IpAddress::V4(a)).as_deref(), Some("a.com"));
    assert!(m.lookup(&IpAddress::V4(0x0a00_0009)).is_none());
    assert!(m.lookup(&IpAddress::V6(a as u128)).is_none());
    assert!(FakeIpManager::is_fake_ip(a));
    assert!(!FakeIpManager::is_fake_ip(0x0b00_0001));
}

#[test]
fn test_obfuscate_deobfuscate_initiation() {
    let config = AwgObfuscationConfig {
        jc: 2,
        jmin: 10,
        jmax: 20,
        s1: 50,
        s2: 30,
        s3: 0,
        s4: 0,
        h1: 0x11111111,
        h2: 0x22222222,
        h3: 0x33333333,
        h4: 0x44444444,
    };
    let obfuscator = AwgObfuscator::new(config);

    let mut packet = 1u32.to_le_bytes().to_vec();
    packet.extend_from_slice(b"sample handshake data");
    let orig_len = packet.len();

    let is_init = obfuscator.obfuscate(&mut packet);
    assert!(is_init);
    assert_eq!(packet.len(), orig_len + 50);
    let header = u32::from_le_bytes([packet[0], packet[1], packet[2], packet[3]]);
    assert_eq!(header, 0x11111111);

    let valid = obfuscator.deobfuscate(&mut packet);
    assert!(valid);
    assert_eq!(packet.len(), orig_len);
    let restored_header = u32::from_le_bytes([packet[0], packet[1], packet[2], packet[3]]);
    assert_eq!(restored_header, 1);
}

#[test]
fn every_kind_of_message_comes_back() {
    let o = AwgObfuscator::new(AwgObfuscationConfig::default());
    for kind in 1u32..=4 {
        let mut p = kind.to_le_bytes().to_vec();
        p.extend_from_slice(&[9, 8, 7]);
        let before = p.clone();
        assert_eq!(o.obfuscate_with(&mut p, &vec![0xee; o.padding_for(&before)]), kind == 1);
        assert_ne!(p, before);
        assert!(o.deobfuscate(&mut p));
        assert_eq!(p, before);
    }
    let mut other = vec![9, 0, 0, 0, 1];
    assert!(!o.obfuscate(&mut other));
    assert_eq!(other, vec![9, 0, 0, 0, 1]);
    assert!(!o.deobfuscate(&mut other));
    let mut short = vec![0x00, 0x00, 0x00, 0x01, 5];
    assert!(!o.deobfuscate(&mut short));
    assert_eq!(short.len(), 5);
    let junk = o.junk_packets();
    assert_eq!(junk.len(), 4);
    assert!(junk.iter().all(|j| j.len() >= 40 && j.len() <= 1000));
    assert!(junk.iter().any(|j| j.iter().any(|b| *b != 0)));
}

fn datagram(src: [u8; 4], sport: u16, dst: [u8; 4], dport: u16) -> Vec<u8> {
    let mut p = vec![0u8; 32];
    p[0] = 0x45;
    p[3] = 32;
    p[9] = 17;
    p[12..16].copy_from_slice(&src);
    p[16..20].copy_from_slice(&dst);
    p[20..22].copy_from_slice(&sport.to_be_bytes());
    p[22..24].copy_from_slice(&dport.to_be_bytes());
    p[25] = 12;
    p[26] = 0xaa;
    p
}

#[test]
fn replies_reach_the_client() {
    let mut nat = TunnelNat::new(0x0a08_0002);
    let sent = nat.outgoing(datagram([192, 168, 1, 5], 5000, [1, 1, 1, 1], 53)).unwrap();
    let u = parse_ipv4_udp(&sent).unwrap();
    assert_eq!(u.src_ip, 0x0a08_0002);
    assert_eq!(u.src_port, 5000);
    assert_eq!(&sent[26..28], &[0, 0]);
    let back = nat.incoming(&datagram([1, 1, 1, 1], 53, [10, 8, 0, 2], 5000)).unwrap();
    let u = parse_ipv4_udp(&back).unwrap();
    assert_eq!(u.dst_ip, u32::from_be_bytes([192, 168, 1, 5]));
    assert_eq!(u.src_ip, u32::from_be_bytes([1, 1, 1, 1]));
    assert!(nat.incoming(&datagram([1, 1, 1, 1], 53, [10, 8, 0, 2], 5001)).is_none());
    assert_eq!(nat.outgoing(vec![0; 28]), Err(TunnelError::NotUdp));
}

#[test]
fn junk_goes_ahead_of_a_handshake() {
    let o = AwgObfuscator::new(AwgObfuscationConfig::default());
    let wire = vec![1, 0, 0, 0, 7, 7];
    let burst = burst_for(&o, wire.clone(), WireReason::HandshakeInitiation);
    assert_eq!(burst.len(), 5);
    let mut last = burst[4].clone();
    assert!(o.deobfuscate(&mut last));
    assert_eq!(last, wire);
    assert_eq!(burst_for(&o, wire.clone(), WireReason::Other).len(), 1);
    let mut nat = TunnelNat::new(0x0a08_0002);
    nat.outgoing(datagram([192, 168, 1, 5], 5000, [1, 1, 1, 1], 53)).unwrap();
    let data = TunnelEvent::Data(datagram([1, 1, 1, 1], 53, [10, 8, 0, 2], 5000));
    match on_received(&nat, &o, data) {
        TunnelAction::Inject(p) => assert_eq!(&p[16..20], &[192, 168, 1, 5]),
        _ => panic!("the reply is for a known client"),
    }
    assert!(matches!(on_received(&nat, &o, TunnelEvent::Data(vec![0; 30])), TunnelAction::Nothing));
    assert!(matches!(on_received(&nat, &o, TunnelEvent::Reply(wire)), TunnelAction::Send(b) if b.len() == 1));
    assert!(matches!(on_received(&nat, &o, TunnelEvent::Keepalive), TunnelAction::Nothing));
    assert!(matches!(on_received(&nat, &o, TunnelEvent::HandshakeComplete), TunnelAction::Nothing));
    assert!(matches!(on_received(&nat, &o, TunnelEvent::CookieStored), TunnelAction::Nothing));
    assert_eq!(on_sealed(&o, Sealed::HandshakeInitiation(vec![1, 0, 0, 0])).len(), 5);
    assert_eq!(on_sealed(&o, Sealed::Transport(vec![4, 0, 0, 0, 9])), vec![vec![0, 0, 0, 4, 9]]);
    let keepalive = TimerEvent::Send(vec![4, 0, 0, 0, 9], WireReason::Keepalive);
    assert_eq!(on_due(&o, keepalive), Some(vec![vec![0, 0, 0, 4, 9]]));
    assert_eq!(on_due(&o, TimerEvent::Idle), None);
    assert_eq!(on_due(&o, TimerEvent::HandshakeExpired), None);
    assert_eq!(on_due(&o, TimerEvent::SessionsExpired), None);
}

fn tunnel(own: u8, peer: u8, ip: u32) -> AwgTunnel {
    let public = *wireguard_sans_io::StaticSecret::from([peer; 32]).public_key().as_bytes();
    let (own, peer) = (base64_encode(&[own; 32]), base64_encode(&public));
    AwgTunnel::start(&own, &peer, ip, AwgObfuscationConfig::default()).unwrap()
}

fn at(secs: u64) -> Instants {
    Instants { ticks: secs * 1_000_000_000, unix_secs: 1_700_000_000 + secs, unix_nanos: 0 }
}

#[test]
fn packets_pass_through_the_tunnel() {
    let mut a = tunnel(1, 2, 0x0a08_0002);
    let mut b = tunnel(2, 1, 0x0a08_0001);
    let packet = datagram([192, 168, 1, 5], 5000, [1, 1, 1, 1], 53);
    let hello = a.send_ip_packet(at(1), packet.clone()).unwrap();
    assert_eq!(hello.len(), 5);
    assert_eq!(hello[4].len(), 148 + 120);
    assert_eq!(&hello[4][..4], &0x0100_0000u32.to_le_bytes());
    assert!(matches!(
        a.send_ip_packet(at(1), packet.clone()),
        Err(TunnelError::Refused(wireguard_sans_io::Error::NotEstablished))
    ));
    b.send_ip_packet(at(1), datagram([172, 16, 0, 9], 53, [10, 8, 0, 2], 5000)).unwrap();
    for junk in &hello[..4] {
        assert!(matches!(b.receive(at(1), junk.clone()), TunnelAction::Nothing));
    }
    let answer = match b.receive(at(1), hello[4].clone()) {
        TunnelAction::Send(answer) => answer,
        _ => panic!("a handshake is answered"),
    };
    assert_eq!(answer.len(), 1);
    assert_eq!(answer[0].len(), 92 + 60);
    assert!(matches!(a.receive(at(1), answer[0].clone()), TunnelAction::Nothing));
    let carried = a.send_ip_packet(at(2), packet.clone()).unwrap();
    assert_eq!(carried.len(), 1);
    assert_eq!(carried[0].len(), 32 + 32);
    match b.receive(at(2), carried[0].clone()) {
        TunnelAction::Inject(p) => {
            let u = parse_ipv4_udp(&p).unwrap();
            assert_eq!((u.src_ip, u.src_port), (0x0a08_0002, 5000));
            assert_eq!((u.dst_ip, u.dst_port), (u32::from_be_bytes([172, 16, 0, 9]), 53));
            assert_eq!(p[28..], packet[28..]);
        }
        _ => panic!("the packet is for a known client"),
    }
    assert!(matches!(b.receive(at(2), carried[0].clone()), TunnelAction::Nothing));
    assert!(matches!(a.send_ip_packet(at(2), vec![0; 28]), Err(TunnelError::NotUdp)));
}

#[test]
fn handshakes_are_repeated() {
    let mut a = tunnel(1, 2, 0x0a08_0002);
    assert!(a.on_timer(at(0)).is_none());
    a.send_ip_packet(at(1), datagram([192, 168, 1, 5], 5000, [1, 1, 1, 1], 53)).unwrap();
    assert!(a.on_timer(at(2)).is_none());
    let again = a.on_timer(at(7)).unwrap();
    assert_eq!(again.len(), 5);
    assert_eq!(again[4].len(), 148 + 120);
}

#[test]
fn keys_that_make_no_tunnel_are_refused() {
    let own = *wireguard_sans_io::StaticSecret::from([1; 32]).public_key().as_bytes();
    let private = base64_encode(&[1; 32]);
    let start = |private: &str, public: &str| {
        AwgTunnel::start(private, public, 0, AwgObfuscationConfig::default()).map(|_| ())
    };
    let refused = Err(TunnelError::Refused(wireguard_sans_io::Error::InvalidPublicKey));
    for public in [own, [0; 32]] {
        assert_eq!(start(&private, &base64_encode(&public)), refused);
    }
    assert_eq!(start("AAAA", &private), Err(TunnelError::BadPrivateKey));
    assert_eq!(start(&private, "AAAA"), Err(TunnelError::BadPublicKey));
}

#[test]
fn rerouted_headers_are_summed_up() {
    let mut p = datagram([192, 168, 1, 5], 5000, [1, 1, 1, 1], 53);
    rewrite_ipv4_udp(&mut p, 0x0102_0304, 7, 0x0506_0708, 9);
    let mut sum: u32 = p[..20].chunks(2).map(|w| u32::from(w[0]) * 256 + u32::from(w[1])).sum();
    while sum > 0xffff {
        sum = (sum & 0xffff) + (sum >> 16);
    }
    assert_eq!(sum, 0xffff);
}

#[test]
fn tunnel_settings_are_read() {
    let key = base64_encode(&[7u8; 32]);
    let keys = tunnel_keys(&key, &key).unwrap();
    assert_eq!(keys.0, [7u8; 32]);
    assert_eq!(tunnel_keys("AAAA", &key), Err(TunnelError::BadPrivateKey));
    assert_eq!(tunnel_keys(&key, ""), Err(TunnelError::BadPublicKey));
    assert_eq!(address_part("10.8.0.2/24"), "10.8.0.2");
    assert_eq!(address_part("10.8.0.2"), "10.8.0.2");
    assert!(wants_junk(WireReason::HandshakeRetransmit));
    assert!(!wants_junk(WireReason::Other));
}

#[test]
fn base64_round_trips_keys() {
    let key: Vec<u8> = (0u8..32).collect();
    assert_eq!(base64_decode(&base64_encode(&key)).unwrap().to_vec(), key);
    assert_eq!(base64_encode(b"a"), "YQ==");
    assert_eq!(base64_encode_no_pad(b"a"), "YQ");
    assert!(base64_decode("YQ==").is_none());
}

#[test]
fn socks5_speaks_its_bytes() {
    assert_eq!(greeting(false), vec![5, 1, 0]);
    assert_eq!(greeting(true), vec![5, 2, 0, 2]);
    assert_eq!(method_reply([5, 0], false), Ok(AuthStep::Ready));
    assert_eq!(method_reply([5, 2], false), Err(Socks5Error::NoAuthRefused(2)));
    assert_eq!(method_reply([4, 0], true), Err(Socks5Error::HandshakeFailed));
    assert_eq!(method_reply([5, 2], true), Ok(AuthStep::SendCredentials));
    assert_eq!(method_reply([5, 0], true), Ok(AuthStep::Ready));
    assert_eq!(method_reply([5, 0xff], true), Err(Socks5Error::MethodsRejected));
    assert_eq!(credentials("ab", "c").unwrap(), vec![1, 2, b'a', b'b', 1, b'c']);
    assert_eq!(credentials(&"u".repeat(255), "").unwrap().len(), 258);
    assert_eq!(credentials(&"u".repeat(256), "c"), Err(Socks5Error::CredentialTooLong(256)));
    assert_eq!(credentials("ab", &"p".repeat(300)), Err(Socks5Error::CredentialTooLong(300)));
    assert_eq!(credentials_reply([1, 0]), Ok(()));
    assert_eq!(credentials_reply([1, 1]), Err(Socks5Error::AuthenticationFailed));
    assert_eq!(connect_request("a.b", None, 443).unwrap(), vec![5, 1, 0, 3, 3, b'a', b'.', b'b', 1, 0xbb]);
    assert_eq!(connect_request("1.2.3.4", Some(ip(1, 2, 3, 4)), 80).unwrap(), vec![5, 1, 0, 1, 1, 2, 3, 4, 0, 80]);
    assert_eq!(connect_request("::1", Some(IpAddress::V6(1)), 80).unwrap().len(), 22);
    let long = "x".repeat(256);
    assert_eq!(connect_request(&long, None, 80), Err(Socks5Error::DomainTooLong(256)));
    assert_eq!(connect_reply([5, 0, 0, 1]), Ok(ReplyRest::Bytes(6)));
    assert_eq!(connect_reply([5, 0, 0, 3]), Ok(ReplyRest::LengthFirst));
    assert_eq!(connect_reply([5, 0, 0, 4]), Ok(ReplyRest::Bytes(18)));
    assert_eq!(connect_reply([5, 7, 0, 1]), Err(Socks5Error::ConnectFailed(7)));
    assert_eq!(connect_reply([5, 0, 0, 9]), Err(Socks5Error::UnsupportedAddressType(9)));
    assert_eq!(rest_after_length(5), 7);
    assert_eq!(Socks5Error::ConnectFailed(7).message(), "SOCKS5 CONNECT failed, REP=7");
    assert_eq!(
        Socks5Error::NoAuthRefused(255).message(),
        "SOCKS5 handshake failed or authentication required (method=255)"
    );
}

#[test]
fn tunnels_are_asked_for() {
    let t = OperaTunnel::new("p.example".into(), 443, "sni".into(), "user", "pass");
    assert_eq!(
        t.connect_request("a.b", 443),
        "CONNECT a.b:443 HTTP/1.1\r\nHost: a.b:443\r\nProxy-Authorization: Basic dXNlcjpwYXNz\r\n\r\n"
    );
    assert_eq!(t.refusal(407, "a.b", 443), "CONNECT failed: HTTP 407 (target: a.b:443, proxy: p.example:443)");
    let open = OperaTunnel::new("p".into(), 1, "s".into(), "", "pass");
    assert!(open.auth.is_none());
    assert_eq!(open.connect_request("a", 1), "CONNECT a:1 HTTP/1.1\r\nHost: a:1\r\n\r\n");
    assert_eq!(open.proxy_address(), "p:1");
}

#[test]
fn status_lines_are_read() {
    assert_eq!(status_code("HTTP/1.1 200 Connection established"), 200);
    assert_eq!(status_code("  HTTP/1.1\t407"), 407);
    assert_eq!(status_code("HTTP/1.1"), 0);
    assert_eq!(status_code("HTTP/1.1 abc"), 0);
    assert_eq!(status_code("HTTP/1.1 65536"), 0);
    assert_eq!(status_code("HTTP/1.1 +00200"), 200);
    assert_eq!(status_code(""), 0);
}

#[test]
fn lines_are_put_together() {
    let mut r = LineReader::new();
    let mut lines = Vec::new();
    for b in b"HTTP/1.1 200 OK\r\n\r\n" {
        if let LineStep::Line(s) = r.push(*b) {
            lines.push(s);
        }
    }
    assert_eq!(lines, vec!["HTTP/1.1 200 OK".to_string(), String::new()]);
    assert!(ends_head(&lines[1]));
    assert!(!ends_head(&lines[0]));
    r.push(0xff);
    assert!(matches!(r.push(b'\n'), LineStep::NotText));
}

#[test]
fn dead_connections_are_retried_once() {
    assert_eq!(judge_attempt(Attempt::Answered(200), true), AfterAttempt::Ready);
    assert_eq!(judge_attempt(Attempt::Answered(407), true), AfterAttempt::Refused(407));
    assert_eq!(judge_attempt(Attempt::Broken, true), AfterAttempt::Retry);
    assert_eq!(judge_attempt(Attempt::Broken, false), AfterAttempt::Failed);
    assert!(wants_warm(3));
    assert!(!wants_warm(4));
}

fn custom(enabled: bool, fallback: bool) -> CustomProxyConfig {
    CustomProxyConfig {
        enabled,
        host: "h".into(),
        port: 1,
        username: None,
        password: None,
        use_opera_fallback: fallback,
    }
}

#[test]
fn ways_are_tried_in_order() {
    let e = Endpoint { ip: ip(1, 1, 1, 1), port: 1080 };
    let mut r = SocksRedirector::new(OperaProxyPool::new(vec![e], 0), custom(true, true));
    assert_eq!(r.start(), Ok(Hop::Custom));
    assert_eq!(r.failed(Hop::Custom, 1), Ok(Hop::Opera(e)));
    assert_eq!(r.failed(Hop::Opera(e), 2), Ok(Hop::Direct));
    assert_eq!(r.proxy_pool.proxies[0].consecutive_failures, 1);
    assert_eq!(r.failed(Hop::Direct, 3), Err(RedirectError::Exhausted));
    r.succeeded(Hop::Opera(e), 4);
    assert_eq!(r.proxy_pool.proxies[0].consecutive_failures, 0);
    r.update_custom_proxy(custom(false, false));
    assert_eq!(r.start(), Ok(Hop::Opera(e)));
    assert_eq!(r.failed(Hop::Custom, 1), Ok(Hop::Direct));
    let none = SocksRedirector::new(OperaProxyPool::new(vec![], 0), custom(false, false));
    assert_eq!(none.start(), Err(RedirectError::NoHealthyProxy));
}

#[test]
fn redirects_have_a_target_and_a_port() {
    let entry = |d: Option<String>| RedirectEntry { orig_dst_ip: ip(8, 8, 8, 8), orig_dst_port: 80, domain: d, created_us: 0 };
    assert_eq!(target_host(&entry(Some("a.b".into())), "8.8.8.8"), "a.b");
    assert_eq!(target_host(&entry(None), "8.8.8.8"), "8.8.8.8");
    assert!(entry_for(Some(entry(None)), 7).is_ok());
    assert!(matches!(entry_for(None, 7), Err(RedirectError::NoEntry(7))));
    let mut ports = Vec::new();
    let mut p = next_port(None);
    while let Some(x) = p {
        ports.push(x);
        p = next_port(Some(x));
    }
    assert_eq!(ports, (17650..17660).collect::<Vec<u16>>());
}

#[test]
fn forms_are_encoded() {
    assert_eq!(urlencode("a b&c=d~é"), "a%20b%26c%3Dd~%C3%A9");
    assert_eq!(form_body(&[("a", "1 2"), ("b", "&")]), "a=1%202&b=%26");
    assert_eq!(form_body(&[]), "");
}

#[test]
fn form_values_come_back() {
    for text in ["plain", "a+b c/%25", "привет", ""] {
        let encoded = urlencode(text);
        let mut bytes = Vec::new();
        let mut rest = encoded.as_bytes();
        while !rest.is_empty() {
            if rest[0] == b'%' {
                bytes.push(u8::from_str_radix(std::str::from_utf8(&rest[1..3]).unwrap(), 16).unwrap());
                rest = &rest[3..];
            } else {
                bytes.push(rest[0]);
                rest = &rest[1..];
            }
        }
        assert_eq!(bytes, text.as_bytes());
    }
}

#[test]
fn challenges_are_read() {
    let h = "Digest realm=\"r x\", nonce=\"abc\", qop=auth, opaque=zz";
    assert_eq!(extract_digest_param(h, "realm").as_deref(), Some("r x"));
    assert_eq!(extract_digest_param(h, "qop").as_deref(), Some("auth"));
    assert_eq!(extract_digest_param(h, "opaque").as_deref(), Some("zz"));
    assert!(extract_digest_param(h, "missing").is_none());
    assert!(extract_digest_param("realm=\"open", "realm").is_none());
    let s = parse_challenge(h).unwrap();
    assert_eq!(s.realm.as_deref(), Some("r x"));
    assert_eq!(s.nc, 0);
    assert!(matches!(parse_challenge("nonce=1"), Err(ChallengeError::MissingRealm)));
    assert!(matches!(parse_challenge("realm=1"), Err(ChallengeError::MissingNonce)));
}

#[test]
fn digests_answer_challenges() {
    assert_eq!(capital_hex_sha1("abc"), "A9993E364706816ABA3E25717850C26C9CD0D89D");
    let mut c = SurfEasyClient::new();
    assert!(!c.answers_ahead());
    c.subscriber_email = "Mufasa".into();
    c.subscriber_password = "Circle Of Life".into();
    c.challenged(DigestState {
        realm: Some("testrealm@host.com".into()),
        nonce: Some("dcd98b7102dd2f0e8b11d0f600bfb0c093".into()),
        opaque: Some("5ccc069c403ebaf9f0171e9517f40e41".into()),
        nc: 0,
    });
    assert!(c.answers_ahead());
    let h = c.digest_header_with("GET", "/dir/index.html", "0a4f113b");
    assert_eq!(
        h,
        "Digest username=\"Mufasa\", realm=\"testrealm@host.com\", nonce=\"dcd98b7102dd2f0e8b11d0f600bfb0c093\", uri=\"/dir/index.html\", qop=auth, nc=00000001, cnonce=\"0a4f113b\", response=\"6629fae49393a05397450978507c4ef1\", opaque=\"5ccc069c403ebaf9f0171e9517f40e41\""
    );
    assert!(c.make_digest_header("POST", "/x").starts_with("Digest username=\"Mufasa\""));
}

#[test]
fn random_names_are_random() {
    let a = random_hex_string(20);
    assert_eq!(a.len(), 40);
    assert!(a.bytes().all(|b| b.is_ascii_hexdigit()));
    assert_ne!(a, random_hex_string(20));
    assert_eq!(random_email_local_part().len(), 43);
}

#[test]
fn requests_of_the_service() {
    let mut c = SurfEasyClient::new();
    assert_eq!(c.subscriber_email.len(), 43);
    assert_eq!(c.subscriber_password.len(), 40);
    c.subscriber_email = "a+b".into();
    c.subscriber_password = "pw".into();
    c.device_id = "dev".into();
    c.device_password = "secret".into();
    let r = c.anon_register();
    assert_eq!(r.url, "https://api2.sec-tunnel.com/v4/register_subscriber");
    assert_eq!(r.body, "email=a%2Bb&password=pw");
    assert_eq!(c.login().body, "login=a%2Bb&password=pw&client_type=se0316");
    assert!(c.register_device().body.ends_with("&device_name=Opera-Browser-Client"));
    assert_eq!(c.device_generate_password().body, "device_id=dev");
    assert_eq!(c.geo_list().url, "https://api2.sec-tunnel.com/v4/geo_list");
    assert_eq!(c.discover("EU").body, format!("serial_no={}&requested_geo=EU", capital_hex_sha1("dev")));
    assert_eq!(c.proxy_credentials(), ("dev", "secret"));
}

#[test]
fn answers_of_the_service_are_judged() {
    assert!(response_failure(204, "204 No Content", "").is_none());
    let f = response_failure(401, "401 Unauthorized", "x");
    assert_eq!(f.as_deref(), Some("HTTP 401 Unauthorized"));
    assert_eq!(after_request(&f), AfterRequest::AskChallenge);
    let f = response_failure(500, "500 Internal Server Error", "oops");
    assert_eq!(f.as_deref(), Some("HTTP 500 Internal Server Error: oops"));
    assert_eq!(after_request(&f), AfterRequest::Failed);
    assert_eq!(after_request(&None), AfterRequest::Answered);
    assert!(api_failure(0, &None).is_none());
    assert_eq!(api_failure(-3, &None).as_deref(), Some("API error -3: unknown"));
    assert_eq!(api_failure(7, &Some("no".into())).as_deref(), Some("API error 7: no"));
}

#[test]
fn endpoints_are_written_out() {
    let e = SeIpEntry { geo: None, host: Some("h".into()), ip: "1.2.3.4".into(), ports: vec![8443, 1] };
    assert_eq!(e.endpoint(), "h:8443");
    let e = SeIpEntry { geo: None, host: None, ip: "1.2.3.4".into(), ports: vec![] };
    assert_eq!(e.endpoint(), "1.2.3.4:443");
}

#[test]
fn the_engine_follows_the_detector() {
    let config = |enabled: bool, auto_detect: bool| ZeroConfigConfig { enabled, auto_detect, opera_masquerade_sni: "s".into() };
    let mut e = ZeroConfigEngine::new(config(false, true));
    assert_eq!(e.get_state(), ZeroConfigState::Initializing);
    assert_eq!(e.initialize(), ZeroStep::Nothing);
    assert_eq!(e.get_state(), ZeroConfigState::DesyncOnly);
    assert_eq!(e.set_auto_active(true), ZeroStep::Activate);
    assert_eq!(e.set_auto_active(true), ZeroStep::Nothing);
    e.activated();
    assert!(e.is_active());
    assert_eq!(e.activate_tunnel(), ZeroStep::Nothing);
    assert_eq!(e.set_auto_active(false), ZeroStep::Deactivate);
    assert!(!e.is_active());
    assert!(!e.has_tunnel);
    assert_eq!(e.set_auto_active(true), ZeroStep::Activate);
    e.auto_failed();
    assert!(!e.auto_active);
    let mut e = ZeroConfigEngine::new(config(true, false));
    assert_eq!(e.initialize(), ZeroStep::Activate);
    e.initialize_failed();
    assert_eq!(e.get_state(), ZeroConfigState::Failed);
}

#[test]
fn a_proxy_is_chosen() {
    let c = choose_proxy(None).unwrap();
    assert_eq!((c.host.as_str(), c.port), ("eu0.sec-tunnel.com", 443));
    assert!(choose_proxy(Some(vec![])).is_none());
    let c = choose_proxy(Some(vec![SeIpEntry { geo: None, host: None, ip: "9.9.9.9".into(), ports: vec![77] }])).unwrap();
    assert_eq!((c.host.as_str(), c.port), ("9.9.9.9", 77));
}
