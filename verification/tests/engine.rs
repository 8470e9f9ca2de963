use byebyedpi_core::engine::delayed_inject::{DelayedInject, OffloadCounter};
use byebyedpi_core::engine::dispatch::{
    desync_decision, dns_offloaded, is_geo_blocked, kind_of_capture, process_dns, process_fake_ip_traffic,
    process_generic_tcp, process_socks5_redirect, return_from_redirector, route, route_early,
    route_standard, routing_name, tunnel_send, uses_proxy, Bypass, ClampProfile, DesyncResult, EarlyRoute,
    Egress, GenericStep, GeoRegion, ReassemblyState, Routed, RoutingDecision, StandardRoute, TunnelSend,
};
use byebyedpi_core::engine::flow_affinity::{
    classify_flow_key, shard_for_flow, shard_of_hash, unkeyed_input, ConnKey, FlowKey,
};
use byebyedpi_core::engine::journey::{
    after_gate, after_reassembly, after_resolver, after_router, begin, Arrival, Surroundings, Waypoint,
};
use byebyedpi_core::engine::latency::FixedLatencyHist;
use byebyedpi_core::engine::locality::is_outbound_cached;
use byebyedpi_core::engine::outbound::{
    admit_tls, begin_outbound_tls, begin_quic, draw_dscp, fallback_params, finish_outbound,
    observe_connection_outcome, quic_payload, with_learned_ttl, ConnRecord, RouterNote, SeqLog, TlsContext, TlsStep, TuneParams,
};
use byebyedpi_core::engine::packet::{
    apply_inject_direction, CaptureAddress, CapturedPacket, Classification, ClassifiedPacket, InjectDirection,
    InjectProtocol, PacketDecision,
};
use byebyedpi_core::engine::session_ticket::has_non_empty_session_ticket;
use byebyedpi_core::engine::settings::{
    cpu_threads, default_canaries, dns_proxy_settings, enable_quic, idle_step, io_threads,
    pipeline_limits, upstream_proxies, worker_count, ActiveProfiles, IdleStep, ProcessingConfig, ProfileChoice,
    ProfileRef, StrategyCategory, StrategyProfileConfig, TuneOverrides,
};
use byebyedpi_core::engine::stats::{
    deepest, depths_fit, sum_depths, CaptureKind, CaptureMode, CapturePressure, PoolCounters, ProcessingStats,
    ProcessingStatsSnapshot,
};
use byebyedpi_core::engine::transmit::{
    batch_up, schedule_refused, shard_process_one, wants_more, ShardStep, TxAction,
};
use byebyedpi_core::ip::{Endpoint, IpAddress};
use byebyedpi_core::proxy::types::{OperaProxyPool, RedirectEntry, RedirectTable};

fn ip(a: u8, b: u8, c: u8, d: u8) -> IpAddress {
    IpAddress::v4(a, b, c, d)
}

#[test]
fn flow_key_is_bidirectional() {
    let a = ConnKey::new(ip(10, 0, 0, 1), ip(1, 1, 1, 1), 50000, 443, 6);
    let b = ConnKey::new(ip(1, 1, 1, 1), ip(10, 0, 0, 1), 443, 50000, 6);
    let fa = FlowKey::new_bidirectional(a.src_ip, a.dst_ip, a.src_port, a.dst_port, a.proto);
    let fb = FlowKey::new_bidirectional(b.src_ip, b.dst_ip, b.src_port, b.dst_port, b.proto);
    assert_eq!(fa, fb);
}

#[test]
fn same_flow_same_shard() {
    let key = Some(FlowKey::new_bidirectional(ip(10, 0, 0, 1), ip(1, 1, 1, 1), 50000, 443, 6));
    let s1 = shard_for_flow(key, &[], 16);
    let s2 = shard_for_flow(key, &[1, 2, 3], 16);
    assert_eq!(s1, s2);
}

#[test]
fn unknown_flow_fallback_is_stable() {
    let s1 = shard_for_flow(None, &[0x45, 0x00, 0x00, 0x3c], 8);
    let s2 = shard_for_flow(None, &[0x45, 0x00, 0x00, 0x3c], 8);
    assert_eq!(s1, s2);
}

#[test]
fn classify_ipv4_tls_returns_flow_key() {
    let mut pkt = Vec::new();
    pkt.extend_from_slice(&[
        0x45, 0x00, 0x00, 0x3c, 0x00, 0x00, 0x00, 0x00, 0x40, 0x06, 0x00, 0x00, 0x0a, 0x00, 0x00, 0x01,
        0x01, 0x01, 0x01, 0x01,
    ]);
    pkt.extend_from_slice(&[
        0xc3, 0x50, 0x01, 0xbb, 0x00, 0x00, 0x00, 0x01, 0x00, 0x00, 0x00, 0x00, 0x50, 0x18, 0xff, 0xff,
        0x00, 0x00, 0x00, 0x00, 0x16, 0x03, 0x01, 0x00, 0x05, 0x01, 0x00, 0x00, 0x00, 0x00,
    ]);
    let key = classify_flow_key(&pkt);
    assert!(key.is_some());
    let fk = key.unwrap();
    assert_eq!(fk.proto, 6);
    assert!(fk.ip_a == ip(1, 1, 1, 1) || fk.ip_a == ip(10, 0, 0, 1));
    assert_eq!(fk.ip_a, ip(1, 1, 1, 1));
    assert_eq!(fk.port_a, 443);
    assert_eq!(fk.port_b, 50000);
}

#[test]
fn flows_spread_over_the_workers() {
    let mut seen = vec![false; 8];
    for port in 0..200u16 {
        let key = FlowKey::new_bidirectional(ip(10, 0, 0, 1), ip(1, 1, 1, 1), port, 443, 6);
        let s = shard_for_flow(Some(key), &[], 8);
        seen[s] = true;
    }
    assert!(seen.iter().all(|b| *b));
    let mut seen = vec![false; 4];
    for i in 0..200u8 {
        seen[shard_for_flow(None, &[i, 1, 2], 4)] = true;
    }
    assert!(seen.iter().filter(|b| **b).count() > 1);
    assert_eq!(shard_for_flow(None, &[1, 2, 3], 0), 0);
    assert_eq!(shard_of_hash(17, 5), 2);
    assert!(classify_flow_key(&[0x45; 10]).is_none());
    let six = FlowKey::new_bidirectional(IpAddress::V6(1), ip(255, 255, 255, 255), 1, 2, 17);
    assert_eq!(six.ip_a, ip(255, 255, 255, 255));
}

fn build_test_ch_with_session_ticket(ticket_len: usize) -> Vec<u8> {
    let mut ch = Vec::with_capacity(300);
    ch.push(0x16);
    ch.extend_from_slice(&[0x03, 0x01]);
    ch.extend_from_slice(&[0x00, 0x00]);
    ch.push(0x01);
    ch.extend_from_slice(&[0x00, 0x00, 0x00]);
    ch.extend_from_slice(&[0x03, 0x03]);
    ch.extend_from_slice(&[0u8; 32]);
    ch.push(0);
    ch.extend_from_slice(&[0x00, 0x02]);
    ch.extend_from_slice(&[0x13, 0x01]);
    ch.push(1);
    ch.push(0x00);
    let ext_data_len = 4 + ticket_len;
    let ext_total_len = ext_data_len;
    ch.extend_from_slice(&(ext_total_len as u16).to_be_bytes());
    ch.extend_from_slice(&0x0023u16.to_be_bytes());
    ch.extend_from_slice(&(ticket_len as u16).to_be_bytes());
    if ticket_len > 0 {
        ch.extend_from_slice(&vec![0xABu8; ticket_len]);
    }
    let record_len = (ch.len() - 5) as u16;
    ch[3..5].copy_from_slice(&record_len.to_be_bytes());
    let hs_len = (ch.len() - 5 - 4) as u32;
    ch[6..9].copy_from_slice(&hs_len.to_be_bytes()[1..4]);
    ch
}

#[test]
fn test_has_non_empty_session_ticket_empty() {
    let ch = build_test_ch_with_session_ticket(0);
    assert!(!has_non_empty_session_ticket(&ch));
}

#[test]
fn test_has_non_empty_session_ticket_non_empty() {
    let ch = build_test_ch_with_session_ticket(4);
    assert!(has_non_empty_session_ticket(&ch));
}

#[test]
fn test_has_non_empty_session_ticket_not_tls() {
    let ch = build_test_ch_with_session_ticket(4);
    let mut bad = ch.clone();
    bad[0] = 0x17;
    assert!(!has_non_empty_session_ticket(&bad));
}

#[test]
fn test_has_non_empty_session_ticket_not_clienthello() {
    let ch = build_test_ch_with_session_ticket(4);
    let mut bad = ch.clone();
    bad[5] = 0x02;
    assert!(!has_non_empty_session_ticket(&bad));
}

#[test]
fn test_has_non_empty_session_ticket_truncated() {
    assert!(!has_non_empty_session_ticket(&[0x16, 0x03, 0x01, 0x00, 0x05]));
}

#[test]
fn test_has_non_empty_session_ticket_empty_payload() {
    assert!(!has_non_empty_session_ticket(&[]));
}

/// A ClientHello for example.com with a server name, groups and a session
/// ticket of the given length.
fn full_client_hello(ticket_len: usize) -> Vec<u8> {
    let mut ext = Vec::new();
    let name = b"example.com";
    ext.extend_from_slice(&[0x00, 0x00]);
    ext.extend_from_slice(&((name.len() + 5) as u16).to_be_bytes());
    ext.extend_from_slice(&((name.len() + 3) as u16).to_be_bytes());
    ext.push(0);
    ext.extend_from_slice(&(name.len() as u16).to_be_bytes());
    ext.extend_from_slice(name);
    ext.extend_from_slice(&[0x00, 0x0a, 0x00, 0x04, 0x00, 0x02, 0x00, 0x1d]);
    ext.extend_from_slice(&[0x00, 0x23]);
    ext.extend_from_slice(&(ticket_len as u16).to_be_bytes());
    ext.extend_from_slice(&vec![0x5a; ticket_len]);
    ext.extend_from_slice(&[0x00, 0x2b, 0x00, 0x03, 0x02, 0x03, 0x04]);

    let mut body = vec![0x03, 0x03];
    body.extend_from_slice(&[0x11; 32]);
    body.push(32);
    body.extend_from_slice(&[0x22; 32]);
    body.extend_from_slice(&[0x00, 0x04, 0x13, 0x01, 0x13, 0x02]);
    body.extend_from_slice(&[0x01, 0x00]);
    body.extend_from_slice(&(ext.len() as u16).to_be_bytes());
    body.extend_from_slice(&ext);

    let mut ch = vec![0x16, 0x03, 0x01];
    ch.extend_from_slice(&((body.len() + 4) as u16).to_be_bytes());
    ch.push(0x01);
    ch.extend_from_slice(&(body.len() as u32).to_be_bytes()[1..4]);
    ch.extend_from_slice(&body);
    ch
}

#[test]
fn test_has_non_empty_session_ticket_with_real_ch() {
    assert!(has_non_empty_session_ticket(&full_client_hello(192)));
}

#[test]
fn test_has_non_empty_session_ticket_with_normal_ch() {
    assert!(!has_non_empty_session_ticket(&full_client_hello(0)));
}

#[test]
fn test_routing_only_enabled() {
    let mut config = ProcessingConfig::default();
    config.strategies = vec![StrategyProfileConfig {
        name: "socks5_fallback".into(),
        protocol: "tcp".into(),
        params: TuneParams { split_size: None, split_count: None, fake_ttl_offset: None, max_seg_size: None },
        enabled: Some(true),
    }];
    let profiles = ActiveProfiles::new(&config, ProfileChoice { tls: 1, quic: 2, http: 3 });
    assert!(profiles.is_profile_activated("socks5_fallback", false));
    assert!(!profiles.is_profile_activated("dns_doh", false));
    assert!(profiles.is_profile_activated("dns_doh", true));
}

#[test]
fn settings_have_their_numbers() {
    let c = ProcessingConfig::default();
    assert_eq!(c.fake_sni, "www.google.com");
    assert_eq!(c.desync_port, 443);
    assert!(c.only_outbound);
    assert_eq!((worker_count(1), worker_count(8), worker_count(64)), (2, 8, 16));
    assert_eq!((io_threads(1), io_threads(8)), (2, 5));
    assert_eq!((cpu_threads(1), cpu_threads(8)), (2, 8));
    let all = upstream_proxies(false);
    assert_eq!(all.len(), 5);
    assert_eq!(all[0].ip, ip(185, 167, 238, 201));
    assert_eq!(all[4].ip, ip(185, 167, 238, 205));
    assert_eq!(all[0].port, 1080);
    assert_eq!(upstream_proxies(true).len(), 1);
    assert_eq!(pipeline_limits(true, (1, 2, 3)).escalation, (10, 30, 30));
    assert_eq!(pipeline_limits(false, (1, 2, 3)).escalation, (1, 2, 3));
    assert!(enable_quic(&vec!["FakeSni".into(), "QuicPad".into()]));
    assert!(enable_quic(&vec!["UdpCoalescing".into()]));
    assert!(!enable_quic(&vec!["FakeSni".into()]));
    assert!(default_canaries().ends_with("rfc-editor.org,negative\n"));
    let d = dns_proxy_settings("https://doh", 60);
    assert_eq!(d.system_dns_servers, vec!["8.8.8.8".to_string()]);
    assert_eq!(d.adblock_domains.len(), 4);
    assert_eq!(idle_step(0), (1, IdleStep::Spin));
    assert_eq!(idle_step(99), (0, IdleStep::Sleep));
}

#[test]
fn profiles_are_switched_and_reset() {
    let choice = ProfileChoice { tls: 1, quic: 2, http: 3 };
    let mut a = ActiveProfiles::new(&ProcessingConfig::default(), choice);
    let params = TuneParams { split_size: Some(2), split_count: None, fake_ttl_offset: None, max_seg_size: None };
    let p = Some(ProfileRef { id: 9, category: StrategyCategory::Quic, name: "quic_pad".into() });
    assert!(!a.is_profile_activated("quic_pad", false));
    assert!(a.apply_strategy_tune(&p, params));
    assert_eq!(a.resolve_active_profile(StrategyCategory::Quic), 9);
    assert!(a.is_profile_activated("quic_pad", false));
    assert_eq!(a.overrides.override_for("quic_pad"), Some(params));
    assert!(a.clear_strategy_tune(&p, Some(2)));
    assert_eq!(a.choice, choice);
    assert!(!a.is_profile_activated("quic_pad", false));
    assert!(!a.apply_strategy_tune(&None, params));
    assert!(!a.clear_strategy_tune(&None, Some(7)));
    let other = Some(ProfileRef { id: 7, category: StrategyCategory::Other, name: "socks5_fallback".into() });
    assert!(a.apply_strategy_tune(&other, params));
    assert_eq!(a.choice, choice);
    assert!(a.is_profile_activated("socks5_fallback", false));
}

#[test]
fn overrides_are_replaced_and_cleared() {
    let mut o = TuneOverrides::new(&ProcessingConfig::default());
    let params = |n: usize| TuneParams {
        split_size: Some(n),
        split_count: None,
        fake_ttl_offset: None,
        max_seg_size: None,
    };
    o.set_override("a", params(1));
    o.set_override("b", params(2));
    o.set_override("a", params(3));
    assert_eq!(o.override_for("a"), Some(params(3)));
    o.clear_override("a");
    assert_eq!(o.override_for("a"), None);
    assert_eq!(o.override_for("b"), Some(params(2)));
}

#[test]
fn percentiles_of_latencies() {
    let mut h = FixedLatencyHist::new();
    assert_eq!(h.estimate_percentiles(), (0, 0, 0));
    for _ in 0..90 {
        h.observe_us(30);
    }
    for _ in 0..10 {
        h.observe_us(3_000);
    }
    assert_eq!(h.estimate_percentiles(), (37, 3750, 3750));
}

fn cp(src: IpAddress, dst: IpAddress, sport: u16, dport: u16, protocol: u8) -> ClassifiedPacket {
    ClassifiedPacket {
        src_ip: src,
        dst_ip: dst,
        src_port: sport,
        dst_port: dport,
        protocol,
        payload_offset: 40,
        payload_len: 0,
    }
}

const NO_BYPASS: Bypass = Bypass { ip: false, domain: false };

fn addr() -> CaptureAddress {
    CaptureAddress { id: 1, outbound: true }
}

fn tcp_packet(flags: u8, seq: u32) -> Vec<u8> {
    let mut p = vec![0u8; 40];
    p[0] = 0x45;
    p[3] = 40;
    p[8] = 57;
    p[9] = 6;
    p[12..16].copy_from_slice(&[192, 168, 0, 2]);
    p[16..20].copy_from_slice(&[10, 0, 0, 9]);
    p[20..22].copy_from_slice(&50000u16.to_be_bytes());
    p[22..24].copy_from_slice(&443u16.to_be_bytes());
    p[24..28].copy_from_slice(&seq.to_be_bytes());
    p[32] = 0x50;
    p[33] = flags;
    p
}

fn captured(data: Vec<u8>) -> CapturedPacket {
    CapturedPacket { data, addr: addr() }
}

fn pool_of(n: u8) -> OperaProxyPool {
    OperaProxyPool::new((0..n).map(|i| Endpoint { ip: ip(185, 167, 238, 201 + i), port: 1080 }).collect(), 0)
}

#[test]
fn the_first_gate_sorts_traffic() {
    let table = RedirectTable::new();
    let pool = pool_of(1);
    let local = vec![];
    let home = ip(192, 168, 0, 2);
    let far = ip(8, 8, 8, 8);
    let go = |p: &[u8], c: Classification, b: Bypass| route_early(p, &c, b, &table, &pool, &local, true);
    let bypass = Bypass { ip: true, domain: false };
    assert_eq!(go(&[], Classification::Unknown, bypass), EarlyRoute::Standard);
    assert_eq!(go(&[], Classification::Tls(cp(home, far, 5, 443, 6)), bypass), EarlyRoute::Forward);
    assert_eq!(go(&[], Classification::Dns(cp(home, far, 5, 53, 17)), bypass), EarlyRoute::OffloadDns);
    assert_eq!(go(&[], Classification::Dns(cp(home, far, 5, 53, 6)), NO_BYPASS), EarlyRoute::Standard);
    let fake = cp(home, ip(10, 1, 2, 3), 5, 443, 6);
    assert_eq!(go(&[], Classification::Tls(fake), NO_BYPASS), EarlyRoute::FakeIp(fake));
    let to_proxy = cp(home, ip(185, 167, 238, 201), 5, 1080, 6);
    assert_eq!(go(&tcp_packet(2, 1), Classification::Other(to_proxy), NO_BYPASS), EarlyRoute::ProxyTraffic(to_proxy));
    assert!(matches!(
        go(&tcp_packet(0x12, 1), Classification::Other(to_proxy), NO_BYPASS),
        EarlyRoute::AskRouter { has_name: false, .. }
    ));
    assert!(matches!(
        go(&[], Classification::Tls(cp(home, far, 5, 443, 6)), NO_BYPASS),
        EarlyRoute::AskRouter { has_name: true, .. }
    ));
    assert_eq!(go(&[], Classification::Tls(cp(far, home, 443, 5, 6)), NO_BYPASS), EarlyRoute::Forward);
}

#[test]
fn redirected_connections_find_their_way_back() {
    let mut table = RedirectTable::new();
    let mut stats = ProcessingStats::new();
    let pool = pool_of(1);
    let out = cp(ip(192, 168, 0, 2), ip(10, 0, 0, 9), 50000, 443, 6);
    let c = captured(tcp_packet(2, 7));
    let r = process_fake_ip_traffic(&c, &out, Some("a.b".into()), &pool, false, 5, &mut table, &mut stats).unwrap();
    match r {
        PacketDecision::Modify(m) => {
            assert_eq!(&m[16..20], &[127, 0, 0, 1]);
            assert_eq!(&m[22..24], &17650u16.to_be_bytes());
        }
        _ => panic!("the packet is redirected"),
    }
    assert_eq!(stats.dropped, 1);
    assert_eq!(table.get(50000).unwrap().domain.as_deref(), Some("a.b"));
    let back = cp(ip(127, 0, 0, 1), ip(192, 168, 0, 2), 17650, 50000, 6);
    let e = route_early(&[], &Classification::Other(back), Bypass { ip: true, domain: true }, &table, &pool, &vec![], true);
    assert_eq!(e, EarlyRoute::RewriteSource { ip: ip(10, 0, 0, 9), port: 443 });
    match return_from_redirector(&c, ip(10, 0, 0, 9), 443).unwrap() {
        PacketDecision::Modify(m) => assert_eq!(&m[12..16], &[10, 0, 0, 9]),
        _ => panic!("the packet is rewritten"),
    }
}

#[test]
fn stand_in_traffic_fails_open() {
    let mut table = RedirectTable::new();
    let mut stats = ProcessingStats::new();
    let none = pool_of(0);
    let out = cp(ip(192, 168, 0, 2), ip(10, 0, 0, 9), 50000, 443, 6);
    let c = captured(tcp_packet(2, 7));
    let mut go = |c: &CapturedPacket, o: &ClassifiedPacket, d: Option<String>, custom: bool| {
        process_fake_ip_traffic(c, o, d, &none, custom, 5, &mut table, &mut stats).unwrap()
    };
    assert!(matches!(go(&c, &out, Some("a".into()), false), PacketDecision::Forward));
    assert!(matches!(go(&c, &out, None, true), PacketDecision::Forward));
    assert!(matches!(go(&c, &out, Some("a".into()), true), PacketDecision::Modify(_)));
    let udp = cp(ip(192, 168, 0, 2), ip(10, 0, 0, 9), 50000, 443, 17);
    let not_syn = captured(tcp_packet(0x10, 7));
    assert!(matches!(go(&not_syn, &udp, Some("a".into()), true), PacketDecision::Drop));
}

#[test]
fn the_router_is_followed() {
    let mut stats = ProcessingStats::new();
    let tcp = cp(ip(1, 1, 1, 1), ip(2, 2, 2, 2), 1, 2, 6);
    let udp = cp(ip(1, 1, 1, 1), ip(2, 2, 2, 2), 1, 2, 17);
    assert_eq!(route(RoutingDecision::Direct, &tcp, false, &mut stats), Routed::Forward);
    assert_eq!(route(RoutingDecision::Desync, &tcp, false, &mut stats), Routed::Standard);
    assert_eq!(route(RoutingDecision::Proxy, &tcp, true, &mut stats), Routed::Redirect);
    assert_eq!(stats.dropped, 0);
    assert_eq!(route(RoutingDecision::Proxy, &udp, true, &mut stats), Routed::Tunnel);
    assert_eq!(route(RoutingDecision::Proxy, &udp, false, &mut stats), Routed::Drop);
    assert_eq!(route(RoutingDecision::Drop, &tcp, false, &mut stats), Routed::Drop);
    assert_eq!(stats.dropped, 3);
    assert_eq!(tunnel_send(Some(true)), TunnelSend::Queued);
    assert_eq!(tunnel_send(Some(false)), TunnelSend::Alone);
    assert_eq!(tunnel_send(None), TunnelSend::Alone);
    assert!(is_geo_blocked(GeoRegion::Europe));
    assert!(!is_geo_blocked(GeoRegion::Elsewhere));
    assert_eq!(routing_name(None), "unknown");
    assert_eq!(routing_name(Some("a.b")), "a.b");
}

#[test]
fn protocols_take_their_way() {
    let home = ip(192, 168, 0, 2);
    let far = ip(8, 8, 8, 8);
    let p = vec![0u8; 100];
    let local = vec![];
    let go = |c: Classification, hello: bool| route_standard(&p, &c, hello, &local, true, 443);
    let tls = cp(home, far, 5, 443, 6);
    assert_eq!(go(Classification::Tls(tls), true), StandardRoute::GateTls(tls));
    assert_eq!(go(Classification::Tls(tls), false), StandardRoute::ReassembleTls(tls));
    assert_eq!(go(Classification::Tls(cp(home, far, 5, 8443, 6)), true), StandardRoute::Forward);
    assert_eq!(go(Classification::Tls(cp(far, home, 5, 443, 6)), true), StandardRoute::Forward);
    let short = ClassifiedPacket { payload_offset: 101, ..tls };
    assert_eq!(go(Classification::Tls(short), true), StandardRoute::Forward);
    let near_end = ClassifiedPacket { payload_offset: 51, ..tls };
    assert_eq!(go(Classification::Tls(near_end), true), StandardRoute::ReassembleTls(near_end));
    assert_eq!(go(Classification::Quic(tls), true), StandardRoute::Quic(tls));
    assert_eq!(go(Classification::Http(tls), true), StandardRoute::Http(tls));
    assert_eq!(go(Classification::Other(tls), true), StandardRoute::Generic(tls));
    let dns = cp(far, home, 53, 5, 17);
    assert_eq!(go(Classification::Dns(dns), true), StandardRoute::Dns(dns));
    assert_eq!(go(Classification::Unknown, true), StandardRoute::Forward);
    assert!(is_outbound_cached(&local, home));
}

#[test]
fn name_queries_are_offloaded_or_go_on() {
    let mut stats = ProcessingStats::new();
    assert!(matches!(dns_offloaded(false, &mut stats), PacketDecision::Forward));
    assert_eq!(stats.dropped, 0);
    assert!(matches!(dns_offloaded(true, &mut stats), PacketDecision::Drop));
    assert_eq!(stats.dropped, 1);
    let q = cp(ip(1, 1, 1, 1), ip(2, 2, 2, 2), 9, 53, 17);
    assert!(matches!(process_dns(&q, true, true, &mut stats), PacketDecision::Drop));
    assert!(matches!(process_dns(&q, true, false, &mut stats), PacketDecision::Forward));
    let tcp = cp(ip(1, 1, 1, 1), ip(2, 2, 2, 2), 9, 53, 6);
    assert!(matches!(process_dns(&tcp, true, true, &mut stats), PacketDecision::Forward));
    assert_eq!(stats.dropped, 2);
}

#[test]
fn other_tcp_is_clamped_or_redirected() {
    let mut table = RedirectTable::new();
    let mut stats = ProcessingStats::new();
    let c = captured(tcp_packet(2, 7));
    let o = cp(ip(192, 168, 0, 2), ip(9, 9, 9, 9), 50000, 25, 6);
    let pool = pool_of(1);
    let chain = vec![Egress::Direct, Egress::OperaVpn];
    assert!(uses_proxy(&chain));
    assert!(!uses_proxy(&vec![Egress::Direct, Egress::Other]));
    let r = process_socks5_redirect(&c, &o, true, &pool, false, &chain, None, 1, &mut table, &mut stats).unwrap();
    assert!(matches!(r, PacketDecision::Modify(_)));
    assert!(matches!(process_generic_tcp(&c, r, true, true, true, true), GenericStep::Settled(PacketDecision::Modify(_))));
    let r = process_socks5_redirect(&c, &o, false, &pool, false, &chain, None, 1, &mut table, &mut stats).unwrap();
    assert!(matches!(r, PacketDecision::Forward));
    assert!(matches!(process_generic_tcp(&c, PacketDecision::Forward, true, true, true, true), GenericStep::Apply(ClampProfile::Window)));
    assert!(matches!(process_generic_tcp(&c, PacketDecision::Forward, false, true, true, true), GenericStep::Apply(ClampProfile::SegmentSize)));
    assert!(matches!(process_generic_tcp(&c, PacketDecision::Forward, true, false, true, true), GenericStep::Settled(PacketDecision::Forward)));
    let ack = captured(tcp_packet(0x10, 7));
    assert!(matches!(process_generic_tcp(&ack, PacketDecision::Forward, true, true, true, true), GenericStep::Settled(PacketDecision::Forward)));
}

fn result(inject: Vec<Vec<u8>>, modified: Option<Vec<u8>>, drop: bool) -> DesyncResult {
    DesyncResult { inject, modified, drop, inter_delay_us: 100, inject_direction: InjectDirection::ForceInbound }
}

#[test]
fn results_become_decisions() {
    assert!(matches!(desync_decision(result(vec![], None, false), InjectProtocol::Tcp), PacketDecision::Forward));
    assert!(matches!(desync_decision(result(vec![], None, true), InjectProtocol::Tcp), PacketDecision::Drop));
    assert!(matches!(desync_decision(result(vec![], Some(vec![1]), true), InjectProtocol::Tcp), PacketDecision::Modify(_)));
    assert!(matches!(
        desync_decision(result(vec![vec![1]], None, true), InjectProtocol::Udp),
        PacketDecision::Desync { modified: None, inject_protocol: InjectProtocol::Udp, drop_original: true, .. }
    ));
}

#[test]
fn captures_are_counted_by_kind() {
    let c = cp(ip(1, 1, 1, 1), ip(2, 2, 2, 2), 9, 443, 6);
    let mut p = vec![0u8; 60];
    p[40] = 0xc3;
    p[44] = 1;
    assert_eq!(kind_of_capture(&p, &Classification::Tls(c), true), CaptureKind::ClientHello);
    assert_eq!(kind_of_capture(&p, &Classification::Tls(c), false), CaptureKind::Other);
    assert_eq!(kind_of_capture(&p, &Classification::Quic(c), false), CaptureKind::QuicInitial);
    assert_eq!(kind_of_capture(&[0; 60], &Classification::Quic(c), false), CaptureKind::Other);
    assert_eq!(kind_of_capture(&p, &Classification::Dns(c), false), CaptureKind::Dns);
    assert_eq!(kind_of_capture(&p, &Classification::Unknown, false), CaptureKind::Other);
    let mut stats = ProcessingStats::new();
    stats.count_captured(CaptureKind::ClientHello);
    stats.count_captured(CaptureKind::QuicInitial);
    stats.count_captured(CaptureKind::Dns);
    stats.count_captured(CaptureKind::Other);
    assert_eq!(
        (stats.capture_tls_ch, stats.capture_quic_initial, stats.capture_dns, stats.capture_other),
        (1, 1, 1, 1)
    );
}

#[test]
fn snapshots_read_all_counters() {
    let mut stats = ProcessingStats::new();
    assert_eq!(stats.snapshot(None, &vec![]), ProcessingStatsSnapshot::default());
    stats.count_received(3);
    stats.count_forwarded(2);
    stats.count_error();
    stats.count_queue_full();
    stats.count_filter_failure();
    stats.desync_application_latency_us.observe_us(12);
    stats.observe_window(
        &CapturePressure { rx_pps: 9, drop_ratio_ppm: 8, other_udp443_pps: 7, max_worker_queue_depth: 6 },
        Some(CaptureMode::SafeFallback),
    );
    let pool = PoolCounters { acquire_total: 1, acquire_miss: 2, release_success: 3, release_refcount_failed: 4, capacity: 5 };
    let s = stats.snapshot(Some(pool), &vec![4, 5]);
    assert_eq!(s.total_received, 3);
    assert_eq!(s.forwarded, 2);
    assert_eq!(s.errors, 1);
    assert_eq!(s.shard_queue_full, 1);
    assert_eq!(s.capture_filter_update_failures_total, 1);
    assert_eq!(s.shard_queue_depth_current, 9);
    assert_eq!(s.capture_mode, 2);
    assert_eq!(s.capture_rx_pps, 9);
    assert_eq!(s.pool_capacity, 5);
    assert_eq!(s.desync_application_latency_us_p50, 5);
    assert_eq!(sum_depths(&vec![1, 2, 3]), 6);
    assert_eq!(deepest(&vec![1, 9, 3]), 9);
    assert_eq!(deepest(&vec![]), 0);
}

#[test]
fn malformed_packets_are_counted_and_left_out() {
    let mut stats = ProcessingStats::new();
    assert!(!stats.validate_packet_and_log(&[]));
    assert_eq!(stats.invariant_too_short, 1);
    assert_eq!(stats.dropped, 1);
    let steps = shard_process_one(captured(tcp_packet(2, 1)), Some(PacketDecision::Modify(vec![0x70])), &mut stats);
    assert!(steps.is_empty());
    assert_eq!(stats.invariant_unsupported_ip_version, 1);
}

#[test]
fn workers_send_extra_packets_first() {
    let mut stats = ProcessingStats::new();
    let fake = tcp_packet(0x18, 5);
    let d = PacketDecision::Desync {
        inject: vec![fake.clone(), vec![], fake.clone()],
        modified: None,
        inject_protocol: InjectProtocol::Tcp,
        inter_delay_us: 100,
        inject_direction: InjectDirection::ForceInbound,
        drop_original: false,
    };
    let steps = shard_process_one(captured(tcp_packet(2, 1)), Some(d), &mut stats);
    assert_eq!(steps.len(), 3);
    match &steps[0] {
        ShardStep::Send(TxAction::Inject(_, a)) => assert!(!a.outbound),
        _ => panic!("the first extra packet is not delayed"),
    }
    assert!(matches!(&steps[1], ShardStep::Schedule { delay_us: 200, .. }));
    assert!(matches!(&steps[2], ShardStep::Send(TxAction::Forward(_, _))));
    assert_eq!(stats.dropped, 1);
    let d = PacketDecision::Desync {
        inject: vec![fake.clone()],
        modified: Some(fake.clone()),
        inject_protocol: InjectProtocol::Udp,
        inter_delay_us: 0,
        inject_direction: InjectDirection::PreserveOriginal,
        drop_original: true,
    };
    let steps = shard_process_one(captured(tcp_packet(2, 1)), Some(d), &mut stats);
    assert!(matches!(&steps[0], ShardStep::RawUdp(_)));
    assert!(matches!(&steps[1], ShardStep::Send(TxAction::Forward(_, _))));
    assert_eq!(stats.fake_ch_injected, 1);
    let steps = shard_process_one(captured(vec![1, 2]), None, &mut stats);
    assert_eq!(steps.len(), 1);
    assert_eq!(stats.errors, 1);
    assert!(shard_process_one(captured(vec![1]), Some(PacketDecision::Drop), &mut stats).is_empty());
    assert!(matches!(schedule_refused(vec![1], addr(), InjectProtocol::Tcp), ShardStep::Send(TxAction::Inject(_, _))));
    assert!(matches!(schedule_refused(vec![1], addr(), InjectProtocol::Udp), ShardStep::RawUdp(_)));
    assert!(wants_more(63));
    assert!(!wants_more(64));
}

#[test]
fn directions_are_applied() {
    let a = CaptureAddress { id: 3, outbound: false };
    assert!(apply_inject_direction(&a, InjectDirection::ForceOutbound).outbound);
    assert!(apply_inject_direction(&a, InjectDirection::DerivedFromPacketTuple).outbound);
    assert!(!apply_inject_direction(&a, InjectDirection::PreserveOriginal).outbound);
    assert_eq!(apply_inject_direction(&a, InjectDirection::ForceInbound).id, 3);
}

#[test]
fn batches_keep_the_order() {
    let f = |n: u8| TxAction::Forward(vec![n], addr());
    let j = |n: u8| TxAction::Inject(vec![n], addr());
    let b = batch_up(vec![f(1), f(2), j(3), f(4)]);
    assert_eq!(b.len(), 3);
    assert!(!b[0].inject);
    assert_eq!(b[0].packets.len(), 2);
    assert!(b[1].inject);
    assert_eq!(b[2].packets[0].0, vec![4]);
    assert!(batch_up(vec![]).is_empty());
}

#[test]
fn delayed_packets_leave_in_order() {
    let mut d = DelayedInject::new();
    assert_eq!(d.wait_us(0), 10_000);
    d.push(DelayedInject::scheduled(100, 50, vec![2], addr()));
    d.push(DelayedInject::scheduled(100, 20, vec![1], addr()));
    d.push(DelayedInject::scheduled(100, 50, vec![3], addr()));
    assert_eq!(d.wait_us(100), 20);
    assert!(d.pop_due(119).is_none());
    assert_eq!(d.pop_due(120).unwrap().data, vec![1]);
    assert_eq!(d.pop_due(150).unwrap().data, vec![2]);
    assert_eq!(d.pop_due(150).unwrap().data, vec![3]);
    assert!(d.pop_due(999).is_none());
    assert!(d.try_schedule(true));
    assert!(!d.try_schedule(false));
    d.note_sent();
    assert_eq!((d.dropped(), d.sent()), (1, 1));
    let mut c = OffloadCounter::new();
    assert!(c.note(true));
    assert!(!c.note(false));
    assert_eq!(c.dropped(), 1);
}

#[test]
fn a_second_pass_is_turned_away() {
    let mut log = SeqLog::new();
    let mut stats = ProcessingStats::new();
    let c = captured(tcp_packet(0x18, 1));
    let first = admit_tls(&c, 77, false, true, 0, &mut log, &mut stats);
    let second = admit_tls(&c, 77, false, true, 0, &mut log, &mut stats);
    let count = [first, second].iter().filter(|b| **b).count();
    assert_eq!(count, 1);
    assert_eq!(stats.tls_outbound, 2);
    assert!(admit_tls(&c, 78, false, true, 0, &mut log, &mut stats));
    log.evict(40_000_000);
    assert!(admit_tls(&c, 77, false, true, 40_000_000, &mut log, &mut stats));
    log.evict(40_000_001);
    assert!(!log.check_and_mark(77, 1, 40_000_002));
    assert!(!admit_tls(&captured(tcp_packet(0x18, 2)), 77, true, true, 0, &mut log, &mut stats));
}

#[test]
fn tls_connections_are_remembered() {
    let mut log = SeqLog::new();
    let mut stats = ProcessingStats::new();
    let mut data = tcp_packet(0x18, 900);
    data.extend_from_slice(&full_client_hello(16));
    let c = captured(data);
    let tls = cp(ip(192, 168, 0, 2), ip(8, 8, 8, 8), 50000, 443, 6);
    let context = TlsContext {
        conn_id: 5,
        domain: Some("a.b".into()),
        excluded: false,
        geo_routing_enabled: true,
        hop_tab_enabled: true,
        dscp_spoof: 12,
        now_us: 99,
    };
    let mut conn = match begin_outbound_tls(&c, &tls, &context, None, &mut log, &mut stats) {
        TlsStep::Apply { conn, is_resumption, ttl } => {
            assert!(is_resumption);
            assert_eq!(ttl, Some(57));
            conn
        }
        TlsStep::Forward => panic!("the packet is worked on"),
    };
    assert_eq!(conn.dscp_spoof, 12);
    assert_eq!(conn.client_isn, 0);
    assert_eq!(conn.route_key.as_deref(), Some("a.b"));
    assert!(matches!(begin_outbound_tls(&c, &tls, &context, None, &mut log, &mut stats), TlsStep::Forward));
    conn.touch_tls(&tcp_packet(2, 1234), &None, 100);
    assert_eq!(conn.client_isn, 1234);
    let d = finish_outbound(&mut conn, "outbound_tls", result(vec![], None, false), InjectProtocol::Tcp);
    assert!(matches!(d, PacketDecision::Forward));
    assert!(conn.applied_strategy.is_none());
    finish_outbound(&mut conn, "outbound_tls", result(vec![vec![1]], None, false), InjectProtocol::Tcp);
    finish_outbound(&mut conn, "other", result(vec![vec![1]], None, false), InjectProtocol::Tcp);
    assert_eq!(conn.applied_strategy.as_deref(), Some("outbound_tls"));
    let q = begin_quic(None, Some(vec![1, 2]), &None, 3, 4);
    let q = begin_quic(Some(q), Some(vec![9]), &Some("q.r".into()), 7, 5);
    assert_eq!(q.dscp_spoof, 3);
    assert_eq!(q.last_activity_us, 5);
    assert!(begin_quic(None, None, &None, 3, 4).quic_dcid.is_empty());
    assert_eq!(quic_payload(&c, &tls), Some(full_client_hello(16)));
    assert_eq!(quic_payload(&captured(vec![0; 40]), &tls), None);
    assert_eq!(q.route_key.as_deref(), Some("q.r"));
    assert_eq!(q.quic_dcid, vec![1, 2]);
}

#[test]
fn outcomes_are_observed() {
    let c = ClassifiedPacket { payload_len: 0, ..cp(ip(8, 8, 8, 8), ip(192, 168, 0, 2), 443, 50000, 6) };
    let r = observe_connection_outcome(&tcp_packet(0x04, 1), &c, true, true, true);
    assert_eq!(r.router, RouterNote::Reset);
    assert_eq!(r.outcome, Some(false));
    let r = observe_connection_outcome(&tcp_packet(0x12, 1), &c, true, true, true);
    assert_eq!(r.router, RouterNote::Working(0));
    assert_eq!(r.outcome, Some(true));
    let data = ClassifiedPacket { payload_len: 9, ..c };
    let r = observe_connection_outcome(&tcp_packet(0x10, 1), &data, true, true, false);
    assert_eq!(r.router, RouterNote::Working(9));
    assert_eq!(r.outcome, None);
    let udp = ClassifiedPacket { protocol: 17, ..c };
    assert_eq!(observe_connection_outcome(&tcp_packet(0x04, 1), &udp, true, true, true).outcome, None);
    assert_eq!(fallback_params(true).fake_ttl_offset, Some(2));
    let p = TuneParams { split_size: None, split_count: None, fake_ttl_offset: None, max_seg_size: None };
    assert_eq!(with_learned_ttl(p, true, Some(4)).fake_ttl_offset, Some(4));
    assert_eq!(with_learned_ttl(p, false, Some(4)).fake_ttl_offset, None);
}

#[test]
fn redirect_entries_expire() {
    let mut table = RedirectTable::new();
    for (port, at) in [(1u16, 10u64), (2, 50)] {
        table.insert(port, RedirectEntry { orig_dst_ip: ip(8, 8, 8, 8), orig_dst_port: 1, domain: None, created_us: at });
    }
    table.sweep_stale(60, 50);
    assert!(table.get(1).is_none());
    assert!(table.get(2).is_some());
}

fn surroundings() -> Surroundings {
    Surroundings {
        local: vec![],
        only_outbound: true,
        desync_port: 443,
        custom_enabled: false,
        doh_registered: true,
        doh_active: true,
    }
}

fn arrival(data: Vec<u8>, class: Classification) -> Arrival {
    Arrival { captured: captured(data), class, client_hello: true, bypass: NO_BYPASS, domain: None, now_us: 7 }
}

#[test]
fn a_client_hello_passes_all_gates() {
    let mut table = RedirectTable::new();
    let mut stats = ProcessingStats::new();
    let tls = cp(ip(192, 168, 0, 2), ip(8, 8, 8, 8), 50000, 443, 6);
    let mut data = tcp_packet(0x18, 1);
    data.extend_from_slice(&full_client_hello(0));
    let a = arrival(data, Classification::Tls(tls));
    let s = surroundings();
    let w = begin(&a, &s, &pool_of(1), &mut table, &mut stats);
    assert!(matches!(w, Waypoint::AskRouter { has_name: true, .. }));
    let w = after_router(&a, &s, &tls, RoutingDecision::Desync, false, &mut table, &mut stats);
    assert!(matches!(w, Waypoint::AskGate(_)));
    assert!(matches!(after_gate(&tls, true), Waypoint::WorkTls(_)));
    assert!(matches!(after_gate(&tls, false), Waypoint::Decided(PacketDecision::Forward)));
    assert_eq!(stats.dropped, 0);
}

#[test]
fn of_two_askings_one_is_worked_on() {
    let mut data = vec![
        0x45, 0, 0, 96, 0, 0, 0, 0, 0x40, 6, 0, 0, 127, 0, 0, 1, 127, 0, 0, 1, // IPv4
        0x30, 0x39, 0x01, 0xbb, 0, 0, 0, 1, 0, 0, 0, 0, 0x50, 0x18, 0xff, 0xff, 0, 0, 0, 0, // TCP
        0x16, 0x03, 0x01, 0x00, 0x36, 0x01, // ClientHello
    ];
    data.extend_from_slice(&[0; 50]);
    let tls = cp(ip(127, 0, 0, 1), ip(127, 0, 0, 1), 12345, 443, 6);
    let mut table = RedirectTable::new();
    let mut stats = ProcessingStats::new();
    let s = surroundings();
    let mut conn = ConnRecord::open_tls(&data, &None, 0, 7);
    let mut worked = 0;
    for _ in 0..2 {
        let a = arrival(data.clone(), Classification::Tls(tls));
        let w = after_router(&a, &s, &tls, RoutingDecision::Desync, false, &mut table, &mut stats);
        assert!(matches!(w, Waypoint::AskGate(_)));
        match after_gate(&tls, conn.check_and_apply_desync()) {
            Waypoint::WorkTls(_) => worked += 1,
            Waypoint::Decided(d) => assert!(matches!(d, PacketDecision::Forward)),
            _ => panic!("nothing else comes of asking"),
        }
    }
    assert_eq!(worked, 1);
    assert!(conn.desync_applied);
}

#[test]
fn drawn_code_points_are_below_48() {
    for _ in 0..1000 {
        assert!(draw_dscp() < 48);
    }
}

#[test]
fn depths_that_do_not_add_up_are_found() {
    assert!(depths_fit(&vec![1, 2, usize::MAX - 3]));
    assert!(!depths_fit(&vec![4, usize::MAX - 3]));
    let mut hist = FixedLatencyHist::new();
    hist.observe_us(5);
    assert!(hist.total_fits());
}

#[test]
fn parts_of_a_client_hello_wait_for_the_rest() {
    let tls = cp(ip(192, 168, 0, 2), ip(8, 8, 8, 8), 50000, 443, 6);
    assert!(matches!(after_reassembly(&tls, ReassemblyState::Complete), Waypoint::AskGate(_)));
    for state in [ReassemblyState::NeedMore, ReassemblyState::NotTls, ReassemblyState::TooLarge] {
        assert!(matches!(after_reassembly(&tls, state), Waypoint::Decided(PacketDecision::Forward)));
    }
}

#[test]
fn the_router_ends_most_journeys() {
    let mut table = RedirectTable::new();
    let mut stats = ProcessingStats::new();
    let tls = cp(ip(192, 168, 0, 2), ip(8, 8, 8, 8), 50000, 443, 6);
    let a = arrival(tcp_packet(2, 1), Classification::Tls(tls));
    let s = surroundings();
    let mut go = |d: RoutingDecision, cp: &ClassifiedPacket, up: bool| {
        after_router(&a, &s, cp, d, up, &mut table, &mut stats)
    };
    assert!(matches!(go(RoutingDecision::Direct, &tls, true), Waypoint::Decided(PacketDecision::Forward)));
    assert!(matches!(go(RoutingDecision::Drop, &tls, true), Waypoint::Decided(PacketDecision::Drop)));
    assert!(matches!(go(RoutingDecision::Proxy, &tls, true), Waypoint::Decided(PacketDecision::Modify(_))));
    let udp = ClassifiedPacket { protocol: 17, ..tls };
    assert!(matches!(go(RoutingDecision::Proxy, &udp, true), Waypoint::Tunnel(p) if p == tcp_packet(2, 1)));
    assert!(matches!(go(RoutingDecision::Proxy, &udp, false), Waypoint::Decided(PacketDecision::Drop)));
    assert_eq!(stats.dropped, 4);
    assert_eq!(table.get(50000).unwrap().orig_dst_port, 443);
}

#[test]
fn journeys_end_early() {
    let mut table = RedirectTable::new();
    let mut stats = ProcessingStats::new();
    let pool = pool_of(1);
    let s = surroundings();
    let home = ip(192, 168, 0, 2);
    let query = cp(home, ip(8, 8, 8, 8), 5, 53, 17);
    let w = begin(&arrival(tcp_packet(2, 1), Classification::Dns(query)), &s, &pool, &mut table, &mut stats);
    match w {
        Waypoint::OfferToResolver(q) => {
            assert_eq!(q.data, tcp_packet(2, 1));
            assert_eq!(q.addr, CaptureAddress { outbound: false, ..addr() });
        }
        _ => panic!("the query is offered to the resolver"),
    }
    assert!(matches!(after_resolver(false, &mut stats), Waypoint::Decided(PacketDecision::Forward)));
    assert!(matches!(after_resolver(true, &mut stats), Waypoint::Decided(PacketDecision::Drop)));
    let back = cp(ip(127, 0, 0, 1), home, 17650, 50000, 6);
    table.insert(50000, RedirectEntry { orig_dst_ip: IpAddress::V6(1), orig_dst_port: 1, domain: None, created_us: 0 });
    let w = begin(&arrival(tcp_packet(2, 1), Classification::Other(back)), &s, &pool, &mut table, &mut stats);
    assert!(matches!(w, Waypoint::Failed(_)));
    let w = begin(&arrival(vec![], Classification::Unknown), &s, &pool, &mut table, &mut stats);
    assert!(matches!(w, Waypoint::Decided(PacketDecision::Forward)));
    let stand_in = cp(home, ip(10, 0, 0, 9), 50001, 443, 6);
    let mut a = arrival(tcp_packet(2, 1), Classification::Tls(stand_in));
    a.domain = Some("a.b".into());
    let w = begin(&a, &s, &pool, &mut table, &mut stats);
    assert!(matches!(w, Waypoint::Decided(PacketDecision::Modify(_))));
    assert_eq!(table.get(50001).unwrap().domain.as_deref(), Some("a.b"));
}

#[test]
fn packets_without_a_key_go_by_length_and_head() {
    let mut a: Vec<u8> = (0u8..40).collect();
    assert_eq!(unkeyed_input(&a), (40, (0u8..16).collect::<Vec<u8>>()));
    assert_eq!(unkeyed_input(&a[..3]), (3, vec![0, 1, 2]));
    let before = shard_for_flow(None, &a, 8);
    a[16] = 99;
    a[39] = 7;
    assert_eq!(shard_for_flow(None, &a, 8), before);
}
