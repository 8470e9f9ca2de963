use byebyedpi_core::text::push_hundredths;
use byebyedpi_core::probe::classifier::{
    ConnectionStage, DnsFailureCode, HttpFailureCode, ProbeVerdict, TcpFailureCode, TlsFailureCode,
};
use byebyedpi_core::probe::config::ProbeConfig;
use byebyedpi_core::probe::dns_probe::DnsProbeResult;
use byebyedpi_core::probe::http_probe::{
    add_part, compute_headers_size, is_same_site, judge, needs_body, probe_url, BodyOutcome, HeaderField,
    HttpExchange, HttpProbeResult,
};
use byebyedpi_core::probe::ml_classifier::{feature_name, rank, MlClassifier, MlResult, MlVerdict};
use byebyedpi_core::probe::quic_probe::{QuicProbeResult, QuicVerdict};
use byebyedpi_core::probe::tcp16_probe::{
    average_rtt_us, generate_padding, hex_encode, padded_request, plain_request, request_timeout_us,
    Tcp16Probe, Tcp16ProbeResult,
};
use byebyedpi_core::probe::tcp_probe::{pick_winner, ConnectAttempt, TcpProbe, TcpProbeResult};
use byebyedpi_core::probe::timing_probe::{variance, FeatureFacts, FeatureVector, Ratio, TimingProbe};
use byebyedpi_core::probe::tls_probe::{
    classify_handshake_error, conclude, judge_attempt, needs_https_check, needs_tls12, HandshakeFailure,
    RawHandshakeFeatures, TlsObservation, TlsProbeResult, VersionAttempt,
};
use byebyedpi_core::probe::{ProbeResult, ProbeSession, ProbeStep};

fn field(name: &str, value: &str) -> HeaderField {
    HeaderField { name: name.as_bytes().to_vec(), value: value.as_bytes().to_vec() }
}

#[test]
fn test_compute_headers_size_empty() {
    assert_eq!(compute_headers_size(&[]), 17);
}

#[test]
fn test_compute_headers_size_with_values() {
    let headers = [field("content-type", "text/html"), field("content-length", "1234")];
    assert_eq!(compute_headers_size(&headers), 64);
}

#[test]
fn test_tls_handshake_error_types() {
    let verdict = TlsFailureCode::SilentDrop;
    assert!(verdict.is_tls_fail());
    let ok = TlsFailureCode::HandshakeOk;
    assert!(!ok.is_tls_fail());
}

#[test]
fn test_default_config() {
    let config = ProbeConfig::default();
    assert_eq!(config.dns_udp_servers.len(), 3);
    assert_eq!(config.dns_doh_urls.len(), 2);
    assert_eq!(config.tcp_race_count, 3);
    assert_eq!(config.dns_timeout_ms, 3000);
    assert_eq!(config.tcp_connect_timeout_ms, 3000);
    assert_eq!(config.tcp16_requests, 16);
    assert_eq!(config.tcp16_pad_size, 4096);
    assert_eq!(config.tcp16_timeout_factor_milli, 3000);
    assert_eq!(config.tcp16_min_timeout_ms, 1500);
    assert_eq!(config.hot_ttl_secs, 86400);
    assert_eq!(config.probe_interval_secs, 300);
    assert_eq!(config.promote_threshold, 50);
    assert_eq!(config.family_threshold, 10);
    assert_eq!(config.rkn_stub_substrings.len(), 10);
    assert_eq!(config.rkn_stub_substrings[0], "роскомнадзор");
}

#[test]
fn test_generate_padding() {
    let padding = generate_padding(0x1122_3344_5566_7788, 4096);
    assert_eq!(padding.len(), 4096);
    assert_eq!(&padding[..4], &[0x88, 0x77, 0x66, 0x55]);
    assert_eq!(generate_padding(u64::MAX, 2), vec![0xff, 0x00]);
}

#[test]
fn test_hex_encode() {
    assert_eq!(hex_encode(&[0x00, 0xFF, 0xAB]), "00ffab");
}

#[test]
fn test_tcp16_uses_config() {
    let config = ProbeConfig {
        tcp16_requests: 8,
        tcp16_pad_size: 2048,
        tcp16_timeout_factor_milli: 2000,
        tcp16_min_timeout_ms: 1000,
        ..ProbeConfig::default()
    };
    let probe = Tcp16Probe::new(config);
    assert_eq!(probe.config.tcp16_requests, 8);
    assert_eq!(probe.config.tcp16_pad_size, 2048);
}

#[test]
fn volume_results_count_kilobytes() {
    let probe = Tcp16Probe::new(ProbeConfig::default());
    let r = probe.volume_result(Some(4), 12000);
    assert!(r.detected);
    assert_eq!(r.detected_at_kb, 16);
    assert_eq!(r.requests_sent, 5);
    assert_eq!(r.rtt_us, 12000);
    let r = probe.volume_result(None, 7);
    assert!(!r.detected);
    assert_eq!(r.requests_sent, 16);
}

#[test]
fn request_timeouts_stay_in_bounds() {
    let config = ProbeConfig::default();
    assert_eq!(request_timeout_us(&config, 100), 1_500_000);
    assert_eq!(request_timeout_us(&config, 1_000_000), 3_000_000);
    assert_eq!(request_timeout_us(&config, u64::MAX), 12_000_000);
    assert_eq!(average_rtt_us(30, 2), 15);
    assert_eq!(average_rtt_us(30, 0), 5_000_000);
}

#[test]
fn volume_requests_are_spelled_out() {
    assert_eq!(plain_request("a.b"), "HEAD / HTTP/1.1\r\nHost: a.b\r\nConnection: keep-alive\r\n\r\n");
    assert_eq!(
        padded_request("a.b", &[0xab, 0x01]),
        "HEAD / HTTP/1.1\r\nHost: a.b\r\nX-Pad: ab01\r\nConnection: keep-alive\r\n\r\n"
    );
}

#[test]
fn test_empty_ips() {
    let probe = TcpProbe::new(ProbeConfig::default());
    assert_eq!(probe.race_size(0), 0);
    assert_eq!(pick_winner(&vec![]).verdict, TcpFailureCode::Timeout);
}

#[test]
fn the_first_connection_wins_the_race() {
    let probe = TcpProbe::new(ProbeConfig::default());
    let a = probe.single_result(1, &ConnectAttempt::Failed { error: "Connection REFUSED (os error 111)".into(), elapsed_us: 5 });
    let b = probe.single_result(2, &ConnectAttempt::Connected { elapsed_us: 9 });
    let c = probe.single_result(3, &ConnectAttempt::TimedOut);
    assert_eq!(a.verdict, TcpFailureCode::Refused);
    assert_eq!(c.rtt_us, 3_000_000);
    assert_eq!(pick_winner(&vec![a, b, c]).ip, Some(2));
    assert_eq!(pick_winner(&vec![c, a]).verdict, TcpFailureCode::Timeout);
    assert_eq!(probe.race_size(10), 3);
    let reset = probe.single_result(4, &ConnectAttempt::Failed { error: "Connection reset by peer".into(), elapsed_us: 1 });
    assert_eq!(reset.verdict, TcpFailureCode::Reset);
    let gone = probe.single_result(4, &ConnectAttempt::Failed { error: "No route to host".into(), elapsed_us: 1 });
    assert_eq!(gone.verdict, TcpFailureCode::Unreachable);
}

#[test]
fn test_feature_vector_to_vec_length() {
    let fv = FeatureVector::empty();
    assert_eq!(fv.to_vec().len(), 17);
}

#[test]
fn test_timing_probe_durations() {
    let mut probe = TimingProbe::new();
    probe.mark_tcp_start(1_000_000);
    probe.mark_tcp_end(1_010_000);
    let facts = FeatureFacts {
        dns_udp_response_size: 100,
        dns_doh_response_size: 200,
        tcp_connect_ok: true,
        tls_handshake_ok: true,
        tls_server_hello_size: 100,
        tls_cert_count: 3,
        http_response_size: 1024,
        http_status_code: 200,
    };
    let fv = probe.build_feature_vector(&facts);
    assert!(fv.tcp_connect_rtt_ms >= 8 && fv.tcp_connect_rtt_ms <= 50);
    assert!(fv.tcp_connect_ok);
    assert!(fv.tls_handshake_ok);
    assert_eq!(fv.http_status_code, 200);
}

fn value(r: Ratio) -> f64 {
    r.num as f64 / r.den as f64
}

#[test]
fn test_variance_empty() {
    assert_eq!(value(variance(&[])), 0.0);
}

#[test]
fn test_variance_uniform() {
    assert_eq!(value(variance(&[5, 5, 5])), 0.0);
}

#[test]
fn test_variance_non_uniform() {
    let v = value(variance(&[1, 5, 9]));
    assert!(v > 0.0);
    assert!((v - 10.6667).abs() < 0.1);
    assert_eq!(variance(&[1, 5, 9]), Ratio { num: 96, den: 9 });
}

#[test]
fn set_lengths_are_read_back() {
    let mut probe = TimingProbe::new();
    probe.set_dns_udp_rtt(5, 40);
    probe.set_dns_doh_rtt(5, 70);
    probe.mark_http_start(100);
    probe.set_http_first_byte_rtt(999, 12);
    probe.set_http_total_rtt(999, 30);
    let fv = probe.build_feature_vector(&FeatureFacts {
        dns_udp_response_size: 0,
        dns_doh_response_size: 0,
        tcp_connect_ok: false,
        tls_handshake_ok: false,
        tls_server_hello_size: 0,
        tls_cert_count: 0,
        http_response_size: 0,
        http_status_code: 0,
    });
    assert_eq!(fv.dns_udp_rtt_ms, 40);
    assert_eq!(fv.dns_doh_rtt_ms, 70);
    assert_eq!(fv.http_first_byte_rtt_ms, 12);
    assert_eq!(fv.http_total_rtt_ms, 30);
    assert_eq!(fv.http_tls_ratio, Ratio { num: 0, den: 1 });
}

#[test]
fn test_feature_name() {
    assert_eq!(feature_name(0), "dns_udp_rtt_ms");
    assert_eq!(feature_name(13), "http_status_code");
    assert_eq!(feature_name(16), "inter_phase_jitter");
    assert_eq!(feature_name(17), "unknown_17");
}

#[test]
fn test_top_features_returned() {
    let result = MlClassifier::new().judge(731_058, &vec![0; 17]);
    assert_eq!(result.top_features.len(), 3);
    assert_eq!(result.top_features[0].0, "dns_udp_rtt_ms");
}

#[test]
fn leaders_are_ranked_and_stable() {
    assert_eq!(rank(&vec![5, 9, 9, 1, 7], 3), vec![1, 2, 4]);
    assert_eq!(rank(&vec![5], 3), vec![0]);
}

#[test]
fn scores_are_judged_by_their_thresholds() {
    let c = MlClassifier::default();
    assert_eq!(c.judge(700_001, &vec![]).verdict, MlVerdict::Blocked);
    assert_eq!(c.judge(700_000, &vec![]).verdict, MlVerdict::Suspicious);
    assert_eq!(c.judge(300_000, &vec![]).verdict, MlVerdict::Suspicious);
    assert_eq!(c.judge(299_999, &vec![]).verdict, MlVerdict::Clear);
    assert_eq!(c.weights[5], -3000);
    assert_eq!(c.bias, 1000);
}

#[test]
fn test_default_probe_results() {
    let dns = DnsProbeResult::default();
    assert_eq!(dns.verdict, DnsFailureCode::DnsOk);
    assert!(dns.resolved_ips.is_empty());
    assert_eq!(dns.latency_us, 0);
    assert!(!dns.fake_ip_detected);

    let tcp = TcpProbeResult::default();
    assert_eq!(tcp.verdict, TcpFailureCode::ConnectOk);
    assert_eq!(tcp.rtt_us, 0);
    assert!(tcp.ip.is_none());

    let tls = TlsProbeResult::default();
    assert!(!tls.verdict.is_tls_fail());
    assert_eq!(tls.server_hello_size, 0);
    assert_eq!(tls.cert_count, 0);

    let http = HttpProbeResult::default();
    assert_eq!(http.verdict, HttpFailureCode::HttpOk);
    assert_eq!(http.status_code, 0);
    assert_eq!(http.bytes_read, 0);

    let tcp16 = Tcp16ProbeResult::default();
    assert!(!tcp16.detected);
}

#[test]
fn test_default_ml_and_probe_result() {
    assert_eq!(MlVerdict::default(), MlVerdict::Clear);
    let ml = MlResult::default();
    assert_eq!(ml.score, 0);
    assert_eq!(ml.verdict, MlVerdict::Clear);
    assert!(ml.top_features.is_empty());

    let pr = ProbeResult::default();
    assert_eq!(pr.verdict, ProbeVerdict::Ambiguous);
    assert_eq!(pr.confidence, 0);
    assert!(pr.domain.is_empty());
    assert!(pr.ip.is_none());
    assert_eq!(pr.dns.verdict, DnsFailureCode::DnsOk);
    assert_eq!(pr.tcp.verdict, TcpFailureCode::ConnectOk);
    assert!(pr.tls.is_none());
    assert!(pr.http.is_none());
    assert!(pr.tcp16.is_none());
    assert!(pr.discrimination.is_none());
    assert!(pr.ja4.is_none());
    assert!(pr.quic.is_none());
    assert!(pr.quic_verdict.is_none());
    assert!(pr.features.is_none());
    assert!(pr.ml.is_none());
    assert!(!pr.should_tunnel);
    assert!(pr.timestamp.is_empty());
    assert!(pr.decision.is_none());
}

fn resolved(ip: u32) -> DnsProbeResult {
    DnsProbeResult { resolved_ips: vec![ip], udp_rtt_us: 20_000, doh_rtt_us: 30_000, ..DnsProbeResult::default() }
}

#[test]
fn a_probe_runs_through_its_phases() {
    let mut s = ProbeSession::new();
    assert!(matches!(s.next_step(), ProbeStep::Dns));
    s.record_dns(resolved(7), 0);
    match s.next_step() {
        ProbeStep::Tcp(ips) => assert_eq!(ips, vec![7]),
        _ => panic!("TCP comes next"),
    }
    s.record_tcp(TcpProbeResult { verdict: TcpFailureCode::ConnectOk, rtt_us: 10_000, ip: Some(7) }, 0, 10_000);
    assert!(matches!(s.next_step(), ProbeStep::Tls(7)));
    s.record_tls(
        TlsProbeResult { verdict: TlsFailureCode::Version13Ok, server_hello_size: 90, cert_count: 2, latency_us: 20_000, ..TlsProbeResult::default() },
        10_000,
        30_000,
    );
    assert!(matches!(s.next_step(), ProbeStep::Http(7)));
    s.record_http(HttpProbeResult { verdict: HttpFailureCode::Cutoff, first_byte_rtt_us: 5_000, total_rtt_us: 6_000, ..HttpProbeResult::default() }, 30_000);
    assert!(matches!(s.next_step(), ProbeStep::DataVolume(7)));
    s.tcp16 = Some(Tcp16ProbeResult { detected: true, detected_at_kb: 16, requests_sent: 5, rtt_us: 1 });
    assert!(matches!(s.next_step(), ProbeStep::Quic(7)));
    s.quic = Some(QuicProbeResult::default());
    match s.next_step() {
        ProbeStep::Score(f) => {
            assert_eq!(f.tcp_connect_rtt_ms, 10);
            assert_eq!(f.tls_tcp_ratio, Ratio { num: 20, den: 10 });
            assert!(!f.tcp_connect_ok);
        }
        _ => panic!("scoring comes next"),
    }
    s.ml = Some(MlResult::default());
    assert!(matches!(s.next_step(), ProbeStep::Finished));
    let r = s.conclude("x.y".into(), "now".into());
    assert_eq!(r.tcp.verdict, TcpFailureCode::DataVolumeCut);
    assert_eq!(r.verdict, ProbeVerdict::Blocked);
    assert_eq!(r.quic_verdict, Some(QuicVerdict::GeneralBlocking));
    assert_eq!(r.ip, Some(7));
    assert!(r.decision.is_some());
}

#[test]
fn without_an_address_nothing_is_connected_to() {
    let mut s = ProbeSession::new();
    s.record_dns(DnsProbeResult { verdict: DnsFailureCode::Poisoned, ..resolved(7) }, 0);
    assert!(matches!(s.next_step(), ProbeStep::Score(_)));
    s.ml = Some(MlResult::default());
    let r = s.conclude("x.y".into(), "now".into());
    assert_eq!(r.ip, None);
    assert_eq!(r.tcp.verdict, TcpFailureCode::Timeout);
    assert_eq!(r.verdict, ProbeVerdict::Blocked);
    assert_eq!(r.confidence, 950_000);
}

#[test]
fn failed_handshakes_lead_to_fingerprints() {
    let mut s = ProbeSession::new();
    s.record_dns(resolved(7), 0);
    s.record_tcp(TcpProbeResult { verdict: TcpFailureCode::ConnectOk, rtt_us: 10_000, ip: Some(7) }, 0, 10_000);
    s.record_tls(TlsProbeResult { verdict: TlsFailureCode::Reset, ..TlsProbeResult::default() }, 0, 0);
    assert!(matches!(s.next_step(), ProbeStep::Ja4(7)));
}

#[test]
fn handshake_errors_are_read_in_any_case() {
    assert_eq!(
        classify_handshake_error(&HandshakeFailure::Failure("Certificate EXPIRED".into())),
        TlsFailureCode::MitmExpired
    );
    assert_eq!(judge_attempt(&VersionAttempt::TimedOut), TlsFailureCode::SilentDrop);
}

#[test]
fn tls12_takes_over_where_tls13_fails() {
    assert!(needs_https_check(TlsFailureCode::HandshakeOk));
    assert!(needs_tls12(TlsFailureCode::Reset, false));
    let r = conclude(
        &TlsObservation::Tried {
            features: RawHandshakeFeatures::default(),
            tls13: TlsFailureCode::Reset,
            https_ok: false,
            tls12: Some(TlsFailureCode::HandshakeOk),
        },
        5,
    );
    assert_eq!(r.verdict, TlsFailureCode::Version12Only);
    assert!(r.tls12_ok);
    assert_eq!(r.latency_us, 5);
    assert_eq!(r.stage, ConnectionStage::TlsConnected);
}

#[test]
fn redirects_are_told_apart() {
    assert!(is_same_site("https://www.example.com/x", "example.com"));
    assert!(!is_same_site("https://warning.isp.net/", "example.com"));
    assert_eq!(probe_url("example.com"), "https://example.com/");
    assert!(!needs_body(451, &None));
    let r = judge(
        &HttpExchange::Response {
            status: 302,
            headers_size: 50,
            location: Some("https://warning.isp.net/".into()),
            first_byte_us: 10,
            body: None,
        },
        "example.com",
    );
    assert_eq!(r.verdict, HttpFailureCode::RedirectForeign);
    let r = judge(
        &HttpExchange::Response {
            status: 200,
            headers_size: 50,
            location: None,
            first_byte_us: 10,
            body: Some(BodyOutcome::Read { len: 4000, is_stub: true, total_us: 90 }),
        },
        "example.com",
    );
    assert_eq!(r.verdict, HttpFailureCode::StubPage);
}

#[test]
fn scores_are_written_with_two_places() {
    let written = |millionths: u64| {
        let mut s = String::new();
        push_hundredths(&mut s, millionths);
        s
    };
    assert_eq!(written(0), "0.00");
    assert_eq!(written(723_456), "0.72");
    assert_eq!(written(996_000), "1.00");
    assert_eq!(written(125_000), format!("{:.2}", 0.125f64));
    assert_eq!(written(375_000), format!("{:.2}", 0.375f64));
    assert_eq!(written(625_000), "0.62");
    assert_eq!(written(875_000), "0.88");
    assert_eq!(written(145_000), "0.14");
    assert_eq!(written(115_000), "0.12");
    for m in (5_000..4_000_000u64).step_by(10_000) {
        assert_eq!(written(m), format!("{:.2}", m as f64 / 1e6));
    }
    for m in [1, 999_999, 1_004_999, 123_456_789_012_345_678, 9_999_999_999_995_000, u64::MAX] {
        let nearest: f64 = format!("{}.{:06}", m / 1_000_000, m % 1_000_000).parse().unwrap();
        assert_eq!(written(m), format!("{nearest:.2}"));
    }
}

#[test]
fn bodies_are_read_up_to_a_size() {
    let mut body = Vec::new();
    assert!(add_part(&mut body, &[1, 2, 3], 5));
    assert!(!add_part(&mut body, &[4, 5, 6], 5));
    assert_eq!(body, vec![1, 2, 3, 4, 5]);
    assert!(!add_part(&mut body, &[7], 5));
    assert_eq!(body.len(), 5);
    assert!(!add_part(&mut Vec::new(), &[1], 0));
    assert_eq!(ProbeConfig::default().http_max_bytes, 32 * 1024);
}
