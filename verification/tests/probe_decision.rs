use byebyedpi_core::probe::classifier::{
    ConnectionStage, DnsFailureCode, HttpFailureCode, ProbeVerdict, TcpFailureCode, TlsFailureCode,
};
use byebyedpi_core::probe::decision_engine::{decide, SignalEffect, AMBIGUOUS_BASE_CONFIDENCE};
use byebyedpi_core::probe::discriminator::{BlockOrigin, DiscriminationResult};
use byebyedpi_core::probe::dns_probe::DnsProbeResult;
use byebyedpi_core::probe::http_probe::HttpProbeResult;
use byebyedpi_core::probe::ja4_probe::{FingerprintVerdict, Ja4ProbeResult};
use byebyedpi_core::probe::ml_classifier::{MlResult, MlVerdict};
use byebyedpi_core::probe::quic_probe::{QuicProbeResult, QuicResponseType, QuicVerdict};
use byebyedpi_core::probe::tcp_probe::TcpProbeResult;
use byebyedpi_core::probe::tls_probe::TlsProbeResult;
use byebyedpi_core::probe::{compute_verdict, ProbeResult};

fn v4(a: u8, b: u8, c: u8, d: u8) -> u32 {
    u32::from_be_bytes([a, b, c, d])
}

fn millionths(x: f64) -> u32 {
    (x * 1_000_000.0).round() as u32
}

fn make_result(
    dns_verdict: DnsFailureCode,
    tcp_verdict: TcpFailureCode,
    tls_verdict: Option<TlsFailureCode>,
) -> ProbeResult {
    ProbeResult {
        domain: "test.com".into(),
        ip: Some(v4(8, 8, 8, 8)),
        verdict: ProbeVerdict::Ambiguous,
        confidence: millionths(0.5),
        dns: DnsProbeResult {
            verdict: dns_verdict,
            resolved_ips: vec![v4(8, 8, 8, 8)],
            udp_ips: vec![],
            doh_ips: vec![],
            latency_us: 50000,
            fake_ip_detected: false,
            udp_rtt_us: 50_000,
            doh_rtt_us: 100_000,
            udp_response_size: 100,
            doh_response_size: 200,
        },
        tcp: TcpProbeResult {
            verdict: tcp_verdict,
            rtt_us: 10000,
            ip: Some(v4(8, 8, 8, 8)),
        },
        tls: tls_verdict.map(|v| TlsProbeResult {
            verdict: v,
            tls13_ok: false,
            tls12_ok: false,
            stage: ConnectionStage::TlsConnected,
            latency_us: 80000,
            server_hello_size: 100,
            cert_count: 3,
            negotiated_version: Some("1.3".into()),
            negotiated_cipher: Some("TLS_AES_128_GCM_SHA256".into()),
        }),
        http: Some(HttpProbeResult {
            verdict: HttpFailureCode::HttpOk,
            bytes_read: 1024,
            redirect_url: None,
            latency_us: 200000,
            status_code: 200,
            headers_size: 500,
            first_byte_rtt_us: 50_000,
            total_rtt_us: 200_000,
        }),
        tcp16: None,
        discrimination: None,
        should_tunnel: false,
        timestamp: "2026-07-01T00:00:00Z".into(),
        ja4: None,
        quic: None,
        quic_verdict: None,
        features: None,
        ml: None,
        decision: None,
    }
}

#[test]
fn test_decision_dns_poisoned() {
    let mut result = make_result(
        DnsFailureCode::Poisoned,
        TcpFailureCode::ConnectOk,
        Some(TlsFailureCode::Version13Ok),
    );

    result.ml = Some(MlResult {
        score: millionths(0.1),
        verdict: MlVerdict::Clear,
        top_features: vec![],
    });

    let decision = decide(&result);
    assert_eq!(decision.verdict, ProbeVerdict::Blocked);
    assert!(decision.confidence >= millionths(0.95));
    assert!(decision.rationale.contains("DNS poisoning"));
}

#[test]
fn test_decision_server_active() {
    let mut result = make_result(
        DnsFailureCode::DnsOk,
        TcpFailureCode::ConnectOk,
        Some(TlsFailureCode::AlertSniblock),
    );
    result.discrimination = Some(DiscriminationResult {
        origin: BlockOrigin::ServerActive,
        verdict: ProbeVerdict::Clear,
        confidence: millionths(0.90),
        rationale: "TLS alert from server: SNI rejected".into(),
    });
    // ML says blocked, but server-active overrides
    result.ml = Some(MlResult {
        score: millionths(0.85),
        verdict: MlVerdict::Blocked,
        top_features: vec![("tls_tcp_ratio".into(), 5_000_000)],
    });

    let decision = decide(&result);
    assert_eq!(decision.verdict, ProbeVerdict::Clear);
    assert!(decision.confidence >= millionths(0.85));
    assert!(decision.rationale.contains("Server-active"));
}

#[test]
fn test_decision_path_active_ml_blocked() {
    let mut result = make_result(
        DnsFailureCode::DnsOk,
        TcpFailureCode::ConnectOk,
        Some(TlsFailureCode::Reset),
    );
    result.discrimination = Some(DiscriminationResult {
        origin: BlockOrigin::PathActive,
        verdict: ProbeVerdict::Blocked,
        confidence: millionths(0.85),
        rationale: "TCP RST during TLS — DPI killing connection".into(),
    });
    result.ml = Some(MlResult {
        score: millionths(0.75),
        verdict: MlVerdict::Suspicious,
        top_features: vec![("tls_tcp_ratio".into(), 8_000_000)],
    });

    let decision = decide(&result);
    assert_eq!(decision.verdict, ProbeVerdict::Blocked);

    assert!(
        decision.confidence > millionths(0.85),
        "confidence should be > 0.85, got {}",
        decision.confidence
    );
}

#[test]
fn test_decision_tls_ok_zero_features() {
    let mut result = make_result(
        DnsFailureCode::DnsOk,
        TcpFailureCode::ConnectOk,
        Some(TlsFailureCode::Version13Ok),
    );

    if let Some(ref mut tls) = result.tls {
        tls.server_hello_size = 0;
        tls.cert_count = 0;
    }

    let decision = decide(&result);

    assert_eq!(decision.verdict, ProbeVerdict::Ambiguous);
    // T50 adjustments: -0.15 (server_hello_size=0) + -0.15 (cert_count=0) = -0.30
    assert!(
        decision.confidence < AMBIGUOUS_BASE_CONFIDENCE,
        "confidence should be reduced by T50 anomalies, got {}",
        decision.confidence
    );
}

#[test]
fn test_decision_quic_bypass() {
    let mut result = make_result(DnsFailureCode::DnsOk, TcpFailureCode::Reset, None);
    // TCP blocked, QUIC works
    result.quic = Some(QuicProbeResult {
        response_type: QuicResponseType::Handshake,
        rtt_ms: 50,
        response_size: 200,
        response_preview: vec![],
        version: Some(1),
    });
    result.quic_verdict = Some(QuicVerdict::QuicBypass);

    let decision = decide(&result);

    assert_eq!(decision.verdict, ProbeVerdict::Ambiguous);
    assert!(
        decision.confidence >= millionths(0.65) && decision.confidence <= millionths(0.75),
        "confidence should be ~0.70 for partial bypass, got {}",
        decision.confidence
    );
    assert!(decision.rationale.contains("QUIC partial bypass"));
}

#[test]
fn test_decision_all_ok() {
    let mut result = make_result(
        DnsFailureCode::DnsOk,
        TcpFailureCode::ConnectOk,
        Some(TlsFailureCode::Version13Ok),
    );
    result.ml = Some(MlResult {
        score: millionths(0.1),
        verdict: MlVerdict::Clear,
        top_features: vec![],
    });

    let decision = decide(&result);
    assert_eq!(decision.verdict, ProbeVerdict::Ambiguous);
    assert!(
        decision.confidence <= millionths(0.5),
        "should be Ambiguous with low confidence, got {}",
        decision.confidence
    );
}

#[test]
fn test_decision_ml_high_anomaly() {
    let mut result = make_result(
        DnsFailureCode::DnsOk,
        TcpFailureCode::ConnectOk,
        Some(TlsFailureCode::Version13Ok),
    );

    result.ml = Some(MlResult {
        score: millionths(0.92),
        verdict: MlVerdict::Blocked,
        top_features: vec![
            ("tls_tcp_ratio".into(), 12_000_000),
            ("inter_phase_jitter".into(), 5000_000_000),
        ],
    });

    let decision = decide(&result);
    assert_eq!(decision.verdict, ProbeVerdict::Blocked);
    assert!(decision.confidence >= millionths(0.8));
}

#[test]
fn test_decision_ja4_fingerprint_blocking() {
    let mut result = make_result(
        DnsFailureCode::DnsOk,
        TcpFailureCode::ConnectOk,
        Some(TlsFailureCode::Reset),
    );
    result.ja4 = Some(Ja4ProbeResult {
        profiles: vec![],
        verdict: FingerprintVerdict::FingerprintBlocking,
        blocked_count: 1,
        ok_count: 3,
        working_profile: Some("curl_8".into()),
        blocked_profile: Some("chrome_130".into()),
    });

    let decision = decide(&result);
    assert_eq!(decision.verdict, ProbeVerdict::Blocked);
    assert!(decision.rationale.contains("JA4 fingerprint"));
}

#[test]
fn test_decision_dns_manipulation() {
    let mut result = make_result(DnsFailureCode::DnsOk, TcpFailureCode::Reset, None);

    result.dns.udp_rtt_us = 300_000;
    result.dns.doh_rtt_us = 50_000;

    let decision = decide(&result);
    assert_eq!(decision.verdict, ProbeVerdict::Blocked);
    // Base 0.85 (TCP Reset) + DNS manip +0.10 = 0.95
    assert!(
        decision.confidence >= millionths(0.90),
        "confidence should be boosted by DNS manipulation, got {}",
        decision.confidence
    );
}

#[test]
fn test_decision_dpi_delay() {
    let mut result = make_result(
        DnsFailureCode::DnsOk,
        TcpFailureCode::ConnectOk,
        Some(TlsFailureCode::Version13Ok),
    );

    result.tcp.rtt_us = 10000; // 10ms
    if let Some(ref mut tls) = result.tls {
        tls.latency_us = 200000; // 200ms
    }

    let decision = decide(&result);
    // Should be Ambiguous (all ok), but with DPI delay hint
    // confidence = AMBIGUOUS_BASE (0.30) + DPI_DELAY_DELTA (0.10) = 0.40
    assert!(
        decision.confidence > AMBIGUOUS_BASE_CONFIDENCE,
        "confidence should be boosted by DPI delay hint, got {}",
        decision.confidence
    );
}

#[test]
fn test_decision_signals_populated() {
    let mut result = make_result(
        DnsFailureCode::DnsOk,
        TcpFailureCode::Reset,
        Some(TlsFailureCode::Reset),
    );
    result.discrimination = Some(DiscriminationResult {
        origin: BlockOrigin::PathActive,
        verdict: ProbeVerdict::Blocked,
        confidence: millionths(0.85),
        rationale: "TCP RST".into(),
    });
    result.ml = Some(MlResult {
        score: millionths(0.7),
        verdict: MlVerdict::Suspicious,
        top_features: vec![("test".into(), 1_000_000)],
    });

    let decision = decide(&result);
    assert!(!decision.signals.is_empty(), "signals should be populated");
    assert!(decision
        .signals
        .iter()
        .any(|s| s.signal_name == "path_active"));
    assert!(decision
        .signals
        .iter()
        .any(|s| s.signal_name == "ml_suspicious"));
}

#[test]
fn test_compute_verdict_dns_poisoned() {
    let dns = DnsProbeResult { verdict: DnsFailureCode::Poisoned, ..DnsProbeResult::default() };
    let tcp = TcpProbeResult { verdict: TcpFailureCode::ConnectOk, rtt_us: 10000, ip: None };
    let (v, c) = compute_verdict(&dns, &tcp);
    assert_eq!(v, ProbeVerdict::Blocked);
    assert!(c > millionths(0.9));
}

#[test]
fn test_compute_verdict_tcp_ok_dns_ok() {
    let dns = DnsProbeResult {
        verdict: DnsFailureCode::DnsOk,
        resolved_ips: vec![v4(8, 8, 8, 8)],
        udp_ips: vec![v4(8, 8, 8, 8)],
        doh_ips: vec![v4(8, 8, 8, 8)],
        latency_us: 50000,
        fake_ip_detected: false,
        udp_rtt_us: 25_000,
        doh_rtt_us: 50_000,
        udp_response_size: 50,
        doh_response_size: 100,
    };
    let tcp = TcpProbeResult {
        verdict: TcpFailureCode::ConnectOk,
        rtt_us: 12000,
        ip: Some(v4(8, 8, 8, 8)),
    };
    let (v, _c) = compute_verdict(&dns, &tcp);
    assert_eq!(v, ProbeVerdict::Ambiguous);
}

#[test]
fn test_compute_verdict_tcp_reset() {
    let dns = DnsProbeResult {
        verdict: DnsFailureCode::DnsOk,
        resolved_ips: vec![v4(8, 8, 8, 8)],
        udp_ips: vec![v4(8, 8, 8, 8)],
        doh_ips: vec![v4(8, 8, 8, 8)],
        latency_us: 50000,
        fake_ip_detected: false,
        udp_rtt_us: 25_000,
        doh_rtt_us: 50_000,
        udp_response_size: 50,
        doh_response_size: 100,
    };
    let tcp = TcpProbeResult {
        verdict: TcpFailureCode::Reset,
        rtt_us: 5000,
        ip: Some(v4(8, 8, 8, 8)),
    };
    let (v, c) = compute_verdict(&dns, &tcp);
    assert_eq!(v, ProbeVerdict::Blocked);
    assert!(c >= millionths(0.8));
}

#[test]
fn scores_at_the_edges() {
    let mut p = make_result(DnsFailureCode::DnsOk, TcpFailureCode::ConnectOk, Some(TlsFailureCode::Version13Ok));
    let score = |s: u32| Some(MlResult { score: s, verdict: MlVerdict::Suspicious, top_features: vec![] });
    p.ml = score(800_000);
    let d = decide(&p);
    assert_eq!(d.verdict, ProbeVerdict::Ambiguous);
    assert!(d.signals.iter().any(|s| s.signal_name == "ml_suspicious" && s.delta == 100_000));
    p.ml = score(800_001);
    assert_eq!(decide(&p).verdict, ProbeVerdict::Blocked);
    p.ml = score(300_000);
    let d = decide(&p);
    assert!(d.signals.iter().any(|s| s.signal_name == "ml_suspicious" && s.delta == -100_000));
    p.ml = score(299_999);
    let d = decide(&p);
    assert_eq!(d.signals[0].signal_name, "ml_low");
    assert_eq!(d.signals[0].effect, SignalEffect::Neutral);
    assert_eq!(d.signals[0].description, "ML score 0.30 low — no adjustment");
}

#[test]
fn texts_of_a_decision() {
    let mut p = make_result(DnsFailureCode::DnsOk, TcpFailureCode::ConnectOk, Some(TlsFailureCode::Version13Ok));
    p.ml = Some(MlResult {
        score: 920_000,
        verdict: MlVerdict::Blocked,
        top_features: vec![("tls_tcp_ratio".into(), 12_000_000), ("inter_phase_jitter".into(), 5_000_005_000)],
    });
    let d = decide(&p);
    assert_eq!(
        d.rationale,
        "ML anomaly detection: score 0.92, top features: [\"tls_tcp_ratio=12.00\", \"inter_phase_jitter=5000.01\"]"
    );
    p.ml = None;
    p.ja4 = Some(Ja4ProbeResult {
        profiles: vec![],
        verdict: FingerprintVerdict::FingerprintBlocking,
        blocked_count: 1,
        ok_count: 0,
        working_profile: None,
        blocked_profile: Some("say \"hi\"".into()),
    });
    assert_eq!(
        decide(&p).rationale,
        "JA4 fingerprint blocking detected (blocked=Some(\"say \\\"hi\\\"\"), works=None)"
    );
}

#[test]
fn slow_phases_are_described() {
    let mut p = make_result(DnsFailureCode::DnsOk, TcpFailureCode::ConnectOk, Some(TlsFailureCode::Version13Ok));
    p.dns.udp_rtt_us = 300_900;
    p.dns.doh_rtt_us = 50_900;
    p.tcp.rtt_us = 10_500;
    p.tls.as_mut().unwrap().latency_us = 201_500;
    let d = decide(&p);
    assert!(d.signals.iter().any(|s| s.description == "UDP RTT 300ms > 3× DoH RTT 50ms — DNS manipulation hint"));
    assert!(d.signals.iter().any(|s| s.description == "TLS RTT 202ms > 5× TCP RTT 10ms — DPI delay hint"));
    assert_eq!(d.confidence, 500_000);
}

#[test]
fn intercepted_names_are_a_block() {
    let p = make_result(DnsFailureCode::Intercepted, TcpFailureCode::ConnectOk, None);
    let d = decide(&p);
    assert_eq!(d.verdict, ProbeVerdict::Blocked);
    assert_eq!(d.confidence, 900_000);
    assert_eq!(d.signals.len(), 1);
    assert_eq!(d.signals[0].effect, SignalEffect::HardRule);
}

#[test]
fn without_a_strong_finding_names_and_tcp_decide() {
    let p = make_result(DnsFailureCode::Unresolvable, TcpFailureCode::Refused, None);
    let d = decide(&p);
    assert_eq!(d.verdict, ProbeVerdict::Ambiguous);
    assert_eq!(d.confidence, 400_000);
    assert_eq!(d.rationale, "Base verdict from DNS+TCP: Unresolvable+Refused, adjusted by ML/T50 signals");
}
