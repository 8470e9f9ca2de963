use byebyedpi_core::probe::classifier::{ConnectionStage, DnsFailureCode, HttpFailureCode, ProbeVerdict, TcpFailureCode, TlsFailureCode};

#[test]
fn test_probe_verdict_from_phases() {
    assert_eq!(
        ProbeVerdict::from_phases(&DnsFailureCode::DnsOk, &TcpFailureCode::ConnectOk),
        ProbeVerdict::Ambiguous // needs TLS/HTTP phases
    );
    assert_eq!(
        ProbeVerdict::from_phases(&DnsFailureCode::Poisoned, &TcpFailureCode::ConnectOk),
        ProbeVerdict::Blocked
    );
    assert_eq!(
        ProbeVerdict::from_phases(&DnsFailureCode::DnsOk, &TcpFailureCode::Reset),
        ProbeVerdict::Blocked
    );
    assert_eq!(
        ProbeVerdict::from_phases(&DnsFailureCode::DnsOk, &TcpFailureCode::Timeout),
        ProbeVerdict::Blocked
    );
}

#[test]
fn test_dns_failure_description() {
    assert!(!DnsFailureCode::Poisoned.description().is_empty());
    assert_eq!(DnsFailureCode::DnsOk.description(), "DNS OK");
}

#[test]
fn test_tcp_failure_is_error() {
    assert!(!TcpFailureCode::ConnectOk.is_error());
    assert!(TcpFailureCode::Reset.is_error());
    assert!(TcpFailureCode::Timeout.is_error());
}

#[test]
fn test_tls_failure_is_tls_fail() {
    assert!(!TlsFailureCode::HandshakeOk.is_tls_fail());
    assert!(!TlsFailureCode::Version13Ok.is_tls_fail());
    assert!(!TlsFailureCode::Version12Only.is_tls_fail()); // it's a split, not a fail
    assert!(TlsFailureCode::Reset.is_tls_fail());
    assert!(TlsFailureCode::Garbage.is_tls_fail());
}

#[test]
fn test_http_failure_is_error() {
    assert!(!HttpFailureCode::HttpOk.is_error());
    assert!(!HttpFailureCode::RedirectSame.is_error());
    assert!(HttpFailureCode::Cutoff.is_error());
    assert!(HttpFailureCode::Http451.is_error());
    assert!(HttpFailureCode::StubPage.is_error());
}

#[test]
fn test_default_classifier_enums() {
    assert_eq!(DnsFailureCode::default(), DnsFailureCode::DnsOk);
    assert_eq!(TcpFailureCode::default(), TcpFailureCode::ConnectOk);
    assert_eq!(TlsFailureCode::default(), TlsFailureCode::HandshakeOk);
    assert_eq!(HttpFailureCode::default(), HttpFailureCode::HttpOk);
    assert_eq!(ConnectionStage::default(), ConnectionStage::TcpConnect);
}

#[test]
fn phases_alone_never_clear() {
    for dns in [DnsFailureCode::DnsOk, DnsFailureCode::Unresolvable, DnsFailureCode::DohBlocked] {
        for tcp in [TcpFailureCode::ConnectOk, TcpFailureCode::Refused, TcpFailureCode::DataVolumeCut] {
            assert_ne!(ProbeVerdict::from_phases(&dns, &tcp), ProbeVerdict::Clear);
        }
    }
}

#[test]
fn tampering_with_names_is_a_block_whatever_tcp_did() {
    for dns in [
        DnsFailureCode::Poisoned,
        DnsFailureCode::NxdomainSpoof,
        DnsFailureCode::EmptySpoof,
        DnsFailureCode::Intercepted,
        DnsFailureCode::DohBlocked,
    ] {
        assert_eq!(ProbeVerdict::from_phases(&dns, &TcpFailureCode::Refused), ProbeVerdict::Blocked);
    }
}
