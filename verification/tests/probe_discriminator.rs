use byebyedpi_core::probe::classifier::{HttpFailureCode, ProbeVerdict, TlsFailureCode};
use byebyedpi_core::probe::discriminator::{discriminate, discriminate_http, BlockOrigin, DiscriminationResult};

#[test]
fn test_server_active_alert_sniblock() {
    let result = discriminate(&TlsFailureCode::AlertSniblock, &HttpFailureCode::HttpOk);
    assert_eq!(result.origin, BlockOrigin::ServerActive);
    assert_eq!(result.verdict, ProbeVerdict::Clear);
}

#[test]
fn test_path_active_reset() {
    let result = discriminate(&TlsFailureCode::Reset, &HttpFailureCode::HttpOk);
    assert_eq!(result.origin, BlockOrigin::PathActive);
    assert_eq!(result.verdict, ProbeVerdict::Blocked);
}

#[test]
fn test_path_active_garbage() {
    let result = discriminate(&TlsFailureCode::Garbage, &HttpFailureCode::HttpOk);
    assert_eq!(result.origin, BlockOrigin::PathActive);
    assert_eq!(result.verdict, ProbeVerdict::Blocked);
}

#[test]
fn test_tls_ok_http_cutoff() {
    let result = discriminate(&TlsFailureCode::HandshakeOk, &HttpFailureCode::Cutoff);
    assert_eq!(result.origin, BlockOrigin::PathActive);
    assert_eq!(result.verdict, ProbeVerdict::Blocked);
}

#[test]
fn test_tls_ok_http_ok() {
    let result = discriminate(&TlsFailureCode::HandshakeOk, &HttpFailureCode::HttpOk);
    assert_eq!(result.verdict, ProbeVerdict::Clear);
}

#[test]
fn test_mitm_is_clear_not_blocked() {

    let result = discriminate(&TlsFailureCode::MitmSelfSigned, &HttpFailureCode::HttpOk);
    assert_eq!(result.origin, BlockOrigin::ServerActive);
    assert_eq!(result.verdict, ProbeVerdict::Clear);
}

#[test]
fn test_mitm_expired_is_clear() {
    let result = discriminate(&TlsFailureCode::MitmExpired, &HttpFailureCode::HttpOk);
    assert_eq!(result.origin, BlockOrigin::ServerActive);
    assert_eq!(result.verdict, ProbeVerdict::Clear);
}

#[test]
fn test_mitm_hostname_mismatch_is_clear() {
    let result = discriminate(&TlsFailureCode::MitmHostnameMismatch, &HttpFailureCode::HttpOk);
    assert_eq!(result.origin, BlockOrigin::ServerActive);
    assert_eq!(result.verdict, ProbeVerdict::Clear);
}

#[test]
fn test_silent_drop_is_blocked() {

    let result = discriminate(&TlsFailureCode::SilentDrop, &HttpFailureCode::HttpOk);
    assert_eq!(result.origin, BlockOrigin::PathActive);
    assert_eq!(result.verdict, ProbeVerdict::Blocked);
}

#[test]
fn test_generic_alert_is_ambiguous() {

    let result = discriminate(&TlsFailureCode::Alert, &HttpFailureCode::HttpOk);
    assert_eq!(result.origin, BlockOrigin::Ambiguous);
    assert_eq!(result.verdict, ProbeVerdict::Ambiguous);
}

#[test]
fn test_version12only_is_blocked() {

    let result = discriminate(&TlsFailureCode::Version12Only, &HttpFailureCode::HttpOk);
    assert_eq!(result.origin, BlockOrigin::PathActive);
    assert_eq!(result.verdict, ProbeVerdict::Blocked);
    assert!(result.confidence >= 850_000);
}

#[test]
fn test_http_451_legal() {
    let result = discriminate(&TlsFailureCode::HandshakeOk, &HttpFailureCode::Http451);
    assert_eq!(result.origin, BlockOrigin::ServerActive);
    assert_eq!(result.verdict, ProbeVerdict::Blocked);
}

#[test]
fn test_default_discrimination() {
    assert_eq!(BlockOrigin::default(), BlockOrigin::Ambiguous);
    let disc = DiscriminationResult::default();
    assert_eq!(disc.origin, BlockOrigin::Ambiguous);
    assert_eq!(disc.verdict, ProbeVerdict::Ambiguous);
    assert_eq!(disc.confidence, 0);
    assert!(disc.rationale.is_empty());
}

#[test]
fn findings_carry_their_confidence_and_reason() {
    let r = discriminate(&TlsFailureCode::Reset, &HttpFailureCode::StubPage);
    assert_eq!(r.confidence, 850_000);
    assert_eq!(r.rationale, "TCP RST during TLS — DPI killing connection.");
    let r = discriminate_http(&HttpFailureCode::StubPage);
    assert_eq!(r.confidence, 900_000);
    assert_eq!(r.origin, BlockOrigin::PathActive);
}

#[test]
fn http_does_not_matter_where_tls_failed() {
    let a = discriminate(&TlsFailureCode::Eof, &HttpFailureCode::HttpOk);
    let b = discriminate(&TlsFailureCode::Eof, &HttpFailureCode::Http451);
    assert_eq!(a.origin, b.origin);
    assert_eq!(a.confidence, b.confidence);
    assert_eq!(a.rationale, b.rationale);
}
