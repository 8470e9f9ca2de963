use byebyedpi_core::probe::classifier::TlsFailureCode;
use byebyedpi_core::probe::ja4_probe::{
    classify_tls_response, discriminate, extract_tls_handshake_features, standard_profiles,
    FingerprintProbeResult, FingerprintVerdict, Ja4Fingerprint, Ja4ProbeResult,
};

fn make_result(verdict: TlsFailureCode) -> FingerprintProbeResult {
    FingerprintProbeResult {
        profile_name: "test".into(),
        ja4_expected: "".into(),
        ja4_actual: None,
        verdict,
        rtt_ms: 0,
        response_preview: vec![],
    }
}

#[test]
fn test_ja4_fingerprint_to_string() {
    let ja4 = Ja4Fingerprint {
        protocol: "t13".into(),
        sni_present: true,
        cipher_count: 15,
        ext_count: 16,
        alpn: "h2".into(),
        cipher_hash: "8daaf6152771".into(),
        ext_hash: "b186095e22b6".into(),
    };
    assert_eq!(ja4.to_string(), "t13d1516h2_8daaf6152771_b186095e22b6");
}

#[test]
fn test_ja4_fingerprint_parse_roundtrip() {
    let s = "t13d1516h2_8daaf6152771_b186095e22b6";
    let parsed = Ja4Fingerprint::from_string(s).unwrap();
    assert_eq!(parsed.to_string(), s);
}

#[test]
fn test_standard_profiles_count() {
    let profiles = standard_profiles();
    assert_eq!(profiles.len(), 4);
}

#[test]
fn test_classify_tls_response_server_hello() {
    // Minimal ServerHello: ContentType=0x16, Version=0x0303, Length=2,
    // HandshakeType=0x02
    let data = vec![0x16, 0x03, 0x03, 0x00, 0x05, 0x02, 0x00, 0x00, 0x00];
    assert_eq!(classify_tls_response(&data), TlsFailureCode::HandshakeOk);
}

#[test]
fn test_classify_tls_response_alert_sniblock() {
    // Alert: ContentType=0x15, Version=0x0303, Length=2, Level=0x02, Description=112
    let data = vec![0x15, 0x03, 0x03, 0x00, 0x02, 0x02, 112];
    assert_eq!(classify_tls_response(&data), TlsFailureCode::AlertSniblock);
}

#[test]
fn test_classify_tls_response_alert_handshake_failure() {
    let data = vec![0x15, 0x03, 0x03, 0x00, 0x02, 0x02, 40];
    assert_eq!(classify_tls_response(&data), TlsFailureCode::AlertHandshake);
}

#[test]
fn test_classify_tls_response_garbage() {
    let data = vec![0x00, 0x01, 0x02];
    assert_eq!(classify_tls_response(&data), TlsFailureCode::Garbage);
}

#[test]
fn ja4_probe_test_discriminate_no_blocking() {
    let results = vec![
        make_result(TlsFailureCode::HandshakeOk),
        make_result(TlsFailureCode::HandshakeOk),
        make_result(TlsFailureCode::Version13Ok),
        make_result(TlsFailureCode::HandshakeOk),
    ];
    assert_eq!(
        discriminate(&results),
        FingerprintVerdict::NoFingerprintBlocking
    );
}

#[test]
fn test_discriminate_fingerprint_blocking() {
    let results = vec![
        make_result(TlsFailureCode::AlertSniblock),
        make_result(TlsFailureCode::Reset),
        make_result(TlsFailureCode::HandshakeOk),
        make_result(TlsFailureCode::HandshakeOk),
    ];
    assert_eq!(
        discriminate(&results),
        FingerprintVerdict::FingerprintBlocking
    );
}

#[test]
fn test_discriminate_sni_blocking() {
    let results = vec![
        make_result(TlsFailureCode::AlertSniblock),
        make_result(TlsFailureCode::Alert),
        make_result(TlsFailureCode::Reset),
        make_result(TlsFailureCode::Garbage),
    ];
    assert_eq!(discriminate(&results), FingerprintVerdict::SniBasedBlocking);
}

#[test]
fn test_extract_server_hello_size() {
    // ServerHello: TLS 1.2, cipher TLS_AES_128_GCM_SHA256
    // Record: ContentType=0x16, Version=0x0303, Length=0x0032 (50)
    // Handshake: Type=0x02, Length=0x00002E (46)
    // Body: legacy_version=0x0303, random(32), session_id_len=0,
    //       cipher=0x1301, compression=0x00, extensions(0)
    let mut body = Vec::new();
    body.extend_from_slice(&[0x03, 0x03]); // legacy_version TLS 1.2
    body.extend(vec![0xAAu8; 32]); // random
    body.push(0x00); // session_id_len = 0
    body.extend_from_slice(&[0x13, 0x01]); // cipher TLS_AES_128_GCM_SHA256
    body.push(0x00); // compression
    body.extend_from_slice(&[0x00, 0x00]); // extensions length = 0

    let handshake_len = body.len() as u16; // 38
    let mut record = Vec::new();
    record.push(0x16); // ContentType Handshake
    record.extend_from_slice(&[0x03, 0x03]); // Version
    record.extend_from_slice(&(4 + handshake_len).to_be_bytes()); // Record Length
    record.push(0x02); // HandshakeType ServerHello
    record.extend_from_slice(&[0x00, (body.len() >> 8) as u8, (body.len() & 0xFF) as u8]); // HS len
    record.extend_from_slice(&body);

    let (sh_size, _, ver, cipher) = extract_tls_handshake_features(&record);
    assert!(sh_size > 0, "ServerHello size should be > 0");
    assert_eq!(ver, Some("1.2".to_string()));
    assert_eq!(cipher, Some("TLS_AES_128_GCM_SHA256".to_string()));
}

#[test]
fn test_extract_negotiated_cipher() {
    // TLS 1.3 ServerHello with TLS_AES_256_GCM_SHA384 (0x1302)
    let mut body = Vec::new();
    body.extend_from_slice(&[0x03, 0x04]); // legacy_version TLS 1.3
    body.extend(vec![0xCCu8; 32]); // random
    body.push(0x00); // session_id_len = 0
    body.extend_from_slice(&[0x13, 0x02]); // cipher TLS_AES_256_GCM_SHA384
    body.push(0x00); // compression
    body.extend_from_slice(&[0x00, 0x00]); // extensions length = 0

    let handshake_len = body.len() as u16;
    let mut record = Vec::new();
    record.push(0x16);
    record.extend_from_slice(&[0x03, 0x03]);
    record.extend_from_slice(&(4 + handshake_len).to_be_bytes());
    record.push(0x02);
    record.extend_from_slice(&[0x00, (body.len() >> 8) as u8, (body.len() & 0xFF) as u8]);
    record.extend_from_slice(&body);

    let (_, _, ver, cipher) = extract_tls_handshake_features(&record);
    assert_eq!(ver, Some("1.3".to_string()));
    assert_eq!(cipher, Some("TLS_AES_256_GCM_SHA384".to_string()));
}

#[test]
fn test_extract_cert_count_tls12() {
    // Certificate message with 2 certificates (TLS 1.2 format).
    // Cert 1: length=3, data=[0xAA, 0xBB, 0xCC]
    // Cert 2: length=4, data=[0xDD, 0xEE, 0xFF, 0x00]
    let cert1: Vec<u8> = vec![0x00, 0x00, 0x03, 0xAA, 0xBB, 0xCC];
    let cert2: Vec<u8> = vec![0x00, 0x00, 0x04, 0xDD, 0xEE, 0xFF, 0x00];
    let cert_total_len = (cert1.len() + cert2.len()) as u16; // 6 + 7 = 13

    let mut body = Vec::new();
    body.extend_from_slice(&[
        0x00,
        (cert_total_len >> 8) as u8,
        (cert_total_len & 0xFF) as u8,
    ]);
    body.extend_from_slice(&cert1);
    body.extend_from_slice(&cert2);

    let handshake_len = body.len() as u16;
    let mut record = Vec::new();
    record.push(0x16);
    record.extend_from_slice(&[0x03, 0x03]);
    record.extend_from_slice(&(4 + handshake_len).to_be_bytes());
    record.push(0x0B); // HandshakeType Certificate
    record.extend_from_slice(&[0x00, (body.len() >> 8) as u8, (body.len() & 0xFF) as u8]);
    record.extend_from_slice(&body);

    let (_, cert_count, _, _) = extract_tls_handshake_features(&record);
    assert_eq!(cert_count, 2, "Should find 2 certificates");
}

#[test]
fn test_extract_cert_count_tls13() {
    // Certificate message with 1 certificate (TLS 1.3 format).
    // TLS 1.3: request_context(1) + cert_list(3+entries)
    // Entry: cert_len(3) + data(5) + extensions_len(2) + no extensions
    let cert_data: Vec<u8> = vec![0x01, 0x02, 0x03, 0x04, 0x05]; // 5 bytes cert
    let entry_body: Vec<u8> = {
        let mut v = Vec::new();
        v.extend_from_slice(&[0x00, 0x00, 0x05]); // cert_len = 5
        v.extend_from_slice(&cert_data);
        v.extend_from_slice(&[0x00, 0x00]); // extensions = 0
        v
    };
    let cert_list_len = entry_body.len() as u16; // 10

    let mut body = Vec::new();
    body.push(0x00); // request_context_len = 0
    body.extend_from_slice(&[
        0x00,
        (cert_list_len >> 8) as u8,
        (cert_list_len & 0xFF) as u8,
    ]);
    body.extend_from_slice(&entry_body);

    let sh_body: Vec<u8> = {
        let mut v = Vec::new();
        v.extend_from_slice(&[0x03, 0x04]); // legacy_version TLS 1.3
        v.extend(vec![0xBBu8; 32]); // random
        v.push(0x00); // session_id_len = 0
        v.extend_from_slice(&[0x13, 0x01]); // cipher
        v.push(0x00); // compression
        v.extend_from_slice(&[0x00, 0x00]); // extensions = 0
        v
    };

    let mut response = Vec::new();
    // ServerHello record
    response.push(0x16);
    response.extend_from_slice(&[0x03, 0x03]);
    let sh_hs_len = sh_body.len() as u16;
    response.extend_from_slice(&(4 + sh_hs_len).to_be_bytes());
    response.push(0x02);
    response.extend_from_slice(&[
        0x00,
        (sh_body.len() >> 8) as u8,
        (sh_body.len() & 0xFF) as u8,
    ]);
    response.extend_from_slice(&sh_body);
    // Certificate record
    let hs_len = body.len() as u16;
    response.push(0x16);
    response.extend_from_slice(&[0x03, 0x03]);
    response.extend_from_slice(&(4 + hs_len).to_be_bytes());
    response.push(0x0B);
    response.extend_from_slice(&[0x00, (body.len() >> 8) as u8, (body.len() & 0xFF) as u8]);
    response.extend_from_slice(&body);

    let (_, cert_count, ver, _) = extract_tls_handshake_features(&response);
    assert_eq!(ver, Some("1.3".to_string()), "should detect TLS 1.3");
    assert_eq!(cert_count, 1, "Should find 1 certificate");
}

#[test]
fn test_extract_empty_response() {
    let (sh_size, cert_count, ver, cipher) = extract_tls_handshake_features(&[]);
    assert_eq!(sh_size, 0);
    assert_eq!(cert_count, 0);
    assert_eq!(ver, None);
    assert_eq!(cipher, None);
}

#[test]
fn test_extract_truncated_response() {

    let response = vec![0x16, 0x03, 0x03, 0x00, 0xFF]; // claims 255 bytes but only header
    let (sh_size, cert_count, _, _) = extract_tls_handshake_features(&response);
    assert_eq!(sh_size, 0);
    assert_eq!(cert_count, 0);
}

#[test]
fn test_default_ja4() {
    assert_eq!(FingerprintVerdict::default(), FingerprintVerdict::NoFingerprintBlocking);
    let ja4 = Ja4ProbeResult::default();
    assert_eq!(ja4.verdict, FingerprintVerdict::NoFingerprintBlocking);
    assert!(ja4.profiles.is_empty());
    assert_eq!(ja4.blocked_count, 0);
    assert_eq!(ja4.ok_count, 0);
}

#[test]
fn malformed_fingerprints_are_not_read() {
    assert!(Ja4Fingerprint::from_string("t13d1516h2_8daaf6152771").is_none());
    assert!(Ja4Fingerprint::from_string("t13d15_a_b").is_none());
    assert!(Ja4Fingerprint::from_string("тринадцать").is_none());
    assert!(Ja4Fingerprint::from_string("тринадцать_a").is_none());
}

#[test]
fn a_trailing_fragment_changes_nothing() {
    let mut r = vec![0x16, 0x03, 0x03, 0x00, 0x04, 0x02, 0x00, 0x00, 0x00];
    let before = extract_tls_handshake_features(&r);
    r.push(0x16);
    r.push(0x03);
    assert_eq!(extract_tls_handshake_features(&r), before);
}
