//! Weighing what the phases of a probe found.
//!
//! Some findings settle the matter, in this order: manipulated name service,
//! a server that answered for itself, QUIC that works where TCP does not.
//! Strong findings come next: interference on the path, a filter on
//! fingerprints, a high anomaly score. Otherwise name service and TCP give a
//! verdict. Anomalies move the confidence of a verdict, never the verdict.
//! Where every phase passed, the outcome stays open until it has been seen
//! often enough.
//!
//! Confidence and scores are counted in millionths.
use vstd::prelude::*;
use vstd::string::StringExecFns;

use crate::probe::classifier::{
    phase_verdict, DnsFailureCode, HttpFailureCode, ProbeVerdict, TcpFailureCode, TlsFailureCode,
};
use crate::probe::discriminator::BlockOrigin;
use crate::probe::ja4_probe::FingerprintVerdict;
use crate::probe::quic_probe::QuicVerdict;
use crate::probe::ProbeResult;
use crate::text::{
    decimal, hundredths, opt_view, optional, optional_text, owned, push_decimal, push_hundredths,
    quoted, quoted_text,
};

verus! {

/// A score above this is a strong finding.
pub const ML_HIGH_THRESHOLD: u32 = 800_000;

/// A score below this moves nothing.
pub const ML_LOW_THRESHOLD: u32 = 300_000;

/// By how much a suspicious score moves the confidence.
pub const ML_DELTA: i64 = 100_000;

/// By how much a handshake without visible parts moves the confidence.
pub const TLS_ZERO_FEATURES_DELTA: i64 = -150_000;

/// By how much slow DNS over UDP moves the confidence.
pub const DNS_MANIP_DELTA: i64 = 100_000;

/// By how much a slow handshake moves the confidence.
pub const DPI_DELAY_DELTA: i64 = 100_000;

/// The confidence of an open outcome.
pub const AMBIGUOUS_BASE_CONFIDENCE: u32 = 300_000;

/// What a finding did to the decision.
#[derive(Debug, Clone, Copy, PartialEq, Eq, Structural)]
pub enum SignalEffect {
    /// It settled the verdict.
    HardRule,
    /// It supports the verdict.
    Support,
    /// It moved the confidence.
    ConfidenceAdjust,
    /// Nothing.
    Neutral,
}

/// A finding and what it did to the decision.
#[derive(Debug, Clone)]
pub struct SignalContribution {
    pub signal_name: String,
    pub effect: SignalEffect,
    /// By how much it moved the confidence.
    pub delta: i64,
    pub description: String,
}

/// A verdict, how sure it is, and why.
#[derive(Debug, Clone)]
pub struct Decision {
    pub verdict: ProbeVerdict,
    pub confidence: u32,
    pub rationale: String,
    /// The findings that bore on it, in order.
    pub signals: Vec<SignalContribution>,
}

/// The contents of a contribution.
pub struct Signal {
    pub name: Seq<char>,
    pub effect: SignalEffect,
    pub delta: int,
    pub description: Seq<char>,
}

/// The contents of a decision.
pub struct Ruling {
    pub verdict: ProbeVerdict,
    pub confidence: int,
    pub rationale: Seq<char>,
    pub signals: Seq<Signal>,
}

impl View for SignalContribution {
    type V = Signal;

    open spec fn view(&self) -> Signal {
        Signal {
            name: self.signal_name@,
            effect: self.effect,
            delta: self.delta as int,
            description: self.description@,
        }
    }
}

/// The contents of some contributions.
pub open spec fn signals_of(s: Seq<SignalContribution>) -> Seq<Signal> {
    Seq::new(s.len(), |i: int| s[i]@)
}

impl View for Decision {
    type V = Ruling;

    open spec fn view(&self) -> Ruling {
        Ruling {
            verdict: self.verdict,
            confidence: self.confidence as int,
            rationale: self.rationale@,
            signals: signals_of(self.signals@),
        }
    }
}

/// A finding that moves nothing.
pub open spec fn still(name: Seq<char>, effect: SignalEffect, description: Seq<char>) -> Signal {
    Signal { name, effect, delta: 0, description }
}

/// A finding that moves the confidence.
pub open spec fn moving(name: Seq<char>, delta: int, description: Seq<char>) -> Signal {
    Signal { name, effect: SignalEffect::ConfidenceAdjust, delta, description }
}

/// A name service outcome by name.
pub open spec fn dns_name(dns: DnsFailureCode) -> Seq<char> {
    match dns {
        DnsFailureCode::Poisoned => "Poisoned"@,
        DnsFailureCode::NxdomainSpoof => "NxdomainSpoof"@,
        DnsFailureCode::EmptySpoof => "EmptySpoof"@,
        DnsFailureCode::Intercepted => "Intercepted"@,
        DnsFailureCode::DohBlocked => "DohBlocked"@,
        DnsFailureCode::Unresolvable => "Unresolvable"@,
        DnsFailureCode::DnsOk => "Ok"@,
    }
}

fn dns_label(dns: DnsFailureCode) -> (r: &'static str)
    ensures
        r@ == dns_name(dns),
{
    match dns {
        DnsFailureCode::Poisoned => "Poisoned",
        DnsFailureCode::NxdomainSpoof => "NxdomainSpoof",
        DnsFailureCode::EmptySpoof => "EmptySpoof",
        DnsFailureCode::Intercepted => "Intercepted",
        DnsFailureCode::DohBlocked => "DohBlocked",
        DnsFailureCode::Unresolvable => "Unresolvable",
        DnsFailureCode::DnsOk => "Ok",
    }
}

/// A TCP outcome by name.
pub open spec fn tcp_name(tcp: TcpFailureCode) -> Seq<char> {
    match tcp {
        TcpFailureCode::ConnectOk => "ConnectOk"@,
        TcpFailureCode::Reset => "Reset"@,
        TcpFailureCode::Timeout => "Timeout"@,
        TcpFailureCode::Refused => "Refused"@,
        TcpFailureCode::Unreachable => "Unreachable"@,
        TcpFailureCode::DataVolumeCut => "DataVolumeCut"@,
    }
}

fn tcp_label(tcp: TcpFailureCode) -> (r: &'static str)
    ensures
        r@ == tcp_name(tcp),
{
    match tcp {
        TcpFailureCode::ConnectOk => "ConnectOk",
        TcpFailureCode::Reset => "Reset",
        TcpFailureCode::Timeout => "Timeout",
        TcpFailureCode::Refused => "Refused",
        TcpFailureCode::Unreachable => "Unreachable",
        TcpFailureCode::DataVolumeCut => "DataVolumeCut",
    }
}

/// The verdict of name service and TCP, and how sure it is.
pub open spec fn base_verdict(dns: DnsFailureCode, tcp: TcpFailureCode) -> (ProbeVerdict, u32) {
    match dns {
        DnsFailureCode::Poisoned => (ProbeVerdict::Blocked, 950_000),
        DnsFailureCode::NxdomainSpoof | DnsFailureCode::Intercepted => (
            ProbeVerdict::Blocked,
            900_000,
        ),
        DnsFailureCode::EmptySpoof => (ProbeVerdict::Blocked, 850_000),
        DnsFailureCode::DohBlocked => (ProbeVerdict::Blocked, 800_000),
        DnsFailureCode::DnsOk | DnsFailureCode::Unresolvable => {
            let resolves = dns == DnsFailureCode::DnsOk;
            match tcp {
                TcpFailureCode::ConnectOk => if resolves {
                    (ProbeVerdict::Ambiguous, AMBIGUOUS_BASE_CONFIDENCE)
                } else {
                    (ProbeVerdict::Ambiguous, 500_000)
                },
                TcpFailureCode::Reset => if resolves {
                    (ProbeVerdict::Blocked, 850_000)
                } else {
                    (ProbeVerdict::Blocked, 800_000)
                },
                TcpFailureCode::Timeout => if resolves {
                    (ProbeVerdict::Blocked, 750_000)
                } else {
                    (ProbeVerdict::Blocked, 600_000)
                },
                TcpFailureCode::Refused => (ProbeVerdict::Ambiguous, 400_000),
                TcpFailureCode::Unreachable => (ProbeVerdict::Ambiguous, AMBIGUOUS_BASE_CONFIDENCE),
                TcpFailureCode::DataVolumeCut => (ProbeVerdict::Blocked, 850_000),
            }
        },
    }
}

/// The verdict of name service and TCP, and how sure it is.
pub fn compute_base_verdict(dns: &DnsFailureCode, tcp: &TcpFailureCode) -> (r: (ProbeVerdict, u32))
    ensures
        r == base_verdict(*dns, *tcp),
{
    match (dns, tcp) {
        (DnsFailureCode::Poisoned, _) => (ProbeVerdict::Blocked, 950_000),
        (DnsFailureCode::NxdomainSpoof, _) => (ProbeVerdict::Blocked, 900_000),
        (DnsFailureCode::EmptySpoof, _) => (ProbeVerdict::Blocked, 850_000),
        (DnsFailureCode::Intercepted, _) => (ProbeVerdict::Blocked, 900_000),
        (DnsFailureCode::DohBlocked, _) => (ProbeVerdict::Blocked, 800_000),
        (DnsFailureCode::DnsOk, TcpFailureCode::ConnectOk) => (
            ProbeVerdict::Ambiguous,
            AMBIGUOUS_BASE_CONFIDENCE,
        ),
        (DnsFailureCode::DnsOk, TcpFailureCode::Reset) => (ProbeVerdict::Blocked, 850_000),
        (DnsFailureCode::DnsOk, TcpFailureCode::Timeout) => (ProbeVerdict::Blocked, 750_000),
        (_, TcpFailureCode::Reset) => (ProbeVerdict::Blocked, 800_000),
        (_, TcpFailureCode::Timeout) => (ProbeVerdict::Blocked, 600_000),
        (_, TcpFailureCode::Refused) => (ProbeVerdict::Ambiguous, 400_000),
        (_, TcpFailureCode::Unreachable) => (ProbeVerdict::Ambiguous, AMBIGUOUS_BASE_CONFIDENCE),
        (_, TcpFailureCode::DataVolumeCut) => (ProbeVerdict::Blocked, 850_000),
        (DnsFailureCode::Unresolvable, _) => (ProbeVerdict::Ambiguous, 500_000),
    }
}

/// Whether a score is suspicious without being high.
pub open spec fn suspicious(score: u32) -> bool {
    ML_LOW_THRESHOLD <= score <= ML_HIGH_THRESHOLD
}

/// By how much a score moves the confidence.
pub open spec fn ml_delta(score: u32) -> int {
    if !suspicious(score) {
        0
    } else if score > 500_000 {
        ML_DELTA as int
    } else {
        -ML_DELTA
    }
}

/// What a score that is not high adds to the findings.
pub open spec fn ml_signals(score: u32) -> Seq<Signal> {
    if suspicious(score) {
        seq![
            moving(
                "ml_suspicious"@,
                ml_delta(score),
                "ML score "@ + hundredths(score as nat)
                    + " in suspicious range, confidence adjusted by "@ + (if score > 500_000 {
                    "0.10"@
                } else {
                    "-0.10"@
                }),
            ),
        ]
    } else if score < ML_LOW_THRESHOLD {
        seq![
            still(
                "ml_low"@,
                SignalEffect::Neutral,
                "ML score "@ + hundredths(score as nat) + " low — no adjustment"@,
            ),
        ]
    } else {
        seq![]
    }
}

/// Whether a handshake failed.
pub open spec fn handshake_failed(tls: TlsFailureCode) -> bool {
    tls != TlsFailureCode::HandshakeOk && tls != TlsFailureCode::Version13Ok && tls
        != TlsFailureCode::Version12Only
}

/// A handshake that worked without a ServerHello being seen.
pub open spec fn lacks_server_hello(p: ProbeResult) -> bool {
    match p.tls {
        Some(t) => !handshake_failed(t.verdict) && t.server_hello_size == 0,
        None => false,
    }
}

/// A handshake that worked without a certificate being seen.
pub open spec fn lacks_certificates(p: ProbeResult) -> bool {
    match p.tls {
        Some(t) => !handshake_failed(t.verdict) && t.cert_count == 0,
        None => false,
    }
}

/// DNS over UDP took more than three times as long as over HTTPS.
pub open spec fn udp_lags(p: ProbeResult) -> bool {
    p.dns.doh_rtt_us > 0 && p.dns.udp_rtt_us > p.dns.doh_rtt_us * 3
}

/// The TLS handshake took more than five times as long as the TCP connection.
pub open spec fn handshake_lags(p: ProbeResult) -> bool {
    match p.tls {
        Some(t) => p.tcp.rtt_us > 0 && t.latency_us > p.tcp.rtt_us * 5,
        None => false,
    }
}

/// Microseconds in whole milliseconds, rounded to the nearest, halves to the
/// even one.
pub open spec fn rounded_ms(us: nat) -> nat {
    let below = us / 1000;
    let rest = us % 1000;
    if rest > 500 || (rest == 500 && below % 2 == 1) {
        below + 1
    } else {
        below
    }
}

/// What odd sizes and times add to the findings.
pub open spec fn timing_signals(p: ProbeResult) -> Seq<Signal> {
    (if lacks_server_hello(p) {
        seq![
            moving(
                "tls_zero_server_hello"@,
                TLS_ZERO_FEATURES_DELTA as int,
                "TLS ok but server_hello_size=0 — raw probe anomaly, confidence reduced"@,
            ),
        ]
    } else {
        seq![]
    }) + (if lacks_certificates(p) {
        seq![
            moving(
                "tls_zero_certs"@,
                TLS_ZERO_FEATURES_DELTA as int,
                "TLS ok but cert_count=0 — raw probe anomaly, confidence reduced"@,
            ),
        ]
    } else {
        seq![]
    }) + (if udp_lags(p) {
        seq![
            moving(
                "dns_udp_doh_ratio"@,
                DNS_MANIP_DELTA as int,
                "UDP RTT "@ + decimal((p.dns.udp_rtt_us / 1000) as nat) + "ms > 3× DoH RTT "@
                    + decimal((p.dns.doh_rtt_us / 1000) as nat) + "ms — DNS manipulation hint"@,
            ),
        ]
    } else {
        seq![]
    }) + (if handshake_lags(p) {
        seq![
            moving(
                "tls_tcp_ratio"@,
                DPI_DELAY_DELTA as int,
                "TLS RTT "@ + decimal(rounded_ms(p.tls->0.latency_us as nat))
                    + "ms > 5× TCP RTT "@ + decimal(rounded_ms(p.tcp.rtt_us as nat))
                    + "ms — DPI delay hint"@,
            ),
        ]
    } else {
        seq![]
    })
}

/// By how much odd sizes and times move the confidence.
pub open spec fn timing_delta(p: ProbeResult) -> int {
    (if lacks_server_hello(p) {
        TLS_ZERO_FEATURES_DELTA as int
    } else {
        0
    }) + (if lacks_certificates(p) {
        TLS_ZERO_FEATURES_DELTA as int
    } else {
        0
    }) + (if udp_lags(p) {
        DNS_MANIP_DELTA as int
    } else {
        0
    }) + (if handshake_lags(p) {
        DPI_DELAY_DELTA as int
    } else {
        0
    })
}

/// A number held between zero and a limit.
pub open spec fn held(x: int, limit: int) -> int {
    if x < 0 {
        0
    } else if x > limit {
        limit
    } else {
        x
    }
}

/// The score's findings, where there is a score.
pub open spec fn score_signals(p: ProbeResult) -> Seq<Signal> {
    match p.ml {
        Some(ml) => ml_signals(ml.score),
        None => seq![],
    }
}

/// By how much the score moves the confidence, where there is a score.
pub open spec fn score_delta(p: ProbeResult) -> int {
    match p.ml {
        Some(ml) => ml_delta(ml.score),
        None => 0,
    }
}

/// Whether the name service was manipulated.
pub open spec fn dns_manipulated(p: ProbeResult) -> bool {
    p.dns.verdict == DnsFailureCode::Poisoned || p.dns.verdict == DnsFailureCode::NxdomainSpoof
        || p.dns.verdict == DnsFailureCode::EmptySpoof
}

/// Whether a failure was laid at somebody's door.
pub open spec fn origin_is(p: ProbeResult, origin: BlockOrigin) -> bool {
    match p.discrimination {
        Some(d) => d.origin == origin,
        None => false,
    }
}

/// Whether the fingerprint probe came to a verdict.
pub open spec fn fingerprints_say(p: ProbeResult, verdict: FingerprintVerdict) -> bool {
    match p.ja4 {
        Some(j) => j.verdict == verdict,
        None => false,
    }
}

/// Whether the score is high.
pub open spec fn score_is_high(p: ProbeResult) -> bool {
    match p.ml {
        Some(ml) => ml.score > ML_HIGH_THRESHOLD,
        None => false,
    }
}

/// Whether every phase passed.
pub open spec fn all_phases_passed(p: ProbeResult) -> bool {
    &&& p.dns.verdict == DnsFailureCode::DnsOk
    &&& p.tcp.verdict == TcpFailureCode::ConnectOk
    &&& match p.tls {
        Some(t) => !handshake_failed(t.verdict),
        None => false,
    }
    &&& match p.http {
        Some(h) => h.verdict == HttpFailureCode::HttpOk || h.verdict
            == HttpFailureCode::RedirectSame,
        None => false,
    }
}

/// The features of a score as a list of texts, as std's `Debug` writes it.
pub open spec fn feature_list(features: Seq<(String, u64)>, n: int) -> Seq<char>
    decreases n,
{
    if n <= 0 {
        seq![]
    } else {
        feature_list(features, n - 1) + (if n > 1 {
            ", "@
        } else {
            ""@
        }) + quoted_text(
            features[n - 1].0@ + "="@ + hundredths(features[n - 1].1 as nat),
        )
    }
}

/// The ruling of a manipulated name service.
pub open spec fn dns_ruling(p: ProbeResult) -> Ruling {
    Ruling {
        verdict: ProbeVerdict::Blocked,
        confidence: 950_000,
        rationale: "DNS poisoning detected ("@ + dns_name(p.dns.verdict)
            + ") — blocked at DNS level"@,
        signals: seq![
            still(
                "dns_poisoning"@,
                SignalEffect::HardRule,
                "DNS poisoned: "@ + dns_name(p.dns.verdict),
            ),
        ],
    }
}

/// The ruling of an intercepted name service.
pub open spec fn intercepted_ruling() -> Ruling {
    Ruling {
        verdict: ProbeVerdict::Blocked,
        confidence: 900_000,
        rationale: "DNS intercepted — UDP DNS blocked, DoH works"@,
        signals: seq![
            still(
                "dns_intercepted"@,
                SignalEffect::HardRule,
                "DNS intercepted (UDP blocked, DoH works)"@,
            ),
        ],
    }
}

/// The ruling of a server that answered for itself.
pub open spec fn server_ruling(p: ProbeResult) -> Ruling {
    Ruling {
        verdict: ProbeVerdict::Clear,
        confidence: p.discrimination->0.confidence as int,
        rationale: "Server-active: "@ + p.discrimination->0.rationale@,
        signals: seq![
            still("server_active"@, SignalEffect::HardRule, p.discrimination->0.rationale@),
        ],
    }
}

/// The ruling of QUIC that works where TCP does not.
pub open spec fn bypass_ruling() -> Ruling {
    Ruling {
        verdict: ProbeVerdict::Ambiguous,
        confidence: 700_000,
        rationale: "QUIC partial bypass: TCP blocked but QUIC works. User can use HTTP/3 if server supports it. Needs temporal accumulation to confirm."@,
        signals: seq![
            still(
                "quic_bypass"@,
                SignalEffect::HardRule,
                "TCP blocked, QUIC works — partial bypass"@,
            ),
        ],
    }
}

/// The ruling of interference on the path.
pub open spec fn path_ruling(p: ProbeResult) -> Ruling {
    Ruling {
        verdict: ProbeVerdict::Blocked,
        confidence: held(
            p.discrimination->0.confidence + score_delta(p) + timing_delta(p),
            1_000_000,
        ),
        rationale: "Path-active DPI: "@ + p.discrimination->0.rationale@,
        signals: seq![
            still("path_active"@, SignalEffect::Support, p.discrimination->0.rationale@),
        ] + score_signals(p) + timing_signals(p),
    }
}

/// The ruling of a filter on fingerprints.
pub open spec fn fingerprint_ruling(p: ProbeResult) -> Ruling {
    let blocked = optional_text(opt_view(p.ja4->0.blocked_profile));
    let working = optional_text(opt_view(p.ja4->0.working_profile));
    Ruling {
        verdict: ProbeVerdict::Blocked,
        confidence: held(850_000 + score_delta(p) + timing_delta(p), 1_000_000),
        rationale: "JA4 fingerprint blocking detected (blocked="@ + blocked + ", works="@ + working
            + ")"@,
        signals: seq![
            still(
                "ja4_fingerprint_blocking"@,
                SignalEffect::Support,
                "Fingerprint blocking: blocked="@ + blocked + ", working="@ + working,
            ),
        ] + score_signals(p) + timing_signals(p),
    }
}

/// What a filter on server names adds to the findings.
pub open spec fn name_filter_signals(p: ProbeResult) -> Seq<Signal> {
    if fingerprints_say(p, FingerprintVerdict::SniBasedBlocking) {
        seq![
            still(
                "ja4_sni_blocking"@,
                SignalEffect::Support,
                "All 4 fingerprints blocked — SNI-based blocking"@,
            ),
        ]
    } else {
        seq![]
    }
}

/// The ruling of a high score.
pub open spec fn score_ruling(p: ProbeResult) -> Ruling {
    let ml = p.ml->0;
    Ruling {
        verdict: ProbeVerdict::Blocked,
        confidence: held(ml.score + timing_delta(p), 1_000_000),
        rationale: "ML anomaly detection: score "@ + hundredths(ml.score as nat)
            + ", top features: ["@ + feature_list(ml.top_features@, ml.top_features@.len() as int)
            + "]"@,
        signals: name_filter_signals(p) + seq![
            still(
                "ml_high_anomaly"@,
                SignalEffect::Support,
                "ML anomaly score "@ + hundredths(ml.score as nat) + " — DPI blocking likely"@,
            ),
        ] + timing_signals(p),
    }
}

/// The ruling of name service and TCP.
pub open spec fn base_ruling(p: ProbeResult) -> Ruling {
    let (verdict, base) = base_verdict(p.dns.verdict, p.tcp.verdict);
    let confidence = base + score_delta(p) + timing_delta(p);
    let found = name_filter_signals(p) + score_signals(p) + timing_signals(p);
    if all_phases_passed(p) {
        Ruling {
            verdict: ProbeVerdict::Ambiguous,
            confidence: held(confidence, 500_000),
            rationale: "All probe phases passed — needs accumulation for Clear verdict"@,
            signals: found.push(
                still(
                    "all_phases_ok"@,
                    SignalEffect::Neutral,
                    "All phases OK — needs temporal accumulation for Clear"@,
                ),
            ),
        }
    } else {
        Ruling {
            verdict,
            confidence: held(confidence, 1_000_000),
            rationale: "Base verdict from DNS+TCP: "@ + dns_name(p.dns.verdict) + "+"@ + tcp_name(
                p.tcp.verdict,
            ) + ", adjusted by ML/T50 signals"@,
            signals: found.push(
                still(
                    "fallback"@,
                    SignalEffect::Neutral,
                    "No strong signal — fallback to base verdict"@,
                ),
            ),
        }
    }
}

/// The ruling of a probe.
pub open spec fn ruling_of(p: ProbeResult) -> Ruling {
    if dns_manipulated(p) {
        dns_ruling(p)
    } else if p.dns.verdict == DnsFailureCode::Intercepted {
        intercepted_ruling()
    } else if origin_is(p, BlockOrigin::ServerActive) {
        server_ruling(p)
    } else if p.quic_verdict == Some(QuicVerdict::QuicBypass) {
        bypass_ruling()
    } else if origin_is(p, BlockOrigin::PathActive) {
        path_ruling(p)
    } else if fingerprints_say(p, FingerprintVerdict::FingerprintBlocking) {
        fingerprint_ruling(p)
    } else if score_is_high(p) {
        score_ruling(p)
    } else {
        base_ruling(p)
    }
}

fn push_signal(
    signals: &mut Vec<SignalContribution>,
    name: &str,
    effect: SignalEffect,
    delta: i64,
    description: String,
)
    ensures
        signals_of(final(signals)@) == signals_of(old(signals)@).push(
            Signal { name: name@, effect, delta: delta as int, description: description@ },
        ),
{
    let ghost before: Seq<Signal> = signals_of(signals@);
    let added: SignalContribution = SignalContribution {
        signal_name: owned(name),
        effect,
        delta,
        description,
    };
    signals.push(added);
    assert(signals_of(signals@) =~= before.push(added@));
}

fn join(a: &str, b: &str, c: &str) -> (r: String)
    ensures
        r@ == a@ + b@ + c@,
{
    let mut r: String = owned(a);
    r.append(b);
    r.append(c);
    r
}

fn clamp(x: i64, limit: u32) -> (r: u32)
    ensures
        r == held(x as int, limit as int),
{
    if x < 0 {
        0
    } else if x > limit as i64 {
        limit
    } else {
        x as u32
    }
}

/// Lets a score that is not high move the confidence.
pub fn apply_ml_adjustment(
    ml_score: u32,
    confidence: i64,
    signals: &mut Vec<SignalContribution>,
) -> (r: i64)
    requires
        i64::MIN <= confidence + ml_delta(ml_score) <= i64::MAX,
    ensures
        r == confidence + ml_delta(ml_score),
        signals_of(final(signals)@) == signals_of(old(signals)@) + ml_signals(ml_score),
{
    let ghost before: Seq<Signal> = signals_of(signals@);
    let mut description: String = owned("ML score ");
    push_hundredths(&mut description, ml_score as u64);
    if ml_score >= ML_LOW_THRESHOLD && ml_score <= ML_HIGH_THRESHOLD {
        let up: bool = ml_score > 500_000;
        description.append(" in suspicious range, confidence adjusted by ");
        description.append(
            if up {
                "0.10"
            } else {
                "-0.10"
            },
        );
        let delta: i64 = if up {
            ML_DELTA
        } else {
            -ML_DELTA
        };
        push_signal(signals, "ml_suspicious", SignalEffect::ConfidenceAdjust, delta, description);
        assert(signals_of(signals@) =~= before + ml_signals(ml_score));
        confidence + delta
    } else if ml_score < ML_LOW_THRESHOLD {
        description.append(" low — no adjustment");
        push_signal(signals, "ml_low", SignalEffect::Neutral, 0, description);
        assert(signals_of(signals@) =~= before + ml_signals(ml_score));
        confidence
    } else {
        assert(signals_of(signals@) =~= before + ml_signals(ml_score));
        confidence
    }
}

fn round_ms(us: u64) -> (r: u64)
    ensures
        r == rounded_ms(us as nat),
{
    let below: u64 = us / 1000;
    let rest: u64 = us % 1000;
    if rest > 500 || (rest == 500 && below % 2 == 1) {
        below + 1
    } else {
        below
    }
}

/// Lets odd sizes and times move the confidence.
pub fn apply_t50_adjustments(
    result: &ProbeResult,
    confidence: i64,
    signals: &mut Vec<SignalContribution>,
) -> (r: i64)
    requires
        i64::MIN + 300_000 <= confidence <= i64::MAX - 200_000,
    ensures
        r == confidence + timing_delta(*result),
        signals_of(final(signals)@) == signals_of(old(signals)@) + timing_signals(*result),
{
    let ghost before: Seq<Signal> = signals_of(signals@);
    let mut confidence: i64 = confidence;
    if let Some(tls) = &result.tls {
        if !tls.verdict.is_tls_fail() && tls.server_hello_size == 0 {
            confidence = confidence + TLS_ZERO_FEATURES_DELTA;
            push_signal(
                signals,
                "tls_zero_server_hello",
                SignalEffect::ConfidenceAdjust,
                TLS_ZERO_FEATURES_DELTA,
                owned("TLS ok but server_hello_size=0 — raw probe anomaly, confidence reduced"),
            );
        }
        if !tls.verdict.is_tls_fail() && tls.cert_count == 0 {
            confidence = confidence + TLS_ZERO_FEATURES_DELTA;
            push_signal(
                signals,
                "tls_zero_certs",
                SignalEffect::ConfidenceAdjust,
                TLS_ZERO_FEATURES_DELTA,
                owned("TLS ok but cert_count=0 — raw probe anomaly, confidence reduced"),
            );
        }
    }
    let udp_rtt: u64 = result.dns.udp_rtt_us;
    let doh_rtt: u64 = result.dns.doh_rtt_us;
    if doh_rtt > 0 && (udp_rtt as u128) > (doh_rtt as u128) * 3 {
        confidence = confidence + DNS_MANIP_DELTA;
        let mut description: String = owned("UDP RTT ");
        push_decimal(&mut description, udp_rtt / 1000);
        description.append("ms > 3× DoH RTT ");
        push_decimal(&mut description, doh_rtt / 1000);
        description.append("ms — DNS manipulation hint");
        push_signal(
            signals,
            "dns_udp_doh_ratio",
            SignalEffect::ConfidenceAdjust,
            DNS_MANIP_DELTA,
            description,
        );
    }
    if let Some(tls) = &result.tls {
        let tcp_rtt: u64 = result.tcp.rtt_us;
        if tcp_rtt > 0 && (tls.latency_us as u128) > (tcp_rtt as u128) * 5 {
            confidence = confidence + DPI_DELAY_DELTA;
            let mut description: String = owned("TLS RTT ");
            push_decimal(&mut description, round_ms(tls.latency_us));
            description.append("ms > 5× TCP RTT ");
            push_decimal(&mut description, round_ms(tcp_rtt));
            description.append("ms — DPI delay hint");
            push_signal(
                signals,
                "tls_tcp_ratio",
                SignalEffect::ConfidenceAdjust,
                DPI_DELAY_DELTA,
                description,
            );
        }
    }
    assert(signals_of(signals@) =~= before + timing_signals(*result));
    confidence
}

fn adjusted(result: &ProbeResult, base: u32, signals: &mut Vec<SignalContribution>) -> (r: i64)
    ensures
        r == base + score_delta(*result) + timing_delta(*result),
        signals_of(final(signals)@) == signals_of(old(signals)@) + score_signals(*result)
            + timing_signals(*result),
{
    let ghost before: Seq<Signal> = signals_of(signals@);
    let mut confidence: i64 = base as i64;
    if let Some(ml) = &result.ml {
        confidence = apply_ml_adjustment(ml.score, confidence, signals);
    }
    assert(signals_of(signals@) =~= before + score_signals(*result));
    apply_t50_adjustments(result, confidence, signals)
}

fn push_features(out: &mut String, features: &Vec<(String, u64)>)
    ensures
        final(out)@ == old(out)@ + feature_list(features@, features@.len() as int),
{
    let ghost before: Seq<char> = out@;
    let mut i: usize = 0;
    assert(out@ =~= before + feature_list(features@, 0));
    while i < features.len()
        invariant
            i <= features@.len(),
            out@ == before + feature_list(features@, i as int),
        decreases features@.len() - i,
    {
        out.append(
            if i > 0 {
                ", "
            } else {
                ""
            },
        );
        let mut item: String = owned(features[i].0.as_str());
        item.append("=");
        push_hundredths(&mut item, features[i].1);
        let q: String = quoted(item.as_str());
        out.append(q.as_str());
        i = i + 1;
        assert(out@ =~= before + feature_list(features@, i as int));
    }
}

fn decide_dns(result: &ProbeResult) -> (r: Decision)
    ensures
        r@ == dns_ruling(*result),
{
    let name: &'static str = dns_label(result.dns.verdict);
    let mut signals: Vec<SignalContribution> = Vec::new();
    push_signal(
        &mut signals,
        "dns_poisoning",
        SignalEffect::HardRule,
        0,
        join("DNS poisoned: ", name, ""),
    );
    assert(signals_of(signals@) =~= dns_ruling(*result).signals) by {
        reveal_strlit("");
        assert("DNS poisoned: "@ + name@ + ""@ =~= "DNS poisoned: "@ + name@);
    }
    Decision {
        verdict: ProbeVerdict::Blocked,
        confidence: 950_000,
        rationale: join("DNS poisoning detected (", name, ") — blocked at DNS level"),
        signals,
    }
}

fn settled(
    verdict: ProbeVerdict,
    confidence: u32,
    name: &str,
    description: &str,
    rationale: String,
) -> (r: Decision)
    ensures
        r@ == (Ruling {
            verdict,
            confidence: confidence as int,
            rationale: rationale@,
            signals: seq![still(name@, SignalEffect::HardRule, description@)],
        }),
{
    let mut signals: Vec<SignalContribution> = Vec::new();
    push_signal(&mut signals, name, SignalEffect::HardRule, 0, owned(description));
    assert(signals_of(signals@) =~= seq![still(name@, SignalEffect::HardRule, description@)]);
    Decision { verdict, confidence, rationale, signals }
}

fn prefixed(prefix: &str, text: &str) -> (r: String)
    ensures
        r@ == prefix@ + text@,
{
    let mut r: String = owned(prefix);
    r.append(text);
    r
}

fn decide_fingerprint(result: &ProbeResult) -> (r: Decision)
    requires
        fingerprints_say(*result, FingerprintVerdict::FingerprintBlocking),
    ensures
        r@ == fingerprint_ruling(*result),
{
    let mut signals: Vec<SignalContribution> = Vec::new();
    let mut blocked: String = String::new();
    let mut working: String = String::new();
    if let Some(ja4) = &result.ja4 {
        blocked = optional(&ja4.blocked_profile);
        working = optional(&ja4.working_profile);
    }
    let mut description: String = prefixed("Fingerprint blocking: blocked=", blocked.as_str());
    description.append(", working=");
    description.append(working.as_str());
    push_signal(
        &mut signals,
        "ja4_fingerprint_blocking",
        SignalEffect::Support,
        0,
        description,
    );
    let ghost first: Seq<Signal> = signals_of(signals@);
    assert(first =~= seq![first[0]]);
    let confidence: i64 = adjusted(result, 850_000, &mut signals);
    let mut rationale: String = prefixed(
        "JA4 fingerprint blocking detected (blocked=",
        blocked.as_str(),
    );
    rationale.append(", works=");
    rationale.append(working.as_str());
    rationale.append(")");
    Decision {
        verdict: ProbeVerdict::Blocked,
        confidence: clamp(confidence, 1_000_000),
        rationale,
        signals,
    }
}

fn decide_rest(result: &ProbeResult) -> (r: Decision)
    ensures
        r@ == (if score_is_high(*result) {
            score_ruling(*result)
        } else {
            base_ruling(*result)
        }),
{
    let mut signals: Vec<SignalContribution> = Vec::new();
    if let Some(ja4) = &result.ja4 {
        if ja4.verdict == FingerprintVerdict::SniBasedBlocking {
            push_signal(
                &mut signals,
                "ja4_sni_blocking",
                SignalEffect::Support,
                0,
                owned("All 4 fingerprints blocked — SNI-based blocking"),
            );
        }
    }
    assert(signals_of(signals@) =~= name_filter_signals(*result));
    if let Some(ml) = &result.ml {
        if ml.score > ML_HIGH_THRESHOLD {
            let mut description: String = owned("ML anomaly score ");
            push_hundredths(&mut description, ml.score as u64);
            description.append(" — DPI blocking likely");
            push_signal(&mut signals, "ml_high_anomaly", SignalEffect::Support, 0, description);
            let ghost found: Seq<Signal> = signals_of(signals@);
            assert(found =~= name_filter_signals(*result) + seq![found.last()]);
            let confidence: i64 = apply_t50_adjustments(result, ml.score as i64, &mut signals);
            let mut rationale: String = owned("ML anomaly detection: score ");
            push_hundredths(&mut rationale, ml.score as u64);
            rationale.append(", top features: [");
            push_features(&mut rationale, &ml.top_features);
            rationale.append("]");
            return Decision {
                verdict: ProbeVerdict::Blocked,
                confidence: clamp(confidence, 1_000_000),
                rationale,
                signals,
            };
        }
    }
    let (verdict, base): (ProbeVerdict, u32) = compute_base_verdict(
        &result.dns.verdict,
        &result.tcp.verdict,
    );
    let confidence: i64 = adjusted(result, base, &mut signals);
    let tls_passed: bool = match &result.tls {
        Some(t) => !t.verdict.is_tls_fail(),
        None => false,
    };
    let http_passed: bool = match &result.http {
        Some(h) => !h.verdict.is_error(),
        None => false,
    };
    if verdict == ProbeVerdict::Ambiguous && result.dns.verdict == DnsFailureCode::DnsOk
        && result.tcp.verdict == TcpFailureCode::ConnectOk && tls_passed && http_passed {
        push_signal(
            &mut signals,
            "all_phases_ok",
            SignalEffect::Neutral,
            0,
            owned("All phases OK — needs temporal accumulation for Clear"),
        );
        return Decision {
            verdict: ProbeVerdict::Ambiguous,
            confidence: clamp(confidence, 500_000),
            rationale: owned("All probe phases passed — needs accumulation for Clear verdict"),
            signals,
        };
    }
    push_signal(
        &mut signals,
        "fallback",
        SignalEffect::Neutral,
        0,
        owned("No strong signal — fallback to base verdict"),
    );
    let mut rationale: String = prefixed(
        "Base verdict from DNS+TCP: ",
        dns_label(result.dns.verdict),
    );
    rationale.append("+");
    rationale.append(tcp_label(result.tcp.verdict));
    rationale.append(", adjusted by ML/T50 signals");
    Decision { verdict, confidence: clamp(confidence, 1_000_000), rationale, signals }
}

/// Weighs what the phases of a probe found.
pub fn decide(result: &ProbeResult) -> (r: Decision)
    ensures
        r@ == ruling_of(*result),
{
    match result.dns.verdict {
        DnsFailureCode::Poisoned
        | DnsFailureCode::NxdomainSpoof
        | DnsFailureCode::EmptySpoof => {
            return decide_dns(result);
        },
        DnsFailureCode::Intercepted => {
            return settled(
                ProbeVerdict::Blocked,
                900_000,
                "dns_intercepted",
                "DNS intercepted (UDP blocked, DoH works)",
                owned("DNS intercepted — UDP DNS blocked, DoH works"),
            );
        },
        _ => {},
    }
    if let Some(disc) = &result.discrimination {
        if disc.origin == BlockOrigin::ServerActive {
            return settled(
                ProbeVerdict::Clear,
                disc.confidence,
                "server_active",
                disc.rationale.as_str(),
                prefixed("Server-active: ", disc.rationale.as_str()),
            );
        }
    }
    if let Some(quic_verdict) = &result.quic_verdict {
        if *quic_verdict == QuicVerdict::QuicBypass {
            return settled(
                ProbeVerdict::Ambiguous,
                700_000,
                "quic_bypass",
                "TCP blocked, QUIC works — partial bypass",
                owned(
                    "QUIC partial bypass: TCP blocked but QUIC works. User can use HTTP/3 if server supports it. Needs temporal accumulation to confirm.",
                ),
            );
        }
    }
    if let Some(disc) = &result.discrimination {
        if disc.origin == BlockOrigin::PathActive {
            let mut signals: Vec<SignalContribution> = Vec::new();
            push_signal(
                &mut signals,
                "path_active",
                SignalEffect::Support,
                0,
                owned(disc.rationale.as_str()),
            );
            assert(signals_of(signals@) =~= seq![
                still("path_active"@, SignalEffect::Support, disc.rationale@),
            ]);
            let confidence: i64 = adjusted(result, disc.confidence, &mut signals);
            return Decision {
                verdict: ProbeVerdict::Blocked,
                confidence: clamp(confidence, 1_000_000),
                rationale: prefixed("Path-active DPI: ", disc.rationale.as_str()),
                signals,
            };
        }
    }
    if let Some(ja4) = &result.ja4 {
        if ja4.verdict == FingerprintVerdict::FingerprintBlocking {
            return decide_fingerprint(result);
        }
    }
    decide_rest(result)
}

/// A manipulated or intercepted name service is a block, whatever the other
/// phases found.
pub proof fn manipulated_names_decide(p: ProbeResult)
    requires
        dns_manipulated(p) || p.dns.verdict == DnsFailureCode::Intercepted,
    ensures
        ruling_of(p).verdict == ProbeVerdict::Blocked,
        ruling_of(p).confidence >= 900_000,
{
}

/// Where names were not tampered with, a server that answered for itself is
/// clear, whatever the score.
pub proof fn answering_server_is_clear(p: ProbeResult)
    requires
        !dns_manipulated(p),
        p.dns.verdict != DnsFailureCode::Intercepted,
        origin_is(p, BlockOrigin::ServerActive),
    ensures
        ruling_of(p).verdict == ProbeVerdict::Clear,
        ruling_of(p).confidence == p.discrimination->0.confidence,
{
}

/// A probe is cleared only by a server that answered for itself.
pub proof fn only_servers_clear(p: ProbeResult)
    ensures
        ruling_of(p).verdict == ProbeVerdict::Clear ==> origin_is(p, BlockOrigin::ServerActive),
{
}

/// Where every phase passed and nothing strong was found, the outcome stays
/// open, with a confidence of at most one half.
pub proof fn passing_everything_stays_open(p: ProbeResult)
    requires
        all_phases_passed(p),
        p.discrimination is None,
        p.quic_verdict != Some(QuicVerdict::QuicBypass),
        !fingerprints_say(p, FingerprintVerdict::FingerprintBlocking),
        !score_is_high(p),
    ensures
        ruling_of(p).verdict == ProbeVerdict::Ambiguous,
        ruling_of(p).confidence <= 500_000,
{
}

/// Confidence lies between zero and one, as long as that of the failure's
/// origin does.
pub proof fn confidence_is_a_fraction(p: ProbeResult)
    requires
        match p.discrimination {
            Some(d) => d.confidence <= 1_000_000,
            None => true,
        },
    ensures
        0 <= ruling_of(p).confidence <= 1_000_000,
{
}

/// What is decided can be explained: some finding is always named.
pub proof fn every_ruling_is_explained(p: ProbeResult)
    ensures
        ruling_of(p).signals.len() > 0,
{
}

/// A score that is not high and odd times move the confidence, never the
/// verdict.
pub proof fn anomalies_move_confidence_only(p: ProbeResult, q: ProbeResult)
    requires
        p.dns.verdict == q.dns.verdict,
        p.tcp.verdict == q.tcp.verdict,
        p.discrimination == q.discrimination,
        p.quic_verdict == q.quic_verdict,
        p.ja4 == q.ja4,
        !score_is_high(p),
        !score_is_high(q),
    ensures
        ruling_of(p).verdict == ruling_of(q).verdict,
{
}

/// Names that were tampered with are a block, and a sure one, and nothing that
/// other phases found plays a part.
pub proof fn tampered_names_settle_it(p: ProbeResult, q: ProbeResult)
    requires
        p.dns.verdict == DnsFailureCode::Poisoned || p.dns.verdict == DnsFailureCode::NxdomainSpoof
            || p.dns.verdict == DnsFailureCode::EmptySpoof || p.dns.verdict
            == DnsFailureCode::Intercepted,
        q.dns.verdict == p.dns.verdict,
    ensures
        ruling_of(p).verdict == ProbeVerdict::Blocked,
        900_000 <= ruling_of(p).confidence <= 950_000,
        ruling_of(p).confidence == 950_000 <==> p.dns.verdict != DnsFailureCode::Intercepted,
        ruling_of(p) == ruling_of(q),
{
}

/// A probe is clear exactly where names were not tampered with and a server
/// answered for itself; the confidence is that of the answer.
pub proof fn clear_means_a_server_answered(p: ProbeResult)
    ensures
        ruling_of(p).verdict == ProbeVerdict::Clear <==> {
            &&& p.dns.verdict != DnsFailureCode::Poisoned
            &&& p.dns.verdict != DnsFailureCode::NxdomainSpoof
            &&& p.dns.verdict != DnsFailureCode::EmptySpoof
            &&& p.dns.verdict != DnsFailureCode::Intercepted
            &&& p.discrimination matches Some(d) && d.origin == BlockOrigin::ServerActive
        },
        ruling_of(p).verdict == ProbeVerdict::Clear ==> ruling_of(p).confidence
            == p.discrimination->0.confidence,
{
}

/// Where names were not tampered with and no server answered for itself, QUIC
/// that works where TCP does not leaves the outcome open, against whatever
/// speaks for a block.
pub proof fn working_quic_leaves_it_open(p: ProbeResult)
    requires
        p.dns.verdict == DnsFailureCode::DnsOk || p.dns.verdict == DnsFailureCode::DohBlocked
            || p.dns.verdict == DnsFailureCode::Unresolvable,
        p.discrimination matches Some(d) ==> d.origin != BlockOrigin::ServerActive,
        p.quic_verdict == Some(QuicVerdict::QuicBypass),
    ensures
        ruling_of(p).verdict == ProbeVerdict::Ambiguous,
        ruling_of(p).confidence == 700_000,
{
}

/// Where nothing settles the matter, each strong finding is a block by itself:
/// interference on the path, a filter on fingerprints, a score above eighty
/// percent.
pub proof fn strong_findings_are_blocks(p: ProbeResult)
    requires
        p.dns.verdict == DnsFailureCode::DnsOk || p.dns.verdict == DnsFailureCode::DohBlocked
            || p.dns.verdict == DnsFailureCode::Unresolvable,
        p.discrimination matches Some(d) ==> d.origin != BlockOrigin::ServerActive,
        p.quic_verdict != Some(QuicVerdict::QuicBypass),
        (p.discrimination matches Some(d) && d.origin == BlockOrigin::PathActive) || (
        p.ja4 matches Some(j) && j.verdict == FingerprintVerdict::FingerprintBlocking) || (
        p.ml matches Some(ml) && ml.score > 800_000),
    ensures
        ruling_of(p).verdict == ProbeVerdict::Blocked,
{
}

/// Where nothing settles the matter and no finding is strong, name service and
/// TCP decide. For a name that resolves or resolves nowhere, that is a block
/// exactly where the connection was reset, timed out or broke off after some
/// data; for one that only DNS over HTTPS fails on, always.
pub proof fn weak_findings_leave_it_to_dns_and_tcp(p: ProbeResult)
    requires
        p.dns.verdict == DnsFailureCode::DnsOk || p.dns.verdict == DnsFailureCode::DohBlocked
            || p.dns.verdict == DnsFailureCode::Unresolvable,
        p.discrimination matches Some(d) ==> d.origin == BlockOrigin::Ambiguous,
        p.quic_verdict != Some(QuicVerdict::QuicBypass),
        p.ja4 matches Some(j) ==> j.verdict != FingerprintVerdict::FingerprintBlocking,
        p.ml matches Some(ml) ==> ml.score <= 800_000,
    ensures
        ruling_of(p).verdict == (if p.dns.verdict == DnsFailureCode::DohBlocked || p.tcp.verdict
            == TcpFailureCode::Reset || p.tcp.verdict == TcpFailureCode::Timeout || p.tcp.verdict
            == TcpFailureCode::DataVolumeCut {
            ProbeVerdict::Blocked
        } else {
            ProbeVerdict::Ambiguous
        }),
{
}

/// What name service and TCP say by themselves: every block that the phases
/// alone show is one here, none is cleared, a block is surer than an open
/// outcome, and for a name that resolves a block has at least three quarters of
/// certainty.
pub proof fn base_verdicts_agree_with_the_phases(dns: DnsFailureCode, tcp: TcpFailureCode)
    ensures
        phase_verdict(dns, tcp) == ProbeVerdict::Blocked ==> base_verdict(dns, tcp).0
            == ProbeVerdict::Blocked,
        base_verdict(dns, tcp).0 != ProbeVerdict::Clear,
        base_verdict(dns, tcp).0 == ProbeVerdict::Blocked <==> {
            ||| dns != DnsFailureCode::DnsOk && dns != DnsFailureCode::Unresolvable
            ||| tcp == TcpFailureCode::Reset
            ||| tcp == TcpFailureCode::Timeout
            ||| tcp == TcpFailureCode::DataVolumeCut
        },
        base_verdict(dns, tcp).0 == ProbeVerdict::Blocked ==> (600_000 <= base_verdict(dns, tcp).1
            && base_verdict(dns, tcp).1 <= 950_000),
        base_verdict(dns, tcp).0 == ProbeVerdict::Blocked && dns != DnsFailureCode::Unresolvable
            ==> base_verdict(dns, tcp).1 >= 750_000,
        base_verdict(dns, tcp).0 == ProbeVerdict::Ambiguous ==> (300_000 <= base_verdict(
            dns,
            tcp,
        ).1 && base_verdict(dns, tcp).1 <= 500_000),
{
}

/// How sure name service and TCP are: tampering with names weighs the same
/// whatever TCP did, and the more plainly it shows the more it weighs. A block
/// of a name that resolves is at least as sure as the same block of one that
/// does not; a connection that breaks off is the surest sign, then a reset, then
/// a timeout; a refusal says more than a host that cannot be reached.
pub proof fn base_confidence_is_ordered(
    dns: DnsFailureCode,
    tcp: TcpFailureCode,
    other: TcpFailureCode,
)
    ensures
        dns != DnsFailureCode::DnsOk && dns != DnsFailureCode::Unresolvable ==> base_verdict(dns, tcp)
            == base_verdict(dns, other),
        base_verdict(DnsFailureCode::Poisoned, other).1 >= base_verdict(dns, tcp).1,
        ({
            let poisoned = base_verdict(DnsFailureCode::Poisoned, tcp).1;
            let spoofed = base_verdict(DnsFailureCode::NxdomainSpoof, tcp).1;
            let intercepted = base_verdict(DnsFailureCode::Intercepted, tcp).1;
            let empty = base_verdict(DnsFailureCode::EmptySpoof, tcp).1;
            let no_doh = base_verdict(DnsFailureCode::DohBlocked, tcp).1;
            poisoned > spoofed && spoofed == intercepted && intercepted > empty && empty > no_doh
        }),
        base_verdict(DnsFailureCode::Unresolvable, tcp).0 == ProbeVerdict::Blocked ==> base_verdict(
            DnsFailureCode::DnsOk,
            tcp,
        ).1 >= base_verdict(DnsFailureCode::Unresolvable, tcp).1,
        dns == DnsFailureCode::DnsOk || dns == DnsFailureCode::Unresolvable ==> ({
            let cut = base_verdict(dns, TcpFailureCode::DataVolumeCut).1;
            let reset = base_verdict(dns, TcpFailureCode::Reset).1;
            let timeout = base_verdict(dns, TcpFailureCode::Timeout).1;
            let refused = base_verdict(dns, TcpFailureCode::Refused).1;
            let unreachable = base_verdict(dns, TcpFailureCode::Unreachable).1;
            cut >= reset && reset > timeout && timeout > refused && refused > unreachable
        }),
{
}

/// By how much findings moved the confidence, taken together.
pub open spec fn moved_by(signals: Seq<Signal>) -> int
    decreases signals.len(),
{
    if signals.len() == 0 {
        0
    } else {
        moved_by(signals.drop_last()) + signals.last().delta
    }
}

proof fn lemma_moved_by_concat(a: Seq<Signal>, b: Seq<Signal>)
    ensures
        moved_by(a + b) == moved_by(a) + moved_by(b),
    decreases b.len(),
{
    if b.len() == 0 {
        assert(a + b =~= a);
    } else {
        assert((a + b).drop_last() =~= a + b.drop_last());
        lemma_moved_by_concat(a, b.drop_last());
    }
}

proof fn lemma_moved_by_one(s: Signal)
    ensures
        moved_by(seq![s]) == s.delta,
{
    assert(seq![s].drop_last() =~= Seq::<Signal>::empty());
    assert(moved_by(seq![s].drop_last()) == 0);
}

proof fn lemma_moved_by_anomalies(p: ProbeResult)
    ensures
        moved_by(score_signals(p)) == score_delta(p),
        moved_by(timing_signals(p)) == timing_delta(p),
        moved_by(name_filter_signals(p)) == 0,
{
    if score_signals(p).len() > 0 {
        lemma_moved_by_one(score_signals(p)[0]);
        assert(score_signals(p) =~= seq![score_signals(p)[0]]);
    }
    if name_filter_signals(p).len() > 0 {
        lemma_moved_by_one(name_filter_signals(p)[0]);
        assert(name_filter_signals(p) =~= seq![name_filter_signals(p)[0]]);
    }
    let hello = moving(
        "tls_zero_server_hello"@,
        -150_000,
        "TLS ok but server_hello_size=0 — raw probe anomaly, confidence reduced"@,
    );
    let certs = moving(
        "tls_zero_certs"@,
        -150_000,
        "TLS ok but cert_count=0 — raw probe anomaly, confidence reduced"@,
    );
    let names = moving(
        "dns_udp_doh_ratio"@,
        100_000,
        "UDP RTT "@ + decimal((p.dns.udp_rtt_us / 1000) as nat) + "ms > 3× DoH RTT "@ + decimal(
            (p.dns.doh_rtt_us / 1000) as nat,
        ) + "ms — DNS manipulation hint"@,
    );
    let shakes = moving(
        "tls_tcp_ratio"@,
        100_000,
        "TLS RTT "@ + decimal(rounded_ms(p.tls->0.latency_us as nat)) + "ms > 5× TCP RTT "@
            + decimal(rounded_ms(p.tcp.rtt_us as nat)) + "ms — DPI delay hint"@,
    );
    let a: Seq<Signal> = if lacks_server_hello(p) {
        seq![hello]
    } else {
        seq![]
    };
    let b: Seq<Signal> = if lacks_certificates(p) {
        seq![certs]
    } else {
        seq![]
    };
    let c: Seq<Signal> = if udp_lags(p) {
        seq![names]
    } else {
        seq![]
    };
    let d: Seq<Signal> = if handshake_lags(p) {
        seq![shakes]
    } else {
        seq![]
    };
    assert(timing_signals(p) == a + b + c + d);
    lemma_moved_by_one(hello);
    lemma_moved_by_one(certs);
    lemma_moved_by_one(names);
    lemma_moved_by_one(shakes);
    lemma_moved_by_concat(a, b);
    lemma_moved_by_concat(a + b, c);
    lemma_moved_by_concat(a + b + c, d);
}

/// What settles the matter stands alone among the reasons and is not moved.
pub proof fn settling_findings_stand_alone(p: ProbeResult)
    requires
        p.dns.verdict == DnsFailureCode::Poisoned || p.dns.verdict == DnsFailureCode::NxdomainSpoof
            || p.dns.verdict == DnsFailureCode::EmptySpoof || p.dns.verdict
            == DnsFailureCode::Intercepted || (p.discrimination matches Some(d) && d.origin
            == BlockOrigin::ServerActive) || p.quic_verdict == Some(QuicVerdict::QuicBypass),
    ensures
        ruling_of(p).signals.len() == 1,
        ruling_of(p).signals[0].effect == SignalEffect::HardRule,
        ruling_of(p).signals[0].delta == 0,
{
}

/// Where interference on the path or a filter on fingerprints gave the verdict,
/// the confidence is that of the finding, moved by the findings that are listed
/// behind it, and held between zero and one.
pub proof fn path_confidence_adds_up(p: ProbeResult)
    requires
        p.dns.verdict == DnsFailureCode::DnsOk || p.dns.verdict == DnsFailureCode::DohBlocked
            || p.dns.verdict == DnsFailureCode::Unresolvable,
        p.quic_verdict != Some(QuicVerdict::QuicBypass),
        p.discrimination matches Some(d) ==> d.origin != BlockOrigin::ServerActive,
        (p.discrimination matches Some(d) && d.origin == BlockOrigin::PathActive) || (
        p.ja4 matches Some(j) && j.verdict == FingerprintVerdict::FingerprintBlocking),
    ensures
        ({
            let start: int = if p.discrimination matches Some(d) && d.origin
                == BlockOrigin::PathActive {
                p.discrimination->0.confidence as int
            } else {
                850_000
            };
            let end = start + moved_by(ruling_of(p).signals);
            ruling_of(p).confidence == (if end < 0 {
                0
            } else if end > 1_000_000 {
                1_000_000
            } else {
                end
            })
        }),
        ruling_of(p).signals[0].effect == SignalEffect::Support,
{
    let r = ruling_of(p);
    let first = r.signals[0];
    lemma_moved_by_anomalies(p);
    lemma_moved_by_one(first);
    assert(r.signals =~= seq![first] + score_signals(p) + timing_signals(p));
    lemma_moved_by_concat(seq![first], score_signals(p));
    lemma_moved_by_concat(seq![first] + score_signals(p), timing_signals(p));
}

/// Where a score above eighty percent gave the verdict, the confidence is the
/// score, moved by the findings that are listed, and held between zero and one.
pub proof fn score_confidence_adds_up(p: ProbeResult)
    requires
        p.dns.verdict == DnsFailureCode::DnsOk || p.dns.verdict == DnsFailureCode::DohBlocked
            || p.dns.verdict == DnsFailureCode::Unresolvable,
        p.quic_verdict != Some(QuicVerdict::QuicBypass),
        p.discrimination matches Some(d) ==> d.origin == BlockOrigin::Ambiguous,
        p.ja4 matches Some(j) ==> j.verdict != FingerprintVerdict::FingerprintBlocking,
        p.ml matches Some(ml) && ml.score > 800_000,
    ensures
        ({
            let end = p.ml->0.score + moved_by(ruling_of(p).signals);
            ruling_of(p).confidence == (if end < 0 {
                0
            } else if end > 1_000_000 {
                1_000_000
            } else {
                end
            })
        }),
{
    let r = ruling_of(p);
    let named = name_filter_signals(p);
    let first = r.signals[named.len() as int];
    lemma_moved_by_anomalies(p);
    lemma_moved_by_one(first);
    assert(r.signals =~= named + seq![first] + timing_signals(p));
    lemma_moved_by_concat(named, seq![first]);
    lemma_moved_by_concat(named + seq![first], timing_signals(p));
}

/// Where name service and TCP gave the verdict, the confidence is theirs, moved
/// by the findings that are listed, and held between zero and one, or one half
/// where every phase passed.
pub proof fn base_confidence_adds_up(p: ProbeResult)
    requires
        p.dns.verdict == DnsFailureCode::DnsOk || p.dns.verdict == DnsFailureCode::DohBlocked
            || p.dns.verdict == DnsFailureCode::Unresolvable,
        p.quic_verdict != Some(QuicVerdict::QuicBypass),
        p.discrimination matches Some(d) ==> d.origin == BlockOrigin::Ambiguous,
        p.ja4 matches Some(j) ==> j.verdict != FingerprintVerdict::FingerprintBlocking,
        p.ml matches Some(ml) ==> ml.score <= 800_000,
    ensures
        ({
            let passed = p.dns.verdict == DnsFailureCode::DnsOk && p.tcp.verdict
                == TcpFailureCode::ConnectOk && (p.tls matches Some(t) && (t.verdict
                == TlsFailureCode::HandshakeOk || t.verdict == TlsFailureCode::Version13Ok
                || t.verdict == TlsFailureCode::Version12Only)) && (p.http matches Some(h) && (
            h.verdict == HttpFailureCode::HttpOk || h.verdict == HttpFailureCode::RedirectSame));
            let limit: int = if passed {
                500_000
            } else {
                1_000_000
            };
            let end = base_verdict(p.dns.verdict, p.tcp.verdict).1 + moved_by(ruling_of(p).signals);
            ruling_of(p).confidence == (if end < 0 {
                0
            } else if end > limit {
                limit
            } else {
                end
            })
        }),
        ruling_of(p).signals.last().effect == SignalEffect::Neutral,
{
    let r = ruling_of(p);
    let named = name_filter_signals(p);
    let last = r.signals.last();
    lemma_moved_by_anomalies(p);
    lemma_moved_by_one(last);
    assert(r.signals =~= named + score_signals(p) + timing_signals(p) + seq![last]);
    lemma_moved_by_concat(named, score_signals(p));
    lemma_moved_by_concat(named + score_signals(p), timing_signals(p));
    lemma_moved_by_concat(named + score_signals(p) + timing_signals(p), seq![last]);
}

/// What the listed findings move: a score between thirty and eighty percent
/// moves the confidence by a tenth, up above one half and down otherwise; a
/// handshake that worked without a ServerHello, or without a certificate, takes
/// off fifteen hundredths each; names that take over three times as long by UDP,
/// and handshakes that take over five times as long as the connection, add a
/// tenth each. Nothing else moves it.
pub proof fn anomalies_move_by_their_weight(p: ProbeResult)
    requires
        p.dns.verdict == DnsFailureCode::DnsOk || p.dns.verdict == DnsFailureCode::DohBlocked
            || p.dns.verdict == DnsFailureCode::Unresolvable,
        p.quic_verdict != Some(QuicVerdict::QuicBypass),
        p.discrimination matches Some(d) ==> d.origin == BlockOrigin::Ambiguous,
        p.ja4 matches Some(j) ==> j.verdict != FingerprintVerdict::FingerprintBlocking,
        p.ml matches Some(ml) ==> ml.score <= 800_000,
    ensures
        ({
            let worked = p.tls matches Some(t) && (t.verdict == TlsFailureCode::HandshakeOk
                || t.verdict == TlsFailureCode::Version13Ok || t.verdict
                == TlsFailureCode::Version12Only);
            let score: int = match p.ml {
                Some(ml) if ml.score >= 300_000 && ml.score <= 500_000 => -100_000,
                Some(ml) if ml.score > 500_000 => 100_000,
                _ => 0,
            };
            let hello: int = if worked && p.tls->0.server_hello_size == 0 {
                -150_000
            } else {
                0
            };
            let certs: int = if worked && p.tls->0.cert_count == 0 {
                -150_000
            } else {
                0
            };
            let names: int = if p.dns.doh_rtt_us > 0 && p.dns.udp_rtt_us > 3 * p.dns.doh_rtt_us {
                100_000
            } else {
                0
            };
            let shakes: int = if p.tls is Some && p.tcp.rtt_us > 0 && p.tls->0.latency_us > 5
                * p.tcp.rtt_us {
                100_000
            } else {
                0
            };
            moved_by(ruling_of(p).signals) == score + hello + certs + names + shakes
        }),
{
    let r = ruling_of(p);
    let named = name_filter_signals(p);
    let last = r.signals.last();
    lemma_moved_by_anomalies(p);
    lemma_moved_by_one(last);
    assert(r.signals =~= named + score_signals(p) + timing_signals(p) + seq![last]);
    lemma_moved_by_concat(named, score_signals(p));
    lemma_moved_by_concat(named + score_signals(p), timing_signals(p));
    lemma_moved_by_concat(named + score_signals(p) + timing_signals(p), seq![last]);
}

} // verus!
