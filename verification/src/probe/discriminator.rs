//! Telling a server that refuses from a path that blocks.
//!
//! An alert or a replaced certificate means that the server, or somebody who
//! talks to it, was reached; a reset, garbage or silence means that the path
//! interfered.
use vstd::prelude::*;

use crate::probe::classifier::{HttpFailureCode, ProbeVerdict, TlsFailureCode};

verus! {

/// Who caused a failure.
#[derive(Debug, Clone, Copy, PartialEq, Eq, Structural, Hash)]
pub enum BlockOrigin {
    /// The server itself.
    ServerActive,
    /// Something on the path.
    PathActive,
    /// Undecided.
    Ambiguous,
}

impl Default for BlockOrigin {
    fn default() -> (r: BlockOrigin)
        ensures
            r == BlockOrigin::Ambiguous,
    {
        BlockOrigin::Ambiguous
    }
}

/// Who caused a failure, and how sure that is.
#[derive(Debug, Clone)]
pub struct DiscriminationResult {
    pub origin: BlockOrigin,
    pub verdict: ProbeVerdict,
    /// Confidence in millionths.
    pub confidence: u32,
    pub rationale: String,
}

/// The contents of a discrimination result.
pub struct Finding {
    pub origin: BlockOrigin,
    pub verdict: ProbeVerdict,
    pub confidence: u32,
    pub rationale: Seq<char>,
}

impl View for DiscriminationResult {
    type V = Finding;

    open spec fn view(&self) -> Finding {
        Finding {
            origin: self.origin,
            verdict: self.verdict,
            confidence: self.confidence,
            rationale: self.rationale@,
        }
    }
}

impl Default for DiscriminationResult {
    fn default() -> (r: DiscriminationResult)
        ensures
            r@ == (Finding {
                origin: BlockOrigin::Ambiguous,
                verdict: ProbeVerdict::Ambiguous,
                confidence: 0,
                rationale: Seq::empty(),
            }),
    {
        DiscriminationResult {
            origin: BlockOrigin::Ambiguous,
            verdict: ProbeVerdict::Ambiguous,
            confidence: 0,
            rationale: String::new(),
        }
    }
}

/// What the TLS and HTTP outcomes say about who caused a failure.
pub open spec fn finding_of(tls: TlsFailureCode, http: HttpFailureCode) -> Finding {
    match tls {
        TlsFailureCode::AlertSniblock => Finding {
            origin: BlockOrigin::ServerActive,
            verdict: ProbeVerdict::Clear,
            confidence: 900_000,
            rationale: "TLS alert from server: SNI rejected. Server is reachable, not DPI."@,
        },
        TlsFailureCode::AlertHandshake => Finding {
            origin: BlockOrigin::ServerActive,
            verdict: ProbeVerdict::Clear,
            confidence: 850_000,
            rationale: "TLS alert from server: handshake failure. Server rejects this client."@,
        },
        TlsFailureCode::AlertProtocol => Finding {
            origin: BlockOrigin::ServerActive,
            verdict: ProbeVerdict::Clear,
            confidence: 800_000,
            rationale: "TLS alert from server: protocol version not supported."@,
        },
        TlsFailureCode::Mitm | TlsFailureCode::MitmExpired | TlsFailureCode::MitmSelfSigned | TlsFailureCode::MitmHostnameMismatch => Finding {
            origin: BlockOrigin::ServerActive,
            verdict: ProbeVerdict::Clear,
            confidence: 850_000,
            rationale: "Certificate substitution detected but server is reachable. Middlebox intercepting TLS, not blocking."@,
        },
        TlsFailureCode::Reset => Finding {
            origin: BlockOrigin::PathActive,
            verdict: ProbeVerdict::Blocked,
            confidence: 850_000,
            rationale: "TCP RST during TLS — DPI killing connection."@,
        },
        TlsFailureCode::Garbage => Finding {
            origin: BlockOrigin::PathActive,
            verdict: ProbeVerdict::Blocked,
            confidence: 800_000,
            rationale: "TLS garbage data — DPI injecting malformed records."@,
        },
        TlsFailureCode::Eof => Finding {
            origin: BlockOrigin::PathActive,
            verdict: ProbeVerdict::Blocked,
            confidence: 750_000,
            rationale: "TLS EOF after handshake — DPI cutting connection."@,
        },
        TlsFailureCode::SilentDrop => Finding {
            origin: BlockOrigin::PathActive,
            verdict: ProbeVerdict::Blocked,
            confidence: 750_000,
            rationale: "TLS hang/timeout — DPI silently dropping connection after TCP."@,
        },
        TlsFailureCode::Alert => Finding {
            origin: BlockOrigin::Ambiguous,
            verdict: ProbeVerdict::Ambiguous,
            confidence: 500_000,
            rationale: "Generic TLS alert — ambiguous, could be server or DPI. Re-probe recommended."@,
        },
        TlsFailureCode::Version12Only => Finding {
            origin: BlockOrigin::PathActive,
            verdict: ProbeVerdict::Blocked,
            confidence: 900_000,
            rationale: "TLS 1.3 blocked, 1.2 works — DPI attacking ClientHello fingerprint."@,
        },
        TlsFailureCode::HandshakeOk | TlsFailureCode::Version13Ok => http_finding(http),
    }
}

/// What the HTTP outcome says where TLS worked.
pub open spec fn http_finding(http: HttpFailureCode) -> Finding {
    match http {
        HttpFailureCode::HttpOk | HttpFailureCode::RedirectSame => Finding {
            origin: BlockOrigin::Ambiguous,
            verdict: ProbeVerdict::Clear,
            confidence: 600_000,
            rationale: "TLS and HTTP both OK — no blocking detected at this layer."@,
        },
        HttpFailureCode::Cutoff => Finding {
            origin: BlockOrigin::PathActive,
            verdict: ProbeVerdict::Blocked,
            confidence: 800_000,
            rationale: "HTTP response truncated — DPI cutting data stream."@,
        },
        HttpFailureCode::Http451 => Finding {
            origin: BlockOrigin::ServerActive,
            verdict: ProbeVerdict::Blocked,
            confidence: 950_000,
            rationale: "HTTP 451: legal block. Server explicitly refusing."@,
        },
        HttpFailureCode::RedirectForeign => Finding {
            origin: BlockOrigin::PathActive,
            verdict: ProbeVerdict::Blocked,
            confidence: 850_000,
            rationale: "Redirect to foreign domain — ISP block page."@,
        },
        HttpFailureCode::StubPage => Finding {
            origin: BlockOrigin::PathActive,
            verdict: ProbeVerdict::Blocked,
            confidence: 900_000,
            rationale: "RKN stub page detected in response body."@,
        },
        HttpFailureCode::Timeout => Finding {
            origin: BlockOrigin::Ambiguous,
            verdict: ProbeVerdict::Ambiguous,
            confidence: 400_000,
            rationale: "HTTP timeout — ambiguous, could be DPI or server issue."@,
        },
    }
}

fn finding(
    origin: BlockOrigin,
    verdict: ProbeVerdict,
    confidence: u32,
    rationale: &str,
) -> (r: DiscriminationResult)
    ensures
        r@ == (Finding { origin, verdict, confidence, rationale: rationale@ }),
{
    DiscriminationResult { origin, verdict, confidence, rationale: crate::text::owned(rationale) }
}

/// Tells a server that refuses from a path that blocks.
pub fn discriminate(tls: &TlsFailureCode, http: &HttpFailureCode) -> (r: DiscriminationResult)
    ensures
        r@ == finding_of(*tls, *http),
{
    match tls {
        TlsFailureCode::AlertSniblock => finding(
            BlockOrigin::ServerActive,
            ProbeVerdict::Clear,
            900_000,
            "TLS alert from server: SNI rejected. Server is reachable, not DPI.",
        ),
        TlsFailureCode::AlertHandshake => finding(
            BlockOrigin::ServerActive,
            ProbeVerdict::Clear,
            850_000,
            "TLS alert from server: handshake failure. Server rejects this client.",
        ),
        TlsFailureCode::AlertProtocol => finding(
            BlockOrigin::ServerActive,
            ProbeVerdict::Clear,
            800_000,
            "TLS alert from server: protocol version not supported.",
        ),
        TlsFailureCode::Mitm | TlsFailureCode::MitmExpired | TlsFailureCode::MitmSelfSigned | TlsFailureCode::MitmHostnameMismatch => finding(
            BlockOrigin::ServerActive,
            ProbeVerdict::Clear,
            850_000,
            "Certificate substitution detected but server is reachable. Middlebox intercepting TLS, not blocking.",
        ),
        TlsFailureCode::Reset => finding(
            BlockOrigin::PathActive,
            ProbeVerdict::Blocked,
            850_000,
            "TCP RST during TLS — DPI killing connection.",
        ),
        TlsFailureCode::Garbage => finding(
            BlockOrigin::PathActive,
            ProbeVerdict::Blocked,
            800_000,
            "TLS garbage data — DPI injecting malformed records.",
        ),
        TlsFailureCode::Eof => finding(
            BlockOrigin::PathActive,
            ProbeVerdict::Blocked,
            750_000,
            "TLS EOF after handshake — DPI cutting connection.",
        ),
        TlsFailureCode::SilentDrop => finding(
            BlockOrigin::PathActive,
            ProbeVerdict::Blocked,
            750_000,
            "TLS hang/timeout — DPI silently dropping connection after TCP.",
        ),
        TlsFailureCode::Alert => finding(
            BlockOrigin::Ambiguous,
            ProbeVerdict::Ambiguous,
            500_000,
            "Generic TLS alert — ambiguous, could be server or DPI. Re-probe recommended.",
        ),
        TlsFailureCode::Version12Only => finding(
            BlockOrigin::PathActive,
            ProbeVerdict::Blocked,
            900_000,
            "TLS 1.3 blocked, 1.2 works — DPI attacking ClientHello fingerprint.",
        ),
        TlsFailureCode::HandshakeOk | TlsFailureCode::Version13Ok => discriminate_http(http),
    }
}

/// Judges by HTTP alone.
pub fn discriminate_http(http: &HttpFailureCode) -> (r: DiscriminationResult)
    ensures
        r@ == http_finding(*http),
{
    match http {
        HttpFailureCode::HttpOk | HttpFailureCode::RedirectSame => finding(
            BlockOrigin::Ambiguous,
            ProbeVerdict::Clear,
            600_000,
            "TLS and HTTP both OK — no blocking detected at this layer.",
        ),
        HttpFailureCode::Cutoff => finding(
            BlockOrigin::PathActive,
            ProbeVerdict::Blocked,
            800_000,
            "HTTP response truncated — DPI cutting data stream.",
        ),
        HttpFailureCode::Http451 => finding(
            BlockOrigin::ServerActive,
            ProbeVerdict::Blocked,
            950_000,
            "HTTP 451: legal block. Server explicitly refusing.",
        ),
        HttpFailureCode::RedirectForeign => finding(
            BlockOrigin::PathActive,
            ProbeVerdict::Blocked,
            850_000,
            "Redirect to foreign domain — ISP block page.",
        ),
        HttpFailureCode::StubPage => finding(
            BlockOrigin::PathActive,
            ProbeVerdict::Blocked,
            900_000,
            "RKN stub page detected in response body.",
        ),
        HttpFailureCode::Timeout => finding(
            BlockOrigin::Ambiguous,
            ProbeVerdict::Ambiguous,
            400_000,
            "HTTP timeout — ambiguous, could be DPI or server issue.",
        ),
    }
}

/// A named TLS alert or a replaced certificate comes from a server that was
/// reached: the destination is clear, whatever HTTP did.
pub proof fn server_alerts_are_clear(tls: TlsFailureCode, http: HttpFailureCode)
    requires
        tls == TlsFailureCode::AlertSniblock || tls == TlsFailureCode::AlertHandshake || tls
            == TlsFailureCode::AlertProtocol || tls == TlsFailureCode::Mitm || tls
            == TlsFailureCode::MitmExpired || tls == TlsFailureCode::MitmSelfSigned || tls
            == TlsFailureCode::MitmHostnameMismatch,
    ensures
        finding_of(tls, http).origin == BlockOrigin::ServerActive,
        finding_of(tls, http).verdict == ProbeVerdict::Clear,
{
}

/// Whatever is laid at the path's door is a block.
pub proof fn path_active_is_blocked(tls: TlsFailureCode, http: HttpFailureCode)
    requires
        finding_of(tls, http).origin == BlockOrigin::PathActive,
    ensures
        finding_of(tls, http).verdict == ProbeVerdict::Blocked,
        finding_of(tls, http).confidence >= 750_000,
{
}

/// Confidence lies between nought and one hundred percent, and HTTP matters
/// only where TLS worked.
pub proof fn findings_are_bounded_and_layered(
    tls: TlsFailureCode,
    http1: HttpFailureCode,
    http2: HttpFailureCode,
)
    ensures
        0 < finding_of(tls, http1).confidence <= 1_000_000,
        tls != TlsFailureCode::HandshakeOk && tls != TlsFailureCode::Version13Ok ==> finding_of(
            tls,
            http1,
        ) == finding_of(tls, http2),
{
}

/// Where TLS worked, HTTP tells: a response that was cut off, that leads to
/// another domain or that is a block page is laid at the path's door and is a
/// block; status 451 is the server's own block; a whole response or a redirect
/// within the domain clears; silence leaves it open.
pub proof fn http_tells_where_tls_worked(tls: TlsFailureCode, http: HttpFailureCode)
    requires
        tls == TlsFailureCode::HandshakeOk || tls == TlsFailureCode::Version13Ok,
    ensures
        finding_of(tls, http).origin == BlockOrigin::PathActive <==> (http == HttpFailureCode::Cutoff
            || http == HttpFailureCode::RedirectForeign || http == HttpFailureCode::StubPage),
        finding_of(tls, http).origin == BlockOrigin::ServerActive <==> http
            == HttpFailureCode::Http451,
        finding_of(tls, http).verdict == ProbeVerdict::Clear <==> (http == HttpFailureCode::HttpOk
            || http == HttpFailureCode::RedirectSame),
        finding_of(tls, http).verdict == ProbeVerdict::Ambiguous <==> http
            == HttpFailureCode::Timeout,
        finding_of(tls, http) == finding_of(TlsFailureCode::HandshakeOk, http),
        finding_of(tls, http) == http_finding(http),
        finding_of(tls, http).verdict == ProbeVerdict::Blocked ==> finding_of(tls, http).confidence
            >= 800_000,
        finding_of(tls, http).verdict == ProbeVerdict::Ambiguous ==> finding_of(tls, http).confidence
            <= 400_000,
        finding_of(tls, http).verdict == ProbeVerdict::Clear ==> finding_of(tls, http).confidence
            == 600_000,
{
}

/// Where TLS failed, TLS tells: a reset, garbage, an early end, silence, or a
/// handshake that only an older version comes through, is laid at the path's
/// door and is a block; a named alert or a foreign certificate is the server's
/// own and clears; an alert of another kind leaves it open.
pub proof fn tls_tells_where_it_failed(tls: TlsFailureCode, http: HttpFailureCode)
    requires
        tls != TlsFailureCode::HandshakeOk,
        tls != TlsFailureCode::Version13Ok,
    ensures
        finding_of(tls, http).origin == BlockOrigin::PathActive <==> (tls == TlsFailureCode::Reset
            || tls == TlsFailureCode::Garbage || tls == TlsFailureCode::Eof || tls
            == TlsFailureCode::SilentDrop || tls == TlsFailureCode::Version12Only),
        finding_of(tls, http).origin == BlockOrigin::Ambiguous <==> tls == TlsFailureCode::Alert,
        finding_of(tls, http).verdict == (match finding_of(tls, http).origin {
            BlockOrigin::PathActive => ProbeVerdict::Blocked,
            BlockOrigin::ServerActive => ProbeVerdict::Clear,
            BlockOrigin::Ambiguous => ProbeVerdict::Ambiguous,
        }),
        tls != TlsFailureCode::Alert ==> finding_of(tls, http).confidence >= 750_000,
        tls == TlsFailureCode::Alert ==> finding_of(tls, http).confidence == 500_000,
{
}

/// How sure a finding is: what shows plainly weighs more than what could be
/// chance. A reset outweighs garbage, garbage outweighs silence; a filter on the
/// newer version weighs most. Among the server's own words, a refused name
/// outweighs a failed handshake, and that a version that is not spoken. In HTTP,
/// status 451 outweighs a block page, that a foreign redirect, and that a
/// response that was cut off.
pub proof fn findings_weigh_by_plainness(http: HttpFailureCode)
    ensures
        ({
            let older = finding_of(TlsFailureCode::Version12Only, http).confidence;
            let reset = finding_of(TlsFailureCode::Reset, http).confidence;
            let garbage = finding_of(TlsFailureCode::Garbage, http).confidence;
            let early = finding_of(TlsFailureCode::Eof, http).confidence;
            let silence = finding_of(TlsFailureCode::SilentDrop, http).confidence;
            older > reset && reset > garbage && garbage > early && early == silence
        }),
        ({
            let name = finding_of(TlsFailureCode::AlertSniblock, http).confidence;
            let handshake = finding_of(TlsFailureCode::AlertHandshake, http).confidence;
            let version = finding_of(TlsFailureCode::AlertProtocol, http).confidence;
            name > handshake && handshake > version
        }),
        ({
            let legal = http_finding(HttpFailureCode::Http451).confidence;
            let stub = http_finding(HttpFailureCode::StubPage).confidence;
            let foreign = http_finding(HttpFailureCode::RedirectForeign).confidence;
            let cut = http_finding(HttpFailureCode::Cutoff).confidence;
            legal > stub && stub > foreign && foreign > cut
        }),
{
}

} // verus!
