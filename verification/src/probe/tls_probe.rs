//! Probing TLS in stages: connect, collect what the server shows, try TLS 1.3,
//! confirm it, fall back to TLS 1.2.
use vstd::prelude::*;

use crate::probe::classifier::{ConnectionStage, TlsFailureCode};
use crate::probe::ja4_probe::tls_error;
use crate::text::{contains, copy_text, lowercase_of, occurs, opt_view, to_lowercase};

verus! {

/// What a TLS probe found.
#[derive(Debug, Clone)]
pub struct TlsProbeResult {
    pub verdict: TlsFailureCode,
    pub tls13_ok: bool,
    pub tls12_ok: bool,
    pub stage: ConnectionStage,
    pub latency_us: u64,
    /// The size of the ServerHello; zero if none was seen.
    pub server_hello_size: usize,
    /// The number of certificates; zero if none was seen.
    pub cert_count: usize,
    pub negotiated_version: Option<String>,
    pub negotiated_cipher: Option<String>,
}

impl Default for TlsProbeResult {
    fn default() -> (r: TlsProbeResult)
        ensures
            r.verdict == TlsFailureCode::HandshakeOk,
            !r.tls13_ok,
            !r.tls12_ok,
            r.stage == ConnectionStage::TcpConnect,
            r.latency_us == 0,
            r.server_hello_size == 0,
            r.cert_count == 0,
            r.negotiated_version is None,
            r.negotiated_cipher is None,
    {
        bare_result(TlsFailureCode::HandshakeOk, ConnectionStage::TcpConnect, 0)
    }
}

/// What a server shows during a handshake.
#[derive(Debug, Clone)]
pub struct RawHandshakeFeatures {
    pub server_hello_size: usize,
    pub cert_count: usize,
    pub negotiated_version: Option<String>,
    pub negotiated_cipher: Option<String>,
}

impl Default for RawHandshakeFeatures {
    fn default() -> (r: RawHandshakeFeatures)
        ensures
            r.server_hello_size == 0,
            r.cert_count == 0,
            r.negotiated_version is None,
            r.negotiated_cipher is None,
    {
        RawHandshakeFeatures {
            server_hello_size: 0,
            cert_count: 0,
            negotiated_version: None,
            negotiated_cipher: None,
        }
    }
}

impl RawHandshakeFeatures {
    /// Reads the features from the bytes of a response.
    pub fn from_response(response: &[u8]) -> (r: RawHandshakeFeatures)
        ensures
            ({
                let f = crate::probe::ja4_probe::with_records(
                    crate::probe::ja4_probe::no_facts(),
                    response@,
                    0,
                );
                &&& r.server_hello_size == f.server_hello_size
                &&& r.cert_count == f.cert_count
                &&& opt_view(r.negotiated_version) == f.version
                &&& opt_view(r.negotiated_cipher) == f.cipher
            }),
    {
        let (server_hello_size, cert_count, negotiated_version, negotiated_cipher) =
            crate::probe::ja4_probe::extract_tls_handshake_features(response);
        RawHandshakeFeatures {
            server_hello_size,
            cert_count,
            negotiated_version,
            negotiated_cipher,
        }
    }
}

fn bare_result(verdict: TlsFailureCode, stage: ConnectionStage, latency_us: u64) -> (r:
    TlsProbeResult)
    ensures
        r.verdict == verdict,
        r.stage == stage,
        r.latency_us == latency_us,
        !r.tls13_ok,
        !r.tls12_ok,
        r.server_hello_size == 0,
        r.cert_count == 0,
        r.negotiated_version is None,
        r.negotiated_cipher is None,
{
    TlsProbeResult {
        verdict,
        tls13_ok: false,
        tls12_ok: false,
        stage,
        latency_us,
        server_hello_size: 0,
        cert_count: 0,
        negotiated_version: None,
        negotiated_cipher: None,
    }
}

// ---- errors ----
/// What a failed TCP connection, its error in lower case, means for TLS.
pub open spec fn lowered_connect_verdict(err: Seq<char>) -> TlsFailureCode {
    if occurs(err, "reset"@) || occurs(err, "refused"@) {
        TlsFailureCode::Reset
    } else {
        TlsFailureCode::SilentDrop
    }
}

/// Judges a failed TCP connection whose error is in lower case.
pub fn classify_lowered_connect(err: &str) -> (r: TlsFailureCode)
    ensures
        r == lowered_connect_verdict(err@),
{
    if contains(err, "reset") || contains(err, "refused") {
        TlsFailureCode::Reset
    } else {
        TlsFailureCode::SilentDrop
    }
}

/// What a handshake error, in lower case, says.
pub open spec fn lowered_handshake_verdict(err: Seq<char>) -> TlsFailureCode {
    if occurs(err, "certificate"@) || occurs(err, "cert"@) {
        if occurs(err, "expired"@) {
            TlsFailureCode::MitmExpired
        } else if occurs(err, "self-signed"@) || occurs(err, "unknown issuer"@) {
            TlsFailureCode::MitmSelfSigned
        } else if occurs(err, "hostname"@) || occurs(err, "mismatch"@) {
            TlsFailureCode::MitmHostnameMismatch
        } else {
            TlsFailureCode::Mitm
        }
    } else if occurs(err, "alert"@) {
        if occurs(err, "unrecognized"@) || occurs(err, "sni"@) {
            TlsFailureCode::AlertSniblock
        } else if occurs(err, "handshake"@) {
            TlsFailureCode::AlertHandshake
        } else if occurs(err, "protocol"@) {
            TlsFailureCode::AlertProtocol
        } else {
            TlsFailureCode::Alert
        }
    } else {
        TlsFailureCode::Garbage
    }
}

/// Judges a handshake error whose text is in lower case.
pub fn classify_lowered_handshake(err: &str) -> (r: TlsFailureCode)
    ensures
        r == lowered_handshake_verdict(err@),
{
    if contains(err, "certificate") || contains(err, "cert") {
        if contains(err, "expired") {
            return TlsFailureCode::MitmExpired;
        }
        if contains(err, "self-signed") || contains(err, "unknown issuer") {
            return TlsFailureCode::MitmSelfSigned;
        }
        if contains(err, "hostname") || contains(err, "mismatch") {
            return TlsFailureCode::MitmHostnameMismatch;
        }
        return TlsFailureCode::Mitm;
    }
    if contains(err, "alert") {
        if contains(err, "unrecognized") || contains(err, "sni") {
            return TlsFailureCode::AlertSniblock;
        }
        if contains(err, "handshake") {
            return TlsFailureCode::AlertHandshake;
        }
        if contains(err, "protocol") {
            return TlsFailureCode::AlertProtocol;
        }
        return TlsFailureCode::Alert;
    }
    TlsFailureCode::Garbage
}

/// Why a handshake did not complete.
#[derive(Debug, Clone)]
pub enum HandshakeFailure {
    /// It failed, with the text of the error.
    Failure(String),
    /// It was cut short.
    WouldBlock,
}

/// What a handshake failure says.
pub open spec fn handshake_failure_verdict(e: HandshakeFailure) -> TlsFailureCode {
    match e {
        HandshakeFailure::Failure(t) => lowered_handshake_verdict(lowercase_of(t@)),
        HandshakeFailure::WouldBlock => TlsFailureCode::SilentDrop,
    }
}

/// Judges a handshake failure.
pub fn classify_handshake_error(e: &HandshakeFailure) -> (r: TlsFailureCode)
    ensures
        r == handshake_failure_verdict(*e),
{
    match e {
        HandshakeFailure::Failure(t) => {
            let lowered: String = to_lowercase(t.as_str());
            classify_lowered_handshake(lowered.as_str())
        },
        HandshakeFailure::WouldBlock => TlsFailureCode::SilentDrop,
    }
}

/// How the attempt at one TLS version went.
#[derive(Debug, Clone)]
pub enum VersionAttempt {
    /// The handshake completed.
    Completed,
    /// No client could be set up, or the attempt broke off.
    SetupFailed,
    /// The TCP connection failed, with the text of the error.
    ConnectFailed(String),
    HandshakeFailed(HandshakeFailure),
    TimedOut,
}

/// The verdict on the attempt at one TLS version.
pub open spec fn attempt_verdict(a: VersionAttempt) -> TlsFailureCode {
    match a {
        VersionAttempt::Completed => TlsFailureCode::HandshakeOk,
        VersionAttempt::SetupFailed => TlsFailureCode::Garbage,
        VersionAttempt::ConnectFailed(t) => lowered_connect_verdict(lowercase_of(t@)),
        VersionAttempt::HandshakeFailed(e) => handshake_failure_verdict(e),
        VersionAttempt::TimedOut => TlsFailureCode::SilentDrop,
    }
}

/// Judges the attempt at one TLS version.
pub fn judge_attempt(a: &VersionAttempt) -> (r: TlsFailureCode)
    ensures
        r == attempt_verdict(*a),
{
    match a {
        VersionAttempt::Completed => TlsFailureCode::HandshakeOk,
        VersionAttempt::SetupFailed => TlsFailureCode::Garbage,
        VersionAttempt::ConnectFailed(t) => {
            let lowered: String = to_lowercase(t.as_str());
            classify_lowered_connect(lowered.as_str())
        },
        VersionAttempt::HandshakeFailed(e) => classify_handshake_error(e),
        VersionAttempt::TimedOut => TlsFailureCode::SilentDrop,
    }
}

// ---- reading a handshake ----
/// Whether a window of six bytes starts like the record of a ServerHelloDone.
pub open spec fn hello_done_at(b: Seq<u8>, i: int) -> bool {
    0 <= i && i + 6 <= b.len() && b[i] == 0x16 && b[i + 1] == 0x03 && b[i + 5] == 0x0E
}

/// Whether enough of a handshake has been read.
pub open spec fn read_enough(b: Seq<u8>) -> bool {
    b.len() >= 6 && (b.len() > 8192 || exists|i: int| hello_done_at(b, i))
}

/// Whether enough of a handshake has been read: the server is done, or more
/// than 8192 bytes have come.
pub fn has_read_enough(buf: &[u8]) -> (r: bool)
    ensures
        r == read_enough(buf@),
{
    if buf.len() < 6 {
        return false;
    }
    if buf.len() > 8192 {
        return true;
    }
    let mut i: usize = 0;
    while i + 6 <= buf.len()
        invariant
            6 <= buf@.len() <= 8192,
            i <= buf@.len(),
            forall|j: int| 0 <= j < i ==> !hello_done_at(buf@, j),
        decreases buf@.len() - i,
    {
        if buf[i] == 0x16 && buf[i + 1] == 0x03 && buf[i + 5] == 0x0E {
            assert(hello_done_at(buf@, i as int));
            return true;
        }
        i = i + 1;
    }
    assert forall|j: int| !hello_done_at(buf@, j) by {}
    false
}

// ---- the probe ----
/// What the stages of a probe came to.
#[derive(Debug, Clone)]
pub enum TlsObservation {
    /// The TCP connection failed, with the text of the error.
    TcpFailed(String),
    /// The TCP connection took too long.
    TcpTimedOut,
    /// The handshakes were tried.
    Tried {
        features: RawHandshakeFeatures,
        tls13: TlsFailureCode,
        /// Whether a request over HTTPS succeeded; asked only where TLS 1.3
        /// did.
        https_ok: bool,
        /// TLS 1.2; tried only where TLS 1.3 was not confirmed.
        tls12: Option<TlsFailureCode>,
    },
}

/// Whether the TLS 1.3 attempt succeeded.
pub open spec fn tls13_worked(v: TlsFailureCode) -> bool {
    v == TlsFailureCode::HandshakeOk || v == TlsFailureCode::Version13Ok
}

/// Whether TLS 1.2 is to be tried.
pub open spec fn wants_tls12(tls13: TlsFailureCode, https_ok: bool) -> bool {
    !(tls13_worked(tls13) && https_ok)
}

/// Whether a request over HTTPS is to confirm TLS 1.3.
pub fn needs_https_check(tls13: TlsFailureCode) -> (r: bool)
    ensures
        r == tls13_worked(tls13),
{
    tls13 == TlsFailureCode::HandshakeOk || tls13 == TlsFailureCode::Version13Ok
}

/// Whether TLS 1.2 is to be tried.
pub fn needs_tls12(tls13: TlsFailureCode, https_ok: bool) -> (r: bool)
    ensures
        r == wants_tls12(tls13, https_ok),
{
    !(needs_https_check(tls13) && https_ok)
}

/// The verdict on all stages.
pub open spec fn staged_verdict(tls13: TlsFailureCode, https_ok: bool, tls12: TlsFailureCode) -> TlsFailureCode {
    if !wants_tls12(tls13, https_ok) {
        TlsFailureCode::Version13Ok
    } else if tls13_worked(tls13) {
        TlsFailureCode::HandshakeOk
    } else if tls12 == TlsFailureCode::HandshakeOk {
        TlsFailureCode::Version12Only
    } else if tls_error(tls13) {
        tls13
    } else {
        tls12
    }
}

/// The result of a probe.
pub open spec fn concluded(o: TlsObservation, latency_us: u64, r: TlsProbeResult) -> bool {
    &&& r.latency_us == latency_us
    &&& match o {
        TlsObservation::TcpFailed(t) => {
            &&& r.verdict == lowered_connect_verdict(lowercase_of(t@))
            &&& r.stage == ConnectionStage::TcpConnected
            &&& !r.tls13_ok
            &&& !r.tls12_ok
            &&& r.server_hello_size == 0
            &&& r.cert_count == 0
            &&& r.negotiated_version is None
            &&& r.negotiated_cipher is None
        },
        TlsObservation::TcpTimedOut => {
            &&& r.verdict == TlsFailureCode::SilentDrop
            &&& r.stage == ConnectionStage::TcpConnect
            &&& !r.tls13_ok
            &&& !r.tls12_ok
            &&& r.server_hello_size == 0
            &&& r.cert_count == 0
            &&& r.negotiated_version is None
            &&& r.negotiated_cipher is None
        },
        TlsObservation::Tried { features, tls13, https_ok, tls12 } => {
            &&& r.verdict == staged_verdict(tls13, https_ok, tls12->0)
            &&& r.tls13_ok == tls13_worked(tls13)
            &&& r.tls12_ok == (!wants_tls12(tls13, https_ok) || tls12->0
                == TlsFailureCode::HandshakeOk)
            &&& r.stage == (if r.tls13_ok || r.tls12_ok {
                ConnectionStage::TlsConnected
            } else {
                ConnectionStage::TlsHandshake
            })
            &&& r.server_hello_size == features.server_hello_size
            &&& r.cert_count == features.cert_count
            &&& opt_view(r.negotiated_version) == opt_view(features.negotiated_version)
            &&& opt_view(r.negotiated_cipher) == opt_view(features.negotiated_cipher)
        },
    }
}

/// Draws the conclusion from the stages of a probe.
pub fn conclude(o: &TlsObservation, latency_us: u64) -> (r: TlsProbeResult)
    requires
        *o matches TlsObservation::Tried { tls13, https_ok, tls12, .. } ==> (wants_tls12(
            tls13,
            https_ok,
        ) ==> tls12 is Some),
    ensures
        concluded(*o, latency_us, r),
{
    match o {
        TlsObservation::TcpFailed(t) => {
            let lowered: String = to_lowercase(t.as_str());
            bare_result(
                classify_lowered_connect(lowered.as_str()),
                ConnectionStage::TcpConnected,
                latency_us,
            )
        },
        TlsObservation::TcpTimedOut => bare_result(
            TlsFailureCode::SilentDrop,
            ConnectionStage::TcpConnect,
            latency_us,
        ),
        TlsObservation::Tried { features, tls13, https_ok, tls12 } => {
            let v13: TlsFailureCode = *tls13;
            let tls13_ok: bool = needs_https_check(v13);
            let (verdict, tls12_ok, stage): (TlsFailureCode, bool, ConnectionStage) = if tls13_ok
                && *https_ok {
                (TlsFailureCode::Version13Ok, true, ConnectionStage::TlsConnected)
            } else {
                let v12: TlsFailureCode = tls12.unwrap();
                let tls12_ok: bool = v12 == TlsFailureCode::HandshakeOk;
                if !tls13_ok && tls12_ok {
                    (TlsFailureCode::Version12Only, true, ConnectionStage::TlsConnected)
                } else if !tls12_ok && !tls13_ok {
                    (
                        if v13.is_tls_fail() {
                            v13
                        } else {
                            v12
                        },
                        false,
                        ConnectionStage::TlsHandshake,
                    )
                } else {
                    (TlsFailureCode::HandshakeOk, tls12_ok, ConnectionStage::TlsConnected)
                }
            };
            TlsProbeResult {
                verdict,
                tls13_ok,
                tls12_ok,
                stage,
                latency_us,
                server_hello_size: features.server_hello_size,
                cert_count: features.cert_count,
                negotiated_version: copy_text(&features.negotiated_version),
                negotiated_cipher: copy_text(&features.negotiated_cipher),
            }
        },
    }
}

/// A server that speaks TLS 1.2 but not 1.3 is told apart exactly.
pub proof fn version_split_is_exact(
    tls13: TlsFailureCode,
    https_ok: bool,
    tls12: TlsFailureCode,
)
    requires
        tls_error(tls13),
        tls12 != TlsFailureCode::Version12Only,
    ensures
        staged_verdict(tls13, https_ok, tls12) == TlsFailureCode::Version12Only <==> tls12
            == TlsFailureCode::HandshakeOk,
{
}

/// Where both versions fail, the verdict is a failure; where one works, it is
/// none.
pub proof fn staged_verdict_fails_only_if_both_do(
    tls13: TlsFailureCode,
    https_ok: bool,
    tls12: TlsFailureCode,
)
    requires
        tls_error(tls12) || tls12 == TlsFailureCode::HandshakeOk,
        tls_error(tls13) || tls13 == TlsFailureCode::HandshakeOk,
    ensures
        tls_error(staged_verdict(tls13, https_ok, tls12)) <==> tls_error(tls13) && tls_error(tls12),
{
}

/// Where both versions fail, the verdict is the failure that was seen with the
/// newer one, and no version counts as spoken.
pub proof fn both_failing_shows_the_newer_failure(o: TlsObservation, latency_us: u64, r: TlsProbeResult)
    requires
        concluded(o, latency_us, r),
        o matches TlsObservation::Tried { tls13, tls12, .. } && tls13 != TlsFailureCode::HandshakeOk
            && tls13 != TlsFailureCode::Version13Ok && tls13 != TlsFailureCode::Version12Only
            && tls12 is Some && tls12 != Some(TlsFailureCode::HandshakeOk),
    ensures
        r.verdict == o->tls13,
        !r.tls13_ok,
        !r.tls12_ok,
        r.stage == ConnectionStage::TlsHandshake,
{
}

/// Where a version works, the verdict says which: the newer one that a request
/// confirmed, the newer one unconfirmed, or only the older one. The connection
/// counts as established.
pub proof fn a_working_version_is_named(o: TlsObservation, latency_us: u64, r: TlsProbeResult)
    requires
        concluded(o, latency_us, r),
        o is Tried,
    ensures
        ({
            let newer = o->tls13 == TlsFailureCode::HandshakeOk || o->tls13
                == TlsFailureCode::Version13Ok;
            let older = o->tls12 == Some(TlsFailureCode::HandshakeOk);
            &&& r.tls13_ok == newer
            &&& newer && o->https_ok ==> r.verdict == TlsFailureCode::Version13Ok && r.tls12_ok
            &&& newer && !o->https_ok && o->tls12 is Some ==> r.verdict
                == TlsFailureCode::HandshakeOk && r.tls12_ok == older
            &&& !newer && older ==> r.verdict == TlsFailureCode::Version12Only && r.tls12_ok
            &&& newer || older ==> r.stage == ConnectionStage::TlsConnected
        }),
{
}

/// No verdict is made up: it is the outcome of one of the attempts, or it says
/// which versions work.
pub proof fn verdicts_are_those_of_the_attempts(o: TlsObservation, latency_us: u64, r: TlsProbeResult)
    requires
        concluded(o, latency_us, r),
        o is Tried,
        o->tls12 is Some,
    ensures
        r.verdict == o->tls13 || r.verdict == o->tls12->0 || r.verdict
            == TlsFailureCode::Version13Ok || r.verdict == TlsFailureCode::HandshakeOk || r.verdict
            == TlsFailureCode::Version12Only,
{
}

/// A connection that failed is no handshake: a reset or refused one is a reset,
/// any other hangs, and so does one that took too long.
pub proof fn failed_connections_are_resets_or_silence(o: TlsObservation, latency_us: u64, r: TlsProbeResult)
    requires
        concluded(o, latency_us, r),
        !(o is Tried),
    ensures
        r.verdict == TlsFailureCode::Reset || r.verdict == TlsFailureCode::SilentDrop,
        o is TcpTimedOut ==> r.verdict == TlsFailureCode::SilentDrop && r.stage
            == ConnectionStage::TcpConnect,
        o matches TlsObservation::TcpFailed(t) ==> {
            &&& r.stage == ConnectionStage::TcpConnected
            &&& r.verdict == TlsFailureCode::Reset <==> (occurs(lowercase_of(t@), "reset"@)
                || occurs(lowercase_of(t@), "refused"@))
        },
        !r.tls13_ok && !r.tls12_ok,
        r.latency_us == latency_us,
{
}

/// What is carried over as it is: the time, and what the server showed.
pub proof fn what_the_server_showed_is_kept(o: TlsObservation, latency_us: u64, r: TlsProbeResult)
    requires
        concluded(o, latency_us, r),
    ensures
        r.latency_us == latency_us,
        o matches TlsObservation::Tried { features, .. } ==> r.server_hello_size
            == features.server_hello_size && r.cert_count == features.cert_count && opt_view(
            r.negotiated_version,
        ) == opt_view(features.negotiated_version) && opt_view(r.negotiated_cipher) == opt_view(
            features.negotiated_cipher,
        ),
        !(o is Tried) ==> r.server_hello_size == 0 && r.cert_count == 0,
{
}

/// What the words of a failed handshake mean: one about a certificate is a
/// replaced one, before anything else; one about an alert, and not about a
/// certificate, is an alert; any other is no TLS. An attempt that hung or was
/// cut short is silence, one that completed is no failure.
pub proof fn failed_handshakes_are_sorted_by_their_words(a: VersionAttempt)
    ensures
        a is Completed <==> attempt_verdict(a) == TlsFailureCode::HandshakeOk,
        a is TimedOut ==> attempt_verdict(a) == TlsFailureCode::SilentDrop,
        a == VersionAttempt::HandshakeFailed(HandshakeFailure::WouldBlock) ==> attempt_verdict(a)
            == TlsFailureCode::SilentDrop,
        a is SetupFailed ==> attempt_verdict(a) == TlsFailureCode::Garbage,
        a matches VersionAttempt::ConnectFailed(t) ==> attempt_verdict(a) == (if occurs(
            lowercase_of(t@),
            "reset"@,
        ) || occurs(lowercase_of(t@), "refused"@) {
            TlsFailureCode::Reset
        } else {
            TlsFailureCode::SilentDrop
        }),
        a matches VersionAttempt::HandshakeFailed(HandshakeFailure::Failure(t)) ==> ({
            let words = lowercase_of(t@);
            let v = attempt_verdict(a);
            let cert = occurs(words, "certificate"@) || occurs(words, "cert"@);
            let alert = occurs(words, "alert"@);
            &&& cert <==> (v == TlsFailureCode::Mitm || v == TlsFailureCode::MitmExpired || v
                == TlsFailureCode::MitmSelfSigned || v == TlsFailureCode::MitmHostnameMismatch)
            &&& !cert && alert <==> (v == TlsFailureCode::Alert || v
                == TlsFailureCode::AlertSniblock || v == TlsFailureCode::AlertHandshake || v
                == TlsFailureCode::AlertProtocol)
            &&& !cert && !alert <==> v == TlsFailureCode::Garbage
            &&& v == TlsFailureCode::MitmExpired <==> cert && occurs(words, "expired"@)
            &&& v == TlsFailureCode::MitmSelfSigned ==> occurs(words, "self-signed"@) || occurs(
                words,
                "unknown issuer"@,
            )
            &&& v == TlsFailureCode::MitmHostnameMismatch ==> occurs(words, "hostname"@) || occurs(
                words,
                "mismatch"@,
            )
            &&& v == TlsFailureCode::Mitm ==> !occurs(words, "self-signed"@) && !occurs(
                words,
                "unknown issuer"@,
            ) && !occurs(words, "hostname"@) && !occurs(words, "mismatch"@)
            &&& v == TlsFailureCode::AlertSniblock <==> !cert && alert && (occurs(
                words,
                "unrecognized"@,
            ) || occurs(words, "sni"@))
            &&& v == TlsFailureCode::AlertHandshake ==> occurs(words, "handshake"@)
            &&& v == TlsFailureCode::AlertProtocol ==> occurs(words, "protocol"@) && !occurs(
                words,
                "handshake"@,
            )
            &&& v == TlsFailureCode::Alert ==> !occurs(words, "handshake"@) && !occurs(
                words,
                "protocol"@,
            )
        }),
{
}

/// The stages: a request confirms the newer version exactly where it worked,
/// and the older one is tried exactly where the newer one is not confirmed.
pub proof fn the_older_version_is_tried_unless_confirmed(tls13: TlsFailureCode, https_ok: bool)
    ensures
        tls13_worked(tls13) <==> (tls13 == TlsFailureCode::HandshakeOk || tls13
            == TlsFailureCode::Version13Ok),
        wants_tls12(tls13, https_ok) <==> !(https_ok && (tls13 == TlsFailureCode::HandshakeOk
            || tls13 == TlsFailureCode::Version13Ok)),
{
}

/// Reading goes on until the server is done, which a handshake record with the
/// message 14 tells wherever it stands, or until more than 8192 bytes have come.
pub proof fn reading_ends_where_the_server_is_done(before: Seq<u8>, minor: u8, hi: u8, lo: u8, after: Seq<u8>)
    ensures
        read_enough(before + seq![22u8, 3, minor, hi, lo, 14] + after),
        before.len() > 8192 ==> read_enough(before),
        before.len() < 6 ==> !read_enough(before),
        before.len() <= 8192 && !before.contains(14u8) ==> !read_enough(before),
        before.len() <= 8192 && !before.contains(22u8) ==> !read_enough(before),
{
    let b = before + seq![22u8, 3, minor, hi, lo, 14] + after;
    let n = before.len() as int;
    assert(b[n] == 22 && b[n + 1] == 3 && b[n + 5] == 14);
    assert(hello_done_at(b, n));
    if exists|i: int| hello_done_at(before, i) {
        let i = choose|i: int| hello_done_at(before, i);
        assert(before[i] == 22 && before[i + 5] == 14);
    }
}

} // verus!
