//! Finding out whether, and how, a destination is blocked.
//!
//! A probe runs through phases: name service, TCP, TLS, HTTP, data volume,
//! fingerprints and QUIC. Each decides whether the next is worth running.
use vstd::prelude::*;

use crate::probe::classifier::{DnsFailureCode, HttpFailureCode, ProbeVerdict, TcpFailureCode, TlsFailureCode};
use crate::probe::decision_engine::{base_verdict, compute_base_verdict, decide, handshake_failed, ruling_of, Decision};
use crate::probe::discriminator::{discriminate, finding_of, DiscriminationResult};
use crate::probe::dns_probe::{copy_ips, DnsProbeResult};
use crate::probe::http_probe::HttpProbeResult;
use crate::probe::ja4_probe::Ja4ProbeResult;
use crate::probe::ml_classifier::MlResult;
use crate::probe::quic_probe::{quic_against_tcp, QuicProbe, QuicProbeResult, QuicVerdict};
use crate::probe::tcp16_probe::Tcp16ProbeResult;
use crate::probe::tcp_probe::{no_attempt, TcpProbeResult};
use crate::probe::timing_probe::{FeatureFacts, FeatureVector, TimingProbe};
use crate::probe::tls_probe::TlsProbeResult;

pub mod classifier;
pub mod config;
pub mod decision_engine;
pub mod discriminator;
pub mod dns_probe;
pub mod http_probe;
pub mod ja4_probe;
pub mod ml_classifier;
pub mod preset_places;
pub mod presets;
pub mod quic_probe;
pub mod tcp16_probe;
pub mod tcp_probe;
pub mod timing_probe;
pub mod tls_probe;

verus! {

/// What a probe of one domain found.
#[derive(Debug, Clone)]
pub struct ProbeResult {
    pub domain: String,
    /// The first address of the domain.
    pub ip: Option<u32>,
    pub verdict: ProbeVerdict,
    /// Confidence in millionths.
    pub confidence: u32,
    pub dns: DnsProbeResult,
    pub tcp: TcpProbeResult,
    pub tls: Option<TlsProbeResult>,
    pub http: Option<HttpProbeResult>,
    pub tcp16: Option<Tcp16ProbeResult>,
    /// Who caused a failure.
    pub discrimination: Option<DiscriminationResult>,
    pub ja4: Option<Ja4ProbeResult>,
    pub quic: Option<QuicProbeResult>,
    pub quic_verdict: Option<QuicVerdict>,
    pub features: Option<FeatureVector>,
    pub ml: Option<MlResult>,
    /// Whether the domain has been blocked often enough to be tunnelled.
    pub should_tunnel: bool,
    pub timestamp: String,
    /// The decision and its reasons, where one was taken.
    pub decision: Option<Decision>,
}

impl Default for ProbeResult {
    fn default() -> (r: ProbeResult)
        ensures
            r.domain@.len() == 0,
            r.ip is None,
            r.verdict == ProbeVerdict::Ambiguous,
            r.confidence == 0,
            r.dns.verdict == DnsFailureCode::DnsOk,
            r.dns.resolved_ips@.len() == 0,
            r.dns.udp_ips@.len() == 0,
            r.dns.doh_ips@.len() == 0,
            r.dns.latency_us == 0,
            !r.dns.fake_ip_detected,
            r.dns.udp_rtt_us == 0,
            r.dns.doh_rtt_us == 0,
            r.dns.udp_response_size == 0,
            r.dns.doh_response_size == 0,
            r.tcp == (TcpProbeResult { verdict: TcpFailureCode::ConnectOk, rtt_us: 0, ip: None }),
            r.tls is None,
            r.http is None,
            r.tcp16 is None,
            r.discrimination is None,
            r.ja4 is None,
            r.quic is None,
            r.quic_verdict is None,
            r.features is None,
            r.ml is None,
            !r.should_tunnel,
            r.timestamp@.len() == 0,
            r.decision is None,
    {
        ProbeResult {
            domain: String::new(),
            ip: None,
            verdict: ProbeVerdict::Ambiguous,
            confidence: 0,
            dns: DnsProbeResult::default(),
            tcp: TcpProbeResult::default(),
            tls: None,
            http: None,
            tcp16: None,
            discrimination: None,
            ja4: None,
            quic: None,
            quic_verdict: None,
            features: None,
            ml: None,
            should_tunnel: false,
            timestamp: String::new(),
            decision: None,
        }
    }
}

/// The verdict of name service and TCP, and how sure it is.
pub fn compute_verdict(dns: &DnsProbeResult, tcp: &TcpProbeResult) -> (r: (ProbeVerdict, u32))
    ensures
        r == base_verdict(dns.verdict, tcp.verdict),
{
    compute_base_verdict(&dns.verdict, &tcp.verdict)
}

/// What a probe does next.
#[derive(Debug, Clone)]
pub enum ProbeStep {
    /// Ask the name servers.
    Dns,
    /// Connect to the addresses.
    Tcp(Vec<u32>),
    /// Shake hands with the address.
    Tls(u32),
    /// Send a request to the address.
    Http(u32),
    /// See how much data the address takes.
    DataVolume(u32),
    /// Try other fingerprints on the address.
    Ja4(u32),
    /// Try QUIC on the address.
    Quic(u32),
    /// Score the features.
    Score(FeatureVector),
    /// Nothing is left to do.
    Finished,
}

/// A probe under way.
#[derive(Debug)]
pub struct ProbeSession {
    pub timing: TimingProbe,
    pub dns: Option<DnsProbeResult>,
    pub tcp: Option<TcpProbeResult>,
    pub tls: Option<TlsProbeResult>,
    pub http: Option<HttpProbeResult>,
    pub tcp16: Option<Tcp16ProbeResult>,
    pub ja4: Option<Ja4ProbeResult>,
    pub quic: Option<QuicProbeResult>,
    pub ml: Option<MlResult>,
}

/// The addresses that the name service vouches for.
pub open spec fn vouched_ips(dns: DnsProbeResult) -> Seq<u32> {
    if dns.verdict == DnsFailureCode::DnsOk {
        dns.resolved_ips@
    } else {
        Seq::empty()
    }
}

/// The first of some addresses.
pub open spec fn first_ip(ips: Seq<u32>) -> Option<u32> {
    if ips.len() > 0 {
        Some(ips[0])
    } else {
        None
    }
}

impl ProbeSession {
    /// The first address that the name service vouches for.
    pub open spec fn target(self) -> Option<u32> {
        match self.dns {
            Some(d) => first_ip(vouched_ips(d)),
            None => None,
        }
    }

    /// TLS is tried where TCP connected.
    pub open spec fn wants_tls(self) -> bool {
        match self.tcp {
            Some(t) => t.verdict == TcpFailureCode::ConnectOk && self.target() is Some,
            None => false,
        }
    }

    /// HTTP is tried where TLS worked.
    pub open spec fn wants_http(self) -> bool {
        match self.tls {
            Some(t) => !handshake_failed(t.verdict) && self.target() is Some,
            None => false,
        }
    }

    /// The data volume is tried where the HTTP response was cut off.
    pub open spec fn wants_volume(self) -> bool {
        match self.http {
            Some(h) => h.verdict == HttpFailureCode::Cutoff && self.target() is Some,
            None => false,
        }
    }

    /// Fingerprints are tried where TLS failed.
    pub open spec fn wants_fingerprints(self) -> bool {
        match self.tls {
            Some(t) => handshake_failed(t.verdict) && self.target() is Some,
            None => false,
        }
    }

    /// The TCP outcome, corrected where the connection breaks after some
    /// amount of data.
    pub open spec fn tcp_outcome(self) -> TcpProbeResult {
        let tcp = match self.tcp {
            Some(t) => t,
            None => no_attempt(),
        };
        match self.tcp16 {
            Some(v) => if v.detected {
                TcpProbeResult { verdict: TcpFailureCode::DataVolumeCut, ..tcp }
            } else {
                tcp
            },
            None => tcp,
        }
    }

    /// What features are computed from, besides times.
    pub open spec fn facts(self) -> FeatureFacts {
        FeatureFacts {
            dns_udp_response_size: match self.dns {
                Some(d) => d.udp_response_size as u64,
                None => 0,
            },
            dns_doh_response_size: match self.dns {
                Some(d) => d.doh_response_size as u64,
                None => 0,
            },
            tcp_connect_ok: self.tcp_outcome().verdict == TcpFailureCode::ConnectOk,
            tls_handshake_ok: match self.tls {
                Some(t) => !handshake_failed(t.verdict),
                None => false,
            },
            tls_server_hello_size: match self.tls {
                Some(t) => t.server_hello_size as u64,
                None => 0,
            },
            tls_cert_count: match self.tls {
                Some(t) => t.cert_count as u64,
                None => 0,
            },
            http_response_size: match self.http {
                Some(h) => h.bytes_read,
                None => 0,
            },
            http_status_code: match self.http {
                Some(h) => h.status_code,
                None => 0,
            },
        }
    }

    /// The probe once the name service has answered. Where it vouches for no
    /// address, TCP is not tried.
    pub open spec fn with_dns(self, dns: DnsProbeResult, now_us: u64) -> ProbeSession {
        ProbeSession {
            dns: Some(dns),
            tcp: if vouched_ips(dns).len() == 0 {
                Some(no_attempt())
            } else {
                self.tcp
            },
            timing: TimingProbe {
                dns_udp_start: Some(now_us),
                dns_udp_end: Some((now_us + dns.udp_rtt_us / 1000 * 1000) as u64),
                dns_doh_start: Some(now_us),
                dns_doh_end: Some((now_us + dns.doh_rtt_us / 1000 * 1000) as u64),
                ..self.timing
            },
            ..self
        }
    }

    /// The probe once the server has responded.
    pub open spec fn with_http(self, http: HttpProbeResult, start_us: u64) -> ProbeSession {
        ProbeSession {
            http: Some(http),
            timing: TimingProbe {
                http_start: Some(start_us),
                http_first_byte: Some((start_us + http.first_byte_rtt_us / 1000 * 1000) as u64),
                http_end: Some((start_us + http.total_rtt_us / 1000 * 1000) as u64),
                ..self.timing
            },
            ..self
        }
    }

    /// A probe of which nothing is known yet.
    pub fn new() -> (r: ProbeSession)
        ensures
            r == blank_session(),
    {
        ProbeSession {
            timing: TimingProbe::new(),
            dns: None,
            tcp: None,
            tls: None,
            http: None,
            tcp16: None,
            ja4: None,
            quic: None,
            ml: None,
        }
    }

    fn target_ip(&self) -> (r: Option<u32>)
        ensures
            r == self.target(),
    {
        match &self.dns {
            Some(d) => if d.verdict == DnsFailureCode::DnsOk && d.resolved_ips.len() > 0 {
                Some(d.resolved_ips[0])
            } else {
                None
            },
            None => None,
        }
    }

    /// Takes the name service outcome. Where it vouches for no address, TCP
    /// is not tried.
    pub fn record_dns(&mut self, dns: DnsProbeResult, now_us: u64)
        requires
            now_us + dns.udp_rtt_us <= u64::MAX,
            now_us + dns.doh_rtt_us <= u64::MAX,
        ensures
            *final(self) == old(self).with_dns(dns, now_us),
    {
        self.timing.set_dns_udp_rtt(now_us, dns.udp_rtt_us / 1000);
        self.timing.set_dns_doh_rtt(now_us, dns.doh_rtt_us / 1000);
        if dns.verdict != DnsFailureCode::DnsOk || dns.resolved_ips.len() == 0 {
            self.tcp =
            Some(TcpProbeResult { verdict: TcpFailureCode::Timeout, rtt_us: 0, ip: None });
        }
        self.dns = Some(dns);
    }

    /// Takes the TCP outcome, and when connecting began and ended.
    pub fn record_tcp(&mut self, tcp: TcpProbeResult, start_us: u64, end_us: u64)
        ensures
            *final(self) == (ProbeSession {
                tcp: Some(tcp),
                timing: TimingProbe {
                    tcp_start: Some(start_us),
                    tcp_end: Some(end_us),
                    ..old(self).timing
                },
                ..*old(self)
            }),
    {
        self.timing.mark_tcp_start(start_us);
        self.timing.mark_tcp_end(end_us);
        self.tcp = Some(tcp);
    }

    /// Takes the TLS outcome, and when the handshake began and ended.
    pub fn record_tls(&mut self, tls: TlsProbeResult, start_us: u64, end_us: u64)
        ensures
            *final(self) == (ProbeSession {
                tls: Some(tls),
                timing: TimingProbe {
                    tls_start: Some(start_us),
                    tls_end: Some(end_us),
                    ..old(self).timing
                },
                ..*old(self)
            }),
    {
        self.timing.mark_tls_start(start_us);
        self.timing.mark_tls_end(end_us);
        self.tls = Some(tls);
    }

    /// Takes the HTTP outcome, and when the request was sent. The times of
    /// the first byte and of the end are those that the outcome states.
    pub fn record_http(&mut self, http: HttpProbeResult, start_us: u64)
        requires
            start_us + http.first_byte_rtt_us <= u64::MAX,
            start_us + http.total_rtt_us <= u64::MAX,
        ensures
            *final(self) == old(self).with_http(http, start_us),
    {
        self.timing.mark_http_start(start_us);
        self.timing.set_http_first_byte_rtt(start_us, http.first_byte_rtt_us / 1000);
        self.timing.set_http_total_rtt(start_us, http.total_rtt_us / 1000);
        self.http = Some(http);
    }

    /// The TCP outcome, corrected by the data volume.
    fn corrected_tcp(&self) -> (r: TcpProbeResult)
        ensures
            r == self.tcp_outcome(),
    {
        let mut tcp: TcpProbeResult = match self.tcp {
            Some(t) => t,
            None => TcpProbeResult { verdict: TcpFailureCode::Timeout, rtt_us: 0, ip: None },
        };
        if let Some(v) = self.tcp16 {
            if v.detected {
                tcp.verdict = TcpFailureCode::DataVolumeCut;
            }
        }
        tcp
    }

    /// Computes the features of the probe.
    pub fn features(&self) -> (r: FeatureVector)
        ensures
            r == self.timing.features_with(self.facts()),
    {
        let mut facts: FeatureFacts = FeatureFacts {
            dns_udp_response_size: 0,
            dns_doh_response_size: 0,
            tcp_connect_ok: self.corrected_tcp().verdict == TcpFailureCode::ConnectOk,
            tls_handshake_ok: false,
            tls_server_hello_size: 0,
            tls_cert_count: 0,
            http_response_size: 0,
            http_status_code: 0,
        };
        if let Some(d) = &self.dns {
            facts.dns_udp_response_size = d.udp_response_size as u64;
            facts.dns_doh_response_size = d.doh_response_size as u64;
        }
        if let Some(t) = &self.tls {
            facts.tls_handshake_ok = !t.verdict.is_tls_fail();
            facts.tls_server_hello_size = t.server_hello_size as u64;
            facts.tls_cert_count = t.cert_count as u64;
        }
        if let Some(h) = &self.http {
            facts.http_response_size = h.bytes_read;
            facts.http_status_code = h.status_code;
        }
        self.timing.build_feature_vector(&facts)
    }

    /// What the probe does next.
    pub fn next_step(&self) -> (r: ProbeStep)
        ensures
            step_is(*self, r),
    {
        let dns: &DnsProbeResult = match &self.dns {
            None => {
                return ProbeStep::Dns;
            },
            Some(d) => d,
        };
        if self.tcp.is_none() {
            return ProbeStep::Tcp(
                if dns.verdict == DnsFailureCode::DnsOk {
                    copy_ips(&dns.resolved_ips)
                } else {
                    Vec::new()
                },
            );
        }
        if let Some(ip) = self.target_ip() {
            if let (Some(tcp), None) = (&self.tcp, &self.tls) {
                if tcp.verdict == TcpFailureCode::ConnectOk {
                    return ProbeStep::Tls(ip);
                }
            }
            if let Some(tls) = &self.tls {
                if !tls.verdict.is_tls_fail() && self.http.is_none() {
                    return ProbeStep::Http(ip);
                }
            }
            if let Some(http) = &self.http {
                if http.verdict == HttpFailureCode::Cutoff && self.tcp16.is_none() {
                    return ProbeStep::DataVolume(ip);
                }
            }
            if let Some(tls) = &self.tls {
                if tls.verdict.is_tls_fail() && self.ja4.is_none() {
                    return ProbeStep::Ja4(ip);
                }
            }
            if self.quic.is_none() {
                return ProbeStep::Quic(ip);
            }
        }
        if self.ml.is_none() {
            return ProbeStep::Score(self.features());
        }
        ProbeStep::Finished
    }

    /// Who caused a failure, as far as TLS and HTTP tell.
    fn origin(&self) -> (r: Option<DiscriminationResult>)
        ensures
            match (self.tls, r) {
                (None, None) => true,
                (Some(t), Some(d)) => d@ == finding_of(t.verdict, http_outcome(self.http)),
                _ => false,
            },
    {
        let http: HttpFailureCode = match &self.http {
            Some(h) => h.verdict,
            None => HttpFailureCode::HttpOk,
        };
        match &self.tls {
            Some(t) => Some(discriminate(&t.verdict, &http)),
            None => None,
        }
    }

    /// Puts the outcomes together and decides.
    pub fn conclude(self, domain: String, timestamp: String) -> (r: ProbeResult)
        requires
            self.dns is Some,
        ensures
            r.domain == domain,
            r.ip == self.target(),
            Some(r.dns) == self.dns,
            r.tcp == self.tcp_outcome(),
            r.tls == self.tls,
            r.http == self.http,
            r.tcp16 == self.tcp16,
            r.ja4 == self.ja4,
            r.quic == self.quic,
            r.ml == self.ml,
            r.timestamp == timestamp,
            !r.should_tunnel,
            r.features == Some(self.timing.features_with(self.facts())),
            r.quic_verdict == (match self.quic {
                Some(q) => Some(quic_against_tcp(q.response_type, self.tcp_outcome().verdict)),
                None => None,
            }),
            match (self.tls, r.discrimination) {
                (None, None) => true,
                (Some(t), Some(d)) => d@ == finding_of(t.verdict, http_outcome(self.http)),
                _ => false,
            },
            match r.decision {
                Some(d) => {
                    &&& d@ == ruling_of(r)
                    &&& r.verdict == d.verdict
                    &&& r.confidence == d.confidence
                },
                None => false,
            },
    {
        let ip: Option<u32> = self.target_ip();
        let tcp: TcpProbeResult = self.corrected_tcp();
        let discrimination: Option<DiscriminationResult> = self.origin();
        let features: FeatureVector = self.features();
        let quic_verdict: Option<QuicVerdict> = match &self.quic {
            Some(q) => Some(QuicProbe::discriminate(q, tcp.verdict)),
            None => None,
        };
        let dns: DnsProbeResult = match self.dns {
            Some(d) => d,
            None => DnsProbeResult::default(),
        };
        let mut r: ProbeResult = ProbeResult {
            domain,
            ip,
            verdict: ProbeVerdict::Ambiguous,
            confidence: 0,
            dns,
            tcp,
            tls: self.tls,
            http: self.http,
            tcp16: self.tcp16,
            discrimination,
            ja4: self.ja4,
            quic: self.quic,
            quic_verdict,
            features: Some(features),
            ml: self.ml,
            should_tunnel: false,
            timestamp,
            decision: None,
        };
        let decision: Decision = decide(&r);
        r.verdict = decision.verdict;
        r.confidence = decision.confidence;
        r.decision = Some(decision);
        r
    }
}

/// A probe of which nothing is known yet.
pub open spec fn blank_session() -> ProbeSession {
    ProbeSession {
        timing: crate::probe::timing_probe::untimed(),
        dns: None,
        tcp: None,
        tls: None,
        http: None,
        tcp16: None,
        ja4: None,
        quic: None,
        ml: None,
    }
}

/// The HTTP outcome; where HTTP was not tried, nothing speaks against it.
pub open spec fn http_outcome(http: Option<HttpProbeResult>) -> HttpFailureCode {
    match http {
        Some(h) => h.verdict,
        None => HttpFailureCode::HttpOk,
    }
}

/// What a probe does next: the first phase that is wanted and has not run.
pub open spec fn step_is(s: ProbeSession, step: ProbeStep) -> bool {
    if s.dns is None {
        step == ProbeStep::Dns
    } else if s.tcp is None {
        match step {
            ProbeStep::Tcp(ips) => ips@ == vouched_ips(s.dns->0),
            _ => false,
        }
    } else if s.wants_tls() && s.tls is None {
        step == ProbeStep::Tls(s.target()->0)
    } else if s.wants_http() && s.http is None {
        step == ProbeStep::Http(s.target()->0)
    } else if s.wants_volume() && s.tcp16 is None {
        step == ProbeStep::DataVolume(s.target()->0)
    } else if s.wants_fingerprints() && s.ja4 is None {
        step == ProbeStep::Ja4(s.target()->0)
    } else if s.target() is Some && s.quic is None {
        step == ProbeStep::Quic(s.target()->0)
    } else if s.ml is None {
        step == ProbeStep::Score(s.timing.features_with(s.facts()))
    } else {
        step == ProbeStep::Finished
    }
}

/// Where the name service vouches for no address, nothing is connected to.
pub proof fn no_address_no_connection(s: ProbeSession, step: ProbeStep)
    requires
        s.dns is Some,
        s.target() is None,
        s.tcp is Some,
        step_is(s, step),
    ensures
        step is Score || step is Finished,
{
}

/// Every phase connects to the address that the name service vouched for.
pub proof fn phases_share_one_address(s: ProbeSession, step: ProbeStep)
    requires
        step_is(s, step),
    ensures
        match step {
            ProbeStep::Tls(ip)
            | ProbeStep::Http(ip)
            | ProbeStep::DataVolume(ip)
            | ProbeStep::Ja4(ip)
            | ProbeStep::Quic(ip) => s.target() == Some(ip),
            _ => true,
        },
{
}

/// How many phases have not run.
pub open spec fn phases_left(s: ProbeSession) -> nat {
    (if s.dns is None {
        1nat
    } else {
        0
    }) + (if s.tcp is None {
        1nat
    } else {
        0
    }) + (if s.tls is None {
        1nat
    } else {
        0
    }) + (if s.http is None {
        1nat
    } else {
        0
    }) + (if s.tcp16 is None {
        1nat
    } else {
        0
    }) + (if s.ja4 is None {
        1nat
    } else {
        0
    }) + (if s.quic is None {
        1nat
    } else {
        0
    }) + (if s.ml is None {
        1nat
    } else {
        0
    })
}

/// A step is never for a phase that has run, so that a probe ends after at
/// most eight.
pub proof fn phases_run_once(s: ProbeSession, step: ProbeStep)
    requires
        step_is(s, step),
    ensures
        step is Finished || phases_left(s) > 0,
        step is Dns ==> s.dns is None,
        step is Tcp ==> s.tcp is None,
        step is Tls ==> s.tls is None,
        step is Http ==> s.http is None,
        step is DataVolume ==> s.tcp16 is None,
        step is Ja4 ==> s.ja4 is None,
        step is Quic ==> s.quic is None,
        step is Score ==> s.ml is None,
        phases_left(s) <= 8,
{
}

/// A probe begins with name service and goes on with TCP, on the addresses that
/// name service gave, and on none where it failed.
pub proof fn names_come_before_connections(s: ProbeSession, step: ProbeStep)
    requires
        step_is(s, step),
    ensures
        s.dns is None <==> step is Dns,
        s.dns is Some && s.tcp is None <==> step is Tcp,
        step matches ProbeStep::Tcp(ips) ==> {
            let d = s.dns->0;
            &&& d.verdict == DnsFailureCode::DnsOk ==> ips@ == d.resolved_ips@
            &&& d.verdict != DnsFailureCode::DnsOk ==> ips@.len() == 0
        },
{
}

/// Which phase follows, where name service gave an address: a handshake where
/// TCP connected; a request where the handshake went through; the data volume
/// where the response was cut off; other fingerprints where the handshake
/// failed; then QUIC; then the score. Each runs on the first address.
pub proof fn phases_follow_from_outcomes(s: ProbeSession, step: ProbeStep)
    requires
        step_is(s, step),
        s.dns is Some,
        s.dns->0.verdict == DnsFailureCode::DnsOk,
        s.dns->0.resolved_ips@.len() > 0,
        s.tcp is Some,
    ensures
        ({
            let ip = s.dns->0.resolved_ips@[0];
            let connected = s.tcp->0.verdict == TcpFailureCode::ConnectOk;
            let shaken = s.tls is Some && (s.tls->0.verdict == TlsFailureCode::HandshakeOk
                || s.tls->0.verdict == TlsFailureCode::Version13Ok || s.tls->0.verdict
                == TlsFailureCode::Version12Only);
            let cut = s.http is Some && s.http->0.verdict == HttpFailureCode::Cutoff;
            &&& step == ProbeStep::Tls(ip) <==> connected && s.tls is None
            &&& shaken && s.http is None ==> step == ProbeStep::Http(ip)
            &&& s.tls is Some && shaken && cut && s.tcp16 is None ==> step == ProbeStep::DataVolume(
                ip,
            )
            &&& s.tls is Some && !shaken && !(cut && s.tcp16 is None) && s.ja4 is None ==> step
                == ProbeStep::Ja4(ip)
            &&& !connected && s.tls is None && s.http is None && s.quic is None ==> step
                == ProbeStep::Quic(ip)
            &&& shaken && s.http is Some && !(cut && s.tcp16 is None) && s.quic is None ==> step
                == ProbeStep::Quic(ip)
            &&& s.tls is Some && !shaken && s.http is None && s.ja4 is Some && s.quic is None
                ==> step == ProbeStep::Quic(ip)
            &&& step is Http ==> shaken && s.http is None
            &&& step is DataVolume ==> cut && s.tcp16 is None
            &&& step is Ja4 ==> s.tls is Some && !shaken && s.ja4 is None
            &&& step is Score ==> s.quic is Some && s.ml is None
            &&& step is Finished ==> s.quic is Some && s.ml is Some
        }),
{
}

/// Once every phase has run the probe is finished; it is scored just before.
pub proof fn scoring_comes_last(s: ProbeSession, step: ProbeStep)
    requires
        step_is(s, step),
        s.dns is Some,
        s.tcp is Some,
        s.tls is Some,
        s.http is Some,
        s.tcp16 is Some,
        s.ja4 is Some,
        s.quic is Some,
    ensures
        s.ml is Some ==> step is Finished,
        s.ml is None ==> step == ProbeStep::Score(s.timing.features_with(s.facts())),
{
}

/// A connection that breaks after some amount of data is recorded as such, with
/// its time and address; otherwise the outcome of TCP stands. A TCP that was
/// never tried counts as one that timed out.
pub proof fn cut_connections_are_recorded_as_such(s: ProbeSession)
    ensures
        ({
            let t = s.tcp_outcome();
            &&& s.tcp16 is Some && s.tcp16->0.detected ==> t.verdict
                == TcpFailureCode::DataVolumeCut
            &&& s.tcp is Some && !(s.tcp16 is Some && s.tcp16->0.detected) ==> t == s.tcp->0
            &&& s.tcp is Some ==> t.rtt_us == s.tcp->0.rtt_us && t.ip == s.tcp->0.ip
            &&& s.tcp is None && s.tcp16 is None ==> t.verdict == TcpFailureCode::Timeout && t.ip
                is None && t.rtt_us == 0
        }),
{
}

/// What is scored besides times: sizes and counts are those that the phases
/// reported, and zero for a phase that did not run; TCP counts as connected, and
/// TLS as shaken, only where it was.
pub proof fn scored_facts_are_those_of_the_phases(s: ProbeSession)
    ensures
        ({
            let f = s.facts();
            &&& s.dns is None ==> f.dns_udp_response_size == 0 && f.dns_doh_response_size == 0
            &&& s.dns is Some ==> f.dns_udp_response_size == s.dns->0.udp_response_size
                && f.dns_doh_response_size == s.dns->0.doh_response_size
            &&& f.tcp_connect_ok <==> s.tcp is Some && s.tcp->0.verdict == TcpFailureCode::ConnectOk
                && !(s.tcp16 is Some && s.tcp16->0.detected)
            &&& f.tls_handshake_ok <==> s.tls is Some && (s.tls->0.verdict
                == TlsFailureCode::HandshakeOk || s.tls->0.verdict == TlsFailureCode::Version13Ok
                || s.tls->0.verdict == TlsFailureCode::Version12Only)
            &&& s.tls is None ==> f.tls_server_hello_size == 0 && f.tls_cert_count == 0
            &&& s.tls is Some ==> f.tls_server_hello_size == s.tls->0.server_hello_size
                && f.tls_cert_count == s.tls->0.cert_count
            &&& s.http is None ==> f.http_response_size == 0 && f.http_status_code == 0
            &&& s.http is Some ==> f.http_response_size == s.http->0.bytes_read
                && f.http_status_code == s.http->0.status_code
        }),
{
}

/// Where a request was not made, nothing speaks against it; where it was, its
/// verdict counts.
pub proof fn untried_requests_accuse_nobody(h: HttpProbeResult)
    ensures
        http_outcome(None) == HttpFailureCode::HttpOk,
        http_outcome(Some(h)) == h.verdict,
{
}

/// Where the name service gave no address that it vouches for, TCP counts as
/// timed out and nothing more is connected to; where it gave one, TCP is still
/// to be tried. The times of its answers are those that it states.
pub proof fn names_decide_whether_to_connect(s: ProbeSession, dns: DnsProbeResult, now_us: u64)
    requires
        now_us + dns.udp_rtt_us <= u64::MAX,
        now_us + dns.doh_rtt_us <= u64::MAX,
        s.tcp is None,
    ensures
        ({
            let after = s.with_dns(dns, now_us);
            let vouched = dns.verdict == DnsFailureCode::DnsOk && dns.resolved_ips@.len() > 0;
            let v = after.timing.features_with(after.facts());
            &&& after.dns == Some(dns)
            &&& vouched ==> after.tcp is None
            &&& !vouched ==> after.tcp is Some && after.tcp->0.verdict == TcpFailureCode::Timeout
                && after.tcp->0.ip is None
            &&& after.tls == s.tls && after.http == s.http && after.tcp16 == s.tcp16
            &&& after.ja4 == s.ja4 && after.quic == s.quic && after.ml == s.ml
            &&& v.dns_udp_rtt_ms == dns.udp_rtt_us / 1000
            &&& v.dns_doh_rtt_ms == dns.doh_rtt_us / 1000
            &&& v.tcp_connect_rtt_ms == s.timing.features_with(s.facts()).tcp_connect_rtt_ms
        }),
{
}

/// The times of a response are those that it states, and nothing else of the
/// probe changes.
pub proof fn responses_state_their_times(s: ProbeSession, http: HttpProbeResult, start_us: u64)
    requires
        start_us + http.first_byte_rtt_us <= u64::MAX,
        start_us + http.total_rtt_us <= u64::MAX,
    ensures
        ({
            let after = s.with_http(http, start_us);
            let v = after.timing.features_with(after.facts());
            &&& after.http == Some(http)
            &&& after.dns == s.dns && after.tcp == s.tcp && after.tls == s.tls
            &&& after.tcp16 == s.tcp16 && after.ja4 == s.ja4 && after.quic == s.quic && after.ml
                == s.ml
            &&& v.http_first_byte_rtt_ms == http.first_byte_rtt_us / 1000
            &&& v.http_total_rtt_ms == http.total_rtt_us / 1000
        }),
{
}

} // verus!
