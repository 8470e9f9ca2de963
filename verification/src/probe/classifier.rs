//! Names for what can go wrong on each layer of a connection.
use vstd::prelude::*;

verus! {

/// The verdict of a probe.
#[derive(Debug, Clone, Copy, PartialEq, Eq, Structural, Hash)]
pub enum ProbeVerdict {
    /// The server can be reached.
    Clear,
    /// Something on the way blocks the connection.
    Blocked,
    /// Undecided; probe again.
    Ambiguous,
}

/// What can go wrong with DNS.
#[derive(Debug, Clone, Copy, PartialEq, Eq, Structural, Hash)]
pub enum DnsFailureCode {
    /// UDP answers with other addresses than DoH.
    Poisoned,
    /// UDP answers NXDOMAIN, DoH resolves.
    NxdomainSpoof,
    /// UDP answers with nothing, DoH resolves.
    EmptySpoof,
    /// UDP times out, DoH resolves.
    Intercepted,
    /// No DoH server can be reached.
    DohBlocked,
    /// Neither resolves.
    Unresolvable,
    /// DNS works.
    DnsOk,
}

/// What can go wrong with TCP.
#[derive(Debug, Clone, Copy, PartialEq, Eq, Structural, Hash)]
pub enum TcpFailureCode {
    /// The handshake succeeded.
    ConnectOk,
    /// The connection was reset.
    Reset,
    /// No answer came in time.
    Timeout,
    /// The connection was refused.
    Refused,
    /// The host cannot be reached.
    Unreachable,
    /// The connection breaks after some amount of data.
    DataVolumeCut,
}

/// What can go wrong with TLS.
#[derive(Debug, Clone, Copy, PartialEq, Eq, Structural, Hash)]
pub enum TlsFailureCode {
    /// The handshake succeeded.
    HandshakeOk,
    /// TLS 1.3 works.
    Version13Ok,
    /// TLS 1.3 fails, 1.2 works.
    Version12Only,
    /// The connection was reset during the handshake.
    Reset,
    /// What came back is no TLS.
    Garbage,
    /// An alert of another kind.
    Alert,
    /// The alert unrecognized_name.
    AlertSniblock,
    /// The alert handshake_failure.
    AlertHandshake,
    /// The alert protocol_version.
    AlertProtocol,
    /// The certificate was replaced.
    Mitm,
    /// The certificate has expired.
    MitmExpired,
    /// The certificate is self-signed.
    MitmSelfSigned,
    /// The certificate names another host.
    MitmHostnameMismatch,
    /// The connection ended early.
    Eof,
    /// The handshake hung.
    SilentDrop,
}

/// What can go wrong with HTTP.
#[derive(Debug, Clone, Copy, PartialEq, Eq, Structural, Hash)]
pub enum HttpFailureCode {
    /// The response arrived.
    HttpOk,
    /// The response was cut off.
    Cutoff,
    /// Status 451.
    Http451,
    /// A redirect within the same domain.
    RedirectSame,
    /// A redirect to another domain.
    RedirectForeign,
    /// No answer came in time.
    Timeout,
    /// A block page came back.
    StubPage,
}

/// How far a connection has come.
#[derive(Debug, Clone, Copy, PartialEq, Eq, Structural, Hash)]
pub enum ConnectionStage {
    TcpConnect,
    TcpConnected,
    TlsHandshake,
    TlsConnected,
    SendingData,
    ReadingData,
}

/// The verdict that DNS and TCP alone allow: a manipulated name service is a
/// block; where names resolve, what TCP did decides; where they resolve
/// nowhere, the outcome is open.
pub open spec fn phase_verdict(dns: DnsFailureCode, tcp: TcpFailureCode) -> ProbeVerdict {
    if dns == DnsFailureCode::Poisoned || dns == DnsFailureCode::NxdomainSpoof || dns
        == DnsFailureCode::EmptySpoof || dns == DnsFailureCode::Intercepted || dns
        == DnsFailureCode::DohBlocked {
        ProbeVerdict::Blocked
    } else if dns == DnsFailureCode::DnsOk && (tcp == TcpFailureCode::Reset || tcp
        == TcpFailureCode::Timeout || tcp == TcpFailureCode::DataVolumeCut) {
        ProbeVerdict::Blocked
    } else {
        ProbeVerdict::Ambiguous
    }
}

impl ProbeVerdict {
    /// The verdict that DNS and TCP alone allow.
    pub fn from_phases(dns: &DnsFailureCode, tcp: &TcpFailureCode) -> (r: ProbeVerdict)
        ensures
            r == phase_verdict(*dns, *tcp),
    {
        match (dns, tcp) {
            (DnsFailureCode::DnsOk, TcpFailureCode::ConnectOk) => ProbeVerdict::Ambiguous,
            (DnsFailureCode::Poisoned, _) => ProbeVerdict::Blocked,
            (DnsFailureCode::NxdomainSpoof, _) => ProbeVerdict::Blocked,
            (DnsFailureCode::EmptySpoof, _) => ProbeVerdict::Blocked,
            (DnsFailureCode::Intercepted, _) => ProbeVerdict::Blocked,
            (DnsFailureCode::DohBlocked, _) => ProbeVerdict::Blocked,
            (DnsFailureCode::Unresolvable, _) => ProbeVerdict::Ambiguous,
            (_, TcpFailureCode::Reset) => ProbeVerdict::Blocked,
            (_, TcpFailureCode::Timeout) => ProbeVerdict::Blocked,
            (_, TcpFailureCode::Refused) => ProbeVerdict::Ambiguous,
            (_, TcpFailureCode::Unreachable) => ProbeVerdict::Ambiguous,
            (_, TcpFailureCode::DataVolumeCut) => ProbeVerdict::Blocked,
        }
    }
}

/// DNS and TCP alone never clear a destination: a clear verdict takes TLS and
/// HTTP.
pub proof fn phases_never_clear(dns: DnsFailureCode, tcp: TcpFailureCode)
    ensures
        phase_verdict(dns, tcp) != ProbeVerdict::Clear,
{
}

/// A manipulated name service is a block, whatever TCP did.
pub proof fn manipulated_dns_is_blocked(dns: DnsFailureCode, tcp: TcpFailureCode)
    requires
        dns != DnsFailureCode::DnsOk,
        dns != DnsFailureCode::Unresolvable,
    ensures
        phase_verdict(dns, tcp) == ProbeVerdict::Blocked,
{
}

impl DnsFailureCode {
    /// Whether this is a failure.
    pub fn is_error(&self) -> (r: bool)
        ensures
            r == (*self != DnsFailureCode::DnsOk),
    {
        match self {
            DnsFailureCode::DnsOk => false,
            _ => true,
        }
    }

    /// The code in words.
    pub open spec fn description_spec(self) -> Seq<char> {
        match self {
            DnsFailureCode::Poisoned => "DNS poisoned — UDP возвращает другие IP чем DoH"@,
            DnsFailureCode::NxdomainSpoof => "NXDOMAIN spoof — UDP NXDOMAIN, DoH работает"@,
            DnsFailureCode::EmptySpoof => "Empty spoof — UDP пустой ответ, DoH работает"@,
            DnsFailureCode::Intercepted => "DNS intercepted — UDP timeout, DoH работает"@,
            DnsFailureCode::DohBlocked => "DoH blocked — все DoH недоступны"@,
            DnsFailureCode::Unresolvable => "Unresolvable — ни UDP, ни DoH не резолвит"@,
            DnsFailureCode::DnsOk => "DNS OK"@,
        }
    }

    /// The code in words.
    pub fn description(&self) -> (r: &'static str)
        ensures
            r@ == self.description_spec(),
    {
        match self {
            DnsFailureCode::Poisoned => "DNS poisoned — UDP возвращает другие IP чем DoH",
            DnsFailureCode::NxdomainSpoof => "NXDOMAIN spoof — UDP NXDOMAIN, DoH работает",
            DnsFailureCode::EmptySpoof => "Empty spoof — UDP пустой ответ, DoH работает",
            DnsFailureCode::Intercepted => "DNS intercepted — UDP timeout, DoH работает",
            DnsFailureCode::DohBlocked => "DoH blocked — все DoH недоступны",
            DnsFailureCode::Unresolvable => "Unresolvable — ни UDP, ни DoH не резолвит",
            DnsFailureCode::DnsOk => "DNS OK",
        }
    }
}

impl TcpFailureCode {
    /// Whether this is a failure.
    pub fn is_error(&self) -> (r: bool)
        ensures
            r == (*self != TcpFailureCode::ConnectOk),
    {
        match self {
            TcpFailureCode::ConnectOk => false,
            _ => true,
        }
    }

    /// The code in words.
    pub open spec fn description_spec(self) -> Seq<char> {
        match self {
            TcpFailureCode::ConnectOk => "TCP connect OK"@,
            TcpFailureCode::Reset => "TCP RST injection"@,
            TcpFailureCode::Timeout => "TCP timeout (SYN drop?)"@,
            TcpFailureCode::Refused => "Connection refused"@,
            TcpFailureCode::Unreachable => "ICMP unreachable"@,
            TcpFailureCode::DataVolumeCut => "Data-volume cut: connection drops at N KB"@,
        }
    }

    /// The code in words.
    pub fn description(&self) -> (r: &'static str)
        ensures
            r@ == self.description_spec(),
    {
        match self {
            TcpFailureCode::ConnectOk => "TCP connect OK",
            TcpFailureCode::Reset => "TCP RST injection",
            TcpFailureCode::Timeout => "TCP timeout (SYN drop?)",
            TcpFailureCode::Refused => "Connection refused",
            TcpFailureCode::Unreachable => "ICMP unreachable",
            TcpFailureCode::DataVolumeCut => "Data-volume cut: connection drops at N KB",
        }
    }
}

impl TlsFailureCode {
    /// Whether this is a failure.
    pub fn is_error(&self) -> (r: bool)
        ensures
            r == (*self != TlsFailureCode::HandshakeOk && *self != TlsFailureCode::Version13Ok && *self != TlsFailureCode::Version12Only),
    {
        match self {
            TlsFailureCode::HandshakeOk | TlsFailureCode::Version13Ok | TlsFailureCode::Version12Only => false,
            _ => true,
        }
    }

    /// Whether the handshake failed; a server that still speaks TLS 1.2 has
    /// not failed.
    pub fn is_tls_fail(&self) -> (r: bool)
        ensures
            r == (*self != TlsFailureCode::HandshakeOk && *self != TlsFailureCode::Version13Ok && *self != TlsFailureCode::Version12Only),
    {
        self.is_error()
    }

    /// The code in words.
    pub open spec fn description_spec(self) -> Seq<char> {
        match self {
            TlsFailureCode::HandshakeOk => "TLS handshake OK"@,
            TlsFailureCode::Version13Ok => "TLS 1.3 OK"@,
            TlsFailureCode::Version12Only => "TLS 1.3 blocked, 1.2 works (ClientHello DPI!)"@,
            TlsFailureCode::Reset => "TLS RST injection"@,
            TlsFailureCode::Garbage => "TLS garbage injection"@,
            TlsFailureCode::Alert => "Fake TLS alert"@,
            TlsFailureCode::AlertSniblock => "TLS alert: SNI block"@,
            TlsFailureCode::AlertHandshake => "TLS alert: handshake_failure"@,
            TlsFailureCode::AlertProtocol => "TLS alert: protocol_version"@,
            TlsFailureCode::Mitm => "TLS MITM: certificate substitution"@,
            TlsFailureCode::MitmExpired => "TLS MITM: certificate expired"@,
            TlsFailureCode::MitmSelfSigned => "TLS MITM: self-signed certificate"@,
            TlsFailureCode::MitmHostnameMismatch => "TLS MITM: hostname mismatch"@,
            TlsFailureCode::Eof => "TLS EOF: unexpected disconnect"@,
            TlsFailureCode::SilentDrop => "TLS silent drop: hang until timeout"@,
        }
    }

    /// The code in words.
    pub fn description(&self) -> (r: &'static str)
        ensures
            r@ == self.description_spec(),
    {
        match self {
            TlsFailureCode::HandshakeOk => "TLS handshake OK",
            TlsFailureCode::Version13Ok => "TLS 1.3 OK",
            TlsFailureCode::Version12Only => "TLS 1.3 blocked, 1.2 works (ClientHello DPI!)",
            TlsFailureCode::Reset => "TLS RST injection",
            TlsFailureCode::Garbage => "TLS garbage injection",
            TlsFailureCode::Alert => "Fake TLS alert",
            TlsFailureCode::AlertSniblock => "TLS alert: SNI block",
            TlsFailureCode::AlertHandshake => "TLS alert: handshake_failure",
            TlsFailureCode::AlertProtocol => "TLS alert: protocol_version",
            TlsFailureCode::Mitm => "TLS MITM: certificate substitution",
            TlsFailureCode::MitmExpired => "TLS MITM: certificate expired",
            TlsFailureCode::MitmSelfSigned => "TLS MITM: self-signed certificate",
            TlsFailureCode::MitmHostnameMismatch => "TLS MITM: hostname mismatch",
            TlsFailureCode::Eof => "TLS EOF: unexpected disconnect",
            TlsFailureCode::SilentDrop => "TLS silent drop: hang until timeout",
        }
    }
}

impl HttpFailureCode {
    /// Whether this is a failure.
    pub fn is_error(&self) -> (r: bool)
        ensures
            r == (*self != HttpFailureCode::HttpOk && *self != HttpFailureCode::RedirectSame),
    {
        match self {
            HttpFailureCode::HttpOk | HttpFailureCode::RedirectSame => false,
            _ => true,
        }
    }

    /// The code in words.
    pub open spec fn description_spec(self) -> Seq<char> {
        match self {
            HttpFailureCode::HttpOk => "HTTP OK"@,
            HttpFailureCode::Cutoff => "HTTP cutoff: response truncated"@,
            HttpFailureCode::Http451 => "HTTP 451: legal block"@,
            HttpFailureCode::RedirectSame => "HTTP redirect: same domain (ok)"@,
            HttpFailureCode::RedirectForeign => "HTTP redirect: foreign domain (ISP page)"@,
            HttpFailureCode::Timeout => "HTTP timeout"@,
            HttpFailureCode::StubPage => "HTTP stub page: RKN block page detected"@,
        }
    }

    /// The code in words.
    pub fn description(&self) -> (r: &'static str)
        ensures
            r@ == self.description_spec(),
    {
        match self {
            HttpFailureCode::HttpOk => "HTTP OK",
            HttpFailureCode::Cutoff => "HTTP cutoff: response truncated",
            HttpFailureCode::Http451 => "HTTP 451: legal block",
            HttpFailureCode::RedirectSame => "HTTP redirect: same domain (ok)",
            HttpFailureCode::RedirectForeign => "HTTP redirect: foreign domain (ISP page)",
            HttpFailureCode::Timeout => "HTTP timeout",
            HttpFailureCode::StubPage => "HTTP stub page: RKN block page detected",
        }
    }
}

impl Default for ProbeVerdict {
    fn default() -> (r: ProbeVerdict)
        ensures
            r == ProbeVerdict::Ambiguous,
    {
        ProbeVerdict::Ambiguous
    }
}

impl Default for DnsFailureCode {
    fn default() -> (r: DnsFailureCode)
        ensures
            r == DnsFailureCode::DnsOk,
    {
        DnsFailureCode::DnsOk
    }
}

impl Default for TcpFailureCode {
    fn default() -> (r: TcpFailureCode)
        ensures
            r == TcpFailureCode::ConnectOk,
    {
        TcpFailureCode::ConnectOk
    }
}

impl Default for TlsFailureCode {
    fn default() -> (r: TlsFailureCode)
        ensures
            r == TlsFailureCode::HandshakeOk,
    {
        TlsFailureCode::HandshakeOk
    }
}

impl Default for HttpFailureCode {
    fn default() -> (r: HttpFailureCode)
        ensures
            r == HttpFailureCode::HttpOk,
    {
        HttpFailureCode::HttpOk
    }
}

impl Default for ConnectionStage {
    fn default() -> (r: ConnectionStage)
        ensures
            r == ConnectionStage::TcpConnect,
    {
        ConnectionStage::TcpConnect
    }
}

/// The verdict of the phases: tampering with names, or DNS over HTTPS that
/// cannot be reached, is a block whatever TCP did; where names resolve, a reset,
/// a timeout or a connection that breaks off is one; everything else is open.
pub proof fn phases_block_exactly_so(dns: DnsFailureCode, tcp: TcpFailureCode)
    ensures
        phase_verdict(dns, tcp) == ProbeVerdict::Blocked <==> {
            ||| dns == DnsFailureCode::Poisoned
            ||| dns == DnsFailureCode::NxdomainSpoof
            ||| dns == DnsFailureCode::EmptySpoof
            ||| dns == DnsFailureCode::Intercepted
            ||| dns == DnsFailureCode::DohBlocked
            ||| dns == DnsFailureCode::DnsOk && (tcp == TcpFailureCode::Reset || tcp
                == TcpFailureCode::Timeout || tcp == TcpFailureCode::DataVolumeCut)
        },
        phase_verdict(dns, tcp) == ProbeVerdict::Blocked || phase_verdict(dns, tcp)
            == ProbeVerdict::Ambiguous,
{
}

} // verus!
