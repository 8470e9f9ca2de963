//! Probing QUIC on UDP port 443.
use vstd::prelude::*;

use crate::ip::be_bytes;
use crate::probe::classifier::TcpFailureCode;
use crate::text::{contains, lowercase_of, occurs, to_lowercase};
use crate::wire::{be32, be_digits, be_value, push_all, read_be32};

verus! {

/// What came back to a QUIC Initial packet.
#[derive(Debug, Clone, Copy, PartialEq, Eq, Structural)]
pub enum QuicResponseType {
    /// A Retry packet.
    Retry,
    /// A Handshake packet, or a packet with a short header.
    Handshake,
    /// An Initial packet.
    Initial,
    /// The server closed the connection.
    ConnectionClose,
    /// The port cannot be reached.
    IcmpUnreachable,
    /// Nothing.
    Timeout,
    /// Something else.
    Garbage,
    /// The packet could not be sent.
    SendError,
}

impl Default for QuicResponseType {
    fn default() -> (r: QuicResponseType)
        ensures
            r == QuicResponseType::Timeout,
    {
        QuicResponseType::Timeout
    }
}

impl QuicResponseType {
    /// Whether the server answered.
    pub open spec fn ok(self) -> bool {
        self == QuicResponseType::Retry || self == QuicResponseType::Handshake || self
            == QuicResponseType::Initial
    }

    /// Whether the server answered.
    pub fn is_ok(&self) -> (r: bool)
        ensures
            r == self.ok(),
    {
        match self {
            QuicResponseType::Retry | QuicResponseType::Handshake | QuicResponseType::Initial => true,
            _ => false,
        }
    }

    /// Whether the packet was blocked or refused.
    pub open spec fn blocked(self) -> bool {
        self == QuicResponseType::Timeout || self == QuicResponseType::IcmpUnreachable || self
            == QuicResponseType::ConnectionClose
    }

    /// Whether the packet was blocked or refused.
    pub fn is_blocked(&self) -> (r: bool)
        ensures
            r == self.blocked(),
    {
        match self {
            QuicResponseType::Timeout
            | QuicResponseType::IcmpUnreachable
            | QuicResponseType::ConnectionClose => true,
            _ => false,
        }
    }

    /// The response in words.
    pub open spec fn description_spec(self) -> Seq<char> {
        match self {
            QuicResponseType::Retry => "QUIC Retry packet — server responding normally"@,
            QuicResponseType::Handshake => "QUIC Handshake packet — handshake in progress"@,
            QuicResponseType::Initial => "QUIC Initial packet — server responding"@,
            QuicResponseType::ConnectionClose => "QUIC Connection Close — server rejected"@,
            QuicResponseType::IcmpUnreachable => "ICMP Port Unreachable — UDP blocked at firewall"@,
            QuicResponseType::Timeout => "Timeout — DPI silent drop (no response)"@,
            QuicResponseType::Garbage => "Garbage data — invalid QUIC response"@,
            QuicResponseType::SendError => "UDP send error — local firewall or routing issue"@,
        }
    }

    /// The response in words.
    pub fn description(&self) -> (r: &'static str)
        ensures
            r@ == self.description_spec(),
    {
        match self {
            QuicResponseType::Retry => "QUIC Retry packet — server responding normally",
            QuicResponseType::Handshake => "QUIC Handshake packet — handshake in progress",
            QuicResponseType::Initial => "QUIC Initial packet — server responding",
            QuicResponseType::ConnectionClose => "QUIC Connection Close — server rejected",
            QuicResponseType::IcmpUnreachable => "ICMP Port Unreachable — UDP blocked at firewall",
            QuicResponseType::Timeout => "Timeout — DPI silent drop (no response)",
            QuicResponseType::Garbage => "Garbage data — invalid QUIC response",
            QuicResponseType::SendError => "UDP send error — local firewall or routing issue",
        }
    }
}

/// What a QUIC probe found.
#[derive(Debug, Clone)]
pub struct QuicProbeResult {
    pub response_type: QuicResponseType,
    pub rtt_ms: u64,
    pub response_size: usize,
    /// The first 64 bytes of the response.
    pub response_preview: Vec<u8>,
    /// The QUIC version of the response, where it states one.
    pub version: Option<u32>,
}

impl Default for QuicProbeResult {
    fn default() -> (r: QuicProbeResult)
        ensures
            r.response_type == QuicResponseType::Timeout,
            r.rtt_ms == 0,
            r.response_size == 0,
            r.response_preview@.len() == 0,
            r.version is None,
    {
        without_response(QuicResponseType::Timeout, 0)
    }
}

/// QUIC compared with TCP.
#[derive(Debug, Clone, Copy, PartialEq, Eq, Structural)]
pub enum QuicVerdict {
    /// Both work.
    NoBlocking,
    /// TCP works, QUIC does not.
    QuicBlocked,
    /// QUIC works, TCP does not.
    QuicBypass,
    /// Neither works.
    GeneralBlocking,
    /// Not enough is known.
    Ambiguous,
}

impl Default for QuicVerdict {
    fn default() -> (r: QuicVerdict)
        ensures
            r == QuicVerdict::Ambiguous,
    {
        QuicVerdict::Ambiguous
    }
}

/// QUIC compared with TCP.
pub open spec fn quic_against_tcp(quic: QuicResponseType, tcp: TcpFailureCode) -> QuicVerdict {
    match (tcp == TcpFailureCode::ConnectOk, quic.ok()) {
        (true, true) => QuicVerdict::NoBlocking,
        (true, false) => QuicVerdict::QuicBlocked,
        (false, true) => QuicVerdict::QuicBypass,
        (false, false) => QuicVerdict::GeneralBlocking,
    }
}

/// The settings of a QUIC probe.
pub struct QuicProbe {
    pub timeout_ms: u64,
}

impl QuicProbe {
    /// A probe that waits for the given time.
    pub fn new(timeout_ms: u64) -> (r: QuicProbe)
        ensures
            r.timeout_ms == timeout_ms,
    {
        QuicProbe { timeout_ms }
    }

    /// Compares QUIC with TCP.
    pub fn discriminate(quic: &QuicProbeResult, tcp_verdict: TcpFailureCode) -> (r: QuicVerdict)
        ensures
            r == quic_against_tcp(quic.response_type, tcp_verdict),
    {
        let quic_ok: bool = quic.response_type.is_ok();
        let tcp_ok: bool = tcp_verdict == TcpFailureCode::ConnectOk;
        match (tcp_ok, quic_ok) {
            (true, true) => QuicVerdict::NoBlocking,
            (true, false) => QuicVerdict::QuicBlocked,
            (false, true) => QuicVerdict::QuicBypass,
            (false, false) => QuicVerdict::GeneralBlocking,
        }
    }

    /// The server name that a probe asks for.
    pub fn server_name<'a>(domain: &'a str, fake_sni: Option<&'a str>) -> (r: &'a str)
        ensures
            r@ == (match fake_sni {
                Some(s) => s@,
                None => domain@,
            }),
    {
        match fake_sni {
            Some(s) => s,
            None => domain,
        }
    }
}

/// What happened to a QUIC Initial packet.
#[derive(Debug, Clone)]
pub enum QuicExchange {
    /// It could not be built, or the attempt broke off.
    NotBuilt,
    /// No socket could be opened.
    BindFailed,
    SendFailed,
    /// Receiving failed, with the text of the error.
    ReceiveFailed(String),
    Received(Vec<u8>),
}

/// What a receive error, in lower case, says.
pub open spec fn lowered_error_type(err: Seq<char>) -> QuicResponseType {
    if occurs(err, "timed out"@) {
        QuicResponseType::Timeout
    } else if occurs(err, "unreachable"@) || occurs(err, "port unreachable"@) {
        QuicResponseType::IcmpUnreachable
    } else {
        QuicResponseType::Garbage
    }
}

/// Judges a receive error whose text is in lower case.
pub fn classify_lowered_error(err: &str) -> (r: QuicResponseType)
    ensures
        r == lowered_error_type(err@),
{
    if contains(err, "timed out") {
        QuicResponseType::Timeout
    } else if contains(err, "unreachable") || contains(err, "port unreachable") {
        QuicResponseType::IcmpUnreachable
    } else {
        QuicResponseType::Garbage
    }
}

/// Judges a receive error by its text, in whatever case.
pub fn classify_receive_error(err: &str) -> (r: QuicResponseType)
    ensures
        r == lowered_error_type(lowercase_of(err@)),
{
    let lowered: String = to_lowercase(err);
    classify_lowered_error(lowered.as_str())
}

fn without_response(response_type: QuicResponseType, rtt_ms: u64) -> (r: QuicProbeResult)
    ensures
        r.response_type == response_type,
        r.rtt_ms == rtt_ms,
        r.response_size == 0,
        r.response_preview@.len() == 0,
        r.version is None,
{
    QuicProbeResult {
        response_type,
        rtt_ms,
        response_size: 0,
        response_preview: Vec::new(),
        version: None,
    }
}

/// What a probe comes to.
pub open spec fn quic_came_to(exchange: QuicExchange, elapsed_ms: u64, r: QuicProbeResult) -> bool {
    &&& match exchange {
        QuicExchange::NotBuilt => r.response_type == QuicResponseType::Garbage && r.rtt_ms == 0,
        QuicExchange::BindFailed => r.response_type == QuicResponseType::SendError && r.rtt_ms == 0,
        QuicExchange::SendFailed => r.response_type == QuicResponseType::SendError && r.rtt_ms
            == elapsed_ms,
        QuicExchange::ReceiveFailed(e) => r.response_type == lowered_error_type(lowercase_of(e@))
            && r.rtt_ms == elapsed_ms,
        QuicExchange::Received(b) => r.response_type == quic_kind(b@).0 && r.version == quic_kind(
            b@,
        ).1 && r.rtt_ms == elapsed_ms,
    }
    &&& match exchange {
        QuicExchange::Received(b) => r.response_size == b@.len() && r.response_preview@ == (
        if b@.len() > 64 {
            b@.take(64)
        } else {
            b@
        }),
        _ => r.response_size == 0 && r.response_preview@.len() == 0 && r.version is None,
    }
}

/// The result of a probe.
pub fn probe_result(exchange: &QuicExchange, elapsed_ms: u64) -> (r: QuicProbeResult)
    ensures
        quic_came_to(*exchange, elapsed_ms, r),
{
    match exchange {
        QuicExchange::NotBuilt => without_response(QuicResponseType::Garbage, 0),
        QuicExchange::BindFailed => without_response(QuicResponseType::SendError, 0),
        QuicExchange::SendFailed => without_response(QuicResponseType::SendError, elapsed_ms),
        QuicExchange::ReceiveFailed(e) => without_response(
            classify_receive_error(e.as_str()),
            elapsed_ms,
        ),
        QuicExchange::Received(b) => {
            let (response_type, version): (QuicResponseType, Option<u32>) = parse_quic_response(
                b.as_slice(),
            );
            let n: usize = if b.len() > 64 {
                64
            } else {
                b.len()
            };
            let response_preview: Vec<u8> = crate::wire::copy_range(b.as_slice(), 0, n);
            assert(response_preview@ =~= (if b@.len() > 64 {
                b@.take(64)
            } else {
                b@
            }));
            QuicProbeResult {
                response_type,
                rtt_ms: elapsed_ms,
                response_size: b.len(),
                response_preview,
                version,
            }
        },
    }
}

/// A number as a QUIC variable-length integer. The two high bits give the
/// length; a number of 62 bits or more loses what they cover.
pub open spec fn varint(v: u64) -> Seq<u8> {
    if v < 64 {
        be_digits(v as nat, 1)
    } else if v < 16384 {
        be_digits((v + 0x4000) as nat, 2)
    } else if v < 0x4000_0000 {
        be_digits((v + 0x8000_0000) as nat, 4)
    } else {
        be_digits((v % 0x4000_0000_0000_0000 + 0xC000_0000_0000_0000) as nat, 8)
    }
}

/// The length that the first byte of a variable-length integer announces.
pub open spec fn varint_len(first: u8) -> int {
    if first < 64 {
        1
    } else if first < 128 {
        2
    } else if first < 192 {
        4
    } else {
        8
    }
}

/// The number that a variable-length integer stands for.
pub open spec fn varint_value(s: Seq<u8>) -> nat {
    let v = be_value(s.take(varint_len(s[0])));
    if s[0] < 64 {
        v
    } else if s[0] < 128 {
        (v - 0x4000) as nat
    } else if s[0] < 192 {
        (v - 0x8000_0000) as nat
    } else {
        (v - 0xC000_0000_0000_0000) as nat
    }
}

/// Encodes a number as a QUIC variable-length integer.
pub fn encode_varint(value: u64) -> (r: Vec<u8>)
    ensures
        r@ == varint(value),
        r@.len() == (if value < 64 {
            1int
        } else if value < 16384 {
            2int
        } else if value < 0x4000_0000 {
            4int
        } else {
            8int
        }),
{
    if value < 64 {
        be_bytes(value as u128, 1)
    } else if value < 16384 {
        be_bytes((value + 0x4000) as u128, 2)
    } else if value < 0x4000_0000 {
        be_bytes((value + 0x8000_0000) as u128, 4)
    } else {
        be_bytes((value % 0x4000_0000_0000_0000 + 0xC000_0000_0000_0000) as u128, 8)
    }
}

/// The CRYPTO frame that carries a ClientHello.
pub open spec fn crypto_frame(hello: Seq<u8>) -> Seq<u8> {
    seq![0x06u8, 0x00u8] + varint(hello.len() as u64) + hello
}

/// The header of an Initial packet up to its length field: long header with a
/// packet number of four bytes, version 1, the connection id, no source id and
/// no token.
pub open spec fn initial_header_start(dcid: Seq<u8>) -> Seq<u8> {
    seq![0xC3u8, 0u8, 0u8, 0u8, 1u8] + seq![(dcid.len() % 256) as u8] + dcid + seq![0u8, 0u8]
}

/// The payload of an Initial packet: the CRYPTO frame, padded with zeros so
/// that the datagram reaches 1200 bytes.
pub open spec fn initial_payload(dcid: Seq<u8>, hello: Seq<u8>) -> Seq<u8> {
    let frame = crypto_frame(hello);
    let room = 1200 - initial_header_start(dcid).len() - 22;
    if frame.len() < room {
        frame + Seq::new((room - frame.len()) as nat, |i: int| 0u8)
    } else {
        frame
    }
}

/// An Initial packet before protection.
#[derive(Debug, Clone)]
pub struct QuicInitialParts {
    pub header: Vec<u8>,
    pub payload: Vec<u8>,
}

/// Builds the header and the payload of an Initial packet that carries a
/// ClientHello. The packet number takes four bytes and the authentication tag
/// sixteen; both are added by packet protection.
pub fn build_quic_initial_packet(dcid: &[u8], client_hello: &[u8]) -> (r: QuicInitialParts)
    requires
        dcid@.len() <= 1170,
        client_hello@.len() <= 0x4000_0000_0000,
    ensures
        r.payload@ == initial_payload(dcid@, client_hello@),
        r.header@ == initial_header_start(dcid@) + varint((20 + r.payload@.len()) as u64),
{
    let mut header: Vec<u8> = Vec::new();
    header.push(0xC3);
    header.push(0);
    header.push(0);
    header.push(0);
    header.push(1);
    header.push((dcid.len() % 256) as u8);
    push_all(&mut header, dcid);
    header.push(0);
    header.push(0);
    assert(header@ =~= initial_header_start(dcid@));
    let mut payload: Vec<u8> = Vec::new();
    payload.push(0x06);
    payload.push(0x00);
    let len_field: Vec<u8> = encode_varint(client_hello.len() as u64);
    push_all(&mut payload, len_field.as_slice());
    push_all(&mut payload, client_hello);
    let ghost frame: Seq<u8> = payload@;
    assert(frame =~= crypto_frame(client_hello@));
    let room: usize = 1200 - header.len() - 22;
    while payload.len() < room
        invariant
            payload@.len() >= frame.len(),
            payload@ == frame + Seq::new((payload@.len() - frame.len()) as nat, |i: int| 0u8),
            payload@.len() <= room || payload@ == frame,
        decreases room - payload@.len(),
    {
        payload.push(0);
        assert(payload@ =~= frame + Seq::new((payload@.len() - frame.len()) as nat, |i: int| 0u8));
    }
    assert(payload@ =~= initial_payload(dcid@, client_hello@));
    let remaining: u64 = 20 + payload.len() as u64;
    let len_field: Vec<u8> = encode_varint(remaining);
    push_all(&mut header, len_field.as_slice());
    QuicInitialParts { header, payload }
}

/// The kind and the version of a QUIC packet.
pub open spec fn quic_kind(b: Seq<u8>) -> (QuicResponseType, Option<u32>) {
    let version = be32(b[1], b[2], b[3], b[4]) as u32;
    let kind = (b[0] / 16) % 4;
    if b.len() == 0 {
        (QuicResponseType::Garbage, None)
    } else if b[0] < 128 {
        (QuicResponseType::Handshake, None)
    } else if b.len() < 5 {
        (QuicResponseType::Garbage, None)
    } else if version == 0 {
        (QuicResponseType::Garbage, Some(0))
    } else if kind == 0 {
        (QuicResponseType::Initial, Some(version))
    } else if kind == 1 {
        (QuicResponseType::Retry, Some(version))
    } else if kind == 2 {
        (QuicResponseType::Handshake, Some(version))
    } else {
        (QuicResponseType::Garbage, Some(version))
    }
}

/// Tells the kind and the version of a QUIC packet.
pub fn parse_quic_response(response: &[u8]) -> (r: (QuicResponseType, Option<u32>))
    ensures
        r == quic_kind(response@),
{
    if response.len() == 0 {
        return (QuicResponseType::Garbage, None);
    }
    let first: u8 = response[0];
    if first < 128 {
        return (QuicResponseType::Handshake, None);
    }
    if response.len() < 5 {
        return (QuicResponseType::Garbage, None);
    }
    let version: u32 = read_be32(response, 1);
    if version == 0 {
        return (QuicResponseType::Garbage, Some(0));
    }
    match (first / 16) % 4 {
        0 => (QuicResponseType::Initial, Some(version)),
        1 => (QuicResponseType::Retry, Some(version)),
        2 => (QuicResponseType::Handshake, Some(version)),
        _ => (QuicResponseType::Garbage, Some(version)),
    }
}

proof fn lemma_first_digit(x: nat, n: nat)
    requires
        1 <= n <= 8,
        x < vstd::arithmetic::power2::pow2(8 * n),
    ensures
        be_digits(x, n).len() == n,
        be_digits(x, n)[0] == x / vstd::arithmetic::power2::pow2((8 * (n - 1)) as nat),
    decreases n,
{
    vstd::arithmetic::power2::lemma2_to64();
    crate::wire::lemma_be_digits_len(x, n);
    if n > 1 {
        let m = (n - 1) as nat;
        let p = vstd::arithmetic::power2::pow2((8 * (n - 2)) as nat);
        vstd::arithmetic::power2::lemma_pow2_adds(8 * m, 8);
        vstd::arithmetic::power2::lemma_pow2_adds((8 * (n - 2)) as nat, 8);
        assert(x / 256 < vstd::arithmetic::power2::pow2(8 * m)) by (nonlinear_arith)
            requires
                x < vstd::arithmetic::power2::pow2(8 * m) * 256,
        ;
        lemma_first_digit(x / 256, m);
        crate::wire::lemma_be_digits_len(x / 256, m);
        assert(be_digits(x, n)[0] == be_digits(x / 256, m)[0]);
        vstd::arithmetic::power2::lemma_pow2_pos((8 * (n - 2)) as nat);
        vstd::arithmetic::div_mod::lemma_div_denominator(x as int, 256, p as int);
        assert(256 * p == p * 256);
        assert((8 * (n - 2)) as nat + 8 == (8 * (n - 1)) as nat);
        assert((8 * (m - 1)) as nat == (8 * (n - 2)) as nat);
        assert(vstd::arithmetic::power2::pow2((8 * (n - 1)) as nat) == 256 * p);
    } else {
        assert(vstd::arithmetic::power2::pow2(8 * n) == 256);
        assert(vstd::arithmetic::power2::pow2((8 * (n - 1)) as nat) == 1);
        assert(be_digits(x, 1) =~= seq![(x % 256) as u8]) by {
            assert(be_digits(x / 256, 0) =~= Seq::<u8>::empty());
        }
    }
}

/// Reading back a variable-length integer of at most 62 bits gives the number,
/// whatever follows it.
pub proof fn varint_round_trips(v: u64, tail: Seq<u8>)
    requires
        v < 0x4000_0000_0000_0000,
    ensures
        varint_value(varint(v) + tail) == v,
        varint_len((varint(v) + tail)[0]) == varint(v).len(),
{
    vstd::arithmetic::power2::lemma2_to64();
    vstd::arithmetic::power2::lemma2_to64_rest();
    let (x, n): (nat, nat) = if v < 64 {
        (v as nat, 1)
    } else if v < 16384 {
        ((v + 0x4000) as nat, 2)
    } else if v < 0x4000_0000 {
        ((v + 0x8000_0000) as nat, 4)
    } else {
        ((v + 0xC000_0000_0000_0000) as nat, 8)
    };
    assert(varint(v) == be_digits(x, n));
    let top = vstd::arithmetic::power2::pow2((8 * (n - 1)) as nat);
    assert(n == 1 ==> top == 1 && vstd::arithmetic::power2::pow2(8 * n) == 0x100);
    assert(n == 2 ==> top == 0x100 && vstd::arithmetic::power2::pow2(8 * n) == 0x1_0000);
    assert(n == 4 ==> top == 0x100_0000 && vstd::arithmetic::power2::pow2(8 * n) == 0x1_0000_0000);
    assert(n == 8 ==> top == 0x100_0000_0000_0000 && vstd::arithmetic::power2::pow2(8 * n)
        == 0x1_0000_0000_0000_0000);
    assert(x < vstd::arithmetic::power2::pow2(8 * n));
    lemma_first_digit(x, n);
    let first = be_digits(x, n)[0] as nat;
    assert(first == x / top);
    assert(n == 1 ==> first < 64);
    assert(n == 2 ==> 64 <= first < 128);
    assert(n == 4 ==> 128 <= first < 192);
    assert(n == 8 ==> 192 <= first < 256);
    crate::wire::lemma_be_value_of_digits(x, n);
    let s = varint(v) + tail;
    assert(s[0] == varint(v)[0]);
    assert(s.take(n as int) =~= varint(v));
}

/// With a connection id of a legal length, the datagram of header, packet
/// number, payload and tag has at least the 1200 bytes that QUIC asks of an
/// Initial packet.
pub proof fn initial_packet_is_large_enough(dcid: Seq<u8>, hello: Seq<u8>)
    requires
        dcid.len() <= 20,
        hello.len() <= 0x4000_0000_0000,
    ensures
        ({
            let payload = initial_payload(dcid, hello);
            let header = initial_header_start(dcid) + varint((20 + payload.len()) as u64);
            header.len() + 4 + payload.len() + 16 >= 1200
        }),
{
    let payload = initial_payload(dcid, hello);
    let n = (20 + payload.len()) as u64;
    assert(payload.len() >= 1200 - 28 - 22);
    crate::wire::lemma_be_digits_len((n + 0x4000) as nat, 2);
    crate::wire::lemma_be_digits_len((n + 0x8000_0000) as nat, 4);
    crate::wire::lemma_be_digits_len(
        (n % 0x4000_0000_0000_0000 + 0xC000_0000_0000_0000) as nat,
        8,
    );
    crate::wire::lemma_be_digits_len(hello.len(), 1);
}

/// The header of an Initial packet is one that the outgoing check takes for a
/// QUIC Initial packet.
pub proof fn initial_packet_is_recognised(dcid: Seq<u8>, rest: Seq<u8>)
    ensures
        crate::packet_invariants::initial_header(initial_header_start(dcid) + rest),
        crate::packet_invariants::quic_initial(initial_header_start(dcid) + rest),
{
}

/// A verdict is a comparison: it names QUIC as working exactly where the
/// server answered.
pub proof fn quic_verdict_matches_outcomes(quic: QuicResponseType, tcp: TcpFailureCode)
    ensures
        quic.ok() <==> (quic_against_tcp(quic, tcp) == QuicVerdict::NoBlocking || quic_against_tcp(
            quic,
            tcp,
        ) == QuicVerdict::QuicBypass),
        quic_against_tcp(quic, tcp) != QuicVerdict::Ambiguous,
        !(quic.ok() && quic.blocked()),
{
}

/// QUIC against TCP, by who got through: both, only TCP, only QUIC, or neither.
/// QUIC got through where a Retry, a Handshake or an Initial packet came back;
/// TCP where it connected.
pub proof fn quic_is_weighed_against_tcp(quic: QuicResponseType, tcp: TcpFailureCode)
    ensures
        ({
            let v = quic_against_tcp(quic, tcp);
            let through = quic == QuicResponseType::Retry || quic == QuicResponseType::Handshake
                || quic == QuicResponseType::Initial;
            let connected = tcp == TcpFailureCode::ConnectOk;
            &&& v == QuicVerdict::NoBlocking <==> through && connected
            &&& v == QuicVerdict::QuicBlocked <==> !through && connected
            &&& v == QuicVerdict::QuicBypass <==> through && !connected
            &&& v == QuicVerdict::GeneralBlocking <==> !through && !connected
        }),
        quic.blocked() <==> (quic == QuicResponseType::Timeout || quic
            == QuicResponseType::IcmpUnreachable || quic == QuicResponseType::ConnectionClose),
        quic.ok() <==> (quic == QuicResponseType::Retry || quic == QuicResponseType::Handshake || quic
            == QuicResponseType::Initial),
{
}

/// What a response is, by its first byte: without the highest bit it has a short
/// header and belongs to a handshake; with it, it states a version, and the two
/// type bits tell an Initial, a Retry and a Handshake packet apart. A version of
/// zero, and a packet that is cut short, are garbage.
pub proof fn responses_are_told_by_their_bits(b: Seq<u8>)
    ensures
        ({
            let (kind, version) = quic_kind(b);
            let long = b.len() > 0 && b[0] & 0x80 != 0;
            let bits = b[0] & 0x30;
            let stated = b[1] * 0x100_0000 + b[2] * 0x1_0000 + b[3] * 0x100 + b[4];
            &&& b.len() == 0 ==> kind == QuicResponseType::Garbage && version is None
            &&& b.len() > 0 && !long ==> kind == QuicResponseType::Handshake && version is None
            &&& long && b.len() < 5 ==> kind == QuicResponseType::Garbage && version is None
            &&& long && b.len() >= 5 ==> {
                &&& version is Some && version->0 == stated
                &&& stated == 0 ==> kind == QuicResponseType::Garbage
                &&& stated != 0 && bits == 0x00 ==> kind == QuicResponseType::Initial
                &&& stated != 0 && bits == 0x10 ==> kind == QuicResponseType::Retry
                &&& stated != 0 && bits == 0x20 ==> kind == QuicResponseType::Handshake
                &&& stated != 0 && bits == 0x30 ==> kind == QuicResponseType::Garbage
            }
        }),
{
    if b.len() > 0 {
        let x = b[0];
        assert(x < 128 <==> x & 0x80 == 0) by (bit_vector);
        assert((x / 16) % 4 == 0 <==> x & 0x30 == 0x00) by (bit_vector);
        assert((x / 16) % 4 == 1 <==> x & 0x30 == 0x10) by (bit_vector);
        assert((x / 16) % 4 == 2 <==> x & 0x30 == 0x20) by (bit_vector);
        assert((x / 16) % 4 == 3 <==> x & 0x30 == 0x30) by (bit_vector);
    }
}

/// What a probe reports: the kind, the size and the first bytes of what came
/// back; where nothing did, why: a packet that could not be sent, silence, an
/// unreachable port, or something else.
pub proof fn quic_probes_report_what_came_back(
    exchange: QuicExchange,
    elapsed_ms: u64,
    r: QuicProbeResult,
)
    requires
        quic_came_to(exchange, elapsed_ms, r),
    ensures
        exchange matches QuicExchange::Received(b) ==> r.response_type == quic_kind(b@).0
            && r.version == quic_kind(b@).1 && r.response_size == b@.len() && r.rtt_ms == elapsed_ms
            && r.response_preview@.len() <= 64 && (forall|k: int|
            0 <= k < r.response_preview@.len() ==> r.response_preview@[k] == b@[k]) && (b@.len()
            <= 64 ==> r.response_preview@.len() == b@.len()) && (b@.len() >= 64
            ==> r.response_preview@.len() == 64),
        !(exchange is Received) ==> r.response_size == 0 && r.version is None,
        exchange is SendFailed || exchange is BindFailed ==> r.response_type
            == QuicResponseType::SendError,
        exchange is NotBuilt ==> r.response_type == QuicResponseType::Garbage,
        exchange matches QuicExchange::ReceiveFailed(e) ==> ({
            let words = lowercase_of(e@);
            let silent = occurs(words, "timed out"@);
            let unreachable = occurs(words, "unreachable"@) || occurs(words, "port unreachable"@);
            &&& r.rtt_ms == elapsed_ms
            &&& r.response_type == QuicResponseType::Timeout <==> silent
            &&& r.response_type == QuicResponseType::IcmpUnreachable <==> !silent && unreachable
            &&& r.response_type == QuicResponseType::Garbage <==> !silent && !unreachable
        }),
{
}

/// What an Initial packet says: a long header of the Initial type with a packet
/// number of four bytes, version 1, the connection id behind its length, and
/// neither a source id nor a token.
pub proof fn initial_headers_say_what_they_are(dcid: Seq<u8>)
    requires
        dcid.len() < 256,
    ensures
        ({
            let h = initial_header_start(dcid);
            &&& h.len() == 8 + dcid.len()
            &&& h[0] & 0xf0 == 0xc0 && h[0] & 3 == 3
            &&& h[1] == 0 && h[2] == 0 && h[3] == 0 && h[4] == 1
            &&& h[5] == dcid.len()
            &&& h.subrange(6, 6 + dcid.len() as int) == dcid
            &&& h[6 + dcid.len() as int] == 0 && h[7 + dcid.len() as int] == 0
            &&& quic_kind(h) == (QuicResponseType::Initial, Some(1u32))
        }),
{
    let h = initial_header_start(dcid);
    assert(0xC3u8 & 0xf0 == 0xc0 && 0xC3u8 & 3 == 3) by (bit_vector);
    assert(h.subrange(6, 6 + dcid.len() as int) =~= dcid);
}

/// The ClientHello is read back from the payload of an Initial packet: a CRYPTO
/// frame at offset zero, with its length, and only zeros behind it.
pub proof fn client_hellos_are_read_back(dcid: Seq<u8>, hello: Seq<u8>, i: int)
    requires
        hello.len() < 0x4000_0000_0000,
        dcid.len() <= 1170,
    ensures
        ({
            let p = initial_payload(dcid, hello);
            let n = varint(hello.len() as u64).len() as int;
            &&& p.len() >= 2 + n + hello.len()
            &&& p[0] == 6 && p[1] == 0
            &&& varint_value(p.skip(2)) == hello.len()
            &&& p.subrange(2 + n, 2 + n + hello.len()) == hello
            &&& 2 + n + hello.len() <= i < p.len() ==> p[i] == 0
        }),
{
    let p = initial_payload(dcid, hello);
    let v = varint(hello.len() as u64);
    let n = v.len() as int;
    let frame = crypto_frame(hello);
    assert(frame.len() == 2 + n + hello.len());
    let tail = p.skip(2 + n);
    assert(p.skip(2) =~= v + tail);
    varint_round_trips(hello.len() as u64, tail);
    assert(p.subrange(2 + n, 2 + n + hello.len()) =~= hello);
}

/// A number is written in as few bytes as hold it next to the two bits that tell
/// how many there are: one, two, four or eight.
pub proof fn numbers_take_as_few_bytes_as_hold_them(v: u64)
    requires
        v < 0x4000_0000_0000_0000,
    ensures
        varint(v).len() == 1 <==> v < 0x40,
        varint(v).len() == 2 <==> 0x40 <= v < 0x4000,
        varint(v).len() == 4 <==> 0x4000 <= v < 0x4000_0000,
        varint(v).len() == 8 <==> 0x4000_0000 <= v,
        v < 0x40 ==> varint(v)[0] == v,
        0x40 <= v < 0x4000 ==> varint(v)[0] * 0x100 + varint(v)[1] == 0x4000 + v,
        0x4000 <= v < 0x4000_0000 ==> varint(v)[0] * 0x100_0000 + varint(v)[1] * 0x1_0000 + varint(
            v,
        )[2] * 0x100 + varint(v)[3] == 0x8000_0000 + v,
        0x4000_0000 <= v ==> be_value(varint(v)) == 0xC000_0000_0000_0000 + v,
{
    vstd::arithmetic::power2::lemma2_to64();
    vstd::arithmetic::power2::lemma2_to64_rest();
    crate::wire::lemma_be_digits_len(v as nat, 1);
    crate::wire::lemma_be_digits_len((v + 0x4000) as nat, 2);
    crate::wire::lemma_be_digits_len((v + 0x8000_0000) as nat, 4);
    crate::wire::lemma_be_digits_len((v % 0x4000_0000_0000_0000 + 0xC000_0000_0000_0000) as nat, 8);
    let b = varint(v);
    if v < 0x40 {
        crate::wire::lemma_be_value_of_digits(v as nat, 1);
        reveal_with_fuel(be_value, 2);
        assert(b.drop_last() =~= Seq::<u8>::empty());
    } else if v < 0x4000 {
        crate::wire::lemma_be_value_of_digits((v + 0x4000) as nat, 2);
        crate::wire::the_first_byte_counts_most(b[0], b[1], 0, 0);
        assert(b =~= seq![b[0], b[1]]);
    } else if v < 0x4000_0000 {
        crate::wire::lemma_be_value_of_digits((v + 0x8000_0000) as nat, 4);
        crate::wire::the_first_byte_counts_most(b[0], b[1], b[2], b[3]);
        assert(b =~= seq![b[0], b[1], b[2], b[3]]);
    } else {
        crate::wire::lemma_be_value_of_digits((v + 0xC000_0000_0000_0000) as nat, 8);
    }
}

} // verus!
