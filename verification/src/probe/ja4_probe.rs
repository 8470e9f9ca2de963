//! Telling filters that look at the TLS fingerprint from those that look at
//! the server name, and reading the features of a TLS handshake.
use vstd::prelude::*;
use vstd::string::StringExecFns;

use crate::probe::classifier::TlsFailureCode;
use crate::text::{
    byte_len, chars_in_bytes, chars_of, decimal, digit, find_char, hex16, hex16_text, index_of,
    opt_view, owned, padded2, push_padded2, text_of,
};
use crate::wire::{be16, copy_range, read_be16};

verus! {

/// A JA4 fingerprint.
#[derive(Debug, Clone, PartialEq, Eq)]
pub struct Ja4Fingerprint {
    /// "t13", "t12".
    pub protocol: String,
    pub sni_present: bool,
    pub cipher_count: u32,
    pub ext_count: u32,
    /// "h2", "h1", "00".
    pub alpn: String,
    pub cipher_hash: String,
    pub ext_hash: String,
}

/// The contents of a fingerprint.
pub struct Ja4Parts {
    pub protocol: Seq<char>,
    pub sni_present: bool,
    pub cipher_count: u32,
    pub ext_count: u32,
    pub alpn: Seq<char>,
    pub cipher_hash: Seq<char>,
    pub ext_hash: Seq<char>,
}

impl View for Ja4Fingerprint {
    type V = Ja4Parts;

    open spec fn view(&self) -> Ja4Parts {
        Ja4Parts {
            protocol: self.protocol@,
            sni_present: self.sni_present,
            cipher_count: self.cipher_count,
            ext_count: self.ext_count,
            alpn: self.alpn@,
            cipher_hash: self.cipher_hash@,
            ext_hash: self.ext_hash@,
        }
    }
}

/// The text of a fingerprint, such as `t13d1516h2_8daaf6152771_b186095e22b6`.
pub open spec fn ja4_text(f: Ja4Parts) -> Seq<char> {
    f.protocol + seq![
        if f.sni_present {
            'd'
        } else {
            'u'
        },
    ] + padded2(f.cipher_count as nat) + padded2(f.ext_count as nat) + f.alpn + "_"@ + f.cipher_hash
        + "_"@ + f.ext_hash
}

/// The value of a decimal digit.
pub open spec fn digit_value(c: char) -> Option<u32> {
    if '0' <= c <= '9' {
        Some((c as u32 - '0' as u32) as u32)
    } else {
        None
    }
}

/// The number that two bytes of text stand for: two digits, or a plus sign
/// and a digit.
pub open spec fn two_digits(s: Seq<char>) -> Option<u32> {
    if s.len() == 2 && digit_value(s[0]) is Some && digit_value(s[1]) is Some {
        Some((digit_value(s[0])->0 * 10 + digit_value(s[1])->0) as u32)
    } else if s.len() == 2 && s[0] == '+' && digit_value(s[1]) is Some {
        digit_value(s[1])
    } else {
        None
    }
}

/// Whether a character of a text ends after `bytes` bytes.
pub open spec fn cut_at(s: Seq<char>, bytes: int) -> bool {
    exists|n: int| 0 <= n <= s.len() && byte_len(#[trigger] s.take(n)) == bytes
}

/// How many characters make up the first `bytes` bytes.
pub open spec fn chars_before(s: Seq<char>, bytes: int) -> int {
    choose|n: int| 0 <= n <= s.len() && byte_len(#[trigger] s.take(n)) == bytes
}

/// The part of a text from byte `from` up to byte `to`.
pub open spec fn byte_part(s: Seq<char>, from: int, to: int) -> Seq<char> {
    s.subrange(chars_before(s, from), chars_before(s, to))
}

/// The part of a fingerprint text before the first underscore.
pub open spec fn ja4_prefix(s: Seq<char>) -> Seq<char> {
    s.take(index_of(s, '_'))
}

/// The part of a text after the first underscore.
pub open spec fn after_underscore(s: Seq<char>) -> Seq<char> {
    s.subrange(index_of(s, '_') + 1, s.len() as int)
}

/// Whether the fields of a prefix of eight bytes or more can be cut out: no
/// character lies across one of their edges.
pub open spec fn cuttable(prefix: Seq<char>) -> bool {
    &&& cut_at(prefix, 3)
    &&& cut_at(prefix, 4)
    &&& cut_at(prefix, 6)
    &&& two_digits(byte_part(prefix, 4, 6)) is Some ==> cut_at(prefix, 8)
}

/// Whether a text has the three parts of a fingerprint, with an underscore
/// between them.
pub open spec fn has_three_parts(s: Seq<char>) -> bool {
    index_of(s, '_') < s.len() && index_of(after_underscore(s), '_') < after_underscore(s).len()
}

/// The fingerprint that a text stands for.
pub open spec fn parse_ja4(s: Seq<char>) -> Option<Ja4Parts> {
    let prefix = ja4_prefix(s);
    let rest = after_underscore(s);
    let ciphers = two_digits(byte_part(prefix, 4, 6));
    let exts = two_digits(byte_part(prefix, 6, 8));
    if index_of(s, '_') == s.len() || index_of(rest, '_') == rest.len() {
        None
    } else if byte_len(prefix) < 8 || ciphers is None || exts is None {
        None
    } else {
        Some(
            Ja4Parts {
                protocol: prefix.take(chars_before(prefix, 3)),
                sni_present: byte_part(prefix, 3, 4) == seq!['d'],
                cipher_count: ciphers->0,
                ext_count: exts->0,
                alpn: prefix.subrange(chars_before(prefix, 8), prefix.len() as int),
                cipher_hash: rest.take(index_of(rest, '_')),
                ext_hash: after_underscore(rest),
            },
        )
    }
}

/// No two prefixes of a text have the same length in bytes.
proof fn lemma_chars_before(s: Seq<char>, bytes: int, n: int)
    requires
        0 <= n <= s.len(),
        byte_len(s.take(n)) == bytes,
    ensures
        cut_at(s, bytes),
        chars_before(s, bytes) == n,
{
    let m = chars_before(s, bytes);
    assert(0 <= m <= s.len() && byte_len(s.take(m)) == bytes);
    if m < n {
        crate::text::lemma_byte_len_grows(s, m, n);
    } else if n < m {
        crate::text::lemma_byte_len_grows(s, n, m);
    }
}

fn two_digit_number(s: &Vec<char>, from: usize, to: usize) -> (r: Option<u32>)
    requires
        from <= to <= s@.len(),
    ensures
        r == two_digits(s@.subrange(from as int, to as int)),
{
    if to - from != 2 {
        return None;
    }
    let a: char = s[from];
    let b: char = s[from + 1];
    if !('0' <= b && b <= '9') {
        return None;
    }
    if '0' <= a && a <= '9' {
        Some((a as u32 - 48) * 10 + (b as u32 - 48))
    } else if a == '+' {
        Some(b as u32 - 48)
    } else {
        None
    }
}

impl Ja4Fingerprint {
    /// The text of the fingerprint.
    pub fn to_string(&self) -> (r: String)
        ensures
            r@ == ja4_text(self@),
    {
        let mut r: String = owned(self.protocol.as_str());
        r.append(
            if self.sni_present {
                "d"
            } else {
                "u"
            },
        );
        proof {
            reveal_strlit("d");
            reveal_strlit("u");
            assert("d"@ =~= seq!['d']);
            assert("u"@ =~= seq!['u']);
        }
        push_padded2(&mut r, self.cipher_count as u64);
        push_padded2(&mut r, self.ext_count as u64);
        r.append(self.alpn.as_str());
        r.append("_");
        r.append(self.cipher_hash.as_str());
        r.append("_");
        r.append(self.ext_hash.as_str());
        r
    }

    /// Reads a fingerprint text. One with three parts whose prefix has a
    /// character across the edge of a field is left out.
    pub fn from_string(s: &str) -> (r: Option<Ja4Fingerprint>)
        requires
            has_three_parts(s@) && byte_len(ja4_prefix(s@)) >= 8 ==> cuttable(ja4_prefix(s@)),
        ensures
            match r {
                Some(f) => parse_ja4(s@) == Some(f@),
                None => parse_ja4(s@) is None,
            },
    {
        let chars: Vec<char> = chars_of(s);
        let first: usize = find_char(&chars, '_', 0);
        proof {
            assert(chars@.subrange(0, chars@.len() as int) =~= chars@);
        }
        if first == chars.len() {
            return None;
        }
        let second: usize = find_char(&chars, '_', first + 1);
        let ghost rest: Seq<char> = after_underscore(s@);
        assert(rest =~= chars@.subrange(first + 1, chars@.len() as int));
        if second == chars.len() {
            return None;
        }
        let mut prefix: Vec<char> = Vec::new();
        let mut i: usize = 0;
        while i < first
            invariant
                i <= first <= chars@.len(),
                prefix@ == chars@.take(i as int),
            decreases first - i,
        {
            prefix.push(chars[i]);
            i = i + 1;
            assert(prefix@ =~= chars@.take(i as int));
        }
        assert(prefix@ == ja4_prefix(s@));
        if !has_bytes(&prefix, 8) {
            return None;
        }
        let (at3, at4, at6) = match (
            chars_in_bytes(&prefix, 3),
            chars_in_bytes(&prefix, 4),
            chars_in_bytes(&prefix, 6),
        ) {
            (Some(a), Some(b), Some(c)) => (a, b, c),
            _ => {
                return None;
            },
        };
        proof {
            lemma_chars_before(prefix@, 3, at3 as int);
            lemma_chars_before(prefix@, 4, at4 as int);
            lemma_chars_before(prefix@, 6, at6 as int);
            lemma_ordered(prefix@, at3 as int, at4 as int);
            lemma_ordered(prefix@, at4 as int, at6 as int);
        }
        let cipher_count: u32 = match two_digit_number(&prefix, at4, at6) {
            Some(n) => n,
            None => {
                return None;
            },
        };
        let at8: usize = match chars_in_bytes(&prefix, 8) {
            Some(n) => n,
            None => {
                return None;
            },
        };
        proof {
            lemma_chars_before(prefix@, 8, at8 as int);
            lemma_ordered(prefix@, at6 as int, at8 as int);
        }
        let ext_count: u32 = match two_digit_number(&prefix, at6, at8) {
            Some(n) => n,
            None => {
                return None;
            },
        };
        let sni_present: bool = at4 - at3 == 1 && prefix[at3] == 'd';
        assert(sni_present == (byte_part(prefix@, 3, 4) == seq!['d'])) by {
            if sni_present {
                assert(byte_part(prefix@, 3, 4) =~= seq!['d']);
            } else if byte_part(prefix@, 3, 4) == seq!['d'] {
                assert(byte_part(prefix@, 3, 4).len() == 1);
                assert(byte_part(prefix@, 3, 4)[0] == prefix@[at3 as int]);
            }
        }
        let r: Ja4Fingerprint = Ja4Fingerprint {
            protocol: text_of(&prefix, 0, at3),
            sni_present,
            cipher_count,
            ext_count,
            alpn: text_of(&prefix, at8, prefix.len()),
            cipher_hash: text_of(&chars, first + 1, second),
            ext_hash: text_of(&chars, second + 1, chars.len()),
        };
        proof {
            assert(r.protocol@ =~= prefix@.take(at3 as int));
            assert(r.cipher_hash@ =~= rest.take(index_of(rest, '_')));
            assert(r.ext_hash@ =~= after_underscore(rest));
        }
        Some(r)
    }
}

proof fn lemma_ordered(s: Seq<char>, i: int, j: int)
    requires
        0 <= i <= s.len(),
        0 <= j <= s.len(),
        byte_len(s.take(i)) < byte_len(s.take(j)),
    ensures
        i < j,
{
    if j <= i {
        crate::text::lemma_byte_len_grows(s, j, i);
    }
}

/// Whether a text has at least `n` bytes.
fn has_bytes(s: &Vec<char>, n: usize) -> (r: bool)
    requires
        n <= 64,
    ensures
        r == (byte_len(s@) >= n),
{
    let mut i: usize = 0;
    let mut sum: usize = 0;
    assert(s@.take(0).len() == 0);
    while i < s.len()
        invariant
            i <= s@.len(),
            n <= 64,
            sum == byte_len(s@.take(i as int)),
            sum < n || i == 0,
            sum <= 64,
        decreases s@.len() - i,
    {
        let c: u32 = s[i] as u32;
        let len: usize = if c < 0x80 {
            1
        } else if c < 0x800 {
            2
        } else if c < 0x10000 {
            3
        } else {
            4
        };
        assert(s@.take(i + 1).drop_last() =~= s@.take(i as int));
        sum = sum + len;
        i = i + 1;
        if sum >= n {
            proof {
                crate::text::lemma_byte_len_grows(s@, i as int, s@.len() as int);
                assert(s@.take(s@.len() as int) =~= s@);
            }
            return true;
        }
    }
    assert(s@.take(s@.len() as int) =~= s@);
    sum >= n
}

/// Which client a ClientHello is made to look like.
#[derive(Debug, Clone, Copy, PartialEq, Eq, Structural)]
pub enum ClientHelloStyle {
    Chrome130,
    Firefox120,
    Safari17,
    Curl8,
}

/// A TLS client with a known fingerprint.
#[derive(Debug, Clone)]
pub struct TlsFingerprintProfile {
    pub name: &'static str,
    pub ja4_expected: &'static str,
    /// How the ClientHello is built.
    pub build_ch: ClientHelloStyle,
}

/// The four clients that a probe imitates.
pub open spec fn standard_clients(p: Seq<TlsFingerprintProfile>) -> bool {
    &&& p.len() == 4
    &&& p[0].name@ == "chrome_130"@
    &&& p[0].ja4_expected@ == "t13d1516h2_8daaf6152771_b186095e22b6"@
    &&& p[0].build_ch == ClientHelloStyle::Chrome130
    &&& p[1].name@ == "firefox_120"@
    &&& p[1].ja4_expected@ == "t13d2816h2_4be751f23922_7e0c33c2a5f5"@
    &&& p[1].build_ch == ClientHelloStyle::Firefox120
    &&& p[2].name@ == "safari_17"@
    &&& p[2].ja4_expected@ == "t13d1216h2_7719d2f23977_5681e26e1a45"@
    &&& p[2].build_ch == ClientHelloStyle::Safari17
    &&& p[3].name@ == "curl_8"@
    &&& p[3].ja4_expected@ == "t13d1016h2_4889f7323315_0f23edc22a8b"@
    &&& p[3].build_ch == ClientHelloStyle::Curl8
}

/// The four clients that a probe imitates.
pub fn standard_profiles() -> (r: Vec<TlsFingerprintProfile>)
    ensures
        standard_clients(r@),
{
    let mut r: Vec<TlsFingerprintProfile> = Vec::new();
    r.push(
        TlsFingerprintProfile {
            name: "chrome_130",
            ja4_expected: "t13d1516h2_8daaf6152771_b186095e22b6",
            build_ch: ClientHelloStyle::Chrome130,
        },
    );
    r.push(
        TlsFingerprintProfile {
            name: "firefox_120",
            ja4_expected: "t13d2816h2_4be751f23922_7e0c33c2a5f5",
            build_ch: ClientHelloStyle::Firefox120,
        },
    );
    r.push(
        TlsFingerprintProfile {
            name: "safari_17",
            ja4_expected: "t13d1216h2_7719d2f23977_5681e26e1a45",
            build_ch: ClientHelloStyle::Safari17,
        },
    );
    r.push(
        TlsFingerprintProfile {
            name: "curl_8",
            ja4_expected: "t13d1016h2_4889f7323315_0f23edc22a8b",
            build_ch: ClientHelloStyle::Curl8,
        },
    );
    r
}

/// What came of one imitated client.
#[derive(Debug, Clone)]
pub struct FingerprintProbeResult {
    pub profile_name: String,
    pub ja4_expected: String,
    pub ja4_actual: Option<String>,
    pub verdict: TlsFailureCode,
    pub rtt_ms: u64,
    /// The first 64 bytes of the response.
    pub response_preview: Vec<u8>,
}

/// What came of all imitated clients.
#[derive(Debug, Clone)]
pub struct Ja4ProbeResult {
    pub profiles: Vec<FingerprintProbeResult>,
    pub verdict: FingerprintVerdict,
    pub blocked_count: usize,
    pub ok_count: usize,
    /// The first client that was blocked.
    pub blocked_profile: Option<String>,
    /// The first client that got through.
    pub working_profile: Option<String>,
}

/// Whether a filter looks at the fingerprint.
#[derive(Debug, Clone, Copy, PartialEq, Eq, Structural)]
pub enum FingerprintVerdict {
    /// Every client got through.
    NoFingerprintBlocking,
    /// None did: the filter looks at the server name.
    SniBasedBlocking,
    /// Some did: the filter looks at the fingerprint.
    FingerprintBlocking,
}

impl Default for FingerprintVerdict {
    fn default() -> (r: FingerprintVerdict)
        ensures
            r == FingerprintVerdict::NoFingerprintBlocking,
    {
        FingerprintVerdict::NoFingerprintBlocking
    }
}

impl Default for Ja4ProbeResult {
    fn default() -> (r: Ja4ProbeResult)
        ensures
            r.profiles@.len() == 0,
            r.verdict == FingerprintVerdict::NoFingerprintBlocking,
            r.blocked_count == 0,
            r.ok_count == 0,
            r.blocked_profile is None,
            r.working_profile is None,
    {
        Ja4ProbeResult {
            profiles: Vec::new(),
            verdict: FingerprintVerdict::NoFingerprintBlocking,
            blocked_count: 0,
            ok_count: 0,
            blocked_profile: None,
            working_profile: None,
        }
    }
}

/// The timeouts and the clients of a fingerprint probe.
#[derive(Debug, Clone)]
pub struct Ja4FingerprintProbe {
    pub connect_timeout_ms: u64,
    pub read_timeout_ms: u64,
    pub profiles: Vec<TlsFingerprintProfile>,
}

impl Ja4FingerprintProbe {
    /// A probe with the four standard clients.
    pub fn new(connect_timeout_ms: u64, read_timeout_ms: u64) -> (r: Ja4FingerprintProbe)
        ensures
            r.connect_timeout_ms == connect_timeout_ms,
            r.read_timeout_ms == read_timeout_ms,
            standard_clients(r.profiles@),
    {
        Ja4FingerprintProbe {
            connect_timeout_ms,
            read_timeout_ms,
            profiles: standard_profiles(),
        }
    }

    /// The server name that the imitated clients ask for.
    pub fn server_name<'a>(domain: &'a str) -> (r: &'a str)
        ensures
            r@ == (if domain@.len() == 0 {
                "example.com"@
            } else {
                domain@
            }),
    {
        if domain.is_empty() {
            "example.com"
        } else {
            domain
        }
    }
}

/// What happened on the wire when a ClientHello was sent.
#[derive(Debug, Clone)]
pub enum HelloExchange {
    ConnectFailed,
    WriteFailed,
    ReadFailed,
    /// The bytes of the first read.
    Received(Vec<u8>),
}

/// The verdict on an exchange.
pub open spec fn exchange_verdict(e: HelloExchange) -> TlsFailureCode {
    match e {
        HelloExchange::ConnectFailed | HelloExchange::ReadFailed => TlsFailureCode::Reset,
        HelloExchange::WriteFailed => TlsFailureCode::Eof,
        HelloExchange::Received(b) => if b@.len() == 0 {
            TlsFailureCode::Eof
        } else {
            response_verdict(b@)
        },
    }
}

/// The part of an exchange that is kept for a look.
pub open spec fn exchange_preview(e: HelloExchange) -> Seq<u8> {
    match e {
        HelloExchange::Received(b) => if b@.len() > 64 {
            b@.take(64)
        } else {
            b@
        },
        _ => Seq::empty(),
    }
}

/// The result of one imitated client. A connection that was never made took
/// no time.
pub fn profile_result(profile: &TlsFingerprintProfile, exchange: &HelloExchange, elapsed_ms: u64) -> (r:
    FingerprintProbeResult)
    ensures
        r.profile_name@ == profile.name@,
        r.ja4_expected@ == profile.ja4_expected@,
        r.ja4_actual is None,
        r.verdict == exchange_verdict(*exchange),
        r.rtt_ms == (if *exchange is ConnectFailed {
            0
        } else {
            elapsed_ms
        }),
        r.response_preview@ == exchange_preview(*exchange),
{
    let (verdict, rtt_ms, preview): (TlsFailureCode, u64, Vec<u8>) = match exchange {
        HelloExchange::ConnectFailed => (TlsFailureCode::Reset, 0, Vec::new()),
        HelloExchange::WriteFailed => (TlsFailureCode::Eof, elapsed_ms, Vec::new()),
        HelloExchange::ReadFailed => (TlsFailureCode::Reset, elapsed_ms, Vec::new()),
        HelloExchange::Received(b) => {
            if b.len() == 0 {
                (TlsFailureCode::Eof, elapsed_ms, Vec::new())
            } else {
                let n: usize = if b.len() > 64 {
                    64
                } else {
                    b.len()
                };
                (classify_tls_response(b.as_slice()), elapsed_ms, copy_range(b.as_slice(), 0, n))
            }
        },
    };
    let r: FingerprintProbeResult = FingerprintProbeResult {
        profile_name: owned(profile.name),
        ja4_expected: owned(profile.ja4_expected),
        ja4_actual: None,
        verdict,
        rtt_ms,
        response_preview: preview,
    };
    assert(r.response_preview@ =~= exchange_preview(*exchange));
    r
}

/// What the first bytes of a response to a ClientHello say.
pub open spec fn response_verdict(b: Seq<u8>) -> TlsFailureCode {
    if b.len() < 5 {
        TlsFailureCode::Garbage
    } else if b[0] == 0x16 && b.len() >= 6 {
        TlsFailureCode::HandshakeOk
    } else if b[0] == 0x15 && b[1] == 0x03 {
        if b.len() >= 7 && b[6] == 40 {
            TlsFailureCode::AlertHandshake
        } else if b.len() >= 7 && b[6] == 70 {
            TlsFailureCode::AlertProtocol
        } else if b.len() >= 7 && b[6] == 112 {
            TlsFailureCode::AlertSniblock
        } else {
            TlsFailureCode::Alert
        }
    } else {
        TlsFailureCode::Garbage
    }
}

/// Judges the first bytes of a response to a ClientHello.
pub fn classify_tls_response(response: &[u8]) -> (r: TlsFailureCode)
    ensures
        r == response_verdict(response@),
{
    if response.len() < 5 {
        return TlsFailureCode::Garbage;
    }
    if response[0] == 0x16 && response.len() >= 6 {
        return TlsFailureCode::HandshakeOk;
    }
    if response[0] == 0x15 && response[1] == 0x03 {
        if response.len() < 7 {
            return TlsFailureCode::Alert;
        }
        return match response[6] {
            40 => TlsFailureCode::AlertHandshake,
            70 => TlsFailureCode::AlertProtocol,
            112 => TlsFailureCode::AlertSniblock,
            _ => TlsFailureCode::Alert,
        };
    }
    TlsFailureCode::Garbage
}

/// Whether a verdict is a failure.
pub open spec fn tls_error(v: TlsFailureCode) -> bool {
    v != TlsFailureCode::HandshakeOk && v != TlsFailureCode::Version13Ok && v
        != TlsFailureCode::Version12Only
}

/// Whether some client failed.
pub open spec fn any_blocked(results: Seq<FingerprintProbeResult>) -> bool {
    exists|i: int| 0 <= i < results.len() && tls_error(#[trigger] results[i].verdict)
}

/// Whether some client got through.
pub open spec fn any_working(results: Seq<FingerprintProbeResult>) -> bool {
    exists|i: int| 0 <= i < results.len() && !tls_error(#[trigger] results[i].verdict)
}

/// How many clients failed.
pub open spec fn blocked_among(results: Seq<FingerprintProbeResult>) -> nat
    decreases results.len(),
{
    if results.len() == 0 {
        0
    } else {
        blocked_among(results.drop_last()) + (if tls_error(results.last().verdict) {
            1nat
        } else {
            0nat
        })
    }
}

/// The verdict on all clients together. Where no client was tried at all,
/// none got through.
pub open spec fn fingerprint_verdict(results: Seq<FingerprintProbeResult>) -> FingerprintVerdict {
    if any_blocked(results) && any_working(results) {
        FingerprintVerdict::FingerprintBlocking
    } else if any_working(results) {
        FingerprintVerdict::NoFingerprintBlocking
    } else {
        FingerprintVerdict::SniBasedBlocking
    }
}

fn count_blocked(results: &[FingerprintProbeResult]) -> (r: usize)
    ensures
        r == blocked_among(results@),
        r <= results@.len(),
        r > 0 <==> any_blocked(results@),
        r < results@.len() <==> any_working(results@),
{
    let mut n: usize = 0;
    let mut i: usize = 0;
    assert(results@.subrange(0, 0).len() == 0);
    while i < results.len()
        invariant
            i <= results@.len(),
            n <= i,
            n == blocked_among(results@.subrange(0, i as int)),
            n > 0 <==> exists|j: int| 0 <= j < i && tls_error(#[trigger] results@[j].verdict),
            n < i <==> exists|j: int| 0 <= j < i && !tls_error(#[trigger] results@[j].verdict),
        decreases results@.len() - i,
    {
        let ghost n0: usize = n;
        let ghost i0: usize = i;
        assert(results@.subrange(0, i + 1).drop_last() =~= results@.subrange(0, i as int));
        if results[i].verdict.is_error() {
            assert(tls_error(results@[i as int].verdict));
            n = n + 1;
        } else {
            assert(!tls_error(results@[i as int].verdict));
        }
        i = i + 1;
    }
    assert(results@.subrange(0, i as int) =~= results@);
    n
}

/// Tells filters that look at the fingerprint from those that look at the
/// server name.
pub fn discriminate(results: &[FingerprintProbeResult]) -> (r: FingerprintVerdict)
    ensures
        r == fingerprint_verdict(results@),
{
    let error_count: usize = count_blocked(results);
    let ok_count: usize = results.len() - error_count;
    if error_count > 0 && ok_count > 0 {
        FingerprintVerdict::FingerprintBlocking
    } else if error_count == results.len() {
        FingerprintVerdict::SniBasedBlocking
    } else {
        FingerprintVerdict::NoFingerprintBlocking
    }
}

/// The name of the first client that failed, or got through.
pub open spec fn first_named(
    results: Seq<FingerprintProbeResult>,
    failed: bool,
    name: Option<Seq<char>>,
) -> bool {
    match name {
        Some(n) => exists|i: int|
            0 <= i < results.len() && tls_error(#[trigger] results[i].verdict) == failed
                && results[i].profile_name@ == n && forall|j: int|
                0 <= j < i ==> tls_error(#[trigger] results[j].verdict) != failed,
        None => forall|i: int|
            0 <= i < results.len() ==> tls_error(#[trigger] results[i].verdict) != failed,
    }
}

fn first_name(results: &Vec<FingerprintProbeResult>, failed: bool) -> (r: Option<String>)
    ensures
        first_named(results@, failed, opt_view(r)),
{
    let mut i: usize = 0;
    while i < results.len()
        invariant
            i <= results@.len(),
            forall|j: int| 0 <= j < i ==> tls_error(#[trigger] results@[j].verdict) != failed,
        decreases results@.len() - i,
    {
        if results[i].verdict.is_error() == failed {
            let name: String = owned(results[i].profile_name.as_str());
            assert(tls_error(results@[i as int].verdict) == failed);
            return Some(name);
        }
        i = i + 1;
    }
    None
}

/// What the clients together came to.
pub open spec fn summarized(results: Seq<FingerprintProbeResult>, r: Ja4ProbeResult) -> bool {
    &&& r.profiles@ == results
    &&& r.verdict == fingerprint_verdict(results)
    &&& r.blocked_count == blocked_among(results)
    &&& r.ok_count == results.len() - blocked_among(results)
    &&& first_named(results, true, opt_view(r.blocked_profile))
    &&& first_named(results, false, opt_view(r.working_profile))
}

/// Puts the results of all clients together.
pub fn summarize(results: Vec<FingerprintProbeResult>) -> (r: Ja4ProbeResult)
    ensures
        summarized(results@, r),
{
    let blocked_count: usize = count_blocked(results.as_slice());
    let ok_count: usize = results.len() - blocked_count;
    let verdict: FingerprintVerdict = discriminate(results.as_slice());
    let blocked_profile: Option<String> = first_name(&results, true);
    let working_profile: Option<String> = first_name(&results, false);
    Ja4ProbeResult {
        profiles: results,
        verdict,
        blocked_count,
        ok_count,
        blocked_profile,
        working_profile,
    }
}

/// What a TLS handshake has shown so far.
pub struct HandshakeFacts {
    pub server_hello_size: nat,
    pub cert_count: nat,
    pub version: Option<Seq<char>>,
    pub cipher: Option<Seq<char>>,
    pub tls13: bool,
}

/// The number that three bytes stand for.
pub open spec fn be24(s: Seq<u8>, at: int) -> int {
    s[at] as int * 65536 + s[at + 1] as int * 256 + s[at + 2] as int
}

/// The name of a TLS version.
pub open spec fn version_name(v: u16) -> Seq<char> {
    if v == 0x0304 {
        "1.3"@
    } else if v == 0x0303 {
        "1.2"@
    } else if v == 0x0302 {
        "1.1"@
    } else if v == 0x0301 {
        "1.0"@
    } else {
        hex16(v)
    }
}

/// The name of a cipher suite.
pub open spec fn cipher_name(c: u16) -> Seq<char> {
    if c == 0x1301 {
        "TLS_AES_128_GCM_SHA256"@
    } else if c == 0x1302 {
        "TLS_AES_256_GCM_SHA384"@
    } else if c == 0x1303 {
        "TLS_CHACHA20_POLY1305_SHA256"@
    } else if c == 0xC02B {
        "ECDHE_ECDSA_WITH_AES_128_GCM_SHA256"@
    } else if c == 0xC02C {
        "ECDHE_ECDSA_WITH_AES_256_GCM_SHA384"@
    } else if c == 0xC02F {
        "ECDHE_RSA_WITH_AES_128_GCM_SHA256"@
    } else if c == 0xC030 {
        "ECDHE_RSA_WITH_AES_256_GCM_SHA384"@
    } else {
        hex16(c)
    }
}

/// How many certificates a list holds from `pos` on. Each has a length of
/// three bytes, its data, and `extra` bytes after it; the list ends at `end`.
/// Counting stops at an empty certificate, at one that reaches past the list,
/// and where no length can be read.
pub open spec fn certs_from(body: Seq<u8>, pos: int, end: int, extra: int) -> nat
    decreases
            if pos <= body.len() {
                body.len() - pos
            } else {
                0
            },
{
    if 0 <= pos && 0 <= extra && pos + 3 <= end && pos + 3 <= body.len() {
        let next = pos + 3 + be24(body, pos) + extra;
        if be24(body, pos) == 0 || next > end {
            0
        } else {
            1 + certs_from(body, next, end, extra)
        }
    } else {
        0
    }
}

/// How many certificates a Certificate message holds.
pub open spec fn certs_in(body: Seq<u8>, tls13: bool) -> nat {
    if body.len() < 3 {
        0
    } else if tls13 {
        let start = 1 + body[0] as int;
        if start + 3 <= body.len() {
            certs_from(body, start + 3, start + 3 + be24(body, start), 2)
        } else {
            0
        }
    } else if 3 + be24(body, 0) <= body.len() {
        certs_from(body, 3, 3 + be24(body, 0), 0)
    } else {
        0
    }
}

/// What is known after a ServerHello.
pub open spec fn with_server_hello(f: HandshakeFacts, body: Seq<u8>) -> HandshakeFacts {
    let ver = be16(body[0], body[1]) as u16;
    let at = 35 + body[34] as int;
    HandshakeFacts {
        server_hello_size: 4 + body.len(),
        cert_count: f.cert_count,
        version: if body.len() >= 2 {
            Some(version_name(ver))
        } else {
            f.version
        },
        cipher: if body.len() > 34 && at + 2 <= body.len() {
            Some(cipher_name(be16(body[at], body[at + 1]) as u16))
        } else {
            f.cipher
        },
        tls13: if body.len() >= 2 {
            ver == 0x0304
        } else {
            f.tls13
        },
    }
}

/// What is known after a record. A record that is no handshake, or too short
/// for the message it announces, adds nothing.
pub open spec fn with_record(f: HandshakeFacts, content_type: u8, record: Seq<u8>) -> HandshakeFacts {
    let len = be24(record, 1);
    let body = record.subrange(4, 4 + len);
    if content_type != 0x16 || record.len() < 4 || 4 + len > record.len() {
        f
    } else if record[0] == 0x02 {
        with_server_hello(f, body)
    } else if record[0] == 0x0B {
        HandshakeFacts { cert_count: f.cert_count + certs_in(body, f.tls13), ..f }
    } else {
        f
    }
}

/// What the whole records from `offset` on add.
pub open spec fn with_records(f: HandshakeFacts, response: Seq<u8>, offset: int) -> HandshakeFacts
    decreases response.len() - offset,
{
    let len = be16(response[offset + 3], response[offset + 4]) as int;
    if 0 <= offset && offset + 5 <= response.len() && offset + 5 + len <= response.len() {
        with_records(
            with_record(
                f,
                response[offset],
                response.subrange(offset + 5, offset + 5 + len),
            ),
            response,
            offset + 5 + len,
        )
    } else {
        f
    }
}

/// Nothing seen yet.
pub open spec fn no_facts() -> HandshakeFacts {
    HandshakeFacts {
        server_hello_size: 0,
        cert_count: 0,
        version: None,
        cipher: None,
        tls13: false,
    }
}

proof fn lemma_certs_bound(body: Seq<u8>, pos: int, end: int, extra: int)
    requires
        0 <= pos,
        0 <= extra,
    ensures
        certs_from(body, pos, end, extra) <= body.len(),
        pos <= body.len() ==> certs_from(body, pos, end, extra) <= body.len() - pos,
    decreases
            if pos <= body.len() {
                body.len() - pos
            } else {
                0
            },
{
    if pos + 3 <= end && pos + 3 <= body.len() {
        lemma_certs_bound(body, pos + 3 + be24(body, pos) + extra, end, extra);
    }
}

fn read_be24(data: &[u8], at: usize) -> (r: usize)
    requires
        at + 2 < data@.len(),
    ensures
        r == be24(data@, at as int),
        r < 0x100_0000,
{
    let len: usize = data.len();
    assert(at + 2 < len);
    data[at] as usize * 65536 + data[at + 1] as usize * 256 + data[at + 2] as usize
}

/// Counts the certificates of a list; `span` bytes of it are left from `pos`
/// on.
fn count_certs(body: &[u8], pos: usize, span: usize, extra: usize) -> (r: usize)
    requires
        pos <= body@.len(),
        span < 0x100_0000,
        extra <= 2,
        pos + span <= usize::MAX,
    ensures
        r == certs_from(body@, pos as int, pos + span, extra as int),
        r <= body@.len(),
{
    let body_len: usize = body.len();
    let mut at: usize = pos;
    let mut left: usize = span;
    let mut n: usize = 0;
    let ghost total: nat = certs_from(body@, pos as int, pos + span, extra as int);
    proof {
        lemma_certs_bound(body@, pos as int, pos + span, extra as int);
    }
    while left >= 3 && body_len - at >= 3
        invariant
            body_len == body@.len(),
            pos <= at <= body_len,
            left <= span < 0x100_0000,
            extra <= 2,
            at + left == pos + span,
            pos + span <= usize::MAX,
            n <= at - pos,
            n + certs_from(body@, at as int, at + left, extra as int) == total,
            total == certs_from(body@, pos as int, pos + span, extra as int),
            total <= body_len,
        decreases body_len - at,
    {
        let cert_len: usize = read_be24(body, at);
        if cert_len == 0 || 3 + cert_len + extra > left {
            return n;
        }
        if 3 + cert_len + extra > body_len - at {
            assert(certs_from(
                body@,
                at + 3 + cert_len + extra,
                at + left,
                extra as int,
            ) == 0);
            return n + 1;
        }
        at = at + 3 + cert_len + extra;
        left = left - (3 + cert_len + extra);
        n = n + 1;
    }
    n
}

fn certs_of_message(body: &[u8], tls13: bool) -> (r: usize)
    ensures
        r == certs_in(body@, tls13),
        r <= body@.len(),
{
    if body.len() < 3 {
        return 0;
    }
    let len: usize = body.len();
    if tls13 {
        let start: usize = 1 + body[0] as usize;
        if start + 3 <= len {
            let total: usize = read_be24(body, start);
            count_certs(body, start + 3, total, 2)
        } else {
            0
        }
    } else {
        let total: usize = read_be24(body, 0);
        if 3 + total <= len {
            count_certs(body, 3, total, 0)
        } else {
            0
        }
    }
}

fn version_text(v: u16) -> (r: String)
    ensures
        r@ == version_name(v),
{
    match v {
        0x0304 => owned("1.3"),
        0x0303 => owned("1.2"),
        0x0302 => owned("1.1"),
        0x0301 => owned("1.0"),
        _ => hex16_text(v),
    }
}

fn cipher_text(c: u16) -> (r: String)
    ensures
        r@ == cipher_name(c),
{
    match c {
        0x1301 => owned("TLS_AES_128_GCM_SHA256"),
        0x1302 => owned("TLS_AES_256_GCM_SHA384"),
        0x1303 => owned("TLS_CHACHA20_POLY1305_SHA256"),
        0xC02B => owned("ECDHE_ECDSA_WITH_AES_128_GCM_SHA256"),
        0xC02C => owned("ECDHE_ECDSA_WITH_AES_256_GCM_SHA384"),
        0xC02F => owned("ECDHE_RSA_WITH_AES_128_GCM_SHA256"),
        0xC030 => owned("ECDHE_RSA_WITH_AES_256_GCM_SHA384"),
        _ => hex16_text(c),
    }
}

/// Reads the features of a TLS handshake from the bytes of a response: the
/// size of the ServerHello, the number of certificates, the negotiated
/// version and the negotiated cipher suite.
pub fn extract_tls_handshake_features(response: &[u8]) -> (r: (
    usize,
    usize,
    Option<String>,
    Option<String>,
))
    ensures
        ({
            let f = with_records(no_facts(), response@, 0);
            &&& r.0 == f.server_hello_size
            &&& r.1 == f.cert_count
            &&& opt_view(r.2) == f.version
            &&& opt_view(r.3) == f.cipher
        }),
{
    let mut size: usize = 0;
    let mut certs: usize = 0;
    let mut version: Option<String> = None;
    let mut cipher: Option<String> = None;
    let mut tls13: bool = false;
    let mut offset: usize = 0;
    let resp_len: usize = response.len();
    while resp_len - offset >= 5
        invariant
            resp_len == response@.len(),
            offset <= resp_len,
            certs <= offset,
            with_records(
                HandshakeFacts {
                    server_hello_size: size as nat,
                    cert_count: certs as nat,
                    version: opt_view(version),
                    cipher: opt_view(cipher),
                    tls13,
                },
                response@,
                offset as int,
            ) == with_records(no_facts(), response@, 0),
        ensures
            with_records(no_facts(), response@, 0) == (HandshakeFacts {
                server_hello_size: size as nat,
                cert_count: certs as nat,
                version: opt_view(version),
                cipher: opt_view(cipher),
                tls13,
            }),
        decreases resp_len - offset,
    {
        let content_type: u8 = response[offset];
        let record_len: usize = read_be16(response, offset + 3) as usize;
        if record_len > resp_len - offset - 5 {
            break ;
        }
        let record: Vec<u8> = copy_range(response, offset + 5, offset + 5 + record_len);
        let ghost f: HandshakeFacts = HandshakeFacts {
            server_hello_size: size as nat,
            cert_count: certs as nat,
            version: opt_view(version),
            cipher: opt_view(cipher),
            tls13,
        };
        if content_type == 0x16 && record.len() >= 4 {
            let hs_len: usize = read_be24(record.as_slice(), 1);
            if 4 + hs_len <= record.len() {
                let body: Vec<u8> = copy_range(record.as_slice(), 4, 4 + hs_len);
                if record[0] == 0x02 {
                    size = 4 + hs_len;
                    if body.len() >= 2 {
                        let v: u16 = read_be16(body.as_slice(), 0);
                        version = Some(version_text(v));
                        tls13 = v == 0x0304;
                    }
                    if body.len() > 34 {
                        let at: usize = 35 + body[34] as usize;
                        if at + 2 <= body.len() {
                            cipher = Some(cipher_text(read_be16(body.as_slice(), at)));
                        }
                    }
                } else if record[0] == 0x0B {
                    certs = certs + certs_of_message(body.as_slice(), tls13);
                }
            }
        }
        assert(with_record(f, content_type, record@) == (HandshakeFacts {
            server_hello_size: size as nat,
            cert_count: certs as nat,
            version: opt_view(version),
            cipher: opt_view(cipher),
            tls13,
        }));
        offset = offset + 5 + record_len;
    }
    (size, certs, version, cipher)
}

/// A response that ends inside its first record shows nothing.
pub proof fn truncated_response_shows_nothing(response: Seq<u8>)
    requires
        response.len() < 5 || response.len() < 5 + be16(response[3], response[4]),
    ensures
        with_records(no_facts(), response, 0) == no_facts(),
{
}

/// What follows the last whole record changes nothing.
pub proof fn trailing_fragment_is_ignored(f: HandshakeFacts, response: Seq<u8>, offset: int)
    requires
        0 <= offset <= response.len(),
        response.len() - offset < 5 || response.len() - offset < 5 + be16(
            response[offset + 3],
            response[offset + 4],
        ),
    ensures
        with_records(f, response, offset) == f,
{
}

/// The verdict on all clients says who was blocked: some and some not, all,
/// or none.
pub proof fn fingerprint_verdict_partitions(results: Seq<FingerprintProbeResult>)
    ensures
        fingerprint_verdict(results) == FingerprintVerdict::FingerprintBlocking <==> any_blocked(
            results,
        ) && any_working(results),
        fingerprint_verdict(results) == FingerprintVerdict::NoFingerprintBlocking <==> !any_blocked(
            results,
        ) && results.len() > 0,
        fingerprint_verdict(results) == FingerprintVerdict::SniBasedBlocking <==> !any_working(
            results,
        ),
{
    if results.len() > 0 {
        if tls_error(results[0].verdict) {
            assert(any_blocked(results));
        } else {
            assert(any_working(results));
        }
    }
}

/// Whether the text of a fingerprint can be told apart again: a protocol of
/// three ASCII characters, counts of two digits, and no underscore where one
/// separates.
pub open spec fn unambiguous(f: Ja4Parts) -> bool {
    &&& f.protocol.len() == 3
    &&& forall|i: int| 0 <= i < 3 ==> (#[trigger] f.protocol[i] as u32) < 0x80
    &&& f.cipher_count < 100
    &&& f.ext_count < 100
    &&& !f.protocol.contains('_')
    &&& !f.alpn.contains('_')
    &&& !f.cipher_hash.contains('_')
}

proof fn lemma_two_digits(n: nat)
    requires
        n < 100,
    ensures
        padded2(n).len() == 2,
        two_digits(padded2(n)) == Some(n as u32),
        (padded2(n)[0] as u32) < 0x80,
        (padded2(n)[1] as u32) < 0x80,
        padded2(n)[0] != '_',
        padded2(n)[1] != '_',
{
    if n >= 10 {
        assert(decimal(n / 10) =~= seq![digit(n / 10)]);
        assert(decimal(n) =~= seq![digit(n / 10), digit(n % 10)]);
    }
}

proof fn lemma_ascii_prefix(s: Seq<char>, n: int)
    requires
        0 <= n <= s.len(),
        forall|i: int| 0 <= i < n ==> (#[trigger] s[i] as u32) < 0x80,
    ensures
        byte_len(s.take(n)) == n,
    decreases n,
{
    if n > 0 {
        lemma_ascii_prefix(s, n - 1);
        assert(s.take(n).drop_last() =~= s.take(n - 1));
    }
}

/// Reading back the text of a fingerprint gives the fingerprint.
pub proof fn ja4_text_round_trips(f: Ja4Parts)
    requires
        unambiguous(f),
    ensures
        parse_ja4(ja4_text(f)) == Some(f),
        cuttable(ja4_prefix(ja4_text(f))),
{
    reveal_strlit("_");
    let sni = if f.sni_present {
        'd'
    } else {
        'u'
    };
    let c = padded2(f.cipher_count as nat);
    let e = padded2(f.ext_count as nat);
    lemma_two_digits(f.cipher_count as nat);
    lemma_two_digits(f.ext_count as nat);
    let prefix = f.protocol + seq![sni] + c + e + f.alpn;
    let rest = f.cipher_hash + "_"@ + f.ext_hash;
    let s = ja4_text(f);
    assert(s =~= prefix + "_"@ + rest);
    assert forall|j: int| 0 <= j < prefix.len() implies s[j] != '_' by {
        if j < 3 {
            assert(f.protocol.contains(f.protocol[j]));
        } else if j >= 8 {
            assert(f.alpn.contains(f.alpn[j - 8]));
        }
    }
    crate::text::lemma_index_of_is(s, '_', prefix.len() as int);
    assert(ja4_prefix(s) =~= prefix);
    assert(after_underscore(s) =~= rest);
    assert forall|j: int| 0 <= j < f.cipher_hash.len() implies rest[j] != '_' by {
        assert(f.cipher_hash.contains(f.cipher_hash[j]));
    }
    crate::text::lemma_index_of_is(rest, '_', f.cipher_hash.len() as int);
    assert(after_underscore(rest) =~= f.ext_hash);
    assert(rest.take(index_of(rest, '_')) =~= f.cipher_hash);
    assert forall|i: int| 0 <= i < 8 implies (#[trigger] prefix[i] as u32) < 0x80 by {
        if i < 3 {
            assert(prefix[i] == f.protocol[i]);
        }
    }
    lemma_ascii_prefix(prefix, 3);
    lemma_ascii_prefix(prefix, 4);
    lemma_ascii_prefix(prefix, 6);
    lemma_ascii_prefix(prefix, 8);
    lemma_chars_before(prefix, 3, 3);
    lemma_chars_before(prefix, 4, 4);
    lemma_chars_before(prefix, 6, 6);
    lemma_chars_before(prefix, 8, 8);
    assert(byte_part(prefix, 4, 6) =~= c);
    assert(byte_part(prefix, 6, 8) =~= e);
    assert(byte_part(prefix, 3, 4) =~= seq![sni]);
    assert(byte_part(prefix, 3, 4)[0] == sni);
    assert(seq!['d'][0] == 'd');
    crate::text::lemma_byte_len_grows(prefix, 8, prefix.len() as int);
    assert(prefix.take(prefix.len() as int) =~= prefix);
    let p = parse_ja4(s)->0;
    assert(p.protocol =~= f.protocol);
    assert(p.alpn =~= f.alpn);
}

/// A verdict is no failure exactly where a handshake went through, in whatever
/// version.
pub proof fn only_handshakes_are_no_failures(v: TlsFailureCode)
    ensures
        !tls_error(v) <==> v == TlsFailureCode::HandshakeOk || v == TlsFailureCode::Version13Ok || v
            == TlsFailureCode::Version12Only,
{
}

/// What the first bytes of a response mean: a handshake record with something in
/// it is a handshake; an alert record of TLS is an alert, with a name for the
/// codes 40, 70 and 112; everything else, and what is cut short, is garbage.
pub proof fn responses_are_told_by_their_record(b: Seq<u8>)
    ensures
        ({
            let v = response_verdict(b);
            let alert = b.len() >= 5 && b[0] == 21 && b[1] == 3;
            let code = b[6];
            &&& v == TlsFailureCode::HandshakeOk <==> b.len() >= 6 && b[0] == 22
            &&& v == TlsFailureCode::AlertHandshake <==> alert && b.len() >= 7 && code == 40
            &&& v == TlsFailureCode::AlertProtocol <==> alert && b.len() >= 7 && code == 70
            &&& v == TlsFailureCode::AlertSniblock <==> alert && b.len() >= 7 && code == 112
            &&& v == TlsFailureCode::Alert <==> alert && (b.len() < 7 || (code != 40 && code != 70
                && code != 112))
            &&& v == TlsFailureCode::Garbage <==> !alert && !(b.len() >= 6 && b[0] == 22)
        }),
{
}

/// What came of an imitated client: a connection or a read that failed is a
/// reset; a write that failed, and an end without a byte, is an early end; what
/// came back is judged by its bytes. At most its first 64 bytes are kept.
pub proof fn exchanges_are_told_by_their_end(e: HelloExchange)
    ensures
        e is ConnectFailed || e is ReadFailed ==> exchange_verdict(e) == TlsFailureCode::Reset,
        e is WriteFailed ==> exchange_verdict(e) == TlsFailureCode::Eof,
        e matches HelloExchange::Received(b) ==> {
            &&& b@.len() == 0 ==> exchange_verdict(e) == TlsFailureCode::Eof
            &&& b@.len() > 0 ==> exchange_verdict(e) == response_verdict(b@)
            &&& b@.len() <= 64 ==> exchange_preview(e) == b@
            &&& b@.len() > 64 ==> exchange_preview(e) == b@.take(64)
        },
        !(e is Received) ==> exchange_preview(e).len() == 0,
{
}

/// The clients together tell what is filtered: where some got through and some
/// did not, the fingerprint; where none did, the server name; where all did,
/// nothing.
pub proof fn clients_tell_what_is_filtered(results: Seq<FingerprintProbeResult>)
    ensures
        ({
            let through = |i: int|
                results[i].verdict == TlsFailureCode::HandshakeOk || results[i].verdict
                    == TlsFailureCode::Version13Ok || results[i].verdict
                    == TlsFailureCode::Version12Only;
            let some = exists|i: int| 0 <= i < results.len() && #[trigger] through(i);
            let all = forall|i: int| 0 <= i < results.len() ==> #[trigger] through(i);
            &&& fingerprint_verdict(results) == FingerprintVerdict::FingerprintBlocking <==> some
                && !all
            &&& fingerprint_verdict(results) == FingerprintVerdict::SniBasedBlocking <==> !some
            &&& fingerprint_verdict(results) == FingerprintVerdict::NoFingerprintBlocking <==> some
                && all
        }),
{
    let through = |i: int|
        results[i].verdict == TlsFailureCode::HandshakeOk || results[i].verdict
            == TlsFailureCode::Version13Ok || results[i].verdict == TlsFailureCode::Version12Only;
    assert forall|i: int| 0 <= i < results.len() implies (#[trigger] through(i)) == !tls_error(
        results[i].verdict,
    ) by {}
    if any_working(results) {
        let i = choose|i: int| 0 <= i < results.len() && !tls_error(#[trigger] results[i].verdict);
        assert(through(i));
    }
    if any_blocked(results) {
        let i = choose|i: int| 0 <= i < results.len() && tls_error(#[trigger] results[i].verdict);
        assert(!through(i));
    }
    if exists|i: int| 0 <= i < results.len() && #[trigger] through(i) {
        let i = choose|i: int| 0 <= i < results.len() && #[trigger] through(i);
        assert(!tls_error(results[i].verdict));
    }
    if !(forall|i: int| 0 <= i < results.len() ==> #[trigger] through(i)) {
        let i = choose|i: int| 0 <= i < results.len() && !#[trigger] through(i);
        assert(tls_error(results[i].verdict));
    }
}

/// Every client that failed is counted once, and no other.
pub proof fn failed_clients_are_counted(
    results: Seq<FingerprintProbeResult>,
    next: FingerprintProbeResult,
)
    ensures
        blocked_among(seq![]) == 0,
        blocked_among(results.push(next)) == blocked_among(results) + (if next.verdict
            == TlsFailureCode::HandshakeOk || next.verdict == TlsFailureCode::Version13Ok
            || next.verdict == TlsFailureCode::Version12Only {
            0nat
        } else {
            1nat
        }),
        blocked_among(results) <= results.len(),
    decreases results.len(),
{
    assert(results.push(next).drop_last() =~= results);
    if results.len() > 0 {
        failed_clients_are_counted(results.drop_last(), next);
    }
}

/// A ServerHello in a record of its own is read in place: its size, the version
/// that it names, and the cipher suite that stands behind a version, thirty-two
/// random bytes and the session id.
pub proof fn server_hellos_are_read_in_place(f: HandshakeFacts, body: Seq<u8>, record: Seq<u8>)
    requires
        body.len() >= 38 + body[34],
        body.len() < 0x100_0000,
        record == seq![
            2u8,
            (body.len() / 0x1_0000) as u8,
            (body.len() / 0x100 % 0x100) as u8,
            (body.len() % 0x100) as u8,
        ] + body,
    ensures
        ({
            let g = with_record(f, 22, record);
            let at = 35 + body[34] as int;
            let version = (body[0] * 256 + body[1]) as u16;
            let suite = (body[at] * 256 + body[at + 1]) as u16;
            &&& g.server_hello_size == 4 + body.len()
            &&& g.version == Some(version_name(version))
            &&& g.cipher == Some(cipher_name(suite))
            &&& g.tls13 <==> body[0] == 3 && body[1] == 4
            &&& g.cert_count == f.cert_count
        }),
        with_record(f, 23, record) == f,
{
    assert(record.subrange(4, 4 + body.len() as int) =~= body);
    assert(be24(record, 1) == body.len());
}

/// The names of the versions and cipher suites that are known.
pub proof fn versions_and_suites_have_their_names()
    ensures
        version_name(0x0304) == "1.3"@,
        version_name(0x0303) == "1.2"@,
        version_name(0x0302) == "1.1"@,
        version_name(0x0301) == "1.0"@,
        cipher_name(0x1301) == "TLS_AES_128_GCM_SHA256"@,
        cipher_name(0x1302) == "TLS_AES_256_GCM_SHA384"@,
        cipher_name(0x1303) == "TLS_CHACHA20_POLY1305_SHA256"@,
        cipher_name(0xC02B) == "ECDHE_ECDSA_WITH_AES_128_GCM_SHA256"@,
        cipher_name(0xC02C) == "ECDHE_ECDSA_WITH_AES_256_GCM_SHA384"@,
        cipher_name(0xC02F) == "ECDHE_RSA_WITH_AES_128_GCM_SHA256"@,
        cipher_name(0xC030) == "ECDHE_RSA_WITH_AES_256_GCM_SHA384"@,
{
}

/// Certificates are counted one by one: one that is not empty and lies inside
/// the list adds one, and counting goes on behind it; an empty one, or one that
/// reaches past the list, ends it.
pub proof fn certificates_are_counted(body: Seq<u8>, pos: int, end: int, extra: int)
    requires
        0 <= pos,
        0 <= extra,
        pos + 3 <= end <= body.len(),
    ensures
        ({
            let len = body[pos] * 0x1_0000 + body[pos + 1] * 0x100 + body[pos + 2];
            let next = pos + 3 + len + extra;
            &&& len > 0 && next <= end ==> certs_from(body, pos, end, extra) == 1 + certs_from(
                body,
                next,
                end,
                extra,
            )
            &&& len == 0 || next > end ==> certs_from(body, pos, end, extra) == 0
            &&& certs_from(body, end, end, extra) == 0
        }),
{
}

/// Where the list of certificates stands: behind its length of three bytes, in
/// TLS 1.3 behind a context too, and each certificate there has two bytes of
/// extensions more.
pub proof fn certificate_lists_stand_in_place(body: Seq<u8>)
    requires
        body.len() >= 3,
    ensures
        ({
            let len = body[0] * 0x1_0000 + body[1] * 0x100 + body[2];
            3 + len <= body.len() ==> certs_in(body, false) == certs_from(body, 3, 3 + len, 0)
        }),
        ({
            let at = 1 + body[0] as int;
            let len = body[at] * 0x1_0000 + body[at + 1] * 0x100 + body[at + 2];
            at + 3 <= body.len() ==> certs_in(body, true) == certs_from(
                body,
                at + 3,
                at + 3 + len,
                2,
            )
        }),
{
}

/// Records are read one after the other: a whole one adds what it shows, and
/// reading goes on behind it.
pub proof fn records_are_read_in_turn(f: HandshakeFacts, response: Seq<u8>, at: int)
    requires
        0 <= at,
        at + 5 <= response.len(),
        at + 5 + response[at + 3] * 256 + response[at + 4] <= response.len(),
    ensures
        ({
            let len = response[at + 3] * 256 + response[at + 4];
            with_records(f, response, at) == with_records(
                with_record(f, response[at], response.subrange(at + 5, at + 5 + len)),
                response,
                at + 5 + len,
            )
        }),
        no_facts().server_hello_size == 0 && no_facts().cert_count == 0 && no_facts().version is None
            && no_facts().cipher is None,
{
}

/// The clients that are named are the first that failed and the first that got
/// through; all are counted, once each.
pub proof fn the_first_clients_are_named(
    results: Seq<FingerprintProbeResult>,
    r: Ja4ProbeResult,
    i: int,
)
    requires
        summarized(results, r),
        0 <= i < results.len(),
    ensures
        ({
            let through = |k: int|
                results[k].verdict == TlsFailureCode::HandshakeOk || results[k].verdict
                    == TlsFailureCode::Version13Ok || results[k].verdict
                    == TlsFailureCode::Version12Only;
            &&& r.blocked_count + r.ok_count == results.len()
            &&& r.profiles@ == results
            &&& (through(i) && forall|k: int| 0 <= k < i ==> !#[trigger] through(k)) ==> opt_view(
                r.working_profile,
            ) == Some(results[i].profile_name@)
            &&& (!through(i) && forall|k: int| 0 <= k < i ==> #[trigger] through(k)) ==> opt_view(
                r.blocked_profile,
            ) == Some(results[i].profile_name@)
        }),
{
    let through = |k: int|
        results[k].verdict == TlsFailureCode::HandshakeOk || results[k].verdict
            == TlsFailureCode::Version13Ok || results[k].verdict == TlsFailureCode::Version12Only;
    if through(i) && forall|k: int| 0 <= k < i ==> !#[trigger] through(k) {
        assert(!tls_error(results[i].verdict));
        let n = opt_view(r.working_profile);
        assert(n is Some);
        let j = choose|j: int|
            0 <= j < results.len() && tls_error(#[trigger] results[j].verdict) == false
                && results[j].profile_name@ == n->0 && forall|k: int|
                0 <= k < j ==> tls_error(#[trigger] results[k].verdict) != false;
        assert(through(j));
        assert(j >= i);
        assert(j <= i);
    }
    if !through(i) && forall|k: int| 0 <= k < i ==> #[trigger] through(k) {
        assert(tls_error(results[i].verdict));
        let n = opt_view(r.blocked_profile);
        assert(n is Some);
        let j = choose|j: int|
            0 <= j < results.len() && tls_error(#[trigger] results[j].verdict) == true
                && results[j].profile_name@ == n->0 && forall|k: int|
                0 <= k < j ==> tls_error(#[trigger] results[k].verdict) != true;
        assert(!through(j));
        assert(j >= i);
        assert(j <= i);
    }
}

/// Two digits are read as a number of tens and ones; a plus sign may stand for
/// no tens, and nothing else is a number.
pub proof fn two_digits_are_tens_and_ones(tens: u32, ones: u32, c: char)
    requires
        tens < 10,
        ones < 10,
    ensures
        two_digits(seq![digit(tens as nat), digit(ones as nat)]) == Some((10 * tens + ones) as u32),
        two_digits(seq!['+', digit(ones as nat)]) == Some(ones),
        !('0' <= c <= '9') ==> two_digits(seq![digit(tens as nat), c]) is None,
        !('0' <= c <= '9') && c != '+' ==> two_digits(seq![c, digit(ones as nat)]) is None,
        two_digits(seq![c]) is None,
{
}

/// A fingerprint is written in order: the protocol, whether it names a server, by
/// `d` or `u`, two digits for the cipher suites and two for the extensions, the
/// protocol behind it, and the two hashes, with underscores between.
pub proof fn fingerprints_are_written_in_order(f: Ja4Parts)
    requires
        f.protocol.len() == 3,
        10 <= f.cipher_count < 100,
        10 <= f.ext_count < 100,
        f.alpn.len() == 2,
    ensures
        ({
            let t = ja4_text(f);
            let n = f.cipher_hash.len() as int;
            &&& t.take(3) == f.protocol
            &&& t[3] == 'd' <==> f.sni_present
            &&& t[3] == 'u' <==> !f.sni_present
            &&& (t[4] as int - '0' as int) * 10 + (t[5] as int - '0' as int) == f.cipher_count
            &&& (t[6] as int - '0' as int) * 10 + (t[7] as int - '0' as int) == f.ext_count
            &&& t.subrange(8, 10) == f.alpn
            &&& t[10] == '_' && t[11 + n] == '_'
            &&& t.subrange(11, 11 + n) == f.cipher_hash
            &&& t.skip(12 + n) == f.ext_hash
        }),
{
    reveal_strlit("_");
    reveal_with_fuel(decimal, 2);
    let t = ja4_text(f);
    let n = f.cipher_hash.len() as int;
    let c = decimal(f.cipher_count as nat);
    let e = decimal(f.ext_count as nat);
    assert(c.len() == 2 && e.len() == 2);
    assert(t.take(3) =~= f.protocol);
    assert(t[4] == c[0] && t[5] == c[1] && t[6] == e[0] && t[7] == e[1]);
    assert(c[0] == digit((f.cipher_count / 10) as nat) && c[1] == digit(
        (f.cipher_count % 10) as nat,
    ));
    assert(e[0] == digit((f.ext_count / 10) as nat) && e[1] == digit((f.ext_count % 10) as nat));
    assert(t.subrange(8, 10) =~= f.alpn);
    assert(t.subrange(11, 11 + n) =~= f.cipher_hash);
    assert(t.skip(12 + n) =~= f.ext_hash);
}

/// A ServerHello is sized even where it is cut short; what it has no room for is
/// not read. Other messages leave the ServerHello alone, and a record that does
/// not hold the message it announces adds nothing.
pub proof fn short_server_hellos_are_sized(f: HandshakeFacts, record: Seq<u8>)
    requires
        record.len() >= 4,
    ensures
        ({
            let len = record[1] * 0x1_0000 + record[2] * 0x100 + record[3];
            let g = with_record(f, 22, record);
            &&& 4 + len > record.len() ==> g == f
            &&& 4 + len <= record.len() && record[0] == 2 ==> g.server_hello_size == 4 + len
            &&& 4 + len <= record.len() && record[0] == 2 && len < 2 ==> g.version == f.version
                && g.tls13 == f.tls13
            &&& 4 + len <= record.len() && record[0] == 2 && len <= 36 ==> g.cipher == f.cipher
            &&& record[0] != 2 ==> g.server_hello_size == f.server_hello_size && g.version
                == f.version && g.cipher == f.cipher && g.tls13 == f.tls13
            &&& record[0] != 11 ==> g.cert_count == f.cert_count
            &&& 4 + len <= record.len() && record[0] == 11 ==> g.cert_count == f.cert_count
                + certs_in(record.subrange(4, 4 + len), f.tls13)
        }),
        !no_facts().tls13,
{
}

/// The clients that are imitated are four, each under its own name and with its
/// own greeting; each expects a fingerprint of TLS 1.3 that names a server.
pub proof fn each_client_has_its_own_greeting(p: Seq<TlsFingerprintProfile>, i: int)
    requires
        standard_clients(p),
        0 <= i < 4,
    ensures
        p.len() == 4,
        p[0].build_ch == ClientHelloStyle::Chrome130 && p[0].name@ == "chrome_130"@,
        p[1].build_ch == ClientHelloStyle::Firefox120 && p[1].name@ == "firefox_120"@,
        p[2].build_ch == ClientHelloStyle::Safari17 && p[2].name@ == "safari_17"@,
        p[3].build_ch == ClientHelloStyle::Curl8 && p[3].name@ == "curl_8"@,
        p[i].ja4_expected@.len() == 36,
        p[i].ja4_expected@[0] == 't' && p[i].ja4_expected@[1] == '1' && p[i].ja4_expected@[2] == '3'
            && p[i].ja4_expected@[3] == 'd',
{
    reveal_strlit("t13d1516h2_8daaf6152771_b186095e22b6");
    reveal_strlit("t13d2816h2_4be751f23922_7e0c33c2a5f5");
    reveal_strlit("t13d1216h2_7719d2f23977_5681e26e1a45");
    reveal_strlit("t13d1016h2_4889f7323315_0f23edc22a8b");
}

} // verus!
