//! Tunnels through an HTTPS proxy: requests, status lines, and what to do with
//! connections that turn out to be dead.
use vstd::prelude::*;
use vstd::string::{StringExecFns, StringSliceAdditionalSpecFns};
use vstd::utf8::{decode_utf8, valid_utf8};

use crate::base64::{
    base64_encode, base64_text, bytes_of_sextets, bytes_round_trip, padding, read_sextets, Alphabet,
};
use crate::text::{chars_of, decimal, owned, push_decimal};

verus! {

/// How many connections are kept ready.
pub const MAX_POOL_SIZE: usize = 4;

/// `String::from_utf8`: the text that bytes stand for, where they are valid.
#[verifier::external_body]
fn text_from_utf8(bytes: Vec<u8>) -> (r: Option<String>)
    ensures
        match r {
            Some(s) => valid_utf8(bytes@) && s@ == decode_utf8(bytes@),
            None => !valid_utf8(bytes@),
        },
{
    String::from_utf8(bytes).ok()
}

/// The value of the authorization field for a user name and a password.
pub open spec fn authorization(user: Seq<char>, password: Seq<char>) -> Option<Seq<char>> {
    if user.len() == 0 {
        None
    } else {
        Some(
            "Basic "@ + base64_of(vstd::utf8::encode_utf8(user + ":"@ + password)),
        )
    }
}

/// Bytes in base64, padded.
pub open spec fn base64_of(bytes: Seq<u8>) -> Seq<char> {
    base64_text(bytes, Alphabet::Standard) + padding(bytes.len())
}

/// The value of the authorization field; none without a user name.
pub fn proxy_authorization(user: &str, password: &str) -> (r: Option<String>)
    ensures
        match (r, authorization(user@, password@)) {
            (Some(s), Some(t)) => s@ == t,
            (None, None) => true,
            _ => false,
        },
{
    if chars_of(user).len() == 0 {
        return None;
    }
    let mut creds: String = owned(user);
    creds.append(":");
    creds.append(password);
    let encoded: String = base64_encode(creds.as_str().as_bytes());
    let mut r: String = owned("Basic ");
    r.append(encoded.as_str());
    Some(r)
}

/// Where a tunnel leads, and by which proxy.
#[derive(Debug)]
pub struct OperaTunnel {
    pub proxy_host: String,
    pub proxy_port: u16,
    /// The server name that is shown to onlookers.
    pub fake_sni: String,
    pub auth: Option<String>,
}

/// A host and a port.
pub open spec fn host_and_port(host: Seq<char>, port: u16) -> Seq<char> {
    host + ":"@ + decimal(port as nat)
}

fn target_text(host: &str, port: u16) -> (r: String)
    ensures
        r@ == host_and_port(host@, port),
{
    let mut r: String = owned(host);
    r.append(":");
    push_decimal(&mut r, port as u64);
    r
}

/// A request for a tunnel to a target.
pub open spec fn connect_text(target: Seq<char>, auth: Option<Seq<char>>) -> Seq<char> {
    let head = "CONNECT "@ + target + " HTTP/1.1\r\nHost: "@ + target + "\r\n"@;
    (match auth {
        Some(a) => head + "Proxy-Authorization: "@ + a + "\r\n"@,
        None => head,
    }) + "\r\n"@
}

impl OperaTunnel {
    /// A tunnel through a proxy. Without a user name there is no
    /// authorization.
    pub fn new(
        proxy_host: String,
        proxy_port: u16,
        fake_sni: String,
        proxy_user: &str,
        proxy_pass: &str,
    ) -> (r: OperaTunnel)
        ensures
            r.proxy_host == proxy_host,
            r.proxy_port == proxy_port,
            r.fake_sni == fake_sni,
            crate::text::opt_view(r.auth) == authorization(proxy_user@, proxy_pass@),
    {
        OperaTunnel {
            proxy_host,
            proxy_port,
            fake_sni,
            auth: proxy_authorization(proxy_user, proxy_pass),
        }
    }

    /// The address of the proxy.
    pub fn proxy_address(&self) -> (r: String)
        ensures
            r@ == host_and_port(self.proxy_host@, self.proxy_port),
    {
        target_text(self.proxy_host.as_str(), self.proxy_port)
    }

    /// The request for a tunnel to a target.
    pub fn connect_request(&self, host: &str, port: u16) -> (r: String)
        ensures
            r@ == connect_text(host_and_port(host@, port), crate::text::opt_view(self.auth)),
    {
        let target: String = target_text(host, port);
        let mut r: String = owned("CONNECT ");
        r.append(target.as_str());
        r.append(" HTTP/1.1\r\nHost: ");
        r.append(target.as_str());
        r.append("\r\n");
        if let Some(auth) = &self.auth {
            r.append("Proxy-Authorization: ");
            r.append(auth.as_str());
            r.append("\r\n");
        }
        r.append("\r\n");
        r
    }

    /// What is said of a proxy that answers with another status than 200.
    pub fn refusal(&self, status: u16, host: &str, port: u16) -> (r: String)
        ensures
            r@ == "CONNECT failed: HTTP "@ + decimal(status as nat) + " (target: "@
                + host_and_port(host@, port) + ", proxy: "@ + host_and_port(
                self.proxy_host@,
                self.proxy_port,
            ) + ")"@,
    {
        let mut r: String = owned("CONNECT failed: HTTP ");
        push_decimal(&mut r, status as u64);
        r.append(" (target: ");
        let target: String = target_text(host, port);
        r.append(target.as_str());
        r.append(", proxy: ");
        let proxy: String = self.proxy_address();
        r.append(proxy.as_str());
        r.append(")");
        r
    }
}

/// Whether another connection is made ready.
pub fn wants_warm(ready: usize) -> (r: bool)
    ensures
        r == (ready < MAX_POOL_SIZE),
{
    ready < MAX_POOL_SIZE
}

/// How an attempt to get a tunnel went.
#[derive(Debug, Clone, Copy, PartialEq, Eq, Structural)]
pub enum Attempt {
    /// The proxy answered with a status.
    Answered(u16),
    /// The connection broke.
    Broken,
}

/// What follows an attempt to get a tunnel.
#[derive(Debug, Clone, Copy, PartialEq, Eq, Structural)]
pub enum AfterAttempt {
    /// The tunnel stands.
    Ready,
    /// The proxy refused.
    Refused(u16),
    /// The connection had been kept ready and was dead: one more attempt, over
    /// a fresh one.
    Retry,
    /// The connection broke.
    Failed,
}

/// What follows an attempt to get a tunnel.
pub open spec fn after_attempt(attempt: Attempt, kept_ready: bool) -> AfterAttempt {
    match attempt {
        Attempt::Answered(status) => if status == 200 {
            AfterAttempt::Ready
        } else {
            AfterAttempt::Refused(status)
        },
        Attempt::Broken => if kept_ready {
            AfterAttempt::Retry
        } else {
            AfterAttempt::Failed
        },
    }
}

/// Decides what follows an attempt to get a tunnel.
pub fn judge_attempt(attempt: Attempt, kept_ready: bool) -> (r: AfterAttempt)
    ensures
        r == after_attempt(attempt, kept_ready),
{
    match attempt {
        Attempt::Answered(status) => if status == 200 {
            AfterAttempt::Ready
        } else {
            AfterAttempt::Refused(status)
        },
        Attempt::Broken => if kept_ready {
            AfterAttempt::Retry
        } else {
            AfterAttempt::Failed
        },
    }
}

/// There is at most one more attempt: a fresh connection is never retried.
pub proof fn fresh_connections_are_not_retried(attempt: Attempt)
    ensures
        !(after_attempt(attempt, false) is Retry),
{
}

/// Whether a character is white space.
pub open spec fn blank(c: char) -> bool {
    ('\u{9}' <= c <= '\u{d}') || c == ' ' || c == '\u{85}' || c == '\u{a0}' || c == '\u{1680}' || (
    '\u{2000}' <= c <= '\u{200a}') || c == '\u{2028}' || c == '\u{2029}' || c == '\u{202f}' || c
        == '\u{205f}' || c == '\u{3000}'
}

fn is_blank(c: char) -> (r: bool)
    ensures
        r == blank(c),
{
    (c >= '\u{9}' && c <= '\u{d}') || c == ' ' || c == '\u{85}' || c == '\u{a0}' || c == '\u{1680}'
        || (c >= '\u{2000}' && c <= '\u{200a}') || c == '\u{2028}' || c == '\u{2029}' || c
        == '\u{202f}' || c == '\u{205f}' || c == '\u{3000}'
}

/// The first place at or after `i` that is white space, or that is not,
/// whichever is looked for; the end of the text where there is none.
pub open spec fn run_end(s: Seq<char>, i: int, looking_for_blank: bool) -> int
    decreases s.len() - i,
{
    if i < 0 || i >= s.len() {
        s.len() as int
    } else if blank(s[i]) == looking_for_blank {
        i
    } else {
        run_end(s, i + 1, looking_for_blank)
    }
}

fn find_run_end(s: &Vec<char>, from: usize, looking_for_blank: bool) -> (r: usize)
    requires
        from <= s@.len(),
    ensures
        r == run_end(s@, from as int, looking_for_blank),
        from <= r <= s@.len(),
{
    let mut i: usize = from;
    while i < s.len() && is_blank(s[i]) != looking_for_blank
        invariant
            from <= i <= s@.len(),
            run_end(s@, from as int, looking_for_blank) == run_end(
                s@,
                i as int,
                looking_for_blank,
            ),
        decreases s@.len() - i,
    {
        i = i + 1;
    }
    i
}

/// The second of the words of a text, separated by white space; empty where
/// there are fewer.
pub open spec fn second_word(s: Seq<char>) -> Seq<char> {
    let first = run_end(s, 0, false);
    let gap = run_end(s, first, true);
    let second = run_end(s, gap, false);
    s.subrange(second, run_end(s, second, true))
}

/// Whether a text is made of decimal digits.
pub open spec fn all_digits(s: Seq<char>) -> bool {
    forall|i: int| 0 <= i < s.len() ==> '0' <= #[trigger] s[i] <= '9'
}

/// The number that decimal digits stand for.
pub open spec fn digits_value(s: Seq<char>) -> nat
    decreases s.len(),
{
    if s.len() == 0 {
        0
    } else {
        digits_value(s.drop_last()) * 10 + (s.last() as nat - '0' as nat) as nat
    }
}

/// The number from 0 to 65535 that a text stands for: digits, which a plus
/// sign may precede; none where it is anything else.
pub open spec fn small_number(s: Seq<char>) -> Option<u16> {
    let digits = if s.len() > 0 && s[0] == '+' {
        s.skip(1)
    } else {
        s
    };
    if digits.len() > 0 && all_digits(digits) && digits_value(digits) <= 65535 {
        Some(digits_value(digits) as u16)
    } else {
        None
    }
}

proof fn lemma_digits_grow(s: Seq<char>, n: int)
    requires
        0 <= n <= s.len(),
        all_digits(s),
    ensures
        digits_value(s.take(n)) <= digits_value(s),
    decreases s.len() - n,
{
    if n < s.len() {
        assert(s.take(n + 1).drop_last() =~= s.take(n));
        lemma_digits_grow(s, n + 1);
    } else {
        assert(s.take(n) =~= s);
    }
}

fn parse_small(s: &Vec<char>, from: usize, to: usize) -> (r: Option<u16>)
    requires
        from <= to <= s@.len(),
    ensures
        r == small_number(s@.subrange(from as int, to as int)),
{
    let ghost word: Seq<char> = s@.subrange(from as int, to as int);
    let start: usize = if from < to && s[from] == '+' {
        from + 1
    } else {
        from
    };
    let ghost digits: Seq<char> = s@.subrange(start as int, to as int);
    assert(word.len() > 0 && word[0] == '+' ==> word.skip(1) =~= digits);
    assert(!(word.len() > 0 && word[0] == '+') ==> word =~= digits);
    if start == to {
        return None;
    }
    let mut value: u32 = 0;
    let mut i: usize = start;
    assert(digits.take(0).len() == 0);
    while i < to
        invariant
            start <= i <= to <= s@.len(),
            digits == s@.subrange(start as int, to as int),
            word == s@.subrange(from as int, to as int),
            forall|k: int| 0 <= k < i - start ==> '0' <= #[trigger] digits[k] <= '9',
            value == digits_value(digits.take(i - start)),
            value <= 65535,
            small_number(word) == (if all_digits(digits) && digits_value(digits) <= 65535 {
                Some(digits_value(digits) as u16)
            } else {
                None
            }),
        decreases to - i,
    {
        let c: char = s[i];
        assert(c == digits[i - start]);
        if c < '0' || c > '9' {
            assert(!all_digits(digits));
            return None;
        }
        proof {
            assert(digits.take(i - start + 1).drop_last() =~= digits.take(i - start));
        }
        value = value * 10 + (c as u32 - '0' as u32);
        i = i + 1;
        if value > 65535 {
            proof {
                if all_digits(digits) {
                    lemma_digits_grow(digits, i - start);
                }
            }
            return None;
        }
    }
    assert(digits.take(i - start) =~= digits);
    Some(value as u16)
}

/// The status of a response: the second word of its first line, where that is
/// a number; zero where it is not.
pub open spec fn status_of(line: Seq<char>) -> u16 {
    match small_number(second_word(line)) {
        Some(n) => n,
        None => 0,
    }
}

/// Reads the status of a response out of its first line.
pub fn status_code(line: &str) -> (r: u16)
    ensures
        r == status_of(line@),
{
    let chars: Vec<char> = chars_of(line);
    let first: usize = find_run_end(&chars, 0, false);
    let gap: usize = find_run_end(&chars, first, true);
    let second: usize = find_run_end(&chars, gap, false);
    let end: usize = find_run_end(&chars, second, true);
    match parse_small(&chars, second, end) {
        Some(n) => n,
        None => 0,
    }
}

/// Reads a response line by line, one byte at a time.
#[derive(Debug)]
pub struct LineReader {
    line: Vec<u8>,
}

/// What a byte did to a line.
#[derive(Debug, Clone)]
pub enum LineStep {
    /// The line goes on.
    More,
    /// The line has ended.
    Line(String),
    /// The line has ended and is no text.
    NotText,
}

impl LineReader {
    /// The bytes of the line so far.
    pub closed spec fn so_far(&self) -> Seq<u8> {
        self.line@
    }

    /// At the start of a line.
    pub fn new() -> (r: LineReader)
        ensures
            r.so_far() == Seq::<u8>::empty(),
    {
        LineReader { line: Vec::new() }
    }

    /// Takes a byte: a line feed ends the line, a carriage return is left
    /// out.
    pub fn push(&mut self, byte: u8) -> (r: LineStep)
        ensures
            final(self).so_far() == (if byte == 10 {
                Seq::<u8>::empty()
            } else if byte == 13 {
                old(self).so_far()
            } else {
                old(self).so_far().push(byte)
            }),
            match r {
                LineStep::More => byte != 10,
                LineStep::Line(s) => byte == 10 && valid_utf8(old(self).so_far()) && s@
                    == decode_utf8(old(self).so_far()),
                LineStep::NotText => byte == 10 && !valid_utf8(old(self).so_far()),
            },
    {
        if byte == 10 {
            let mut line: Vec<u8> = Vec::new();
            std::mem::swap(&mut line, &mut self.line);
            return match text_from_utf8(line) {
                Some(s) => LineStep::Line(s),
                None => LineStep::NotText,
            };
        }
        if byte != 13 {
            self.line.push(byte);
        }
        LineStep::More
    }
}

/// Whether a line ends the head of a response.
pub fn ends_head(line: &str) -> (r: bool)
    ensures
        r == (line@.len() == 0),
{
    chars_of(line).len() == 0
}

proof fn lemma_run_end_is(s: Seq<char>, i: int, j: int, looking_for_blank: bool)
    requires
        0 <= i <= j <= s.len(),
        forall|k: int| i <= k < j ==> blank(#[trigger] s[k]) != looking_for_blank,
        j < s.len() ==> blank(s[j]) == looking_for_blank,
    ensures
        run_end(s, i, looking_for_blank) == j,
    decreases j - i,
{
    if i < j {
        lemma_run_end_is(s, i + 1, j, looking_for_blank);
    }
}

/// A number is read back from its decimal form, which is made of digits alone.
pub proof fn numbers_are_read_back(n: nat)
    ensures
        digits_value(decimal(n)) == n,
        all_digits(decimal(n)),
        decimal(n).len() > 0,
    decreases n,
{
    if n >= 10 {
        numbers_are_read_back(n / 10);
        assert(decimal(n).drop_last() =~= decimal(n / 10));
    } else {
        assert(decimal(n).drop_last() =~= Seq::<char>::empty());
        assert(digits_value(decimal(n).drop_last()) == 0);
    }
}

/// A status is read back from a status line, whatever its version and its
/// reason.
pub proof fn statuses_are_read_back(version: Seq<char>, status: u16, reason: Seq<char>)
    requires
        version.len() > 0,
        forall|i: int| 0 <= i < version.len() ==> !blank(#[trigger] version[i]),
    ensures
        status_of(version + seq![' '] + decimal(status as nat) + seq![' '] + reason) == status,
        status_of(version + seq![' '] + decimal(status as nat)) == status,
        status_of(version) == 0,
{
    let d = decimal(status as nat);
    numbers_are_read_back(status as nat);
    let n = version.len() as int;
    let m = d.len() as int;
    assert forall|s: Seq<char>|
        s.len() >= n + 1 + m && s.take(n + 1 + m) == version + seq![' '] + d && (s.len() == n + 1
            + m || s[n + 1 + m] == ' ') implies #[trigger] status_of(s) == status by {
        let t = version + seq![' '] + d;
        assert forall|k: int| 0 <= k < n + 1 + m implies s[k] == t[k] by {
            assert(s.take(n + 1 + m)[k] == s[k]);
        }
        assert(s[0] == version[0]);
        lemma_run_end_is(s, 0, 0, false);
        assert forall|k: int| 0 <= k < n implies blank(#[trigger] s[k]) != true by {
            assert(s[k] == version[k]);
        }
        assert(s[n] == ' ');
        lemma_run_end_is(s, 0, n, true);
        assert(s[n + 1] == d[0]);
        assert('0' <= d[0] <= '9');
        lemma_run_end_is(s, n, n + 1, false);
        assert forall|k: int| n + 1 <= k < n + 1 + m implies blank(#[trigger] s[k]) != true by {
            assert(s[k] == d[k - n - 1]);
        }
        lemma_run_end_is(s, n + 1, n + 1 + m, true);
        assert(second_word(s) =~= d);
    }
    let whole = version + seq![' '] + d + seq![' '] + reason;
    assert(whole.take(n + 1 + m) =~= version + seq![' '] + d);
    let short = version + seq![' '] + d;
    assert(short.take(n + 1 + m) =~= short);
    lemma_run_end_is(version, 0, 0, false);
    lemma_run_end_is(version, 0, n, true);
    lemma_run_end_is(version, n, n, false);
    lemma_run_end_is(version, n, n, true);
    assert(second_word(version).len() == 0);
}

/// What is no number gives no status: a word with another character than
/// digits, behind an optional plus sign, or one that is too large.
pub proof fn other_words_are_no_status(word: Seq<char>, i: int)
    requires
        0 <= i < word.len(),
        !('0' <= word[i] <= '9'),
        i == 0 ==> word[0] != '+',
    ensures
        small_number(word) is None,
{
    if word[0] == '+' {
        assert(word.skip(1)[i - 1] == word[i]);
    }
}

/// The spaces that separate words are those of ASCII and the others that the
/// character tables call white space; digits and letters are none.
pub proof fn words_are_separated_by_space(c: char)
    ensures
        c == ' ' || c == '\t' || c == '\r' || c == '\n' ==> blank(c),
        '!' <= c <= '~' ==> !blank(c),
{
}

/// What follows an attempt, for every attempt: a tunnel only on a status of 200,
/// another status is passed on, and a break is retried only over a connection
/// that had been kept ready.
pub proof fn attempts_are_judged_exactly_so(status: u16, kept_ready: bool)
    ensures
        after_attempt(Attempt::Answered(status), kept_ready) == AfterAttempt::Ready <==> status
            == 200,
        status != 200 ==> after_attempt(Attempt::Answered(status), kept_ready)
            == AfterAttempt::Refused(status),
        after_attempt(Attempt::Broken, true) == AfterAttempt::Retry,
        after_attempt(Attempt::Broken, false) == AfterAttempt::Failed,
{
}

/// A request names its target twice, in its first line and as its host, shows
/// the authorization only where there is one, and ends in an empty line.
pub proof fn requests_name_their_target(target: Seq<char>, auth: Seq<char>)
    ensures
        connect_text(target, None) == "CONNECT "@ + target + " HTTP/1.1\r\nHost: "@ + target
            + "\r\n\r\n"@,
        connect_text(target, Some(auth)) == "CONNECT "@ + target + " HTTP/1.1\r\nHost: "@ + target
            + "\r\nProxy-Authorization: "@ + auth + "\r\n\r\n"@,
{
    reveal_strlit("\r\n");
    reveal_strlit("\r\n\r\n");
    reveal_strlit("Proxy-Authorization: ");
    reveal_strlit("\r\nProxy-Authorization: ");
    assert("\r\n"@ + "\r\n"@ =~= "\r\n\r\n"@);
    assert("\r\n"@ + "Proxy-Authorization: "@ =~= "\r\nProxy-Authorization: "@);
    assert(connect_text(target, None) =~= "CONNECT "@ + target + " HTTP/1.1\r\nHost: "@ + target
        + ("\r\n"@ + "\r\n"@));
    assert(connect_text(target, Some(auth)) =~= "CONNECT "@ + target + " HTTP/1.1\r\nHost: "@
        + target + ("\r\n"@ + "Proxy-Authorization: "@) + auth + ("\r\n"@ + "\r\n"@));
}

/// The authorization holds the user name and the password: without a user name
/// there is none, and otherwise its Base64 part reads back as both, with a colon
/// between.
pub proof fn authorizations_are_read_back(user: Seq<char>, password: Seq<char>)
    ensures
        authorization(user, password) is None <==> user.len() == 0,
        user.len() > 0 ==> {
            let a = authorization(user, password)->0;
            &&& a.take(6) == "Basic "@
            &&& bytes_of_sextets(read_sextets(a.skip(6))) == vstd::utf8::encode_utf8(
                user + ":"@ + password,
            )
        },
{
    if user.len() > 0 {
        let b = vstd::utf8::encode_utf8(user + ":"@ + password);
        let a = authorization(user, password)->0;
        reveal_strlit("Basic ");
        bytes_round_trip(b);
        assert(a.take(6) =~= "Basic "@);
        assert(a.skip(6) =~= base64_text(b, Alphabet::Standard) + padding(b.len()));
    }
}

proof fn lemma_run_end_shift(c: char, s: Seq<char>, i: int, looking_for_blank: bool)
    requires
        0 <= i <= s.len(),
    ensures
        run_end(seq![c] + s, i + 1, looking_for_blank) == run_end(s, i, looking_for_blank) + 1,
    decreases s.len() - i,
{
    if i < s.len() {
        assert((seq![c] + s)[i + 1] == s[i]);
        if blank(s[i]) != looking_for_blank {
            lemma_run_end_shift(c, s, i + 1, looking_for_blank);
        }
    }
}

proof fn lemma_run_end_range(s: Seq<char>, i: int, looking_for_blank: bool)
    requires
        0 <= i <= s.len(),
    ensures
        i <= run_end(s, i, looking_for_blank) <= s.len(),
    decreases s.len() - i,
{
    if i < s.len() {
        lemma_run_end_range(s, i + 1, looking_for_blank);
    }
}

/// White space before a status line does not count.
pub proof fn leading_space_does_not_count(c: char, line: Seq<char>)
    requires
        blank(c),
    ensures
        status_of(seq![c] + line) == status_of(line),
{
    let s = seq![c] + line;
    let first = run_end(line, 0, false);
    lemma_run_end_range(line, 0, false);
    let gap = run_end(line, first, true);
    lemma_run_end_range(line, first, true);
    let second = run_end(line, gap, false);
    lemma_run_end_range(line, gap, false);
    lemma_run_end_range(line, second, true);
    lemma_run_end_shift(c, line, 0, false);
    assert(s[0] == c);
    assert(run_end(s, 0, false) == first + 1);
    lemma_run_end_shift(c, line, first, true);
    lemma_run_end_shift(c, line, gap, false);
    lemma_run_end_shift(c, line, second, true);
    assert(second_word(s) =~= second_word(line));
}

} // verus!
