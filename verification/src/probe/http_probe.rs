//! Judging an HTTP response.
use vstd::prelude::*;

use crate::probe::classifier::HttpFailureCode;
use crate::text::{chars_of, contains, copy_text, find_char, find_place, index_of, occurs, opt_view, owned, place_of, stands, stands_at};
use crate::wire::{copy_range, push_all};

verus! {

/// What an HTTP probe found.
#[derive(Debug, Clone)]
pub struct HttpProbeResult {
    pub verdict: HttpFailureCode,
    pub bytes_read: u64,
    pub redirect_url: Option<String>,
    pub latency_us: u64,
    pub status_code: u16,
    /// The size of the response headers in bytes.
    pub headers_size: u64,
    /// The time to the first byte in microseconds; zero if there was none.
    pub first_byte_rtt_us: u64,
    /// The time to the end of the response in microseconds.
    pub total_rtt_us: u64,
}

impl Default for HttpProbeResult {
    fn default() -> (r: HttpProbeResult)
        ensures
            r.verdict == HttpFailureCode::HttpOk,
            r.bytes_read == 0,
            r.redirect_url is None,
            r.latency_us == 0,
            r.status_code == 0,
            r.headers_size == 0,
            r.first_byte_rtt_us == 0,
            r.total_rtt_us == 0,
    {
        HttpProbeResult {
            verdict: HttpFailureCode::HttpOk,
            bytes_read: 0,
            redirect_url: None,
            latency_us: 0,
            status_code: 0,
            headers_size: 0,
            first_byte_rtt_us: 0,
            total_rtt_us: 0,
        }
    }
}

/// One header field.
#[derive(Debug, Clone)]
pub struct HeaderField {
    pub name: Vec<u8>,
    pub value: Vec<u8>,
}

/// The bytes of header fields on the wire: name, two, value, two.
pub open spec fn fields_size(h: Seq<HeaderField>) -> nat
    decreases h.len(),
{
    if h.len() == 0 {
        0
    } else {
        fields_size(h.drop_last()) + h.last().name@.len() + h.last().value@.len() + 4
    }
}

/// The approximate size of response headers: a status line of fifteen bytes,
/// the fields, and an empty line.
pub fn compute_headers_size(headers: &[HeaderField]) -> (r: u64)
    requires
        fields_size(headers@) + 17 <= u64::MAX,
    ensures
        r == fields_size(headers@) + 17,
{
    let mut size: u64 = 15;
    let mut i: usize = 0;
    assert(headers@.take(0).len() == 0);
    while i < headers.len()
        invariant
            i <= headers@.len(),
            size == 15 + fields_size(headers@.take(i as int)),
            fields_size(headers@) + 17 <= u64::MAX,
        decreases headers@.len() - i,
    {
        proof {
            assert(headers@.take(i + 1).drop_last() =~= headers@.take(i as int));
            lemma_fields_size_grows(headers@, i + 1);
        }
        size = size + headers[i].name.len() as u64 + 2;
        size = size + headers[i].value.len() as u64 + 2;
        i = i + 1;
    }
    assert(headers@.take(i as int) =~= headers@);
    size + 2
}

proof fn lemma_fields_size_grows(h: Seq<HeaderField>, n: int)
    requires
        0 <= n <= h.len(),
    ensures
        fields_size(h.take(n)) <= fields_size(h),
    decreases h.len() - n,
{
    if n < h.len() {
        assert(h.take(n + 1).drop_last() =~= h.take(n));
        lemma_fields_size_grows(h, n + 1);
    } else {
        assert(h.take(n) =~= h);
    }
}

/// The host of an absolute address: what stands between the first `://` and
/// the next slash or `://`. Empty where there is no `://`.
pub open spec fn host_of(url: Seq<char>) -> Seq<char> {
    let at = place_of(url, "://"@);
    if at >= url.len() {
        Seq::empty()
    } else {
        let rest = url.subrange(at + 3, url.len() as int);
        let part = rest.take(place_of(rest, "://"@));
        part.take(index_of(part, '/'))
    }
}

/// Whether a redirect stays with a domain: its address names the domain, or
/// the domain ends with its host.
pub open spec fn stays_with(url: Seq<char>, domain: Seq<char>) -> bool {
    occurs(url, domain) || stands_at(domain, host_of(url), domain.len() - host_of(url).len())
}

/// Whether a redirect stays with a domain.
pub fn is_same_site(url: &str, domain: &str) -> (r: bool)
    ensures
        r == stays_with(url@, domain@),
{
    if contains(url, domain) {
        return true;
    }
    let chars: Vec<char> = chars_of(url);
    let scheme_end: Vec<char> = chars_of("://");
    proof {
        reveal_strlit("://");
    }
    let at: usize = find_place(&chars, &scheme_end);
    let mut host: Vec<char> = Vec::new();
    if at < chars.len() {
        let mut rest: Vec<char> = Vec::new();
        let mut i: usize = at + 3;
        while i < chars.len()
            invariant
                at + 3 <= i <= chars@.len(),
                rest@ == chars@.subrange(at + 3, i as int),
            decreases chars@.len() - i,
        {
            rest.push(chars[i]);
            i = i + 1;
            assert(rest@ =~= chars@.subrange(at + 3, i as int));
        }
        let end: usize = find_place(&rest, &scheme_end);
        let mut part: Vec<char> = Vec::new();
        let mut j: usize = 0;
        while j < end
            invariant
                j <= end <= rest@.len(),
                part@ == rest@.take(j as int),
            decreases end - j,
        {
            part.push(rest[j]);
            j = j + 1;
            assert(part@ =~= rest@.take(j as int));
        }
        let cut: usize = find_char(&part, '/', 0);
        assert(part@.subrange(0, part@.len() as int) =~= part@);
        let mut k: usize = 0;
        while k < cut
            invariant
                k <= cut <= part@.len(),
                host@ == part@.take(k as int),
            decreases cut - k,
        {
            host.push(part[k]);
            k = k + 1;
            assert(host@ =~= part@.take(k as int));
        }
    }
    assert(host@ =~= host_of(url@));
    let d: Vec<char> = chars_of(domain);
    if host.len() > d.len() {
        return false;
    }
    stands(&d, &host, d.len() - host.len())
}

/// What is kept of a body that came in parts: its first bytes, at most `max`.
pub open spec fn kept(body: Seq<u8>, max: nat) -> Seq<u8> {
    body.take(if body.len() <= max {
        body.len() as int
    } else {
        max as int
    })
}

/// Adds a part to a body of which at most `max` bytes are read. Says whether
/// more is to be read.
pub fn add_part(body: &mut Vec<u8>, part: &[u8], max: usize) -> (r: bool)
    requires
        old(body)@.len() <= max,
    ensures
        final(body)@ == kept(old(body)@ + part@, max as nat),
        r == (final(body)@.len() < max),
{
    let room: usize = max - body.len();
    if part.len() <= room {
        push_all(body, part);
    } else {
        let head: Vec<u8> = copy_range(part, 0, room);
        push_all(body, head.as_slice());
    }
    assert(body@ =~= kept(old(body)@ + part@, max as nat));
    body.len() < max
}

/// A body is the same however it is cut into parts: adding two parts keeps what
/// adding them at once would.
pub proof fn parts_add_up(body: Seq<u8>, a: Seq<u8>, b: Seq<u8>, max: nat)
    requires
        body.len() <= max,
    ensures
        kept(kept(body + a, max) + b, max) == kept(body + (a + b), max),
{
    assert(kept(kept(body + a, max) + b, max) =~= kept(body + (a + b), max));
}

/// How reading a response body went.
#[derive(Debug, Clone, Copy)]
pub enum BodyOutcome {
    /// The body was read: its length, whether it is a block page, and when it
    /// was complete.
    Read { len: u64, is_stub: bool, total_us: u64 },
    /// Reading failed, and when.
    Failed { total_us: u64 },
}

/// What came back to a request.
#[derive(Debug, Clone)]
pub enum HttpExchange {
    /// Nothing in time; the time allowed.
    TimedOut { allowed_us: u64 },
    /// The request failed, and when.
    Failed { elapsed_us: u64 },
    Response {
        status: u16,
        headers_size: u64,
        /// The `location` field.
        location: Option<String>,
        first_byte_us: u64,
        /// The body; read only where status and location do not decide.
        body: Option<BodyOutcome>,
    },
}

/// Whether a response is a redirect with a target.
pub open spec fn redirects(status: u16, location: Option<String>) -> bool {
    300 <= status < 400 && location is Some
}

/// Whether the body of a response has to be read.
pub open spec fn body_matters(status: u16, location: Option<String>) -> bool {
    status != 451 && !redirects(status, location)
}

/// Whether the body of a response has to be read.
pub fn needs_body(status: u16, location: &Option<String>) -> (r: bool)
    ensures
        r == body_matters(status, *location),
{
    status != 451 && !(300 <= status && status < 400 && location.is_some())
}

/// The verdict on a response whose body was read.
pub open spec fn body_verdict(status: u16, len: u64, is_stub: bool) -> HttpFailureCode {
    if is_stub {
        HttpFailureCode::StubPage
    } else if len < 1000 && status == 200 {
        HttpFailureCode::Cutoff
    } else {
        HttpFailureCode::HttpOk
    }
}

/// What an exchange says about a domain.
pub open spec fn judged(e: HttpExchange, domain: Seq<char>, r: HttpProbeResult) -> bool {
    match e {
        HttpExchange::TimedOut { allowed_us } => {
            &&& r.verdict == HttpFailureCode::Timeout
            &&& r.latency_us == allowed_us
            &&& r.bytes_read == 0
            &&& r.redirect_url is None
            &&& r.status_code == 0
            &&& r.headers_size == 0
            &&& r.first_byte_rtt_us == 0
            &&& r.total_rtt_us == 0
        },
        HttpExchange::Failed { elapsed_us } => {
            &&& r.verdict == HttpFailureCode::Timeout
            &&& r.latency_us == elapsed_us
            &&& r.bytes_read == 0
            &&& r.redirect_url is None
            &&& r.status_code == 0
            &&& r.headers_size == 0
            &&& r.first_byte_rtt_us == 0
            &&& r.total_rtt_us == 0
        },
        HttpExchange::Response { status, headers_size, location, first_byte_us, body } => {
            &&& r.latency_us == first_byte_us
            &&& r.first_byte_rtt_us == first_byte_us
            &&& r.status_code == status
            &&& r.headers_size == headers_size
            &&& if status == 451 {
                &&& r.verdict == HttpFailureCode::Http451
                &&& r.bytes_read == 0
                &&& r.redirect_url is None
                &&& r.total_rtt_us == first_byte_us
            } else if redirects(status, location) {
                &&& r.verdict == (if stays_with(location->0@, domain) {
                    HttpFailureCode::RedirectSame
                } else {
                    HttpFailureCode::RedirectForeign
                })
                &&& r.bytes_read == 0
                &&& opt_view(r.redirect_url) == opt_view(location)
                &&& r.total_rtt_us == first_byte_us
            } else {
                &&& r.redirect_url is None
                &&& match body->0 {
                    BodyOutcome::Read { len, is_stub, total_us } => {
                        &&& r.verdict == body_verdict(status, len, is_stub)
                        &&& r.bytes_read == len
                        &&& r.total_rtt_us == total_us
                    },
                    BodyOutcome::Failed { total_us } => {
                        &&& r.verdict == HttpFailureCode::Cutoff
                        &&& r.bytes_read == 0
                        &&& r.total_rtt_us == total_us
                    },
                }
            }
        },
    }
}

fn no_response(latency_us: u64) -> (r: HttpProbeResult)
    ensures
        r.verdict == HttpFailureCode::Timeout,
        r.latency_us == latency_us,
        r.bytes_read == 0,
        r.redirect_url is None,
        r.status_code == 0,
        r.headers_size == 0,
        r.first_byte_rtt_us == 0,
        r.total_rtt_us == 0,
{
    HttpProbeResult {
        verdict: HttpFailureCode::Timeout,
        bytes_read: 0,
        redirect_url: None,
        latency_us,
        status_code: 0,
        headers_size: 0,
        first_byte_rtt_us: 0,
        total_rtt_us: 0,
    }
}

/// Judges an exchange.
pub fn judge(e: &HttpExchange, domain: &str) -> (r: HttpProbeResult)
    requires
        *e matches HttpExchange::Response { status, location, body, .. } ==> (body_matters(
            status,
            location,
        ) ==> body is Some),
    ensures
        judged(*e, domain@, r),
{
    match e {
        HttpExchange::TimedOut { allowed_us } => no_response(*allowed_us),
        HttpExchange::Failed { elapsed_us } => no_response(*elapsed_us),
        HttpExchange::Response { status, headers_size, location, first_byte_us, body } => {
            let mut verdict: HttpFailureCode = HttpFailureCode::Http451;
            let mut bytes_read: u64 = 0;
            let mut redirect_url: Option<String> = None;
            let mut total_rtt_us: u64 = *first_byte_us;
            if *status != 451 {
                if !needs_body(*status, location) {
                    if let Some(target) = location {
                        verdict = if is_same_site(target.as_str(), domain) {
                            HttpFailureCode::RedirectSame
                        } else {
                            HttpFailureCode::RedirectForeign
                        };
                        redirect_url = copy_text(location);
                    }
                } else {
                    match body.unwrap() {
                        BodyOutcome::Read { len, is_stub, total_us } => {
                            verdict = if is_stub {
                                HttpFailureCode::StubPage
                            } else if len < 1000 && *status == 200 {
                                HttpFailureCode::Cutoff
                            } else {
                                HttpFailureCode::HttpOk
                            };
                            bytes_read = len;
                            total_rtt_us = total_us;
                        },
                        BodyOutcome::Failed { total_us } => {
                            verdict = HttpFailureCode::Cutoff;
                            total_rtt_us = total_us;
                        },
                    }
                }
            }
            HttpProbeResult {
                verdict,
                bytes_read,
                redirect_url,
                latency_us: *first_byte_us,
                status_code: *status,
                headers_size: *headers_size,
                first_byte_rtt_us: *first_byte_us,
                total_rtt_us,
            }
        },
    }
}

/// The address that is asked for.
pub fn probe_url(domain: &str) -> (r: String)
    ensures
        r@ == "https://"@ + domain@ + "/"@,
{
    let mut r: String = owned("https://");
    vstd::string::StringExecFns::append(&mut r, domain);
    vstd::string::StringExecFns::append(&mut r, "/");
    r
}

/// A redirect without `://` stays with every domain.
pub proof fn relative_redirect_stays(url: Seq<char>, domain: Seq<char>)
    requires
        !occurs(url, "://"@),
    ensures
        stays_with(url, domain),
{
    reveal_strlit("://");
    crate::text::lemma_place_of_none(url, "://"@);
    assert(domain.subrange(domain.len() as int, domain.len() as int) =~= Seq::<char>::empty());
}

/// What a response means: status 451 is a legal block; a redirect is one within
/// the domain or away from it; else the body tells: a block page, one of under a
/// thousand bytes to a successful request is cut off, and so is one that could
/// not be read; any other is well. The first match counts.
pub proof fn responses_are_told_in_order(e: HttpExchange, domain: Seq<char>, r: HttpProbeResult)
    requires
        judged(e, domain, r),
        e is Response,
    ensures
        ({
            let status = e->status;
            let redirect = status != 451 && 300 <= status < 400 && e->location is Some;
            let read = status != 451 && !redirect;
            &&& r.status_code == status
            &&& r.headers_size == e->headers_size
            &&& r.latency_us == e->first_byte_us && r.first_byte_rtt_us == e->first_byte_us
            &&& r.verdict == HttpFailureCode::Http451 <==> status == 451
            &&& r.verdict == HttpFailureCode::RedirectSame <==> redirect && stays_with(
                e->location->0@,
                domain,
            )
            &&& r.verdict == HttpFailureCode::RedirectForeign <==> redirect && !stays_with(
                e->location->0@,
                domain,
            )
            &&& redirect ==> opt_view(r.redirect_url) == Some(e->location->0@)
            &&& !redirect ==> r.redirect_url is None
            &&& !read ==> r.bytes_read == 0 && r.total_rtt_us == e->first_byte_us
            &&& read && e->body is Some ==> match e->body->0 {
                BodyOutcome::Read { len, is_stub, total_us } => {
                    &&& r.bytes_read == len
                    &&& r.total_rtt_us == total_us
                    &&& r.verdict == HttpFailureCode::StubPage <==> is_stub
                    &&& r.verdict == HttpFailureCode::Cutoff <==> !is_stub && len < 1000 && status
                        == 200
                    &&& r.verdict == HttpFailureCode::HttpOk <==> !is_stub && (len >= 1000 || status
                        != 200)
                },
                BodyOutcome::Failed { total_us } => {
                    &&& r.verdict == HttpFailureCode::Cutoff
                    &&& r.bytes_read == 0
                    &&& r.total_rtt_us == total_us
                },
            }
            &&& r.verdict != HttpFailureCode::Timeout
        }),
{
}

/// No response is a timeout, whether it took too long or failed, and nothing
/// was read.
pub proof fn no_response_is_a_timeout(e: HttpExchange, domain: Seq<char>, r: HttpProbeResult)
    requires
        judged(e, domain, r),
        !(e is Response),
    ensures
        r.verdict == HttpFailureCode::Timeout,
        r.bytes_read == 0 && r.status_code == 0 && r.headers_size == 0,
        r.redirect_url is None,
        e matches HttpExchange::TimedOut { allowed_us } ==> r.latency_us == allowed_us,
        e matches HttpExchange::Failed { elapsed_us } ==> r.latency_us == elapsed_us,
{
}

/// The body is read exactly where neither status 451 nor a redirect with a
/// target decides.
pub proof fn bodies_are_read_where_they_decide(status: u16, location: Option<String>)
    ensures
        body_matters(status, location) <==> status != 451 && !(300 <= status <= 399
            && location is Some),
{
}

/// A redirect stays with a domain where its address names the domain anywhere,
/// or leads to a host that the domain ends with; one to a host behind `https://`
/// that the domain does not end with, and that does not name the domain, leads
/// away.
pub proof fn foreign_hosts_lead_away(host: Seq<char>, path: Seq<char>, domain: Seq<char>)
    requires
        forall|i: int| 0 <= i < host.len() ==> host[i] != '/' && host[i] != ':',
        forall|i: int| 0 <= i < path.len() ==> path[i] != ':',
        !occurs("https://"@ + host + seq!['/'] + path, domain),
    ensures
        stays_with("https://"@ + host + seq!['/'] + path, domain) <==> host.len() <= domain.len()
            && domain.subrange(domain.len() - host.len(), domain.len() as int) == host,
{
    reveal_strlit("https://");
    reveal_strlit("://");
    let url = "https://"@ + host + seq!['/'] + path;
    let needle = "://"@;
    assert(url.subrange(5, 8) =~= needle);
    assert(crate::text::stands_at(url, needle, 5));
    assert forall|j: int| 0 <= j < 5 implies !crate::text::stands_at(url, needle, j) by {
        if crate::text::stands_at(url, needle, j) {
            assert(url.subrange(j, j + 3)[0] == needle[0]);
            assert(url[j] == ':');
            assert("https://"@[j] == url[j]);
        }
    }
    crate::text::lemma_place_of_first(url, needle, 5);
    let rest = url.subrange(8, url.len() as int);
    assert(rest =~= host + seq!['/'] + path);
    assert forall|j: int| !crate::text::stands_at(rest, needle, j) by {
        if crate::text::stands_at(rest, needle, j) {
            assert(rest.subrange(j, j + 3)[0] == needle[0]);
            assert(rest[j] == ':');
        }
    }
    crate::text::lemma_place_of_none(rest, needle);
    assert(rest.take(rest.len() as int) =~= rest);
    crate::text::lemma_index_of_is(rest, '/', host.len() as int);
    assert(rest.take(host.len() as int) =~= host);
    assert(host_of(url) == host);
    assert(domain.len() - host.len() + host.len() == domain.len());
}

} // verus!
