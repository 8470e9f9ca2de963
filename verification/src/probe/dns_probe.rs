//! Checking name resolution by asking twice: over plain UDP and over HTTPS.
use vstd::prelude::*;
use vstd::string::{StringExecFns, StringSliceAdditionalSpecFns};

use crate::base64::{base64_text, base64url_encode, Alphabet};
use crate::probe::classifier::DnsFailureCode;
use crate::wire::{be16, be16_bytes, be32_bytes, push_all, push_be16};

verus! {

/// What a DNS probe found. Addresses are numbers in network order.
#[derive(Debug, Clone)]
pub struct DnsProbeResult {
    pub verdict: DnsFailureCode,
    pub resolved_ips: Vec<u32>,
    pub udp_ips: Vec<u32>,
    pub doh_ips: Vec<u32>,
    pub latency_us: u64,
    /// Whether a resolved address is a stand-in.
    pub fake_ip_detected: bool,
    /// The fastest UDP answer in microseconds; zero if there was none.
    pub udp_rtt_us: u64,
    /// The fastest DoH answer in microseconds; zero if there was none.
    pub doh_rtt_us: u64,
    /// The largest UDP answer in bytes.
    pub udp_response_size: usize,
    /// The largest DoH answer in bytes.
    pub doh_response_size: usize,
}

impl Default for DnsProbeResult {
    fn default() -> (r: DnsProbeResult)
        ensures
            r.verdict == DnsFailureCode::DnsOk,
            r.resolved_ips@.len() == 0,
            r.udp_ips@.len() == 0,
            r.doh_ips@.len() == 0,
            r.latency_us == 0,
            !r.fake_ip_detected,
            r.udp_rtt_us == 0,
            r.doh_rtt_us == 0,
            r.udp_response_size == 0,
            r.doh_response_size == 0,
    {
        DnsProbeResult {
            verdict: DnsFailureCode::DnsOk,
            resolved_ips: Vec::new(),
            udp_ips: Vec::new(),
            doh_ips: Vec::new(),
            latency_us: 0,
            fake_ip_detected: false,
            udp_rtt_us: 0,
            doh_rtt_us: 0,
            udp_response_size: 0,
            doh_response_size: 0,
        }
    }
}

/// What one UDP query came to.
#[derive(Debug, Clone)]
pub enum UdpDnsResult {
    /// Addresses, the time in microseconds and the size of the response.
    Answer(Vec<u32>, u64, usize),
    /// The name does not exist; the size of the response.
    Nxdomain(usize),
    /// A response without addresses; its size.
    EmptyResponse(usize),
    /// No response in time.
    Timeout,
    /// Anything else.
    Error,
}

/// What one DoH query came to.
#[derive(Debug, Clone)]
pub struct DohDnsResult {
    pub ips: Vec<u32>,
    pub latency_us: u64,
    pub size: usize,
}

// ---- judging ----
/// Whether two lists have an address in common.
pub open spec fn overlap(a: Seq<u32>, b: Seq<u32>) -> bool {
    exists|i: int| 0 <= i < a.len() && b.contains(#[trigger] a[i])
}

/// What the addresses from both sides say about name resolution.
pub open spec fn resolution_verdict(
    udp: Seq<u32>,
    doh: Seq<u32>,
    any_timeout: bool,
    any_nxdomain: bool,
) -> DnsFailureCode {
    if doh.len() > 0 && udp.len() > 0 {
        if overlap(udp, doh) {
            DnsFailureCode::DnsOk
        } else {
            DnsFailureCode::Poisoned
        }
    } else if doh.len() > 0 {
        if any_nxdomain {
            DnsFailureCode::NxdomainSpoof
        } else if any_timeout {
            DnsFailureCode::Intercepted
        } else {
            DnsFailureCode::EmptySpoof
        }
    } else if udp.len() == 0 && any_nxdomain && !any_timeout {
        DnsFailureCode::Unresolvable
    } else {
        DnsFailureCode::DohBlocked
    }
}

fn contains_ip(list: &[u32], ip: u32) -> (r: bool)
    ensures
        r == list@.contains(ip),
{
    let mut i: usize = 0;
    while i < list.len()
        invariant
            i <= list@.len(),
            forall|j: int| 0 <= j < i ==> list@[j] != ip,
        decreases list@.len() - i,
    {
        if list[i] == ip {
            assert(list@[i as int] == ip);
            return true;
        }
        i = i + 1;
    }
    false
}

/// Compares the addresses from both sides.
pub fn cross_validate(
    udp_ips: &[u32],
    doh_ips: &[u32],
    any_udp_timeout: bool,
    any_udp_nxdomain: bool,
) -> (r: DnsFailureCode)
    ensures
        r == resolution_verdict(udp_ips@, doh_ips@, any_udp_timeout, any_udp_nxdomain),
{
    if doh_ips.len() > 0 {
        if udp_ips.len() == 0 {
            if any_udp_nxdomain {
                return DnsFailureCode::NxdomainSpoof;
            }
            if any_udp_timeout {
                return DnsFailureCode::Intercepted;
            }
            return DnsFailureCode::EmptySpoof;
        }
        let mut i: usize = 0;
        while i < udp_ips.len()
            invariant
                i <= udp_ips@.len(),
                udp_ips@.len() > 0,
                doh_ips@.len() > 0,
                forall|j: int| 0 <= j < i ==> !doh_ips@.contains(#[trigger] udp_ips@[j]),
            decreases udp_ips@.len() - i,
        {
            if contains_ip(doh_ips, udp_ips[i]) {
                assert(doh_ips@.contains(udp_ips@[i as int]));
                return DnsFailureCode::DnsOk;
            }
            i = i + 1;
        }
        DnsFailureCode::Poisoned
    } else {
        if udp_ips.len() == 0 && any_udp_nxdomain && !any_udp_timeout {
            return DnsFailureCode::Unresolvable;
        }
        DnsFailureCode::DohBlocked
    }
}

/// Whether an address lies in 198.18/15 or 100.64/10, from which proxies take
/// stand-in addresses.
pub open spec fn stand_in(ip: u32) -> bool {
    0xc612_0000 <= ip <= 0xc613_ffff || 0x6440_0000 <= ip <= 0x647f_ffff
}

/// Whether a list has a stand-in.
pub open spec fn has_stand_in(ips: Seq<u32>) -> bool {
    exists|i: int| 0 <= i < ips.len() && stand_in(#[trigger] ips[i])
}

/// Whether an address is a stand-in.
pub fn is_fake_ip(ip: u32) -> (r: bool)
    ensures
        r == stand_in(ip),
{
    (0xc612_0000 <= ip && ip <= 0xc613_ffff) || (0x6440_0000 <= ip && ip <= 0x647f_ffff)
}

// ---- messages ----
/// Where the first dot of a name stands; the length of the name where it has
/// none.
pub open spec fn first_dot(name: Seq<u8>) -> int
    decreases name.len(),
{
    if name.len() == 0 || name[0] == 0x2e {
        0
    } else {
        1 + first_dot(name.drop_first())
    }
}

/// `first_dot` is the place of the first dot, or the length.
proof fn lemma_first_dot(name: Seq<u8>)
    ensures
        0 <= first_dot(name) <= name.len(),
        first_dot(name) < name.len() ==> name[first_dot(name)] == 0x2e,
        forall|j: int| 0 <= j < first_dot(name) ==> name[j] != 0x2e,
    decreases name.len(),
{
    if name.len() > 0 && name[0] != 0x2e {
        lemma_first_dot(name.drop_first());
        assert forall|j: int| 0 <= j < first_dot(name) implies name[j] != 0x2e by {
            if j > 0 {
                assert(name.drop_first()[j - 1] == name[j]);
            }
        }
    }
}

proof fn lemma_first_dot_is(name: Seq<u8>, i: int)
    requires
        0 <= i <= name.len(),
        i < name.len() ==> name[i] == 0x2e,
        forall|j: int| 0 <= j < i ==> name[j] != 0x2e,
    ensures
        first_dot(name) == i,
{
    lemma_first_dot(name);
    if first_dot(name) < i {
        assert(name[first_dot(name)] != 0x2e);
    }
}

/// The labels of a name, each after its length; a length keeps its low eight
/// bits.
pub open spec fn label_bytes(name: Seq<u8>) -> Seq<u8>
    decreases name.len(),
{
    let i = first_dot(name);
    if 0 <= i < name.len() {
        seq![(i % 256) as u8] + name.take(i) + label_bytes(name.subrange(i + 1, name.len() as int))
    } else {
        seq![(name.len() % 256) as u8] + name
    }
}

/// The header of a query for one name, with recursion.
pub open spec fn query_header() -> Seq<u8> {
    seq![0xAB, 0xCD, 0x01, 0x00, 0x00, 0x01, 0x00, 0x00, 0x00, 0x00, 0x00, 0x00]
}

/// A query for the addresses of a name.
pub open spec fn query_bytes(name: Seq<u8>) -> Seq<u8> {
    query_header() + label_bytes(name) + seq![0u8] + seq![0u8, 1u8, 0u8, 1u8]
}

fn push_labels(query: &mut Vec<u8>, name: &[u8])
    ensures
        final(query)@ == old(query)@ + label_bytes(name@),
{
    let ghost before: Seq<u8> = query@;
    let n: usize = name.len();
    let mut start: usize = 0;
    let mut i: usize = 0;
    assert(name@.subrange(0, n as int) =~= name@);
    while i < n
        invariant
            n == name@.len(),
            start <= i <= n,
            query@ + label_bytes(name@.subrange(start as int, n as int)) == before + label_bytes(
                name@,
            ),
            forall|j: int| start <= j < i ==> name@[j] != 0x2e,
        decreases n - i,
    {
        if name[i] == 0x2e {
            let ghost rest: Seq<u8> = name@.subrange(start as int, n as int);
            let ghost held: Seq<u8> = query@;
            proof {
                lemma_first_dot_is(rest, i - start);
            }
            query.push(((i - start) % 256) as u8);
            let label: Vec<u8> = crate::wire::copy_range(name, start, i);
            push_all(query, label.as_slice());
            start = i + 1;
            proof {
                assert(rest.take(first_dot(rest)) =~= label@);
                assert(rest.subrange(first_dot(rest) + 1, rest.len() as int) =~= name@.subrange(
                    start as int,
                    n as int,
                ));
                assert(query@ + label_bytes(name@.subrange(start as int, n as int)) =~= held
                    + label_bytes(rest));
            }
        }
        i = i + 1;
    }
    let ghost rest: Seq<u8> = name@.subrange(start as int, n as int);
    let ghost held: Seq<u8> = query@;
    proof {
        lemma_first_dot_is(rest, rest.len() as int);
    }
    query.push(((n - start) % 256) as u8);
    let label: Vec<u8> = crate::wire::copy_range(name, start, n);
    push_all(query, label.as_slice());
    assert(query@ =~= held + label_bytes(rest));
}

/// Builds a query for the addresses of a domain.
pub fn build_dns_query(domain: &str) -> (r: Vec<u8>)
    ensures
        r@ == query_bytes(domain.spec_bytes()),
{
    let mut query: Vec<u8> = Vec::new();
    push_be16(&mut query, 0xABCD);
    push_be16(&mut query, 0x0100);
    push_be16(&mut query, 1);
    push_be16(&mut query, 0);
    push_be16(&mut query, 0);
    push_be16(&mut query, 0);
    assert(query@ =~= query_header());
    push_labels(&mut query, domain.as_bytes());
    query.push(0);
    push_be16(&mut query, 1);
    push_be16(&mut query, 1);
    assert(query@ =~= query_bytes(domain.spec_bytes()));
    query
}

/// Where a run of labels ends: at its closing zero byte, or past the end of
/// the message.
pub open spec fn labels_end(m: Seq<u8>, pos: int) -> int
    decreases
            if pos <= m.len() {
                m.len() - pos
            } else {
                0
            },
{
    if 0 <= pos < m.len() && m[pos] != 0 {
        labels_end(m, pos + 1 + m[pos])
    } else {
        pos
    }
}

/// Where the questions end, of which there are `n` from `pos` on.
pub open spec fn questions_end(m: Seq<u8>, pos: int, n: nat) -> int
    decreases n,
{
    if n == 0 {
        pos
    } else {
        let e = labels_end(m, pos);
        questions_end(
            m,
            if e < m.len() {
                e + 5
            } else {
                e + 4
            },
            (n - 1) as nat,
        )
    }
}

/// Where the owner name of a record ends: a pointer takes two bytes.
pub open spec fn owner_end(m: Seq<u8>, pos: int) -> int {
    if m[pos] / 64 == 3 {
        pos + 2
    } else {
        labels_end(m, pos) + 1
    }
}

/// The IPv4 addresses among the records from `pos` on, of which there are at
/// most `n`.
pub open spec fn addresses_from(m: Seq<u8>, pos: int, n: nat) -> Seq<u32>
    decreases n,
{
    if n == 0 || pos >= m.len() {
        Seq::empty()
    } else {
        let at = owner_end(m, pos);
        if at + 10 > m.len() {
            Seq::empty()
        } else {
            let rdlength = be16(m[at + 8], m[at + 9]) as int;
            let data = at + 10;
            let rest = addresses_from(m, data + rdlength, (n - 1) as nat);
            if be16(m[at], m[at + 1]) == 1 && rdlength == 4 && data + 4 <= m.len() {
                seq![crate::wire::be32(m[data], m[data + 1], m[data + 2], m[data + 3]) as u32] + rest
            } else {
                rest
            }
        }
    }
}

/// The IPv4 addresses in a response.
pub open spec fn response_addresses(m: Seq<u8>) -> Seq<u32> {
    if m.len() < 12 {
        Seq::empty()
    } else {
        addresses_from(
            m,
            questions_end(m, 12, be16(m[4], m[5])),
            be16(m[6], m[7]),
        )
    }
}

fn skip_labels(m: &[u8], from: u128) -> (r: u128)
    requires
        from <= 0x1_0000_0000_0000_0000_0000,
    ensures
        r == labels_end(m@, from as int),
        from <= r,
        r <= from || r <= m@.len() + 256,
{
    let len: u128 = m.len() as u128;
    let mut pos: u128 = from;
    while pos < len && m[pos as usize] != 0
        invariant
            len == m@.len(),
            len <= 0xffff_ffff_ffff_ffff,
            from <= pos,
            pos <= from || pos <= len + 256,
            from <= 0x1_0000_0000_0000_0000_0000,
            labels_end(m@, pos as int) == labels_end(m@, from as int),
        decreases len + 256 - pos,
    {
        pos = pos + 1 + m[pos as usize] as u128;
    }
    pos
}

/// Reads the IPv4 addresses in a response.
pub fn parse_dns_response_ips(response: &[u8]) -> (r: Vec<u32>)
    ensures
        r@ == response_addresses(response@),
{
    let mut ips: Vec<u32> = Vec::new();
    if response.len() < 12 {
        return ips;
    }
    let len: u128 = response.len() as u128;
    let qdcount: u16 = crate::wire::read_be16(response, 4);
    let ancount: u16 = crate::wire::read_be16(response, 6);
    let mut pos: u128 = 12;
    let mut i: u16 = 0;
    while i < qdcount
        invariant
            i <= qdcount,
            len == response@.len(),
            len <= 0xffff_ffff_ffff_ffff,
            pos <= len + 512 + 5 * i,
            questions_end(response@, pos as int, (qdcount - i) as nat) == questions_end(
                response@,
                12,
                qdcount as nat,
            ),
        decreases qdcount - i,
    {
        let e: u128 = skip_labels(response, pos);
        pos = if e < len {
            e + 5
        } else {
            e + 4
        };
        i = i + 1;
    }
    let mut k: u16 = 0;
    let ghost all: Seq<u32> = addresses_from(response@, pos as int, ancount as nat);
    assert(ips@ + all =~= all);
    while k < ancount
        invariant
            k <= ancount,
            len == response@.len(),
            len <= 0xffff_ffff_ffff_ffff,
            pos <= len + 1_000_000,
            all == response_addresses(response@),
            ips@ + addresses_from(response@, pos as int, (ancount - k) as nat) == all,
        ensures
            ips@ == all,
        decreases ancount - k,
    {
        let ghost here: Seq<u32> = addresses_from(response@, pos as int, (ancount - k) as nat);
        if pos >= len {
            assert(ips@ + here =~= ips@);
            break ;
        }
        let at: u128 = if response[pos as usize] / 64 == 3 {
            pos + 2
        } else {
            skip_labels(response, pos) + 1
        };
        if at + 10 > len {
            assert(ips@ + here =~= ips@);
            break ;
        }
        let a: usize = at as usize;
        let rtype: u16 = crate::wire::read_be16(response, a);
        let rdlength: u16 = crate::wire::read_be16(response, a + 8);
        let ghost held: Seq<u32> = ips@;
        if rtype == 1 && rdlength == 4 && at + 14 <= len {
            ips.push(crate::wire::read_be32(response, a + 10));
        }
        pos = at + 10 + rdlength as u128;
        k = k + 1;
        assert(ips@ + addresses_from(response@, pos as int, (ancount - k) as nat) =~= held + here);
    }
    assert(ips@ + Seq::<u32>::empty() =~= ips@);
    ips
}

/// The response code of a message.
pub open spec fn rcode(m: Seq<u8>) -> int {
    (m[3] % 16) as int
}

/// What a UDP response came to, apart from the time that it took.
pub open spec fn response_kind(m: Seq<u8>, r: UdpDnsResult) -> bool {
    if m.len() < 12 || (rcode(m) != 3 && (rcode(m) == 2 || rcode(m) == 5)) {
        r is Error
    } else if rcode(m) == 3 {
        r matches UdpDnsResult::Nxdomain(n) && n == m.len()
    } else if response_addresses(m).len() == 0 {
        r matches UdpDnsResult::EmptyResponse(n) && n == m.len()
    } else {
        r matches UdpDnsResult::Answer(ips, _, n) && ips@ == response_addresses(m) && n == m.len()
    }
}

/// Judges a UDP response; the time is left at zero.
pub fn parse_dns_response_detailed(response: &[u8]) -> (r: UdpDnsResult)
    ensures
        response_kind(response@, r),
        r matches UdpDnsResult::Answer(_, t, _) ==> t == 0,
{
    udp_reply(response, 0)
}

/// Judges a UDP response that took `latency_us`.
pub fn udp_reply(response: &[u8], latency_us: u64) -> (r: UdpDnsResult)
    ensures
        response_kind(response@, r),
        r matches UdpDnsResult::Answer(_, t, _) ==> t == latency_us,
{
    let size: usize = response.len();
    if size < 12 {
        return UdpDnsResult::Error;
    }
    let code: u8 = response[3] % 16;
    if code == 3 {
        return UdpDnsResult::Nxdomain(size);
    }
    if code == 2 || code == 5 {
        return UdpDnsResult::Error;
    }
    let ips: Vec<u32> = parse_dns_response_ips(response);
    if ips.len() == 0 {
        UdpDnsResult::EmptyResponse(size)
    } else {
        UdpDnsResult::Answer(ips, latency_us, size)
    }
}

/// The address that a DoH query is sent to.
pub fn doh_query_url(url: &str, domain: &str) -> (r: String)
    ensures
        r@ == url@ + "?dns="@ + base64_text(query_bytes(domain.spec_bytes()), Alphabet::Url),
{
    let query: Vec<u8> = build_dns_query(domain);
    let encoded: String = base64url_encode(query.as_slice());
    let mut r: String = crate::text::owned(url);
    r.append("?dns=");
    r.append(encoded.as_str());
    r
}

/// What happened to a DoH query.
#[derive(Debug, Clone)]
pub enum DohExchange {
    /// No response, or none in time.
    NoResponse,
    /// A response that is no success, or whose body could not be read.
    BadResponse,
    /// The body of a successful response.
    Body(Vec<u8>),
}

/// Judges a DoH exchange.
pub fn doh_reply(exchange: &DohExchange, latency_us: u64) -> (r: DohDnsResult)
    ensures
        match *exchange {
            DohExchange::NoResponse => r.ips@.len() == 0 && r.latency_us == 0 && r.size == 0,
            DohExchange::BadResponse => r.ips@.len() == 0 && r.latency_us == latency_us && r.size
                == 0,
            DohExchange::Body(b) => r.ips@ == response_addresses(b@) && r.latency_us == latency_us
                && r.size == b@.len(),
        },
{
    match exchange {
        DohExchange::NoResponse => DohDnsResult { ips: Vec::new(), latency_us: 0, size: 0 },
        DohExchange::BadResponse => DohDnsResult { ips: Vec::new(), latency_us, size: 0 },
        DohExchange::Body(b) => DohDnsResult {
            ips: parse_dns_response_ips(b.as_slice()),
            latency_us,
            size: b.len(),
        },
    }
}

// ---- putting all answers together ----
/// Whether a UDP query gave an address.
pub open spec fn gives(r: UdpDnsResult, ip: u32) -> bool {
    match r {
        UdpDnsResult::Answer(ips, _, _) => ips@.contains(ip),
        _ => false,
    }
}

/// Whether some UDP query gave an address.
pub open spec fn udp_gave(results: Seq<UdpDnsResult>, ip: u32) -> bool {
    exists|i: int|
        0 <= i < results.len() && gives(#[trigger] results[i], ip)
}

/// Whether some DoH query gave an address.
pub open spec fn doh_gave(results: Seq<DohDnsResult>, ip: u32) -> bool {
    exists|i: int| 0 <= i < results.len() && #[trigger] results[i].ips@.contains(ip)
}

/// Whether a list is sorted without repetition.
pub open spec fn ascending(s: Seq<u32>) -> bool {
    forall|i: int, j: int| 0 <= i < j < s.len() ==> s[i] < s[j]
}

/// The times of the UDP answers.
pub open spec fn udp_times(results: Seq<UdpDnsResult>) -> Seq<u64>
    decreases results.len(),
{
    if results.len() == 0 {
        Seq::empty()
    } else {
        let head = udp_times(results.drop_last());
        match results.last() {
            UdpDnsResult::Answer(_, t, _) => head.push(t),
            _ => head,
        }
    }
}

/// The sizes of the UDP responses.
pub open spec fn udp_sizes(results: Seq<UdpDnsResult>) -> Seq<usize>
    decreases results.len(),
{
    if results.len() == 0 {
        Seq::empty()
    } else {
        let head = udp_sizes(results.drop_last());
        match results.last() {
            UdpDnsResult::Answer(_, _, n) => head.push(n),
            UdpDnsResult::Nxdomain(n) => head.push(n),
            UdpDnsResult::EmptyResponse(n) => head.push(n),
            _ => head,
        }
    }
}

/// The times of the DoH answers that gave addresses.
pub open spec fn doh_times(results: Seq<DohDnsResult>) -> Seq<u64>
    decreases results.len(),
{
    if results.len() == 0 {
        Seq::empty()
    } else {
        let head = doh_times(results.drop_last());
        if results.last().ips@.len() > 0 {
            head.push(results.last().latency_us)
        } else {
            head
        }
    }
}

/// The sizes of the DoH responses.
pub open spec fn doh_sizes(results: Seq<DohDnsResult>) -> Seq<usize>
    decreases results.len(),
{
    if results.len() == 0 {
        Seq::empty()
    } else {
        doh_sizes(results.drop_last()).push(results.last().size)
    }
}

/// Whether `v` is the smallest of some numbers, or zero where there are none.
pub open spec fn least(s: Seq<u64>, v: u64) -> bool {
    if s.len() == 0 {
        v == 0
    } else {
        s.contains(v) && forall|i: int| 0 <= i < s.len() ==> v <= s[i]
    }
}

/// Whether `v` is the largest of some numbers, or zero where there are none.
pub open spec fn greatest(s: Seq<usize>, v: usize) -> bool {
    if s.len() == 0 {
        v == 0
    } else {
        s.contains(v) && forall|i: int| 0 <= i < s.len() ==> v >= s[i]
    }
}

/// Whether some UDP query timed out.
pub open spec fn some_timeout(results: Seq<UdpDnsResult>) -> bool {
    exists|i: int| 0 <= i < results.len() && #[trigger] results[i] is Timeout
}

/// Whether some UDP query was answered with NXDOMAIN.
pub open spec fn some_nxdomain(results: Seq<UdpDnsResult>) -> bool {
    exists|i: int| 0 <= i < results.len() && #[trigger] results[i] is Nxdomain
}

fn insert_ascending(list: &mut Vec<u32>, ip: u32)
    requires
        ascending(old(list)@),
    ensures
        ascending(final(list)@),
        forall|x: u32| #[trigger] final(list)@.contains(x) <==> old(list)@.contains(x) || x == ip,
{
    let ghost before: Seq<u32> = list@;
    let mut i: usize = 0;
    while i < list.len() && list[i] < ip
        invariant
            list@ == before,
            i <= before.len(),
            forall|j: int| 0 <= j < i ==> before[j] < ip,
        decreases before.len() - i,
    {
        i = i + 1;
    }
    if i < list.len() && list[i] == ip {
        assert(before[i as int] == ip);
        return ;
    }
    list.insert(i, ip);
    proof {
        let after = list@;
        assert(after[i as int] == ip);
        assert forall|x: u32| after.contains(x) <==> before.contains(x) || x == ip by {
            if before.contains(x) {
                let j = choose|j: int| 0 <= j < before.len() && before[j] == x;
                if j < i {
                    assert(after[j] == x);
                } else {
                    assert(after[j + 1] == x);
                }
            }
            if after.contains(x) {
                let j = choose|j: int| 0 <= j < after.len() && after[j] == x;
                if j < i {
                    assert(before[j] == x);
                } else if j > i {
                    assert(before[j - 1] == x);
                }
            }
        }
        assert forall|a: int, b: int| 0 <= a < b < after.len() implies after[a] < after[b] by {
            if a < i && b > i {
                assert(before[a] < before[b - 1]);
            } else if a < i && b < i {
                assert(before[a] < before[b]);
            } else if a == i && b > i {
                assert(before[i as int] <= before[b - 1]);
            } else if a > i {
                assert(before[a - 1] < before[b - 1]);
            }
        }
    }
}

fn insert_all(list: &mut Vec<u32>, ips: &Vec<u32>)
    requires
        ascending(old(list)@),
    ensures
        ascending(final(list)@),
        forall|x: u32| #[trigger] final(list)@.contains(x) <==> old(list)@.contains(x) || ips@.contains(x),
{
    let ghost before: Seq<u32> = list@;
    let mut i: usize = 0;
    while i < ips.len()
        invariant
            i <= ips@.len(),
            ascending(list@),
            forall|x: u32|
                #[trigger] list@.contains(x) <==> before.contains(x) || ips@.take(i as int).contains(
                    x,
                ),
        decreases ips@.len() - i,
    {
        insert_ascending(list, ips[i]);
        proof {
            let t0 = ips@.take(i as int);
            let t1 = ips@.take(i + 1);
            assert(t1 =~= t0.push(ips@[i as int]));
            assert forall|x: u32| t1.contains(x) <==> t0.contains(x) || x == ips@[i as int] by {
                if t0.contains(x) {
                    let j = choose|j: int| 0 <= j < t0.len() && t0[j] == x;
                    assert(t1[j] == x);
                }
                if x == ips@[i as int] {
                    assert(t1[i as int] == x);
                }
                if t1.contains(x) {
                    let j = choose|j: int| 0 <= j < t1.len() && t1[j] == x;
                    if j < i {
                        assert(t0[j] == x);
                    }
                }
            }
        }
        i = i + 1;
    }
    assert(ips@.take(i as int) =~= ips@);
}

fn lower(held: u64, count: usize, v: u64) -> (r: u64)
    ensures
        r == (if count == 0 || v < held {
            v
        } else {
            held
        }),
{
    if count == 0 || v < held {
        v
    } else {
        held
    }
}

proof fn lemma_least_push(s: Seq<u64>, held: u64, v: u64)
    requires
        least(s, held),
    ensures
        least(
            s.push(v),
            if s.len() == 0 || v < held {
                v
            } else {
                held
            },
        ),
{
    let t = s.push(v);
    assert(t[s.len() as int] == v);
    if s.len() > 0 {
        let j = choose|j: int| 0 <= j < s.len() && s[j] == held;
        assert(t[j] == held);
    }
}

proof fn lemma_greatest_push(s: Seq<usize>, held: usize, v: usize)
    requires
        greatest(s, held),
    ensures
        greatest(
            s.push(v),
            if v > held {
                v
            } else {
                held
            },
        ),
{
    let t = s.push(v);
    assert(t[s.len() as int] == v);
    if s.len() > 0 {
        let j = choose|j: int| 0 <= j < s.len() && s[j] == held;
        assert(t[j] == held);
    }
}

/// What all UDP queries together came to.
pub struct UdpSummary {
    pub ips: Vec<u32>,
    pub timed_out: bool,
    pub nxdomain: bool,
    pub rtt_us: u64,
    pub size: usize,
}

/// Puts the UDP results together.
pub fn summarize_udp(results: &Vec<UdpDnsResult>) -> (r: UdpSummary)
    ensures
        ascending(r.ips@),
        forall|x: u32| r.ips@.contains(x) <==> udp_gave(results@, x),
        r.timed_out == some_timeout(results@),
        r.nxdomain == some_nxdomain(results@),
        least(udp_times(results@), r.rtt_us),
        greatest(udp_sizes(results@), r.size),
{
    let mut ips: Vec<u32> = Vec::new();
    let mut timed_out: bool = false;
    let mut nxdomain: bool = false;
    let mut rtt_us: u64 = 0;
    let mut times: usize = 0;
    let mut size: usize = 0;
    let mut i: usize = 0;
    assert(results@.take(0).len() == 0);
    while i < results.len()
        invariant
            i <= results@.len(),
            ascending(ips@),
            forall|x: u32| #[trigger] ips@.contains(x) <==> udp_gave(results@.take(i as int), x),
            timed_out == some_timeout(results@.take(i as int)),
            nxdomain == some_nxdomain(results@.take(i as int)),
            least(udp_times(results@.take(i as int)), rtt_us),
            times == udp_times(results@.take(i as int)).len(),
            times <= i,
            greatest(udp_sizes(results@.take(i as int)), size),
        decreases results@.len() - i,
    {
        let ghost t0: Seq<UdpDnsResult> = results@.take(i as int);
        let ghost t1: Seq<UdpDnsResult> = results@.take(i + 1);
        let ghost held: Seq<u32> = ips@;
        proof {
            assert(t1.drop_last() =~= t0);
            assert(t1.last() == results@[i as int]);
            assert forall|j: int| 0 <= j < t0.len() implies t1[j] == t0[j] by {}
        }
        match &results[i] {
            UdpDnsResult::Answer(found, t, n) => {
                insert_all(&mut ips, found);
                proof {
                    lemma_least_push(udp_times(t0), rtt_us, *t);
                    lemma_greatest_push(udp_sizes(t0), size, *n);
                }
                rtt_us = lower(rtt_us, times, *t);
                times = times + 1;
                if *n > size {
                    size = *n;
                }
            },
            UdpDnsResult::Nxdomain(n) => {
                nxdomain = true;
                proof {
                    lemma_greatest_push(udp_sizes(t0), size, *n);
                }
                if *n > size {
                    size = *n;
                }
            },
            UdpDnsResult::EmptyResponse(n) => {
                proof {
                    lemma_greatest_push(udp_sizes(t0), size, *n);
                }
                if *n > size {
                    size = *n;
                }
            },
            UdpDnsResult::Timeout => {
                timed_out = true;
            },
            UdpDnsResult::Error => {},
        }
        proof {
            lemma_udp_step(t0, t1, held, ips@, timed_out, nxdomain);
        }
        i = i + 1;
    }
    assert(results@.take(i as int) =~= results@);
    UdpSummary { ips, timed_out, nxdomain, rtt_us, size }
}

proof fn lemma_udp_step(
    t0: Seq<UdpDnsResult>,
    t1: Seq<UdpDnsResult>,
    held: Seq<u32>,
    ips: Seq<u32>,
    timed_out: bool,
    nxdomain: bool,
)
    requires
        t1.len() == t0.len() + 1,
        forall|j: int| 0 <= j < t0.len() ==> t1[j] == t0[j],
        forall|x: u32| #[trigger] held.contains(x) <==> udp_gave(t0, x),
        t1.last() matches UdpDnsResult::Answer(found, _, _) ==> forall|x: u32|
            #[trigger] ips.contains(x) <==> held.contains(x) || found@.contains(x),
        !(t1.last() is Answer) ==> ips == held,
        timed_out == (some_timeout(t0) || t1.last() is Timeout),
        nxdomain == (some_nxdomain(t0) || t1.last() is Nxdomain),
    ensures
        forall|x: u32| #[trigger] ips.contains(x) <==> udp_gave(t1, x),
        timed_out == some_timeout(t1),
        nxdomain == some_nxdomain(t1),
{
    let n = t0.len() as int;
    assert(t1.last() == t1[n]);
    assert forall|x: u32| #[trigger] ips.contains(x) <==> udp_gave(t1, x) by {
        if udp_gave(t0, x) {
            let j = choose|j: int|
                0 <= j < t0.len() && gives(#[trigger] t0[j], x);
            assert(t1[j] == t0[j]);
        }
        if udp_gave(t1, x) {
            let j = choose|j: int|
                0 <= j < t1.len() && gives(#[trigger] t1[j], x);
            if j < n {
                assert(t0[j] == t1[j]);
                assert(udp_gave(t0, x));
            }
        }
        if ips.contains(x) && !held.contains(x) {
            assert(t1[n] is Answer);
            assert(udp_gave(t1, x));
        }
    }
    if some_timeout(t0) {
        let j = choose|j: int| 0 <= j < t0.len() && #[trigger] t0[j] is Timeout;
        assert(t1[j] is Timeout);
    }
    if some_timeout(t1) {
        let j = choose|j: int| 0 <= j < t1.len() && #[trigger] t1[j] is Timeout;
        if j < n {
            assert(t0[j] is Timeout);
        }
    }
    if some_nxdomain(t0) {
        let j = choose|j: int| 0 <= j < t0.len() && #[trigger] t0[j] is Nxdomain;
        assert(t1[j] is Nxdomain);
    }
    if some_nxdomain(t1) {
        let j = choose|j: int| 0 <= j < t1.len() && #[trigger] t1[j] is Nxdomain;
        if j < n {
            assert(t0[j] is Nxdomain);
        }
    }
}

/// What all DoH queries together came to.
pub struct DohSummary {
    pub ips: Vec<u32>,
    pub rtt_us: u64,
    pub size: usize,
}

/// Puts the DoH results together.
pub fn summarize_doh(results: &Vec<DohDnsResult>) -> (r: DohSummary)
    ensures
        ascending(r.ips@),
        forall|x: u32| r.ips@.contains(x) <==> doh_gave(results@, x),
        least(doh_times(results@), r.rtt_us),
        greatest(doh_sizes(results@), r.size),
{
    let mut ips: Vec<u32> = Vec::new();
    let mut rtt_us: u64 = 0;
    let mut times: usize = 0;
    let mut size: usize = 0;
    let mut i: usize = 0;
    assert(results@.take(0).len() == 0);
    while i < results.len()
        invariant
            i <= results@.len(),
            ascending(ips@),
            forall|x: u32| #[trigger] ips@.contains(x) <==> doh_gave(results@.take(i as int), x),
            least(doh_times(results@.take(i as int)), rtt_us),
            times == doh_times(results@.take(i as int)).len(),
            times <= i,
            greatest(doh_sizes(results@.take(i as int)), size),
        decreases results@.len() - i,
    {
        let ghost t0: Seq<DohDnsResult> = results@.take(i as int);
        let ghost t1: Seq<DohDnsResult> = results@.take(i + 1);
        let ghost held: Seq<u32> = ips@;
        let one: &DohDnsResult = &results[i];
        proof {
            assert(t1.drop_last() =~= t0);
            assert(t1.last() == *one);
            lemma_least_push(doh_times(t0), rtt_us, one.latency_us);
            lemma_greatest_push(doh_sizes(t0), size, one.size);
        }
        if one.ips.len() > 0 {
            rtt_us = lower(rtt_us, times, one.latency_us);
            times = times + 1;
        }
        if one.size > size {
            size = one.size;
        }
        insert_all(&mut ips, &one.ips);
        proof {
            assert forall|x: u32| #[trigger] ips@.contains(x) <==> doh_gave(t1, x) by {
                if doh_gave(t0, x) {
                    let j = choose|j: int|
                        0 <= j < t0.len() && #[trigger] t0[j].ips@.contains(x);
                    assert(t1[j].ips@.contains(x));
                }
                if one.ips@.contains(x) {
                    assert(t1[i as int].ips@.contains(x));
                }
                if doh_gave(t1, x) {
                    let j = choose|j: int|
                        0 <= j < t1.len() && #[trigger] t1[j].ips@.contains(x);
                    if j < i {
                        assert(t0[j].ips@.contains(x));
                    }
                }
            }
        }
        i = i + 1;
    }
    assert(results@.take(i as int) =~= results@);
    DohSummary { ips, rtt_us, size }
}

fn any_stand_in(ips: &Vec<u32>) -> (r: bool)
    ensures
        r == has_stand_in(ips@),
{
    let mut i: usize = 0;
    while i < ips.len()
        invariant
            i <= ips@.len(),
            forall|j: int| 0 <= j < i ==> !stand_in(#[trigger] ips@[j]),
        decreases ips@.len() - i,
    {
        if is_fake_ip(ips[i]) {
            assert(stand_in(ips@[i as int]));
            return true;
        }
        i = i + 1;
    }
    false
}

/// A copy of a list of addresses.
pub fn copy_ips(ips: &Vec<u32>) -> (r: Vec<u32>)
    ensures
        r@ == ips@,
{
    let mut r: Vec<u32> = Vec::new();
    let mut i: usize = 0;
    while i < ips.len()
        invariant
            i <= ips@.len(),
            r@ == ips@.take(i as int),
        decreases ips@.len() - i,
    {
        r.push(ips[i]);
        i = i + 1;
        assert(r@ =~= ips@.take(i as int));
    }
    assert(ips@.take(i as int) =~= ips@);
    r
}

/// What the answers of both sides come to: the addresses of each, sorted; those
/// over HTTPS count where there are any; the shortest times and largest sizes.
pub open spec fn assembled(
    udp: Seq<UdpDnsResult>,
    doh: Seq<DohDnsResult>,
    latency_us: u64,
    r: DnsProbeResult,
) -> bool {
    &&& ascending(r.udp_ips@)
    &&& forall|x: u32| r.udp_ips@.contains(x) <==> udp_gave(udp, x)
    &&& ascending(r.doh_ips@)
    &&& forall|x: u32| r.doh_ips@.contains(x) <==> doh_gave(doh, x)
    &&& r.verdict == resolution_verdict(
        r.udp_ips@,
        r.doh_ips@,
        some_timeout(udp),
        some_nxdomain(udp),
    )
    &&& r.resolved_ips@ == (if r.doh_ips@.len() > 0 {
        r.doh_ips@
    } else {
        r.udp_ips@
    })
    &&& r.latency_us == latency_us
    &&& r.fake_ip_detected == has_stand_in(r.resolved_ips@)
    &&& least(udp_times(udp), r.udp_rtt_us)
    &&& least(doh_times(doh), r.doh_rtt_us)
    &&& greatest(udp_sizes(udp), r.udp_response_size)
    &&& greatest(doh_sizes(doh), r.doh_response_size)
}

/// Puts the answers from both sides together. The addresses from DoH count
/// where there are any.
pub fn assemble(udp: &Vec<UdpDnsResult>, doh: &Vec<DohDnsResult>, latency_us: u64) -> (r:
    DnsProbeResult)
    ensures
        assembled(udp@, doh@, latency_us, r),
{
    let u: UdpSummary = summarize_udp(udp);
    let d: DohSummary = summarize_doh(doh);
    let verdict: DnsFailureCode = cross_validate(
        u.ips.as_slice(),
        d.ips.as_slice(),
        u.timed_out,
        u.nxdomain,
    );
    let resolved_ips: Vec<u32> = if d.ips.len() > 0 {
        copy_ips(&d.ips)
    } else {
        copy_ips(&u.ips)
    };
    let fake_ip_detected: bool = any_stand_in(&resolved_ips);
    DnsProbeResult {
        verdict,
        resolved_ips,
        udp_ips: u.ips,
        doh_ips: d.ips,
        latency_us,
        fake_ip_detected,
        udp_rtt_us: u.rtt_us,
        doh_rtt_us: d.rtt_us,
        udp_response_size: u.size,
        doh_response_size: d.size,
    }
}

// ---- laws ----
/// Name resolution counts as working only where both sides gave an address in
/// common.
pub proof fn dns_ok_needs_agreement(
    udp: Seq<u32>,
    doh: Seq<u32>,
    any_timeout: bool,
    any_nxdomain: bool,
)
    ensures
        resolution_verdict(udp, doh, any_timeout, any_nxdomain) == DnsFailureCode::DnsOk <==> overlap(
            udp,
            doh,
        ),
{
    if overlap(udp, doh) {
        let i = choose|i: int| 0 <= i < udp.len() && doh.contains(#[trigger] udp[i]);
        assert(doh.len() > 0);
    }
}

/// Whether every label of a name has between 1 and 255 bytes.
pub open spec fn proper_labels(name: Seq<u8>) -> bool
    decreases name.len(),
{
    let i = first_dot(name);
    if 0 <= i < name.len() {
        0 < i < 256 && proper_labels(name.subrange(i + 1, name.len() as int))
    } else {
        0 < name.len() < 256
    }
}

proof fn lemma_labels_end(m: Seq<u8>, pos: int, name: Seq<u8>)
    requires
        0 <= pos,
        proper_labels(name),
        pos + label_bytes(name).len() < m.len(),
        m.subrange(pos, pos + label_bytes(name).len()) == label_bytes(name),
        m[pos + label_bytes(name).len()] == 0,
    ensures
        labels_end(m, pos) == pos + label_bytes(name).len(),
    decreases name.len(),
{
    lemma_first_dot(name);
    let i = first_dot(name);
    let all = label_bytes(name);
    let sub = m.subrange(pos, pos + all.len());
    assert(sub[0] == m[pos]);
    assert(all[0] == (if i < name.len() {
        i % 256
    } else {
        (name.len() % 256) as int
    }));
    if i < name.len() {
        let rest = name.subrange(i + 1, name.len() as int);
        let tail = label_bytes(rest);
        assert(all.len() == 1 + i + tail.len());
        assert(m[pos] == i);
        let p2 = pos + 1 + i;
        assert(m.subrange(p2, p2 + tail.len()) =~= tail) by {
            assert forall|k: int| 0 <= k < tail.len() implies m.subrange(p2, p2 + tail.len())[k]
                == tail[k] by {
                assert(sub[1 + i + k] == all[1 + i + k]);
            }
        }
        lemma_labels_end(m, p2, rest);
    } else {
        assert(m[pos] == name.len());
        assert(labels_end(m, pos + 1 + m[pos]) == pos + 1 + m[pos]);
    }
}

/// A reader of a query finds the end of its question at the end of the query:
/// the name that was written is skipped exactly.
pub proof fn query_question_is_skipped_exactly(name: Seq<u8>)
    requires
        proper_labels(name),
    ensures
        questions_end(query_bytes(name), 12, 1) == query_bytes(name).len(),
        response_addresses(query_bytes(name)).len() == 0,
{
    let m = query_bytes(name);
    let n = label_bytes(name).len() as int;
    assert(m.subrange(12, 12 + n) =~= label_bytes(name));
    lemma_labels_end(m, 12, name);
    assert(m.len() == 12 + n + 5);
    assert(questions_end(m, 12 + n + 5, 0) == 12 + n + 5);
}

/// A record that gives an address for the name in the question.
pub open spec fn answer_record(ip: u32, ttl: u32) -> Seq<u8> {
    seq![0xC0u8, 0x0Cu8, 0u8, 1u8, 0u8, 1u8] + be32_bytes(ttl) + seq![0u8, 4u8] + be32_bytes(ip)
}

/// Records that give some addresses, in their order.
pub open spec fn answer_records(ips: Seq<u32>, ttl: u32) -> Seq<u8>
    decreases ips.len(),
{
    if ips.len() == 0 {
        Seq::empty()
    } else {
        answer_record(ips[0], ttl) + answer_records(ips.drop_first(), ttl)
    }
}

/// A response to the query for a name: some flags, the question again, and a
/// record for each address.
pub open spec fn answer_bytes(name: Seq<u8>, flags: u16, ips: Seq<u32>, ttl: u32) -> Seq<u8> {
    seq![0xABu8, 0xCDu8] + be16_bytes(flags) + seq![0u8, 1u8] + be16_bytes(ips.len() as u16) + seq![
        0u8,
        0u8,
        0u8,
        0u8,
    ] + label_bytes(name) + seq![0u8] + seq![0u8, 1u8, 0u8, 1u8] + answer_records(ips, ttl)
}

proof fn lemma_record_bytes(ip: u32, ttl: u32)
    ensures
        answer_record(ip, ttl).len() == 16,
        answer_record(ip, ttl)[0] == 0xC0,
        be16(answer_record(ip, ttl)[2], answer_record(ip, ttl)[3]) == 1,
        be16(answer_record(ip, ttl)[10], answer_record(ip, ttl)[11]) == 4,
        answer_record(ip, ttl).subrange(12, 16) == be32_bytes(ip),
{
    assert(answer_record(ip, ttl).subrange(12, 16) =~= be32_bytes(ip));
}

proof fn lemma_be32_bytes(ip: u32)
    ensures
        crate::wire::be32(
            be32_bytes(ip)[0],
            be32_bytes(ip)[1],
            be32_bytes(ip)[2],
            be32_bytes(ip)[3],
        ) == ip,
{
}

proof fn lemma_record_is_read(m: Seq<u8>, pos: int, n: nat, ip: u32, ttl: u32)
    requires
        0 <= pos,
        pos + 16 <= m.len(),
        m.subrange(pos, pos + 16) == answer_record(ip, ttl),
        n > 0,
    ensures
        addresses_from(m, pos, n) == seq![ip] + addresses_from(m, pos + 16, (n - 1) as nat),
{
    lemma_record_bytes(ip, ttl);
    lemma_be32_bytes(ip);
    let r = m.subrange(pos, pos + 16);
    assert(r[0] == m[pos]);
    assert(r[2] == m[pos + 2] && r[3] == m[pos + 3]);
    assert(r[10] == m[pos + 10] && r[11] == m[pos + 11]);
    let d = r.subrange(12, 16);
    assert(d[0] == m[pos + 12] && d[1] == m[pos + 13]);
    assert(d[2] == m[pos + 14] && d[3] == m[pos + 15]);
    assert(owner_end(m, pos) == pos + 2);
}

proof fn lemma_addresses_from(m: Seq<u8>, pos: int, ips: Seq<u32>, ttl: u32)
    requires
        0 <= pos <= m.len(),
        m.subrange(pos, m.len() as int) == answer_records(ips, ttl),
    ensures
        addresses_from(m, pos, ips.len()) == ips,
    decreases ips.len(),
{
    let tail = m.subrange(pos, m.len() as int);
    if ips.len() > 0 {
        let rest = answer_records(ips.drop_first(), ttl);
        let first = answer_record(ips[0], ttl);
        lemma_record_bytes(ips[0], ttl);
        assert(tail == first + rest);
        assert(m.subrange(pos, pos + 16) =~= tail.take(16));
        assert(tail.take(16) =~= first);
        assert(m.subrange(pos + 16, m.len() as int) =~= tail.skip(16));
        assert(tail.skip(16) =~= rest);
        lemma_addresses_from(m, pos + 16, ips.drop_first(), ttl);
        lemma_record_is_read(m, pos, ips.len(), ips[0], ttl);
        assert(seq![ips[0]] + ips.drop_first() =~= ips);
    } else {
        assert(addresses_from(m, pos, 0) =~= ips);
    }
}

/// The addresses in a response to a query are read back, all of them and in
/// their order.
pub proof fn answers_are_read_back(name: Seq<u8>, flags: u16, ips: Seq<u32>, ttl: u32)
    requires
        proper_labels(name),
        ips.len() <= 65535,
    ensures
        response_addresses(answer_bytes(name, flags, ips, ttl)) == ips,
{
    let m = answer_bytes(name, flags, ips, ttl);
    let n = label_bytes(name).len() as int;
    let records = answer_records(ips, ttl);
    assert(m.len() == 12 + n + 5 + records.len());
    assert(m.subrange(12, 12 + n) =~= label_bytes(name));
    assert(m[12 + n] == 0);
    lemma_labels_end(m, 12, name);
    assert(be16(m[4], m[5]) == 1);
    assert(be16(m[6], m[7]) == ips.len());
    assert(questions_end(m, 12 + n + 5, 0) == 12 + n + 5);
    assert(questions_end(m, 12, 1) == 12 + n + 5);
    assert(m.subrange(12 + n + 5, m.len() as int) =~= records);
    lemma_addresses_from(m, 12 + n + 5, ips, ttl);
}

/// What both sides say together: addresses in common mean that names resolve,
/// addresses without any in common that they are poisoned. Where only DoH gives
/// addresses, UDP says how it was tampered with: by denying the name, by
/// silence, or by an empty answer, in this order. Where DoH gives none, DoH is
/// blocked, unless UDP denies the name and was never silent: then the name does
/// not resolve.
pub proof fn tampering_is_told_by_what_udp_said(
    udp: Seq<u32>,
    doh: Seq<u32>,
    any_timeout: bool,
    any_nxdomain: bool,
)
    ensures
        ({
            let v = resolution_verdict(udp, doh, any_timeout, any_nxdomain);
            let common = exists|ip: u32| udp.contains(ip) && #[trigger] doh.contains(ip);
            &&& v == DnsFailureCode::DnsOk <==> common
            &&& v == DnsFailureCode::Poisoned <==> udp.len() > 0 && doh.len() > 0 && !common
            &&& v == DnsFailureCode::NxdomainSpoof <==> udp.len() == 0 && doh.len() > 0
                && any_nxdomain
            &&& v == DnsFailureCode::Intercepted <==> udp.len() == 0 && doh.len() > 0
                && !any_nxdomain && any_timeout
            &&& v == DnsFailureCode::EmptySpoof <==> udp.len() == 0 && doh.len() > 0
                && !any_nxdomain && !any_timeout
            &&& v == DnsFailureCode::Unresolvable <==> udp.len() == 0 && doh.len() == 0
                && any_nxdomain && !any_timeout
            &&& v == DnsFailureCode::DohBlocked <==> doh.len() == 0 && (udp.len() > 0
                || !any_nxdomain || any_timeout)
        }),
{
    if overlap(udp, doh) {
        let i = choose|i: int| 0 <= i < udp.len() && doh.contains(#[trigger] udp[i]);
        assert(udp.contains(udp[i]) && doh.contains(udp[i]));
        assert(doh.len() > 0);
    }
    if exists|ip: u32| udp.contains(ip) && #[trigger] doh.contains(ip) {
        let ip = choose|ip: u32| udp.contains(ip) && #[trigger] doh.contains(ip);
        let i = choose|i: int| 0 <= i < udp.len() && udp[i] == ip;
        assert(doh.contains(udp[i]));
        assert(doh.len() > 0);
    }
}

/// Which side gave an address does not matter to whether they agree.
pub proof fn agreement_is_mutual(udp: Seq<u32>, doh: Seq<u32>)
    ensures
        overlap(udp, doh) == overlap(doh, udp),
{
    if overlap(udp, doh) {
        let i = choose|i: int| 0 <= i < udp.len() && doh.contains(#[trigger] udp[i]);
        let j = choose|j: int| 0 <= j < doh.len() && doh[j] == udp[i];
        assert(udp.contains(doh[j]));
    }
    if overlap(doh, udp) {
        let i = choose|i: int| 0 <= i < doh.len() && udp.contains(#[trigger] doh[i]);
        let j = choose|j: int| 0 <= j < udp.len() && udp[j] == doh[i];
        assert(doh.contains(udp[j]));
    }
}

/// What a UDP response means: one that is cut short, or says that the server
/// failed or refused, is an error; one that denies the name is that; any other
/// is an answer where it holds addresses, and empty where it does not. The size
/// is that of the response.
pub proof fn responses_are_told_by_their_code(m: Seq<u8>, r: UdpDnsResult)
    requires
        response_kind(m, r),
    ensures
        ({
            let code = m[3] & 15;
            let whole = m.len() >= 12;
            &&& r is Error <==> !whole || code == 2 || code == 5
            &&& r is Nxdomain <==> whole && code == 3
            &&& r is EmptyResponse <==> whole && code != 2 && code != 3 && code != 5
                && response_addresses(m).len() == 0
            &&& r is Answer <==> whole && code != 2 && code != 3 && code != 5 && response_addresses(
                m,
            ).len() > 0
            &&& !(r is Timeout)
            &&& r matches UdpDnsResult::Answer(ips, _, n) ==> ips@ == response_addresses(m) && n
                == m.len()
            &&& r matches UdpDnsResult::Nxdomain(n) ==> n == m.len()
            &&& r matches UdpDnsResult::EmptyResponse(n) ==> n == m.len()
        }),
{
    let b = m[3];
    assert(b % 16 == b & 15) by (bit_vector);
}

/// A query asks one question, for the IPv4 addresses of a name on the internet,
/// and wants recursion; it carries no records.
pub proof fn queries_ask_for_addresses(name: Seq<u8>)
    ensures
        ({
            let m = query_bytes(name);
            let end = m.len();
            &&& end == 12 + label_bytes(name).len() + 5
            &&& m[2] & 0x80 == 0 && m[2] & 1 == 1
            &&& m[4] == 0 && m[5] == 1
            &&& m[6] == 0 && m[7] == 0 && m[8] == 0 && m[9] == 0 && m[10] == 0 && m[11] == 0
            &&& m.subrange(12, end - 5) == label_bytes(name)
            &&& m[end - 5] == 0
            &&& m[end - 4] == 0 && m[end - 3] == 1
            &&& m[end - 2] == 0 && m[end - 1] == 1
        }),
{
    let m = query_bytes(name);
    assert(m[2] == 1);
    assert(1u8 & 0x80 == 0 && 1u8 & 1 == 1) by (bit_vector);
    assert(m.subrange(12, m.len() - 5) =~= label_bytes(name));
}

/// A name is written label by label, each behind its length.
pub proof fn names_are_written_label_by_label(label: Seq<u8>, rest: Seq<u8>)
    requires
        forall|i: int| 0 <= i < label.len() ==> label[i] != 0x2e,
        label.len() < 256,
    ensures
        label_bytes(label) == seq![label.len() as u8] + label,
        label_bytes(label + seq![0x2eu8] + rest) == seq![label.len() as u8] + label + label_bytes(
            rest,
        ),
{
    lemma_first_dot_is(label, label.len() as int);
    let name = label + seq![0x2eu8] + rest;
    lemma_first_dot_is(name, label.len() as int);
    assert(name.take(label.len() as int) =~= label);
    assert(name.subrange(label.len() as int + 1, name.len() as int) =~= rest);
}

/// Records that are no IPv4 addresses are passed over; one that is gives its
/// four bytes as a number.
pub proof fn only_address_records_count(m: Seq<u8>, pos: int, n: nat)
    requires
        0 <= pos,
        n > 0,
        pos + 12 <= m.len(),
        m[pos] / 64 == 3,
    ensures
        ({
            let size = m[pos + 10] * 256 + m[pos + 11];
            let rest = addresses_from(m, pos + 12 + size, (n - 1) as nat);
            let address = m[pos + 2] == 0 && m[pos + 3] == 1 && size == 4 && pos + 16 <= m.len();
            &&& !address ==> addresses_from(m, pos, n) == rest
            &&& address ==> addresses_from(m, pos, n) == seq![
                (m[pos + 12] * 0x100_0000 + m[pos + 13] * 0x1_0000 + m[pos + 14] * 0x100 + m[pos
                    + 15]) as u32,
            ] + rest
        }),
{
}

/// The times and sizes that are compared are those of the answers: a UDP time
/// is that of an answer with addresses, a UDP size that of any response, a DoH
/// time that of an answer with addresses.
pub proof fn times_and_sizes_are_those_of_answers(
    udp: Seq<UdpDnsResult>,
    doh: Seq<DohDnsResult>,
    t: u64,
    n: usize,
)
    ensures
        udp_times(udp).contains(t) <==> exists|i: int|
            0 <= i < udp.len() && (#[trigger] udp[i] matches UdpDnsResult::Answer(_, u, _) && u
                == t),
        udp_sizes(udp).contains(n) <==> exists|i: int|
            0 <= i < udp.len() && ((#[trigger] udp[i] matches UdpDnsResult::Answer(_, _, k) && k
                == n) || (udp[i] matches UdpDnsResult::Nxdomain(k) && k == n) || (
            udp[i] matches UdpDnsResult::EmptyResponse(k) && k == n)),
        doh_times(doh).contains(t) <==> exists|i: int|
            0 <= i < doh.len() && (#[trigger] doh[i]).ips@.len() > 0 && doh[i].latency_us == t,
        doh_sizes(doh).contains(n) <==> exists|i: int|
            0 <= i < doh.len() && (#[trigger] doh[i]).size == n,
    decreases udp.len() + doh.len(),
{
    if udp.len() > 0 {
        let rest = udp.drop_last();
        times_and_sizes_are_those_of_answers(rest, doh, t, n);
        let last = udp.last();
        lemma_contains_push(udp_times(rest), t);
        lemma_contains_push(udp_sizes(rest), n);
        assert(udp[udp.len() - 1] == last);
        assert forall|i: int| 0 <= i < rest.len() implies rest[i] == udp[i] by {}
    }
    if doh.len() > 0 {
        let rest = doh.drop_last();
        times_and_sizes_are_those_of_answers(udp, rest, t, n);
        let last = doh.last();
        lemma_contains_push(doh_times(rest), t);
        lemma_contains_push(doh_sizes(rest), n);
        assert(doh[doh.len() - 1] == last);
        assert forall|i: int| 0 <= i < rest.len() implies rest[i] == doh[i] by {}
    }
}

proof fn lemma_contains_push<T>(s: Seq<T>, x: T)
    ensures
        forall|y: T| #[trigger] s.push(y).contains(x) <==> s.contains(x) || x == y,
{
    assert forall|y: T| #[trigger] s.push(y).contains(x) <==> s.contains(x) || x == y by {
        let t = s.push(y);
        if s.contains(x) {
            let i = choose|i: int| 0 <= i < s.len() && s[i] == x;
            assert(t[i] == x);
        }
        if x == y {
            assert(t[s.len() as int] == x);
        }
        if t.contains(x) {
            let i = choose|i: int| 0 <= i < t.len() && t[i] == x;
            if i < s.len() {
                assert(s[i] == x);
            }
        }
    }
}

/// The addresses that stand in for others are those of 198.18.0.0/15 and
/// 100.64.0.0/10.
pub proof fn stand_ins_are_two_ranges(ip: u32)
    ensures
        stand_in(ip) <==> ip / 0x2_0000 == 0xc612_0000u32 / 0x2_0000 || ip / 0x40_0000
            == 0x6440_0000u32 / 0x40_0000,
{
}

/// What the answers of both sides come to, in terms of the answers: names resolve
/// exactly where some answer over UDP and some answer over HTTPS hold the same
/// address, and what counts is what came over HTTPS, where anything did.
pub proof fn answers_of_both_sides_are_put_together(
    udp: Seq<UdpDnsResult>,
    doh: Seq<DohDnsResult>,
    latency_us: u64,
    r: DnsProbeResult,
    ip: u32,
    i: int,
    j: int,
)
    requires
        assembled(udp, doh, latency_us, r),
        0 <= i < udp.len(),
        0 <= j < doh.len(),
    ensures
        udp[i] is Answer && udp[i]->Answer_0@.contains(ip) && doh[j].ips@.contains(ip)
            ==> r.verdict == DnsFailureCode::DnsOk,
        doh[j].ips@.contains(ip) ==> r.resolved_ips@.contains(ip) && r.doh_ips@.contains(ip),
        udp[i] is Answer && udp[i]->Answer_0@.contains(ip) ==> r.udp_ips@.contains(ip),
        r.verdict == DnsFailureCode::DnsOk ==> exists|x: u32| #[trigger]
            r.udp_ips@.contains(x) && r.doh_ips@.contains(x),
        doh[j].ips@.contains(ip) && (forall|k: int| 0 <= k < udp.len() ==> !(udp[k] is Answer))
            && udp[i] is Nxdomain ==> r.verdict == DnsFailureCode::NxdomainSpoof,
        r.latency_us == latency_us,
{
    if doh[j].ips@.contains(ip) {
        assert(doh_gave(doh, ip));
        assert(r.doh_ips@.contains(ip));
    }
    if udp[i] is Answer && udp[i]->Answer_0@.contains(ip) {
        assert(gives(udp[i], ip));
        assert(udp_gave(udp, ip));
        assert(r.udp_ips@.contains(ip));
    }
    tampering_is_told_by_what_udp_said(
        r.udp_ips@,
        r.doh_ips@,
        some_timeout(udp),
        some_nxdomain(udp),
    );
    if r.verdict == DnsFailureCode::DnsOk {
        let x = choose|x: u32| r.udp_ips@.contains(x) && #[trigger] r.doh_ips@.contains(x);
        assert(r.udp_ips@.contains(x));
    }
    if forall|k: int| 0 <= k < udp.len() ==> !(udp[k] is Answer) {
        if r.udp_ips@.len() > 0 {
            let x = r.udp_ips@[0];
            assert(r.udp_ips@.contains(x));
            assert(udp_gave(udp, x));
            let k = choose|k: int| 0 <= k < udp.len() && gives(#[trigger] udp[k], x);
            assert(udp[k] is Answer);
        }
        if udp[i] is Nxdomain {
            assert(some_nxdomain(udp));
        }
    }
}

/// The times that count are those of the fastest answers, and the sizes those of
/// the largest.
pub proof fn the_fastest_answers_count(
    udp: Seq<UdpDnsResult>,
    doh: Seq<DohDnsResult>,
    latency_us: u64,
    r: DnsProbeResult,
    i: int,
)
    requires
        assembled(udp, doh, latency_us, r),
        0 <= i < udp.len(),
        udp[i] is Answer,
    ensures
        r.udp_rtt_us <= udp[i]->Answer_1,
        r.udp_response_size >= udp[i]->Answer_2,
        exists|k: int|
            0 <= k < udp.len() && (#[trigger] udp[k] matches UdpDnsResult::Answer(_, t, _) && t
                == r.udp_rtt_us),
{
    let t = udp[i]->Answer_1;
    let n = udp[i]->Answer_2;
    times_and_sizes_are_those_of_answers(udp, doh, t, n);
    assert(udp_times(udp).contains(t));
    assert(udp_sizes(udp).contains(n));
    let a = choose|a: int| 0 <= a < udp_times(udp).len() && udp_times(udp)[a] == t;
    let b = choose|b: int| 0 <= b < udp_sizes(udp).len() && udp_sizes(udp)[b] == n;
    assert(r.udp_rtt_us <= udp_times(udp)[a]);
    assert(r.udp_response_size >= udp_sizes(udp)[b]);
    times_and_sizes_are_those_of_answers(udp, doh, r.udp_rtt_us, n);
}

} // verus!
