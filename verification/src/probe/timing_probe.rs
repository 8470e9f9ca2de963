//! Timing a probe, and the features that are computed from it.
//!
//! Times are microseconds on a clock that only goes forward. Features are
//! exact fractions.
use vstd::prelude::*;

verus! {

/// A fraction; a denominator of zero does not occur.
#[derive(Debug, Clone, Copy, PartialEq, Eq, Structural)]
pub struct Ratio {
    pub num: u128,
    pub den: u128,
}

/// A whole number as a fraction.
pub open spec fn whole(n: nat) -> Ratio {
    Ratio { num: n as u128, den: 1 }
}

fn ratio_of(n: u64) -> (r: Ratio)
    ensures
        r == whole(n as nat),
{
    Ratio { num: n as u128, den: 1 }
}

/// One over the other, or zero where the other is zero.
pub open spec fn quotient(a: u64, b: u64) -> Ratio {
    if b > 0 {
        Ratio { num: a as u128, den: b as u128 }
    } else {
        whole(0)
    }
}

fn quotient_of(a: u64, b: u64) -> (r: Ratio)
    ensures
        r == quotient(a, b),
{
    if b > 0 {
        Ratio { num: a as u128, den: b as u128 }
    } else {
        Ratio { num: 0, den: 1 }
    }
}

/// The sum of some numbers.
pub open spec fn sum_of(s: Seq<u64>) -> nat
    decreases s.len(),
{
    if s.len() == 0 {
        0
    } else {
        sum_of(s.drop_last()) + s.last() as nat
    }
}

/// The sum of the squares of some numbers.
pub open spec fn squares_of(s: Seq<u64>) -> nat
    decreases s.len(),
{
    if s.len() == 0 {
        0
    } else {
        squares_of(s.drop_last()) + (s.last() as nat) * (s.last() as nat)
    }
}

/// The variance of some numbers: the mean of the squares less the square of
/// the mean, over a common denominator.
pub open spec fn variance_of(s: Seq<u64>) -> Ratio {
    if s.len() == 0 {
        whole(0)
    } else {
        Ratio {
            num: (s.len() * squares_of(s) - sum_of(s) * sum_of(s)) as u128,
            den: (s.len() * s.len()) as u128,
        }
    }
}

/// The square of a sum is at most the number of terms times the sum of the
/// squares.
proof fn lemma_square_of_sum(s: Seq<u64>)
    ensures
        sum_of(s) * sum_of(s) <= s.len() * squares_of(s),
    decreases s.len(),
{
    if s.len() > 0 {
        let t = s.drop_last();
        lemma_square_of_sum(t);
        lemma_cross_terms(t, s.last());
        let n = t.len() as int;
        let a = sum_of(t) as int;
        let q = squares_of(t) as int;
        let x = s.last() as int;
        assert((a + x) * (a + x) <= (n + 1) * (q + x * x)) by (nonlinear_arith)
            requires
                a * a <= n * q,
                2 * (a * x) <= q + n * (x * x),
        ;
    }
}

proof fn lemma_cross_terms(s: Seq<u64>, x: u64)
    ensures
        2 * (sum_of(s) * (x as int)) <= squares_of(s) + s.len() * ((x as int) * (x as int)),
    decreases s.len(),
{
    if s.len() > 0 {
        lemma_cross_terms(s.drop_last(), x);
        let n = s.drop_last().len() as int;
        let a = sum_of(s.drop_last()) as int;
        let q = squares_of(s.drop_last()) as int;
        let y = s.last() as int;
        let z = x as int;
        assert(2 * ((a + y) * z) <= (q + y * y) + (n + 1) * (z * z)) by (nonlinear_arith)
            requires
                2 * (a * z) <= q + n * (z * z),
        {
            assert(0 <= (y - z) * (y - z));
        }
    } else {
        assert(2 * (0 * (x as int)) <= 0 * ((x as int) * (x as int))) by (nonlinear_arith);
    }
}

proof fn lemma_sums_grow(s: Seq<u64>, n: int)
    requires
        0 <= n <= s.len(),
    ensures
        sum_of(s.take(n)) <= sum_of(s),
        squares_of(s.take(n)) <= squares_of(s),
    decreases s.len() - n,
{
    if n < s.len() {
        assert(s.take(n + 1).drop_last() =~= s.take(n));
        lemma_sums_grow(s, n + 1);
        assert((s[n] as nat) * (s[n] as nat) >= 0) by (nonlinear_arith);
    } else {
        assert(s.take(n) =~= s);
    }
}

/// The variance of some numbers.
pub fn variance(values: &[u64]) -> (r: Ratio)
    requires
        values@.len() * squares_of(values@) <= u128::MAX,
    ensures
        r == variance_of(values@),
{
    let n: usize = values.len();
    if n == 0 {
        return Ratio { num: 0, den: 1 };
    }
    let mut sum: u128 = 0;
    let mut squares: u128 = 0;
    let mut i: usize = 0;
    assert(values@.take(0).len() == 0);
    proof {
        assert(squares_of(values@) <= values@.len() * squares_of(values@)) by (nonlinear_arith)
            requires
                values@.len() >= 1,
                squares_of(values@) >= 0,
        ;
    }
    while i < n
        invariant
            n == values@.len(),
            i <= n,
            squares_of(values@) <= u128::MAX,
            sum == sum_of(values@.take(i as int)),
            squares == squares_of(values@.take(i as int)),
            sum <= i * u64::MAX,
        decreases n - i,
    {
        let x: u128 = values[i] as u128;
        proof {
            assert(values@.take(i + 1).drop_last() =~= values@.take(i as int));
            lemma_sums_grow(values@, i + 1);
            assert(x * x <= u128::MAX) by (nonlinear_arith)
                requires
                    x <= u64::MAX,
            ;
            assert(i * u64::MAX + x <= (i + 1) * u64::MAX) by (nonlinear_arith)
                requires
                    x <= u64::MAX,
            ;
            assert((i + 1) * u64::MAX <= usize::MAX * u64::MAX) by (nonlinear_arith)
                requires
                    i + 1 <= usize::MAX,
            ;
        }
        sum = sum + x;
        squares = squares + x * x;
        i = i + 1;
    }
    assert(values@.take(i as int) =~= values@);
    proof {
        lemma_square_of_sum(values@);
        assert((n as int) * (n as int) <= u128::MAX) by (nonlinear_arith)
            requires
                n <= u64::MAX,
        ;
        assert(sum * sum >= 0) by (nonlinear_arith);
    }
    Ratio { num: (n as u128) * squares - sum * sum, den: (n as u128) * (n as u128) }
}

/// The features of one probe.
#[derive(Debug, Clone, Copy)]
pub struct FeatureVector {
    pub dns_udp_rtt_ms: u64,
    pub dns_doh_rtt_ms: u64,
    pub dns_udp_response_size: u64,
    pub dns_doh_response_size: u64,
    pub tcp_connect_rtt_ms: u64,
    pub tcp_connect_ok: bool,
    pub tls_handshake_rtt_ms: u64,
    pub tls_server_hello_size: u64,
    pub tls_cert_count: u64,
    pub tls_handshake_ok: bool,
    pub http_first_byte_rtt_ms: u64,
    pub http_total_rtt_ms: u64,
    pub http_response_size: u64,
    pub http_status_code: u64,
    /// TLS handshake time over TCP connect time.
    pub tls_tcp_ratio: Ratio,
    /// HTTP first byte time over TLS handshake time.
    pub http_tls_ratio: Ratio,
    /// The variance of the times of the phases.
    pub inter_phase_jitter: Ratio,
}

/// One for true, zero for false.
pub open spec fn flag(b: bool) -> nat {
    if b {
        1
    } else {
        0
    }
}

impl FeatureVector {
    /// The features in order.
    pub open spec fn features(self) -> Seq<Ratio> {
        seq![
            whole(self.dns_udp_rtt_ms as nat),
            whole(self.dns_doh_rtt_ms as nat),
            whole(self.dns_udp_response_size as nat),
            whole(self.dns_doh_response_size as nat),
            whole(self.tcp_connect_rtt_ms as nat),
            whole(flag(self.tcp_connect_ok)),
            whole(self.tls_handshake_rtt_ms as nat),
            whole(self.tls_server_hello_size as nat),
            whole(self.tls_cert_count as nat),
            whole(flag(self.tls_handshake_ok)),
            whole(self.http_first_byte_rtt_ms as nat),
            whole(self.http_total_rtt_ms as nat),
            whole(self.http_response_size as nat),
            whole(self.http_status_code as nat),
            self.tls_tcp_ratio,
            self.http_tls_ratio,
            self.inter_phase_jitter,
        ]
    }

    /// The features in order.
    pub fn to_vec(&self) -> (r: Vec<Ratio>)
        ensures
            r@ == self.features(),
            r@.len() == 17,
    {
        let mut r: Vec<Ratio> = Vec::new();
        r.push(ratio_of(self.dns_udp_rtt_ms));
        r.push(ratio_of(self.dns_doh_rtt_ms));
        r.push(ratio_of(self.dns_udp_response_size));
        r.push(ratio_of(self.dns_doh_response_size));
        r.push(ratio_of(self.tcp_connect_rtt_ms));
        r.push(
            ratio_of(
                if self.tcp_connect_ok {
                    1
                } else {
                    0
                },
            ),
        );
        r.push(ratio_of(self.tls_handshake_rtt_ms));
        r.push(ratio_of(self.tls_server_hello_size));
        r.push(ratio_of(self.tls_cert_count));
        r.push(
            ratio_of(
                if self.tls_handshake_ok {
                    1
                } else {
                    0
                },
            ),
        );
        r.push(ratio_of(self.http_first_byte_rtt_ms));
        r.push(ratio_of(self.http_total_rtt_ms));
        r.push(ratio_of(self.http_response_size));
        r.push(ratio_of(self.http_status_code));
        r.push(self.tls_tcp_ratio);
        r.push(self.http_tls_ratio);
        r.push(self.inter_phase_jitter);
        assert(r@ =~= self.features());
        r
    }

    /// All features zero.
    pub fn empty() -> (r: FeatureVector)
        ensures
            r.features() == Seq::new(17, |i: int| whole(0)),
    {
        let zero: Ratio = ratio_of(0);
        let r: FeatureVector = FeatureVector {
            dns_udp_rtt_ms: 0,
            dns_doh_rtt_ms: 0,
            dns_udp_response_size: 0,
            dns_doh_response_size: 0,
            tcp_connect_rtt_ms: 0,
            tcp_connect_ok: false,
            tls_handshake_rtt_ms: 0,
            tls_server_hello_size: 0,
            tls_cert_count: 0,
            tls_handshake_ok: false,
            http_first_byte_rtt_ms: 0,
            http_total_rtt_ms: 0,
            http_response_size: 0,
            http_status_code: 0,
            tls_tcp_ratio: zero,
            http_tls_ratio: zero,
            inter_phase_jitter: zero,
        };
        assert(r.features() =~= Seq::new(17, |i: int| whole(0)));
        r
    }
}

/// The sizes and outcomes that features are computed from, besides times.
#[derive(Debug, Clone, Copy)]
pub struct FeatureFacts {
    pub dns_udp_response_size: u64,
    pub dns_doh_response_size: u64,
    pub tcp_connect_ok: bool,
    pub tls_handshake_ok: bool,
    pub tls_server_hello_size: u64,
    pub tls_cert_count: u64,
    pub http_response_size: u64,
    pub http_status_code: u16,
}

/// When the phases of a probe began and ended.
#[derive(Debug, Clone, Copy, PartialEq, Eq, Structural)]
pub struct TimingProbe {
    pub dns_udp_start: Option<u64>,
    pub dns_udp_end: Option<u64>,
    pub dns_doh_start: Option<u64>,
    pub dns_doh_end: Option<u64>,
    pub tcp_start: Option<u64>,
    pub tcp_end: Option<u64>,
    pub tls_start: Option<u64>,
    pub tls_end: Option<u64>,
    pub http_start: Option<u64>,
    pub http_end: Option<u64>,
    pub http_first_byte: Option<u64>,
}

/// Nothing timed yet.
pub open spec fn untimed() -> TimingProbe {
    TimingProbe {
        dns_udp_start: None,
        dns_udp_end: None,
        dns_doh_start: None,
        dns_doh_end: None,
        tcp_start: None,
        tcp_end: None,
        tls_start: None,
        tls_end: None,
        http_start: None,
        http_end: None,
        http_first_byte: None,
    }
}

/// The whole milliseconds between two marks; zero where one is missing or the
/// second comes first.
pub open spec fn span_ms(start: Option<u64>, end: Option<u64>) -> u64 {
    match (start, end) {
        (Some(s), Some(e)) => if e > s {
            ((e - s) / 1000) as u64
        } else {
            0
        },
        _ => 0,
    }
}

fn duration_ms(start: Option<u64>, end: Option<u64>) -> (r: u64)
    ensures
        r == span_ms(start, end),
{
    match (start, end) {
        (Some(s), Some(e)) => if e > s {
            (e - s) / 1000
        } else {
            0
        },
        _ => 0,
    }
}

impl TimingProbe {
    /// The features of a probe with the given times.
    pub open spec fn features_with(self, facts: FeatureFacts) -> FeatureVector {
        let dns_udp = span_ms(self.dns_udp_start, self.dns_udp_end);
        let tcp = span_ms(self.tcp_start, self.tcp_end);
        let tls = span_ms(self.tls_start, self.tls_end);
        let first_byte = span_ms(self.http_start, self.http_first_byte);
        FeatureVector {
            dns_udp_rtt_ms: dns_udp,
            dns_doh_rtt_ms: span_ms(self.dns_doh_start, self.dns_doh_end),
            dns_udp_response_size: facts.dns_udp_response_size,
            dns_doh_response_size: facts.dns_doh_response_size,
            tcp_connect_rtt_ms: tcp,
            tcp_connect_ok: facts.tcp_connect_ok,
            tls_handshake_rtt_ms: tls,
            tls_server_hello_size: facts.tls_server_hello_size,
            tls_cert_count: facts.tls_cert_count,
            tls_handshake_ok: facts.tls_handshake_ok,
            http_first_byte_rtt_ms: first_byte,
            http_total_rtt_ms: span_ms(self.http_start, self.http_end),
            http_response_size: facts.http_response_size,
            http_status_code: facts.http_status_code as u64,
            tls_tcp_ratio: quotient(tls, tcp),
            http_tls_ratio: quotient(first_byte, tls),
            inter_phase_jitter: variance_of(seq![dns_udp, tcp, tls, first_byte]),
        }
    }

    /// Nothing timed yet.
    pub fn new() -> (r: TimingProbe)
        ensures
            r == untimed(),
    {
        TimingProbe {
            dns_udp_start: None,
            dns_udp_end: None,
            dns_doh_start: None,
            dns_doh_end: None,
            tcp_start: None,
            tcp_end: None,
            tls_start: None,
            tls_end: None,
            http_start: None,
            http_end: None,
            http_first_byte: None,
        }
    }

    /// Marks when name resolution began.
    pub fn mark_dns_start(&mut self, now_us: u64)
        ensures
            *final(self) == (TimingProbe { dns_udp_start: Some(now_us), ..*old(self) }),
    {
        self.dns_udp_start = Some(now_us);
    }

    /// Marks when name resolution ended.
    pub fn mark_dns_end(&mut self, now_us: u64)
        ensures
            *final(self) == (TimingProbe { dns_udp_end: Some(now_us), ..*old(self) }),
    {
        self.dns_udp_end = Some(now_us);
    }

    /// Marks when the UDP query was sent.
    pub fn mark_dns_udp_start(&mut self, now_us: u64)
        ensures
            *final(self) == (TimingProbe { dns_udp_start: Some(now_us), ..*old(self) }),
    {
        self.dns_udp_start = Some(now_us);
    }

    /// Marks when the UDP answer came.
    pub fn mark_dns_udp_end(&mut self, now_us: u64)
        ensures
            *final(self) == (TimingProbe { dns_udp_end: Some(now_us), ..*old(self) }),
    {
        self.dns_udp_end = Some(now_us);
    }

    /// Marks when the DoH query was sent.
    pub fn mark_dns_doh_start(&mut self, now_us: u64)
        ensures
            *final(self) == (TimingProbe { dns_doh_start: Some(now_us), ..*old(self) }),
    {
        self.dns_doh_start = Some(now_us);
    }

    /// Marks when the DoH answer came.
    pub fn mark_dns_doh_end(&mut self, now_us: u64)
        ensures
            *final(self) == (TimingProbe { dns_doh_end: Some(now_us), ..*old(self) }),
    {
        self.dns_doh_end = Some(now_us);
    }

    /// Marks when connecting began.
    pub fn mark_tcp_start(&mut self, now_us: u64)
        ensures
            *final(self) == (TimingProbe { tcp_start: Some(now_us), ..*old(self) }),
    {
        self.tcp_start = Some(now_us);
    }

    /// Marks when connecting ended.
    pub fn mark_tcp_end(&mut self, now_us: u64)
        ensures
            *final(self) == (TimingProbe { tcp_end: Some(now_us), ..*old(self) }),
    {
        self.tcp_end = Some(now_us);
    }

    /// Marks when the handshake began.
    pub fn mark_tls_start(&mut self, now_us: u64)
        ensures
            *final(self) == (TimingProbe { tls_start: Some(now_us), ..*old(self) }),
    {
        self.tls_start = Some(now_us);
    }

    /// Marks when the handshake ended.
    pub fn mark_tls_end(&mut self, now_us: u64)
        ensures
            *final(self) == (TimingProbe { tls_end: Some(now_us), ..*old(self) }),
    {
        self.tls_end = Some(now_us);
    }

    /// Marks when the request was sent.
    pub fn mark_http_start(&mut self, now_us: u64)
        ensures
            *final(self) == (TimingProbe { http_start: Some(now_us), ..*old(self) }),
    {
        self.http_start = Some(now_us);
    }

    /// Marks when the first byte of the response came.
    pub fn mark_http_first_byte(&mut self, now_us: u64)
        ensures
            *final(self) == (TimingProbe { http_first_byte: Some(now_us), ..*old(self) }),
    {
        self.http_first_byte = Some(now_us);
    }

    /// Marks when the response was complete.
    pub fn mark_http_end(&mut self, now_us: u64)
        ensures
            *final(self) == (TimingProbe { http_end: Some(now_us), ..*old(self) }),
    {
        self.http_end = Some(now_us);
    }

    /// Times the phase by its length in milliseconds.
    pub fn set_dns_udp_rtt(&mut self, now_us: u64, rtt_ms: u64)
        requires
            now_us + rtt_ms * 1000 <= u64::MAX,
        ensures
            *final(self) == (TimingProbe {
                dns_udp_start: Some(now_us),
                dns_udp_end: Some((now_us + rtt_ms * 1000) as u64),
                ..*old(self)
            }),
    {
        self.dns_udp_start = Some(now_us);
        self.dns_udp_end = Some(now_us + rtt_ms * 1000);
    }

    /// Times the phase by its length in milliseconds.
    pub fn set_dns_doh_rtt(&mut self, now_us: u64, rtt_ms: u64)
        requires
            now_us + rtt_ms * 1000 <= u64::MAX,
        ensures
            *final(self) == (TimingProbe {
                dns_doh_start: Some(now_us),
                dns_doh_end: Some((now_us + rtt_ms * 1000) as u64),
                ..*old(self)
            }),
    {
        self.dns_doh_start = Some(now_us);
        self.dns_doh_end = Some(now_us + rtt_ms * 1000);
    }

    /// Times the phase by its length in milliseconds, from the start of the
    /// request where that was marked, else from now.
    pub fn set_http_first_byte_rtt(&mut self, now_us: u64, rtt_ms: u64)
        requires
            old(self).http_start matches Some(s) ==> s + rtt_ms * 1000 <= u64::MAX,
            old(self).http_start is None ==> now_us + rtt_ms * 1000 <= u64::MAX,
        ensures
            *final(self) == (TimingProbe {
                http_start: Some(
                    match old(self).http_start {
                        Some(s) => s,
                        None => now_us,
                    },
                ),
                http_first_byte: Some(
                    ((match old(self).http_start {
                        Some(s) => s,
                        None => now_us,
                    }) + rtt_ms * 1000) as u64,
                ),
                ..*old(self)
            }),
    {
        let start: u64 = match self.http_start {
            Some(s) => s,
            None => now_us,
        };
        self.http_start = Some(start);
        self.http_first_byte = Some(start + rtt_ms * 1000);
    }

    /// Times the phase by its length in milliseconds, from the start of the
    /// request where that was marked, else from now.
    pub fn set_http_total_rtt(&mut self, now_us: u64, rtt_ms: u64)
        requires
            old(self).http_start matches Some(s) ==> s + rtt_ms * 1000 <= u64::MAX,
            old(self).http_start is None ==> now_us + rtt_ms * 1000 <= u64::MAX,
        ensures
            *final(self) == (TimingProbe {
                http_start: Some(
                    match old(self).http_start {
                        Some(s) => s,
                        None => now_us,
                    },
                ),
                http_end: Some(
                    ((match old(self).http_start {
                        Some(s) => s,
                        None => now_us,
                    }) + rtt_ms * 1000) as u64,
                ),
                ..*old(self)
            }),
    {
        let start: u64 = match self.http_start {
            Some(s) => s,
            None => now_us,
        };
        self.http_start = Some(start);
        self.http_end = Some(start + rtt_ms * 1000);
    }

    /// Computes the features.
    pub fn build_feature_vector(&self, facts: &FeatureFacts) -> (r: FeatureVector)
        ensures
            r == self.features_with(*facts),
    {
        let dns_udp_rtt_ms: u64 = duration_ms(self.dns_udp_start, self.dns_udp_end);
        let dns_doh_rtt_ms: u64 = duration_ms(self.dns_doh_start, self.dns_doh_end);
        let tcp_connect_rtt_ms: u64 = duration_ms(self.tcp_start, self.tcp_end);
        let tls_handshake_rtt_ms: u64 = duration_ms(self.tls_start, self.tls_end);
        let http_first_byte_rtt_ms: u64 = duration_ms(self.http_start, self.http_first_byte);
        let http_total_rtt_ms: u64 = duration_ms(self.http_start, self.http_end);
        let phases: [u64; 4] = [
            dns_udp_rtt_ms,
            tcp_connect_rtt_ms,
            tls_handshake_rtt_ms,
            http_first_byte_rtt_ms,
        ];
        proof {
            lemma_four_squares(
                dns_udp_rtt_ms,
                tcp_connect_rtt_ms,
                tls_handshake_rtt_ms,
                http_first_byte_rtt_ms,
            );
            assert(phases@ =~= seq![
                dns_udp_rtt_ms,
                tcp_connect_rtt_ms,
                tls_handshake_rtt_ms,
                http_first_byte_rtt_ms,
            ]);
        }
        let inter_phase_jitter: Ratio = variance(phases.as_slice());
        FeatureVector {
            dns_udp_rtt_ms,
            dns_doh_rtt_ms,
            dns_udp_response_size: facts.dns_udp_response_size,
            dns_doh_response_size: facts.dns_doh_response_size,
            tcp_connect_rtt_ms,
            tcp_connect_ok: facts.tcp_connect_ok,
            tls_handshake_rtt_ms,
            tls_server_hello_size: facts.tls_server_hello_size,
            tls_cert_count: facts.tls_cert_count,
            tls_handshake_ok: facts.tls_handshake_ok,
            http_first_byte_rtt_ms,
            http_total_rtt_ms,
            http_response_size: facts.http_response_size,
            http_status_code: facts.http_status_code as u64,
            tls_tcp_ratio: quotient_of(tls_handshake_rtt_ms, tcp_connect_rtt_ms),
            http_tls_ratio: quotient_of(http_first_byte_rtt_ms, tls_handshake_rtt_ms),
            inter_phase_jitter,
        }
    }
}

proof fn lemma_four_squares(a: u64, b: u64, c: u64, d: u64)
    requires
        a <= 20_000_000_000_000_000,
        b <= 20_000_000_000_000_000,
        c <= 20_000_000_000_000_000,
        d <= 20_000_000_000_000_000,
    ensures
        4 * squares_of(seq![a, b, c, d]) <= u128::MAX,
{
    let s = seq![a, b, c, d];
    reveal_with_fuel(squares_of, 5);
    assert(s.drop_last() =~= seq![a, b, c]);
    assert(seq![a, b, c].drop_last() =~= seq![a, b]);
    assert(seq![a, b].drop_last() =~= seq![a]);
    assert(seq![a].drop_last() =~= Seq::<u64>::empty());
    assert(a * a <= 400_000_000_000_000_000_000_000_000_000_000) by (nonlinear_arith)
        requires
            a <= 20_000_000_000_000_000,
    ;
    assert(b * b <= 400_000_000_000_000_000_000_000_000_000_000) by (nonlinear_arith)
        requires
            b <= 20_000_000_000_000_000,
    ;
    assert(c * c <= 400_000_000_000_000_000_000_000_000_000_000) by (nonlinear_arith)
        requires
            c <= 20_000_000_000_000_000,
    ;
    assert(d * d <= 400_000_000_000_000_000_000_000_000_000_000) by (nonlinear_arith)
        requires
            d <= 20_000_000_000_000_000,
    ;
}

impl Default for TimingProbe {
    fn default() -> (r: TimingProbe)
        ensures
            r == untimed(),
    {
        TimingProbe::new()
    }
}

/// A phase that is timed by its length comes out with that length.
pub proof fn set_length_is_read_back(now: u64, rtt_ms: u64)
    requires
        now + rtt_ms * 1000 <= u64::MAX,
    ensures
        span_ms(Some(now), Some((now + rtt_ms * 1000) as u64)) == rtt_ms,
{
}

/// Equal times have no variance.
pub proof fn equal_times_have_no_variance(x: u64, n: nat)
    requires
        n > 0,
    ensures
        n * squares_of(Seq::new(n, |i: int| x)) - sum_of(Seq::new(n, |i: int| x)) * sum_of(
            Seq::new(n, |i: int| x),
        ) == 0,
{
    lemma_constant_sums(x, n);
    let a = x as int;
    let m = n as int;
    assert(m * (m * (a * a)) - (m * a) * (m * a) == 0) by (nonlinear_arith);
}

proof fn lemma_constant_sums(x: u64, n: nat)
    ensures
        sum_of(Seq::new(n, |i: int| x)) == n * x,
        squares_of(Seq::new(n, |i: int| x)) == n * (x * x),
    decreases n,
{
    let s = Seq::new(n, |i: int| x);
    if n > 0 {
        lemma_constant_sums(x, (n - 1) as nat);
        assert(s.drop_last() =~= Seq::new((n - 1) as nat, |i: int| x));
        let a = x as int;
        let m = n as int;
        assert((m - 1) * a + a == m * a) by (nonlinear_arith);
        assert((m - 1) * (a * a) + a * a == m * (a * a)) by (nonlinear_arith);
    } else {
        assert(0 * (x as int) == 0 && 0 * ((x as int) * (x as int)) == 0) by (nonlinear_arith);
    }
}

/// A span is as many whole milliseconds as fit between its marks, and zero
/// where a mark is missing or the marks are not in order.
pub proof fn spans_are_whole_milliseconds(start: u64, end: u64)
    ensures
        start <= end ==> span_ms(Some(start), Some(end)) * 1000 <= end - start,
        start <= end ==> end - start < span_ms(Some(start), Some(end)) * 1000 + 1000,
        end <= start ==> span_ms(Some(start), Some(end)) == 0,
        span_ms(None, Some(end)) == 0,
        span_ms(Some(start), None) == 0,
        span_ms(None, None) == 0,
{
}

/// The jitter is how far the four times of the phases lie apart: sixteen times
/// it is the sum of the squares of their six differences.
pub proof fn jitter_is_how_far_times_lie_apart(a: u64, b: u64, c: u64, d: u64)
    requires
        a < 0x100_0000_0000_0000,
        b < 0x100_0000_0000_0000,
        c < 0x100_0000_0000_0000,
        d < 0x100_0000_0000_0000,
    ensures
        variance_of(seq![a, b, c, d]).den == 16,
        variance_of(seq![a, b, c, d]).num == (a - b) * (a - b) + (a - c) * (a - c) + (a - d) * (a
            - d) + (b - c) * (b - c) + (b - d) * (b - d) + (c - d) * (c - d),
{
    let s = seq![a, b, c, d];
    assert(s.drop_last() =~= seq![a, b, c]);
    assert(seq![a, b, c].drop_last() =~= seq![a, b]);
    assert(seq![a, b].drop_last() =~= seq![a]);
    assert(seq![a].drop_last() =~= Seq::<u64>::empty());
    reveal_with_fuel(sum_of, 5);
    reveal_with_fuel(squares_of, 5);
    let (x, y, z, w) = (a as int, b as int, c as int, d as int);
    assert(sum_of(s) == x + y + z + w);
    assert(squares_of(s) == x * x + y * y + z * z + w * w);
    assert(4 * (x * x + y * y + z * z + w * w) - (x + y + z + w) * (x + y + z + w) == (x - y) * (x
        - y) + (x - z) * (x - z) + (x - w) * (x - w) + (y - z) * (y - z) + (y - w) * (y - w) + (z
        - w) * (z - w)) by (nonlinear_arith);
    assert(0 <= 4 * (x * x + y * y + z * z + w * w) - (x + y + z + w) * (x + y + z + w)
        <= 0xffff_ffff_ffff_ffff_ffff_ffff_ffff_ffff) by {
        lemma_square_of_sum(s);
        lemma_small_square(x);
        lemma_small_square(y);
        lemma_small_square(z);
        lemma_small_square(w);
        assert((x + y + z + w) * (x + y + z + w) >= 0) by (nonlinear_arith);
    }
}

proof fn lemma_small_square(x: int)
    requires
        0 <= x < 0x100_0000_0000_0000,
    ensures
        0 <= x * x <= 0x1_0000_0000_0000_0000_0000_0000_0000,
{
    assert(0 <= x * x <= 0x100_0000_0000_0000 * 0x100_0000_0000_0000) by (nonlinear_arith)
        requires
            0 <= x < 0x100_0000_0000_0000,
    ;
}

/// Every time among the features is the span of its own phase, the ratios are
/// those of successive phases, and sizes and outcomes are those handed over.
pub proof fn features_are_those_of_the_phases(t: TimingProbe, facts: FeatureFacts)
    ensures
        ({
            let v = t.features_with(facts);
            &&& v.dns_udp_rtt_ms == span_ms(t.dns_udp_start, t.dns_udp_end)
            &&& v.dns_doh_rtt_ms == span_ms(t.dns_doh_start, t.dns_doh_end)
            &&& v.tcp_connect_rtt_ms == span_ms(t.tcp_start, t.tcp_end)
            &&& v.tls_handshake_rtt_ms == span_ms(t.tls_start, t.tls_end)
            &&& v.http_first_byte_rtt_ms == span_ms(t.http_start, t.http_first_byte)
            &&& v.http_total_rtt_ms == span_ms(t.http_start, t.http_end)
            &&& v.tls_tcp_ratio.num * v.tcp_connect_rtt_ms == v.tls_tcp_ratio.den
                * v.tls_handshake_rtt_ms || v.tcp_connect_rtt_ms == 0
            &&& v.http_tls_ratio.num * v.tls_handshake_rtt_ms == v.http_tls_ratio.den
                * v.http_first_byte_rtt_ms || v.tls_handshake_rtt_ms == 0
            &&& v.tls_tcp_ratio.den > 0 && v.http_tls_ratio.den > 0
            &&& v.tcp_connect_rtt_ms == 0 ==> v.tls_tcp_ratio.num == 0
            &&& v.tls_handshake_rtt_ms == 0 ==> v.http_tls_ratio.num == 0
            &&& v.inter_phase_jitter == variance_of(
                seq![
                    v.dns_udp_rtt_ms,
                    v.tcp_connect_rtt_ms,
                    v.tls_handshake_rtt_ms,
                    v.http_first_byte_rtt_ms,
                ],
            )
            &&& v.tcp_connect_ok == facts.tcp_connect_ok
            &&& v.tls_handshake_ok == facts.tls_handshake_ok
            &&& v.dns_udp_response_size == facts.dns_udp_response_size
            &&& v.dns_doh_response_size == facts.dns_doh_response_size
            &&& v.tls_server_hello_size == facts.tls_server_hello_size
            &&& v.tls_cert_count == facts.tls_cert_count
            &&& v.http_response_size == facts.http_response_size
            &&& v.http_status_code == facts.http_status_code
        }),
{
    let v = t.features_with(facts);
    assert(v.tls_tcp_ratio.num * v.tcp_connect_rtt_ms == v.tls_tcp_ratio.den
        * v.tls_handshake_rtt_ms || v.tcp_connect_rtt_ms == 0) by (nonlinear_arith)
        requires
            v.tcp_connect_rtt_ms > 0 ==> v.tls_tcp_ratio.num == v.tls_handshake_rtt_ms
                && v.tls_tcp_ratio.den == v.tcp_connect_rtt_ms,
    ;
    assert(v.http_tls_ratio.num * v.tls_handshake_rtt_ms == v.http_tls_ratio.den
        * v.http_first_byte_rtt_ms || v.tls_handshake_rtt_ms == 0) by (nonlinear_arith)
        requires
            v.tls_handshake_rtt_ms > 0 ==> v.http_tls_ratio.num == v.http_first_byte_rtt_ms
                && v.http_tls_ratio.den == v.tls_handshake_rtt_ms,
    ;
}

/// The features stand in the order in which they are named, whole numbers over
/// one, and what worked as one or zero.
pub proof fn features_stand_in_order(v: FeatureVector)
    ensures
        ({
            let f = v.features();
            &&& f.len() == 17
            &&& forall|i: int| 0 <= i < 14 ==> (#[trigger] f[i]).den == 1
            &&& f[0].num == v.dns_udp_rtt_ms && f[1].num == v.dns_doh_rtt_ms
            &&& f[2].num == v.dns_udp_response_size && f[3].num == v.dns_doh_response_size
            &&& f[4].num == v.tcp_connect_rtt_ms
            &&& f[5].num == 1 <==> v.tcp_connect_ok
            &&& f[5].num == 0 <==> !v.tcp_connect_ok
            &&& f[6].num == v.tls_handshake_rtt_ms && f[7].num == v.tls_server_hello_size
            &&& f[8].num == v.tls_cert_count
            &&& f[9].num == 1 <==> v.tls_handshake_ok
            &&& f[9].num == 0 <==> !v.tls_handshake_ok
            &&& f[10].num == v.http_first_byte_rtt_ms && f[11].num == v.http_total_rtt_ms
            &&& f[12].num == v.http_response_size && f[13].num == v.http_status_code
            &&& f[14] == v.tls_tcp_ratio && f[15] == v.http_tls_ratio
            &&& f[16] == v.inter_phase_jitter
        }),
{
}

/// Before anything is timed, every time, ratio and the jitter is zero.
pub proof fn nothing_timed_takes_no_time(facts: FeatureFacts)
    ensures
        ({
            let v = untimed().features_with(facts);
            &&& v.dns_udp_rtt_ms == 0 && v.dns_doh_rtt_ms == 0 && v.tcp_connect_rtt_ms == 0
            &&& v.tls_handshake_rtt_ms == 0 && v.http_first_byte_rtt_ms == 0
            &&& v.http_total_rtt_ms == 0 && v.tls_tcp_ratio.num == 0 && v.http_tls_ratio.num == 0
            &&& v.inter_phase_jitter.num == 0
        }),
{
    jitter_is_how_far_times_lie_apart(0, 0, 0, 0);
}

/// Nothing varies where there is nothing, or only one time.
pub proof fn single_times_do_not_vary(a: u64)
    ensures
        variance_of(Seq::empty()).num == 0,
        variance_of(Seq::empty()).den > 0,
        variance_of(seq![a]).num == 0,
        variance_of(seq![a]).den > 0,
{
    reveal_with_fuel(sum_of, 2);
    reveal_with_fuel(squares_of, 2);
    assert(seq![a].drop_last() =~= Seq::<u64>::empty());
}

} // verus!
