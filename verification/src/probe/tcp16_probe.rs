//! Finding connections that break after some amount of data.
use vstd::prelude::*;
use vstd::string::StringExecFns;

use crate::probe::config::ProbeConfig;
use crate::text::{hex_lower, hex_text, owned};

verus! {

/// What a data-volume probe found.
#[derive(Debug, Clone, Copy, PartialEq, Eq, Structural)]
pub struct Tcp16ProbeResult {
    /// Whether the connection broke.
    pub detected: bool,
    /// After how many kilobytes it broke.
    pub detected_at_kb: u64,
    pub requests_sent: u32,
    /// The measured round trip in microseconds.
    pub rtt_us: u64,
}

impl Default for Tcp16ProbeResult {
    fn default() -> (r: Tcp16ProbeResult)
        ensures
            r == nothing_sent(),
    {
        not_started()
    }
}

/// The result where no connection was made, or the probe ran out of time.
pub open spec fn nothing_sent() -> Tcp16ProbeResult {
    Tcp16ProbeResult { detected: false, detected_at_kb: 0, requests_sent: 0, rtt_us: 0 }
}

/// The result where no connection was made, or the probe ran out of time.
pub fn not_started() -> (r: Tcp16ProbeResult)
    ensures
        r == nothing_sent(),
{
    Tcp16ProbeResult { detected: false, detected_at_kb: 0, requests_sent: 0, rtt_us: 0 }
}

/// The mean of the measured round trips; five seconds where there is none.
pub fn average_rtt_us(total_us: u64, count: u32) -> (r: u64)
    ensures
        r == (if count > 0 {
            total_us / (count as u64)
        } else {
            5_000_000
        }),
{
    if count > 0 {
        total_us / (count as u64)
    } else {
        5_000_000
    }
}

/// The time allowed for a request: some round trips, at least the minimum, at
/// most twelve seconds.
pub open spec fn request_timeout(avg_rtt_us: nat, factor_milli: nat, min_ms: nat) -> nat {
    let wanted = avg_rtt_us * factor_milli / 1000;
    let floor = min_ms * 1000;
    let raised = if wanted > floor {
        wanted
    } else {
        floor
    };
    if raised > 12_000_000 {
        12_000_000
    } else {
        raised
    }
}

/// The time allowed for a request in microseconds.
pub fn request_timeout_us(config: &ProbeConfig, avg_rtt_us: u64) -> (r: u64)
    ensures
        r == request_timeout(
            avg_rtt_us as nat,
            config.tcp16_timeout_factor_milli as nat,
            config.tcp16_min_timeout_ms as nat,
        ),
{
    assert(avg_rtt_us * config.tcp16_timeout_factor_milli <= u64::MAX * u64::MAX) by (
        nonlinear_arith)
        requires
            avg_rtt_us <= u64::MAX,
            config.tcp16_timeout_factor_milli <= u64::MAX,
    ;
    let wanted: u128 = (avg_rtt_us as u128) * (config.tcp16_timeout_factor_milli as u128) / 1000;
    let floor: u128 = (config.tcp16_min_timeout_ms as u128) * 1000;
    let raised: u128 = if wanted > floor {
        wanted
    } else {
        floor
    };
    if raised > 12_000_000 {
        12_000_000
    } else {
        raised as u64
    }
}

/// One byte of padding: a byte of the seed, moved by its place.
pub open spec fn padding_byte(seed: u64, i: int) -> u8 {
    let moved = ((seed + i) % 0x1_0000_0000_0000_0000) as nat;
    let shift = vstd::arithmetic::power2::pow2((8 * (i % 8)) as nat);
    ((moved / shift) % 256) as u8
}

fn shifted_byte(moved: u64, place: usize) -> (r: u8)
    requires
        place < 8,
    ensures
        r == ((moved as nat / vstd::arithmetic::power2::pow2((8 * place) as nat)) % 256) as u8,
{
    proof {
        vstd::arithmetic::power2::lemma2_to64();
        vstd::arithmetic::power2::lemma2_to64_rest();
    }
    let divisor: u64 = match place {
        0 => 1,
        1 => 0x100,
        2 => 0x1_0000,
        3 => 0x100_0000,
        4 => 0x1_0000_0000,
        5 => 0x100_0000_0000,
        6 => 0x1_0000_0000_0000,
        _ => 0x100_0000_0000_0000,
    };
    assert(divisor == vstd::arithmetic::power2::pow2((8 * place) as nat));
    ((moved / divisor) % 256) as u8
}

/// Padding of a given size, spread out from a seed.
pub fn generate_padding(seed: u64, size: usize) -> (r: Vec<u8>)
    ensures
        r@ == Seq::new(size as nat, |i: int| padding_byte(seed, i)),
{
    let mut r: Vec<u8> = Vec::new();
    let mut i: usize = 0;
    while i < size
        invariant
            i <= size,
            r@ == Seq::new(i as nat, |j: int| padding_byte(seed, j)),
        decreases size - i,
    {
        let moved: u64 = seed.wrapping_add(i as u64);
        assert(moved == (seed + i) % 0x1_0000_0000_0000_0000);
        r.push(shifted_byte(moved, i % 8));
        i = i + 1;
        assert(r@ =~= Seq::new(i as nat, |j: int| padding_byte(seed, j)));
    }
    r
}

/// Bytes in hexadecimal.
pub fn hex_encode(data: &[u8]) -> (r: String)
    ensures
        r@ == hex_text(data@),
{
    hex_lower(data)
}

/// A request that measures the round trip.
pub fn plain_request(domain: &str) -> (r: String)
    ensures
        r@ == "HEAD / HTTP/1.1\r\nHost: "@ + domain@ + "\r\nConnection: keep-alive\r\n\r\n"@,
{
    let mut r: String = owned("HEAD / HTTP/1.1\r\nHost: ");
    r.append(domain);
    r.append("\r\nConnection: keep-alive\r\n\r\n");
    r
}

/// A request that carries padding.
pub fn padded_request(domain: &str, padding: &[u8]) -> (r: String)
    ensures
        r@ == "HEAD / HTTP/1.1\r\nHost: "@ + domain@ + "\r\nX-Pad: "@ + hex_text(padding@)
            + "\r\nConnection: keep-alive\r\n\r\n"@,
{
    let mut r: String = owned("HEAD / HTTP/1.1\r\nHost: ");
    r.append(domain);
    r.append("\r\nX-Pad: ");
    let hex: String = hex_encode(padding);
    r.append(hex.as_str());
    r.append("\r\nConnection: keep-alive\r\n\r\n");
    r
}

/// The result where the request with number `failed_at`, counted from zero,
/// could not be sent, or all could.
pub open spec fn volume_outcome(
    pad_size: usize,
    requests: usize,
    failed_at: Option<u32>,
    avg_rtt_us: u64,
) -> Tcp16ProbeResult {
    match failed_at {
        Some(i) => Tcp16ProbeResult {
            detected: true,
            detected_at_kb: (i * pad_size / 1024) as u64,
            requests_sent: (i + 1) as u32,
            rtt_us: avg_rtt_us,
        },
        None => Tcp16ProbeResult {
            detected: false,
            detected_at_kb: 0,
            requests_sent: (requests as int % 0x1_0000_0000) as u32,
            rtt_us: avg_rtt_us,
        },
    }
}

/// The settings of a data-volume probe.
#[derive(Debug)]
pub struct Tcp16Probe {
    pub config: ProbeConfig,
}

impl Tcp16Probe {
    /// A probe with the given settings.
    pub fn new(config: ProbeConfig) -> (r: Tcp16Probe)
        ensures
            r.config == config,
    {
        Tcp16Probe { config }
    }

    /// The result where the request with number `failed_at`, counted from
    /// zero, could not be sent, or all could.
    pub fn volume_result(&self, failed_at: Option<u32>, avg_rtt_us: u64) -> (r: Tcp16ProbeResult)
        requires
            failed_at matches Some(i) ==> i < u32::MAX && i * self.config.tcp16_pad_size
                <= u64::MAX,
        ensures
            r == volume_outcome(
                self.config.tcp16_pad_size,
                self.config.tcp16_requests,
                failed_at,
                avg_rtt_us,
            ),
    {
        match failed_at {
            Some(i) => Tcp16ProbeResult {
                detected: true,
                detected_at_kb: ((i as u64) * (self.config.tcp16_pad_size as u64)) / 1024,
                requests_sent: i + 1,
                rtt_us: avg_rtt_us,
            },
            None => Tcp16ProbeResult {
                detected: false,
                detected_at_kb: 0,
                requests_sent: (self.config.tcp16_requests as u64 % 0x1_0000_0000) as u32,
                rtt_us: avg_rtt_us,
            },
        }
    }
}

/// The time allowed for a request never exceeds twelve seconds and, up to
/// that, is never under the minimum.
pub proof fn request_timeout_is_bounded(avg: nat, factor_milli: nat, min_ms: nat)
    ensures
        request_timeout(avg, factor_milli, min_ms) <= 12_000_000,
        min_ms <= 12_000 ==> request_timeout(avg, factor_milli, min_ms) >= min_ms * 1000,
{
}

/// The time allowed for a request is the mean round trip times the factor,
/// raised to the minimum, and never above twelve seconds; it grows with the
/// round trip, the factor and the minimum.
pub proof fn request_timeouts_follow_the_round_trip(
    avg: nat,
    factor_milli: nat,
    min_ms: nat,
    avg2: nat,
    min2_ms: nat,
)
    ensures
        ({
            let t = request_timeout(avg, factor_milli, min_ms);
            let scaled = avg * factor_milli / 1000;
            &&& scaled <= 12_000_000 && scaled >= min_ms * 1000 ==> t == scaled
            &&& scaled < min_ms * 1000 && min_ms <= 12_000 ==> t == min_ms * 1000
            &&& scaled > 12_000_000 || min_ms > 12_000 ==> t == 12_000_000
        }),
        avg <= avg2 ==> request_timeout(avg, factor_milli, min_ms) <= request_timeout(
            avg2,
            factor_milli,
            min_ms,
        ),
        min_ms <= min2_ms ==> request_timeout(avg, factor_milli, min_ms) <= request_timeout(
            avg,
            factor_milli,
            min2_ms,
        ),
{
    if avg <= avg2 {
        assert(avg * factor_milli / 1000 <= avg2 * factor_milli / 1000) by (nonlinear_arith)
            requires
                avg <= avg2,
        ;
    }
}

/// A cut is reported exactly where a request could not be sent: how many were
/// tried, and after how many kilobytes of padding, counted in whole ones, it
/// came. Without a cut all requests count as sent.
pub proof fn cuts_are_reported_where_they_came(
    pad_size: usize,
    requests: usize,
    failed_at: Option<u32>,
    avg_rtt_us: u64,
)
    requires
        failed_at matches Some(i) ==> i < u32::MAX && i * pad_size <= u64::MAX,
    ensures
        ({
            let r = volume_outcome(pad_size, requests, failed_at, avg_rtt_us);
            &&& r.detected <==> failed_at is Some
            &&& r.rtt_us == avg_rtt_us
            &&& failed_at matches Some(i) ==> {
                &&& r.requests_sent == i + 1
                &&& r.detected_at_kb * 1024 <= i * pad_size < (r.detected_at_kb + 1) * 1024
            }
            &&& failed_at is None ==> r.detected_at_kb == 0 && (requests < 0x1_0000_0000int
                ==> r.requests_sent == requests)
        }),
{
    if let Some(i) = failed_at {
        let sent = i * pad_size;
        assert(sent >= 0) by (nonlinear_arith)
            requires
                sent == i * pad_size,
                i >= 0,
                pad_size >= 0,
        ;
    }
}

/// The padding counts on from its seed: its bytes are those of the numbers from
/// the seed on, the lowest byte of one, the next byte of the next, and so on
/// with every eighth place like the first.
pub proof fn padding_counts_on_from_its_seed(seed: u64, i: int)
    requires
        0 <= i,
        seed + 8 * i + 7 <= u64::MAX,
    ensures
        padding_byte(seed, 8 * i) == (seed + 8 * i) % 256,
        padding_byte(seed, 8 * i + 1) == (seed + 8 * i + 1) / 0x100 % 256,
        padding_byte(seed, 8 * i + 2) == (seed + 8 * i + 2) / 0x1_0000 % 256,
        padding_byte(seed, 8 * i + 3) == (seed + 8 * i + 3) / 0x100_0000 % 256,
        padding_byte(seed, 8 * i + 4) == (seed + 8 * i + 4) / 0x1_0000_0000 % 256,
        padding_byte(seed, 8 * i + 5) == (seed + 8 * i + 5) / 0x100_0000_0000 % 256,
        padding_byte(seed, 8 * i + 6) == (seed + 8 * i + 6) / 0x1_0000_0000_0000 % 256,
        padding_byte(seed, 8 * i + 7) == (seed + 8 * i + 7) / 0x100_0000_0000_0000 % 256,
{
    vstd::arithmetic::power2::lemma2_to64();
    vstd::arithmetic::power2::lemma2_to64_rest();
    assert((8 * i) % 8 == 0);
    assert(8 * ((8 * i) % 8) == 0);
    let moved = (seed + 8 * i) as nat;
    assert(moved / vstd::arithmetic::power2::pow2(0) == moved) by {
        assert(vstd::arithmetic::power2::pow2(0) == 1);
    }
    assert((seed + 8 * i) % 0x1_0000_0000_0000_0000 == seed + 8 * i);
}

} // verus!
