//! Probing TCP: several addresses race, the first to connect wins.
use vstd::prelude::*;

use crate::probe::classifier::TcpFailureCode;
use crate::probe::config::ProbeConfig;
use crate::text::{contains, lowercase_of, occurs, to_lowercase};

verus! {

/// What a TCP probe found.
#[derive(Debug, Clone, Copy, PartialEq, Eq, Structural)]
pub struct TcpProbeResult {
    pub verdict: TcpFailureCode,
    pub rtt_us: u64,
    pub ip: Option<u32>,
}

impl Default for TcpProbeResult {
    fn default() -> (r: TcpProbeResult)
        ensures
            r == (TcpProbeResult { verdict: TcpFailureCode::ConnectOk, rtt_us: 0, ip: None }),
    {
        TcpProbeResult { verdict: TcpFailureCode::ConnectOk, rtt_us: 0, ip: None }
    }
}

/// The result where no address was tried.
pub open spec fn no_attempt() -> TcpProbeResult {
    TcpProbeResult { verdict: TcpFailureCode::Timeout, rtt_us: 0, ip: None }
}

/// What a connection error, in lower case, says.
pub open spec fn lowered_error_code(err: Seq<char>) -> TcpFailureCode {
    if occurs(err, "connection reset"@) || occurs(err, "connection refused"@) {
        if occurs(err, "refused"@) {
            TcpFailureCode::Refused
        } else {
            TcpFailureCode::Reset
        }
    } else if occurs(err, "unreachable"@) || occurs(err, "no route"@) {
        TcpFailureCode::Unreachable
    } else {
        TcpFailureCode::Timeout
    }
}

/// Judges a connection error whose text is in lower case.
pub fn classify_lowered_error(err: &str) -> (r: TcpFailureCode)
    ensures
        r == lowered_error_code(err@),
{
    if contains(err, "connection reset") || contains(err, "connection refused") {
        if contains(err, "refused") {
            TcpFailureCode::Refused
        } else {
            TcpFailureCode::Reset
        }
    } else if contains(err, "unreachable") || contains(err, "no route") {
        TcpFailureCode::Unreachable
    } else {
        TcpFailureCode::Timeout
    }
}

/// How the attempt at one address went.
#[derive(Debug, Clone)]
pub enum ConnectAttempt {
    Connected { elapsed_us: u64 },
    /// The attempt failed, with the text of the error.
    Failed { error: String, elapsed_us: u64 },
    TimedOut,
}

/// What the attempt at one address comes to.
pub open spec fn attempt_came_to(
    ip: u32,
    attempt: ConnectAttempt,
    timeout_ms: u64,
    r: TcpProbeResult,
) -> bool {
    &&& r.ip == Some(ip)
    &&& match attempt {
        ConnectAttempt::Connected { elapsed_us } => r.verdict == TcpFailureCode::ConnectOk
            && r.rtt_us == elapsed_us,
        ConnectAttempt::Failed { error, elapsed_us } => r.verdict == lowered_error_code(
            lowercase_of(error@),
        ) && r.rtt_us == elapsed_us,
        ConnectAttempt::TimedOut => r.verdict == TcpFailureCode::Timeout && r.rtt_us == (timeout_ms
            * 1000) % 0x1_0000_0000_0000_0000,
    }
}

/// Which of the addresses race.
#[derive(Debug)]
pub struct TcpProbe {
    config: ProbeConfig,
}

impl TcpProbe {
    /// The settings of the probe.
    pub closed spec fn settings(&self) -> ProbeConfig {
        self.config
    }

    /// A probe with the given settings.
    pub fn new(config: ProbeConfig) -> (r: TcpProbe)
        ensures
            r.settings() == config,
    {
        TcpProbe { config }
    }

    /// How many of `available` addresses race.
    pub fn race_size(&self, available: usize) -> (r: usize)
        ensures
            r == (if self.settings().tcp_race_count < available {
                self.settings().tcp_race_count
            } else {
                available
            }),
    {
        if self.config.tcp_race_count < available {
            self.config.tcp_race_count
        } else {
            available
        }
    }

    /// The result of the attempt at one address. An attempt that timed out
    /// took the time that was allowed, of which 64 bits of microseconds count.
    pub fn single_result(&self, ip: u32, attempt: &ConnectAttempt) -> (r: TcpProbeResult)
        ensures
            attempt_came_to(ip, *attempt, self.settings().tcp_connect_timeout_ms, r),
    {
        match attempt {
            ConnectAttempt::Connected { elapsed_us } => TcpProbeResult {
                verdict: TcpFailureCode::ConnectOk,
                rtt_us: *elapsed_us,
                ip: Some(ip),
            },
            ConnectAttempt::Failed { error, elapsed_us } => {
                let lowered: String = to_lowercase(error.as_str());
                TcpProbeResult {
                    verdict: classify_lowered_error(lowered.as_str()),
                    rtt_us: *elapsed_us,
                    ip: Some(ip),
                }
            },
            ConnectAttempt::TimedOut => TcpProbeResult {
                verdict: TcpFailureCode::Timeout,
                rtt_us: self.config.tcp_connect_timeout_ms.wrapping_mul(1000),
                ip: Some(ip),
            },
        }
    }
}

/// The first connection from `i` on.
pub open spec fn first_connected(results: Seq<TcpProbeResult>, i: int) -> Option<TcpProbeResult>
    decreases results.len() - i,
{
    if i < 0 || i >= results.len() {
        None
    } else if results[i].verdict == TcpFailureCode::ConnectOk {
        Some(results[i])
    } else {
        first_connected(results, i + 1)
    }
}

/// The outcome of a race: the first connection, else the first result, else
/// a timeout.
pub open spec fn race_outcome(results: Seq<TcpProbeResult>) -> TcpProbeResult {
    match first_connected(results, 0) {
        Some(r) => r,
        None => if results.len() > 0 {
            results[0]
        } else {
            no_attempt()
        },
    }
}

/// Picks the outcome of a race.
pub fn pick_winner(results: &Vec<TcpProbeResult>) -> (r: TcpProbeResult)
    ensures
        r == race_outcome(results@),
{
    let mut i: usize = 0;
    while i < results.len()
        invariant
            i <= results@.len(),
            first_connected(results@, 0) == first_connected(results@, i as int),
        decreases results@.len() - i,
    {
        if results[i].verdict == TcpFailureCode::ConnectOk {
            return results[i];
        }
        i = i + 1;
    }
    if results.len() > 0 {
        results[0]
    } else {
        TcpProbeResult { verdict: TcpFailureCode::Timeout, rtt_us: 0, ip: None }
    }
}

/// A race succeeds exactly where one of its attempts did.
pub proof fn race_succeeds_iff_one_does(results: Seq<TcpProbeResult>)
    ensures
        race_outcome(results).verdict == TcpFailureCode::ConnectOk <==> exists|i: int|
            0 <= i < results.len() && (#[trigger] results[i]).verdict == TcpFailureCode::ConnectOk,
{
    lemma_first_connected(results, 0);
}

proof fn lemma_first_connected(results: Seq<TcpProbeResult>, i: int)
    requires
        0 <= i <= results.len(),
    ensures
        match first_connected(results, i) {
            Some(r) => r.verdict == TcpFailureCode::ConnectOk && exists|j: int|
                i <= j < results.len() && (#[trigger] results[j]) == r,
            None => forall|j: int|
                i <= j < results.len() ==> (#[trigger] results[j]).verdict
                    != TcpFailureCode::ConnectOk,
        },
    decreases results.len() - i,
{
    if i < results.len() && results[i].verdict != TcpFailureCode::ConnectOk {
        lemma_first_connected(results, i + 1);
    }
}

/// A race is won by the first attempt, in the order of the addresses, that
/// connected; where none did, the first attempt speaks for all; where there was
/// none, that is a timeout.
pub proof fn the_first_to_connect_wins(results: Seq<TcpProbeResult>, i: int)
    requires
        0 <= i < results.len(),
        results[i].verdict == TcpFailureCode::ConnectOk || i == 0,
        results[i].verdict == TcpFailureCode::ConnectOk ==> forall|k: int|
            0 <= k < i ==> (#[trigger] results[k]).verdict != TcpFailureCode::ConnectOk,
        results[i].verdict != TcpFailureCode::ConnectOk ==> forall|k: int|
            0 <= k < results.len() ==> (#[trigger] results[k]).verdict != TcpFailureCode::ConnectOk,
    ensures
        race_outcome(results) == results[i],
        race_outcome(seq![]) == (TcpProbeResult {
            verdict: TcpFailureCode::Timeout,
            rtt_us: 0,
            ip: None,
        }),
{
    lemma_first_is(results, 0, i);
    lemma_first_connected(results, 0);
}

proof fn lemma_first_is(results: Seq<TcpProbeResult>, n: int, i: int)
    requires
        0 <= n <= i < results.len(),
        results[i].verdict == TcpFailureCode::ConnectOk ==> forall|k: int|
            n <= k < i ==> (#[trigger] results[k]).verdict != TcpFailureCode::ConnectOk,
    ensures
        results[i].verdict == TcpFailureCode::ConnectOk ==> first_connected(results, n) == Some(
            results[i],
        ),
    decreases i - n,
{
    if n < i {
        lemma_first_is(results, n + 1, i);
    }
}

/// What the attempt at an address means: a connection is one and took its time;
/// a refusal, a reset and an unreachable host are told by the words of the
/// error; any other failure, and an attempt that was given up, is a timeout.
pub proof fn attempts_are_told_by_their_words(
    ip: u32,
    attempt: ConnectAttempt,
    timeout_ms: u64,
    r: TcpProbeResult,
)
    requires
        attempt_came_to(ip, attempt, timeout_ms, r),
    ensures
        r.ip == Some(ip),
        r.verdict == TcpFailureCode::ConnectOk <==> attempt is Connected,
        r.verdict != TcpFailureCode::DataVolumeCut,
        attempt matches ConnectAttempt::Connected { elapsed_us } ==> r.rtt_us == elapsed_us,
        attempt is TimedOut ==> r.verdict == TcpFailureCode::Timeout && (timeout_ms <= 1_000_000_000
            ==> r.rtt_us == timeout_ms * 1000),
        attempt matches ConnectAttempt::Failed { error, elapsed_us } ==> ({
            let words = lowercase_of(error@);
            let broken = occurs(words, "connection reset"@) || occurs(
                words,
                "connection refused"@,
            );
            let unreachable = occurs(words, "unreachable"@) || occurs(words, "no route"@);
            &&& r.rtt_us == elapsed_us
            &&& r.verdict == TcpFailureCode::Refused <==> broken && occurs(words, "refused"@)
            &&& r.verdict == TcpFailureCode::Reset <==> broken && !occurs(words, "refused"@)
            &&& r.verdict == TcpFailureCode::Unreachable <==> !broken && unreachable
            &&& r.verdict == TcpFailureCode::Timeout <==> !broken && !unreachable
        }),
{
}

} // verus!
