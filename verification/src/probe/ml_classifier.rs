//! Judging an anomaly score and saying what it rests on.
//!
//! Scores and contributions are counted in millionths.
use vstd::prelude::*;
use vstd::string::StringExecFns;

use crate::text::{decimal, owned, push_decimal};

verus! {

/// A score above this is a block.
pub const BLOCKED_THRESHOLD: u32 = 700_000;

/// A score below this is clear.
pub const CLEAR_THRESHOLD: u32 = 300_000;

/// What an anomaly score says.
#[derive(Debug, Clone, Copy, PartialEq, Eq, Structural)]
pub enum MlVerdict {
    /// Ordinary traffic.
    Clear,
    /// Suspicious; probe again.
    Suspicious,
    /// A block.
    Blocked,
}

impl Default for MlVerdict {
    fn default() -> (r: MlVerdict)
        ensures
            r == MlVerdict::Clear,
    {
        MlVerdict::Clear
    }
}

/// An anomaly score and what it rests on.
#[derive(Debug, Clone)]
pub struct MlResult {
    /// The score in millionths.
    pub score: u32,
    pub verdict: MlVerdict,
    /// The features that weigh most, with their weight in millionths.
    pub top_features: Vec<(String, u64)>,
}

impl Default for MlResult {
    fn default() -> (r: MlResult)
        ensures
            r.score == 0,
            r.verdict == MlVerdict::Clear,
            r.top_features@.len() == 0,
    {
        MlResult { score: 0, verdict: MlVerdict::Clear, top_features: Vec::new() }
    }
}

/// What a score says.
pub open spec fn score_verdict(score: u32) -> MlVerdict {
    if score > BLOCKED_THRESHOLD {
        MlVerdict::Blocked
    } else if score < CLEAR_THRESHOLD {
        MlVerdict::Clear
    } else {
        MlVerdict::Suspicious
    }
}

/// The name of a feature.
pub open spec fn feature_label(index: nat) -> Seq<char> {
    if index == 0 {
        "dns_udp_rtt_ms"@
    } else if index == 1 {
        "dns_doh_rtt_ms"@
    } else if index == 2 {
        "dns_udp_response_size"@
    } else if index == 3 {
        "dns_doh_response_size"@
    } else if index == 4 {
        "tcp_connect_rtt_ms"@
    } else if index == 5 {
        "tcp_connect_ok"@
    } else if index == 6 {
        "tls_handshake_rtt_ms"@
    } else if index == 7 {
        "tls_server_hello_size"@
    } else if index == 8 {
        "tls_cert_count"@
    } else if index == 9 {
        "tls_handshake_ok"@
    } else if index == 10 {
        "http_first_byte_rtt_ms"@
    } else if index == 11 {
        "http_total_rtt_ms"@
    } else if index == 12 {
        "http_response_size"@
    } else if index == 13 {
        "http_status_code"@
    } else if index == 14 {
        "tls_tcp_ratio"@
    } else if index == 15 {
        "http_tls_ratio"@
    } else if index == 16 {
        "inter_phase_jitter"@
    } else {
        "unknown_"@ + decimal(index)
    }
}

/// The name of a feature.
pub fn feature_name(index: usize) -> (r: String)
    ensures
        r@ == feature_label(index as nat),
{
    match index {
        0 => owned("dns_udp_rtt_ms"),
        1 => owned("dns_doh_rtt_ms"),
        2 => owned("dns_udp_response_size"),
        3 => owned("dns_doh_response_size"),
        4 => owned("tcp_connect_rtt_ms"),
        5 => owned("tcp_connect_ok"),
        6 => owned("tls_handshake_rtt_ms"),
        7 => owned("tls_server_hello_size"),
        8 => owned("tls_cert_count"),
        9 => owned("tls_handshake_ok"),
        10 => owned("http_first_byte_rtt_ms"),
        11 => owned("http_total_rtt_ms"),
        12 => owned("http_response_size"),
        13 => owned("http_status_code"),
        14 => owned("tls_tcp_ratio"),
        15 => owned("http_tls_ratio"),
        16 => owned("inter_phase_jitter"),
        _ => {
            let mut r: String = owned("unknown_");
            push_decimal(&mut r, index as u64);
            r
        },
    }
}

/// Whether one contribution ranks before another: it is larger, or as large
/// and earlier.
pub open spec fn ranks_before(c: Seq<u64>, i: int, j: int) -> bool {
    c[i] > c[j] || (c[i] == c[j] && i < j)
}

/// The contribution that ranks first among the first `n` outside `picks`.
pub open spec fn next_pick(c: Seq<u64>, picks: Seq<usize>, n: int) -> Option<usize>
    decreases n,
{
    if n <= 0 {
        None
    } else {
        let best = next_pick(c, picks, n - 1);
        if picks.contains((n - 1) as usize) {
            best
        } else {
            match best {
                None => Some((n - 1) as usize),
                Some(j) => if c[n - 1] > c[j as int] {
                    Some((n - 1) as usize)
                } else {
                    best
                },
            }
        }
    }
}

/// The `k` contributions that rank first, in order.
pub open spec fn leaders(c: Seq<u64>, k: nat) -> Seq<usize>
    decreases k,
{
    if k == 0 {
        Seq::empty()
    } else {
        let picks = leaders(c, (k - 1) as nat);
        match next_pick(c, picks, c.len() as int) {
            Some(j) => picks.push(j),
            None => picks,
        }
    }
}

fn holds(picks: &Vec<usize>, i: usize) -> (r: bool)
    ensures
        r == picks@.contains(i),
{
    let mut k: usize = 0;
    while k < picks.len()
        invariant
            k <= picks@.len(),
            forall|m: int| 0 <= m < k ==> picks@[m] != i,
        decreases picks@.len() - k,
    {
        if picks[k] == i {
            assert(picks@[k as int] == i);
            return true;
        }
        k = k + 1;
    }
    false
}

fn pick(c: &Vec<u64>, picks: &Vec<usize>) -> (r: Option<usize>)
    ensures
        r == next_pick(c@, picks@, c@.len() as int),
        r matches Some(j) ==> j < c@.len(),
{
    let mut best: Option<usize> = None;
    let mut i: usize = 0;
    while i < c.len()
        invariant
            i <= c@.len(),
            best == next_pick(c@, picks@, i as int),
            best matches Some(j) ==> j < i,
        decreases c@.len() - i,
    {
        if !holds(picks, i) {
            match best {
                None => {
                    best = Some(i);
                },
                Some(j) => {
                    if c[i] > c[j] {
                        best = Some(i);
                    }
                },
            }
        }
        i = i + 1;
    }
    best
}

/// The places of the `k` contributions that rank first, in order.
pub fn rank(c: &Vec<u64>, k: usize) -> (r: Vec<usize>)
    ensures
        r@ == leaders(c@, k as nat),
        forall|i: int| 0 <= i < r@.len() ==> #[trigger] r@[i] < c@.len(),
{
    let mut picks: Vec<usize> = Vec::new();
    let mut n: usize = 0;
    while n < k
        invariant
            n <= k,
            picks@ == leaders(c@, n as nat),
            forall|i: int| 0 <= i < picks@.len() ==> #[trigger] picks@[i] < c@.len(),
        decreases k - n,
    {
        if let Some(j) = pick(c, &picks) {
            picks.push(j);
        }
        n = n + 1;
    }
    picks
}

/// The trained weights of the features, in thousandths.
pub open spec fn trained_weights() -> Seq<i32> {
    seq![
        -10i32 as i32,
        -10i32 as i32,
        5i32,
        5i32,
        -2000i32 as i32,
        -3000i32 as i32,
        10i32,
        5i32,
        0i32,
        -3000i32 as i32,
        10i32,
        5i32,
        1i32,
        2i32,
        1500i32,
        1000i32,
        500i32,
    ]
}

/// Judges anomaly scores.
#[derive(Debug, Clone, Copy)]
pub struct MlClassifier {
    /// Weights of the features in thousandths, in the order of the features.
    pub weights: [i32; 17],
    /// What is added to the weighted sum, in thousandths.
    pub bias: i32,
}

impl MlClassifier {
    /// The trained weights: connections and handshakes that work speak for a
    /// clear path, odd ratios of times and jitter against it.
    pub fn new() -> (r: MlClassifier)
        ensures
            r.weights@ == trained_weights(),
            r.bias == 1000,
    {
        let r: MlClassifier = MlClassifier {
            weights: [
                -10, -10, 5, 5, -2000, -3000, 10, 5, 0, -3000, 10, 5, 1, 2, 1500, 1000, 500,
            ],
            bias: 1000,
        };
        assert(r.weights@ =~= trained_weights());
        r
    }

    /// Judges a score, given what each feature contributed to it.
    pub fn judge(&self, score: u32, contributions: &Vec<u64>) -> (r: MlResult)
        ensures
            r.score == score,
            r.verdict == score_verdict(score),
            r.top_features@.len() == leaders(contributions@, 3).len(),
            forall|i: int|
                0 <= i < r.top_features@.len() ==> {
                    let place = leaders(contributions@, 3)[i];
                    &&& (#[trigger] r.top_features@[i]).0@ == feature_label(place as nat)
                    &&& r.top_features@[i].1 == contributions@[place as int]
                },
    {
        let picks: Vec<usize> = rank(contributions, 3);
        let mut top_features: Vec<(String, u64)> = Vec::new();
        let mut i: usize = 0;
        while i < picks.len()
            invariant
                i <= picks@.len(),
                picks@ == leaders(contributions@, 3),
                forall|k: int|
                    0 <= k < picks@.len() ==> #[trigger] picks@[k] < contributions@.len(),
                top_features@.len() == i,
                forall|k: int|
                    0 <= k < i ==> {
                        let place = leaders(contributions@, 3)[k];
                        &&& (#[trigger] top_features@[k]).0@ == feature_label(place as nat)
                        &&& top_features@[k].1 == contributions@[place as int]
                    },
            decreases picks@.len() - i,
        {
            let place: usize = picks[i];
            top_features.push((feature_name(place), contributions[place]));
            i = i + 1;
        }
        let verdict: MlVerdict = if score > BLOCKED_THRESHOLD {
            MlVerdict::Blocked
        } else if score < CLEAR_THRESHOLD {
            MlVerdict::Clear
        } else {
            MlVerdict::Suspicious
        };
        MlResult { score, verdict, top_features }
    }
}

impl Default for MlClassifier {
    fn default() -> (r: MlClassifier)
        ensures
            r.weights@ == trained_weights(),
            r.bias == 1000,
    {
        MlClassifier::new()
    }
}

proof fn lemma_next_pick(c: Seq<u64>, picks: Seq<usize>, n: int)
    requires
        0 <= n <= c.len() <= usize::MAX,
    ensures
        match next_pick(c, picks, n) {
            Some(j) => {
                &&& 0 <= j < n
                &&& !picks.contains(j)
                &&& forall|i: int|
                    #![trigger ranks_before(c, j as int, i)]
                    0 <= i < n && i != j && !picks.contains(i as usize) ==> ranks_before(
                        c,
                        j as int,
                        i,
                    )
            },
            None => forall|i: int| 0 <= i < n ==> picks.contains(#[trigger] (i as usize)),
        },
    decreases n,
{
    if n > 0 {
        lemma_next_pick(c, picks, n - 1);
        match next_pick(c, picks, n - 1) {
            Some(b) => {
                assert forall|i: int|
                    #![trigger ranks_before(c, next_pick(c, picks, n)->0 as int, i)]
                    0 <= i < n && i != next_pick(c, picks, n)->0 && !picks.contains(
                        i as usize,
                    ) implies ranks_before(c, next_pick(c, picks, n)->0 as int, i) by {
                    if i < n - 1 && i != b {
                        assert(ranks_before(c, b as int, i));
                    }
                }
            },
            None => {
                assert forall|i: int| 0 <= i < n - 1 implies picks.contains(
                    #[trigger] (i as usize),
                ) by {}
            },
        }
    }
}

/// The leaders are distinct, each ranks before the next, and everything that
/// is left out ranks after all of them.
pub proof fn leaders_lead(c: Seq<u64>, k: nat)
    requires
        c.len() <= usize::MAX,
    ensures
        leaders(c, k).len() == (if k <= c.len() {
            k
        } else {
            c.len()
        }),
        forall|a: int| 0 <= a < leaders(c, k).len() ==> #[trigger] leaders(c, k)[a] < c.len(),
        forall|a: int, b: int|
            #![trigger leaders(c, k)[a], leaders(c, k)[b]]
            0 <= a < b < leaders(c, k).len() ==> ranks_before(
                c,
                leaders(c, k)[a] as int,
                leaders(c, k)[b] as int,
            ),
        forall|a: int, i: int|
            #![trigger ranks_before(c, leaders(c, k)[a] as int, i)]
            0 <= a < leaders(c, k).len() && 0 <= i < c.len() && !leaders(c, k).contains(i as usize)
                ==> ranks_before(c, leaders(c, k)[a] as int, i),
    decreases k,
{
    if k > 0 {
        let picks = leaders(c, (k - 1) as nat);
        leaders_lead(c, (k - 1) as nat);
        lemma_next_pick(c, picks, c.len() as int);
        let all = leaders(c, k);
        match next_pick(c, picks, c.len() as int) {
            Some(j) => {
                assert(all == picks.push(j));
                assert(!picks.contains(j));
                if picks.len() == c.len() {
                    lemma_all_taken(picks, c.len());
                    assert(picks.contains(j));
                }
                assert forall|a: int, b: int|
                    #![trigger all[a], all[b]]
                    0 <= a < b < all.len() implies ranks_before(c, all[a] as int, all[b] as int) by {
                    if b == picks.len() {
                        assert(ranks_before(c, picks[a] as int, j as int));
                    }
                }
                assert forall|a: int, i: int|
                    #![trigger ranks_before(c, all[a] as int, i)]
                    0 <= a < all.len() && 0 <= i < c.len() && !all.contains(
                        i as usize,
                    ) implies ranks_before(c, all[a] as int, i) by {
                    assert(all[picks.len() as int] == j);
                    if picks.contains(i as usize) {
                        let m = choose|m: int| 0 <= m < picks.len() && picks[m] == i as usize;
                        assert(all[m] == i as usize);
                    }
                    if a < picks.len() {
                        assert(all[a] == picks[a]);
                        assert(ranks_before(c, picks[a] as int, i));
                    } else {
                        assert(ranks_before(c, j as int, i));
                    }
                }
            },
            None => {
                lemma_none_left(picks, c.len());
            },
        }
    }
}

/// Distinct places below `n`, `n` of them, are all places below `n`.
proof fn lemma_all_taken(picks: Seq<usize>, n: nat)
    requires
        picks.len() == n,
        n <= usize::MAX,
        picks.no_duplicates(),
        forall|a: int| 0 <= a < picks.len() ==> #[trigger] picks[a] < n,
    ensures
        forall|i: usize| i < n ==> #[trigger] picks.contains(i),
{
    let taken = picks.to_set();
    let places = Set::new(|i: usize| i < n);
    picks.unique_seq_to_set();
    lemma_places(n);
    assert(taken.subset_of(places)) by {
        assert forall|i: usize| taken.contains(i) implies places.contains(i) by {
            assert(picks.contains(i));
        }
    }
    vstd::set_lib::lemma_subset_equality(taken, places);
    assert forall|i: usize| i < n implies #[trigger] picks.contains(i) by {
        assert(places.contains(i));
        assert(taken.contains(i));
    }
}

proof fn lemma_places(n: nat)
    requires
        n <= usize::MAX,
    ensures
        Set::new(|i: usize| i < n).finite(),
        Set::new(|i: usize| i < n).len() == n,
    decreases n,
{
    let s = Set::new(|i: usize| i < n);
    if n == 0 {
        assert(s =~= Set::empty());
    } else {
        lemma_places((n - 1) as nat);
        let t = Set::new(|i: usize| i < (n - 1) as nat);
        assert(s =~= t.insert((n - 1) as usize));
    }
}

/// Where every place below `n` is among distinct places below `n`, there are
/// `n` of them.
proof fn lemma_none_left(picks: Seq<usize>, n: nat)
    requires
        n <= usize::MAX,
        picks.no_duplicates(),
        forall|a: int| 0 <= a < picks.len() ==> #[trigger] picks[a] < n,
        forall|i: int| 0 <= i < n ==> picks.contains(#[trigger] (i as usize)),
    ensures
        picks.len() == n,
{
    let taken = picks.to_set();
    let places = Set::new(|i: usize| i < n);
    picks.unique_seq_to_set();
    lemma_places(n);
    assert(taken =~= places) by {
        assert forall|i: usize| places.contains(i) implies taken.contains(i) by {
            assert(picks.contains((i as int) as usize));
        }
    }
}

/// A score is judged by two thresholds: above seventy percent it speaks for a
/// block, below thirty against one, and in between it is suspicious.
pub proof fn scores_are_judged_by_two_thresholds(score: u32)
    ensures
        score_verdict(score) == MlVerdict::Blocked <==> score > 700_000,
        score_verdict(score) == MlVerdict::Clear <==> score < 300_000,
        score_verdict(score) == MlVerdict::Suspicious <==> 300_000 <= score <= 700_000,
{
}

/// The weights speak their direction: what works, a connection and a handshake,
/// weighs against a block and weighs most; slow handshakes against connections,
/// slow responses against handshakes, and jitter weigh for one, in this order.
pub proof fn weights_speak_their_direction()
    ensures
        ({
            let w = trained_weights();
            &&& w.len() == 17
            &&& w[5] < 0 && w[9] < 0 && w[5] == w[9]
            &&& w[14] > w[15] && w[15] > w[16] && w[16] > 0
            &&& forall|i: int| 0 <= i < 17 ==> w[5] <= #[trigger] w[i] <= w[14]
            &&& w[4] < 0 && w[0] < 0 && w[1] < 0
            &&& w[8] == 0
        }),
{
}

/// One contribution ranks before another by its size, and by its place where
/// they are equal: two places are always told apart.
pub proof fn ranks_are_by_size(c: Seq<u64>, i: int, j: int)
    requires
        i != j,
    ensures
        c[i] > c[j] ==> ranks_before(c, i, j),
        c[i] == c[j] && i < j ==> ranks_before(c, i, j),
        ranks_before(c, i, j) != ranks_before(c, j, i),
{
}

/// The features have their names in the order in which they are handed over.
pub proof fn features_have_their_names()
    ensures
        feature_label(0) == "dns_udp_rtt_ms"@,
        feature_label(1) == "dns_doh_rtt_ms"@,
        feature_label(2) == "dns_udp_response_size"@,
        feature_label(3) == "dns_doh_response_size"@,
        feature_label(4) == "tcp_connect_rtt_ms"@,
        feature_label(5) == "tcp_connect_ok"@,
        feature_label(6) == "tls_handshake_rtt_ms"@,
        feature_label(7) == "tls_server_hello_size"@,
        feature_label(8) == "tls_cert_count"@,
        feature_label(9) == "tls_handshake_ok"@,
        feature_label(10) == "http_first_byte_rtt_ms"@,
        feature_label(11) == "http_total_rtt_ms"@,
        feature_label(12) == "http_response_size"@,
        feature_label(13) == "http_status_code"@,
        feature_label(14) == "tls_tcp_ratio"@,
        feature_label(15) == "http_tls_ratio"@,
        feature_label(16) == "inter_phase_jitter"@,
{
}

} // verus!
