//! A latency histogram with fixed buckets.
use vstd::prelude::*;

verus! {

/// Counts of observed latencies in sixteen buckets.
#[derive(Debug, Clone, Copy)]
pub struct FixedLatencyHist {
    buckets: [u64; 16],
}

/// The bucket that a latency falls into.
pub open spec fn bucket_of(v: u64) -> int {
    if v < 10 {
        0
    } else if v < 25 {
        1
    } else if v < 50 {
        2
    } else if v < 100 {
        3
    } else if v < 250 {
        4
    } else if v < 500 {
        5
    } else if v < 1_000 {
        6
    } else if v < 2_500 {
        7
    } else if v < 5_000 {
        8
    } else if v < 10_000 {
        9
    } else if v < 25_000 {
        10
    } else if v < 50_000 {
        11
    } else if v < 100_000 {
        12
    } else if v < 250_000 {
        13
    } else if v < 1_000_000 {
        14
    } else {
        15
    }
}

/// The latency that stands for a bucket.
pub open spec fn midpoint(i: int) -> u64 {
    if i == 0 {
        5
    } else if i == 1 {
        17
    } else if i == 2 {
        37
    } else if i == 3 {
        75
    } else if i == 4 {
        175
    } else if i == 5 {
        375
    } else if i == 6 {
        750
    } else if i == 7 {
        1750
    } else if i == 8 {
        3750
    } else if i == 9 {
        7500
    } else if i == 10 {
        17500
    } else if i == 11 {
        37500
    } else if i == 12 {
        75000
    } else if i == 13 {
        175000
    } else if i == 14 {
        625000
    } else {
        1500000
    }
}

/// A count after one more observation; a count that is full starts over.
pub open spec fn one_more(n: u64) -> u64 {
    if n == u64::MAX {
        0
    } else {
        (n + 1) as u64
    }
}

/// How many observations the first `n` buckets hold.
pub open spec fn count_below(counts: Seq<u64>, n: int) -> nat
    decreases n,
{
    if n <= 0 {
        0
    } else {
        count_below(counts, n - 1) + counts[n - 1] as nat
    }
}

/// The first bucket from `i` on at which the running count reaches `target`.
pub open spec fn reaching_bucket(counts: Seq<u64>, target: nat, i: int) -> int
    decreases 16 - i,
{
    if i >= 15 || count_below(counts, i + 1) >= target {
        i
    } else {
        reaching_bucket(counts, target, i + 1)
    }
}

/// The latency below which `pct` percent of the observations lie, as the
/// midpoint of the bucket that reaches that share.
pub open spec fn percentile(counts: Seq<u64>, pct: nat) -> u64 {
    midpoint(reaching_bucket(counts, count_below(counts, 16) * pct / 100, 0))
}

impl View for FixedLatencyHist {
    type V = Seq<u64>;

    closed spec fn view(&self) -> Seq<u64> {
        self.buckets@
    }
}

impl FixedLatencyHist {
    /// A histogram has sixteen buckets.
    pub proof fn lemma_len(&self)
        ensures
            self@.len() == 16,
    {
    }

    /// An empty histogram.
    pub fn new() -> (r: FixedLatencyHist)
        ensures
            r@ == Seq::new(16, |i: int| 0u64),
    {
        let r: FixedLatencyHist = FixedLatencyHist { buckets: [0; 16] };
        assert(r@ =~= Seq::new(16, |i: int| 0u64));
        r
    }

    /// Counts one latency in microseconds. A count that is full starts over.
    pub fn observe_us(&mut self, v: u64)
        ensures
            final(self)@ == old(self)@.update(
                bucket_of(v),
                one_more(old(self)@[bucket_of(v)]),
            ),
    {
        let idx: usize = if v < 10 {
            0
        } else if v < 25 {
            1
        } else if v < 50 {
            2
        } else if v < 100 {
            3
        } else if v < 250 {
            4
        } else if v < 500 {
            5
        } else if v < 1_000 {
            6
        } else if v < 2_500 {
            7
        } else if v < 5_000 {
            8
        } else if v < 10_000 {
            9
        } else if v < 25_000 {
            10
        } else if v < 50_000 {
            11
        } else if v < 100_000 {
            12
        } else if v < 250_000 {
            13
        } else if v < 1_000_000 {
            14
        } else {
            15
        };
        let n: u64 = self.buckets[idx].wrapping_add(1);
        self.buckets[idx] = n;
    }

    /// Whether the number of all observations fits into 64 bits.
    pub fn total_fits(&self) -> (r: bool)
        ensures
            r == (count_below(self@, 16) <= u64::MAX),
    {
        let mut sum: u64 = 0;
        let mut i: usize = 0;
        while i < 16
            invariant
                i <= 16,
                self@.len() == 16,
                sum == count_below(self@, i as int),
            decreases 16 - i,
        {
            proof {
                lemma_count_mono(self@, i + 1, 16);
            }
            match sum.checked_add(self.buckets[i]) {
                Some(n) => {
                    sum = n;
                },
                None => {
                    return false;
                },
            }
            i = i + 1;
        }
        true
    }

    fn total(&self) -> (r: u64)
        requires
            count_below(self@, 16) <= u64::MAX,
        ensures
            r == count_below(self@, 16),
    {
        let mut sum: u64 = 0;
        let mut i: usize = 0;
        while i < 16
            invariant
                i <= 16,
                self@.len() == 16,
                sum == count_below(self@, i as int),
                count_below(self@, 16) <= u64::MAX,
            decreases 16 - i,
        {
            proof {
                lemma_count_mono(self@, i + 1, 16);
            }
            sum = sum + self.buckets[i];
            i = i + 1;
        }
        sum
    }

    fn find_pct(&self, total: u64, pct: u64) -> (r: u64)
        requires
            count_below(self@, 16) == total,
            pct <= 100,
        ensures
            r == percentile(self@, pct as nat),
    {
        proof {
            assert(total * pct <= u64::MAX * 100) by (nonlinear_arith)
                requires
                    total <= u64::MAX,
                    pct <= 100,
            ;
        }
        let target: u128 = (total as u128) * (pct as u128) / 100;
        let mut acc: u128 = 0;
        let mut i: usize = 0;
        while i < 15
            invariant
                i <= 15,
                self@.len() == 16,
                acc == count_below(self@, i as int),
                acc <= total,
                count_below(self@, 16) == total,
                target == count_below(self@, 16) * pct / 100,
                reaching_bucket(self@, target as nat, 0) == reaching_bucket(
                    self@,
                    target as nat,
                    i as int,
                ),
            decreases 15 - i,
        {
            proof {
                lemma_count_mono(self@, i + 1, 16);
            }
            acc = acc + self.buckets[i] as u128;
            if acc >= target {
                return midpoint_of(i);
            }
            i = i + 1;
        }
        midpoint_of(15)
    }

    /// Estimates of the 50th, 95th and 99th percentile in microseconds; zeros
    /// where nothing was observed.
    pub fn estimate_percentiles(&self) -> (r: (u64, u64, u64))
        requires
            count_below(self@, 16) <= u64::MAX,
        ensures
            count_below(self@, 16) == 0 ==> r == (0u64, 0u64, 0u64),
            count_below(self@, 16) > 0 ==> r == (
                percentile(self@, 50),
                percentile(self@, 95),
                percentile(self@, 99),
            ),
    {
        let total: u64 = self.total();
        if total == 0 {
            return (0, 0, 0);
        }
        (self.find_pct(total, 50), self.find_pct(total, 95), self.find_pct(total, 99))
    }
}

impl Default for FixedLatencyHist {
    fn default() -> (r: FixedLatencyHist)
        ensures
            r@ == Seq::new(16, |i: int| 0u64),
    {
        FixedLatencyHist::new()
    }
}

fn midpoint_of(i: usize) -> (r: u64)
    ensures
        r == midpoint(i as int),
{
    match i {
        0 => 5,
        1 => 17,
        2 => 37,
        3 => 75,
        4 => 175,
        5 => 375,
        6 => 750,
        7 => 1750,
        8 => 3750,
        9 => 7500,
        10 => 17500,
        11 => 37500,
        12 => 75000,
        13 => 175000,
        14 => 625000,
        _ => 1500000,
    }
}

proof fn lemma_count_mono(counts: Seq<u64>, a: int, b: int)
    requires
        0 <= a <= b,
    ensures
        count_below(counts, a) <= count_below(counts, b),
    decreases b,
{
    if a < b {
        lemma_count_mono(counts, a, b - 1);
    }
}

/// A latency lies below the upper edge of its bucket, and a larger latency
/// never falls into a lower bucket.
pub proof fn buckets_are_ordered(v: u64, w: u64)
    requires
        v <= w,
    ensures
        0 <= bucket_of(v) <= bucket_of(w) <= 15,
{
}

proof fn lemma_reaching_mono(counts: Seq<u64>, t1: nat, t2: nat, i: int)
    requires
        t1 <= t2,
        0 <= i <= 15,
    ensures
        i <= reaching_bucket(counts, t1, i) <= reaching_bucket(counts, t2, i) <= 15,
    decreases 16 - i,
{
    if i < 15 && count_below(counts, i + 1) < t2 {
        if count_below(counts, i + 1) >= t1 {
            lemma_reaching_mono(counts, t2, t2, i + 1);
        } else {
            lemma_reaching_mono(counts, t1, t2, i + 1);
        }
    }
}

/// A higher percentile is never a lower latency.
pub proof fn percentiles_are_ordered(counts: Seq<u64>, p: nat, q: nat)
    requires
        p <= q,
    ensures
        percentile(counts, p) <= percentile(counts, q),
{
    let total = count_below(counts, 16);
    assert(total * p <= total * q) by (nonlinear_arith)
        requires
            p <= q,
            total >= 0,
    ;
    lemma_reaching_mono(counts, total * p / 100, total * q / 100, 0);
}

/// One more observation raises the count of its own bucket by one, as long as
/// that count is not full, and no other.
pub proof fn observation_is_counted_once(counts: Seq<u64>, v: u64, after: Seq<u64>, i: int)
    requires
        counts.len() == 16,
        counts[bucket_of(v)] < u64::MAX,
        after == counts.update(
            bucket_of(v),
            one_more(counts[bucket_of(v)]),
        ),
        0 <= i < 16,
    ensures
        after[i] == counts[i] + (if i == bucket_of(v) {
            1int
        } else {
            0int
        }),
{
}

/// The edges of the buckets: a latency belongs to the first bucket whose upper
/// edge it stays below, and what stands for a bucket lies in it.
pub proof fn buckets_have_their_edges(v: u64, i: int)
    requires
        0 <= i <= 15,
    ensures
        bucket_of(midpoint(i)) == i,
        bucket_of(v) == 0 <==> v < 10,
        bucket_of(v) <= 1 <==> v < 25,
        bucket_of(v) <= 2 <==> v < 50,
        bucket_of(v) <= 3 <==> v < 100,
        bucket_of(v) <= 4 <==> v < 250,
        bucket_of(v) <= 5 <==> v < 500,
        bucket_of(v) <= 6 <==> v < 1_000,
        bucket_of(v) <= 7 <==> v < 2_500,
        bucket_of(v) <= 8 <==> v < 5_000,
        bucket_of(v) <= 9 <==> v < 10_000,
        bucket_of(v) <= 10 <==> v < 25_000,
        bucket_of(v) <= 11 <==> v < 50_000,
        bucket_of(v) <= 12 <==> v < 100_000,
        bucket_of(v) <= 13 <==> v < 250_000,
        bucket_of(v) <= 14 <==> v < 1_000_000,
{
}

/// What stands for a bucket grows with the bucket.
pub proof fn midpoints_grow(i: int, j: int)
    requires
        0 <= i < j <= 15,
    ensures
        midpoint(i) < midpoint(j),
{
}

/// A percentile is what stands for the first bucket with which the asked share
/// of all observations is reached: the buckets up to it hold that share, those
/// before it do not.
pub proof fn percentiles_reach_their_share(counts: Seq<u64>, pct: nat) -> (b: int)
    requires
        counts.len() == 16,
        pct <= 100,
    ensures
        0 <= b <= 15,
        percentile(counts, pct) == midpoint(b),
        bucket_of(percentile(counts, pct)) == b,
        count_below(counts, b + 1) >= count_below(counts, 16) * pct / 100,
        b > 0 ==> count_below(counts, b) < count_below(counts, 16) * pct / 100,
{
    let total = count_below(counts, 16);
    let target = total * pct / 100;
    assert(target <= total) by (nonlinear_arith)
        requires
            pct <= 100,
            target == total * pct / 100,
            total >= 0,
    ;
    lemma_reaches(counts, target, 0);
    let b = reaching_bucket(counts, target, 0);
    buckets_have_their_edges(0, b);
    b
}

proof fn lemma_reaches(counts: Seq<u64>, target: nat, i: int)
    requires
        0 <= i <= 15,
        target <= count_below(counts, 16),
        i > 0 ==> count_below(counts, i) < target,
    ensures
        ({
            let b = reaching_bucket(counts, target, i);
            &&& i <= b <= 15
            &&& count_below(counts, b + 1) >= target
            &&& b > 0 ==> count_below(counts, b) < target
        }),
    decreases 16 - i,
{
    if i < 15 && count_below(counts, i + 1) < target {
        lemma_reaches(counts, target, i + 1);
    }
}

} // verus!
