//! Latency-statistics reducer.
//!
//! Successful attempts yield latency samples in nanoseconds. The reducer
//! sorts them ascending and reports minimum, maximum, arithmetic mean and
//! the 50th/90th/95th/99th percentiles under the floor-index rule:
//! `p = sorted[min(len * pct / 100, len - 1)]`, with no interpolation.

use vstd::prelude::*;

verus! {

use vstd::relations::{sorted_by, total_ordering};
use vstd::seq_lib::lemma_sorted_unique;
use vstd::arithmetic::div_mod::lemma_div_is_ordered;
use vstd::arithmetic::mul::lemma_mul_inequality;

/// The ascending order on samples.
pub open spec fn sample_le() -> spec_fn(u64, u64) -> bool {
    |x: u64, y: u64| x <= y
}

/// Holds when a sample sequence is ascending.
pub open spec fn sorted_samples(s: Seq<u64>) -> bool {
    sorted_by(s, sample_le())
}

/// The ascending rearrangement of a sample sequence.
pub open spec fn sort_spec(s: Seq<u64>) -> Seq<u64> {
    s.sort_by(sample_le())
}

pub proof fn lemma_sample_le_total()
    ensures
        total_ordering(sample_le()),
{
    assert forall|x: u64| #[trigger] sample_le()(x, x) by {}
}

/// What `sort_spec` yields: the same samples, in ascending order.
pub proof fn lemma_sort_spec_ensures(s: Seq<u64>)
    ensures
        sort_spec(s).to_multiset() == s.to_multiset(),
        sorted_samples(sort_spec(s)),
        sort_spec(s).len() == s.len(),
{
    broadcast use vstd::seq_lib::group_to_multiset_ensures;

    lemma_sample_le_total();
    s.lemma_sort_by_ensures(sample_le());
    assert(sort_spec(s).to_multiset() =~= s.to_multiset());
    assert(sort_spec(s).len() == sort_spec(s).to_multiset().len());
    assert(s.len() == s.to_multiset().len());
}

/// Sorts the samples ascending, by insertion into a fresh vector.
pub fn sort_samples(samples: &Vec<u64>) -> (r: Vec<u64>)
    ensures
        r@ == sort_spec(samples@),
{
    let mut out: Vec<u64> = Vec::new();
    proof {
        broadcast use vstd::seq_lib::group_to_multiset_ensures;

        assert(samples@.subrange(0, 0) =~= Seq::<u64>::empty());
    }
    let mut i: usize = 0;
    while i < samples.len()
        invariant
            i <= samples@.len(),
            sorted_samples(out@),
            out@.to_multiset() == samples@.subrange(0, i as int).to_multiset(),
            out@.len() == i,
        decreases samples@.len() - i,
    {
        let x = samples[i];
        let mut k: usize = 0;
        while k < out.len() && out[k] <= x
            invariant
                k <= out@.len(),
                forall|a: int| 0 <= a < k ==> out@[a] <= x,
                sorted_samples(out@),
            decreases out@.len() - k,
        {
            k += 1;
        }
        let ghost before = out@;
        out.insert(k, x);
        proof {
            broadcast use vstd::seq_lib::group_to_multiset_ensures;
            assert(samples@.subrange(0, i + 1).drop_last() =~= samples@.subrange(0, i as int));
            assert(samples@.subrange(0, i + 1) =~= samples@.subrange(0, i as int).push(x));
            assert(out@.to_multiset() == samples@.subrange(0, i + 1).to_multiset());
            assert forall|a: int, b: int| 0 <= a < b < out@.len() implies sample_le()(out@[a], out@[b]) by {
                if b < k {
                    assert(out@[a] == before[a] && out@[b] == before[b]);
                } else if a > k {
                    assert(out@[a] == before[a - 1] && out@[b] == before[b - 1]);
                } else if a == k {
                    assert(out@[a] == x && out@[b] == before[b - 1]);
                    if k < before.len() {
                        assert(!(before[k as int] <= x));
                        assert(sample_le()(before[k as int], before[b - 1]));
                    }
                } else if b == k {
                    assert(out@[a] == before[a] && out@[b] == x);
                } else {
                    assert(a < k && b > k);
                    assert(out@[a] == before[a] && out@[b] == before[b - 1]);
                }
            }
        }
        i += 1;
    }
    proof {
        lemma_sample_le_total();
        lemma_sort_spec_ensures(samples@);
        assert(samples@.subrange(0, samples@.len() as int) =~= samples@);
        lemma_sorted_unique(out@, sort_spec(samples@), sample_le());
        assert(out@ =~= sort_spec(samples@));
    }
    out
}

/// The floor-index of a percentile: `min(len * pct / 100, len - 1)`.
pub open spec fn pct_index(len: nat, pct: nat) -> nat
    recommends
        len > 0,
{
    if len * pct / 100 < len - 1 {
        len * pct / 100
    } else {
        (len - 1) as nat
    }
}

/// The percentile of a sample sequence under the floor-index rule;
/// zero when there are no samples.
pub open spec fn pct_of(s: Seq<u64>, pct: nat) -> u64 {
    if s.len() == 0 {
        0u64
    } else {
        sort_spec(s)[pct_index(s.len(), pct) as int]
    }
}

/// The smallest sample; zero when there are no samples.
pub open spec fn min_of(s: Seq<u64>) -> u64 {
    if s.len() == 0 {
        0u64
    } else {
        sort_spec(s)[0]
    }
}

/// The largest sample; zero when there are no samples.
pub open spec fn max_of(s: Seq<u64>) -> u64 {
    if s.len() == 0 {
        0u64
    } else {
        sort_spec(s).last()
    }
}

/// The sum of a sample sequence.
pub open spec fn sum_of(s: Seq<u64>) -> nat
    decreases s.len(),
{
    if s.len() == 0 {
        0
    } else {
        (sum_of(s.drop_last()) + s.last()) as nat
    }
}

/// The arithmetic mean, rounded down; zero when there are no samples.
pub open spec fn avg_of(s: Seq<u64>) -> nat {
    if s.len() == 0 {
        0
    } else {
        sum_of(s) / s.len()
    }
}

/// Reads one percentile out of an ascending sample vector.
pub fn percentile(sorted: &Vec<u64>, pct: u64) -> (r: u64)
    requires
        sorted_samples(sorted@),
        pct <= 100,
    ensures
        sorted@.len() == 0 ==> r == 0,
        sorted@.len() > 0 ==> r == sorted@[pct_index(sorted@.len(), pct as nat) as int],
{
    let n = sorted.len();
    if n == 0 {
        return 0;
    }
    proof {
        assert((n as int) * (pct as int) <= (u64::MAX as int) * 100) by (nonlinear_arith)
            requires
                n <= u64::MAX,
                pct <= 100,
        ;
    }
    let prod: u128 = (n as u128) * (pct as u128);
    let scaled: u128 = prod / 100;
    let last: usize = n - 1;
    let idx: usize = if scaled < last as u128 {
        scaled as usize
    } else {
        last
    };
    sorted[idx]
}

/// The mean of an (unsorted) sample vector, rounded down.
pub fn mean(samples: &Vec<u64>) -> (r: u64)
    ensures
        r as nat == avg_of(samples@),
{
    let n = samples.len();
    if n == 0 {
        return 0;
    }
    let mut total: u128 = 0;
    let mut i: usize = 0;
    while i < n
        invariant
            i <= n,
            n == samples@.len(),
            total == sum_of(samples@.subrange(0, i as int)),
            total <= (i as nat) * (u64::MAX as nat),
        decreases n - i,
    {
        proof {
            assert(samples@.subrange(0, i + 1).drop_last() =~= samples@.subrange(0, i as int));
            lemma_mul_inequality(i as int, usize::MAX as int, u64::MAX as int);
        }
        total = total + samples[i] as u128;
        proof {
            assert((i + 1) as nat * (u64::MAX as nat) == (i as nat) * (u64::MAX as nat) + u64::MAX as nat)
                by (nonlinear_arith);
        }
        i += 1;
    }
    proof {
        assert(samples@.subrange(0, n as int) =~= samples@);
        lemma_div_is_ordered(total as int, (n as int) * (u64::MAX as int), n as int);
        vstd::arithmetic::div_mod::lemma_div_multiples_vanish(u64::MAX as int, n as int);
    }
    (total / (n as u128)) as u64
}

/// The reduced view of one run's latency samples, all in nanoseconds.
pub struct LatencyStats {
    pub avg_nanos: u64,
    pub min_nanos: u64,
    pub max_nanos: u64,
    pub p50_nanos: u64,
    pub p90_nanos: u64,
    pub p95_nanos: u64,
    pub p99_nanos: u64,
}

/// Reduces an unordered sample vector to its summary statistics.
/// Every field is zero when there are no samples.
pub fn summarize(samples: &Vec<u64>) -> (r: LatencyStats)
    ensures
        r.avg_nanos as nat == avg_of(samples@),
        r.min_nanos == min_of(samples@),
        r.max_nanos == max_of(samples@),
        r.p50_nanos == pct_of(samples@, 50),
        r.p90_nanos == pct_of(samples@, 90),
        r.p95_nanos == pct_of(samples@, 95),
        r.p99_nanos == pct_of(samples@, 99),
{
    let avg_nanos = mean(samples);
    let sorted = sort_samples(samples);
    proof {
        lemma_sort_spec_ensures(samples@);
    }
    if sorted.len() == 0 {
        return LatencyStats {
            avg_nanos: 0,
            min_nanos: 0,
            max_nanos: 0,
            p50_nanos: 0,
            p90_nanos: 0,
            p95_nanos: 0,
            p99_nanos: 0,
        };
    }
    let min_nanos = sorted[0];
    let max_nanos = sorted[sorted.len() - 1];
    LatencyStats {
        avg_nanos,
        min_nanos,
        max_nanos,
        p50_nanos: percentile(&sorted, 50),
        p90_nanos: percentile(&sorted, 90),
        p95_nanos: percentile(&sorted, 95),
        p99_nanos: percentile(&sorted, 99),
    }
}

proof fn lemma_pct_index_monotone(len: nat, p1: nat, p2: nat)
    requires
        len > 0,
        p1 <= p2,
    ensures
        pct_index(len, p1) <= pct_index(len, p2),
        pct_index(len, p2) < len,
{
    assert(len * p1 <= len * p2) by (nonlinear_arith)
        requires
            p1 <= p2,
            len >= 0,
    ;
    lemma_div_is_ordered((len * p1) as int, (len * p2) as int, 100);
}

proof fn lemma_sorted_index_le(t: Seq<u64>, i: int, j: int)
    requires
        sorted_samples(t),
        0 <= i <= j < t.len(),
    ensures
        t[i] <= t[j],
{
    if i < j {
        assert(sample_le()(t[i], t[j]));
    }
}

/// Whenever there is at least one sample, the reduced percentiles are
/// ordered: min <= p50 <= p90 <= p95 <= p99 <= max.
pub proof fn law_percentiles_ordered(s: Seq<u64>)
    requires
        s.len() > 0,
    ensures
        min_of(s) <= pct_of(s, 50),
        pct_of(s, 50) <= pct_of(s, 90),
        pct_of(s, 90) <= pct_of(s, 95),
        pct_of(s, 95) <= pct_of(s, 99),
        pct_of(s, 99) <= max_of(s),
{
    lemma_sort_spec_ensures(s);
    let t = sort_spec(s);
    let len = s.len();
    lemma_pct_index_monotone(len, 50, 90);
    lemma_pct_index_monotone(len, 90, 95);
    lemma_pct_index_monotone(len, 95, 99);
    lemma_sorted_index_le(t, 0, pct_index(len, 50) as int);
    lemma_sorted_index_le(t, pct_index(len, 50) as int, pct_index(len, 90) as int);
    lemma_sorted_index_le(t, pct_index(len, 90) as int, pct_index(len, 95) as int);
    lemma_sorted_index_le(t, pct_index(len, 95) as int, pct_index(len, 99) as int);
    lemma_sorted_index_le(t, pct_index(len, 99) as int, len - 1);
}

/// The reduced minimum and maximum are themselves samples, and they
/// bound every sample, whenever any sample exists.
pub proof fn law_min_max_are_samples(s: Seq<u64>)
    requires
        s.len() > 0,
    ensures
        s.contains(min_of(s)),
        s.contains(max_of(s)),
        forall|k: int| 0 <= k < s.len() ==> min_of(s) <= #[trigger] s[k] <= max_of(s),
{
    broadcast use vstd::seq_lib::group_to_multiset_ensures;

    lemma_sort_spec_ensures(s);
    let t = sort_spec(s);
    assert(t.contains(t[0]));
    assert(t.contains(t.last()));
    assert(s.to_multiset().count(t[0]) > 0);
    assert(s.to_multiset().count(t.last()) > 0);
    assert(s.contains(min_of(s)));
    assert(s.contains(max_of(s)));
    assert forall|k: int| 0 <= k < s.len() implies min_of(s) <= #[trigger] s[k] <= max_of(s) by {
        assert(s.contains(s[k]));
        assert(t.to_multiset().count(s[k]) > 0);
        assert(t.contains(s[k]));
        let j = choose|j: int| 0 <= j < t.len() && t[j] == s[k];
        lemma_sorted_index_le(t, 0, j);
        lemma_sorted_index_le(t, j, t.len() - 1);
    }
}

proof fn lemma_sum_bounds(s: Seq<u64>, lo: u64, hi: u64)
    requires
        forall|k: int| 0 <= k < s.len() ==> lo <= #[trigger] s[k] <= hi,
    ensures
        s.len() * lo <= sum_of(s),
        sum_of(s) <= s.len() * hi,
    decreases s.len(),
{
    if s.len() == 0 {
    } else {
        lemma_sum_bounds(s.drop_last(), lo, hi);
        assert((s.len() - 1) * lo + lo == s.len() * lo) by (nonlinear_arith);
        assert((s.len() - 1) * hi + hi == s.len() * hi) by (nonlinear_arith);
    }
}

/// The mean lies between the smallest and the largest sample, whenever
/// any sample exists.
pub proof fn law_avg_between_min_max(s: Seq<u64>)
    requires
        s.len() > 0,
    ensures
        min_of(s) <= avg_of(s) <= max_of(s),
{
    law_min_max_are_samples(s);
    lemma_sum_bounds(s, min_of(s), max_of(s));
    let len = s.len() as int;
    vstd::arithmetic::div_mod::lemma_div_multiples_vanish(min_of(s) as int, len);
    vstd::arithmetic::div_mod::lemma_div_multiples_vanish(max_of(s) as int, len);
    lemma_div_is_ordered((len * min_of(s)) as int, sum_of(s) as int, len);
    lemma_div_is_ordered(sum_of(s) as int, (len * max_of(s)) as int, len);
}

/// No sample exceeds `bound`, so neither does the reduced maximum.
pub proof fn lemma_max_within(s: Seq<u64>, bound: u64)
    requires
        forall|k: int| 0 <= k < s.len() ==> s[k] <= bound,
    ensures
        max_of(s) <= bound,
{
    broadcast use vstd::seq_lib::group_to_multiset_ensures;

    if s.len() > 0 {
        lemma_sort_spec_ensures(s);
        let t = sort_spec(s);
        let x = t.last();
        assert(t.contains(x));
        assert(t.to_multiset().count(x) > 0);
        assert(s.contains(x));
        let k = choose|k: int| 0 <= k < s.len() && s[k] == x;
        assert(s[k] <= bound);
    }
}

} // verus!
