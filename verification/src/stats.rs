//! Statistics engine: reduces one sorted batch of latency samples to
//! min/max/mean and the 50th and 99th percentiles.

use vstd::prelude::*;
use vstd::arithmetic::div_mod::{
    lemma_div_is_ordered, lemma_div_multiples_vanish, lemma_fundamental_div_mod,
    lemma_hoist_over_denominator, lemma_multiply_divide_le, lemma_multiply_divide_lt,
};

verus! {

/// Reduction of one sorted latency batch. All fields are nanoseconds.
/// Derived per call, never stored.
pub struct Stats {
    pub min: i64,
    pub max: i64,
    pub mean: i64,
    pub p50: i64,
    pub p99: i64,
}

/// The batch is sorted in ascending order.
pub open spec fn sorted_ascending(s: Seq<i64>) -> bool {
    forall|i: int, j: int| 0 <= i <= j < s.len() ==> s[i] <= s[j]
}

/// Sum of all samples, as a mathematical integer.
pub open spec fn sum_of(s: Seq<i64>) -> int
    decreases s.len(),
{
    if s.len() == 0 {
        0
    } else {
        sum_of(s.drop_last()) + s.last()
    }
}

/// Division truncating toward zero, as the executable `/` computes it.
pub open spec fn div_trunc(a: int, b: int) -> int {
    if a >= 0 {
        a / b
    } else {
        -((-a) / b)
    }
}

/// Index of the 50th-percentile sample in a sorted batch of length `n`.
pub open spec fn p50_index(n: int) -> int {
    n / 2
}

/// Index of the 99th-percentile sample: the floor of `n * 99 / 100`.
pub open spec fn p99_index(n: int) -> int {
    n * 99 / 100
}

/// For every non-empty batch length, the percentile indices are ordered
/// and in bounds: `0 <= n/2 <= 99n/100 < n`.
pub proof fn lemma_percentile_indices_ordered(n: int)
    requires
        n >= 1,
    ensures
        0 <= p50_index(n),
        p50_index(n) <= p99_index(n),
        p99_index(n) < n,
{
    let q = n / 2;
    assert(q >= 0) by {
        lemma_div_is_ordered(0, n, 2);
    }
    // n == 2q + r with 0 <= r < 2, so 99n == 100q + (98q + 99r) >= 100q.
    assert(n == 2 * q + n % 2) by {
        lemma_fundamental_div_mod(n, 2);
    }
    let r = n % 2;
    assert(n * 99 == 198 * q + 99 * r);
    assert(100 * q <= n * 99);
    assert((100 * q) / 100 == q) by {
        lemma_div_multiples_vanish(q, 100);
    }
    assert(q <= p99_index(n)) by {
        lemma_div_is_ordered(100 * q, n * 99, 100);
    }
    assert(n * 99 < 100 * n);
    assert(p99_index(n) < n) by {
        lemma_multiply_divide_lt(n * 99, 100, n);
    }
}

impl Stats {
    /// Reduce a batch that the caller has already sorted ascending.
    ///
    /// An empty batch yields all-zero fields. Otherwise min and max are
    /// the first and last samples, the percentiles are the samples at the
    /// indices `n/2` and `floor(99n/100)`, and the mean is the sum divided
    /// by the length, truncating toward zero. The returned percentiles
    /// always satisfy `min <= p50 <= p99 <= max`.
    pub fn from_sorted(sorted: &[i64]) -> (r: Stats)
        requires
            sorted_ascending(sorted@),
        ensures
            sorted@.len() == 0 ==> r.min == 0 && r.max == 0 && r.mean == 0 && r.p50 == 0
                && r.p99 == 0,
            sorted@.len() > 0 ==> {
                let n = sorted@.len() as int;
                &&& r.min == sorted@[0]
                &&& r.max == sorted@[n - 1]
                &&& r.mean == div_trunc(sum_of(sorted@), n)
                &&& r.p50 == sorted@[p50_index(n)]
                &&& r.p99 == sorted@[p99_index(n)]
                &&& r.min <= r.p50 <= r.p99 <= r.max
            },
    {
        let n: usize = sorted.len();
        if n == 0 {
            return Stats { min: 0, max: 0, mean: 0, p50: 0, p99: 0 };
        }

        let ghost min_i: int = i64::MIN as int;
        let ghost max_i: int = i64::MAX as int;

        let mut sum: i128 = 0;
        let mut i: usize = 0;
        while i < n
            invariant
                i <= n,
                n == sorted@.len(),
                sum == sum_of(sorted@.take(i as int)),
                min_i == i64::MIN as int,
                max_i == i64::MAX as int,
                min_i * (i as int) <= sum <= max_i * (i as int),
            decreases n - i,
        {
            proof {
                assert(sorted@.take(i as int + 1).drop_last() =~= sorted@.take(i as int));
                assert(min_i * (i as int + 1) == min_i * (i as int) + min_i);
                assert(max_i * (i as int + 1) == max_i * (i as int) + max_i);
            }
            sum = sum + sorted[i] as i128;
            i = i + 1;
        }
        proof {
            assert(sorted@.take(n as int) =~= sorted@);
        }

        let mean: i64 = mean_of_sum(sum, n);

        let p50i: usize = n / 2;
        let p99i: usize = percentile_99_index(n);
        proof {
            lemma_percentile_indices_ordered(n as int);
        }

        Stats {
            min: sorted[0],
            max: sorted[n - 1],
            mean,
            p50: sorted[p50i],
            p99: sorted[p99i],
        }
    }
}

/// The executable 99th-percentile index: `floor(n * 99 / 100)`, computed
/// without overflowing even for the largest batch lengths.
fn percentile_99_index(n: usize) -> (r: usize)
    ensures
        r == p99_index(n as int),
        n >= 1 ==> r < n,
{
    let a: usize = n / 100;
    let b: usize = n % 100;
    proof {
        lemma_fundamental_div_mod(n as int, 100);
        assert(n as int * 99 == 99 * b + (99 * a) * 100);
        lemma_hoist_over_denominator(99 * b, 99 * a, 100);
        if n >= 1 {
            lemma_multiply_divide_lt(n as int * 99, 100, n as int);
        }
        assert(99 * a <= 99 * (n as int) / 100) by {
            assert((99 * a) * 100 <= n as int * 99);
            lemma_div_is_ordered((99 * a) * 100, n as int * 99, 100);
            lemma_div_multiples_vanish(99 * a, 100);
        }
    }
    a * 99 + (b * 99) / 100
}

/// Sort a latency batch ascending in place. The sorted batch holds
/// exactly the samples of the original batch.
pub fn sort_batch(v: &mut Vec<i64>)
    ensures
        final(v)@.len() == old(v)@.len(),
        sorted_ascending(final(v)@),
        final(v)@.to_multiset() == old(v)@.to_multiset(),
{
    broadcast use vstd::seq_lib::group_to_multiset_ensures;

    let n = v.len();
    if n < 2 {
        return;
    }
    let mut i: usize = 1;
    while i < n
        invariant
            1 <= i <= n,
            n == v@.len(),
            v@.to_multiset() == old(v)@.to_multiset(),
            forall|a: int, b: int| 0 <= a <= b < i ==> v@[a] <= v@[b],
        decreases n - i,
    {
        let mut j: usize = i;
        while j > 0 && v[j - 1] > v[j]
            invariant
                0 <= j <= i < n,
                n == v@.len(),
                v@.to_multiset() == old(v)@.to_multiset(),
                forall|a: int, b: int|
                    0 <= a <= b <= i && a != j && b != j ==> v@[a] <= v@[b],
                forall|a: int| j < a <= i ==> v@[j as int] <= v@[a],
            decreases j,
        {
            let ghost before = v@;
            let lo = v[j - 1];
            let hi = v[j];
            v[j - 1] = hi;
            v[j] = lo;
            proof {
                assert(v@ =~= before.update(j - 1, hi).update(j as int, lo));
                lemma_swap_preserves_multiset(before, j - 1, j as int);
            }
            j = j - 1;
        }
        proof {
            assert forall|a: int, b: int| 0 <= a <= b <= i implies v@[a] <= v@[b] by {
                if b == j && a < b {
                    assert(v@[a] <= v@[j - 1]);
                    assert(v@[j - 1] <= v@[j as int]);
                }
            }
        }
        i = i + 1;
    }
    assert(sorted_ascending(v@)) by {
        assert(forall|a: int, b: int| 0 <= a <= b < v@.len() ==> b <= n - 1 && v@[a] <= v@[b]);
    }
}

/// Exchanging two positions of a sequence leaves its multiset unchanged.
proof fn lemma_swap_preserves_multiset(s: Seq<i64>, x: int, y: int)
    requires
        0 <= x < s.len(),
        0 <= y < s.len(),
    ensures
        s.update(x, s[y]).update(y, s[x]).to_multiset() == s.to_multiset(),
{
    broadcast use vstd::seq_lib::group_to_multiset_ensures;

    let t = s.update(x, s[y]).update(y, s[x]);
    assert(t.to_multiset() =~= s.to_multiset());
}

/// The mean of a batch whose sum is `sum` and whose length is `n`:
/// the sum divided by the length, truncating toward zero. The bounds on
/// `sum` say that it is a sum of `n` values that each fit in an `i64`,
/// which makes the quotient itself fit in an `i64`.
fn mean_of_sum(sum: i128, n: usize) -> (r: i64)
    requires
        n >= 1,
        i64::MIN as int * (n as int) <= sum <= i64::MAX as int * (n as int),
    ensures
        r == div_trunc(sum as int, n as int),
{
    if sum >= 0 {
        let q: u128 = (sum as u128) / (n as u128);
        proof {
            lemma_multiply_divide_le(sum as int, n as int, i64::MAX as int);
            lemma_div_is_ordered(0, sum as int, n as int);
        }
        q as i64
    } else {
        let mag: u128 = (-sum) as u128;
        let q: u128 = mag / (n as u128);
        proof {
            assert((-sum) as int <= (n as int) * (0x8000_0000_0000_0000 as int));
            lemma_multiply_divide_le((-sum) as int, n as int, 0x8000_0000_0000_0000 as int);
            lemma_div_is_ordered(0, (-sum) as int, n as int);
        }
        let neg_q: i128 = -(q as i128);
        neg_q as i64
    }
}

} // verus!
