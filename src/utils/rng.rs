//! Random choices.

use rand::distributions::{Distribution, Uniform, WeightedIndex};
use rand::seq::IteratorRandom;
use rand::Rng;
use vstd::prelude::*;

verus! {

/// Sum of the first `n` weights.
pub open spec fn weight_sum(weights: Seq<u32>, n: int) -> int
    decreases n,
{
    if n <= 0 {
        0
    } else {
        weight_sum(weights, n - 1) + weights[n - 1]
    }
}

/// Relies on rand's `WeightedIndex`: building one fails exactly when there
/// are no weights or they are all zero, and a sample is an index whose
/// weight is positive.
#[verifier::external_body]
fn sample_weighted_index(weights: &[u32]) -> (r: Option<usize>)
    requires
        weight_sum(weights@, weights@.len() as int) <= u32::MAX,
    ensures
        r is None <==> weight_sum(weights@, weights@.len() as int) == 0,
        r matches Some(i) ==> i < weights@.len() && weights@[i as int] > 0,
{
    match WeightedIndex::new(weights) {
        Ok(w) => Some(w.sample(&mut rand::thread_rng())),
        Err(_) => None,
    }
}

/// Relies on rand's `Rng::gen_range` on a half-open range, which returns a
/// value inside it (and panics on an empty one).
#[verifier::external_body]
pub(crate) fn random_below(bound: u64) -> (r: u64)
    requires
        bound > 0,
    ensures
        r < bound,
{
    rand::thread_rng().gen_range(0..bound)
}

/// Relies on rand's `Rng::gen` for `u32`: any value may come.
#[verifier::external_body]
fn random_u32() -> (r: u32) {
    rand::thread_rng().gen::<u32>()
}

/// Relies on rand's `Uniform::new_inclusive`, which panics unless
/// `low <= high`, and whose samples lie between the two bounds.
#[verifier::external_body]
fn uniform_inclusive(low: u32, high: u32) -> (r: u32)
    requires
        low <= high,
    ensures
        low <= r <= high,
{
    Uniform::new_inclusive(low, high).sample(&mut rand::thread_rng())
}

/// Generates a random number between `lower` and `upper` whose average
/// lies close to `avg`.
///
/// The midpoints of `lower` and `avg` and of `avg` and `upper` must differ.
pub fn weighted_random(lower: u32, upper: u32, avg: u32) -> (r: u32)
    requires
        lower <= avg <= upper,
        (lower + avg) / 2 < (avg + upper) / 2,
    ensures
        lower <= r <= upper,
{
    let avg_low = ((lower as u64 + avg as u64) / 2) as u32;
    let avg_high = ((avg as u64 + upper as u64) / 2) as u32;
    let p_high = (avg - avg_low) / (avg_high - avg_low);
    if random_u32() < p_high {
        uniform_inclusive(avg, upper)
    } else {
        uniform_inclusive(lower, avg)
    }
}

/// Selects one of `options` at random, each with the chance given by the
/// weight at the same index.
///
/// Returns `None` if `options` and `weights` differ in length, or the
/// weights are empty or sum to 0.
pub fn select_one<'a, T>(options: &'a [T], weights: &[u32]) -> (r: Option<&'a T>)
    requires
        weight_sum(weights@, weights@.len() as int) <= u32::MAX,
    ensures
        r is None <==> (options@.len() != weights@.len() || weight_sum(
            weights@,
            weights@.len() as int,
        ) == 0),
        r matches Some(x) ==> exists|i: int|
            0 <= i < weights@.len() && weights@[i] > 0 && *x == options@[i],
{
    if options.len() != weights.len() {
        return None;
    }
    match sample_weighted_index(weights) {
        Some(i) => Some(&options[i]),
        None => None,
    }
}

/// Relies on rand's `IteratorRandom::choose_multiple` over `0..bound`: it
/// returns `amount` of the range's values, or all of them if there are
/// fewer, each at most once.
#[verifier::external_body]
fn sample_distinct_below(bound: u32, amount: usize) -> (r: Vec<u32>)
    ensures
        r@.len() == if amount < bound {
            amount as int
        } else {
            bound as int
        },
        r@.no_duplicates(),
        forall|i: int| 0 <= i < r@.len() ==> #[trigger] r@[i] < bound,
{
    (0..bound).choose_multiple(&mut rand::thread_rng(), amount)
}

/// Relies on std's `slice::sort_unstable`: the same values, in ascending order.
#[verifier::external_body]
fn sort_ascending(v: &mut Vec<u32>)
    ensures
        final(v)@.to_multiset() == old(v)@.to_multiset(),
        forall|i: int, j: int| 0 <= i <= j < final(v)@.len() ==> #[trigger] final(v)@[i] <= #[trigger] final(v)@[j],
{
    v.sort_unstable()
}

/// Sum of the first `n` values of `s`.
pub open spec fn sum_of(s: Seq<u32>, n: int) -> int
    decreases n,
{
    if n <= 0 {
        0
    } else {
        sum_of(s, n - 1) + s[n - 1]
    }
}

proof fn lemma_sum_of_prefix(s: Seq<u32>, t: Seq<u32>, n: int)
    requires
        0 <= n <= s.len(),
        n <= t.len(),
        forall|i: int| 0 <= i < n ==> s[i] == t[i],
    ensures
        sum_of(s, n) == sum_of(t, n),
    decreases n,
{
    if n > 0 {
        lemma_sum_of_prefix(s, t, n - 1);
    }
}

/// Randomly splits `number` into `total` numbers of at least `minimum` each
/// that add up to it.
///
/// Returns nothing if `total` is 0 or `total * minimum` exceeds `number`,
/// and `total` zeros if `number` is 0.
pub fn split_in_integers(number: u32, total: u32, minimum: u32) -> (r: Vec<u32>)
    requires
        total <= 0x1000_0000,
        number + total <= u32::MAX,
    ensures
        total == 0 || total * minimum > number ==> r@.len() == 0,
        !(total == 0 || total * minimum > number) ==> {
            &&& r@.len() == total
            &&& sum_of(r@, total as int) == number
            &&& forall|i: int| 0 <= i < total ==> #[trigger] r@[i] >= minimum
        },
{
    if total == 0 {
        return Vec::new();
    }
    let (t, m) = (total as u64, minimum as u64);
    assert(t * m <= 0x1000_0000 * 0xffff_ffff) by (nonlinear_arith)
        requires
            t <= 0x1000_0000,
            m <= 0xffff_ffff,
    ;
    if t * m > number as u64 {
        return Vec::new();
    }
    let max: u32 = (number as u64 - t * m + t - 1) as u32;
    let mut breaks = sample_distinct_below(max, (total - 1) as usize);
    assert(breaks@.len() == total - 1);
    let ghost sampled = breaks@;
    sort_ascending(&mut breaks);
    proof {
        sampled.lemma_multiset_has_no_duplicates();
        breaks@.lemma_multiset_has_no_duplicates_conv();
        sampled.to_multiset_ensures();
        breaks@.to_multiset_ensures();
        assert forall|i: int| 0 <= i < breaks@.len() implies #[trigger] breaks@[i] < max by {
            assert(breaks@.contains(breaks@[i]));
            assert(breaks@.to_multiset().count(breaks@[i]) > 0);
            assert(sampled.to_multiset().count(breaks@[i]) > 0);
            assert(sampled.contains(breaks@[i]));
        }
    }
    let ghost sorted = breaks@;
    breaks.push(max);
    proof {
        assert forall|i: int, j: int| 0 <= i < j < breaks@.len() implies #[trigger] breaks@[i] < #[trigger] breaks@[j] by {
            if j < sorted.len() {
                assert(sorted[i] <= sorted[j]);
                assert(sorted[i] != sorted[j]);
            } else {
                assert(sorted[i] < max);
            }
        }
    }
    let mut buckets: Vec<u32> = Vec::new();
    proof {
        let b0 = breaks@[0] as int;
        assert(b0 + minimum <= u32::MAX) by (nonlinear_arith)
            requires
                b0 <= max,
                max == number - total * minimum + total - 1,
                total >= 1,
                minimum >= 0,
                number + total <= u32::MAX,
        ;
    }
    buckets.push(breaks[0] + minimum);
    proof {
        reveal_with_fuel(sum_of, 2);
    }
    let mut w: usize = 1;
    while w < breaks.len()
        invariant
            1 <= w <= breaks@.len() == total,
            buckets@.len() == w,
            forall|i: int, j: int| 0 <= i < j < breaks@.len() ==> #[trigger] breaks@[i] < #[trigger] breaks@[j],
            breaks@[total - 1] == max,
            max == number - total * minimum + total - 1,
            number + total <= u32::MAX,
            forall|i: int| 0 <= i < w ==> #[trigger] buckets@[i] >= minimum,
            sum_of(buckets@, w as int) == breaks@[w - 1] - (w - 1) + w * minimum,
        decreases breaks@.len() - w,
    {
        let ghost before = buckets@;
        assert(breaks@[w - 1] < breaks@[w as int]);
        proof {
            assert(breaks@[w as int] <= max);
            let (hi, lo) = (breaks@[w as int] as int, breaks@[w - 1] as int);
            assert(hi - lo - 1 + minimum <= u32::MAX) by (nonlinear_arith)
                requires
                    hi <= max,
                    max == number - total * minimum + total - 1,
                    total >= 1,
                    minimum >= 0,
                    lo >= 0,
                    number + total <= u32::MAX,
            ;
        }
        buckets.push(breaks[w] - breaks[w - 1] - 1 + minimum);
        proof {
            lemma_sum_of_prefix(buckets@, before, w as int);
            assert(w * minimum + minimum == (w + 1) * minimum) by (nonlinear_arith);
        }
        w = w + 1;
    }
    proof {
        assert(sum_of(buckets@, total as int) == number) by (nonlinear_arith)
            requires
                sum_of(buckets@, total as int) == max - (total - 1) + total * minimum,
                max == number - total * minimum + total - 1,
        ;
    }
    buckets
}

} // verus!
