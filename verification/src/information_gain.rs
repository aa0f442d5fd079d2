//! Structural core of the histogram entropy scorer: request validation,
//! the clamped bin-assignment policy, and exact per-subset bin counting.
//!
//! Out-of-domain samples are pinned to the nearest terminal bin, never
//! discarded, so the bin counts of a subset always add up to the subset
//! size exactly — no probability leakage. The entropy and divergence of
//! the resulting empirical distribution are taken over these counts.

use vstd::prelude::*;

use crate::bayesian::ThermoError;
use crate::subsets::all_bounds_ok;
use crate::subsets::first_bad_bound_from;
use crate::subsets::validate_subset_bounds;

verus! {

/// The clamping policy: a raw bin index below the domain is pinned to the
/// first bin, one at or above `num_bins` to the last bin.
pub open spec fn spec_clamp_bin(raw: int, num_bins: int) -> int {
    if raw < 0 {
        0
    } else if raw >= num_bins {
        num_bins - 1
    } else {
        raw
    }
}

/// Number of samples of `s` whose clamped bin index is `b`.
pub open spec fn bin_count(s: Seq<i64>, num_bins: int, b: int) -> nat
    decreases s.len(),
{
    if s.len() == 0 {
        0
    } else {
        bin_count(s.drop_last(), num_bins, b) + (if spec_clamp_bin(
            s.last() as int,
            num_bins,
        ) == b {
            1nat
        } else {
            0nat
        })
    }
}

/// Total of a count vector.
pub open spec fn sum_counts(s: Seq<usize>) -> int
    decreases s.len(),
{
    if s.len() == 0 {
        0
    } else {
        sum_counts(s.drop_last()) + s.last()
    }
}

proof fn lemma_bin_count_le_len(s: Seq<i64>, num_bins: int, b: int)
    ensures
        bin_count(s, num_bins, b) <= s.len(),
    decreases s.len(),
{
    if s.len() > 0 {
        lemma_bin_count_le_len(s.drop_last(), num_bins, b);
    }
}

proof fn lemma_sum_counts_update(s: Seq<usize>, j: int, v: usize)
    requires
        0 <= j < s.len(),
    ensures
        sum_counts(s.update(j, v)) == sum_counts(s) - s[j] + v,
    decreases s.len(),
{
    if j == s.len() - 1 {
        assert(s.update(j, v).drop_last() =~= s.drop_last());
    } else {
        assert(s.update(j, v).drop_last() =~= s.drop_last().update(j, v));
        lemma_sum_counts_update(s.drop_last(), j, v);
    }
}

/// A subset with no measurements has every bin count zero: the empty
/// subset maps to the all-zero record.
pub proof fn lemma_vacuous_subset(s: Seq<i64>, num_bins: int, b: int)
    requires
        s.len() == 0,
    ensures
        bin_count(s, num_bins, b) == 0,
{
}

/// A subset whose every sample clamps into one bin `b` is a point mass:
/// bin `b` holds the whole subset and every other bin is empty — the
/// degenerate single-bin distribution whose entropy is zero.
pub proof fn lemma_point_mass_counts(s: Seq<i64>, num_bins: int, b: int, c: int)
    requires
        0 <= b < num_bins,
        forall|i: int| 0 <= i < s.len() ==> #[trigger] spec_clamp_bin(s[i] as int, num_bins)
            == b,
        0 <= c < num_bins,
    ensures
        bin_count(s, num_bins, b) == s.len(),
        c != b ==> bin_count(s, num_bins, c) == 0,
    decreases s.len(),
{
    if s.len() > 0 {
        lemma_point_mass_counts(s.drop_last(), num_bins, b, c);
    }
}

/// Validates a histogram scoring request before any per-subset work: a
/// zero bin count or an inverted domain (`max <= min`, reported by the
/// caller as `domain_inverted`) is a numerical-instability error; an
/// inadmissible subset bound is a dimension mismatch of its end index
/// against the array length.
pub fn validate_gain_request(
    len: usize,
    bounds: &[(usize, usize)],
    num_bins: usize,
    domain_inverted: bool,
) -> (r: Result<(), ThermoError>)
    ensures
        num_bins == 0 || domain_inverted ==> r == Err::<(), ThermoError>(
            ThermoError::NumericalInstability,
        ),
        num_bins > 0 && !domain_inverted ==> {
            &&& r is Ok <==> all_bounds_ok(bounds@, len)
            &&& !all_bounds_ok(bounds@, len) ==> r == Err::<(), ThermoError>(
                ThermoError::DimensionMismatch(
                    bounds@[first_bad_bound_from(bounds@, len, 0)].1,
                    len,
                ),
            )
        },
{
    if num_bins == 0 || domain_inverted {
        return Err(ThermoError::NumericalInstability);
    }
    validate_subset_bounds(bounds, len)
}

/// Clamps a raw bin index into `[0, num_bins - 1]` under the terminal-bin
/// policy.
pub fn clamp_bin_index(raw: i64, num_bins: usize) -> (idx: usize)
    requires
        1 <= num_bins,
    ensures
        idx == spec_clamp_bin(raw as int, num_bins as int),
        idx < num_bins,
{
    if raw < 0 {
        0
    } else if raw as u64 >= num_bins as u64 {
        num_bins - 1
    } else {
        raw as usize
    }
}

/// Computes the empirical histogram of the subset `raw[start..end]`: the
/// count of each clamped bin, exact per bin, with the counts adding up to
/// the subset size exactly.
pub fn subset_bin_counts(raw: &[i64], start: usize, end: usize, num_bins: usize) -> (counts: Vec<
    usize,
>)
    requires
        start <= end <= raw@.len(),
        1 <= num_bins,
    ensures
        counts@.len() == num_bins,
        forall|b: int| 0 <= b < num_bins ==> counts@[b] == bin_count(
            raw@.subrange(start as int, end as int),
            num_bins as int,
            b,
        ),
        sum_counts(counts@) == end - start,
{
    let mut counts: Vec<usize> = Vec::new();
    let mut j: usize = 0;
    while j < num_bins
        invariant
            0 <= j <= num_bins,
            counts@.len() == j,
            forall|b: int| 0 <= b < j ==> counts@[b] == 0,
            sum_counts(counts@) == 0,
        decreases num_bins - j,
    {
        proof {
            assert(counts@.push(0usize).drop_last() =~= counts@);
        }
        counts.push(0);
        j = j + 1;
    }
    let mut i: usize = start;
    proof {
        assert(raw@.subrange(start as int, start as int) =~= Seq::<i64>::empty());
    }
    while i < end
        invariant
            start <= i <= end <= raw@.len(),
            1 <= num_bins,
            counts@.len() == num_bins,
            forall|b: int| 0 <= b < num_bins ==> counts@[b] == bin_count(
                raw@.subrange(start as int, i as int),
                num_bins as int,
                b,
            ),
            sum_counts(counts@) == i - start,
        decreases end - i,
    {
        let idx = clamp_bin_index(raw[i], num_bins);
        proof {
            let prefix = raw@.subrange(start as int, i as int);
            let extended = raw@.subrange(start as int, i + 1);
            assert(extended.drop_last() =~= prefix);
            assert(extended.last() == raw@[i as int]);
            lemma_bin_count_le_len(prefix, num_bins as int, idx as int);
            lemma_sum_counts_update(counts@, idx as int, (counts@[idx as int] + 1) as usize);
        }
        let bumped = counts[idx] + 1;
        counts.set(idx, bumped);
        i = i + 1;
    }
    counts
}

} // verus!
