//! Error taxonomy and the structural layer of the Bayesian evidential
//! aggregation pipeline: input-shape validation and the normalization
//! verdict that decides between an empty result, an epistemic failure and
//! a numerical failure.

use vstd::prelude::*;

verus! {

/// The three failure kinds shared by every batch evaluator. Returned as
/// values, never raised.
#[derive(Debug, Clone, PartialEq, Eq)]
pub enum ThermoError {
    /// Input arrays must have identical lengths: carries the expected and
    /// the found size (or, for a subset bound, the offending end index and
    /// the array length).
    DimensionMismatch(usize, usize),
    /// Every hypothesis received non-finite or negative-infinite
    /// unnormalized mass: an epistemic dead end.
    ZeroProbabilitySpace,
    /// The stabilized normalizer produced a non-finite denominator, or the
    /// domain configuration itself is invalid.
    NumericalInstability,
}

/// All entries of `s` agree with the first one (vacuously true when empty).
pub open spec fn all_lengths_equal(s: Seq<usize>) -> bool {
    forall|i: int| 0 <= i < s.len() ==> #[trigger] s[i] == s[0]
}

/// Smallest index at or after `i` whose entry differs from `s[0]`, or
/// `s.len()` when none does.
pub open spec fn first_divergence_from(s: Seq<usize>, i: int) -> int
    decreases s.len() - i,
{
    if i < 0 || i >= s.len() {
        s.len() as int
    } else if s[i] != s[0] {
        i
    } else {
        first_divergence_from(s, i + 1)
    }
}

proof fn lemma_first_divergence_skips_equal(s: Seq<usize>, i: int, j: int)
    requires
        0 <= i <= j <= s.len(),
        forall|k: int| i <= k < j ==> #[trigger] s[k] == s[0],
    ensures
        first_divergence_from(s, i) == first_divergence_from(s, j),
    decreases j - i,
{
    if i < j {
        lemma_first_divergence_skips_equal(s, i + 1, j);
    }
}

/// Enforces identical array lengths before any batch computation: returns
/// the common length, or the expected size paired with the first deviating
/// size.
pub fn enforce_equal_lengths(lengths: &[usize]) -> (r: Result<usize, ThermoError>)
    ensures
        r is Ok <==> all_lengths_equal(lengths@),
        lengths@.len() == 0 ==> r == Ok::<usize, ThermoError>(0usize),
        lengths@.len() > 0 && all_lengths_equal(lengths@) ==> r == Ok::<usize, ThermoError>(
            lengths@[0],
        ),
        !all_lengths_equal(lengths@) ==> r == Err::<usize, ThermoError>(
            ThermoError::DimensionMismatch(
                lengths@[0],
                lengths@[first_divergence_from(lengths@, 1)],
            ),
        ),
{
    if lengths.len() == 0 {
        return Ok(0);
    }
    let baseline = lengths[0];
    let mut i: usize = 1;
    while i < lengths.len()
        invariant
            1 <= i <= lengths@.len(),
            baseline == lengths@[0],
            forall|k: int| 1 <= k < i ==> #[trigger] lengths@[k] == lengths@[0],
        decreases lengths@.len() - i,
    {
        if lengths[i] != baseline {
            proof {
                lemma_first_divergence_skips_equal(lengths@, 1, i as int);
            }
            return Err(ThermoError::DimensionMismatch(baseline, lengths[i]));
        }
        i = i + 1;
    }
    Ok(baseline)
}

/// Decides the outcome of the log-sum-exp posterior normalization from the
/// batch size and the two stability findings: `Ok(false)` means an empty
/// batch whose result is the empty pair, `Ok(true)` means the normalized
/// projection may proceed. `peak_degenerate` reports whether the maximum of
/// the unnormalized log-posteriors was negative infinity or not a number;
/// `denominator_finite` whether the log-sum-exp denominator came out
/// finite.
pub fn normalization_status(
    n: usize,
    peak_degenerate: bool,
    denominator_finite: bool,
) -> (r: Result<bool, ThermoError>)
    ensures
        n == 0 ==> r == Ok::<bool, ThermoError>(false),
        n > 0 && peak_degenerate ==> r == Err::<bool, ThermoError>(
            ThermoError::ZeroProbabilitySpace,
        ),
        n > 0 && !peak_degenerate && !denominator_finite ==> r == Err::<bool, ThermoError>(
            ThermoError::NumericalInstability,
        ),
        n > 0 && !peak_degenerate && denominator_finite ==> r == Ok::<bool, ThermoError>(true),
{
    if n == 0 {
        Ok(false)
    } else if peak_degenerate {
        Err(ThermoError::ZeroProbabilitySpace)
    } else if !denominator_finite {
        Err(ThermoError::NumericalInstability)
    } else {
        Ok(true)
    }
}

} // verus!
