//! Subset bounds: half-open `(start, end)` index ranges into one shared
//! flat measurement array. Several bounds may reference disjoint or
//! overlapping regions without copying; every bound is validated eagerly,
//! before any per-subset work.

use vstd::prelude::*;

use crate::bayesian::ThermoError;

verus! {

/// A half-open index range is admissible for an array of length `len`
/// when `start <= end <= len`.
pub open spec fn bound_ok(b: (usize, usize), len: usize) -> bool {
    b.0 <= b.1 && b.1 <= len
}

/// Every bound in the list is admissible for length `len`.
pub open spec fn all_bounds_ok(bs: Seq<(usize, usize)>, len: usize) -> bool {
    forall|i: int| 0 <= i < bs.len() ==> bound_ok(#[trigger] bs[i], len)
}

/// Smallest index at or after `i` of a bound that is not admissible, or
/// `bs.len()` when all are.
pub open spec fn first_bad_bound_from(bs: Seq<(usize, usize)>, len: usize, i: int) -> int
    decreases bs.len() - i,
{
    if i < 0 || i >= bs.len() {
        bs.len() as int
    } else if !bound_ok(bs[i], len) {
        i
    } else {
        first_bad_bound_from(bs, len, i + 1)
    }
}

proof fn lemma_first_bad_bound_skips_ok(bs: Seq<(usize, usize)>, len: usize, i: int, j: int)
    requires
        0 <= i <= j <= bs.len(),
        forall|k: int| i <= k < j ==> bound_ok(#[trigger] bs[k], len),
    ensures
        first_bad_bound_from(bs, len, i) == first_bad_bound_from(bs, len, j),
    decreases j - i,
{
    if i < j {
        lemma_first_bad_bound_skips_ok(bs, len, i + 1, j);
    }
}

/// Validates every subset bound against the array length, reporting the
/// first inadmissible bound as its offending end index against the array
/// length.
pub fn validate_subset_bounds(bounds: &[(usize, usize)], len: usize) -> (r: Result<
    (),
    ThermoError,
>)
    ensures
        r is Ok <==> all_bounds_ok(bounds@, len),
        !all_bounds_ok(bounds@, len) ==> r == Err::<(), ThermoError>(
            ThermoError::DimensionMismatch(
                bounds@[first_bad_bound_from(bounds@, len, 0)].1,
                len,
            ),
        ),
{
    let mut i: usize = 0;
    while i < bounds.len()
        invariant
            0 <= i <= bounds@.len(),
            forall|k: int| 0 <= k < i ==> bound_ok(#[trigger] bounds@[k], len),
        decreases bounds@.len() - i,
    {
        let (start, end) = bounds[i];
        if start > end || end > len {
            proof {
                lemma_first_bad_bound_skips_ok(bounds@, len, 0, i as int);
            }
            return Err(ThermoError::DimensionMismatch(end, len));
        }
        i = i + 1;
    }
    Ok(())
}

} // verus!
