//! Structural layer of the material ranking aggregator: it consumes
//! (posterior, figure-of-merit, citation-weight) triples partitioned by
//! the same half-open subset-bound convention as the entropy scorer, so
//! its request validation shares that check.

use vstd::prelude::*;

use crate::bayesian::ThermoError;
use crate::subsets::all_bounds_ok;
use crate::subsets::first_bad_bound_from;
use crate::subsets::validate_subset_bounds;

verus! {

/// Validates a ranking request over three index-aligned arrays and a list
/// of partition bounds: the figure-of-merit and citation arrays must match
/// the posterior array's length, and every bound must be admissible for
/// it. Errors are reported eagerly, before any aggregation.
pub fn validate_rank_request(
    len: usize,
    zt_len: usize,
    c_len: usize,
    bounds: &[(usize, usize)],
) -> (r: Result<(), ThermoError>)
    ensures
        zt_len != len ==> r == Err::<(), ThermoError>(
            ThermoError::DimensionMismatch(len, zt_len),
        ),
        zt_len == len && c_len != len ==> r == Err::<(), ThermoError>(
            ThermoError::DimensionMismatch(len, c_len),
        ),
        zt_len == len && c_len == len ==> {
            &&& r is Ok <==> all_bounds_ok(bounds@, len)
            &&& !all_bounds_ok(bounds@, len) ==> r == Err::<(), ThermoError>(
                ThermoError::DimensionMismatch(
                    bounds@[first_bad_bound_from(bounds@, len, 0)].1,
                    len,
                ),
            )
        },
{
    if zt_len != len {
        return Err(ThermoError::DimensionMismatch(len, zt_len));
    }
    if c_len != len {
        return Err(ThermoError::DimensionMismatch(len, c_len));
    }
    validate_subset_bounds(bounds, len)
}

} // verus!
