//! Checks of the histogram entropy scorer's structural core: request
//! validation, clamped bin assignment, and exact count conservation.

use thermo_core::information_gain::clamp_bin_index;
use thermo_core::information_gain::subset_bin_counts;
use thermo_core::information_gain::validate_gain_request;
use thermo_core::ranking_core::validate_rank_request;
use thermo_core::subsets::validate_subset_bounds;
use thermo_core::ThermoError;

/// The raw bin index of a measurement, as the floating-point front end
/// computes it before handing it to the verified counting core.
fn raw_index(x: f64, t_min: f64, delta: f64) -> i64 {
    ((x - t_min) / delta).floor() as i64
}

#[test]
fn biased_sampling_concentrates_in_one_bin() {
    // Four identical measurements at 150.0 over the domain [100, 500)
    // split into 4 bins all land in the first bin: the degenerate
    // distribution whose entropy is zero.
    let t = [150.0, 150.0, 150.0, 150.0];
    let delta = (500.0 - 100.0) / 4.0;
    let raw: Vec<i64> = t.iter().map(|&x| raw_index(x, 100.0, delta)).collect();
    let counts = subset_bin_counts(&raw, 0, 4, 4);
    assert_eq!(counts, vec![4, 0, 0, 0]);
}

#[test]
fn vacuous_subset_counts_nothing() {
    let raw: Vec<i64> = vec![];
    let counts = subset_bin_counts(&raw, 0, 0, 4);
    assert_eq!(counts, vec![0, 0, 0, 0]);
}

#[test]
fn out_of_domain_samples_are_clamped_not_dropped() {
    // One sample far below the domain, one far above: both are pinned to
    // the terminal bins, so the counts still add up to the subset size.
    let raw = [-3, 100, 1, 1];
    let counts = subset_bin_counts(&raw, 0, 4, 4);
    assert_eq!(counts, vec![1, 2, 0, 1]);
    assert_eq!(counts.iter().sum::<usize>(), 4);
}

#[test]
fn subset_bounds_select_the_slice() {
    let raw = [0, 1, 2, 3];
    let counts = subset_bin_counts(&raw, 1, 3, 4);
    assert_eq!(counts, vec![0, 1, 1, 0]);
}

#[test]
fn clamping_policy_pins_terminal_bins() {
    assert_eq!(clamp_bin_index(-5, 4), 0);
    assert_eq!(clamp_bin_index(0, 4), 0);
    assert_eq!(clamp_bin_index(2, 4), 2);
    assert_eq!(clamp_bin_index(3, 4), 3);
    assert_eq!(clamp_bin_index(4, 4), 3);
    assert_eq!(clamp_bin_index(7000, 4), 3);
}

#[test]
fn zero_bins_is_numerical_instability() {
    let bounds = [(0usize, 0usize)];
    assert_eq!(
        validate_gain_request(4, &bounds, 0, false),
        Err(ThermoError::NumericalInstability)
    );
}

#[test]
fn inverted_domain_is_numerical_instability() {
    let bounds = [(0usize, 0usize)];
    let t_min = 500.0;
    let t_max = 100.0;
    assert_eq!(
        validate_gain_request(4, &bounds, 4, t_max <= t_min),
        Err(ThermoError::NumericalInstability)
    );
}

#[test]
fn offending_bound_reports_end_against_length() {
    let bounds = [(0usize, 2usize), (1usize, 9usize)];
    assert_eq!(
        validate_gain_request(4, &bounds, 4, false),
        Err(ThermoError::DimensionMismatch(9, 4))
    );
    let inverted = [(3usize, 1usize)];
    assert_eq!(
        validate_subset_bounds(&inverted, 4),
        Err(ThermoError::DimensionMismatch(1, 4))
    );
}

#[test]
fn admissible_request_passes() {
    let bounds = [(0usize, 2usize), (2usize, 4usize), (1usize, 1usize)];
    assert_eq!(validate_gain_request(4, &bounds, 4, false), Ok(()));
    assert_eq!(validate_subset_bounds(&bounds, 4), Ok(()));
}

#[test]
fn rank_request_checks_lengths_then_bounds() {
    let bounds = [(0usize, 2usize)];
    assert_eq!(
        validate_rank_request(4, 3, 4, &bounds),
        Err(ThermoError::DimensionMismatch(4, 3))
    );
    assert_eq!(
        validate_rank_request(4, 4, 2, &bounds),
        Err(ThermoError::DimensionMismatch(4, 2))
    );
    let bad = [(0usize, 5usize)];
    assert_eq!(
        validate_rank_request(4, 4, 4, &bad),
        Err(ThermoError::DimensionMismatch(5, 4))
    );
    assert_eq!(validate_rank_request(4, 4, 4, &bounds), Ok(()));
}
