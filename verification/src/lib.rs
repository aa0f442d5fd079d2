//! Verified structural core of a batch evaluation engine for
//! thermoelectric measurements.
//!
//! Two batch evaluators — a penalized Bayesian posterior pipeline and a
//! histogram entropy scorer — run over flat numeric arrays partitioned by
//! half-open subset bounds. Everything those pipelines decide about
//! structure is proved here: input-shape validation, subset-bound
//! validation, histogram bin assignment under the terminal-bin clamping
//! policy with exact count conservation, the normalization verdict, the
//! shared three-kind error taxonomy, and the SI dimensional exponent
//! algebra of the unit layer. The floating-point formulas themselves
//! (likelihood, log-sum-exp, entropy, divergence, conversion factors) are
//! evaluated by the unverified front end around this crate.

pub mod bayesian;
pub mod information_gain;
pub mod ranking_core;
pub mod subsets;
pub mod units;

pub use bayesian::ThermoError;
