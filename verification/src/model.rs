//! The model types: one Gaussian emission per state, and the full
//! continuous-emission hidden Markov model.
//!
//! All floating-point parameters are carried as binary64 bit patterns
//! (`u64`, see [`crate::bits`]). The constructors here enforce the two
//! structural invariants of the model: every variance is clamped to the
//! variance floor, and the transition matrix, initial distribution and
//! emission list agree with the state count.

use vstd::prelude::*;
use crate::bits::{float_is_nan, float_lt, ieee_lt, is_nan, order_key};

verus! {

/// The bit pattern of the variance floor, 1.0e-6. A variance below it would
/// make the emission density degenerate, so constructors clamp to it.
pub const VARIANCE_FLOOR_BITS: u64 = 0x3EB0_C6F7_A0B5_ED8D;

/// The bit pattern of 1.0e-10, the least accumulated posterior weight on
/// which a re-estimation step still divides; below it the previous
/// parameters are kept.
pub const MIN_ACCUMULATED_WEIGHT_BITS: u64 = 0x3DDB_7CDF_D9D7_BDBB;

/// A univariate Gaussian emission distribution: a mean and a variance, both
/// as binary64 bit patterns.
#[derive(Debug, Clone, Copy)]
pub struct GaussianEmission {
    pub mean: u64,
    pub variance: u64,
}

impl GaussianEmission {
    /// The variance a construction with this argument stores: NaN and
    /// anything below the floor become the floor, exactly as the
    /// floating-point maximum of the argument and the floor.
    pub open spec fn clamped_variance(variance: u64) -> u64 {
        if is_nan(variance) || order_key(variance) < order_key(VARIANCE_FLOOR_BITS) {
            VARIANCE_FLOOR_BITS
        } else {
            variance
        }
    }

    /// A well-formed emission has a non-NaN variance at or above the floor.
    pub open spec fn wf(self) -> bool {
        &&& !is_nan(self.variance)
        &&& order_key(self.variance) >= order_key(VARIANCE_FLOOR_BITS)
    }

    /// Builds an emission, clamping the variance to the floor.
    pub fn new(mean: u64, variance: u64) -> (e: Self)
        ensures
            e.mean == mean,
            e.variance == Self::clamped_variance(variance),
            e.wf(),
    {
        let v: u64 = if float_is_nan(variance) || float_lt(variance, VARIANCE_FLOOR_BITS) {
            VARIANCE_FLOOR_BITS
        } else {
            variance
        };
        GaussianEmission { mean, variance: v }
    }
}

/// Tells whether an accumulated posterior weight is large enough for a
/// re-estimation step to divide by it; when it is not, the step keeps the
/// previous value of the parameter it would have updated.
pub fn weight_is_usable(weight: u64) -> (r: bool)
    ensures
        r == ieee_lt(MIN_ACCUMULATED_WEIGHT_BITS, weight),
{
    float_lt(MIN_ACCUMULATED_WEIGHT_BITS, weight)
}

/// Tells whether a row sum may scale its row: only a strictly positive sum
/// divides the row, and only such a sum contributes to the log-likelihood.
/// A zero sum leaves the row as it is — total loss of probability mass is
/// recovered locally, not propagated.
pub fn scaling_factor_is_positive(row_sum: u64) -> (r: bool)
    ensures
        r == ieee_lt(crate::bits::POS_ZERO_BITS, row_sum),
{
    float_lt(crate::bits::POS_ZERO_BITS, row_sum)
}

/// A continuous-emission hidden Markov model: a state count, a transition
/// matrix, an initial state distribution and one Gaussian emission per
/// state. Probabilities are binary64 bit patterns.
#[derive(Debug, Clone)]
pub struct ContinuousHMM {
    pub n_states: usize,
    pub transition_matrix: Vec<Vec<u64>>,
    pub initial_probabilities: Vec<u64>,
    pub emission_params: Vec<GaussianEmission>,
}

impl ContinuousHMM {
    /// The three containers agree with the state count, and the transition
    /// matrix is square.
    pub open spec fn dimensions_ok(self) -> bool {
        &&& self.transition_matrix@.len() == self.n_states
        &&& (forall|i: int|
            0 <= i < self.n_states ==> #[trigger] self.transition_matrix@[i]@.len()
                == self.n_states)
        &&& self.initial_probabilities@.len() == self.n_states
        &&& self.emission_params@.len() == self.n_states
    }

    /// A well-formed model has consistent dimensions and well-formed
    /// emissions.
    pub open spec fn wf(self) -> bool {
        &&& self.dimensions_ok()
        &&& (forall|i: int| 0 <= i < self.n_states ==> (#[trigger] self.emission_params@[i]).wf())
    }

    /// Builds a model from its parts. Mismatched dimensions are a contract
    /// violation of the caller, not a recoverable error, so they are ruled
    /// out up front.
    pub fn new(
        n_states: usize,
        transition_matrix: Vec<Vec<u64>>,
        initial_probabilities: Vec<u64>,
        emission_params: Vec<GaussianEmission>,
    ) -> (m: Self)
        requires
            transition_matrix@.len() == n_states,
            forall|i: int|
                0 <= i < n_states ==> #[trigger] transition_matrix@[i]@.len() == n_states,
            initial_probabilities@.len() == n_states,
            emission_params@.len() == n_states,
            forall|i: int| 0 <= i < n_states ==> (#[trigger] emission_params@[i]).wf(),
        ensures
            m.n_states == n_states,
            m.transition_matrix == transition_matrix,
            m.initial_probabilities == initial_probabilities,
            m.emission_params == emission_params,
            m.wf(),
    {
        ContinuousHMM { n_states, transition_matrix, initial_probabilities, emission_params }
    }
}

/// Every well-formed model keeps each state's variance at or above the
/// variance floor; together with the constructors' contracts this is the
/// variance clause of the trained-model invariant.
pub proof fn lemma_wf_variance_floor(m: ContinuousHMM)
    requires
        m.wf(),
    ensures
        forall|i: int|
            0 <= i < m.n_states ==> order_key((#[trigger] m.emission_params@[i]).variance)
                >= order_key(VARIANCE_FLOOR_BITS),
{
}

} // verus!
