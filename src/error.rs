use vstd::prelude::*;

verus! {

/// Why a fit did not produce coefficients.
#[derive(Clone, Copy, Debug, PartialEq, Eq, Structural)]
pub enum FitError {
    /// The response, the design matrix, the offset or the starting
    /// coefficients do not agree in their dimensions.
    InvalidConfiguration,
    /// The weighted, penalized normal equations were not positive definite.
    SingularNormalEquations,
    /// The outer iteration budget ran out before the tolerance was met.
    NonConvergence,
    /// No step toward the candidate improved the objective, down to the
    /// smallest step that the halving budget allows.
    StepHalvingExhausted,
}

} // verus!
