use crate::error::FitError;
use vstd::prelude::*;

verus! {

/// Whether a response of `n_response` observations, a design matrix of
/// `n_rows` rows and `n_cols` columns, and an optional linear offset of
/// `offset_len` entries make a model: one row and one offset entry per
/// observation, and at least one explanatory variable.
pub open spec fn dimensions_agree(
    n_response: usize,
    n_rows: usize,
    n_cols: usize,
    offset_len: Option<usize>,
) -> bool {
    &&& n_cols >= 1
    &&& n_rows == n_response
    &&& offset_len matches Some(k) ==> k == n_response
}

/// The dimensions of a model: `n_obs` observations of `n_vars` explanatory
/// variables each.
#[derive(Clone, Copy, Debug, PartialEq, Eq, Structural)]
pub struct ModelShape {
    pub n_obs: usize,
    pub n_vars: usize,
}

impl ModelShape {
    /// The shape of a model with the given dimensions, or
    /// `InvalidConfiguration` where they disagree.
    pub fn new(n_response: usize, n_rows: usize, n_cols: usize, offset_len: Option<usize>) -> (r:
        Result<ModelShape, FitError>)
        ensures
            r is Ok <==> dimensions_agree(n_response, n_rows, n_cols, offset_len),
            r matches Ok(m) ==> m.n_obs == n_response && m.n_vars == n_cols,
            r matches Err(e) ==> e == FitError::InvalidConfiguration,
    {
        if n_cols == 0 || n_rows != n_response {
            return Err(FitError::InvalidConfiguration);
        }
        match offset_len {
            Some(k) => {
                if k != n_response {
                    return Err(FitError::InvalidConfiguration);
                }
            },
            None => {},
        }
        Ok(ModelShape { n_obs: n_response, n_vars: n_cols })
    }

    /// Checks a coefficient vector of `len` entries against the model: one
    /// coefficient per explanatory variable.
    pub fn check_coefficients(&self, len: usize) -> (r: Result<(), FitError>)
        ensures
            r is Ok <==> len == self.n_vars,
            r matches Err(e) ==> e == FitError::InvalidConfiguration,
    {
        if len == self.n_vars {
            Ok(())
        } else {
            Err(FitError::InvalidConfiguration)
        }
    }
}

} // verus!
