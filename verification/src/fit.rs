//! When a polynomial least-squares fit is determined by the sample.
//!
//! A polynomial of degree `d` has `d + 1` coefficients. Its design matrix has
//! one row per observation and one column per power `0..=d`, so the normal
//! equations can have a unique solution only when there are more observations
//! than the degree.

use vstd::prelude::*;

verus! {

/// Why a polynomial fit cannot be carried out.
#[derive(Clone, Copy, Debug, PartialEq, Eq, Structural)]
pub enum FitError {
    /// The normal equations have no unique solution.
    SingularDesignMatrix,
}

/// Number of columns of the design matrix for a polynomial of degree `degree`:
/// one for each power from `0` up to and including `degree`.
pub open spec fn term_count(degree: nat) -> nat {
    degree + 1
}

/// Whether `observations` samples can determine all coefficients of a
/// polynomial of degree `degree`.
pub open spec fn has_support(observations: nat, degree: nat) -> bool {
    observations >= term_count(degree)
}

/// Returns the number of coefficients to fit for a polynomial of degree
/// `degree`, or `SingularDesignMatrix` when the sample is too small to
/// determine them.
pub fn polynomial_terms(observations: usize, degree: usize) -> (res: Result<usize, FitError>)
    ensures
        match res {
            Ok(terms) => has_support(observations as nat, degree as nat) && terms == term_count(
                degree as nat,
            ),
            Err(e) => !has_support(observations as nat, degree as nat) && e
                == FitError::SingularDesignMatrix,
        },
{
    if degree < observations {
        Ok(degree + 1)
    } else {
        Err(FitError::SingularDesignMatrix)
    }
}

} // verus!
