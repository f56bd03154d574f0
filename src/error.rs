use vstd::prelude::*;

verus! {

/// Why a density or sampling call could not produce a result.
#[derive(Debug, Clone, Copy, PartialEq, Eq, Structural)]
pub enum StatError {
    /// The dimensions of the points, the mean and the covariance disagree.
    ShapeMismatch,
    /// The covariance has a zero determinant or could not be inverted.
    SingularMatrix,
    /// The covariance has no Cholesky factorization.
    NotPositiveDefinite,
    /// An argument lies outside what the function accepts.
    PreconditionViolation,
}

} // verus!
