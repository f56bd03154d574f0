use vstd::prelude::*;

use crate::error::StatError;

verus! {

/// Row and column counts of a dense two-dimensional array.
#[derive(Debug, Clone, Copy, PartialEq, Eq, Structural)]
pub struct MatShape {
    pub rows: usize,
    pub cols: usize,
}

impl MatShape {
    pub fn new(rows: usize, cols: usize) -> (r: MatShape)
        ensures
            r.rows == rows,
            r.cols == cols,
    {
        MatShape { rows, cols }
    }

    /// Whether the array is square of side `d`.
    pub open spec fn is_square_of(self, d: nat) -> bool {
        self.rows == d && self.cols == d
    }
}

/// A batch of points (one per row), a mean and a covariance fit together
/// when the point width, the mean length and both sides of the covariance
/// are one and the same dimension.
pub open spec fn density_shapes_agree(points: MatShape, mu_len: nat, cov: MatShape) -> bool {
    points.cols == mu_len && cov.is_square_of(mu_len)
}

/// A mean and a covariance fit together for sampling when the covariance
/// is square with the mean's length as its side.
pub open spec fn sample_shapes_agree(mu_len: nat, cov: MatShape) -> bool {
    cov.is_square_of(mu_len)
}

/// Checks the shapes handed to the multivariate normal density and returns
/// the common dimension, or `ShapeMismatch` for any disagreement.
pub fn density_dim(points: MatShape, mu_len: usize, cov: MatShape) -> (r: Result<usize, StatError>)
    ensures
        r == (if density_shapes_agree(points, mu_len as nat, cov) {
            Ok::<usize, StatError>(mu_len)
        } else {
            Err::<usize, StatError>(StatError::ShapeMismatch)
        }),
{
    if points.cols != mu_len || cov.rows != mu_len || cov.cols != mu_len {
        Err(StatError::ShapeMismatch)
    } else {
        Ok(mu_len)
    }
}

/// Checks the shapes handed to the multivariate normal sampler and returns
/// the dimension of each draw, or `ShapeMismatch` for any disagreement.
pub fn sample_dim(mu_len: usize, cov: MatShape) -> (r: Result<usize, StatError>)
    ensures
        r == (if sample_shapes_agree(mu_len as nat, cov) {
            Ok::<usize, StatError>(mu_len)
        } else {
            Err::<usize, StatError>(StatError::ShapeMismatch)
        }),
{
    if cov.rows != mu_len || cov.cols != mu_len {
        Err(StatError::ShapeMismatch)
    } else {
        Ok(mu_len)
    }
}

} // verus!
