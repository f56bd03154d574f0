use vstd::prelude::*;

use crate::error::StatError;
use crate::shape::{density_shapes_agree, MatShape};

verus! {

/// A mixture's components fit a batch of points when there is one mean, one
/// covariance and one weight per component, and each component's mean and
/// covariance fit the points.
pub open spec fn mixture_shapes_agree(
    points: MatShape,
    mu_lens: Seq<usize>,
    covs: Seq<MatShape>,
    n_weights: nat,
) -> bool {
    &&& covs.len() == mu_lens.len()
    &&& n_weights == mu_lens.len()
    &&& forall|k: int|
        0 <= k < mu_lens.len() ==> #[trigger] density_shapes_agree(
            points,
            mu_lens[k] as nat,
            covs[k],
        )
}

/// Checks the shapes handed to the mixture density before any component is
/// evaluated, and returns the number of components, or `ShapeMismatch`.
pub fn mixture_dim(
    points: MatShape,
    mu_lens: &Vec<usize>,
    covs: &Vec<MatShape>,
    n_weights: usize,
) -> (r: Result<usize, StatError>)
    ensures
        r == (if mixture_shapes_agree(points, mu_lens@, covs@, n_weights as nat) {
            Ok::<usize, StatError>(mu_lens.len())
        } else {
            Err::<usize, StatError>(StatError::ShapeMismatch)
        }),
{
    if covs.len() != mu_lens.len() || n_weights != mu_lens.len() {
        return Err(StatError::ShapeMismatch);
    }
    let mut k: usize = 0;
    while k < mu_lens.len()
        invariant
            covs.len() == mu_lens.len(),
            n_weights == mu_lens.len(),
            0 <= k <= mu_lens.len(),
            forall|j: int|
                0 <= j < k ==> #[trigger] density_shapes_agree(
                    points,
                    mu_lens@[j] as nat,
                    covs@[j],
                ),
        decreases mu_lens.len() - k,
    {
        let d = mu_lens[k];
        let c = covs[k];
        if points.cols != d || c.rows != d || c.cols != d {
            assert(!density_shapes_agree(points, mu_lens@[k as int] as nat, covs@[k as int]));
            return Err(StatError::ShapeMismatch);
        }
        k = k + 1;
    }
    Ok(mu_lens.len())
}

/// A mixture of exactly one component fits a batch of points exactly when
/// that component's mean and covariance fit it on their own.
pub proof fn single_component_shapes(points: MatShape, mu_len: usize, cov: MatShape)
    ensures
        mixture_shapes_agree(points, seq![mu_len], seq![cov], 1)
            == density_shapes_agree(points, mu_len as nat, cov),
{
    if density_shapes_agree(points, mu_len as nat, cov) {
        assert forall|k: int| 0 <= k < 1 implies #[trigger] density_shapes_agree(
            points,
            seq![mu_len][k] as nat,
            seq![cov][k],
        ) by {
            assert(k == 0);
        }
    } else {
        assert(!density_shapes_agree(points, seq![mu_len][0] as nat, seq![cov][0]));
    }
}

/// The mixture fails its shape check exactly when some component, on its
/// own, would fail the density's shape check, or the counts of means,
/// covariances and weights differ.
pub proof fn mixture_mismatch_iff_component_mismatch(
    points: MatShape,
    mu_lens: Seq<usize>,
    covs: Seq<MatShape>,
    n_weights: nat,
)
    requires
        covs.len() == mu_lens.len(),
        n_weights == mu_lens.len(),
    ensures
        !mixture_shapes_agree(points, mu_lens, covs, n_weights) <==> exists|k: int|
            0 <= k < mu_lens.len() && !#[trigger] density_shapes_agree(
                points,
                mu_lens[k] as nat,
                covs[k],
            ),
{
}

} // verus!
