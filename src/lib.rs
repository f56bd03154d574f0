//! Shape validation and error reporting for normal and multivariate-normal
//! densities, samplers and Gaussian mixtures.
pub mod error;
pub mod mixture;
pub mod shape;
pub mod spacing;
