use vstd::prelude::*;

verus! {

/// The ways a fit, a split or an evaluation can be refused.
#[derive(Debug, Clone, Copy, PartialEq, Eq, Structural)]
pub enum FitError {
    /// The test ratio lies outside `[0, 1]`.
    InvalidRatio,
    /// The sample sequences are empty.
    EmptyDataset,
    /// Two sequences that must be paired differ in length.
    LengthMismatch,
    /// Fewer training rows than `degree + 1`.
    InsufficientSamples,
    /// The Gram matrix is not numerically positive definite.
    SingularSystem,
}

} // verus!
