//! Polynomial curve fitting: the parts of the pipeline whose shape and decisions
//! do not depend on the scalar type (splitting, validation, feature expansion and
//! polynomial evaluation), each proved against its contract.

pub mod error;
pub mod features;
pub mod fit;
pub mod metrics;
pub mod predict;
pub mod split;
