//! Measures combine the weighted scores of several scorers into one number.

use vstd::prelude::*;

use crate::scalar::Scalar;
use crate::scorers::Score;

verus! {

/// A way to combine scores. Each input pairs a score with its weight.
pub trait Measure {
    /// Calculates a score from the child scores.
    fn calculate(&self, inputs: &Vec<(Score, Scalar)>) -> Scalar;
}

} // verus!
