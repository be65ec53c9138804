//! The weighted value that a consideration contributes to a decision.

use vstd::prelude::*;

use crate::scalar::Scalar;
use crate::scalar::ZERO_BITS;

verus! {

/// A value and the weight with which it counts.
#[derive(Debug, Clone, Copy)]
pub struct Utility {
    pub value: Scalar,
    pub weight: Scalar,
}

impl Default for Utility {
    fn default() -> (utility: Self)
        ensures
            utility.value.bits == ZERO_BITS,
            utility.weight.bits == ZERO_BITS,
    {
        Utility { value: Scalar { bits: ZERO_BITS }, weight: Scalar { bits: ZERO_BITS } }
    }
}

} // verus!
