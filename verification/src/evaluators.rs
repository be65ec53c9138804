//! Range limiting for values that are only partially ordered, and the
//! contract of the curves that reshape a score.

use core::cmp::Ordering;
use vstd::prelude::*;
use vstd::std_specs::cmp::PartialOrdSpec;

use crate::scalar::Scalar;

verus! {

/// What `clamp` returns: `max` when `val` is above it, otherwise `min` when
/// the value kept so far is below it, otherwise `val` itself. A value that is
/// unordered with both limits passes through unchanged.
pub open spec fn clamp_spec<T: PartialOrd>(val: T, min: T, max: T) -> T {
    let capped = if val.partial_cmp_spec(&max) == Some(Ordering::Greater) {
        max
    } else {
        val
    };
    if capped.partial_cmp_spec(&min) == Some(Ordering::Less) {
        min
    } else {
        capped
    }
}

/// Limits `val` to the range from `min` to `max`.
pub fn clamp<T: PartialOrd>(val: T, min: T, max: T) -> (r: T)
    ensures
        T::obeys_partial_cmp_spec() ==> r == clamp_spec(val, min, max),
{
    let val = if val > max {
        max
    } else {
        val
    };
    if val < min {
        min
    } else {
        val
    }
}

/// A number limited to the range from zero to one is in that range, unless
/// it is NaN, which stays NaN.
pub proof fn lemma_clamp_unit(val: Scalar)
    ensures
        ({
            let r = clamp_spec(val, Scalar { bits: crate::scalar::ZERO_BITS }, Scalar { bits: crate::scalar::ONE_BITS });
            &&& !val.is_nan() ==> r.in_unit_range()
            &&& val.in_unit_range() ==> r == val
            &&& val.is_nan() ==> r == val
            &&& val.gt(Scalar { bits: crate::scalar::ONE_BITS }) ==> r.bits == crate::scalar::ONE_BITS
            &&& val.lt(Scalar { bits: crate::scalar::ZERO_BITS }) ==> r.bits == crate::scalar::ZERO_BITS
        }),
{
}

/// A curve that reshapes a score. Implementations map any input to an
/// output; the engine limits the output to the unit range afterwards.
pub trait Evaluator {
    fn evaluate(&self, value: Scalar) -> Scalar;
}

} // verus!
