//! Single-precision numbers held by their bit patterns.
//!
//! Scores, thresholds and weights are IEEE-754 binary32 numbers. The engine
//! only ever orders them, so it keeps each one as the 32 bits that encode it
//! and compares those bits the way the hardware compares the numbers: a NaN
//! is unordered with everything, the two zeros are equal, and otherwise the
//! sign and magnitude decide.

use core::cmp::Ordering;
use vstd::prelude::*;
use vstd::std_specs::cmp::PartialEqSpecImpl;
use vstd::std_specs::cmp::PartialOrdSpecImpl;

verus! {

/// Bit pattern of positive zero.
pub const ZERO_BITS: u32 = 0;

/// Bit pattern of one.
pub const ONE_BITS: u32 = 0x3f80_0000;

/// Bit pattern of positive infinity; every larger magnitude encodes a NaN.
pub const INFINITY_BITS: u32 = 0x7f80_0000;

/// The sign bit.
pub const SIGN_BIT: u32 = 0x8000_0000;

/// A binary32 number, stored as its bit pattern.
#[derive(Debug, Clone, Copy)]
pub struct Scalar {
    pub bits: u32,
}

impl Scalar {
    /// The bits with the sign cleared.
    pub open spec fn magnitude(self) -> int {
        if self.bits >= SIGN_BIT {
            self.bits - SIGN_BIT
        } else {
            self.bits as int
        }
    }

    /// True for the encodings that are not a number.
    pub open spec fn is_nan(self) -> bool {
        self.magnitude() > INFINITY_BITS
    }

    /// An integer that orders the numbers as their values do: the magnitude
    /// for a positive number, its negation for a negative one. Both zeros map
    /// to zero. Meaningful only for numbers that are not NaN.
    pub open spec fn key(self) -> int {
        if self.bits >= SIGN_BIT {
            -self.magnitude()
        } else {
            self.magnitude()
        }
    }

    /// Numeric `<`: false whenever either side is NaN.
    pub open spec fn lt(self, other: Scalar) -> bool {
        !self.is_nan() && !other.is_nan() && self.key() < other.key()
    }

    /// Numeric `<=`: false whenever either side is NaN.
    pub open spec fn le(self, other: Scalar) -> bool {
        !self.is_nan() && !other.is_nan() && self.key() <= other.key()
    }

    /// Numeric `>`: false whenever either side is NaN.
    pub open spec fn gt(self, other: Scalar) -> bool {
        other.lt(self)
    }

    /// Numeric `>=`: false whenever either side is NaN.
    pub open spec fn ge(self, other: Scalar) -> bool {
        other.le(self)
    }

    /// Numeric equality: NaN equals nothing, and the two zeros are equal.
    pub open spec fn same_number(self, other: Scalar) -> bool {
        !self.is_nan() && !other.is_nan() && self.key() == other.key()
    }

    /// True when the number lies between zero and one, both included.
    pub open spec fn in_unit_range(self) -> bool {
        !self.is_nan() && 0 <= self.key() <= ONE_BITS
    }

    /// Wraps a bit pattern.
    pub fn from_bits(bits: u32) -> (s: Self)
        ensures
            s.bits == bits,
    {
        Scalar { bits }
    }

    /// The bit pattern.
    pub fn to_bits(&self) -> (bits: u32)
        ensures
            bits == self.bits,
    {
        self.bits
    }

    /// Positive zero.
    pub fn zero() -> (s: Self)
        ensures
            s.bits == ZERO_BITS,
            s.key() == 0,
            !s.is_nan(),
    {
        Scalar { bits: ZERO_BITS }
    }

    /// One.
    pub fn one() -> (s: Self)
        ensures
            s.bits == ONE_BITS,
            s.key() == ONE_BITS,
            !s.is_nan(),
    {
        Scalar { bits: ONE_BITS }
    }

    /// Tells whether the bits encode a NaN.
    pub fn check_nan(&self) -> (nan: bool)
        ensures
            nan == self.is_nan(),
    {
        if self.bits >= SIGN_BIT {
            self.bits - SIGN_BIT > INFINITY_BITS
        } else {
            self.bits > INFINITY_BITS
        }
    }

    /// Computes `key` as a machine integer.
    pub fn ordering_key(&self) -> (k: i64)
        ensures
            k == self.key(),
    {
        if self.bits >= SIGN_BIT {
            let m: u32 = self.bits - SIGN_BIT;
            0 - (m as i64)
        } else {
            self.bits as i64
        }
    }

    /// Tells whether the number lies between zero and one, both included.
    pub fn check_unit_range(&self) -> (inside: bool)
        ensures
            inside == self.in_unit_range(),
    {
        self.bits <= ONE_BITS || self.bits == SIGN_BIT
    }
}

impl PartialEq for Scalar {
    fn eq(&self, other: &Scalar) -> (equal: bool) {
        !self.check_nan() && !other.check_nan() && self.ordering_key() == other.ordering_key()
    }
}

impl PartialEqSpecImpl for Scalar {
    open spec fn obeys_eq_spec() -> bool {
        true
    }

    open spec fn eq_spec(&self, other: &Scalar) -> bool {
        self.same_number(*other)
    }
}

impl PartialOrd for Scalar {
    fn partial_cmp(&self, other: &Scalar) -> (order: Option<Ordering>) {
        if self.check_nan() || other.check_nan() {
            None
        } else {
            let a: i64 = self.ordering_key();
            let b: i64 = other.ordering_key();
            if a < b {
                Some(Ordering::Less)
            } else if a == b {
                Some(Ordering::Equal)
            } else {
                Some(Ordering::Greater)
            }
        }
    }
}

impl PartialOrdSpecImpl for Scalar {
    open spec fn obeys_partial_cmp_spec() -> bool {
        true
    }

    open spec fn partial_cmp_spec(&self, other: &Scalar) -> Option<Ordering> {
        if self.is_nan() || other.is_nan() {
            None
        } else if self.key() < other.key() {
            Some(Ordering::Less)
        } else if self.key() == other.key() {
            Some(Ordering::Equal)
        } else {
            Some(Ordering::Greater)
        }
    }
}

} // verus!
