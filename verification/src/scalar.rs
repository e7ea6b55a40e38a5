//! Real numbers as the estimator stores and compares them.
//!
//! A [`Scalar`] is the bit pattern of an IEEE 754 single-precision number.
//! Storing, copying and ordering such numbers is exact integer work and is
//! done here; arithmetic on them is left to the caller, who passes it in as
//! closures (see [`crate::numerics`]).

use vstd::prelude::*;

verus! {

/// The sign bit of an encoding.
pub const SIGN_BIT: u32 = 0x8000_0000;

/// The encoding of positive infinity; every larger magnitude is not a number.
pub const INFINITY_BITS: u32 = 0x7f80_0000;

/// The encoding of the number one.
pub const ONE_BITS: u32 = 0x3f80_0000;

/// A real number, held as its single-precision bit pattern.
///
/// Two scalars are `==` when their encodings are identical. The order of the
/// numbers they stand for is given by [`Scalar::lt`] and [`Scalar::le`].
#[derive(Clone, Copy, Debug, PartialEq, Eq, Structural)]
pub struct Scalar {
    pub bits: u32,
}

impl Scalar {
    /// Whether the sign bit is set.
    pub open spec fn is_negative(self) -> bool {
        self.bits >= SIGN_BIT
    }

    /// The encoding with its sign bit cleared.
    pub open spec fn magnitude(self) -> int {
        if self.bits >= SIGN_BIT {
            self.bits - SIGN_BIT
        } else {
            self.bits as int
        }
    }

    /// Whether the encoding stands for no number at all.
    pub open spec fn is_nan(self) -> bool {
        self.magnitude() > INFINITY_BITS
    }

    /// The place of a number on the number line: for encodings of numbers,
    /// `a` is below `b` exactly when `a.rank() < b.rank()`. Both zeros have
    /// rank zero.
    pub open spec fn rank(self) -> int {
        if self.is_negative() {
            -self.magnitude()
        } else {
            self.magnitude()
        }
    }

    /// The place of an encoding in the total order of all encodings, in
    /// which negative zero comes directly below positive zero.
    pub open spec fn total_rank(self) -> int {
        if self.is_negative() {
            -self.magnitude() - 1
        } else {
            self.magnitude()
        }
    }

    /// `self < other` as numbers; false when either is not a number.
    pub open spec fn spec_lt(self, other: Scalar) -> bool {
        !self.is_nan() && !other.is_nan() && self.rank() < other.rank()
    }

    /// `self <= other` as numbers; false when either is not a number.
    pub open spec fn spec_le(self, other: Scalar) -> bool {
        !self.is_nan() && !other.is_nan() && self.rank() <= other.rank()
    }

    /// The absolute value: the same encoding without its sign.
    pub open spec fn spec_abs(self) -> Scalar {
        Scalar { bits: self.magnitude() as u32 }
    }

    /// The number zero.
    pub open spec fn spec_zero() -> Scalar {
        Scalar { bits: 0 }
    }

    /// The number one.
    pub open spec fn spec_one() -> Scalar {
        Scalar { bits: ONE_BITS }
    }

    /// Wraps an encoding.
    pub fn from_bits(bits: u32) -> (scalar: Scalar)
        ensures
            scalar.bits == bits,
    {
        Scalar { bits }
    }

    /// The encoding.
    pub fn to_bits(self) -> (bits: u32)
        ensures
            bits == self.bits,
    {
        self.bits
    }

    #[verifier::when_used_as_spec(spec_zero)]
    pub fn zero() -> (scalar: Scalar)
        ensures
            scalar == Scalar::spec_zero(),
    {
        Scalar { bits: 0 }
    }

    #[verifier::when_used_as_spec(spec_one)]
    pub fn one() -> (scalar: Scalar)
        ensures
            scalar == Scalar::spec_one(),
    {
        Scalar { bits: ONE_BITS }
    }

    fn magnitude_bits(self) -> (magnitude: u32)
        ensures
            magnitude == self.magnitude(),
            magnitude < SIGN_BIT,
    {
        if self.bits >= SIGN_BIT {
            self.bits - SIGN_BIT
        } else {
            self.bits
        }
    }

    fn rank_value(self) -> (rank: i64)
        ensures
            rank == self.rank(),
    {
        let magnitude: u32 = self.magnitude_bits();
        let magnitude: i64 = magnitude as i64;
        if self.bits >= SIGN_BIT {
            -magnitude
        } else {
            magnitude
        }
    }

    fn total_rank_value(self) -> (rank: i64)
        ensures
            rank == self.total_rank(),
    {
        let magnitude: u32 = self.magnitude_bits();
        let magnitude: i64 = magnitude as i64;
        if self.bits >= SIGN_BIT {
            -magnitude - 1
        } else {
            magnitude
        }
    }

    /// Whether the encoding stands for no number.
    pub fn not_a_number(self) -> (nan: bool)
        ensures
            nan == self.is_nan(),
    {
        self.magnitude_bits() > INFINITY_BITS
    }

    /// `self < other` as numbers.
    #[verifier::when_used_as_spec(spec_lt)]
    pub fn lt(self, other: Scalar) -> (below: bool)
        ensures
            below == self.spec_lt(other),
    {
        !self.not_a_number() && !other.not_a_number() && self.rank_value() < other.rank_value()
    }

    /// `self <= other` as numbers.
    #[verifier::when_used_as_spec(spec_le)]
    pub fn le(self, other: Scalar) -> (at_most: bool)
        ensures
            at_most == self.spec_le(other),
    {
        !self.not_a_number() && !other.not_a_number() && self.rank_value() <= other.rank_value()
    }

    /// Whether `self` comes at or before `other` in the total order of
    /// encodings.
    pub fn total_le(self, other: Scalar) -> (at_most: bool)
        ensures
            at_most == (self.total_rank() <= other.total_rank()),
    {
        self.total_rank_value() <= other.total_rank_value()
    }

    /// The absolute value.
    #[verifier::when_used_as_spec(spec_abs)]
    pub fn abs(self) -> (magnitude: Scalar)
        ensures
            magnitude == self.spec_abs(),
    {
        Scalar { bits: self.magnitude_bits() }
    }
}

/// Among numbers, one of `a < b`, `b < a` and equal rank holds, and only one.
pub proof fn lemma_order_is_total(a: Scalar, b: Scalar)
    requires
        !a.is_nan(),
        !b.is_nan(),
    ensures
        a.lt(b) || b.lt(a) || a.rank() == b.rank(),
        !(a.lt(b) && b.lt(a)),
        a.le(b) <==> !b.lt(a),
{
}

/// The order of numbers is transitive.
pub proof fn lemma_order_is_transitive(a: Scalar, b: Scalar, c: Scalar)
    ensures
        a.le(b) && b.le(c) ==> a.le(c),
        a.lt(b) && b.le(c) ==> a.lt(c),
        a.le(b) && b.lt(c) ==> a.lt(c),
{
}

/// A number lies within a bound that is not negative exactly when it lies
/// between the bound and its negative.
pub proof fn lemma_abs_is_within(a: Scalar, bound: Scalar)
    requires
        Scalar::zero().le(bound),
    ensures
        a.abs().lt(bound) <==> !a.is_nan() && -bound.rank() < a.rank() < bound.rank(),
{
}

} // verus!
