//! Single-precision IEEE 754 numbers, seen through their encodings.

use vstd::prelude::*;

verus! {

/// The encoding's sign bit.
pub const SIGN_BIT: u32 = 0x8000_0000;

/// The encoding of positive infinity: every exponent bit set, no fraction bit.
pub const INFINITY_BITS: u32 = 0x7f80_0000;

/// The encoding of the quiet NaN with a clear sign bit and an otherwise empty
/// fraction.
pub const QUIET_NAN_BITS: u32 = 0x7fc0_0000;

/// A single-precision IEEE 754 number, held by its 32-bit encoding.
///
/// Two values are `==` when their encodings are the same, which is finer than
/// numeric equality: the two zeros differ, and a NaN equals itself.
#[derive(Clone, Copy, Debug, PartialEq, Eq, Structural)]
pub struct Binary32 {
    pub bits: u32,
}

impl Binary32 {
    /// The encoding without its sign bit.
    pub open spec fn magnitude(self) -> int {
        if self.bits >= SIGN_BIT {
            self.bits - SIGN_BIT
        } else {
            self.bits as int
        }
    }

    /// Whether the sign bit is set. This holds of `-0.0` and may hold of a NaN.
    pub open spec fn spec_is_sign_negative(self) -> bool {
        self.bits >= SIGN_BIT
    }

    /// Whether the encoding is one of a NaN: all exponent bits set and a
    /// fraction that is not empty.
    pub open spec fn spec_is_nan(self) -> bool {
        self.magnitude() > INFINITY_BITS
    }

    /// Whether the number is `0.0` or `-0.0`.
    pub open spec fn spec_is_zero(self) -> bool {
        self.magnitude() == 0
    }

    /// The number with its sign bit cleared: the absolute value of a number,
    /// and a NaN of the same fraction for a NaN.
    pub open spec fn spec_abs(self) -> Binary32 {
        Binary32 { bits: self.magnitude() as u32 }
    }

    /// The number with its sign bit flipped: the negation `-self`.
    pub open spec fn negated(self) -> Binary32 {
        if self.bits >= SIGN_BIT {
            Binary32 { bits: (self.bits - SIGN_BIT) as u32 }
        } else {
            Binary32 { bits: (self.bits + SIGN_BIT) as u32 }
        }
    }

    /// An integer that orders the numbers as their values do: for `a` and `b`
    /// that are not NaN, `a < b` exactly when `a.rank() < b.rank()`, and the
    /// two zeros share rank 0. Of a NaN the rank says nothing.
    pub open spec fn rank(self) -> int {
        if self.spec_is_sign_negative() {
            -self.magnitude()
        } else {
            self.magnitude()
        }
    }

    /// The comparison `self > other` of IEEE 754: false when either side is a
    /// NaN, and otherwise the order of the two values.
    pub open spec fn spec_gt(self, other: Binary32) -> bool {
        !self.spec_is_nan() && !other.spec_is_nan() && self.rank() > other.rank()
    }

    /// The number with the given encoding.
    pub fn from_bits(bits: u32) -> (r: Binary32)
        ensures
            r.bits == bits,
    {
        Binary32 { bits }
    }

    /// The number's encoding.
    pub fn to_bits(self) -> (bits: u32)
        ensures
            bits == self.bits,
    {
        self.bits
    }

    /// Positive zero, whose encoding has no bit set.
    pub fn zero() -> (r: Binary32)
        ensures
            r.bits == 0,
            r.spec_is_zero(),
            !r.spec_is_sign_negative(),
    {
        Binary32 { bits: 0 }
    }

    /// The quiet NaN encoded by [`QUIET_NAN_BITS`].
    pub fn quiet_nan() -> (r: Binary32)
        ensures
            r.bits == QUIET_NAN_BITS,
            r.spec_is_nan(),
    {
        Binary32 { bits: QUIET_NAN_BITS }
    }

    /// Whether the sign bit is set.
    #[verifier::when_used_as_spec(spec_is_sign_negative)]
    pub fn is_sign_negative(self) -> (r: bool)
        ensures
            r == self.spec_is_sign_negative(),
    {
        self.bits >= SIGN_BIT
    }

    /// Whether the number is a NaN.
    #[verifier::when_used_as_spec(spec_is_nan)]
    pub fn is_nan(self) -> (r: bool)
        ensures
            r == self.spec_is_nan(),
    {
        self.unsigned_bits() > INFINITY_BITS
    }

    /// Whether the number is a zero, of either sign.
    #[verifier::when_used_as_spec(spec_is_zero)]
    pub fn is_zero(self) -> (r: bool)
        ensures
            r == self.spec_is_zero(),
    {
        self.unsigned_bits() == 0
    }

    /// The absolute value, which IEEE 754 defines on encodings: the sign bit
    /// is cleared and every other bit is kept.
    #[verifier::when_used_as_spec(spec_abs)]
    pub fn abs(self) -> (r: Binary32)
        ensures
            r == self.spec_abs(),
            !r.is_sign_negative(),
            r.magnitude() == self.magnitude(),
    {
        Binary32 { bits: self.unsigned_bits() }
    }

    /// `self > other`, as IEEE 754 compares: a NaN on either side gives
    /// `false`, and `0.0` is not greater than `-0.0`.
    #[verifier::when_used_as_spec(spec_gt)]
    pub fn gt(self, other: Binary32) -> (r: bool)
        ensures
            r == self.spec_gt(other),
    {
        if self.is_nan() || other.is_nan() {
            false
        } else {
            self.signed_rank() > other.signed_rank()
        }
    }

    fn unsigned_bits(self) -> (m: u32)
        ensures
            m == self.magnitude(),
            m < SIGN_BIT,
    {
        if self.bits >= SIGN_BIT {
            self.bits - SIGN_BIT
        } else {
            self.bits
        }
    }

    fn signed_rank(self) -> (k: i64)
        ensures
            k == self.rank(),
    {
        let m: i64 = self.unsigned_bits() as i64;
        if self.bits >= SIGN_BIT {
            -m
        } else {
            m
        }
    }
}

} // verus!
