//! IEEE 754 binary64 values, held by their bit pattern.
//!
//! Ordering, absolute value and clamping are decided on the bit pattern
//! alone: a value that is not a NaN is ordered like the signed integer whose
//! sign and magnitude are the sign bit and the remaining 63 bits.

use vstd::prelude::*;

verus! {

/// The sign bit of a binary64 bit pattern.
pub const SIGN_BIT: u64 = 0x8000_0000_0000_0000;

/// The bit pattern of positive infinity. A larger magnitude encodes a NaN.
pub const INFINITY_BITS: u64 = 0x7FF0_0000_0000_0000;

/// The bit pattern of one.
pub const ONE_BITS: u64 = 0x3FF0_0000_0000_0000;

/// The bit pattern of 1e-10, below which a magnitude counts as zero.
pub const TOLERANCE_BITS: u64 = 0x3DDB_7CDF_D9D7_BDBB;

/// A binary64 value, identified with its 64-bit encoding.
#[derive(Clone, Copy, Debug)]
pub struct Binary64 {
    pub bits: u64,
}

impl Binary64 {
    /// Positive zero.
    pub open spec fn spec_zero() -> Binary64 {
        Binary64 { bits: 0 }
    }

    /// One.
    pub open spec fn spec_one() -> Binary64 {
        Binary64 { bits: ONE_BITS }
    }

    /// The threshold 1e-10.
    pub open spec fn spec_tolerance() -> Binary64 {
        Binary64 { bits: TOLERANCE_BITS }
    }

    /// Whether the sign bit is set.
    pub open spec fn is_negative(self) -> bool {
        self.bits >= SIGN_BIT
    }

    /// The encoding without its sign bit.
    pub open spec fn magnitude(self) -> int {
        if self.is_negative() {
            self.bits - SIGN_BIT
        } else {
            self.bits as int
        }
    }

    /// Whether the encoding is a NaN.
    pub open spec fn spec_is_nan(self) -> bool {
        self.magnitude() > INFINITY_BITS
    }

    /// The position of a value in the order of the binary64 values: the
    /// signed magnitude. Both zeros have rank 0.
    pub open spec fn rank(self) -> int {
        if self.is_negative() {
            -self.magnitude()
        } else {
            self.magnitude()
        }
    }

    /// `self < other`. False when either side is a NaN.
    pub open spec fn spec_lt(self, other: Binary64) -> bool {
        !self.spec_is_nan() && !other.spec_is_nan() && self.rank() < other.rank()
    }

    /// `self <= other`. False when either side is a NaN.
    pub open spec fn spec_le(self, other: Binary64) -> bool {
        !self.spec_is_nan() && !other.spec_is_nan() && self.rank() <= other.rank()
    }

    /// `self > other`. False when either side is a NaN.
    pub open spec fn spec_gt(self, other: Binary64) -> bool {
        other.spec_lt(self)
    }

    /// `self >= other`. False when either side is a NaN.
    pub open spec fn spec_ge(self, other: Binary64) -> bool {
        other.spec_le(self)
    }

    /// The value with its sign bit cleared.
    pub open spec fn spec_abs(self) -> Binary64 {
        Binary64 { bits: self.magnitude() as u64 }
    }

    /// Whether the magnitude is below 1e-10. A NaN is not negligible.
    pub open spec fn spec_is_negligible(self) -> bool {
        self.spec_abs().spec_lt(Self::spec_tolerance())
    }

    /// The value brought into the unit interval: one for a value of at
    /// least one, the value itself where it lies strictly between zero and
    /// one, and positive zero for everything else, a NaN included.
    pub open spec fn spec_clamp_unit(self) -> Binary64 {
        if self.spec_ge(Self::spec_one()) {
            Self::spec_one()
        } else if self.spec_gt(Self::spec_zero()) {
            self
        } else {
            Self::spec_zero()
        }
    }

    /// Whether the value is not a NaN and lies between zero and one.
    pub open spec fn in_unit_interval(self) -> bool {
        Self::spec_zero().spec_le(self) && self.spec_le(Self::spec_one())
    }

    #[verifier::when_used_as_spec(spec_zero)]
    pub fn zero() -> (r: Binary64)
        ensures
            r == Self::spec_zero(),
    {
        Binary64 { bits: 0 }
    }

    #[verifier::when_used_as_spec(spec_one)]
    pub fn one() -> (r: Binary64)
        ensures
            r == Self::spec_one(),
    {
        Binary64 { bits: ONE_BITS }
    }

    #[verifier::when_used_as_spec(spec_tolerance)]
    pub fn tolerance() -> (r: Binary64)
        ensures
            r == Self::spec_tolerance(),
    {
        Binary64 { bits: TOLERANCE_BITS }
    }

    /// The value with the given encoding.
    pub fn from_bits(bits: u64) -> (r: Binary64)
        ensures
            r.bits == bits,
    {
        Binary64 { bits }
    }

    /// The encoding of the value.
    pub fn to_bits(self) -> (bits: u64)
        ensures
            bits == self.bits,
    {
        self.bits
    }

    #[verifier::when_used_as_spec(spec_is_nan)]
    pub fn is_nan(self) -> (r: bool)
        ensures
            r == self.spec_is_nan(),
    {
        if self.bits >= SIGN_BIT {
            self.bits - SIGN_BIT > INFINITY_BITS
        } else {
            self.bits > INFINITY_BITS
        }
    }

    fn rank_of(self) -> (r: i64)
        ensures
            r == self.rank(),
    {
        if self.bits >= SIGN_BIT {
            let magnitude: u64 = self.bits - SIGN_BIT;
            -(magnitude as i64)
        } else {
            self.bits as i64
        }
    }

    #[verifier::when_used_as_spec(spec_lt)]
    pub fn lt(self, other: Binary64) -> (r: bool)
        ensures
            r == self.spec_lt(other),
    {
        !self.is_nan() && !other.is_nan() && self.rank_of() < other.rank_of()
    }

    #[verifier::when_used_as_spec(spec_le)]
    pub fn le(self, other: Binary64) -> (r: bool)
        ensures
            r == self.spec_le(other),
    {
        !self.is_nan() && !other.is_nan() && self.rank_of() <= other.rank_of()
    }

    #[verifier::when_used_as_spec(spec_gt)]
    pub fn gt(self, other: Binary64) -> (r: bool)
        ensures
            r == self.spec_gt(other),
    {
        other.lt(self)
    }

    #[verifier::when_used_as_spec(spec_ge)]
    pub fn ge(self, other: Binary64) -> (r: bool)
        ensures
            r == self.spec_ge(other),
    {
        other.le(self)
    }

    #[verifier::when_used_as_spec(spec_abs)]
    pub fn abs(self) -> (r: Binary64)
        ensures
            r == self.spec_abs(),
    {
        if self.bits >= SIGN_BIT {
            Binary64 { bits: self.bits - SIGN_BIT }
        } else {
            self
        }
    }

    #[verifier::when_used_as_spec(spec_is_negligible)]
    pub fn is_negligible(self) -> (r: bool)
        ensures
            r == self.spec_is_negligible(),
    {
        self.abs().lt(Self::tolerance())
    }

    #[verifier::when_used_as_spec(spec_clamp_unit)]
    pub fn clamp_unit(self) -> (r: Binary64)
        ensures
            r == self.spec_clamp_unit(),
    {
        if self.ge(Self::one()) {
            Self::one()
        } else if self.gt(Self::zero()) {
            self
        } else {
            Self::zero()
        }
    }
}

/// Two values that are not NaNs are always comparable: one is below the
/// other, or it is at least the other.
pub proof fn lemma_order_total(a: Binary64, b: Binary64)
    requires
        !a.spec_is_nan(),
        !b.spec_is_nan(),
    ensures
        a.spec_lt(b) <==> !a.spec_ge(b),
        a.spec_le(b) <==> !a.spec_gt(b),
{
}

/// The order is transitive.
pub proof fn lemma_order_transitive(a: Binary64, b: Binary64, c: Binary64)
    ensures
        a.spec_le(b) && b.spec_le(c) ==> a.spec_le(c),
        a.spec_lt(b) && b.spec_le(c) ==> a.spec_lt(c),
        a.spec_le(b) && b.spec_lt(c) ==> a.spec_lt(c),
{
}

/// A clamped value lies in the unit interval, and a value that lies
/// strictly inside it is left as it is.
pub proof fn lemma_clamp_unit_range(u: Binary64)
    ensures
        u.spec_clamp_unit().in_unit_interval(),
        u.spec_gt(Binary64::spec_zero()) && u.spec_lt(Binary64::spec_one())
            ==> u.spec_clamp_unit() == u,
{
}

/// Clamping twice is clamping once.
pub proof fn lemma_clamp_unit_idempotent(u: Binary64)
    ensures
        u.spec_clamp_unit().spec_clamp_unit() == u.spec_clamp_unit(),
{
}

} // verus!
