//! Single-precision numbers, held by the bits of their IEEE 754 encoding.
//!
//! The library moves such numbers about, negates them and compares them; it
//! never adds or multiplies them. A caller turns a number into a [`Scalar`]
//! by taking its bits, and back by reading the bits as a number.

use vstd::prelude::*;

verus! {

/// The bit that holds the sign.
pub const SIGN_BIT: u32 = 0x8000_0000;

/// The bits of positive infinity: every greater magnitude is no number.
pub const INFINITY_BITS: u32 = 0x7f80_0000;

/// A single-precision number.
#[derive(Debug, Clone, Copy, PartialEq, Eq, Structural)]
pub struct Scalar {
    pub bits: u32,
}

impl Scalar {
    /// Whether the sign bit is set.
    pub open spec fn is_negative(self) -> bool {
        self.bits >= SIGN_BIT
    }

    /// The bits without the sign.
    pub open spec fn magnitude(self) -> int {
        if self.bits >= SIGN_BIT {
            self.bits - SIGN_BIT
        } else {
            self.bits as int
        }
    }

    /// Whether the bits hold no number.
    pub open spec fn is_nan(self) -> bool {
        self.magnitude() > INFINITY_BITS
    }

    /// Whether the number is one of the two zeros.
    pub open spec fn is_zero(self) -> bool {
        self.magnitude() == 0
    }

    /// An integer that orders the numbers as the numbers are ordered: the
    /// magnitude, negated under a sign. Both zeros have the rank 0.
    pub open spec fn rank(self) -> int {
        if self.is_negative() {
            -self.magnitude()
        } else {
            self.magnitude()
        }
    }

    /// `self < other` as numbers: false where either is no number.
    pub open spec fn lt(self, other: Scalar) -> bool {
        !self.is_nan() && !other.is_nan() && self.rank() < other.rank()
    }

    /// `self <= other` as numbers: false where either is no number.
    pub open spec fn le(self, other: Scalar) -> bool {
        !self.is_nan() && !other.is_nan() && self.rank() <= other.rank()
    }

    /// `self == other` as numbers: false where either is no number, true of
    /// the two zeros.
    pub open spec fn same_number(self, other: Scalar) -> bool {
        !self.is_nan() && !other.is_nan() && self.rank() == other.rank()
    }

    /// `self > 0` as numbers.
    pub open spec fn is_positive(self) -> bool {
        0 < self.bits <= INFINITY_BITS
    }

    /// The number with these bits.
    pub fn from_bits(bits: u32) -> (s: Scalar)
        ensures
            s.bits == bits,
    {
        Scalar { bits }
    }

    /// The bits of the number.
    pub fn to_bits(self) -> (bits: u32)
        ensures
            bits == self.bits,
    {
        self.bits
    }

    /// Positive zero.
    pub fn zero() -> (s: Scalar)
        ensures
            s.bits == 0,
            s.is_zero(),
            !s.is_nan(),
    {
        Scalar { bits: 0 }
    }

    /// Is the sign bit set?
    pub fn sign(self) -> (r: bool)
        ensures
            r == self.is_negative(),
    {
        self.bits >= SIGN_BIT
    }

    /// The bits without the sign.
    pub fn abs_bits(self) -> (m: u32)
        ensures
            m == self.magnitude(),
            m < SIGN_BIT,
    {
        if self.bits >= SIGN_BIT {
            self.bits - SIGN_BIT
        } else {
            self.bits
        }
    }

    /// Do the bits hold no number?
    pub fn not_a_number(self) -> (r: bool)
        ensures
            r == self.is_nan(),
    {
        self.abs_bits() > INFINITY_BITS
    }

    /// Is the number a zero?
    pub fn zero_valued(self) -> (r: bool)
        ensures
            r == self.is_zero(),
    {
        self.abs_bits() == 0
    }

    /// Is the number above zero?
    pub fn positive(self) -> (r: bool)
        ensures
            r == self.is_positive(),
    {
        0 < self.bits && self.bits <= INFINITY_BITS
    }

    /// The rank of the number.
    pub fn order_key(self) -> (k: i64)
        ensures
            k == self.rank(),
    {
        let m: u32 = self.abs_bits();
        let wide: i64 = m as i64;
        if self.bits >= SIGN_BIT {
            -wide
        } else {
            wide
        }
    }

    /// Is `self < other`?
    pub fn less_than(self, other: Scalar) -> (r: bool)
        ensures
            r == self.lt(other),
    {
        !self.not_a_number() && !other.not_a_number() && self.order_key() < other.order_key()
    }

    /// Is `self <= other`?
    pub fn at_most(self, other: Scalar) -> (r: bool)
        ensures
            r == self.le(other),
    {
        !self.not_a_number() && !other.not_a_number() && self.order_key() <= other.order_key()
    }

    /// Is `self == other` as numbers?
    pub fn equals(self, other: Scalar) -> (r: bool)
        ensures
            r == self.same_number(other),
    {
        !self.not_a_number() && !other.not_a_number() && self.order_key() == other.order_key()
    }

    /// The number with the opposite sign.
    pub open spec fn negated(self) -> Scalar {
        if self.bits >= SIGN_BIT {
            Scalar { bits: (self.bits - SIGN_BIT) as u32 }
        } else {
            Scalar { bits: (self.bits + SIGN_BIT) as u32 }
        }
    }

    /// Flips the sign.
    pub fn neg(self) -> (s: Scalar)
        ensures
            s == self.negated(),
            s.magnitude() == self.magnitude(),
            s.is_negative() != self.is_negative(),
            s.rank() == -self.rank(),
    {
        if self.bits >= SIGN_BIT {
            Scalar { bits: self.bits - SIGN_BIT }
        } else {
            Scalar { bits: self.bits + SIGN_BIT }
        }
    }

    /// The lesser of two numbers; where one is no number, the other.
    pub open spec fn min_of(self, other: Scalar) -> Scalar {
        if self.is_nan() {
            other
        } else if other.is_nan() {
            self
        } else if other.rank() < self.rank() {
            other
        } else {
            self
        }
    }

    /// The greater of two numbers; where one is no number, the other.
    pub open spec fn max_of(self, other: Scalar) -> Scalar {
        if self.is_nan() {
            other
        } else if other.is_nan() {
            self
        } else if other.rank() > self.rank() {
            other
        } else {
            self
        }
    }

    /// The lesser of two numbers; where one is no number, the other.
    pub fn min(self, other: Scalar) -> (m: Scalar)
        ensures
            m == self.min_of(other),
    {
        if self.not_a_number() {
            other
        } else if other.not_a_number() {
            self
        } else if other.order_key() < self.order_key() {
            other
        } else {
            self
        }
    }

    /// The greater of two numbers; where one is no number, the other.
    pub fn max(self, other: Scalar) -> (m: Scalar)
        ensures
            m == self.max_of(other),
    {
        if self.not_a_number() {
            other
        } else if other.not_a_number() {
            self
        } else if other.order_key() > self.order_key() {
            other
        } else {
            self
        }
    }
}

} // verus!
