//! Single-precision numbers as bit patterns.
//!
//! Every number that the tracer reads is an IEEE 754 binary32 value. The
//! library never does arithmetic on such a number: sums, products, quotients
//! and roots are the caller's. What the library does is decide, and every
//! decision is a comparison, a change of sign or a truncation. Each of these
//! is a function of the 32 bits alone, so a number is held here as those bits
//! and the decisions are exact for every pattern, not-a-number included.
//!
//! Layout of a pattern, from the top bit down: one sign bit, eight exponent
//! bits, twenty-three fraction bits.
use vstd::prelude::*;
use vstd::arithmetic::power2::pow2;
use vstd::std_specs::cmp::PartialEqSpecImpl;

verus! {

/// The sign bit of a pattern.
pub const SIGN_BIT: u32 = 0x8000_0000;

/// The magnitude of both infinities; any greater magnitude is not a number.
pub const INFINITY_BITS: u32 = 0x7f80_0000;

/// The weight of the lowest exponent bit, which is also the significand's
/// implicit leading bit.
pub const HIDDEN_BIT: u32 = 0x0080_0000;

/// Pattern of 0.0.
pub const ZERO_BITS: u32 = 0;

/// Pattern of 1.0.
pub const ONE_BITS: u32 = 0x3f80_0000;

/// A binary32 number, given by its bit pattern.
#[derive(Clone, Copy, Debug)]
pub struct Scalar {
    pub bits: u32,
}

impl Scalar {
    /// Whether the sign bit is set.
    pub open spec fn negative(self) -> bool {
        self.bits >= SIGN_BIT
    }

    /// The pattern without its sign bit.
    pub open spec fn magnitude(self) -> int {
        if self.bits >= SIGN_BIT {
            self.bits - SIGN_BIT
        } else {
            self.bits as int
        }
    }

    /// Whether the pattern is not a number.
    pub open spec fn nan(self) -> bool {
        self.magnitude() > INFINITY_BITS
    }

    /// Position of a number on the number line: for patterns that are
    /// numbers, `a` is less than `b` exactly when `a.rank() < b.rank()`.
    /// Both zeros have rank 0.
    pub open spec fn rank(self) -> int {
        if self.negative() {
            -self.magnitude()
        } else {
            self.magnitude()
        }
    }

    /// `self < other` as IEEE 754 defines it: false whenever either side is
    /// not a number.
    pub open spec fn less(self, other: Scalar) -> bool {
        !self.nan() && !other.nan() && self.rank() < other.rank()
    }

    /// `self <= other` as IEEE 754 defines it.
    pub open spec fn at_most(self, other: Scalar) -> bool {
        !self.nan() && !other.nan() && self.rank() <= other.rank()
    }

    /// `self == other` as IEEE 754 defines it: the zeros are equal, and
    /// nothing equals a pattern that is not a number.
    pub open spec fn same(self, other: Scalar) -> bool {
        !self.nan() && !other.nan() && self.rank() == other.rank()
    }

    /// The pattern with its sign bit flipped.
    pub open spec fn negated(self) -> Scalar {
        if self.bits >= SIGN_BIT {
            Scalar { bits: (self.bits - SIGN_BIT) as u32 }
        } else {
            Scalar { bits: (self.bits + SIGN_BIT) as u32 }
        }
    }

    /// The pattern with its sign bit cleared.
    pub open spec fn absolute(self) -> Scalar {
        Scalar { bits: self.magnitude() as u32 }
    }

    /// The biased exponent field.
    pub open spec fn exponent(self) -> int {
        self.magnitude() / (HIDDEN_BIT as int)
    }

    /// The fraction field.
    pub open spec fn fraction(self) -> int {
        self.magnitude() % (HIDDEN_BIT as int)
    }

    /// The integer `m` of a finite pattern's value `±m · 2^(scale − 150)`.
    pub open spec fn significand(self) -> int {
        if self.exponent() == 0 {
            self.fraction()
        } else {
            self.fraction() + HIDDEN_BIT
        }
    }

    /// The integer `scale` of a finite pattern's value `±m · 2^(scale − 150)`.
    pub open spec fn scale(self) -> int {
        if self.exponent() == 0 {
            1
        } else {
            self.exponent()
        }
    }

    /// `⌊|v| · 2^k⌋` for the value `v` of a finite pattern.
    pub open spec fn floor_shifted(self, k: int) -> int {
        let e = self.scale() - 150 + k;
        if e >= 0 {
            self.significand() * pow2(e as nat)
        } else {
            self.significand() / (pow2((-e) as nat) as int)
        }
    }

    pub fn from_bits(bits: u32) -> (r: Scalar)
        ensures
            r.bits == bits,
    {
        Scalar { bits }
    }

    pub fn to_bits(self) -> (r: u32)
        ensures
            r == self.bits,
    {
        self.bits
    }

    /// 0.0
    pub open spec fn spec_zero() -> Scalar {
        Scalar { bits: ZERO_BITS }
    }

    /// 1.0
    pub open spec fn spec_one() -> Scalar {
        Scalar { bits: ONE_BITS }
    }

    /// Positive infinity.
    pub open spec fn spec_infinity() -> Scalar {
        Scalar { bits: INFINITY_BITS }
    }

    /// 0.0
    #[verifier::when_used_as_spec(spec_zero)]
    pub fn zero() -> (r: Scalar)
        ensures
            r.bits == ZERO_BITS,
    {
        Scalar { bits: ZERO_BITS }
    }

    /// 1.0
    #[verifier::when_used_as_spec(spec_one)]
    pub fn one() -> (r: Scalar)
        ensures
            r.bits == ONE_BITS,
    {
        Scalar { bits: ONE_BITS }
    }

    /// Positive infinity.
    #[verifier::when_used_as_spec(spec_infinity)]
    pub fn infinity() -> (r: Scalar)
        ensures
            r.bits == INFINITY_BITS,
    {
        Scalar { bits: INFINITY_BITS }
    }

    fn magnitude_bits(self) -> (r: u32)
        ensures
            r == self.magnitude(),
            r < SIGN_BIT,
    {
        if self.bits >= SIGN_BIT {
            self.bits - SIGN_BIT
        } else {
            self.bits
        }
    }

    fn rank_value(self) -> (r: i64)
        ensures
            r == self.rank(),
    {
        let m: i64 = self.magnitude_bits() as i64;
        if self.bits >= SIGN_BIT {
            -m
        } else {
            m
        }
    }

    pub fn is_nan(self) -> (r: bool)
        ensures
            r == self.nan(),
    {
        self.magnitude_bits() > INFINITY_BITS
    }

    /// `self < other`
    pub fn lt(self, other: Scalar) -> (r: bool)
        ensures
            r == self.less(other),
    {
        !self.is_nan() && !other.is_nan() && self.rank_value() < other.rank_value()
    }

    /// `self > other`
    pub fn gt(self, other: Scalar) -> (r: bool)
        ensures
            r == other.less(self),
    {
        other.lt(self)
    }

    /// `self <= other`
    pub fn le(self, other: Scalar) -> (r: bool)
        ensures
            r == self.at_most(other),
    {
        !self.is_nan() && !other.is_nan() && self.rank_value() <= other.rank_value()
    }

    /// `-self`: the same magnitude under the other sign, for every pattern.
    pub fn neg(self) -> (r: Scalar)
        ensures
            r == self.negated(),
            r.magnitude() == self.magnitude(),
            r.negative() != self.negative(),
    {
        if self.bits >= SIGN_BIT {
            Scalar { bits: self.bits - SIGN_BIT }
        } else {
            Scalar { bits: self.bits + SIGN_BIT }
        }
    }

    /// `|self|`: the same magnitude with the sign bit cleared.
    pub fn abs(self) -> (r: Scalar)
        ensures
            r == self.absolute(),
            r.magnitude() == self.magnitude(),
            !r.negative(),
    {
        Scalar { bits: self.magnitude_bits() }
    }
}

/// `==` on numbers is equality of value, not of pattern: the two zeros are
/// equal, and a pattern that is not a number equals nothing, itself included.
impl PartialEq for Scalar {
    fn eq(&self, other: &Scalar) -> (r: bool) {
        !self.is_nan() && !other.is_nan() && self.rank_value() == other.rank_value()
    }
}

impl PartialEqSpecImpl for Scalar {
    open spec fn obeys_eq_spec() -> bool {
        true
    }

    open spec fn eq_spec(&self, other: &Scalar) -> bool {
        self.same(*other)
    }
}

} // verus!
