use vstd::prelude::*;

verus! {

/// Bit pattern of the sign bit of an IEEE-754 binary64 value.
pub const SIGN_BIT: u64 = 0x8000_0000_0000_0000;

/// Bit pattern of positive infinity; every magnitude above it is a NaN.
pub const INFINITY_BITS: u64 = 0x7FF0_0000_0000_0000;

/// An IEEE-754 binary64 value, carried by its exact bit pattern.
///
/// The library decides on the order of such values (finiteness, sign,
/// comparisons, saturation); the arithmetic that produces them happens
/// outside it.  Every bit pattern is a valid value, so the type has no
/// invariant.
#[derive(Clone, Copy, Debug)]
pub struct Scalar {
    pub bits: u64,
}

impl Scalar {
    /// The sign bit is set (negative numbers, `-0.0`, negative infinity and
    /// NaNs with the sign bit).
    pub open spec fn sign_set(self) -> bool {
        self.bits >= SIGN_BIT
    }

    /// The bit pattern without its sign bit.
    pub open spec fn magnitude(self) -> int {
        if self.sign_set() {
            self.bits - SIGN_BIT
        } else {
            self.bits as int
        }
    }

    /// Not a number: all exponent bits set and a non-zero fraction.
    pub open spec fn nan(self) -> bool {
        self.magnitude() > INFINITY_BITS
    }

    /// Neither infinite nor NaN.
    pub open spec fn finite(self) -> bool {
        self.magnitude() < INFINITY_BITS
    }

    /// An integer that orders all non-NaN values as the reals they stand
    /// for: the magnitude of binary64 values grows with their bit pattern,
    /// and `+0.0` and `-0.0` both get `0`.
    pub open spec fn order_key(self) -> int {
        if self.sign_set() {
            -self.magnitude()
        } else {
            self.magnitude()
        }
    }

    /// IEEE-754 `self < other`: false whenever either side is NaN.
    pub open spec fn less_than(self, other: Scalar) -> bool {
        !self.nan() && !other.nan() && self.order_key() < other.order_key()
    }

    /// IEEE-754 `self <= other`: false whenever either side is NaN.
    pub open spec fn at_most(self, other: Scalar) -> bool {
        !self.nan() && !other.nan() && self.order_key() <= other.order_key()
    }

    /// IEEE-754 `self > other`.
    pub open spec fn greater_than(self, other: Scalar) -> bool {
        other.less_than(self)
    }

    /// IEEE-754 `self >= other`.
    pub open spec fn at_least(self, other: Scalar) -> bool {
        other.at_most(self)
    }

    /// IEEE-754 `self == other`: both are numbers and stand for the same
    /// real (so `+0.0` equals `-0.0`, and NaN equals nothing).
    pub open spec fn same_value(self, other: Scalar) -> bool {
        !self.nan() && !other.nan() && self.order_key() == other.order_key()
    }

    /// IEEE-754 negation: the sign bit flipped.
    pub open spec fn negated(self) -> Scalar {
        if self.sign_set() {
            Scalar { bits: (self.bits - SIGN_BIT) as u64 }
        } else {
            Scalar { bits: (self.bits + SIGN_BIT) as u64 }
        }
    }

    /// IEEE-754 absolute value: the sign bit cleared.
    pub open spec fn absolute(self) -> Scalar {
        Scalar { bits: self.magnitude() as u64 }
    }

    /// What `f64::clamp(self, min, max)` returns.
    pub open spec fn clamped(self, min: Scalar, max: Scalar) -> Scalar {
        if self.less_than(min) {
            min
        } else if self.greater_than(max) {
            max
        } else {
            self
        }
    }

    /// `|x| < t` holds exactly when `-t < x < t`.
    pub proof fn lemma_absolute_below(self, t: Scalar)
        ensures
            self.absolute().less_than(t) <==> t.negated().less_than(self) && self.less_than(t),
    {
    }

    /// The value with the given bit pattern.
    pub fn from_bits(bits: u64) -> (r: Scalar)
        ensures
            r.bits == bits,
    {
        Scalar { bits }
    }

    /// The bit pattern of the value.
    pub fn to_bits(self) -> (r: u64)
        ensures
            r == self.bits,
    {
        self.bits
    }

    /// `+0.0`.
    pub fn zero() -> (r: Scalar)
        ensures
            r.bits == 0,
            r.finite(),
            r.order_key() == 0,
    {
        Scalar { bits: 0 }
    }

    /// `+inf`.
    pub fn infinity() -> (r: Scalar)
        ensures
            r.bits == INFINITY_BITS,
            !r.finite(),
            !r.nan(),
    {
        Scalar { bits: INFINITY_BITS }
    }

    fn magnitude_bits(self) -> (r: u64)
        ensures
            r == self.magnitude(),
            r < SIGN_BIT,
    {
        if self.bits >= SIGN_BIT {
            self.bits - SIGN_BIT
        } else {
            self.bits
        }
    }

    fn key(self) -> (r: i64)
        ensures
            r == self.order_key(),
    {
        let m = self.magnitude_bits();
        let k: i64 = m as i64;
        if self.bits >= SIGN_BIT {
            -k
        } else {
            k
        }
    }

    /// `f64::is_nan`.
    pub fn is_nan(self) -> (r: bool)
        ensures
            r == self.nan(),
    {
        self.magnitude_bits() > INFINITY_BITS
    }

    /// `f64::is_finite`.
    pub fn is_finite(self) -> (r: bool)
        ensures
            r == self.finite(),
    {
        self.magnitude_bits() < INFINITY_BITS
    }

    /// The `<` operator on binary64 values.
    pub fn is_less_than(self, other: Scalar) -> (r: bool)
        ensures
            r == self.less_than(other),
    {
        !self.is_nan() && !other.is_nan() && self.key() < other.key()
    }

    /// The `<=` operator on binary64 values.
    pub fn is_at_most(self, other: Scalar) -> (r: bool)
        ensures
            r == self.at_most(other),
    {
        !self.is_nan() && !other.is_nan() && self.key() <= other.key()
    }

    /// The `>` operator on binary64 values.
    pub fn is_greater_than(self, other: Scalar) -> (r: bool)
        ensures
            r == self.greater_than(other),
    {
        other.is_less_than(self)
    }

    /// The `>=` operator on binary64 values.
    pub fn is_at_least(self, other: Scalar) -> (r: bool)
        ensures
            r == self.at_least(other),
    {
        other.is_at_most(self)
    }

    /// Unary `-` on binary64 values.
    pub fn neg(self) -> (r: Scalar)
        ensures
            r == self.negated(),
    {
        if self.bits >= SIGN_BIT {
            Scalar { bits: self.bits - SIGN_BIT }
        } else {
            Scalar { bits: self.bits + SIGN_BIT }
        }
    }

    /// `f64::abs`.
    pub fn abs(self) -> (r: Scalar)
        ensures
            r == self.absolute(),
            !r.sign_set(),
            r.nan() == self.nan(),
            r.finite() == self.finite(),
    {
        Scalar { bits: self.magnitude_bits() }
    }

    /// `f64::clamp`: `min` when below it, `max` when above it, the value
    /// itself otherwise (a NaN stays NaN).  `f64::clamp` panics unless
    /// `min <= max`, so that is required.
    pub fn clamp(self, min: Scalar, max: Scalar) -> (r: Scalar)
        requires
            min.at_most(max),
        ensures
            r == self.clamped(min, max),
            self.nan() ==> r == self,
            !self.nan() ==> min.at_most(r) && r.at_most(max),
    {
        if self.is_less_than(min) {
            min
        } else if self.is_greater_than(max) {
            max
        } else {
            self
        }
    }
}

} // verus!
