use vstd::prelude::*;

verus! {

use core::cmp::Ordering;

/// The bit pattern that marks a negative double (sign bit set).
pub const SIGN_BIT: u64 = 0x8000_0000_0000_0000;

/// The bit pattern of positive infinity: every exponent bit set, no fraction.
pub const INFINITY_BITS: u64 = 0x7FF0_0000_0000_0000;

/// A bit pattern with the sign bit cleared.
pub open spec fn magnitude_of(bits: u64) -> u64 {
    if bits < SIGN_BIT {
        bits
    } else {
        (bits - SIGN_BIT) as u64
    }
}

/// A double-precision coordinate, held as its IEEE-754 bit pattern.
///
/// Two scalars are equal exactly when their bit patterns are equal.
#[derive(Clone, Copy, PartialEq, Eq, Structural, Debug, Default)]
pub struct Scalar {
    pub bits: u64,
}

/// Position of a bit pattern in the IEEE-754 total order (`totalOrder`):
/// negative NaNs lowest, then negative values, `-0` just below `+0`,
/// positive values, and positive NaNs highest.
pub open spec fn rank_of(bits: u64) -> int {
    if bits < SIGN_BIT {
        bits as int
    } else {
        SIGN_BIT as int - 1 - bits as int
    }
}

/// The three-way comparison of two integers.
pub open spec fn order_of(a: int, b: int) -> Ordering {
    if a < b {
        Ordering::Less
    } else if a == b {
        Ordering::Equal
    } else {
        Ordering::Greater
    }
}

impl Scalar {
    pub open spec fn rank(self) -> int {
        rank_of(self.bits)
    }

    /// The value is a NaN: every exponent bit set and a nonzero fraction.
    pub open spec fn nan(self) -> bool {
        magnitude_of(self.bits) > INFINITY_BITS
    }

    /// The lower of two scalars, with a NaN ignored when the other is a
    /// number. Two numbers compare numerically, and `-0` counts as lower than
    /// `+0`; two NaNs compare in the total order.
    pub open spec fn lower(a: Scalar, b: Scalar) -> Scalar {
        if a.nan() && !b.nan() {
            b
        } else if b.nan() && !a.nan() {
            a
        } else if a.rank() <= b.rank() {
            a
        } else {
            b
        }
    }

    /// The higher of two scalars, with a NaN ignored when the other is a
    /// number. Two numbers compare numerically, and `+0` counts as higher than
    /// `-0`; two NaNs compare in the total order.
    pub open spec fn upper(a: Scalar, b: Scalar) -> Scalar {
        if a.nan() && !b.nan() {
            b
        } else if b.nan() && !a.nan() {
            a
        } else if a.rank() <= b.rank() {
            b
        } else {
            a
        }
    }

    pub fn from_bits(bits: u64) -> (r: Scalar)
        ensures
            r.bits == bits,
    {
        Scalar { bits }
    }

    pub fn to_bits(&self) -> (r: u64)
        ensures
            r == self.bits,
    {
        self.bits
    }

    /// Positive zero.
    pub fn zero() -> (r: Scalar)
        ensures
            r.bits == 0,
            r.rank() == 0,
    {
        Scalar { bits: 0 }
    }

    /// Negation flips the sign bit and leaves every other bit alone.
    pub fn neg(&self) -> (r: Scalar)
        ensures
            r.bits == (self.bits + SIGN_BIT) % 0x1_0000_0000_0000_0000,
    {
        if self.bits < SIGN_BIT {
            Scalar { bits: self.bits + SIGN_BIT }
        } else {
            Scalar { bits: self.bits - SIGN_BIT }
        }
    }

    /// Absolute value clears the sign bit and leaves every other bit alone.
    pub fn abs(&self) -> (r: Scalar)
        ensures
            r.bits == self.bits % SIGN_BIT,
            r.bits < SIGN_BIT,
    {
        if self.bits < SIGN_BIT {
            *self
        } else {
            Scalar { bits: self.bits - SIGN_BIT }
        }
    }

    /// Three-way comparison in the IEEE-754 total order.
    pub fn total_cmp(&self, other: &Scalar) -> (r: Ordering)
        ensures
            r == order_of(self.rank(), other.rank()),
    {
        let a_neg = self.bits >= SIGN_BIT;
        let b_neg = other.bits >= SIGN_BIT;
        if a_neg != b_neg {
            if a_neg { Ordering::Less } else { Ordering::Greater }
        } else if self.bits == other.bits {
            Ordering::Equal
        } else if (self.bits < other.bits) != a_neg {
            Ordering::Less
        } else {
            Ordering::Greater
        }
    }

    /// Whether the value is a NaN.
    pub fn is_nan(&self) -> (r: bool)
        ensures
            r == self.nan(),
    {
        let magnitude = if self.bits < SIGN_BIT {
            self.bits
        } else {
            self.bits - SIGN_BIT
        };
        magnitude > INFINITY_BITS
    }

    /// The lower of two scalars; a NaN loses to a number.
    pub fn min(&self, other: &Scalar) -> (r: Scalar)
        ensures
            r == Scalar::lower(*self, *other),
    {
        let self_nan = self.is_nan();
        let other_nan = other.is_nan();
        if self_nan && !other_nan {
            *other
        } else if other_nan && !self_nan {
            *self
        } else {
            match self.total_cmp(other) {
                Ordering::Greater => *other,
                _ => *self,
            }
        }
    }

    /// The higher of two scalars; a NaN loses to a number.
    pub fn max(&self, other: &Scalar) -> (r: Scalar)
        ensures
            r == Scalar::upper(*self, *other),
    {
        let self_nan = self.is_nan();
        let other_nan = other.is_nan();
        if self_nan && !other_nan {
            *other
        } else if other_nan && !self_nan {
            *self
        } else {
            match self.total_cmp(other) {
                Ordering::Greater => *self,
                _ => *other,
            }
        }
    }
}

/// The lower and higher of two scalars do not depend on their order. When
/// exactly one is a NaN, both are the other one. When at most one is a NaN,
/// neither is a NaN and the lower lies at or below the higher.
pub proof fn lemma_lower_upper(a: Scalar, b: Scalar)
    ensures
        Scalar::lower(a, b) == Scalar::lower(b, a),
        Scalar::upper(a, b) == Scalar::upper(b, a),
        Scalar::lower(a, b).rank() <= Scalar::upper(a, b).rank(),
        a.nan() != b.nan() ==> Scalar::lower(a, b) == Scalar::upper(a, b) && Scalar::lower(a, b)
            == (if a.nan() { b } else { a }),
        !(a.nan() && b.nan()) ==> !Scalar::lower(a, b).nan() && !Scalar::upper(a, b).nan(),
{
}

} // verus!
