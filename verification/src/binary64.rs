//! IEEE 754 binary64 numbers, held by their 64-bit encoding.
//!
//! An encoding has a sign bit, eleven exponent bits and fifty-two fraction
//! bits. Every finite binary64 number is an integer multiple of
//! `2^-1074`, so its value is modelled exactly by the integer
//! [`Binary64::scaled_value`], which is the number times `2^1074`. The two
//! infinities get `2^2098` and `-2^2098`, beyond every finite number. All
//! comparisons are stated over that integer.

use vstd::arithmetic::mul::lemma_mul_inequality;
use vstd::arithmetic::mul::lemma_mul_strict_inequality;
use vstd::arithmetic::power2::lemma2_to64;
use vstd::arithmetic::power2::lemma_pow2_pos;
use vstd::arithmetic::power2::lemma_pow2_strictly_increases;
use vstd::arithmetic::power2::lemma_pow2_unfold;
use vstd::arithmetic::power2::pow2;
use vstd::prelude::*;

verus! {

/// The sign bit of an encoding.
pub const SIGN_BIT: u64 = 0x8000_0000_0000_0000;

/// The sixty-three bits below the sign bit.
pub const MAGNITUDE_BITS: u64 = 0x7fff_ffff_ffff_ffff;

/// The encoding of positive infinity; every larger magnitude is a NaN.
pub const INFINITY_BITS: u64 = 0x7ff0_0000_0000_0000;

/// Two to the power fifty-two: the weight of the lowest exponent bit, and the
/// hidden leading bit of a normal number's significand.
pub const HIDDEN_BIT: u64 = 0x0010_0000_0000_0000;

/// A binary64 number, as its encoding.
///
/// Two values are equal when their encodings are: positive and negative zero
/// differ, and a NaN equals itself. The numerical comparisons are the methods
/// [`Binary64::lt`], [`Binary64::le`], [`Binary64::gt`] and [`Binary64::ge`].
#[derive(Clone, Copy, Debug, PartialEq, Eq, Structural)]
pub struct Binary64 {
    pub bits: u64,
}

impl Binary64 {
    /// Whether the sign bit is set.
    pub open spec fn negative(self) -> bool {
        self.bits >= SIGN_BIT
    }

    /// The encoding without its sign bit.
    pub open spec fn encoded_magnitude(self) -> nat {
        (self.bits % SIGN_BIT) as nat
    }

    /// The biased exponent, from 0 to 2047.
    pub open spec fn exponent(self) -> nat {
        self.encoded_magnitude() / (HIDDEN_BIT as nat)
    }

    /// The fraction field, below `2^52`.
    pub open spec fn fraction(self) -> nat {
        self.encoded_magnitude() % (HIDDEN_BIT as nat)
    }

    /// Not a number: the exponent is all ones and the fraction is not zero.
    pub open spec fn is_nan(self) -> bool {
        self.exponent() == 2047 && self.fraction() != 0
    }

    /// The significand as an integer: the fraction, with the hidden bit on top
    /// unless the exponent field is zero.
    pub open spec fn significand(self) -> nat {
        if self.exponent() == 0 {
            self.fraction()
        } else {
            self.fraction() + HIDDEN_BIT as nat
        }
    }

    /// The power of two by which the significand is scaled, counted from the
    /// smallest subnormal step `2^-1074`.
    pub open spec fn scale(self) -> nat {
        if self.exponent() == 0 {
            0
        } else {
            (self.exponent() - 1) as nat
        }
    }

    /// The absolute value times `2^1074`.
    pub open spec fn magnitude(self) -> nat {
        self.significand() * pow2(self.scale())
    }

    /// The value times `2^1074`. It is meant for encodings that are not NaN.
    pub open spec fn scaled_value(self) -> int {
        if self.negative() {
            -(self.magnitude() as int)
        } else {
            self.magnitude() as int
        }
    }

    /// The encoding read as a signed magnitude. It orders the numbers as
    /// their values do, see [`lemma_order_key`].
    pub open spec fn order_key(self) -> int {
        if self.negative() {
            -(self.encoded_magnitude() as int)
        } else {
            self.encoded_magnitude() as int
        }
    }

    /// `self < other` as numbers; false when either is a NaN.
    pub open spec fn spec_lt(self, other: Binary64) -> bool {
        !self.is_nan() && !other.is_nan() && self.scaled_value() < other.scaled_value()
    }

    /// `self <= other` as numbers; false when either is a NaN.
    pub open spec fn spec_le(self, other: Binary64) -> bool {
        !self.is_nan() && !other.is_nan() && self.scaled_value() <= other.scaled_value()
    }

    /// The number with its sign flipped: the other encoding with the same
    /// magnitude.
    pub open spec fn spec_neg(self) -> Binary64 {
        if self.bits >= SIGN_BIT {
            Binary64 { bits: (self.bits - SIGN_BIT) as u64 }
        } else {
            Binary64 { bits: (self.bits + SIGN_BIT) as u64 }
        }
    }

    /// `self > other` as numbers; false when either is a NaN.
    pub open spec fn spec_gt(self, other: Binary64) -> bool {
        other.spec_lt(self)
    }

    /// `self >= other` as numbers; false when either is a NaN.
    pub open spec fn spec_ge(self, other: Binary64) -> bool {
        other.spec_le(self)
    }

    /// The number with the given encoding.
    pub fn from_bits(bits: u64) -> (x: Binary64)
        ensures
            x.bits == bits,
    {
        Binary64 { bits }
    }

    /// The encoding of the number.
    pub fn to_bits(self) -> (bits: u64)
        ensures
            bits == self.bits,
    {
        self.bits
    }

    /// Whether the number is a NaN.
    pub fn is_not_a_number(self) -> (res: bool)
        ensures
            res == self.is_nan(),
    {
        let low: u64 = self.bits & MAGNITUDE_BITS;
        proof {
            lemma_low_bits(self.bits);
        }
        low > INFINITY_BITS
    }

    /// `self < other` as numbers.
    pub fn lt(self, other: Binary64) -> (res: bool)
        ensures
            res == self.spec_lt(other),
    {
        if self.is_not_a_number() || other.is_not_a_number() {
            return false;
        }
        let a: u64 = self.bits & MAGNITUDE_BITS;
        let b: u64 = other.bits & MAGNITUDE_BITS;
        proof {
            lemma_low_bits(self.bits);
            lemma_low_bits(other.bits);
            lemma_order_key(self, other);
        }
        if self.bits >= SIGN_BIT {
            if other.bits >= SIGN_BIT {
                a > b
            } else {
                a != 0 || b != 0
            }
        } else {
            if other.bits >= SIGN_BIT {
                false
            } else {
                a < b
            }
        }
    }

    /// `self <= other` as numbers.
    pub fn le(self, other: Binary64) -> (res: bool)
        ensures
            res == self.spec_le(other),
    {
        if self.is_not_a_number() || other.is_not_a_number() {
            return false;
        }
        !other.lt(self)
    }

    /// `self > other` as numbers.
    pub fn gt(self, other: Binary64) -> (res: bool)
        ensures
            res == self.spec_gt(other),
    {
        other.lt(self)
    }

    /// `self >= other` as numbers.
    pub fn ge(self, other: Binary64) -> (res: bool)
        ensures
            res == self.spec_ge(other),
    {
        other.le(self)
    }

    /// The number with its sign flipped. A NaN stays a NaN.
    pub fn neg(self) -> (res: Binary64)
        ensures
            res == self.spec_neg(),
    {
        let bits: u64 = self.bits ^ SIGN_BIT;
        proof {
            let x: u64 = self.bits;
            assert(x >= 0x8000_0000_0000_0000u64 ==> x ^ 0x8000_0000_0000_0000u64 == x
                - 0x8000_0000_0000_0000u64) by (bit_vector);
            assert(x < 0x8000_0000_0000_0000u64 ==> x ^ 0x8000_0000_0000_0000u64 == x
                + 0x8000_0000_0000_0000u64) by (bit_vector);
        }
        Binary64 { bits }
    }
}

/// Flipping the sign negates the value and keeps what kind of number it is;
/// flipping twice gives the number back.
pub proof fn lemma_neg_negates(x: Binary64)
    ensures
        x.spec_neg().negative() == !x.negative(),
        x.spec_neg().encoded_magnitude() == x.encoded_magnitude(),
        x.spec_neg().scaled_value() == -x.scaled_value(),
        x.spec_neg().is_nan() == x.is_nan(),
        x.spec_neg().spec_neg() == x,
{
}

/// Masking with [`MAGNITUDE_BITS`] leaves the encoded magnitude, and the
/// encodings above [`INFINITY_BITS`] are the NaNs.
proof fn lemma_low_bits(bits: u64)
    ensures
        (bits & MAGNITUDE_BITS) as nat == (Binary64 { bits }).encoded_magnitude(),
        (Binary64 { bits }).is_nan() <==> (bits & MAGNITUDE_BITS) > INFINITY_BITS,
{
    assert(bits & 0x7fff_ffff_ffff_ffffu64 == bits % 0x8000_0000_0000_0000u64) by (bit_vector);
}

/// The encoded magnitude is zero exactly when the magnitude is.
pub proof fn lemma_magnitude_zero(x: Binary64)
    ensures
        x.magnitude() == 0 <==> x.encoded_magnitude() == 0,
{
    lemma_pow2_pos(x.scale());
    let p = pow2(x.scale()) as int;
    let s = x.significand() as int;
    if s > 0 {
        assert(s * p > 0) by (nonlinear_arith)
            requires
                s > 0,
                p > 0,
        ;
    } else {
        assert(s * p == 0) by (nonlinear_arith)
            requires
                s == 0,
        ;
    }
}

/// Magnitudes are ordered as their encodings are: the encoding of a
/// non-negative binary64 number grows with the number.
pub proof fn lemma_magnitude_order(x: Binary64, y: Binary64)
    ensures
        x.encoded_magnitude() < y.encoded_magnitude() <==> x.magnitude() < y.magnitude(),
        x.encoded_magnitude() == y.encoded_magnitude() <==> x.magnitude() == y.magnitude(),
{
    if x.encoded_magnitude() < y.encoded_magnitude() {
        lemma_magnitude_increases(x, y);
    } else if y.encoded_magnitude() < x.encoded_magnitude() {
        lemma_magnitude_increases(y, x);
    }
}

/// Numbers are ordered as their encodings are when these are read as signed
/// magnitudes, and the encodings above infinity's are the NaNs. With this a
/// comparison of two given encodings is a matter of integers.
pub proof fn lemma_order_key(x: Binary64, y: Binary64)
    ensures
        x.scaled_value() < y.scaled_value() <==> x.order_key() < y.order_key(),
        x.scaled_value() == y.scaled_value() <==> x.order_key() == y.order_key(),
        x.is_nan() <==> x.encoded_magnitude() > INFINITY_BITS,
{
    lemma_magnitude_order(x, y);
    lemma_magnitude_zero(x);
    lemma_magnitude_zero(y);
}

/// A smaller encoded magnitude gives a smaller magnitude.
proof fn lemma_magnitude_increases(x: Binary64, y: Binary64)
    requires
        x.encoded_magnitude() < y.encoded_magnitude(),
    ensures
        x.magnitude() < y.magnitude(),
{
    let hidden = HIDDEN_BIT as int;
    let sx = x.significand() as int;
    let sy = y.significand() as int;
    let px = pow2(x.scale()) as int;
    let py = pow2(y.scale()) as int;
    lemma_pow2_pos(x.scale());
    lemma_pow2_pos(y.scale());
    if x.exponent() == y.exponent() {
        assert(sx < sy);
        assert(px == py);
        lemma_mul_strict_inequality(sx, sy, px);
    } else {
        assert(x.exponent() < y.exponent());
        assert(sy >= hidden);
        // y's magnitude is at least the hidden bit at y's scale
        lemma_mul_inequality(hidden, sy, py);
        assert(hidden * py <= sy * py);
        if x.exponent() == 0 {
            lemma2_to64();
            assert(px == 1);
            assert(sx * px == sx) by (nonlinear_arith)
                requires
                    px == 1,
            ;
            assert(hidden * py >= hidden) by (nonlinear_arith)
                requires
                    py >= 1,
                    hidden >= 0,
            ;
        } else {
            // x's magnitude is below twice the hidden bit at x's scale, which
            // is the hidden bit one scale up
            assert(sx < 2 * hidden);
            lemma_mul_strict_inequality(sx, 2 * hidden, px);
            lemma_pow2_unfold((x.scale() + 1) as nat);
            let px1 = pow2((x.scale() + 1) as nat) as int;
            assert((2 * hidden) * px == hidden * px1) by (nonlinear_arith)
                requires
                    px1 == 2 * px,
            ;
            if x.scale() + 1 < y.scale() {
                lemma_pow2_strictly_increases((x.scale() + 1) as nat, y.scale());
            }
            assert(px1 <= py);
            lemma_mul_inequality(px1, py, hidden);
            assert(hidden * px1 <= hidden * py) by (nonlinear_arith)
                requires
                    px1 * hidden <= py * hidden,
            ;
        }
    }
}

} // verus!
