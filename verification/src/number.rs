//! Double-precision numbers, held by their encoding.
//!
//! The library compares, negates and tests numbers itself, on the encoding.
//! Arithmetic and the reading of numerals it leaves to its host.

use vstd::arithmetic::power2::{
    lemma2_to64, lemma_pow2_pos, lemma_pow2_strictly_increases, lemma_pow2_unfold, pow2,
};
use vstd::prelude::*;

verus! {

/// A number in the IEEE 754 binary64 interchange format: one sign bit,
/// eleven exponent bits and fifty-two fraction bits, most significant first.
#[derive(Debug, Clone, Copy)]
pub struct Number {
    pub bits: u64,
}

/// The sign bit of an encoding.
pub const SIGN: u64 = 0x8000_0000_0000_0000;

/// The encoding of positive infinity. Greater magnitudes encode no number.
pub const INFINITY: u64 = 0x7ff0_0000_0000_0000;

/// Two to the power fifty-two: the weight of the lowest exponent bit, and
/// of the leading one of a normal significand.
pub const HIDDEN: u64 = 0x10_0000_0000_0000;

impl Number {
    /// Whether the sign bit is set.
    pub open spec fn negative(self) -> bool {
        self.bits >= SIGN
    }

    /// The encoding without its sign bit.
    pub open spec fn magnitude(self) -> int {
        if self.negative() {
            self.bits - SIGN
        } else {
            self.bits as int
        }
    }

    /// The eleven exponent bits.
    pub open spec fn exponent(self) -> int {
        self.magnitude() / (HIDDEN as int)
    }

    /// The fifty-two fraction bits.
    pub open spec fn fraction(self) -> int {
        self.magnitude() % (HIDDEN as int)
    }

    /// Whether the encoding stands for no number (a NaN).
    pub open spec fn nan(self) -> bool {
        self.magnitude() > INFINITY
    }

    /// Whether this is zero, of either sign.
    pub open spec fn zero(self) -> bool {
        self.magnitude() == 0
    }

    /// The significand as an integer: the fraction, with a leading one
    /// unless the exponent bits are all zero.
    pub open spec fn significand(self) -> int {
        if self.exponent() == 0 {
            self.fraction()
        } else {
            HIDDEN + self.fraction()
        }
    }

    /// The power of two by which the significand is scaled, counted from
    /// the smallest there is.
    pub open spec fn scale(self) -> nat {
        if self.exponent() == 0 {
            0
        } else {
            (self.exponent() - 1) as nat
        }
    }

    /// The number as a multiple of the smallest positive number, two to the
    /// power minus 1074. Infinity counts as two to the power 1024. For an
    /// encoding that stands for no number, this means nothing.
    pub open spec fn units(self) -> int {
        if self.negative() {
            -(self.significand() * pow2(self.scale()))
        } else {
            self.significand() * pow2(self.scale())
        }
    }

    /// Numeric equality: no NaN equals anything, and the two zeros are equal.
    pub open spec fn equals(self, other: Number) -> bool {
        !self.nan() && !other.nan() && self.units() == other.units()
    }

    /// Numeric order: no NaN is below anything, nor anything below it.
    pub open spec fn below(self, other: Number) -> bool {
        !self.nan() && !other.nan() && self.units() < other.units()
    }

    /// The number with the opposite sign.
    pub open spec fn opposite(self) -> Number {
        Number {
            bits: if self.negative() {
                (self.bits - SIGN) as u64
            } else {
                (self.bits + SIGN) as u64
            },
        }
    }

    /// The place of an encoding among all encodings when they are ordered
    /// as the numbers are: the magnitude, negated under a sign.
    pub open spec fn ordinal(self) -> int {
        if self.negative() {
            -self.magnitude()
        } else {
            self.magnitude()
        }
    }
}

/// Among encodings without sign, the greater encodes the greater number.
pub proof fn lemma_magnitudes_ordered(a: Number, b: Number)
    requires
        !a.negative(),
        !b.negative(),
        a.bits < b.bits,
    ensures
        0 <= a.units() < b.units(),
{
    let (ea, eb) = (a.exponent(), b.exponent());
    let (sa, sb) = (a.significand(), b.significand());
    let (pa, pb) = (pow2(a.scale()) as int, pow2(b.scale()) as int);
    lemma_pow2_pos(a.scale());
    lemma_pow2_pos(b.scale());
    assert(0 <= sa * pa) by (nonlinear_arith)
        requires
            0 <= sa,
            0 < pa,
    ;
    if ea == eb {
        assert(sa * pa < sb * pa) by (nonlinear_arith)
            requires
                sa < sb,
                0 < pa,
        ;
    } else if ea == 0 {
        assert(pa == 1) by {
            lemma2_to64();
        }
        assert(sa * pa == sa) by (nonlinear_arith)
            requires
                pa == 1,
        ;
        assert(HIDDEN * 1 <= sb * pb) by (nonlinear_arith)
            requires
                HIDDEN <= sb,
                1 <= pb,
        ;
    } else {
        let next = pow2((a.scale() + 1) as nat) as int;
        lemma_pow2_unfold((a.scale() + 1) as nat);
        if a.scale() + 1 < b.scale() {
            lemma_pow2_strictly_increases((a.scale() + 1) as nat, b.scale());
        }
        assert(sa * pa < HIDDEN * next) by (nonlinear_arith)
            requires
                0 <= sa < 2 * HIDDEN,
                0 < pa,
                next == 2 * pa,
        ;
        assert(HIDDEN * next <= sb * pb) by (nonlinear_arith)
            requires
                HIDDEN <= sb,
                0 < next <= pb,
        ;
    }
}

/// Numbers are ordered as their encodings are, read as integers with a
/// sign: a greater magnitude encodes a number farther from zero.
pub proof fn lemma_order_of_encodings(a: Number, b: Number)
    requires
        !a.nan(),
        !b.nan(),
    ensures
        a.below(b) <==> a.ordinal() < b.ordinal(),
        a.equals(b) <==> a.ordinal() == b.ordinal(),
{
    let plain_a = Number { bits: a.magnitude() as u64 };
    let plain_b = Number { bits: b.magnitude() as u64 };
    let zero = Number { bits: 0 };
    assert(zero.units() == 0) by {
        assert(0 * pow2(zero.scale()) == 0) by (nonlinear_arith);
    }
    if plain_a.bits < plain_b.bits {
        lemma_magnitudes_ordered(plain_a, plain_b);
    } else if plain_b.bits < plain_a.bits {
        lemma_magnitudes_ordered(plain_b, plain_a);
    }
    if 0 < plain_a.bits {
        lemma_magnitudes_ordered(zero, plain_a);
    }
    if 0 < plain_b.bits {
        lemma_magnitudes_ordered(zero, plain_b);
    }
}

/// The encodings of zero are those of the number zero.
pub proof fn lemma_zero(a: Number)
    requires
        !a.nan(),
    ensures
        a.zero() <==> a.units() == 0,
        a.zero() <==> a.equals(Number { bits: 0 }),
{
    let zero = Number { bits: 0 };
    assert(zero.units() == 0) by {
        assert(0 * pow2(zero.scale()) == 0) by (nonlinear_arith);
    }
    lemma_order_of_encodings(a, zero);
}

/// Negation changes the sign of what a number stands for and nothing else.
pub proof fn lemma_opposite(a: Number)
    ensures
        a.opposite().units() == -a.units(),
        a.opposite().nan() == a.nan(),
        a.opposite().opposite() == a,
{
}

impl Number {
    /// The number with the encoding `bits`.
    pub fn from_bits(bits: u64) -> (number: Self)
        ensures
            number.bits == bits,
    {
        Number { bits }
    }

    /// The encoding of the number.
    pub fn to_bits(self) -> (bits: u64)
        ensures
            bits == self.bits,
    {
        self.bits
    }

    /// The encoding without its sign bit.
    fn abs_bits(self) -> (magnitude: u64)
        ensures
            magnitude == self.magnitude(),
    {
        if self.bits >= SIGN {
            self.bits - SIGN
        } else {
            self.bits
        }
    }

    /// Whether the encoding stands for no number.
    pub fn is_nan(self) -> (nan: bool)
        ensures
            nan == self.nan(),
    {
        self.abs_bits() > INFINITY
    }

    /// Whether this is zero, of either sign.
    pub fn is_zero(self) -> (zero: bool)
        ensures
            zero == self.zero(),
    {
        self.abs_bits() == 0
    }

    /// Numeric equality.
    pub fn is_equal_to(self, other: Number) -> (equal: bool)
        ensures
            equal == self.equals(other),
    {
        if self.is_nan() || other.is_nan() {
            false
        } else {
            proof {
                lemma_order_of_encodings(self, other);
            }
            if self.is_zero() {
                other.is_zero()
            } else {
                self.bits == other.bits
            }
        }
    }

    /// Whether this number is less than `other`.
    pub fn is_less_than(self, other: Number) -> (less: bool)
        ensures
            less == self.below(other),
    {
        if self.is_nan() || other.is_nan() {
            false
        } else {
            proof {
                lemma_order_of_encodings(self, other);
            }
            if self.bits >= SIGN {
                if other.bits >= SIGN {
                    self.abs_bits() > other.abs_bits()
                } else {
                    !(self.is_zero() && other.is_zero())
                }
            } else if other.bits >= SIGN {
                false
            } else {
                self.bits < other.bits
            }
        }
    }

    /// Whether this number is less than or equal to `other`.
    pub fn is_at_most(self, other: Number) -> (at_most: bool)
        ensures
            at_most == (self.below(other) || self.equals(other)),
    {
        self.is_less_than(other) || self.is_equal_to(other)
    }

    /// The number with the opposite sign.
    pub fn negate(self) -> (negated: Number)
        ensures
            negated == self.opposite(),
    {
        if self.bits >= SIGN {
            Number { bits: self.bits - SIGN }
        } else {
            Number { bits: self.bits + SIGN }
        }
    }
}

impl PartialEq for Number {
    /// Numeric equality, as `is_equal_to` computes it.
    fn eq(&self, other: &Number) -> (equal: bool) {
        self.is_equal_to(*other)
    }
}

impl vstd::std_specs::cmp::PartialEqSpecImpl for Number {
    open spec fn obeys_eq_spec() -> bool {
        true
    }

    open spec fn eq_spec(&self, other: &Number) -> bool {
        self.equals(*other)
    }
}

} // verus!
