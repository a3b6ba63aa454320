//! Amounts of the tracked currency.
//!
//! The exchange reports balances as IEEE 754 binary64 numbers and callers
//! hold them as such. This module carries such a number by its 64-bit
//! pattern and orders two of them as the standard orders the numbers that
//! the patterns stand for.

use vstd::prelude::*;

verus! {

/// The pattern's top bit: set for negative numbers.
pub const SIGN_BIT: u64 = 0x8000_0000_0000_0000;

/// The pattern of positive infinity. A magnitude above it is not a number.
pub const INFINITY_BITS: u64 = 0x7FF0_0000_0000_0000;

/// An IEEE 754 binary64 number, held as its bit pattern: sign in the top
/// bit, then eleven exponent bits, then fifty-two fraction bits.
#[derive(Clone, Copy, Debug, PartialEq, Eq, Structural)]
pub struct Amount {
    pub bits: u64,
}

impl Amount {
    /// The pattern without its sign bit.
    pub open spec fn magnitude(self) -> int {
        if self.bits >= SIGN_BIT {
            self.bits - SIGN_BIT
        } else {
            self.bits as int
        }
    }

    /// Whether the sign bit is set.
    pub open spec fn negative(self) -> bool {
        self.bits >= SIGN_BIT
    }

    /// Whether the pattern is one of those that stand for no number.
    pub open spec fn not_a_number(self) -> bool {
        self.magnitude() > INFINITY_BITS
    }

    /// An integer that orders the patterns as the numbers they stand for are
    /// ordered: among non-negative numbers a larger magnitude is a larger
    /// number, among negative ones a smaller number, and the two zeros share
    /// the rank 0.
    pub open spec fn rank(self) -> int {
        if self.negative() {
            -self.magnitude()
        } else {
            self.magnitude()
        }
    }

    /// `self > other` as IEEE 754 defines it: false where either side is not
    /// a number, and otherwise the order of the two ranks.
    pub open spec fn greater_than(self, other: Amount) -> bool {
        !self.not_a_number() && !other.not_a_number() && self.rank() > other.rank()
    }

    /// The amount with the given bit pattern.
    pub fn from_bits(bits: u64) -> (amount: Amount)
        ensures
            amount.bits == bits,
    {
        Amount { bits }
    }

    /// The bit pattern of the amount.
    pub fn to_bits(&self) -> (bits: u64)
        ensures
            bits == self.bits,
    {
        self.bits
    }

    /// Positive zero.
    pub fn zero() -> (amount: Amount)
        ensures
            amount.bits == 0,
            amount.rank() == 0,
            !amount.not_a_number(),
    {
        Amount { bits: 0 }
    }

    /// Whether the pattern stands for no number.
    pub fn is_nan(&self) -> (nan: bool)
        ensures
            nan == self.not_a_number(),
    {
        let magnitude: u64 = if self.bits >= SIGN_BIT {
            self.bits - SIGN_BIT
        } else {
            self.bits
        };
        magnitude > INFINITY_BITS
    }

    /// Whether this amount is strictly greater than `other`.
    pub fn exceeds(&self, other: &Amount) -> (greater: bool)
        ensures
            greater == self.greater_than(*other),
    {
        if self.is_nan() || other.is_nan() {
            return false;
        }
        let a_negative = self.bits >= SIGN_BIT;
        let b_negative = other.bits >= SIGN_BIT;
        if a_negative {
            if b_negative {
                // Both negative: the smaller magnitude is the greater number.
                self.bits < other.bits
            } else {
                false
            }
        } else {
            if b_negative {
                // A non-negative number exceeds a negative one unless both are zero.
                self.bits > 0 || other.bits > SIGN_BIT
            } else {
                self.bits > other.bits
            }
        }
    }
}

/// No amount exceeds itself, nor one that has the same rank.
pub proof fn lemma_equal_amounts_do_not_exceed(a: Amount, b: Amount)
    requires
        a.rank() == b.rank(),
    ensures
        !a.greater_than(b),
        !b.greater_than(a),
{
}

/// Of two numbers at most one exceeds the other, and exceeding carries over
/// from one pair to the next.
pub proof fn lemma_greater_than_is_a_strict_order(a: Amount, b: Amount, c: Amount)
    ensures
        !(a.greater_than(b) && b.greater_than(a)),
        a.greater_than(b) && b.greater_than(c) ==> a.greater_than(c),
        !a.not_a_number() && !b.not_a_number() ==> (a.greater_than(b) || b.greater_than(a)
            || a.rank() == b.rank()),
{
}

} // verus!
