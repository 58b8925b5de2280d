//! Single-precision words by their bit pattern.
//!
//! A float register holds an IEEE-754 binary32 word: one sign bit, eight
//! exponent bits, twenty-three fraction bits. Whether a word is a number, is
//! zero, or how two words are ordered can be read off the bits, and is
//! decided here. Arithmetic that rounds is not: the engine asks a
//! floating-point unit for it, naming the operation with a [`FloatOp`].

use vstd::prelude::*;

verus! {

/// What the engine asks of a floating-point unit. Operands and answers are
/// 32-bit words; `a` is the first operand and `b` the second.
#[derive(Clone, Copy, Debug, PartialEq, Eq, Structural)]
pub enum FloatOp {
    /// The float word of `a + b`, both float words.
    Add,
    /// The float word of `a - b`.
    Subtract,
    /// The float word of `a * b`.
    Multiply,
    /// The float word of `a / b` cut to a whole number, times `b`.
    Quotient,
    /// The float word of the remainder of `a / b`, with the sign of `a`.
    Remainder,
    /// The float word nearest to the unsigned integer `a`.
    FromUnsigned,
    /// The float word nearest to `a` read as a signed integer.
    FromSigned,
    /// The float word `a` cut to a whole number and held to the unsigned
    /// 32-bit range; zero where `a` is not a number.
    ToUnsigned,
    /// The float word `a` cut to a whole number and held to the signed 32-bit
    /// range, as two's complement; zero where `a` is not a number.
    ToSigned,
}

/// The word of positive infinity: all exponent bits set, no fraction bit.
pub const INFINITY: u32 = 0x7F80_0000;

/// The word of the number one.
pub const ONE: u32 = 0x3F80_0000;

/// The sign bit alone.
pub const SIGN: u32 = 0x8000_0000;

/// The word without its sign bit.
pub open spec fn magnitude(bits: u32) -> u32 {
    bits % 0x8000_0000
}

/// Whether the sign bit is set.
pub open spec fn is_negative(bits: u32) -> bool {
    bits >= 0x8000_0000
}

/// Whether the word is not a number: exponent all ones and a fraction bit set.
pub open spec fn is_nan(bits: u32) -> bool {
    magnitude(bits) > 0x7F80_0000
}

/// Whether the word is zero, of either sign.
pub open spec fn is_zero(bits: u32) -> bool {
    magnitude(bits) == 0
}

/// Whether the word is a number above zero.
pub open spec fn is_positive(bits: u32) -> bool {
    !is_nan(bits) && !is_negative(bits) && !is_zero(bits)
}

/// An integer that orders the words that are numbers as the numbers are
/// ordered: the magnitude, negated under a sign bit. Both zeros rank 0.
pub open spec fn rank(bits: u32) -> int {
    if is_negative(bits) {
        -(magnitude(bits) as int)
    } else {
        magnitude(bits) as int
    }
}

/// Whether the word is not a number.
pub fn nan(bits: u32) -> (b: bool)
    ensures
        b == is_nan(bits),
{
    bits % SIGN > INFINITY
}

/// Whether the word is zero, of either sign.
pub fn zero(bits: u32) -> (b: bool)
    ensures
        b == is_zero(bits),
{
    bits % SIGN == 0
}

/// Whether the word is a number above zero.
pub fn positive(bits: u32) -> (b: bool)
    ensures
        b == is_positive(bits),
{
    bits < SIGN && bits != 0 && bits <= INFINITY
}

/// The rank of a word, by which numbers are ordered.
pub fn ranked(bits: u32) -> (r: i64)
    ensures
        r == rank(bits),
{
    if bits >= SIGN {
        -((bits % SIGN) as i64)
    } else {
        bits as i64
    }
}

} // verus!
