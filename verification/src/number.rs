//! Numbers as the bit patterns of IEEE 754 double-precision values.
//!
//! A number travels through the runtime as the 64 bits of its encoding.
//! What can be decided from the bits alone (equality, order, sign, zero,
//! not-a-number) is decided here; arithmetic is asked of the host.

use vstd::prelude::*;

verus! {

/// The sign bit of an encoding.
pub const SIGN_BIT: u64 = 0x8000_0000_0000_0000;

/// Every bit but the sign: exponent and fraction.
pub const MAGNITUDE_MASK: u64 = 0x7fff_ffff_ffff_ffff;

/// The exponent bits; as a magnitude, this is infinity.
pub const EXPONENT_MASK: u64 = 0x7ff0_0000_0000_0000;

/// The encoding of positive zero.
pub const ZERO_BITS: u64 = 0;

/// The encoding of one.
pub const ONE_BITS: u64 = 0x3ff0_0000_0000_0000;

/// The binary operations on two numbers that only the host can compute.
#[derive(Clone, Copy, Debug, PartialEq, Eq, Structural)]
pub enum ArithOp {
    Add,
    Subtract,
    Multiply,
    Divide,
    Modulo,
}

/// The ordered comparisons of two numbers.
#[derive(Clone, Copy, Debug, PartialEq, Eq, Structural)]
pub enum CompareOp {
    Less,
    LessEqual,
    Greater,
    GreaterEqual,
}

/// Exponent and fraction of an encoding, without its sign.
pub open spec fn magnitude(bits: u64) -> u64 {
    bits & MAGNITUDE_MASK
}

/// True when the sign bit is set.
pub open spec fn is_negative(bits: u64) -> bool {
    bits & SIGN_BIT != 0
}

/// Not-a-number: all exponent bits set and a fraction that is not zero.
pub open spec fn is_nan(bits: u64) -> bool {
    magnitude(bits) > EXPONENT_MASK
}

/// Positive or negative zero.
pub open spec fn is_zero(bits: u64) -> bool {
    magnitude(bits) == 0
}

/// Where an encoding stands on the number line among the encodings that
/// are not not-a-number: both zeros at 0, positive values at their
/// magnitude, negative values at minus their magnitude.
pub open spec fn order_key(bits: u64) -> int {
    if is_negative(bits) {
        -(magnitude(bits) as int)
    } else {
        magnitude(bits) as int
    }
}

/// IEEE equality: not-a-number equals nothing, the two zeros are equal,
/// and otherwise the encodings must agree.
pub open spec fn number_eq(a: u64, b: u64) -> bool {
    !is_nan(a) && !is_nan(b) && order_key(a) == order_key(b)
}

/// IEEE `<`: false whenever an operand is not-a-number.
pub open spec fn number_lt(a: u64, b: u64) -> bool {
    !is_nan(a) && !is_nan(b) && order_key(a) < order_key(b)
}

/// The result of an ordered comparison of two encodings.
pub open spec fn compare_spec(op: CompareOp, a: u64, b: u64) -> bool {
    match op {
        CompareOp::Less => number_lt(a, b),
        CompareOp::LessEqual => number_lt(a, b) || number_eq(a, b),
        CompareOp::Greater => number_lt(b, a),
        CompareOp::GreaterEqual => number_lt(b, a) || number_eq(a, b),
    }
}

/// The encoding with the sign bit flipped.
pub open spec fn negated(bits: u64) -> u64 {
    bits ^ SIGN_BIT
}

pub fn number_is_nan(bits: u64) -> (r: bool)
    ensures
        r == is_nan(bits),
{
    (bits & MAGNITUDE_MASK) > EXPONENT_MASK
}

pub fn number_is_zero(bits: u64) -> (r: bool)
    ensures
        r == is_zero(bits),
{
    (bits & MAGNITUDE_MASK) == 0
}

fn key_of(bits: u64) -> (k: i128)
    ensures
        k == order_key(bits),
{
    let m: u64 = bits & MAGNITUDE_MASK;
    let wide: i128 = m as i128;
    if bits & SIGN_BIT != 0 {
        0 - wide
    } else {
        wide
    }
}

pub fn number_equals(a: u64, b: u64) -> (r: bool)
    ensures
        r == number_eq(a, b),
{
    !number_is_nan(a) && !number_is_nan(b) && key_of(a) == key_of(b)
}

pub fn number_less(a: u64, b: u64) -> (r: bool)
    ensures
        r == number_lt(a, b),
{
    !number_is_nan(a) && !number_is_nan(b) && key_of(a) < key_of(b)
}

/// Decides an ordered comparison of two numbers from their encodings.
pub fn number_compare(op: CompareOp, a: u64, b: u64) -> (r: bool)
    ensures
        r == compare_spec(op, a, b),
{
    match op {
        CompareOp::Less => number_less(a, b),
        CompareOp::LessEqual => number_less(a, b) || number_equals(a, b),
        CompareOp::Greater => number_less(b, a),
        CompareOp::GreaterEqual => number_less(b, a) || number_equals(a, b),
    }
}

/// The number with the opposite sign.
pub fn number_negate(bits: u64) -> (r: u64)
    ensures
        r == negated(bits),
{
    bits ^ SIGN_BIT
}

/// Negating twice gives the number back, and negation keeps the magnitude.
pub proof fn lemma_negate_involution(bits: u64)
    ensures
        negated(negated(bits)) == bits,
        magnitude(negated(bits)) == magnitude(bits),
        is_negative(negated(bits)) == !is_negative(bits),
{
    assert((bits ^ 0x8000_0000_0000_0000u64) ^ 0x8000_0000_0000_0000u64 == bits) by (bit_vector);
    assert((bits ^ 0x8000_0000_0000_0000u64) & 0x7fff_ffff_ffff_ffffu64 == bits
        & 0x7fff_ffff_ffff_ffffu64) by (bit_vector);
    assert(((bits ^ 0x8000_0000_0000_0000u64) & 0x8000_0000_0000_0000u64 != 0) == !(bits
        & 0x8000_0000_0000_0000u64 != 0)) by (bit_vector);
}

/// Equality of numbers is symmetric, transitive, and reflexive on every
/// encoding that is not not-a-number.
pub proof fn lemma_number_eq_is_partial_equivalence(a: u64, b: u64, c: u64)
    ensures
        !is_nan(a) ==> number_eq(a, a),
        number_eq(a, b) ==> number_eq(b, a),
        number_eq(a, b) && number_eq(b, c) ==> number_eq(a, c),
{
}

} // verus!
