//! The 8-bit arithmetic and logic unit: for each operation, the result byte
//! and the six conditions it gives rise to.
//!
//! The definitions are arithmetic; the executable functions compute the same
//! conditions from bit patterns.

use vstd::prelude::*;
use crate::bits::{lemma_word_split, signed, wrap8};

verus! {

/// The result of an 8-bit operation and the conditions it produced. Which of
/// the conditions reach F is up to the instruction.
#[derive(Debug, Clone, Copy, PartialEq, Eq, Structural)]
pub struct Outcome {
    pub value: u8,
    pub sign: bool,
    pub zero: bool,
    pub half_carry: bool,
    pub parity_overflow: bool,
    pub add_subtract: bool,
    pub carry: bool,
}

/// Whether `x` lies outside the range of a signed byte.
pub open spec fn out_of_signed_range(x: int) -> bool {
    x < -128 || x > 127
}

/// The number of bits of `v` that are one.
pub open spec fn ones(v: u8) -> int {
    v % 2 + (v / 2) % 2 + (v / 4) % 2 + (v / 8) % 2 + (v / 16) % 2 + (v / 32) % 2 + (v / 64) % 2
        + (v / 128) % 2
}

/// Whether an even number of bits of `v` are one.
pub open spec fn even_parity(v: u8) -> bool {
    ones(v) % 2 == 0
}

/// One for a set carry, zero for a clear one.
pub open spec fn carry_value(carry: bool) -> int {
    if carry {
        1
    } else {
        0
    }
}

/// `a + b + carry`: half-carry out of bit 3, overflow of the signed sum, carry
/// out of bit 7.
pub open spec fn sum(a: u8, b: u8, carry: bool) -> Outcome {
    let c = carry_value(carry);
    let value = wrap8(a + b + c);
    Outcome {
        value,
        sign: value >= 128,
        zero: value == 0,
        half_carry: a % 16 + b % 16 + c > 15,
        parity_overflow: out_of_signed_range(signed(a) + signed(b) + c),
        add_subtract: false,
        carry: a + b + c > 255,
    }
}

/// `a - b - carry`: half-borrow into bit 3, overflow of the signed difference,
/// borrow into bit 7.
pub open spec fn difference(a: u8, b: u8, carry: bool) -> Outcome {
    let c = carry_value(carry);
    let value = wrap8(a - b - c);
    Outcome {
        value,
        sign: value >= 128,
        zero: value == 0,
        half_carry: a % 16 - b % 16 - c < 0,
        parity_overflow: out_of_signed_range(signed(a) - signed(b) - c),
        add_subtract: true,
        carry: a - b - c < 0,
    }
}

/// The conditions of a logical result: parity in place of overflow, no carry.
pub open spec fn logical(value: u8, half_carry: bool) -> Outcome {
    Outcome {
        value,
        sign: value >= 128,
        zero: value == 0,
        half_carry,
        parity_overflow: even_parity(value),
        add_subtract: false,
        carry: false,
    }
}

/// `a AND b`; the half-carry is set.
pub open spec fn conjunction(a: u8, b: u8) -> Outcome {
    logical(a & b, true)
}

/// `a OR b`; the half-carry is clear.
pub open spec fn disjunction(a: u8, b: u8) -> Outcome {
    logical(a | b, false)
}

/// `a XOR b`; the half-carry is clear.
pub open spec fn exclusive(a: u8, b: u8) -> Outcome {
    logical(a ^ b, false)
}

/// `v + 1`. The carry of the outcome is that of the sum; the increment
/// instructions do not store it.
pub open spec fn increment(v: u8) -> Outcome {
    sum(v, 1, false)
}

/// `v - 1`. The carry of the outcome is that of the difference; the decrement
/// instructions do not store it.
pub open spec fn decrement(v: u8) -> Outcome {
    difference(v, 1, false)
}

/// Whether an even number of bits of `v` are one.
pub fn has_even_parity(v: u8) -> (even: bool)
    ensures
        even == even_parity(v),
{
    let folded4 = v ^ (v >> 4);
    let folded2 = folded4 ^ (folded4 >> 2);
    let folded1 = folded2 ^ (folded2 >> 1);
    assert((folded1 & 1 == 0) == ((v % 2 + (v / 2) % 2 + (v / 4) % 2 + (v / 8) % 2 + (v / 16) % 2
        + (v / 32) % 2 + (v / 64) % 2 + (v / 128) % 2) % 2 == 0)) by (bit_vector)
        requires
            folded4 == v ^ (v >> 4),
            folded2 == folded4 ^ (folded4 >> 2),
            folded1 == folded2 ^ (folded2 >> 1),
    ;
    folded1 & 1 == 0
}

/// Adds `b` and the carry to `a`.
pub fn add8(a: u8, b: u8, carry: bool) -> (o: Outcome)
    ensures
        o == sum(a, b, carry),
{
    let c: u16 = if carry {
        1
    } else {
        0
    };
    let total: u16 = a as u16 + b as u16 + c;
    proof {
        lemma_word_split(total);
    }
    let value = (total & 0x00FF) as u8;
    let half = (a ^ b ^ value) & 0x10 != 0;
    let overflow = (a ^ value) & (b ^ value) & 0x80 != 0;
    assert({
        &&& half == (a % 16 + b % 16 + c > 15)
        &&& overflow == ((a >= 128) == (b >= 128) && (value >= 128) != (a >= 128))
    }) by (bit_vector)
        requires
            c <= 1,
            total == a + b + c,
            value == total & 0x00FF,
            half == ((a ^ b ^ value) & 0x10 != 0),
            overflow == ((a ^ value) & (b ^ value) & 0x80 != 0),
    ;
    Outcome {
        value,
        sign: value >= 0x80,
        zero: value == 0,
        half_carry: half,
        parity_overflow: overflow,
        add_subtract: false,
        carry: total > 0xFF,
    }
}

/// Subtracts `b` and the carry from `a`.
pub fn sub8(a: u8, b: u8, carry: bool) -> (o: Outcome)
    ensures
        o == difference(a, b, carry),
{
    let c: u16 = if carry {
        1
    } else {
        0
    };
    let total: u16 = 0x100 + a as u16 - b as u16 - c;
    proof {
        lemma_word_split(total);
    }
    let value = (total & 0x00FF) as u8;
    let half = (a ^ b ^ value) & 0x10 != 0;
    let overflow = (a ^ b) & (a ^ value) & 0x80 != 0;
    assert({
        &&& half == ((a % 16) < b % 16 + c)
        &&& overflow == ((a >= 128) != (b >= 128) && (value >= 128) != (a >= 128))
    }) by (bit_vector)
        requires
            c <= 1,
            total == 0x100 + a - b - c,
            value == total & 0x00FF,
            half == ((a ^ b ^ value) & 0x10 != 0),
            overflow == ((a ^ b) & (a ^ value) & 0x80 != 0),
    ;
    Outcome {
        value,
        sign: value >= 0x80,
        zero: value == 0,
        half_carry: half,
        parity_overflow: overflow,
        add_subtract: true,
        carry: total < 0x100,
    }
}

/// The conditions of the logical result `value`.
pub fn logic8(value: u8, half_carry: bool) -> (o: Outcome)
    ensures
        o == logical(value, half_carry),
{
    Outcome {
        value,
        sign: value >= 0x80,
        zero: value == 0,
        half_carry,
        parity_overflow: has_even_parity(value),
        add_subtract: false,
        carry: false,
    }
}

} // verus!
