//! Bytes and 16-bit words as numbers: wrapping, splitting and joining, and the
//! facts that tie shifts and masks to that arithmetic.

use vstd::prelude::*;

verus! {

/// The residue of `x` modulo 256, as a byte.
pub open spec fn wrap8(x: int) -> u8 {
    (x % 256) as u8
}

/// The residue of `x` modulo 65536: every address and every 16-bit result is
/// taken through this.
pub open spec fn wrap16(x: int) -> u16 {
    (x % 65536) as u16
}

/// Within one turn of the address space on either side, wrapping is adding or
/// taking away 65536 once, or nothing.
pub proof fn lemma_wrap16_near(x: int)
    requires
        -65536 <= x < 131072,
    ensures
        wrap16(x) == if x < 0 {
            x + 65536
        } else if x >= 65536 {
            x - 65536
        } else {
            x
        },
{
}

/// The 16-bit value with high byte `high` and low byte `low`.
pub open spec fn word(high: u8, low: u8) -> u16 {
    (high * 256 + low) as u16
}

/// The high byte of `value`.
pub open spec fn high_byte(value: u16) -> u8 {
    (value / 256) as u8
}

/// The low byte of `value`.
pub open spec fn low_byte(value: u16) -> u8 {
    (value % 256) as u8
}

/// The byte `v` read as a two's complement number.
pub open spec fn signed(v: u8) -> int {
    if v < 128 {
        v as int
    } else {
        v - 256
    }
}

/// Shifting a 16-bit value right by eight gives its high byte, masking with
/// 0xFF its low byte; shifting the low byte left by eight moves it to the top.
pub proof fn lemma_word_split(value: u16)
    by (bit_vector)
    ensures
        value >> 8 == value / 256,
        value >> 8 < 256,
        value & 0x00FF == value % 256,
        (value & 0x00FF) << 8 == (value % 256) * 256,
{
}

/// Shifting a byte left by eight, in sixteen bits, multiplies it by 256.
pub proof fn lemma_byte_to_high(b: u16)
    by (bit_vector)
    requires
        b < 256,
    ensures
        b << 8 == b * 256,
{
}

/// The top bit of a byte is set exactly when the byte is 128 or more.
pub proof fn lemma_sign_bit(b: u8)
    by (bit_vector)
    ensures
        (b & 0b1000_0000 != 0) == (b >= 128),
{
}

} // verus!
