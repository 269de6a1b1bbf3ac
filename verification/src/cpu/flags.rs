//! The condition bits of the flags register F.
//!
//! F is kept as one byte. Each named condition is one bit of it; bits 3 and 5
//! carry no documented condition and are never changed here.

use vstd::prelude::*;

verus! {

/// A named condition bit of F.
#[derive(Debug, Clone, Copy, PartialEq, Eq, Structural)]
pub enum Flag {
    /// Bit 0.
    Carry,
    /// Bit 1, set by subtractions and cleared by additions.
    AddSubtract,
    /// Bit 2.
    ParityOverflow,
    /// Bit 4.
    HalfCarry,
    /// Bit 6.
    Zero,
    /// Bit 7.
    Sign,
}

impl Flag {
    /// The byte with only this flag's bit set.
    pub open spec fn mask(self) -> u8 {
        match self {
            Flag::Carry => 0x01,
            Flag::AddSubtract => 0x02,
            Flag::ParityOverflow => 0x04,
            Flag::HalfCarry => 0x10,
            Flag::Zero => 0x40,
            Flag::Sign => 0x80,
        }
    }

    /// The byte with only this flag's bit set.
    pub fn bit(self) -> (m: u8)
        ensures
            m == self.mask(),
    {
        match self {
            Flag::Carry => 0x01,
            Flag::AddSubtract => 0x02,
            Flag::ParityOverflow => 0x04,
            Flag::HalfCarry => 0x10,
            Flag::Zero => 0x40,
            Flag::Sign => 0x80,
        }
    }
}

/// The bits of F that hold no documented condition.
pub const UNUSED_BITS: u8 = 0x28;

/// Whether `flag` is set in the flags byte `f`.
pub open spec fn flag_is_set(f: u8, flag: Flag) -> bool {
    f & flag.mask() != 0
}

/// The byte `f` with the bits of `mask` set, for a true `value`, or cleared.
pub open spec fn with_bits(f: u8, mask: u8, value: bool) -> u8 {
    if value {
        f | mask
    } else {
        f & !mask
    }
}

/// The flags byte `f` with `flag` set to `value` and every other bit as it was.
pub open spec fn flag_assign(f: u8, flag: Flag, value: bool) -> u8 {
    with_bits(f, flag.mask(), value)
}

/// Whether `flag` is set in the flags byte `f`.
pub fn test_flag(f: u8, flag: Flag) -> (b: bool)
    ensures
        b == flag_is_set(f, flag),
{
    f & flag.bit() != 0
}

/// The flags byte `f` with `flag` set to `value`.
pub fn assign_flag(f: u8, flag: Flag, value: bool) -> (g: u8)
    ensures
        g == flag_assign(f, flag, value),
{
    if value {
        f | flag.bit()
    } else {
        f & !flag.bit()
    }
}

/// No two flags share a bit, and no flag lies on an unused bit.
proof fn lemma_masks_disjoint()
    by (bit_vector)
    ensures
        0x01u8 & 0x02u8 == 0,
        0x01u8 & 0x04u8 == 0,
        0x01u8 & 0x10u8 == 0,
        0x01u8 & 0x40u8 == 0,
        0x01u8 & 0x80u8 == 0,
        0x02u8 & 0x04u8 == 0,
        0x02u8 & 0x10u8 == 0,
        0x02u8 & 0x40u8 == 0,
        0x02u8 & 0x80u8 == 0,
        0x04u8 & 0x10u8 == 0,
        0x04u8 & 0x40u8 == 0,
        0x04u8 & 0x80u8 == 0,
        0x10u8 & 0x40u8 == 0,
        0x10u8 & 0x80u8 == 0,
        0x40u8 & 0x80u8 == 0,
        0x01u8 & 0x28u8 == 0,
        0x02u8 & 0x28u8 == 0,
        0x04u8 & 0x28u8 == 0,
        0x10u8 & 0x28u8 == 0,
        0x40u8 & 0x28u8 == 0,
        0x80u8 & 0x28u8 == 0,
{
}

/// Setting or clearing the bits of `m` is seen on those bits and on no bit
/// of a mask `k` that has none in common with `m`.
proof fn lemma_assign_bits(f: u8, m: u8, k: u8)
    by (bit_vector)
    ensures
        m != 0 ==> (f | m) & m != 0,
        (f & !m) & m == 0,
        m & k == 0 ==> (f | m) & k == f & k,
        m & k == 0 ==> (f & !m) & k == f & k,
        k & m == 0 ==> (f | m) & k == f & k,
        k & m == 0 ==> (f & !m) & k == f & k,
{
}

/// Assigning a flag is read back by testing that flag.
pub proof fn lemma_flag_assign_then_test(f: u8, flag: Flag, value: bool)
    ensures
        flag_is_set(flag_assign(f, flag, value), flag) == value,
{
    lemma_assign_bits(f, flag.mask(), flag.mask());
}

/// Flag independence: assigning one flag alters no other flag, whatever the
/// value assigned.
pub proof fn lemma_flag_independence(f: u8, changed: Flag, other: Flag, value: bool)
    requires
        changed != other,
    ensures
        flag_is_set(flag_assign(f, changed, value), other) == flag_is_set(f, other),
{
    lemma_masks_disjoint();
    lemma_assign_bits(f, changed.mask(), other.mask());
}

/// Assigning a flag leaves the two unused bits of F as they were.
pub proof fn lemma_flag_assign_keeps_unused_bits(f: u8, flag: Flag, value: bool)
    ensures
        flag_assign(f, flag, value) & UNUSED_BITS == f & UNUSED_BITS,
{
    lemma_masks_disjoint();
    lemma_assign_bits(f, flag.mask(), UNUSED_BITS);
}

} // verus!
