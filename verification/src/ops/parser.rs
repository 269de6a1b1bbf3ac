//! The decoder: from the bytes of a program to one instruction and its length.
//!
//! `decode` says what a byte sequence decodes to, in terms of the fields of
//! the opcode byte: its top two bits `x`, the three bits `y` below them and
//! the low three bits `z`. The executable decoder works from exact opcode
//! bytes and bit patterns and is proved to agree with it.

use vstd::prelude::*;
use crate::bits::{lemma_byte_to_high, signed, word};
use crate::ops::opcodes::{BigReg, Displacement, Opcode, Reg};

verus! {

/// The register that a three-bit selector names; `None` for the selector 110,
/// which names the byte of memory that HL points to.
pub open spec fn register_at(selector: int) -> Option<Reg> {
    if selector == 0 {
        Some(Reg::B)
    } else if selector == 1 {
        Some(Reg::C)
    } else if selector == 2 {
        Some(Reg::D)
    } else if selector == 3 {
        Some(Reg::E)
    } else if selector == 4 {
        Some(Reg::H)
    } else if selector == 5 {
        Some(Reg::L)
    } else if selector == 7 {
        Some(Reg::A)
    } else {
        None
    }
}

/// The 16-bit register that a two-bit selector names where SP can be chosen.
pub open spec fn pair_at(selector: int) -> BigReg {
    if selector == 0 {
        BigReg::BC
    } else if selector == 1 {
        BigReg::DE
    } else if selector == 2 {
        BigReg::HL
    } else {
        BigReg::SP
    }
}

/// The 16-bit register that a two-bit selector names in push and pop, where AF
/// takes the place of SP.
pub open spec fn stack_pair_at(selector: int) -> BigReg {
    if selector == 0 {
        BigReg::BC
    } else if selector == 1 {
        BigReg::DE
    } else if selector == 2 {
        BigReg::HL
    } else {
        BigReg::AF
    }
}

/// The 16-bit operand whose bytes stand in the program as `first`, `second`:
/// the low byte comes first.
pub open spec fn immediate16(first: u8, second: u8) -> u16 {
    word(second, first)
}

/// The displacement that the byte `b` stands for: `b` as a two's complement
/// number.
pub open spec fn displacement_of(b: u8) -> Displacement {
    signed(b) as i8
}

/// The operation on the accumulator that the field `y` selects, with a
/// register operand. The selector 1 has no instruction here.
pub open spec fn alu_register(y: int, r: Reg) -> Option<Opcode> {
    if y == 0 {
        Some(Opcode::ADDAR(r))
    } else if y == 2 {
        Some(Opcode::SUBAR(r))
    } else if y == 3 {
        Some(Opcode::SBCAR(r))
    } else if y == 4 {
        Some(Opcode::ANDAR(r))
    } else if y == 5 {
        Some(Opcode::XORAR(r))
    } else if y == 6 {
        Some(Opcode::ORAR(r))
    } else if y == 7 {
        Some(Opcode::CPAR(r))
    } else {
        None
    }
}

/// As `alu_register`, with the byte at (HL) as operand.
pub open spec fn alu_memory(y: int) -> Option<Opcode> {
    if y == 0 {
        Some(Opcode::ADDAHL)
    } else if y == 2 {
        Some(Opcode::SUBAHL)
    } else if y == 3 {
        Some(Opcode::SBCAHL)
    } else if y == 4 {
        Some(Opcode::ANDAHL)
    } else if y == 5 {
        Some(Opcode::XORAHL)
    } else if y == 6 {
        Some(Opcode::ORAHL)
    } else if y == 7 {
        Some(Opcode::CPAHL)
    } else {
        None
    }
}

/// As `alu_register`, with the immediate `n` as operand.
pub open spec fn alu_immediate(y: int, n: u8) -> Option<Opcode> {
    if y == 0 {
        Some(Opcode::ADDAN(n))
    } else if y == 2 {
        Some(Opcode::SUBAN(n))
    } else if y == 3 {
        Some(Opcode::SBCAN(n))
    } else if y == 4 {
        Some(Opcode::ANDAN(n))
    } else if y == 5 {
        Some(Opcode::XORAN(n))
    } else if y == 6 {
        Some(Opcode::ORAN(n))
    } else if y == 7 {
        Some(Opcode::CPAN(n))
    } else {
        None
    }
}

/// As `alu_register`, with the byte at IX plus `d` as operand.
pub open spec fn alu_indexed(y: int, d: Displacement) -> Option<Opcode> {
    if y == 0 {
        Some(Opcode::ADDAIXD(d))
    } else if y == 2 {
        Some(Opcode::SUBAIXD(d))
    } else if y == 3 {
        Some(Opcode::SBCAIXD(d))
    } else if y == 4 {
        Some(Opcode::ANDAIXD(d))
    } else if y == 5 {
        Some(Opcode::XORAIXD(d))
    } else if y == 6 {
        Some(Opcode::ORAIXD(d))
    } else if y == 7 {
        Some(Opcode::CPAIXD(d))
    } else {
        None
    }
}

/// The instruction and its length, one byte, for an opcode byte that selects
/// among instructions without operand bytes; an unrecognised one is a NOP.
pub open spec fn one_byte(op: Option<Opcode>) -> (u8, Opcode) {
    match op {
        Some(op) => (1, op),
        None => (1, Opcode::NOP),
    }
}

/// The length and the instruction that an unprefixed opcode byte `b` stands
/// for, `n1` and `n2` being the two bytes after it. An instruction shorter
/// than three bytes does not depend on the bytes it does not reach. A byte
/// that is no instruction gives a NOP of length 1.
pub open spec fn unprefixed(b: u8, n1: u8, n2: u8) -> (u8, Opcode) {
    let x: int = b as int / 64;
    let y: int = (b as int / 8) % 8;
    let z: int = b as int % 8;
    let nn = immediate16(n1, n2);
    if x == 1 {
        match (register_at(y), register_at(z)) {
            (Some(r1), Some(r2)) => (1, Opcode::LDRR(r1, r2)),
            (Some(r), None) => (1, Opcode::LDRHL(r)),
            (None, Some(r)) => (1, Opcode::LDHLR(r)),
            (None, None) => (1, Opcode::HALT),
        }
    } else if x == 2 {
        match register_at(z) {
            Some(r) => one_byte(alu_register(y, r)),
            None => one_byte(alu_memory(y)),
        }
    } else if x == 0 {
        if z == 6 {
            match register_at(y) {
                Some(r) => (2, Opcode::LDRN(r, n1)),
                None => (2, Opcode::LDHLN(n1)),
            }
        } else if z == 4 {
            match register_at(y) {
                Some(r) => (1, Opcode::INCR(r)),
                None => (1, Opcode::INCHL),
            }
        } else if z == 5 {
            match register_at(y) {
                Some(r) => (1, Opcode::DECR(r)),
                None => (1, Opcode::DECHL),
            }
        } else if z == 1 && y % 2 == 0 {
            (3, Opcode::LDDDNN(pair_at(y / 2), nn))
        } else if z == 2 {
            if y == 0 {
                (1, Opcode::LDBCA)
            } else if y == 1 {
                (1, Opcode::LDABC)
            } else if y == 2 {
                (1, Opcode::LDDEA)
            } else if y == 3 {
                (1, Opcode::LDADE)
            } else if y == 4 {
                (3, Opcode::LDNNHL(nn))
            } else if y == 5 {
                (3, Opcode::LDHLNN(nn))
            } else if y == 6 {
                (3, Opcode::LDNNA(nn))
            } else {
                (3, Opcode::LDANN(nn))
            }
        } else if z == 0 && y == 1 {
            (1, Opcode::EXAFAF2)
        } else {
            (1, Opcode::NOP)
        }
    } else {
        if z == 6 {
            match alu_immediate(y, n1) {
                Some(op) => (2, op),
                None => (1, Opcode::NOP),
            }
        } else if z == 1 && y % 2 == 0 {
            (1, Opcode::POPQQ(stack_pair_at(y / 2)))
        } else if z == 5 && y % 2 == 0 {
            (1, Opcode::PUSHQQ(stack_pair_at(y / 2)))
        } else if z == 1 && y == 3 {
            (1, Opcode::EXX)
        } else if z == 1 && y == 7 {
            (1, Opcode::LDSPHL)
        } else if z == 3 && y == 4 {
            (1, Opcode::EXSPHL)
        } else if z == 3 && y == 5 {
            (1, Opcode::EXDEHL)
        } else {
            (1, Opcode::NOP)
        }
    }
}

/// The length, prefix included, and the instruction that the byte `b` stands
/// for after the prefix 0xED, `n1` and `n2` being the two bytes after it. A
/// byte that is no instruction gives a NOP of length 2.
pub open spec fn extended(b: u8, n1: u8, n2: u8) -> (u8, Opcode) {
    let x: int = b as int / 64;
    let y: int = (b as int / 8) % 8;
    let z: int = b as int % 8;
    let nn = immediate16(n1, n2);
    if x == 1 && z == 3 {
        if y % 2 == 0 {
            (4, Opcode::LDNNDD(nn, pair_at(y / 2)))
        } else {
            (4, Opcode::LDDDNN2(pair_at(y / 2), nn))
        }
    } else if x == 1 && z == 7 && y == 0 {
        (2, Opcode::LDIA)
    } else if x == 1 && z == 7 && y == 1 {
        (2, Opcode::LDRA)
    } else if x == 1 && z == 7 && y == 2 {
        (2, Opcode::LDAI)
    } else if x == 1 && z == 7 && y == 3 {
        (2, Opcode::LDAR)
    } else if x == 2 && z == 0 && y == 4 {
        (2, Opcode::LDI)
    } else if x == 2 && z == 0 && y == 5 {
        (2, Opcode::LDD)
    } else if x == 2 && z == 0 && y == 6 {
        (2, Opcode::LDIR)
    } else if x == 2 && z == 0 && y == 7 {
        (2, Opcode::LDDR)
    } else if x == 2 && z == 1 && y == 4 {
        (2, Opcode::CPI)
    } else if x == 2 && z == 1 && y == 5 {
        (2, Opcode::CPD)
    } else if x == 2 && z == 1 && y == 6 {
        (2, Opcode::CPIR)
    } else if x == 2 && z == 1 && y == 7 {
        (2, Opcode::CPDR)
    } else {
        (2, Opcode::NOP)
    }
}

/// The length, prefix included, and the instruction that the byte `b` stands
/// for after the prefix 0xDD, `n1` and `n2` being the two bytes after it. The
/// result names IX; after the prefix 0xFD the same table names IY (see
/// `iy_twin`). A byte that is no instruction gives a NOP of length 2.
pub open spec fn indexed(b: u8, n1: u8, n2: u8) -> (u8, Opcode) {
    let x: int = b as int / 64;
    let y: int = (b as int / 8) % 8;
    let z: int = b as int % 8;
    let nn = immediate16(n1, n2);
    let d = displacement_of(n1);
    if x == 1 {
        match (register_at(y), register_at(z)) {
            (Some(r), None) => (3, Opcode::LDRIXD(r, d)),
            (None, Some(r)) => (3, Opcode::LDIXDR(d, r)),
            _ => (2, Opcode::NOP),
        }
    } else if x == 2 && z == 6 {
        match alu_indexed(y, d) {
            Some(op) => (3, op),
            None => (2, Opcode::NOP),
        }
    } else if b == 0x21 {
        (4, Opcode::LDIXNN(nn))
    } else if b == 0x22 {
        (4, Opcode::LDNNIX(nn))
    } else if b == 0x2A {
        (4, Opcode::LDIXNN2(nn))
    } else if b == 0x34 {
        (3, Opcode::INCIXD(d))
    } else if b == 0x35 {
        (3, Opcode::DECIXD(d))
    } else if b == 0x36 {
        (4, Opcode::LDIXDN(d, n2))
    } else if b == 0xE1 {
        (2, Opcode::POPIX)
    } else if b == 0xE3 {
        (2, Opcode::EXSPIX)
    } else if b == 0xE5 {
        (2, Opcode::PUSHIX)
    } else if b == 0xF9 {
        (2, Opcode::LDSPIX)
    } else {
        (2, Opcode::NOP)
    }
}

/// The instruction that does with IY what `op` does with IX; `op` itself
/// where it does not name IX.
pub open spec fn iy_twin(op: Opcode) -> Opcode {
    match op {
        Opcode::LDRIXD(r, d) => Opcode::LDRIYD(r, d),
        Opcode::LDIXDR(d, r) => Opcode::LDIYDR(d, r),
        Opcode::LDIXDN(d, n) => Opcode::LDIYDN(d, n),
        Opcode::LDIXNN(nn) => Opcode::LDIYNN(nn),
        Opcode::LDIXNN2(nn) => Opcode::LDIYNN2(nn),
        Opcode::LDNNIX(nn) => Opcode::LDNNIY(nn),
        Opcode::LDSPIX => Opcode::LDSPIY,
        Opcode::PUSHIX => Opcode::PUSHIY,
        Opcode::POPIX => Opcode::POPIY,
        Opcode::EXSPIX => Opcode::EXSPIY,
        Opcode::ADDAIXD(d) => Opcode::ADDAIYD(d),
        Opcode::SUBAIXD(d) => Opcode::SUBAIYD(d),
        Opcode::SBCAIXD(d) => Opcode::SBCAIYD(d),
        Opcode::ANDAIXD(d) => Opcode::ANDAIYD(d),
        Opcode::ORAIXD(d) => Opcode::ORAIYD(d),
        Opcode::XORAIXD(d) => Opcode::XORAIYD(d),
        Opcode::CPAIXD(d) => Opcode::CPAIYD(d),
        Opcode::INCIXD(d) => Opcode::INCIYD(d),
        Opcode::DECIXD(d) => Opcode::DECIYD(d),
        _ => op,
    }
}

/// The byte of `code` at `i`, or zero past its end.
pub open spec fn byte_or_zero(code: Seq<u8>, i: int) -> u8 {
    if 0 <= i < code.len() {
        code[i]
    } else {
        0
    }
}

/// The length and the instruction that `code` starts with, if `code` is long
/// enough to hold it.
pub open spec fn leading(code: Seq<u8>) -> (u8, Opcode) {
    let b0 = byte_or_zero(code, 0);
    let b1 = byte_or_zero(code, 1);
    let b2 = byte_or_zero(code, 2);
    let b3 = byte_or_zero(code, 3);
    if b0 == 0xED {
        extended(b1, b2, b3)
    } else if b0 == 0xDD {
        indexed(b1, b2, b3)
    } else if b0 == 0xFD {
        (indexed(b1, b2, b3).0, iy_twin(indexed(b1, b2, b3).1))
    } else {
        unprefixed(b0, b1, b2)
    }
}

/// What `code` decodes to: the number of bytes that its first instruction
/// takes, and that instruction; `None` where `code` is empty or ends before
/// its first instruction does. Bytes that are no instruction decode to a NOP
/// that takes the bytes read to find that out: one, or two after a prefix.
pub open spec fn decode(code: Seq<u8>) -> Option<(u8, Opcode)> {
    if 0 < code.len() && leading(code).0 <= code.len() {
        Some(leading(code))
    } else {
        None
    }
}

/// The eight bits of `byte`, the most significant first.
pub fn byte_to_bits(byte: u8) -> (bits: (u8, u8, u8, u8, u8, u8, u8, u8))
    ensures
        bits.0 <= 1 && bits.1 <= 1 && bits.2 <= 1 && bits.3 <= 1,
        bits.4 <= 1 && bits.5 <= 1 && bits.6 <= 1 && bits.7 <= 1,
        byte == 128 * bits.0 + 64 * bits.1 + 32 * bits.2 + 16 * bits.3 + 8 * bits.4 + 4 * bits.5
            + 2 * bits.6 + bits.7,
        byte / 64 == 2 * bits.0 + bits.1,
        (byte / 8) % 8 == 4 * bits.2 + 2 * bits.3 + bits.4,
        byte % 8 == 4 * bits.5 + 2 * bits.6 + bits.7,
{
    let bits = (
        byte >> 7 & 1,
        byte >> 6 & 1,
        byte >> 5 & 1,
        byte >> 4 & 1,
        byte >> 3 & 1,
        byte >> 2 & 1,
        byte >> 1 & 1,
        byte & 1,
    );
    assert({
        &&& byte >> 7 & 1 <= 1 && byte >> 6 & 1 <= 1 && byte >> 5 & 1 <= 1 && byte >> 4 & 1 <= 1
        &&& byte >> 3 & 1 <= 1 && byte >> 2 & 1 <= 1 && byte >> 1 & 1 <= 1 && byte & 1 <= 1
        &&& byte == 128 * (byte >> 7 & 1) + 64 * (byte >> 6 & 1) + 32 * (byte >> 5 & 1) + 16 * (byte
            >> 4 & 1) + 8 * (byte >> 3 & 1) + 4 * (byte >> 2 & 1) + 2 * (byte >> 1 & 1) + (byte & 1)
        &&& byte / 64 == 2 * (byte >> 7 & 1) + (byte >> 6 & 1)
        &&& (byte / 8) % 8 == 4 * (byte >> 5 & 1) + 2 * (byte >> 4 & 1) + (byte >> 3 & 1)
        &&& byte % 8 == 4 * (byte >> 2 & 1) + 2 * (byte >> 1 & 1) + (byte & 1)
    }) by (bit_vector);
    bits
}

/// The register that three selector bits name. The bits 1, 1, 0 name no
/// register and are not accepted.
pub fn bits_to_reg(bit1: u8, bit2: u8, bit3: u8) -> (r: Reg)
    requires
        bit1 <= 1 && bit2 <= 1 && bit3 <= 1,
        !(bit1 == 1 && bit2 == 1 && bit3 == 0),
    ensures
        register_at(4 * bit1 + 2 * bit2 + bit3) == Some(r),
{
    match (bit1, bit2, bit3) {
        (1, 1, 1) => Reg::A,
        (0, 0, 0) => Reg::B,
        (0, 0, 1) => Reg::C,
        (0, 1, 0) => Reg::D,
        (0, 1, 1) => Reg::E,
        (1, 0, 0) => Reg::H,
        (1, 0, 1) => Reg::L,
        _ => unreached(),
    }
}

/// The 16-bit register that two selector bits name where SP can be chosen.
pub fn bits_to_bigreg1(bit1: u8, bit2: u8) -> (r: BigReg)
    requires
        bit1 <= 1 && bit2 <= 1,
    ensures
        r == pair_at(2 * bit1 + bit2),
{
    match (bit1, bit2) {
        (0, 0) => BigReg::BC,
        (0, 1) => BigReg::DE,
        (1, 0) => BigReg::HL,
        (1, 1) => BigReg::SP,
        _ => unreached(),
    }
}

/// The 16-bit register that two selector bits name in push and pop.
pub fn bits_to_bigreg2(bit1: u8, bit2: u8) -> (r: BigReg)
    requires
        bit1 <= 1 && bit2 <= 1,
    ensures
        r == stack_pair_at(2 * bit1 + bit2),
{
    match (bit1, bit2) {
        (0, 0) => BigReg::BC,
        (0, 1) => BigReg::DE,
        (1, 0) => BigReg::HL,
        (1, 1) => BigReg::AF,
        _ => unreached(),
    }
}

/// The 16-bit operand whose bytes stand in the program as `first`, `second`.
pub fn to_immediate16(first: u8, second: u8) -> (nn: u16)
    ensures
        nn == immediate16(first, second),
{
    let high = second as u16;
    proof {
        lemma_byte_to_high(high);
    }
    (high << 8) + first as u16
}

/// The displacement that the byte `b` stands for.
pub fn to_displacement(b: u8) -> (d: Displacement)
    ensures
        d == displacement_of(b),
{
    if b < 128 {
        b as i8
    } else {
        (b as i16 - 256) as i8
    }
}

/// Decodes an unprefixed instruction from its opcode byte and the two bytes
/// after it.
pub fn decode_unprefixed(byte: u8, n1: u8, n2: u8) -> (r: (u8, Opcode))
    ensures
        r == unprefixed(byte, n1, n2),
{
    match byte {
        0x02 => (1, Opcode::LDBCA),
        0x08 => (1, Opcode::EXAFAF2),
        0x0A => (1, Opcode::LDABC),
        0x12 => (1, Opcode::LDDEA),
        0x1A => (1, Opcode::LDADE),
        0x22 => (3, Opcode::LDNNHL(to_immediate16(n1, n2))),
        0x2A => (3, Opcode::LDHLNN(to_immediate16(n1, n2))),
        0x32 => (3, Opcode::LDNNA(to_immediate16(n1, n2))),
        0x3A => (3, Opcode::LDANN(to_immediate16(n1, n2))),
        0x34 => (1, Opcode::INCHL),
        0x35 => (1, Opcode::DECHL),
        0x36 => (2, Opcode::LDHLN(n1)),
        0x76 => (1, Opcode::HALT),
        0x86 => (1, Opcode::ADDAHL),
        0x96 => (1, Opcode::SUBAHL),
        0x9E => (1, Opcode::SBCAHL),
        0xA6 => (1, Opcode::ANDAHL),
        0xAE => (1, Opcode::XORAHL),
        0xB6 => (1, Opcode::ORAHL),
        0xBE => (1, Opcode::CPAHL),
        0xC6 => (2, Opcode::ADDAN(n1)),
        0xD6 => (2, Opcode::SUBAN(n1)),
        0xDE => (2, Opcode::SBCAN(n1)),
        0xE6 => (2, Opcode::ANDAN(n1)),
        0xEE => (2, Opcode::XORAN(n1)),
        0xF6 => (2, Opcode::ORAN(n1)),
        0xFE => (2, Opcode::CPAN(n1)),
        0xD9 => (1, Opcode::EXX),
        0xE3 => (1, Opcode::EXSPHL),
        0xEB => (1, Opcode::EXDEHL),
        0xF9 => (1, Opcode::LDSPHL),
        _ => decode_by_pattern(byte, n1, n2),
    }
}

/// Decodes the unprefixed instructions that carry a register selector in
/// their opcode byte. The opcode bytes in which such a selector would name
/// the byte at (HL) are decoded before this is asked.
fn decode_by_pattern(byte: u8, n1: u8, n2: u8) -> (r: (u8, Opcode))
    requires
        byte != 0x02 && byte != 0x08 && byte != 0x0A && byte != 0x12 && byte != 0x1A,
        byte != 0x22 && byte != 0x2A && byte != 0x32 && byte != 0x3A,
        byte != 0x34 && byte != 0x35 && byte != 0x36 && byte != 0x76,
        byte != 0x86 && byte != 0x96 && byte != 0x9E && byte != 0xA6,
        byte != 0xAE && byte != 0xB6 && byte != 0xBE,
        byte != 0xC6 && byte != 0xD6 && byte != 0xDE && byte != 0xE6,
        byte != 0xEE && byte != 0xF6 && byte != 0xFE,
        byte != 0xD9 && byte != 0xE3 && byte != 0xEB && byte != 0xF9,
    ensures
        r == unprefixed(byte, n1, n2),
{
    match byte_to_bits(byte) {
        (1, 0, 0, 0, 0, r11, r12, r13) => (1, Opcode::ADDAR(bits_to_reg(r11, r12, r13))),
        (1, 0, 0, 1, 0, r11, r12, r13) => (1, Opcode::SUBAR(bits_to_reg(r11, r12, r13))),
        (1, 0, 0, 1, 1, r11, r12, r13) => (1, Opcode::SBCAR(bits_to_reg(r11, r12, r13))),
        (1, 0, 1, 0, 0, r11, r12, r13) => (1, Opcode::ANDAR(bits_to_reg(r11, r12, r13))),
        (1, 0, 1, 0, 1, r11, r12, r13) => (1, Opcode::XORAR(bits_to_reg(r11, r12, r13))),
        (1, 0, 1, 1, 0, r11, r12, r13) => (1, Opcode::ORAR(bits_to_reg(r11, r12, r13))),
        (1, 0, 1, 1, 1, r11, r12, r13) => (1, Opcode::CPAR(bits_to_reg(r11, r12, r13))),
        (0, 1, 1, 1, 0, r11, r12, r13) => (1, Opcode::LDHLR(bits_to_reg(r11, r12, r13))),
        (0, 1, r11, r12, r13, 1, 1, 0) => (1, Opcode::LDRHL(bits_to_reg(r11, r12, r13))),
        (0, 1, r11, r12, r13, r21, r22, r23) => (
            1,
            Opcode::LDRR(bits_to_reg(r11, r12, r13), bits_to_reg(r21, r22, r23)),
        ),
        (0, 0, r11, r12, r13, 1, 1, 0) => (2, Opcode::LDRN(bits_to_reg(r11, r12, r13), n1)),
        (0, 0, r11, r12, r13, 1, 0, 0) => (1, Opcode::INCR(bits_to_reg(r11, r12, r13))),
        (0, 0, r11, r12, r13, 1, 0, 1) => (1, Opcode::DECR(bits_to_reg(r11, r12, r13))),
        (0, 0, d1, d2, 0, 0, 0, 1) => (
            3,
            Opcode::LDDDNN(bits_to_bigreg1(d1, d2), to_immediate16(n1, n2)),
        ),
        (1, 1, d1, d2, 0, 1, 0, 1) => (1, Opcode::PUSHQQ(bits_to_bigreg2(d1, d2))),
        (1, 1, d1, d2, 0, 0, 0, 1) => (1, Opcode::POPQQ(bits_to_bigreg2(d1, d2))),
        _ => (1, Opcode::NOP),
    }
}

/// Decodes the instruction after the prefix 0xED from the byte after the
/// prefix and the two bytes after that.
pub fn decode_extended(byte: u8, n1: u8, n2: u8) -> (r: (u8, Opcode))
    ensures
        r == extended(byte, n1, n2),
{
    match byte {
        0x57 => (2, Opcode::LDAI),
        0x5F => (2, Opcode::LDAR),
        0x47 => (2, Opcode::LDIA),
        0x4F => (2, Opcode::LDRA),
        0xA0 => (2, Opcode::LDI),
        0xA1 => (2, Opcode::CPI),
        0xA8 => (2, Opcode::LDD),
        0xA9 => (2, Opcode::CPD),
        0xB0 => (2, Opcode::LDIR),
        0xB1 => (2, Opcode::CPIR),
        0xB8 => (2, Opcode::LDDR),
        0xB9 => (2, Opcode::CPDR),
        _ => match byte_to_bits(byte) {
            (0, 1, d1, d2, 1, 0, 1, 1) => (
                4,
                Opcode::LDDDNN2(bits_to_bigreg1(d1, d2), to_immediate16(n1, n2)),
            ),
            (0, 1, d1, d2, 0, 0, 1, 1) => (
                4,
                Opcode::LDNNDD(to_immediate16(n1, n2), bits_to_bigreg1(d1, d2)),
            ),
            _ => (2, Opcode::NOP),
        },
    }
}

/// The instruction that does with IY what `op` does with IX.
pub fn to_iy_twin(op: Opcode) -> (twin: Opcode)
    ensures
        twin == iy_twin(op),
{
    match op {
        Opcode::LDRIXD(r, d) => Opcode::LDRIYD(r, d),
        Opcode::LDIXDR(d, r) => Opcode::LDIYDR(d, r),
        Opcode::LDIXDN(d, n) => Opcode::LDIYDN(d, n),
        Opcode::LDIXNN(nn) => Opcode::LDIYNN(nn),
        Opcode::LDIXNN2(nn) => Opcode::LDIYNN2(nn),
        Opcode::LDNNIX(nn) => Opcode::LDNNIY(nn),
        Opcode::LDSPIX => Opcode::LDSPIY,
        Opcode::PUSHIX => Opcode::PUSHIY,
        Opcode::POPIX => Opcode::POPIY,
        Opcode::EXSPIX => Opcode::EXSPIY,
        Opcode::ADDAIXD(d) => Opcode::ADDAIYD(d),
        Opcode::SUBAIXD(d) => Opcode::SUBAIYD(d),
        Opcode::SBCAIXD(d) => Opcode::SBCAIYD(d),
        Opcode::ANDAIXD(d) => Opcode::ANDAIYD(d),
        Opcode::ORAIXD(d) => Opcode::ORAIYD(d),
        Opcode::XORAIXD(d) => Opcode::XORAIYD(d),
        Opcode::CPAIXD(d) => Opcode::CPAIYD(d),
        Opcode::INCIXD(d) => Opcode::INCIYD(d),
        Opcode::DECIXD(d) => Opcode::DECIYD(d),
        _ => op,
    }
}

/// Decodes the instruction after the prefix 0xDD from the byte after the
/// prefix and the two bytes after that. The result names IX.
pub fn decode_indexed(byte: u8, n1: u8, n2: u8) -> (r: (u8, Opcode))
    ensures
        r == indexed(byte, n1, n2),
{
    match byte {
        0x21 => (4, Opcode::LDIXNN(to_immediate16(n1, n2))),
        0x22 => (4, Opcode::LDNNIX(to_immediate16(n1, n2))),
        0x2A => (4, Opcode::LDIXNN2(to_immediate16(n1, n2))),
        0x36 => (4, Opcode::LDIXDN(to_displacement(n1), n2)),
        0x34 => (3, Opcode::INCIXD(to_displacement(n1))),
        0x35 => (3, Opcode::DECIXD(to_displacement(n1))),
        0x86 => (3, Opcode::ADDAIXD(to_displacement(n1))),
        0x96 => (3, Opcode::SUBAIXD(to_displacement(n1))),
        0x9E => (3, Opcode::SBCAIXD(to_displacement(n1))),
        0xA6 => (3, Opcode::ANDAIXD(to_displacement(n1))),
        0xAE => (3, Opcode::XORAIXD(to_displacement(n1))),
        0xB6 => (3, Opcode::ORAIXD(to_displacement(n1))),
        0xBE => (3, Opcode::CPAIXD(to_displacement(n1))),
        0xE1 => (2, Opcode::POPIX),
        0xE3 => (2, Opcode::EXSPIX),
        0xE5 => (2, Opcode::PUSHIX),
        0xF9 => (2, Opcode::LDSPIX),
        0x76 => (2, Opcode::NOP),
        _ => match byte_to_bits(byte) {
            (0, 1, 1, 1, 0, r11, r12, r13) => (
                3,
                Opcode::LDIXDR(to_displacement(n1), bits_to_reg(r11, r12, r13)),
            ),
            (0, 1, r11, r12, r13, 1, 1, 0) => (
                3,
                Opcode::LDRIXD(bits_to_reg(r11, r12, r13), to_displacement(n1)),
            ),
            _ => (2, Opcode::NOP),
        },
    }
}

/// The byte of `code` at `i`, or zero past its end.
fn byte_at(code: &[u8], i: usize) -> (b: u8)
    ensures
        b == byte_or_zero(code@, i as int),
{
    if i < code.len() {
        code[i]
    } else {
        0
    }
}

/// Decodes the instruction that `code` starts with: the number of bytes it
/// takes and the instruction, or `None` where `code` is empty or ends before
/// the instruction does.
pub fn try_parse_op(code: &[u8]) -> (r: Option<(u8, Opcode)>)
    ensures
        r == decode(code@),
{
    let b0 = byte_at(code, 0);
    let b1 = byte_at(code, 1);
    let b2 = byte_at(code, 2);
    let b3 = byte_at(code, 3);
    let (length, op) = match b0 {
        0xED => decode_extended(b1, b2, b3),
        0xDD => decode_indexed(b1, b2, b3),
        0xFD => {
            let (length, op) = decode_indexed(b1, b2, b3);
            (length, to_iy_twin(op))
        },
        _ => decode_unprefixed(b0, b1, b2),
    };
    if 0 < code.len() && length as usize <= code.len() {
        Some((length, op))
    } else {
        None
    }
}

/// Decodes the instruction that `code` starts with and returns the number of
/// bytes it takes together with the instruction. `code` must hold the whole
/// instruction.
pub fn parse_op(code: &[u8]) -> (r: (u8, Opcode))
    requires
        decode(code@) is Some,
    ensures
        decode(code@) == Some(r),
{
    match try_parse_op(code) {
        Some(r) => r,
        None => unreached(),
    }
}

} // verus!
