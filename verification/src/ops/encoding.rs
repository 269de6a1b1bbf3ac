//! The encoding of each instruction: the bytes that stand for it in a program.
//!
//! This is the table read the other way round from the decoder's: from an
//! instruction to its bytes. Decoding the bytes of an instruction gives the
//! instruction back.

use vstd::prelude::*;
use crate::bits::{high_byte, low_byte};
use crate::ops::opcodes::{BigReg, Displacement, Opcode, Reg};

verus! {

/// The three-bit selector of a register; `None` for F and the shadow
/// registers, which no instruction can select.
pub open spec fn selector(r: Reg) -> Option<int> {
    match r {
        Reg::B => Some(0),
        Reg::C => Some(1),
        Reg::D => Some(2),
        Reg::E => Some(3),
        Reg::H => Some(4),
        Reg::L => Some(5),
        Reg::A => Some(7),
        _ => None,
    }
}

/// The two-bit selector of a 16-bit register where SP can be selected.
pub open spec fn pair_selector(r: BigReg) -> Option<int> {
    match r {
        BigReg::BC => Some(0),
        BigReg::DE => Some(1),
        BigReg::HL => Some(2),
        BigReg::SP => Some(3),
        _ => None,
    }
}

/// The two-bit selector of a 16-bit register in push and pop.
pub open spec fn stack_pair_selector(r: BigReg) -> Option<int> {
    match r {
        BigReg::BC => Some(0),
        BigReg::DE => Some(1),
        BigReg::HL => Some(2),
        BigReg::AF => Some(3),
        _ => None,
    }
}

/// The byte that stands for the displacement `d`: its two's complement.
pub open spec fn displacement_byte(d: Displacement) -> u8 {
    if d >= 0 {
        d as u8
    } else {
        (d + 256) as u8
    }
}

/// One byte: `base` with the selector `low` in its low three bits and
/// `middle`, where there is one, in the three bits above.
pub open spec fn opcode_byte(base: int, middle: Option<int>, low: Option<int>) -> Option<u8> {
    match (middle, low) {
        (Some(m), Some(l)) => Some((base + 8 * m + l) as u8),
        _ => None,
    }
}

/// The opcode byte `base` with a register selector in its low three bits.
pub open spec fn with_source(base: int, r: Reg) -> Option<u8> {
    opcode_byte(base, Some(0), selector(r))
}

/// The opcode byte `base` with a register selector in bits 3 to 5.
pub open spec fn with_target(base: int, r: Reg) -> Option<u8> {
    opcode_byte(base, selector(r), Some(0))
}

/// The opcode byte `base` with a 16-bit register selector in bits 4 and 5.
pub open spec fn with_pair(base: int, selected: Option<int>) -> Option<u8> {
    match selected {
        Some(p) => Some((base + 16 * p) as u8),
        None => None,
    }
}

/// The bytes `first` and then `rest`, where there is a first byte.
pub open spec fn bytes(first: Option<u8>, rest: Seq<u8>) -> Option<Seq<u8>> {
    match first {
        Some(b) => Some(seq![b] + rest),
        None => None,
    }
}

/// The bytes of an instruction on IX or IY: the prefix, then `rest`.
pub open spec fn prefixed(prefix: u8, rest: Option<Seq<u8>>) -> Option<Seq<u8>> {
    match rest {
        Some(rest) => Some(seq![prefix] + rest),
        None => None,
    }
}

/// The two bytes of a 16-bit operand, low byte first.
pub open spec fn operand16(nn: u16) -> Seq<u8> {
    seq![low_byte(nn), high_byte(nn)]
}

/// The bytes after the prefix of an instruction on an index register, for
/// the instruction on IX; `None` for any other instruction.
pub open spec fn indexed_encoding(op: Opcode) -> Option<Seq<u8>> {
    match op {
        Opcode::LDRIXD(r, d) => bytes(with_target(0x46, r), seq![displacement_byte(d)]),
        Opcode::LDIXDR(d, r) => bytes(with_source(0x70, r), seq![displacement_byte(d)]),
        Opcode::LDIXDN(d, n) => Some(seq![0x36u8, displacement_byte(d), n]),
        Opcode::LDIXNN(nn) => Some(seq![0x21u8] + operand16(nn)),
        Opcode::LDIXNN2(nn) => Some(seq![0x2Au8] + operand16(nn)),
        Opcode::LDNNIX(nn) => Some(seq![0x22u8] + operand16(nn)),
        Opcode::LDSPIX => Some(seq![0xF9u8]),
        Opcode::PUSHIX => Some(seq![0xE5u8]),
        Opcode::POPIX => Some(seq![0xE1u8]),
        Opcode::EXSPIX => Some(seq![0xE3u8]),
        Opcode::ADDAIXD(d) => Some(seq![0x86u8, displacement_byte(d)]),
        Opcode::SUBAIXD(d) => Some(seq![0x96u8, displacement_byte(d)]),
        Opcode::SBCAIXD(d) => Some(seq![0x9Eu8, displacement_byte(d)]),
        Opcode::ANDAIXD(d) => Some(seq![0xA6u8, displacement_byte(d)]),
        Opcode::XORAIXD(d) => Some(seq![0xAEu8, displacement_byte(d)]),
        Opcode::ORAIXD(d) => Some(seq![0xB6u8, displacement_byte(d)]),
        Opcode::CPAIXD(d) => Some(seq![0xBEu8, displacement_byte(d)]),
        Opcode::INCIXD(d) => Some(seq![0x34u8, displacement_byte(d)]),
        Opcode::DECIXD(d) => Some(seq![0x35u8, displacement_byte(d)]),
        _ => None,
    }
}

/// The instruction on IX that does what `op` does on IY; `op` itself where it
/// does not name IY.
pub open spec fn ix_twin(op: Opcode) -> Opcode {
    match op {
        Opcode::LDRIYD(r, d) => Opcode::LDRIXD(r, d),
        Opcode::LDIYDR(d, r) => Opcode::LDIXDR(d, r),
        Opcode::LDIYDN(d, n) => Opcode::LDIXDN(d, n),
        Opcode::LDIYNN(nn) => Opcode::LDIXNN(nn),
        Opcode::LDIYNN2(nn) => Opcode::LDIXNN2(nn),
        Opcode::LDNNIY(nn) => Opcode::LDNNIX(nn),
        Opcode::LDSPIY => Opcode::LDSPIX,
        Opcode::PUSHIY => Opcode::PUSHIX,
        Opcode::POPIY => Opcode::POPIX,
        Opcode::EXSPIY => Opcode::EXSPIX,
        Opcode::ADDAIYD(d) => Opcode::ADDAIXD(d),
        Opcode::SUBAIYD(d) => Opcode::SUBAIXD(d),
        Opcode::SBCAIYD(d) => Opcode::SBCAIXD(d),
        Opcode::ANDAIYD(d) => Opcode::ANDAIXD(d),
        Opcode::ORAIYD(d) => Opcode::ORAIXD(d),
        Opcode::XORAIYD(d) => Opcode::XORAIXD(d),
        Opcode::CPAIYD(d) => Opcode::CPAIXD(d),
        Opcode::INCIYD(d) => Opcode::INCIXD(d),
        Opcode::DECIYD(d) => Opcode::DECIXD(d),
        _ => op,
    }
}

/// The bytes after the prefix 0xED of an extended instruction; `None` for any
/// other instruction.
pub open spec fn extended_encoding(op: Opcode) -> Option<Seq<u8>> {
    match op {
        Opcode::LDAI => Some(seq![0x57u8]),
        Opcode::LDAR => Some(seq![0x5Fu8]),
        Opcode::LDIA => Some(seq![0x47u8]),
        Opcode::LDRA => Some(seq![0x4Fu8]),
        Opcode::LDDDNN2(dd, nn) => bytes(with_pair(0x4B, pair_selector(dd)), operand16(nn)),
        Opcode::LDNNDD(nn, dd) => bytes(with_pair(0x43, pair_selector(dd)), operand16(nn)),
        Opcode::LDI => Some(seq![0xA0u8]),
        Opcode::LDIR => Some(seq![0xB0u8]),
        Opcode::LDD => Some(seq![0xA8u8]),
        Opcode::LDDR => Some(seq![0xB8u8]),
        Opcode::CPI => Some(seq![0xA1u8]),
        Opcode::CPIR => Some(seq![0xB1u8]),
        Opcode::CPD => Some(seq![0xA9u8]),
        Opcode::CPDR => Some(seq![0xB9u8]),
        _ => None,
    }
}

/// The bytes of an instruction without a prefix; `None` for any other
/// instruction.
pub open spec fn unprefixed_encoding(op: Opcode) -> Option<Seq<u8>> {
    match op {
        Opcode::LDRR(r1, r2) => bytes(opcode_byte(0x40, selector(r1), selector(r2)), seq![]),
        Opcode::LDRN(r, n) => bytes(with_target(0x06, r), seq![n]),
        Opcode::LDRHL(r) => bytes(with_target(0x46, r), seq![]),
        Opcode::LDHLR(r) => bytes(with_source(0x70, r), seq![]),
        Opcode::LDHLN(n) => Some(seq![0x36u8, n]),
        Opcode::LDABC => Some(seq![0x0Au8]),
        Opcode::LDADE => Some(seq![0x1Au8]),
        Opcode::LDANN(nn) => Some(seq![0x3Au8] + operand16(nn)),
        Opcode::LDBCA => Some(seq![0x02u8]),
        Opcode::LDDEA => Some(seq![0x12u8]),
        Opcode::LDNNA(nn) => Some(seq![0x32u8] + operand16(nn)),
        Opcode::LDDDNN(dd, nn) => bytes(with_pair(0x01, pair_selector(dd)), operand16(nn)),
        Opcode::LDHLNN(nn) => Some(seq![0x2Au8] + operand16(nn)),
        Opcode::LDNNHL(nn) => Some(seq![0x22u8] + operand16(nn)),
        Opcode::LDSPHL => Some(seq![0xF9u8]),
        Opcode::PUSHQQ(qq) => bytes(with_pair(0xC5, stack_pair_selector(qq)), seq![]),
        Opcode::POPQQ(qq) => bytes(with_pair(0xC1, stack_pair_selector(qq)), seq![]),
        Opcode::EXDEHL => Some(seq![0xEBu8]),
        Opcode::EXAFAF2 => Some(seq![0x08u8]),
        Opcode::EXX => Some(seq![0xD9u8]),
        Opcode::EXSPHL => Some(seq![0xE3u8]),
        Opcode::ADDAR(r) => bytes(with_source(0x80, r), seq![]),
        Opcode::ADDAN(n) => Some(seq![0xC6u8, n]),
        Opcode::ADDAHL => Some(seq![0x86u8]),
        Opcode::SUBAR(r) => bytes(with_source(0x90, r), seq![]),
        Opcode::SUBAN(n) => Some(seq![0xD6u8, n]),
        Opcode::SUBAHL => Some(seq![0x96u8]),
        Opcode::SBCAR(r) => bytes(with_source(0x98, r), seq![]),
        Opcode::SBCAN(n) => Some(seq![0xDEu8, n]),
        Opcode::SBCAHL => Some(seq![0x9Eu8]),
        Opcode::ANDAR(r) => bytes(with_source(0xA0, r), seq![]),
        Opcode::ANDAN(n) => Some(seq![0xE6u8, n]),
        Opcode::ANDAHL => Some(seq![0xA6u8]),
        Opcode::XORAR(r) => bytes(with_source(0xA8, r), seq![]),
        Opcode::XORAN(n) => Some(seq![0xEEu8, n]),
        Opcode::XORAHL => Some(seq![0xAEu8]),
        Opcode::ORAR(r) => bytes(with_source(0xB0, r), seq![]),
        Opcode::ORAN(n) => Some(seq![0xF6u8, n]),
        Opcode::ORAHL => Some(seq![0xB6u8]),
        Opcode::CPAR(r) => bytes(with_source(0xB8, r), seq![]),
        Opcode::CPAN(n) => Some(seq![0xFEu8, n]),
        Opcode::CPAHL => Some(seq![0xBEu8]),
        Opcode::INCR(r) => bytes(with_target(0x04, r), seq![]),
        Opcode::INCHL => Some(seq![0x34u8]),
        Opcode::DECR(r) => bytes(with_target(0x05, r), seq![]),
        Opcode::DECHL => Some(seq![0x35u8]),
        Opcode::NOP => Some(seq![0x00u8]),
        Opcode::HALT => Some(seq![0x76u8]),
        _ => None,
    }
}

/// The bytes that stand for `op` in a program; `None` for an instruction that
/// the decoder does not know, or whose operands no encoding can select.
pub open spec fn encoding(op: Opcode) -> Option<Seq<u8>> {
    if unprefixed_encoding(op) is Some {
        unprefixed_encoding(op)
    } else if extended_encoding(op) is Some {
        prefixed(0xED, extended_encoding(op))
    } else if indexed_encoding(op) is Some {
        prefixed(0xDD, indexed_encoding(op))
    } else {
        prefixed(0xFD, indexed_encoding(ix_twin(op)))
    }
}

} // verus!
