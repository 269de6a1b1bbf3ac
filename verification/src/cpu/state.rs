//! The mathematical model of the machine: what a state is, and the basic
//! reads and writes that every instruction is described with.

use vstd::prelude::*;
use crate::bits::{high_byte, low_byte, word, wrap16};
use crate::cpu::flags::{flag_assign, flag_is_set, Flag};
use crate::ops::opcodes::{BigReg, Reg};

verus! {

/// The number of single-byte registers.
pub const REGISTER_COUNT: usize = 16;

/// The number of addressable bytes.
pub const MEMORY_SIZE: usize = 65536;

/// The address `displacement` bytes away from `base`, wrapping at both ends of
/// the address space.
pub open spec fn displaced(base: u16, displacement: i8) -> u16 {
    wrap16(base + displacement)
}

/// A machine state as a mathematical value.
#[verifier::ext_equal]
pub struct MachineState {
    /// The register file, indexed by `Reg::index`.
    pub regs: Seq<u8>,
    /// The interrupt vector register.
    pub i: u8,
    /// The memory refresh register.
    pub r: u8,
    pub ix: u16,
    pub iy: u16,
    pub sp: u16,
    pub pc: u16,
    /// The memory, indexed by address.
    pub mem: Seq<u8>,
    pub iff1: bool,
    pub iff2: bool,
}

impl MachineState {
    /// A state has sixteen registers and 65536 bytes of memory.
    pub open spec fn wf(self) -> bool {
        &&& self.regs.len() == REGISTER_COUNT
        &&& self.mem.len() == MEMORY_SIZE
    }

    /// The state in which every register, every byte of memory and both
    /// interrupt flip-flops are zero.
    pub open spec fn zeroed() -> MachineState {
        MachineState {
            regs: Seq::new(REGISTER_COUNT as nat, |k: int| 0u8),
            i: 0,
            r: 0,
            ix: 0,
            iy: 0,
            sp: 0,
            pc: 0,
            mem: Seq::new(MEMORY_SIZE as nat, |k: int| 0u8),
            iff1: false,
            iff2: false,
        }
    }

    /// The contents of register `r`.
    pub open spec fn reg(self, r: Reg) -> u8 {
        self.regs[r.index()]
    }

    /// This state with `value` in register `r`.
    pub open spec fn with_reg(self, r: Reg, value: u8) -> MachineState {
        MachineState { regs: self.regs.update(r.index(), value), ..self }
    }

    /// The byte at `address`.
    pub open spec fn read(self, address: u16) -> u8 {
        self.mem[address as int]
    }

    /// This state with `value` at `address`.
    pub open spec fn write(self, address: u16, value: u8) -> MachineState {
        MachineState { mem: self.mem.update(address as int, value), ..self }
    }

    /// The 16-bit value of the pair whose high byte is in `high` and whose low
    /// byte is in `low`.
    pub open spec fn pair(self, high: Reg, low: Reg) -> u16 {
        word(self.reg(high), self.reg(low))
    }

    /// This state with `value` split over the pair: its high byte in `high`,
    /// its low byte in `low`.
    pub open spec fn with_pair(self, high: Reg, low: Reg, value: u16) -> MachineState {
        self.with_reg(high, high_byte(value)).with_reg(low, low_byte(value))
    }

    /// The value of a 16-bit register.
    pub open spec fn wide(self, r: BigReg) -> u16 {
        match r {
            BigReg::BC => self.pair(Reg::B, Reg::C),
            BigReg::DE => self.pair(Reg::D, Reg::E),
            BigReg::HL => self.pair(Reg::H, Reg::L),
            BigReg::SP => self.sp,
            BigReg::IX => self.ix,
            BigReg::IY => self.iy,
            BigReg::AF => self.pair(Reg::A, Reg::F),
        }
    }

    /// This state with `value` in a 16-bit register.
    pub open spec fn with_wide(self, r: BigReg, value: u16) -> MachineState {
        match r {
            BigReg::BC => self.with_pair(Reg::B, Reg::C, value),
            BigReg::DE => self.with_pair(Reg::D, Reg::E, value),
            BigReg::HL => self.with_pair(Reg::H, Reg::L, value),
            BigReg::SP => MachineState { sp: value, ..self },
            BigReg::IX => MachineState { ix: value, ..self },
            BigReg::IY => MachineState { iy: value, ..self },
            BigReg::AF => self.with_pair(Reg::A, Reg::F, value),
        }
    }

    /// The 16-bit value stored at `address`: its low byte at `address`, its
    /// high byte at the next address.
    pub open spec fn read_word(self, address: u16) -> u16 {
        word(self.read(wrap16(address + 1)), self.read(address))
    }

    /// This state with `value` stored at `address`, low byte first.
    pub open spec fn write_word(self, address: u16, value: u16) -> MachineState {
        self.write(address, low_byte(value)).write(wrap16(address + 1), high_byte(value))
    }

    /// This state after pushing `value`: SP goes down by two, then the value is
    /// stored at the new SP.
    pub open spec fn push(self, value: u16) -> MachineState {
        let top = wrap16(self.sp - 2);
        MachineState { sp: top, ..self }.write_word(top, value)
    }

    /// The value on top of the stack.
    pub open spec fn top(self) -> u16 {
        self.read_word(self.sp)
    }

    /// This state after popping: SP goes up by two, memory is untouched.
    pub open spec fn pop(self) -> MachineState {
        MachineState { sp: wrap16(self.sp + 2), ..self }
    }

    /// Whether `flag` is set in F.
    pub open spec fn flag(self, flag: Flag) -> bool {
        flag_is_set(self.reg(Reg::F), flag)
    }

    /// This state with `flag` set to `value` in F.
    pub open spec fn with_flag(self, flag: Flag, value: bool) -> MachineState {
        self.with_reg(Reg::F, flag_assign(self.reg(Reg::F), flag, value))
    }

    /// This state with the contents of registers `a` and `b` exchanged.
    pub open spec fn swap(self, a: Reg, b: Reg) -> MachineState {
        self.with_reg(a, self.reg(b)).with_reg(b, self.reg(a))
    }
}

} // verus!
