//! The machine itself: registers, memory, and the reads and writes on them
//! that have an effect of their own.

use vstd::prelude::*;
use crate::bits::{
    high_byte, lemma_byte_to_high, lemma_word_split, low_byte, word, wrap16,
};
use crate::cpu::flags::{assign_flag, test_flag, Flag};
use crate::cpu::state::{displaced, MachineState};
use crate::ops::opcodes::{BigReg, Reg};

verus! {

/// The whole addressable memory.
pub type Memory = [u8; 65536];

/// A Z80: its register file, its dedicated registers, its memory and its two
/// interrupt flip-flops. Every combination of field values is a valid machine.
pub struct Z80 {
    /// The sixteen single-byte registers, at the slots given by `Reg::slot`.
    pub regs: [u8; 16],
    pub i: u8,
    pub r: u8,
    pub ix: u16,
    pub iy: u16,
    pub sp: u16,
    pub pc: u16,
    pub mem: Memory,
    pub iff1: bool,
    pub iff2: bool,
}

impl View for Z80 {
    type V = MachineState;

    open spec fn view(&self) -> MachineState {
        MachineState {
            regs: self.regs@,
            i: self.i,
            r: self.r,
            ix: self.ix,
            iy: self.iy,
            sp: self.sp,
            pc: self.pc,
            mem: self.mem@,
            iff1: self.iff1,
            iff2: self.iff2,
        }
    }
}

/// The address `displacement` bytes away from `base`, wrapping at both ends of
/// the address space.
pub fn displaced_address(base: u16, displacement: i8) -> (address: u16)
    ensures
        address == displaced(base, displacement),
{
    base.wrapping_add_signed(displacement as i16)
}

impl Z80 {
    /// A machine in which everything is zero.
    pub fn new() -> (cpu: Z80)
        ensures
            cpu@ == MachineState::zeroed(),
    {
        let cpu = Z80 {
            regs: [0;16],
            i: 0,
            r: 0,
            ix: 0,
            iy: 0,
            sp: 0,
            pc: 0,
            mem: [0;65536],
            iff1: false,
            iff2: false,
        };
        assert(cpu@.regs =~= MachineState::zeroed().regs);
        assert(cpu@.mem =~= MachineState::zeroed().mem);
        cpu
    }

    /// Every machine is a well-formed state.
    pub proof fn lemma_view_wf(&self)
        ensures
            self@.wf(),
    {
    }

    /// The contents of register `r`.
    pub fn reg(&self, r: Reg) -> (value: u8)
        ensures
            value == self@.reg(r),
    {
        self.regs[r.slot()]
    }

    /// Puts `value` in register `r`.
    pub fn set_reg(&mut self, r: Reg, value: u8)
        ensures
            final(self)@ == old(self)@.with_reg(r, value),
    {
        self.regs[r.slot()] = value;
    }

    /// The byte at `address`.
    pub fn load(&self, address: u16) -> (value: u8)
        ensures
            value == self@.read(address),
    {
        self.mem[address as usize]
    }

    /// Puts `value` at `address`.
    pub fn store(&mut self, address: u16, value: u8)
        ensures
            final(self)@ == old(self)@.write(address, value),
    {
        self.mem[address as usize] = value;
    }

    /// Whether `flag` is set in F.
    pub fn flag(&self, flag: Flag) -> (value: bool)
        ensures
            value == self@.flag(flag),
    {
        test_flag(self.reg(Reg::F), flag)
    }

    /// Sets `flag` to `value` in F, leaving the rest of F as it is.
    pub fn set_flag(&mut self, flag: Flag, value: bool)
        ensures
            final(self)@ == old(self)@.with_flag(flag, value),
    {
        let f = self.reg(Reg::F);
        self.set_reg(Reg::F, assign_flag(f, flag, value));
    }

    /// Sets the carry flag to `value`.
    pub fn set_carry(&mut self, value: bool)
        ensures
            final(self)@ == old(self)@.with_flag(Flag::Carry, value),
    {
        self.set_flag(Flag::Carry, value);
    }

    /// Sets the add/subtract flag to `value`.
    pub fn set_add_subtract(&mut self, value: bool)
        ensures
            final(self)@ == old(self)@.with_flag(Flag::AddSubtract, value),
    {
        self.set_flag(Flag::AddSubtract, value);
    }

    /// Sets the parity/overflow flag to `value`.
    pub fn set_parity_overflow(&mut self, value: bool)
        ensures
            final(self)@ == old(self)@.with_flag(Flag::ParityOverflow, value),
    {
        self.set_flag(Flag::ParityOverflow, value);
    }

    /// Sets the half-carry flag to `value`.
    pub fn set_half_carry(&mut self, value: bool)
        ensures
            final(self)@ == old(self)@.with_flag(Flag::HalfCarry, value),
    {
        self.set_flag(Flag::HalfCarry, value);
    }

    /// Sets the zero flag to `value`.
    pub fn set_zero(&mut self, value: bool)
        ensures
            final(self)@ == old(self)@.with_flag(Flag::Zero, value),
    {
        self.set_flag(Flag::Zero, value);
    }

    /// Sets the sign flag to `value`.
    pub fn set_sign(&mut self, value: bool)
        ensures
            final(self)@ == old(self)@.with_flag(Flag::Sign, value),
    {
        self.set_flag(Flag::Sign, value);
    }

    /// The 16-bit value of a register pair, `reg1` holding the high byte.
    pub fn get_reg_pair(&self, reg1: Reg, reg2: Reg) -> (value: u16)
        ensures
            value == self@.pair(reg1, reg2),
    {
        let high = self.reg(reg1) as u16;
        let low = self.reg(reg2) as u16;
        proof {
            lemma_byte_to_high(high);
        }
        (high << 8) + low
    }

    /// The value of a 16-bit register.
    pub fn get_big_reg(&self, reg: BigReg) -> (value: u16)
        ensures
            value == self@.wide(reg),
    {
        match reg {
            BigReg::BC => self.get_reg_pair(Reg::B, Reg::C),
            BigReg::DE => self.get_reg_pair(Reg::D, Reg::E),
            BigReg::HL => self.get_reg_pair(Reg::H, Reg::L),
            BigReg::SP => self.sp,
            BigReg::IX => self.ix,
            BigReg::IY => self.iy,
            BigReg::AF => self.get_reg_pair(Reg::A, Reg::F),
        }
    }

    /// Splits `value` over a register pair: high byte to `reg1`, low byte to
    /// `reg2`.
    pub fn set_reg_pair(&mut self, reg1: Reg, reg2: Reg, value: u16)
        ensures
            final(self)@ == old(self)@.with_pair(reg1, reg2, value),
    {
        proof {
            lemma_word_split(value);
        }
        self.set_reg(reg1, (value >> 8) as u8);
        self.set_reg(reg2, (value & 0x00FF) as u8);
    }

    /// Puts `value` in a 16-bit register.
    pub fn set_big_reg(&mut self, reg: BigReg, value: u16)
        ensures
            final(self)@ == old(self)@.with_wide(reg, value),
    {
        match reg {
            BigReg::BC => self.set_reg_pair(Reg::B, Reg::C, value),
            BigReg::DE => self.set_reg_pair(Reg::D, Reg::E, value),
            BigReg::HL => self.set_reg_pair(Reg::H, Reg::L, value),
            BigReg::SP => self.sp = value,
            BigReg::IX => self.ix = value,
            BigReg::IY => self.iy = value,
            BigReg::AF => self.set_reg_pair(Reg::A, Reg::F, value),
        };
    }

    /// The two bytes at `address` and after it, read high byte first: the
    /// byte-swapped form of the value stored there.
    pub fn get_mem_u16(&self, address: u16) -> (value: u16)
        ensures
            value == word(self@.read(address), self@.read(wrap16(address + 1))),
    {
        let high = self.load(address) as u16;
        let low = self.load(address.wrapping_add(1)) as u16;
        proof {
            lemma_byte_to_high(high);
        }
        (high << 8) + low
    }

    /// Writes `value` at `address` high byte first.
    pub fn set_mem_u16(&mut self, address: u16, value: u16)
        ensures
            final(self)@ == old(self)@.write(address, high_byte(value)).write(
                wrap16(address + 1),
                low_byte(value),
            ),
    {
        proof {
            lemma_word_split(value);
        }
        self.store(address, (value >> 8) as u8);
        self.store(address.wrapping_add(1), (value & 0x00FF) as u8);
    }

    /// `value` with its two bytes exchanged.
    pub fn flip_u16(&self, value: u16) -> (flipped: u16)
        ensures
            flipped == word(low_byte(value), high_byte(value)),
    {
        proof {
            lemma_word_split(value);
        }
        (value >> 8) + ((value & 0x00FF) << 8)
    }

    /// The 16-bit value stored at `address`, low byte first.
    pub fn load_word(&self, address: u16) -> (value: u16)
        ensures
            value == self@.read_word(address),
    {
        let swapped = self.get_mem_u16(address);
        self.flip_u16(swapped)
    }

    /// Stores `value` at `address`, low byte first.
    pub fn store_word(&mut self, address: u16, value: u16)
        ensures
            final(self)@ == old(self)@.write_word(address, value),
    {
        let swapped = self.flip_u16(value);
        self.set_mem_u16(address, swapped);
    }

    /// Pushes `value`: SP goes down by two, then the value is stored at the new
    /// SP, low byte at the lower address.
    pub fn push(&mut self, value: u16)
        ensures
            final(self)@ == old(self)@.push(value),
    {
        self.sp = self.sp.wrapping_sub(2);
        let address = self.sp;
        self.store_word(address, value);
    }

    /// Pops a value: reads the 16-bit value at SP, then SP goes up by two.
    pub fn pop(&mut self) -> (value: u16)
        ensures
            value == old(self)@.top(),
            final(self)@ == old(self)@.pop(),
    {
        let address = self.sp;
        let value = self.load_word(address);
        self.sp = self.sp.wrapping_add(2);
        value
    }
}

} // verus!
