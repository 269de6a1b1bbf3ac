//! The execution engine: applies one instruction at a time to a machine.

use vstd::prelude::*;
use crate::bits::lemma_sign_bit;
use crate::cpu::alu::{
    add8, conjunction, decrement, difference, disjunction, exclusive, increment, logic8, sub8, sum,
    Outcome,
};
use crate::cpu::flags::Flag;
use crate::cpu::machine::{displaced_address, Z80};
use crate::cpu::state::displaced;
use crate::ops::family::Family;
use crate::ops::opcodes::{BigReg, Opcode, Reg};

verus! {

impl Z80 {
    /// The address `displacement` bytes away from IX.
    pub fn ix_address(&self, displacement: i8) -> (address: u16)
        ensures
            address == displaced(self@.ix, displacement),
    {
        displaced_address(self.ix, displacement)
    }

    /// The address `displacement` bytes away from IY.
    pub fn iy_address(&self, displacement: i8) -> (address: u16)
        ensures
            address == displaced(self@.iy, displacement),
    {
        displaced_address(self.iy, displacement)
    }

    /// Puts the conditions of `o` in F, but for the carry.
    pub fn set_conditions_keeping_carry(&mut self, o: Outcome)
        ensures
            final(self)@ == old(self)@.with_conditions_keeping_carry(o),
    {
        self.set_sign(o.sign);
        self.set_zero(o.zero);
        self.set_half_carry(o.half_carry);
        self.set_parity_overflow(o.parity_overflow);
        self.set_add_subtract(o.add_subtract);
    }

    /// Puts all six conditions of `o` in F.
    pub fn set_conditions(&mut self, o: Outcome)
        ensures
            final(self)@ == old(self)@.with_conditions(o),
    {
        self.set_conditions_keeping_carry(o);
        self.set_carry(o.carry);
    }

    /// Puts the value of `o` in the accumulator and its conditions in F.
    pub fn accumulate(&mut self, o: Outcome)
        ensures
            final(self)@ == old(self)@.accumulate(o),
    {
        self.set_reg(Reg::A, o.value);
        self.set_conditions(o);
    }

    /// Loads the accumulator with `value`, which comes from I or R, and sets
    /// the flags as those two loads do.
    pub fn load_a_special(&mut self, value: u8)
        ensures
            final(self)@ == old(self)@.load_a_special(value),
    {
        let iff2 = self.iff2;
        proof {
            lemma_sign_bit(value);
        }
        self.set_reg(Reg::A, value);
        self.set_sign(value & 0b1000_0000 != 0);
        self.set_zero(value == 0);
        self.set_half_carry(false);
        self.set_add_subtract(false);
        self.set_parity_overflow(iff2);
    }

    /// Exchanges the contents of registers `a` and `b`.
    pub fn exchange(&mut self, a: Reg, b: Reg)
        ensures
            final(self)@ == old(self)@.swap(a, b),
    {
        let in_a = self.reg(a);
        let in_b = self.reg(b);
        self.set_reg(a, in_b);
        self.set_reg(b, in_a);
    }

    /// Adds `value` to the accumulator.
    pub fn add_a(&mut self, value: u8)
        ensures
            final(self)@ == old(self)@.accumulate(sum(old(self)@.reg(Reg::A), value, false)),
    {
        let o = add8(self.reg(Reg::A), value, false);
        self.accumulate(o);
    }

    /// Subtracts `value` and, if `carry` is set, one more from the
    /// accumulator.
    pub fn sub_a(&mut self, value: u8, carry: bool)
        ensures
            final(self)@ == old(self)@.accumulate(difference(old(self)@.reg(Reg::A), value, carry)),
    {
        let o = sub8(self.reg(Reg::A), value, carry);
        self.accumulate(o);
    }

    /// Compares the accumulator with `value`: the flags of a subtraction, the
    /// accumulator unchanged.
    pub fn compare_a(&mut self, value: u8)
        ensures
            final(self)@ == old(self)@.with_conditions(
                difference(old(self)@.reg(Reg::A), value, false),
            ),
    {
        let o = sub8(self.reg(Reg::A), value, false);
        self.set_conditions(o);
    }

    /// The accumulator becomes its conjunction with `value`.
    pub fn and_a(&mut self, value: u8)
        ensures
            final(self)@ == old(self)@.accumulate(conjunction(old(self)@.reg(Reg::A), value)),
    {
        let o = logic8(self.reg(Reg::A) & value, true);
        self.accumulate(o);
    }

    /// The accumulator becomes its disjunction with `value`.
    pub fn or_a(&mut self, value: u8)
        ensures
            final(self)@ == old(self)@.accumulate(disjunction(old(self)@.reg(Reg::A), value)),
    {
        let o = logic8(self.reg(Reg::A) | value, false);
        self.accumulate(o);
    }

    /// The accumulator becomes its exclusive disjunction with `value`.
    pub fn xor_a(&mut self, value: u8)
        ensures
            final(self)@ == old(self)@.accumulate(exclusive(old(self)@.reg(Reg::A), value)),
    {
        let o = logic8(self.reg(Reg::A) ^ value, false);
        self.accumulate(o);
    }

    /// Increments (`up`) or decrements register `r` and sets the flags, but
    /// for the carry.
    pub fn count_reg(&mut self, r: Reg, up: bool)
        ensures
            final(self)@ == old(self)@.count_reg(
                r,
                if up {
                    increment(old(self)@.reg(r))
                } else {
                    decrement(old(self)@.reg(r))
                },
            ),
    {
        let value = self.reg(r);
        let o = if up {
            add8(value, 1, false)
        } else {
            sub8(value, 1, false)
        };
        self.set_reg(r, o.value);
        self.set_conditions_keeping_carry(o);
    }

    /// Increments (`up`) or decrements the byte at `address` and sets the
    /// flags, but for the carry.
    pub fn count_at(&mut self, address: u16, up: bool)
        ensures
            final(self)@ == old(self)@.count_mem(
                address,
                if up {
                    increment(old(self)@.read(address))
                } else {
                    decrement(old(self)@.read(address))
                },
            ),
    {
        let value = self.load(address);
        let o = if up {
            add8(value, 1, false)
        } else {
            sub8(value, 1, false)
        };
        self.store(address, o.value);
        self.set_conditions_keeping_carry(o);
    }

    /// Exchanges `value` with the 16-bit value on top of the stack and
    /// returns what was there.
    pub fn exchange_top(&mut self, value: u16) -> (top: u16)
        ensures
            top == old(self)@.top(),
            final(self)@ == old(self)@.exchange_top(value),
    {
        let address = self.sp;
        let top = self.load_word(address);
        self.store_word(address, value);
        top
    }

    /// Executes an 8-bit load.
    fn run_load8(&mut self, op: Opcode)
        requires
            op.family() == Family::Load8,
        ensures
            final(self)@ == old(self)@.step(op),
    {
        match op {
            Opcode::LDRR(reg1, reg2) => {
                let value = self.reg(reg2);
                self.set_reg(reg1, value);
            },
            Opcode::LDRN(reg1, value) => self.set_reg(reg1, value),
            Opcode::LDRHL(reg1) => {
                let value = self.load(self.get_reg_pair(Reg::H, Reg::L));
                self.set_reg(reg1, value);
            },
            Opcode::LDRIXD(reg1, displacement) => {
                let value = self.load(self.ix_address(displacement));
                self.set_reg(reg1, value);
            },
            Opcode::LDRIYD(reg1, displacement) => {
                let value = self.load(self.iy_address(displacement));
                self.set_reg(reg1, value);
            },
            Opcode::LDHLR(reg1) => {
                let address = self.get_reg_pair(Reg::H, Reg::L);
                let value = self.reg(reg1);
                self.store(address, value);
            },
            Opcode::LDIXDR(displacement, reg1) => {
                let address = self.ix_address(displacement);
                let value = self.reg(reg1);
                self.store(address, value);
            },
            Opcode::LDIYDR(displacement, reg1) => {
                let address = self.iy_address(displacement);
                let value = self.reg(reg1);
                self.store(address, value);
            },
            Opcode::LDHLN(value) => {
                let address = self.get_reg_pair(Reg::H, Reg::L);
                self.store(address, value);
            },
            Opcode::LDIXDN(displacement, value) => {
                let address = self.ix_address(displacement);
                self.store(address, value);
            },
            Opcode::LDIYDN(displacement, value) => {
                let address = self.iy_address(displacement);
                self.store(address, value);
            },
            Opcode::LDABC => {
                let value = self.load(self.get_reg_pair(Reg::B, Reg::C));
                self.set_reg(Reg::A, value);
            },
            Opcode::LDADE => {
                let value = self.load(self.get_reg_pair(Reg::D, Reg::E));
                self.set_reg(Reg::A, value);
            },
            Opcode::LDANN(address) => {
                let value = self.load(address);
                self.set_reg(Reg::A, value);
            },
            Opcode::LDBCA => {
                let address = self.get_reg_pair(Reg::B, Reg::C);
                let value = self.reg(Reg::A);
                self.store(address, value);
            },
            Opcode::LDDEA => {
                let address = self.get_reg_pair(Reg::D, Reg::E);
                let value = self.reg(Reg::A);
                self.store(address, value);
            },
            Opcode::LDNNA(address) => {
                let value = self.reg(Reg::A);
                self.store(address, value);
            },
            Opcode::LDAI => {
                let value = self.i;
                self.load_a_special(value);
            },
            Opcode::LDAR => {
                let value = self.r;
                self.load_a_special(value);
            },
            Opcode::LDIA => self.i = self.reg(Reg::A),
            Opcode::LDRA => self.r = self.reg(Reg::A),
            _ => unreached(),
        }
    }

    /// Executes a 16-bit load.
    fn run_load16(&mut self, op: Opcode)
        requires
            op.family() == Family::Load16,
        ensures
            final(self)@ == old(self)@.step(op),
    {
        match op {
            Opcode::LDDDNN(big_reg, value) => self.set_big_reg(big_reg, value),
            Opcode::LDIXNN(value) => self.ix = value,
            Opcode::LDIYNN(value) => self.iy = value,
            Opcode::LDHLNN(address) => {
                let value = self.load_word(address);
                self.set_reg_pair(Reg::H, Reg::L, value);
            },
            Opcode::LDDDNN2(big_reg, address) => {
                let value = self.load_word(address);
                self.set_big_reg(big_reg, value);
            },
            Opcode::LDIXNN2(address) => self.ix = self.load_word(address),
            Opcode::LDIYNN2(address) => self.iy = self.load_word(address),
            Opcode::LDNNHL(address) => {
                let value = self.get_reg_pair(Reg::H, Reg::L);
                self.store_word(address, value);
            },
            Opcode::LDNNDD(address, big_reg) => {
                let value = self.get_big_reg(big_reg);
                self.store_word(address, value);
            },
            Opcode::LDNNIX(address) => {
                let value = self.ix;
                self.store_word(address, value);
            },
            Opcode::LDNNIY(address) => {
                let value = self.iy;
                self.store_word(address, value);
            },
            Opcode::LDSPHL => self.sp = self.get_reg_pair(Reg::H, Reg::L),
            Opcode::LDSPIX => self.sp = self.ix,
            Opcode::LDSPIY => self.sp = self.iy,
            _ => unreached(),
        }
    }

    /// Executes a push or a pop.
    fn run_stack(&mut self, op: Opcode)
        requires
            op.family() == Family::Stack,
        ensures
            final(self)@ == old(self)@.step(op),
    {
        match op {
            Opcode::PUSHQQ(big_reg) => {
                let value = self.get_big_reg(big_reg);
                self.push(value);
            },
            Opcode::PUSHIX => {
                let value = self.ix;
                self.push(value);
            },
            Opcode::PUSHIY => {
                let value = self.iy;
                self.push(value);
            },
            Opcode::POPQQ(big_reg) => {
                let value = self.pop();
                self.set_big_reg(big_reg, value);
            },
            Opcode::POPIX => self.ix = self.pop(),
            Opcode::POPIY => self.iy = self.pop(),
            _ => unreached(),
        }
    }

    /// Executes an exchange.
    fn run_exchange(&mut self, op: Opcode)
        requires
            op.family() == Family::Exchange,
        ensures
            final(self)@ == old(self)@.step(op),
    {
        match op {
            Opcode::EXDEHL => {
                self.exchange(Reg::D, Reg::H);
                self.exchange(Reg::E, Reg::L);
            },
            Opcode::EXAFAF2 => {
                self.exchange(Reg::A, Reg::A2);
                self.exchange(Reg::F, Reg::F2);
            },
            Opcode::EXX => {
                self.exchange(Reg::B, Reg::B2);
                self.exchange(Reg::C, Reg::C2);
                self.exchange(Reg::D, Reg::D2);
                self.exchange(Reg::E, Reg::E2);
                self.exchange(Reg::H, Reg::H2);
                self.exchange(Reg::L, Reg::L2);
            },
            Opcode::EXSPHL => {
                let value = self.get_big_reg(BigReg::HL);
                let top = self.exchange_top(value);
                self.set_big_reg(BigReg::HL, top);
            },
            Opcode::EXSPIX => {
                let value = self.ix;
                self.ix = self.exchange_top(value);
            },
            Opcode::EXSPIY => {
                let value = self.iy;
                self.iy = self.exchange_top(value);
            },
            _ => unreached(),
        }
    }

    /// Executes a block move or a block search.
    fn run_block(&mut self, op: Opcode)
        requires
            op.family() == Family::Block,
        ensures
            final(self)@ == old(self)@.step(op),
    {
        match op {
            Opcode::LDI => self.move_step(true),
            Opcode::LDIR => self.block_move(true),
            Opcode::LDD => self.move_step(false),
            Opcode::LDDR => self.block_move(false),
            Opcode::CPI => self.search_step(true),
            Opcode::CPIR => self.block_search(true),
            Opcode::CPD => self.search_step(false),
            Opcode::CPDR => self.block_search(false),
            _ => unreached(),
        }
    }

    /// Executes an 8-bit arithmetic or logic instruction.
    fn run_arithmetic(&mut self, op: Opcode)
        requires
            op.family() == Family::Arithmetic,
        ensures
            final(self)@ == old(self)@.step(op),
    {
        match op {
            Opcode::ADDAR(reg) => {
                self.add_a(self.reg(reg));
            },
            Opcode::ADDAN(value) => {
                self.add_a(value);
            },
            Opcode::ADDAHL => {
                let value = self.load(self.get_reg_pair(Reg::H, Reg::L));
                self.add_a(value);
            },
            Opcode::ADDAIXD(displacement) => {
                let value = self.load(self.ix_address(displacement));
                self.add_a(value);
            },
            Opcode::ADDAIYD(displacement) => {
                let value = self.load(self.iy_address(displacement));
                self.add_a(value);
            },
            Opcode::SUBAR(reg) => {
                self.sub_a(self.reg(reg), false);
            },
            Opcode::SUBAN(value) => {
                self.sub_a(value, false);
            },
            Opcode::SUBAHL => {
                let value = self.load(self.get_reg_pair(Reg::H, Reg::L));
                self.sub_a(value, false);
            },
            Opcode::SUBAIXD(displacement) => {
                let value = self.load(self.ix_address(displacement));
                self.sub_a(value, false);
            },
            Opcode::SUBAIYD(displacement) => {
                let value = self.load(self.iy_address(displacement));
                self.sub_a(value, false);
            },
            Opcode::SBCAR(reg) => {
                self.sub_a(self.reg(reg), self.flag(Flag::Carry));
            },
            Opcode::SBCAN(value) => {
                self.sub_a(value, self.flag(Flag::Carry));
            },
            Opcode::SBCAHL => {
                let value = self.load(self.get_reg_pair(Reg::H, Reg::L));
                self.sub_a(value, self.flag(Flag::Carry));
            },
            Opcode::SBCAIXD(displacement) => {
                let value = self.load(self.ix_address(displacement));
                self.sub_a(value, self.flag(Flag::Carry));
            },
            Opcode::SBCAIYD(displacement) => {
                let value = self.load(self.iy_address(displacement));
                self.sub_a(value, self.flag(Flag::Carry));
            },
            Opcode::ANDAR(reg) => {
                self.and_a(self.reg(reg));
            },
            Opcode::ANDAN(value) => {
                self.and_a(value);
            },
            Opcode::ANDAHL => {
                let value = self.load(self.get_reg_pair(Reg::H, Reg::L));
                self.and_a(value);
            },
            Opcode::ANDAIXD(displacement) => {
                let value = self.load(self.ix_address(displacement));
                self.and_a(value);
            },
            Opcode::ANDAIYD(displacement) => {
                let value = self.load(self.iy_address(displacement));
                self.and_a(value);
            },
            Opcode::ORAR(reg) => {
                self.or_a(self.reg(reg));
            },
            Opcode::ORAN(value) => {
                self.or_a(value);
            },
            Opcode::ORAHL => {
                let value = self.load(self.get_reg_pair(Reg::H, Reg::L));
                self.or_a(value);
            },
            Opcode::ORAIXD(displacement) => {
                let value = self.load(self.ix_address(displacement));
                self.or_a(value);
            },
            Opcode::ORAIYD(displacement) => {
                let value = self.load(self.iy_address(displacement));
                self.or_a(value);
            },
            Opcode::XORAR(reg) => {
                self.xor_a(self.reg(reg));
            },
            Opcode::XORAN(value) => {
                self.xor_a(value);
            },
            Opcode::XORAHL => {
                let value = self.load(self.get_reg_pair(Reg::H, Reg::L));
                self.xor_a(value);
            },
            Opcode::XORAIXD(displacement) => {
                let value = self.load(self.ix_address(displacement));
                self.xor_a(value);
            },
            Opcode::XORAIYD(displacement) => {
                let value = self.load(self.iy_address(displacement));
                self.xor_a(value);
            },
            Opcode::CPAR(reg) => {
                self.compare_a(self.reg(reg));
            },
            Opcode::CPAN(value) => {
                self.compare_a(value);
            },
            Opcode::CPAHL => {
                let value = self.load(self.get_reg_pair(Reg::H, Reg::L));
                self.compare_a(value);
            },
            Opcode::CPAIXD(displacement) => {
                let value = self.load(self.ix_address(displacement));
                self.compare_a(value);
            },
            Opcode::CPAIYD(displacement) => {
                let value = self.load(self.iy_address(displacement));
                self.compare_a(value);
            },
            Opcode::INCR(reg) => {
                self.count_reg(reg, true);
            },
            Opcode::INCHL => {
                let address = self.get_reg_pair(Reg::H, Reg::L);
                self.count_at(address, true);
            },
            Opcode::INCIXD(displacement) => {
                let address = self.ix_address(displacement);
                self.count_at(address, true);
            },
            Opcode::INCIYD(displacement) => {
                let address = self.iy_address(displacement);
                self.count_at(address, true);
            },
            Opcode::DECR(reg) => {
                self.count_reg(reg, false);
            },
            Opcode::DECHL => {
                let address = self.get_reg_pair(Reg::H, Reg::L);
                self.count_at(address, false);
            },
            Opcode::DECIXD(displacement) => {
                let address = self.ix_address(displacement);
                self.count_at(address, false);
            },
            Opcode::DECIYD(displacement) => {
                let address = self.iy_address(displacement);
                self.count_at(address, false);
            },
            _ => unreached(),
        }
    }

    /// Executes one instruction. An instruction that is not implemented
    /// changes nothing.
    pub fn run_op(&mut self, op: Opcode)
        ensures
            final(self)@ == old(self)@.step(op),
    {
        match op.classify() {
            Family::Load8 => self.run_load8(op),
            Family::Load16 => self.run_load16(op),
            Family::Stack => self.run_stack(op),
            Family::Exchange => self.run_exchange(op),
            Family::Block => self.run_block(op),
            Family::Arithmetic => self.run_arithmetic(op),
            Family::Idle | Family::Pending => {},
        }
    }
}

} // verus!
