//! What each instruction does to a machine state.
//!
//! `MachineState::step` defines the effect of every instruction, one case per
//! instruction that has one. The instructions that have none yet, those of
//! `Family::Pending`, leave the state as it is. The execution engine is proved
//! to do what `step` says.

use vstd::prelude::*;
use crate::bits::wrap16;
use crate::cpu::alu::{
    conjunction, decrement, difference, disjunction, exclusive, increment, sum, Outcome,
};
use crate::cpu::flags::Flag;
use crate::cpu::state::{displaced, MachineState};
use crate::ops::opcodes::{BigReg, Opcode, Reg};

verus! {

/// The address `count` bytes after `address` for a forward block instruction,
/// before it for a backward one.
#[verifier::opaque]
pub open spec fn advance(address: u16, forward: bool, count: int) -> u16 {
    if forward {
        wrap16(address + count)
    } else {
        wrap16(address - count)
    }
}

/// Advancing by no bytes leaves the address.
pub proof fn lemma_advance_none(address: u16, forward: bool)
    ensures
        advance(address, forward, 0) == address,
{
    reveal(advance);
}

/// Advancing by `first` and then by `second` is advancing by their sum.
pub proof fn lemma_advance_sum(address: u16, forward: bool, first: int, second: int)
    ensures
        advance(advance(address, forward, first), forward, second) == advance(
            address,
            forward,
            first + second,
        ),
{
    reveal(advance);
}

/// Advancing by `count` and then by one more is advancing by `count + 1`.
pub proof fn lemma_advance_again(address: u16, forward: bool, count: int)
    ensures
        advance(advance(address, forward, count), forward, 1) == advance(
            address,
            forward,
            count + 1,
        ),
{
    lemma_advance_sum(address, forward, count, 1);
}

/// The memory after copying `count` bytes one at a time, the first from
/// `source` to `target`, each next one from and to the following address in
/// the direction given. A byte written early is read again if the source
/// range later reaches it.
pub open spec fn copy_block(
    mem: Seq<u8>,
    source: u16,
    target: u16,
    count: nat,
    forward: bool,
) -> Seq<u8>
    decreases count,
{
    if count == 0 {
        mem
    } else {
        copy_block(
            mem.update(target as int, mem[source as int]),
            advance(source, forward, 1),
            advance(target, forward, 1),
            (count - 1) as nat,
            forward,
        )
    }
}

/// The number of bytes a block search examines: it starts at `start`, looks at
/// no more than `count` bytes, and stops with the first that equals `wanted`.
pub open spec fn search_length(
    mem: Seq<u8>,
    wanted: u8,
    start: u16,
    count: nat,
    forward: bool,
) -> nat
    decreases count,
{
    if count == 0 {
        0
    } else if mem[start as int] == wanted {
        1
    } else {
        1 + search_length(mem, wanted, advance(start, forward, 1), (count - 1) as nat, forward)
    }
}

impl MachineState {
    /// This state with all six conditions of `o` in F.
    pub open spec fn with_conditions(self, o: Outcome) -> MachineState {
        self.with_conditions_keeping_carry(o).with_flag(Flag::Carry, o.carry)
    }

    /// This state with the conditions of `o` in F, but for the carry, which
    /// stays as it is.
    pub open spec fn with_conditions_keeping_carry(self, o: Outcome) -> MachineState {
        self.with_flag(Flag::Sign, o.sign).with_flag(Flag::Zero, o.zero).with_flag(
            Flag::HalfCarry,
            o.half_carry,
        ).with_flag(Flag::ParityOverflow, o.parity_overflow).with_flag(
            Flag::AddSubtract,
            o.add_subtract,
        )
    }

    /// The accumulator takes the value of `o`, F its conditions.
    pub open spec fn accumulate(self, o: Outcome) -> MachineState {
        self.with_reg(Reg::A, o.value).with_conditions(o)
    }

    /// The accumulator takes `value`, which comes from I or R: sign and zero
    /// describe the value, half-carry and add/subtract are cleared, and
    /// parity/overflow becomes the second interrupt flip-flop.
    pub open spec fn load_a_special(self, value: u8) -> MachineState {
        self.with_reg(Reg::A, value).with_flag(Flag::Sign, value >= 128).with_flag(
            Flag::Zero,
            value == 0,
        ).with_flag(Flag::HalfCarry, false).with_flag(Flag::AddSubtract, false).with_flag(
            Flag::ParityOverflow,
            self.iff2,
        )
    }

    /// Register `r` is incremented or decremented to the value of `o`.
    pub open spec fn count_reg(self, r: Reg, o: Outcome) -> MachineState {
        self.with_reg(r, o.value).with_conditions_keeping_carry(o)
    }

    /// The byte at `address` is incremented or decremented to the value of `o`.
    pub open spec fn count_mem(self, address: u16, o: Outcome) -> MachineState {
        self.write(address, o.value).with_conditions_keeping_carry(o)
    }

    /// The 16-bit value on top of the stack and `value` change places; this is
    /// the state afterwards, without the register that `value` came from.
    pub open spec fn exchange_top(self, value: u16) -> MachineState {
        self.write_word(self.sp, value)
    }

    /// One byte moves from (HL) to (DE); HL and DE step in the direction
    /// given, BC goes down by one. Half-carry and add/subtract are cleared;
    /// parity/overflow tells whether BC is still not zero.
    pub open spec fn move_step(self, forward: bool) -> MachineState {
        let hl = self.wide(BigReg::HL);
        let de = self.wide(BigReg::DE);
        let left = wrap16(self.wide(BigReg::BC) - 1);
        self.write(de, self.read(hl)).with_wide(BigReg::HL, advance(hl, forward, 1)).with_wide(
            BigReg::DE,
            advance(de, forward, 1),
        ).with_wide(BigReg::BC, left).with_flag(Flag::HalfCarry, false).with_flag(
            Flag::ParityOverflow,
            left != 0,
        ).with_flag(Flag::AddSubtract, false)
    }

    /// BC bytes move from (HL) onwards to (DE) onwards; HL and DE end BC
    /// addresses further in the direction given and BC ends at zero. With BC
    /// zero nothing moves. Half-carry, parity/overflow and add/subtract are
    /// cleared.
    pub open spec fn block_move(self, forward: bool) -> MachineState {
        let hl = self.wide(BigReg::HL);
        let de = self.wide(BigReg::DE);
        let bc = self.wide(BigReg::BC);
        MachineState { mem: copy_block(self.mem, hl, de, bc as nat, forward), ..self }.with_wide(
            BigReg::HL,
            advance(hl, forward, bc as int),
        ).with_wide(BigReg::DE, advance(de, forward, bc as int)).with_wide(BigReg::BC, 0).with_flag(
            Flag::HalfCarry,
            false,
        ).with_flag(Flag::ParityOverflow, false).with_flag(Flag::AddSubtract, false)
    }

    /// The state after a search has examined `examined` bytes, at least one,
    /// the last of them at `last`: HL has passed over all of them, BC has
    /// gone down by their number, sign, zero and half-carry are those of A
    /// minus the last byte, parity/overflow tells whether BC is still not
    /// zero, and add/subtract is set. The carry stays as it is.
    #[verifier::opaque]
    pub open spec fn searched(self, forward: bool, examined: int) -> MachineState {
        let hl = self.wide(BigReg::HL);
        let left = wrap16(self.wide(BigReg::BC) - examined);
        let o = difference(self.reg(Reg::A), self.read(advance(hl, forward, examined - 1)), false);
        self.with_wide(BigReg::HL, advance(hl, forward, examined)).with_wide(
            BigReg::BC,
            left,
        ).with_flag(Flag::Sign, o.sign).with_flag(Flag::Zero, o.zero).with_flag(
            Flag::HalfCarry,
            o.half_carry,
        ).with_flag(Flag::ParityOverflow, left != 0).with_flag(Flag::AddSubtract, true)
    }

    /// A is compared with the byte at (HL); HL steps in the direction given
    /// and BC goes down by one.
    pub open spec fn search_step(self, forward: bool) -> MachineState {
        self.searched(forward, 1)
    }

    /// A is compared with the bytes from (HL) onwards until one equals it or
    /// BC bytes have been examined. With BC zero nothing is examined and
    /// nothing changes.
    pub open spec fn block_search(self, forward: bool) -> MachineState {
        let examined = search_length(
            self.mem,
            self.reg(Reg::A),
            self.wide(BigReg::HL),
            self.wide(BigReg::BC) as nat,
            forward,
        );
        if examined == 0 {
            self
        } else {
            self.searched(forward, examined as int)
        }
    }

    /// The state after executing `op` in this state.
    pub open spec fn step(self, op: Opcode) -> MachineState {
        let a = self.reg(Reg::A);
        let hl = self.wide(BigReg::HL);
        let carry = self.flag(Flag::Carry);
        match op {
            Opcode::LDRR(r1, r2) => self.with_reg(r1, self.reg(r2)),
            Opcode::LDRN(r, n) => self.with_reg(r, n),
            Opcode::LDRHL(r) => self.with_reg(r, self.read(hl)),
            Opcode::LDRIXD(r, d) => self.with_reg(r, self.read(displaced(self.ix, d))),
            Opcode::LDRIYD(r, d) => self.with_reg(r, self.read(displaced(self.iy, d))),
            Opcode::LDHLR(r) => self.write(hl, self.reg(r)),
            Opcode::LDIXDR(d, r) => self.write(displaced(self.ix, d), self.reg(r)),
            Opcode::LDIYDR(d, r) => self.write(displaced(self.iy, d), self.reg(r)),
            Opcode::LDHLN(n) => self.write(hl, n),
            Opcode::LDIXDN(d, n) => self.write(displaced(self.ix, d), n),
            Opcode::LDIYDN(d, n) => self.write(displaced(self.iy, d), n),
            Opcode::LDABC => self.with_reg(Reg::A, self.read(self.wide(BigReg::BC))),
            Opcode::LDADE => self.with_reg(Reg::A, self.read(self.wide(BigReg::DE))),
            Opcode::LDANN(nn) => self.with_reg(Reg::A, self.read(nn)),
            Opcode::LDBCA => self.write(self.wide(BigReg::BC), a),
            Opcode::LDDEA => self.write(self.wide(BigReg::DE), a),
            Opcode::LDNNA(nn) => self.write(nn, a),
            Opcode::LDAI => self.load_a_special(self.i),
            Opcode::LDAR => self.load_a_special(self.r),
            Opcode::LDIA => MachineState { i: a, ..self },
            Opcode::LDRA => MachineState { r: a, ..self },
            Opcode::LDDDNN(dd, nn) => self.with_wide(dd, nn),
            Opcode::LDIXNN(nn) => self.with_wide(BigReg::IX, nn),
            Opcode::LDIYNN(nn) => self.with_wide(BigReg::IY, nn),
            Opcode::LDHLNN(nn) => self.with_wide(BigReg::HL, self.read_word(nn)),
            Opcode::LDDDNN2(dd, nn) => self.with_wide(dd, self.read_word(nn)),
            Opcode::LDIXNN2(nn) => self.with_wide(BigReg::IX, self.read_word(nn)),
            Opcode::LDIYNN2(nn) => self.with_wide(BigReg::IY, self.read_word(nn)),
            Opcode::LDNNHL(nn) => self.write_word(nn, hl),
            Opcode::LDNNDD(nn, dd) => self.write_word(nn, self.wide(dd)),
            Opcode::LDNNIX(nn) => self.write_word(nn, self.ix),
            Opcode::LDNNIY(nn) => self.write_word(nn, self.iy),
            Opcode::LDSPHL => self.with_wide(BigReg::SP, hl),
            Opcode::LDSPIX => self.with_wide(BigReg::SP, self.ix),
            Opcode::LDSPIY => self.with_wide(BigReg::SP, self.iy),
            Opcode::PUSHQQ(qq) => self.push(self.wide(qq)),
            Opcode::PUSHIX => self.push(self.ix),
            Opcode::PUSHIY => self.push(self.iy),
            Opcode::POPQQ(qq) => self.pop().with_wide(qq, self.top()),
            Opcode::POPIX => self.pop().with_wide(BigReg::IX, self.top()),
            Opcode::POPIY => self.pop().with_wide(BigReg::IY, self.top()),
            Opcode::EXDEHL => self.swap(Reg::D, Reg::H).swap(Reg::E, Reg::L),
            Opcode::EXAFAF2 => self.swap(Reg::A, Reg::A2).swap(Reg::F, Reg::F2),
            Opcode::EXX => self.swap(Reg::B, Reg::B2).swap(Reg::C, Reg::C2).swap(
                Reg::D,
                Reg::D2,
            ).swap(Reg::E, Reg::E2).swap(Reg::H, Reg::H2).swap(Reg::L, Reg::L2),
            Opcode::EXSPHL => self.exchange_top(hl).with_wide(BigReg::HL, self.top()),
            Opcode::EXSPIX => self.exchange_top(self.ix).with_wide(BigReg::IX, self.top()),
            Opcode::EXSPIY => self.exchange_top(self.iy).with_wide(BigReg::IY, self.top()),
            Opcode::LDI => self.move_step(true),
            Opcode::LDIR => self.block_move(true),
            Opcode::LDD => self.move_step(false),
            Opcode::LDDR => self.block_move(false),
            Opcode::CPI => self.search_step(true),
            Opcode::CPIR => self.block_search(true),
            Opcode::CPD => self.search_step(false),
            Opcode::CPDR => self.block_search(false),
            Opcode::ADDAR(r) => self.accumulate(sum(a, self.reg(r), false)),
            Opcode::ADDAN(n) => self.accumulate(sum(a, n, false)),
            Opcode::ADDAHL => self.accumulate(sum(a, self.read(hl), false)),
            Opcode::ADDAIXD(d) => self.accumulate(sum(a, self.read(displaced(self.ix, d)), false)),
            Opcode::ADDAIYD(d) => self.accumulate(sum(a, self.read(displaced(self.iy, d)), false)),
            Opcode::SUBAR(r) => self.accumulate(difference(a, self.reg(r), false)),
            Opcode::SUBAN(n) => self.accumulate(difference(a, n, false)),
            Opcode::SUBAHL => self.accumulate(difference(a, self.read(hl), false)),
            Opcode::SUBAIXD(d) => self.accumulate(
                difference(a, self.read(displaced(self.ix, d)), false),
            ),
            Opcode::SUBAIYD(d) => self.accumulate(
                difference(a, self.read(displaced(self.iy, d)), false),
            ),
            Opcode::SBCAR(r) => self.accumulate(difference(a, self.reg(r), carry)),
            Opcode::SBCAN(n) => self.accumulate(difference(a, n, carry)),
            Opcode::SBCAHL => self.accumulate(difference(a, self.read(hl), carry)),
            Opcode::SBCAIXD(d) => self.accumulate(
                difference(a, self.read(displaced(self.ix, d)), carry),
            ),
            Opcode::SBCAIYD(d) => self.accumulate(
                difference(a, self.read(displaced(self.iy, d)), carry),
            ),
            Opcode::ANDAR(r) => self.accumulate(conjunction(a, self.reg(r))),
            Opcode::ANDAN(n) => self.accumulate(conjunction(a, n)),
            Opcode::ANDAHL => self.accumulate(conjunction(a, self.read(hl))),
            Opcode::ANDAIXD(d) => self.accumulate(
                conjunction(a, self.read(displaced(self.ix, d))),
            ),
            Opcode::ANDAIYD(d) => self.accumulate(
                conjunction(a, self.read(displaced(self.iy, d))),
            ),
            Opcode::ORAR(r) => self.accumulate(disjunction(a, self.reg(r))),
            Opcode::ORAN(n) => self.accumulate(disjunction(a, n)),
            Opcode::ORAHL => self.accumulate(disjunction(a, self.read(hl))),
            Opcode::ORAIXD(d) => self.accumulate(disjunction(a, self.read(displaced(self.ix, d)))),
            Opcode::ORAIYD(d) => self.accumulate(disjunction(a, self.read(displaced(self.iy, d)))),
            Opcode::XORAR(r) => self.accumulate(exclusive(a, self.reg(r))),
            Opcode::XORAN(n) => self.accumulate(exclusive(a, n)),
            Opcode::XORAHL => self.accumulate(exclusive(a, self.read(hl))),
            Opcode::XORAIXD(d) => self.accumulate(exclusive(a, self.read(displaced(self.ix, d)))),
            Opcode::XORAIYD(d) => self.accumulate(exclusive(a, self.read(displaced(self.iy, d)))),
            Opcode::CPAR(r) => self.with_conditions(difference(a, self.reg(r), false)),
            Opcode::CPAN(n) => self.with_conditions(difference(a, n, false)),
            Opcode::CPAHL => self.with_conditions(difference(a, self.read(hl), false)),
            Opcode::CPAIXD(d) => self.with_conditions(
                difference(a, self.read(displaced(self.ix, d)), false),
            ),
            Opcode::CPAIYD(d) => self.with_conditions(
                difference(a, self.read(displaced(self.iy, d)), false),
            ),
            Opcode::INCR(r) => self.count_reg(r, increment(self.reg(r))),
            Opcode::INCHL => self.count_mem(hl, increment(self.read(hl))),
            Opcode::INCIXD(d) => self.count_mem(
                displaced(self.ix, d),
                increment(self.read(displaced(self.ix, d))),
            ),
            Opcode::INCIYD(d) => self.count_mem(
                displaced(self.iy, d),
                increment(self.read(displaced(self.iy, d))),
            ),
            Opcode::DECR(r) => self.count_reg(r, decrement(self.reg(r))),
            Opcode::DECHL => self.count_mem(hl, decrement(self.read(hl))),
            Opcode::DECIXD(d) => self.count_mem(
                displaced(self.ix, d),
                decrement(self.read(displaced(self.ix, d))),
            ),
            Opcode::DECIYD(d) => self.count_mem(
                displaced(self.iy, d),
                decrement(self.read(displaced(self.iy, d))),
            ),
            _ => self,
        }
    }
}

} // verus!
