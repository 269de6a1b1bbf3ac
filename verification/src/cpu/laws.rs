//! Laws of the machine: what holds of every state, stated over the model
//! that the contracts of the execution engine use.

use vstd::prelude::*;
use crate::bits::{high_byte, low_byte, wrap16};
use crate::cpu::alu::Outcome;
use crate::cpu::flags::{lemma_flag_assign_then_test, lemma_flag_independence, Flag};
use crate::cpu::state::MachineState;
use crate::ops::opcodes::{BigReg, Opcode, Reg};

verus! {

/// A register holds what was last put in it, and putting a value in one
/// register leaves every other register, and everything else, as it was.
pub proof fn lemma_register_round_trip(s: MachineState, r: Reg, value: u8, other: Reg)
    requires
        s.wf(),
    ensures
        s.with_reg(r, value).wf(),
        s.with_reg(r, value).reg(r) == value,
        other != r ==> s.with_reg(r, value).reg(other) == s.reg(other),
        s.with_reg(r, value) == (MachineState { regs: s.with_reg(r, value).regs, ..s }),
{
}

/// Round trip of a register pair: a 16-bit value put in a pair is read back
/// from it, and its two bytes are the big-endian split of the value, the high
/// byte in the register named first.
pub proof fn lemma_pair_round_trip(s: MachineState, high: Reg, low: Reg, value: u16)
    requires
        s.wf(),
        high != low,
    ensures
        s.with_pair(high, low, value).pair(high, low) == value,
        s.with_pair(high, low, value).reg(high) == high_byte(value),
        s.with_pair(high, low, value).reg(low) == low_byte(value),
        high_byte(value) == value / 256,
        low_byte(value) == value % 256,
{
}

/// Round trip of a 16-bit register: whichever register it is, the value put
/// in it is the value read from it, and a well-formed state stays so. In BC,
/// DE, HL and AF the value lies high byte first.
pub proof fn lemma_wide_round_trip(s: MachineState, r: BigReg, value: u16)
    requires
        s.wf(),
    ensures
        s.with_wide(r, value).wf(),
        s.with_wide(r, value).wide(r) == value,
        s.with_wide(BigReg::BC, value).reg(Reg::B) == high_byte(value),
        s.with_wide(BigReg::BC, value).reg(Reg::C) == low_byte(value),
        s.with_wide(BigReg::DE, value).reg(Reg::D) == high_byte(value),
        s.with_wide(BigReg::DE, value).reg(Reg::E) == low_byte(value),
        s.with_wide(BigReg::HL, value).reg(Reg::H) == high_byte(value),
        s.with_wide(BigReg::HL, value).reg(Reg::L) == low_byte(value),
        s.with_wide(BigReg::AF, value).reg(Reg::A) == high_byte(value),
        s.with_wide(BigReg::AF, value).reg(Reg::F) == low_byte(value),
{
}

/// Stack discipline: a push takes SP down by exactly two and stores the value
/// at the new SP, low byte at the lower address; the value is then on top; a
/// pop after it takes SP back to where it was and leaves memory alone.
pub proof fn lemma_push_then_pop(s: MachineState, value: u16)
    requires
        s.wf(),
    ensures
        s.push(value).wf(),
        s.push(value).sp == wrap16(s.sp - 2),
        s.push(value).read(wrap16(s.sp - 2)) == low_byte(value),
        s.push(value).read(wrap16(s.sp - 1)) == high_byte(value),
        s.push(value).top() == value,
        s.push(value).pop().sp == s.sp,
        s.push(value).pop().mem == s.push(value).mem,
        s.push(value).regs == s.regs,
{
}

/// A pop takes SP up by exactly two and changes nothing else; what it returns
/// is what was on top before.
pub proof fn lemma_pop_moves_only_sp(s: MachineState)
    ensures
        s.pop() == (MachineState { sp: wrap16(s.sp + 2), ..s }),
        s.top() == s.read_word(s.sp),
{
}

/// Through a push and a pop of the same 16-bit register, the register gets
/// its own value back and SP returns to where it was: only the two bytes
/// below the old SP have changed. SP itself is left out: popped into, it
/// takes the value that was pushed.
pub proof fn lemma_push_pop_restores(s: MachineState, qq: BigReg)
    requires
        s.wf(),
        qq != BigReg::SP,
    ensures
        s.step(Opcode::PUSHQQ(qq)).sp == wrap16(s.sp - 2),
        s.step(Opcode::PUSHQQ(qq)).step(Opcode::POPQQ(qq)) == (MachineState {
            mem: s.push(s.wide(qq)).mem,
            ..s
        }),
{
    let value = s.wide(qq);
    lemma_push_then_pop(s, value);
    assert(s.step(Opcode::PUSHQQ(qq)).step(Opcode::POPQQ(qq)).regs =~= s.regs);
}

/// Flag independence on the machine: setting one flag is read back from that
/// flag, changes no other flag, and touches no register but F.
pub proof fn lemma_flag_set_alone(
    s: MachineState,
    changed: Flag,
    value: bool,
    other: Flag,
    r: Reg,
)
    requires
        s.wf(),
    ensures
        s.with_flag(changed, value).wf(),
        s.with_flag(changed, value).flag(changed) == value,
        other != changed ==> s.with_flag(changed, value).flag(other) == s.flag(other),
        r != Reg::F ==> s.with_flag(changed, value).reg(r) == s.reg(r),
{
    lemma_flag_assign_then_test(s.reg(Reg::F), changed, value);
    if other != changed {
        lemma_flag_independence(s.reg(Reg::F), changed, other, value);
    }
}

/// The conditions that an instruction puts in F are read back from F: each
/// flag shows its condition of the outcome, and with the carry kept the
/// carry flag shows what it showed before.
pub proof fn lemma_conditions_read_back(s: MachineState, o: Outcome)
    requires
        s.wf(),
    ensures
        s.with_conditions(o).flag(Flag::Sign) == o.sign,
        s.with_conditions(o).flag(Flag::Zero) == o.zero,
        s.with_conditions(o).flag(Flag::HalfCarry) == o.half_carry,
        s.with_conditions(o).flag(Flag::ParityOverflow) == o.parity_overflow,
        s.with_conditions(o).flag(Flag::AddSubtract) == o.add_subtract,
        s.with_conditions(o).flag(Flag::Carry) == o.carry,
        s.with_conditions_keeping_carry(o).flag(Flag::Sign) == o.sign,
        s.with_conditions_keeping_carry(o).flag(Flag::Zero) == o.zero,
        s.with_conditions_keeping_carry(o).flag(Flag::HalfCarry) == o.half_carry,
        s.with_conditions_keeping_carry(o).flag(Flag::ParityOverflow) == o.parity_overflow,
        s.with_conditions_keeping_carry(o).flag(Flag::AddSubtract) == o.add_subtract,
        s.with_conditions_keeping_carry(o).flag(Flag::Carry) == s.flag(Flag::Carry),
{
    let s1 = s.with_flag(Flag::Sign, o.sign);
    let s2 = s1.with_flag(Flag::Zero, o.zero);
    let s3 = s2.with_flag(Flag::HalfCarry, o.half_carry);
    let s4 = s3.with_flag(Flag::ParityOverflow, o.parity_overflow);
    let s5 = s4.with_flag(Flag::AddSubtract, o.add_subtract);
    let s6 = s5.with_flag(Flag::Carry, o.carry);
    lemma_flags_after(s, Flag::Sign, o.sign);
    lemma_flags_after(s1, Flag::Zero, o.zero);
    lemma_flags_after(s2, Flag::HalfCarry, o.half_carry);
    lemma_flags_after(s3, Flag::ParityOverflow, o.parity_overflow);
    lemma_flags_after(s4, Flag::AddSubtract, o.add_subtract);
    lemma_flags_after(s5, Flag::Carry, o.carry);
    assert(s5 == s.with_conditions_keeping_carry(o));
    assert(s6 == s.with_conditions(o));
}

/// After setting one flag, that flag shows the value and each of the other
/// five shows what it showed before.
pub proof fn lemma_flags_after(s: MachineState, changed: Flag, value: bool)
    requires
        s.wf(),
    ensures
        s.with_flag(changed, value).wf(),
        s.with_flag(changed, value).flag(changed) == value,
        changed != Flag::Sign ==> s.with_flag(changed, value).flag(Flag::Sign) == s.flag(
            Flag::Sign,
        ),
        changed != Flag::Zero ==> s.with_flag(changed, value).flag(Flag::Zero) == s.flag(
            Flag::Zero,
        ),
        changed != Flag::HalfCarry ==> s.with_flag(changed, value).flag(Flag::HalfCarry)
            == s.flag(Flag::HalfCarry),
        changed != Flag::ParityOverflow ==> s.with_flag(changed, value).flag(Flag::ParityOverflow)
            == s.flag(Flag::ParityOverflow),
        changed != Flag::AddSubtract ==> s.with_flag(changed, value).flag(Flag::AddSubtract)
            == s.flag(Flag::AddSubtract),
        changed != Flag::Carry ==> s.with_flag(changed, value).flag(Flag::Carry) == s.flag(
            Flag::Carry,
        ),
{
    lemma_flag_set_alone(s, changed, value, Flag::Sign, Reg::A);
    lemma_flag_set_alone(s, changed, value, Flag::Zero, Reg::A);
    lemma_flag_set_alone(s, changed, value, Flag::HalfCarry, Reg::A);
    lemma_flag_set_alone(s, changed, value, Flag::ParityOverflow, Reg::A);
    lemma_flag_set_alone(s, changed, value, Flag::AddSubtract, Reg::A);
    lemma_flag_set_alone(s, changed, value, Flag::Carry, Reg::A);
}

/// The loads of the accumulator from I and from R: the accumulator takes the
/// value; sign is set exactly for a value with its top bit set, zero exactly
/// for the value zero; half-carry and add/subtract end clear;
/// parity/overflow ends as the second interrupt flip-flop stood before the
/// load; the carry is not touched.
pub proof fn lemma_load_a_special_flags(s: MachineState, value: u8)
    requires
        s.wf(),
    ensures
        s.load_a_special(value).reg(Reg::A) == value,
        s.load_a_special(value).flag(Flag::Sign) == (value >= 128),
        s.load_a_special(value).flag(Flag::Zero) == (value == 0),
        !s.load_a_special(value).flag(Flag::HalfCarry),
        !s.load_a_special(value).flag(Flag::AddSubtract),
        s.load_a_special(value).flag(Flag::ParityOverflow) == s.iff2,
        s.load_a_special(value).flag(Flag::Carry) == s.flag(Flag::Carry),
        s.step(Opcode::LDAI) == s.load_a_special(s.i),
        s.step(Opcode::LDAR) == s.load_a_special(s.r),
{
    let s0 = s.with_reg(Reg::A, value);
    let s1 = s0.with_flag(Flag::Sign, value >= 128);
    let s2 = s1.with_flag(Flag::Zero, value == 0);
    let s3 = s2.with_flag(Flag::HalfCarry, false);
    let s4 = s3.with_flag(Flag::AddSubtract, false);
    let s5 = s4.with_flag(Flag::ParityOverflow, s.iff2);
    assert(s0.flag(Flag::Carry) == s.flag(Flag::Carry));
    lemma_flags_after(s0, Flag::Sign, value >= 128);
    lemma_flags_after(s1, Flag::Zero, value == 0);
    lemma_flags_after(s2, Flag::HalfCarry, false);
    lemma_flags_after(s3, Flag::AddSubtract, false);
    lemma_flags_after(s4, Flag::ParityOverflow, s.iff2);
    assert(s5 == s.load_a_special(value));
    assert(s5.reg(Reg::A) == value);
}

/// Exchanging two registers twice puts both back.
pub proof fn lemma_swap_twice(s: MachineState, a: Reg, b: Reg)
    requires
        s.wf(),
    ensures
        s.swap(a, b).wf(),
        s.swap(a, b).swap(a, b) == s,
        s.swap(a, b).reg(a) == s.reg(b),
        s.swap(a, b).reg(b) == s.reg(a),
{
    assert(s.swap(a, b).swap(a, b).regs =~= s.regs);
}

/// EXX exchanges B, C, D, E, H and L with their shadows, all six together,
/// and leaves A, F and their shadows alone; a second EXX undoes the first.
pub proof fn lemma_exx_exchanges_six(s: MachineState)
    requires
        s.wf(),
    ensures
        s.step(Opcode::EXX).reg(Reg::B) == s.reg(Reg::B2),
        s.step(Opcode::EXX).reg(Reg::C) == s.reg(Reg::C2),
        s.step(Opcode::EXX).reg(Reg::D) == s.reg(Reg::D2),
        s.step(Opcode::EXX).reg(Reg::E) == s.reg(Reg::E2),
        s.step(Opcode::EXX).reg(Reg::H) == s.reg(Reg::H2),
        s.step(Opcode::EXX).reg(Reg::L) == s.reg(Reg::L2),
        s.step(Opcode::EXX).reg(Reg::B2) == s.reg(Reg::B),
        s.step(Opcode::EXX).reg(Reg::C2) == s.reg(Reg::C),
        s.step(Opcode::EXX).reg(Reg::D2) == s.reg(Reg::D),
        s.step(Opcode::EXX).reg(Reg::E2) == s.reg(Reg::E),
        s.step(Opcode::EXX).reg(Reg::H2) == s.reg(Reg::H),
        s.step(Opcode::EXX).reg(Reg::L2) == s.reg(Reg::L),
        s.step(Opcode::EXX).reg(Reg::A) == s.reg(Reg::A),
        s.step(Opcode::EXX).reg(Reg::F) == s.reg(Reg::F),
        s.step(Opcode::EXX).reg(Reg::A2) == s.reg(Reg::A2),
        s.step(Opcode::EXX).reg(Reg::F2) == s.reg(Reg::F2),
        s.step(Opcode::EXX).step(Opcode::EXX) == s,
{
    assert(s.step(Opcode::EXX).step(Opcode::EXX).regs =~= s.regs);
}

} // verus!
