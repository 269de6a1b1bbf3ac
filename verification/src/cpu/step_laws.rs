//! Laws of `step` as a whole: what holds of every instruction.

use vstd::prelude::*;
use crate::cpu::alu::Outcome;
use crate::cpu::flags::{lemma_flag_assign_keeps_unused_bits, Flag, UNUSED_BITS};
use crate::cpu::move_laws::{lemma_block_move_counts, lemma_move_keeps_unused_bits};
use crate::cpu::search_laws::{lemma_block_search_keeps_wf, lemma_search_keeps_unused_bits};
use crate::cpu::state::MachineState;
use crate::ops::family::Family;
use crate::ops::opcodes::{BigReg, Opcode, Reg};
use crate::ops::parser::{byte_or_zero, decode, extended, indexed, iy_twin, unprefixed};

verus! {

/// An instruction of the pending family changes nothing, and neither does
/// the idle one.
pub proof fn lemma_pending_changes_nothing(s: MachineState, op: Opcode)
    requires
        op.family() == Family::Pending || op.family() == Family::Idle,
    ensures
        s.step(op) == s,
{
}

proof fn lemma_load8_keeps_wf(s: MachineState, op: Opcode)
    requires
        s.wf(),
        op.family() == Family::Load8,
    ensures
        s.step(op).wf(),
{
}

proof fn lemma_load16_keeps_wf(s: MachineState, op: Opcode)
    requires
        s.wf(),
        op.family() == Family::Load16,
    ensures
        s.step(op).wf(),
{
}

proof fn lemma_stack_keeps_wf(s: MachineState, op: Opcode)
    requires
        s.wf(),
        op.family() == Family::Stack,
    ensures
        s.step(op).wf(),
{
}

proof fn lemma_exchange_keeps_wf(s: MachineState, op: Opcode)
    requires
        s.wf(),
        op.family() == Family::Exchange,
    ensures
        s.step(op).wf(),
{
}

proof fn lemma_block_keeps_wf(s: MachineState, op: Opcode)
    requires
        s.wf(),
        op.family() == Family::Block,
    ensures
        s.step(op).wf(),
{
    lemma_block_move_counts(s, true);
    lemma_block_move_counts(s, false);
    lemma_block_search_keeps_wf(s, true);
    lemma_block_search_keeps_wf(s, false);
}

proof fn lemma_conditions_keep_wf(s: MachineState, o: Outcome, r: Reg, address: u16)
    requires
        s.wf(),
    ensures
        s.with_conditions(o).wf(),
        s.accumulate(o).wf(),
        s.count_reg(r, o).wf(),
        s.count_mem(address, o).wf(),
{
}

proof fn lemma_arithmetic_keeps_wf(s: MachineState, op: Opcode)
    requires
        s.wf(),
        op.family() == Family::Arithmetic,
    ensures
        s.step(op).wf(),
{
    assert forall|o: Outcome| #[trigger] s.with_conditions(o).wf() by {
        lemma_conditions_keep_wf(s, o, Reg::A, 0);
    }
    assert forall|o: Outcome| #[trigger] s.accumulate(o).wf() by {
        lemma_conditions_keep_wf(s, o, Reg::A, 0);
    }
    assert forall|o: Outcome, r: Reg| #[trigger] s.count_reg(r, o).wf() by {
        lemma_conditions_keep_wf(s, o, r, 0);
    }
    assert forall|o: Outcome, address: u16| #[trigger] s.count_mem(address, o).wf() by {
        lemma_conditions_keep_wf(s, o, Reg::A, address);
    }
}

/// Every instruction takes a well-formed state to a well-formed state.
pub proof fn lemma_step_keeps_wf(s: MachineState, op: Opcode)
    requires
        s.wf(),
    ensures
        s.step(op).wf(),
{
    match op.family() {
        Family::Load8 => lemma_load8_keeps_wf(s, op),
        Family::Load16 => lemma_load16_keeps_wf(s, op),
        Family::Stack => lemma_stack_keeps_wf(s, op),
        Family::Exchange => lemma_exchange_keeps_wf(s, op),
        Family::Block => lemma_block_keeps_wf(s, op),
        Family::Arithmetic => lemma_arithmetic_keeps_wf(s, op),
        Family::Idle | Family::Pending => lemma_pending_changes_nothing(s, op),
    }
}

/// What the decoder produces, the execution engine executes: every decoded
/// instruction but HALT has its effect there.
pub proof fn lemma_decoded_is_implemented(code: Seq<u8>)
    ensures
        decode(code) matches Some(r) ==> r.1.family() != Family::Pending || r.1 == Opcode::HALT,
{
    let b1 = byte_or_zero(code, 1);
    let b2 = byte_or_zero(code, 2);
    let b3 = byte_or_zero(code, 3);
    lemma_unprefixed_implemented(byte_or_zero(code, 0), b1, b2);
    lemma_prefixed_implemented(b1, b2, b3);
}

proof fn lemma_unprefixed_implemented(b: u8, n1: u8, n2: u8)
    ensures
        unprefixed(b, n1, n2).1.family() != Family::Pending || unprefixed(b, n1, n2).1
            == Opcode::HALT,
{
}

proof fn lemma_prefixed_implemented(b: u8, n1: u8, n2: u8)
    ensures
        extended(b, n1, n2).1.family() != Family::Pending,
        indexed(b, n1, n2).1.family() != Family::Pending,
        iy_twin(indexed(b, n1, n2).1).family() != Family::Pending,
{
}

/// Whether `op` is a transfer whose destination is F itself, alone or as the
/// low half of AF.
pub open spec fn loads_f(op: Opcode) -> bool {
    match op {
        Opcode::LDRR(r, _)
        | Opcode::LDRN(r, _)
        | Opcode::LDRHL(r)
        | Opcode::LDRIXD(r, _)
        | Opcode::LDRIYD(r, _) => r == Reg::F,
        Opcode::LDDDNN(dd, _) | Opcode::LDDDNN2(dd, _) | Opcode::POPQQ(dd) => dd == BigReg::AF,
        _ => false,
    }
}

/// A plain transfer affects no flag: but for the loads of A from I and from
/// R, every 8-bit load, 16-bit load, push and pop leaves F as it was, unless
/// F is the destination of the transfer.
pub proof fn lemma_transfers_keep_flags(s: MachineState, op: Opcode)
    requires
        s.wf(),
        op.family() == Family::Load8 || op.family() == Family::Load16 || op.family()
            == Family::Stack,
        op != Opcode::LDAI && op != Opcode::LDAR,
        !loads_f(op),
    ensures
        s.step(op).reg(Reg::F) == s.reg(Reg::F),
{
}

/// The two unused bits of F in the state `s`.
pub open spec fn unused_bits(s: MachineState) -> u8 {
    s.reg(Reg::F) & UNUSED_BITS
}

/// Whether `op` puts a whole byte in F: a transfer into F or AF, the exchange
/// of AF with its shadow, or an increment or decrement of F as a register.
pub open spec fn stores_f(op: Opcode) -> bool {
    match op {
        Opcode::EXAFAF2 => true,
        Opcode::INCR(r) | Opcode::DECR(r) => r == Reg::F,
        _ => loads_f(op),
    }
}

/// The two unused bits of F after setting a flag are those before it.
proof fn lemma_flag_keeps_unused_bits(s: MachineState, flag: Flag, value: bool)
    requires
        s.wf(),
    ensures
        s.with_flag(flag, value).wf(),
        unused_bits(s.with_flag(flag, value)) == unused_bits(s),
{
    lemma_flag_assign_keeps_unused_bits(s.reg(Reg::F), flag, value);
}

proof fn lemma_conditions_keep_unused_bits(s: MachineState, o: Outcome)
    requires
        s.wf(),
    ensures
        unused_bits(s.with_conditions_keeping_carry(o)) == unused_bits(s),
        unused_bits(s.with_conditions(o)) == unused_bits(s),
{
    let s1 = s.with_flag(Flag::Sign, o.sign);
    let s2 = s1.with_flag(Flag::Zero, o.zero);
    let s3 = s2.with_flag(Flag::HalfCarry, o.half_carry);
    let s4 = s3.with_flag(Flag::ParityOverflow, o.parity_overflow);
    let s5 = s4.with_flag(Flag::AddSubtract, o.add_subtract);
    lemma_flag_keeps_unused_bits(s, Flag::Sign, o.sign);
    lemma_flag_keeps_unused_bits(s1, Flag::Zero, o.zero);
    lemma_flag_keeps_unused_bits(s2, Flag::HalfCarry, o.half_carry);
    lemma_flag_keeps_unused_bits(s3, Flag::ParityOverflow, o.parity_overflow);
    lemma_flag_keeps_unused_bits(s4, Flag::AddSubtract, o.add_subtract);
    lemma_flag_keeps_unused_bits(s5, Flag::Carry, o.carry);
}

proof fn lemma_arithmetic_keeps_unused_bits(s: MachineState, op: Opcode)
    requires
        s.wf(),
        op.family() == Family::Arithmetic,
        !stores_f(op),
    ensures
        unused_bits(s.step(op)) == unused_bits(s),
{
    assert forall|t: MachineState, o: Outcome| t.wf() implies unused_bits(
        #[trigger] t.with_conditions(o),
    ) == unused_bits(t) by {
        lemma_conditions_keep_unused_bits(t, o);
    }
    assert forall|t: MachineState, o: Outcome| t.wf() implies unused_bits(
        #[trigger] t.with_conditions_keeping_carry(o),
    ) == unused_bits(t) by {
        lemma_conditions_keep_unused_bits(t, o);
    }
}

proof fn lemma_load8_keeps_unused_bits(s: MachineState, op: Opcode)
    requires
        s.wf(),
        op.family() == Family::Load8,
        !stores_f(op),
    ensures
        unused_bits(s.step(op)) == unused_bits(s),
{
    if op == Opcode::LDAI || op == Opcode::LDAR {
        let value = if op == Opcode::LDAI {
            s.i
        } else {
            s.r
        };
        let s0 = s.with_reg(Reg::A, value);
        let s1 = s0.with_flag(Flag::Sign, value >= 128);
        let s2 = s1.with_flag(Flag::Zero, value == 0);
        let s3 = s2.with_flag(Flag::HalfCarry, false);
        let s4 = s3.with_flag(Flag::AddSubtract, false);
        lemma_flag_keeps_unused_bits(s0, Flag::Sign, value >= 128);
        lemma_flag_keeps_unused_bits(s1, Flag::Zero, value == 0);
        lemma_flag_keeps_unused_bits(s2, Flag::HalfCarry, false);
        lemma_flag_keeps_unused_bits(s3, Flag::AddSubtract, false);
        lemma_flag_keeps_unused_bits(s4, Flag::ParityOverflow, s.iff2);
    } else {
        lemma_transfers_keep_flags(s, op);
    }
}

proof fn lemma_exchange_keeps_unused_bits(s: MachineState, op: Opcode)
    requires
        s.wf(),
        op.family() == Family::Exchange,
        !stores_f(op),
    ensures
        unused_bits(s.step(op)) == unused_bits(s),
{
}

proof fn lemma_block_keeps_unused_bits(s: MachineState, op: Opcode)
    requires
        s.wf(),
        op.family() == Family::Block,
    ensures
        unused_bits(s.step(op)) == unused_bits(s),
{
    lemma_move_keeps_unused_bits(s, true);
    lemma_move_keeps_unused_bits(s, false);
    lemma_search_keeps_unused_bits(s, true);
    lemma_search_keeps_unused_bits(s, false);
}

/// The two unused bits of F never change: whatever instruction is executed,
/// they are afterwards what they were before, unless the instruction puts a
/// whole byte in F.
pub proof fn lemma_unused_bits_stay(s: MachineState, op: Opcode)
    requires
        s.wf(),
        !stores_f(op),
    ensures
        unused_bits(s.step(op)) == unused_bits(s),
{
    match op.family() {
        Family::Load8 => lemma_load8_keeps_unused_bits(s, op),
        Family::Load16 | Family::Stack => lemma_transfers_keep_flags(s, op),
        Family::Exchange => lemma_exchange_keeps_unused_bits(s, op),
        Family::Block => lemma_block_keeps_unused_bits(s, op),
        Family::Arithmetic => lemma_arithmetic_keeps_unused_bits(s, op),
        Family::Idle | Family::Pending => lemma_pending_changes_nothing(s, op),
    }
}

} // verus!
