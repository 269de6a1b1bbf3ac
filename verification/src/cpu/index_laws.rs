//! Laws of the two index registers: IY is treated exactly as IX is, by the
//! decoder and by the execution engine.

use vstd::prelude::*;
use crate::cpu::alu::Outcome;
use crate::cpu::state::MachineState;
use crate::ops::family::Family;
use crate::ops::opcodes::Opcode;
use crate::ops::parser::{byte_or_zero, decode, iy_twin};

verus! {

/// The state `s` with the contents of IX and IY exchanged.
pub open spec fn with_index_registers_exchanged(s: MachineState) -> MachineState {
    MachineState { ix: s.iy, iy: s.ix, ..s }
}

/// Whether `op` is one of the instructions that name IX.
pub open spec fn names_ix(op: Opcode) -> bool {
    iy_twin(op) != op
}

/// Setting conditions, and storing a result in A or in memory with them,
/// does not look at the index registers.
proof fn lemma_conditions_pass_index_registers(s: MachineState, o: Outcome, address: u16)
    ensures
        with_index_registers_exchanged(s).with_conditions(o) == with_index_registers_exchanged(
            s.with_conditions(o),
        ),
        with_index_registers_exchanged(s).accumulate(o) == with_index_registers_exchanged(
            s.accumulate(o),
        ),
        with_index_registers_exchanged(s).count_mem(address, o) == with_index_registers_exchanged(
            s.count_mem(address, o),
        ),
{
}

proof fn lemma_iy_twin_mirrors_arithmetic(s: MachineState, op: Opcode)
    requires
        s.wf(),
        names_ix(op),
        op.family() == Family::Arithmetic,
    ensures
        with_index_registers_exchanged(s).step(iy_twin(op)) == with_index_registers_exchanged(
            s.step(op),
        ),
{
    assert forall|o: Outcome| #[trigger]
        with_index_registers_exchanged(s).with_conditions(o) == with_index_registers_exchanged(
            s.with_conditions(o),
        ) by {
        lemma_conditions_pass_index_registers(s, o, 0);
    }
    assert forall|o: Outcome| #[trigger]
        with_index_registers_exchanged(s).accumulate(o) == with_index_registers_exchanged(
            s.accumulate(o),
        ) by {
        lemma_conditions_pass_index_registers(s, o, 0);
    }
    assert forall|o: Outcome, address: u16| #[trigger]
        with_index_registers_exchanged(s).count_mem(address, o)
            == with_index_registers_exchanged(s.count_mem(address, o)) by {
        lemma_conditions_pass_index_registers(s, o, address);
    }
}

proof fn lemma_iy_twin_mirrors_transfer(s: MachineState, op: Opcode)
    requires
        s.wf(),
        names_ix(op),
        op.family() != Family::Arithmetic,
    ensures
        with_index_registers_exchanged(s).step(iy_twin(op)) == with_index_registers_exchanged(
            s.step(op),
        ),
{
}

/// The instructions on IY do with IY exactly what their twins on IX do with
/// IX: executing the twin with the two index registers exchanged gives the
/// state that the instruction on IX gives, with the two exchanged.
pub proof fn lemma_iy_twin_mirrors(s: MachineState, op: Opcode)
    requires
        s.wf(),
        names_ix(op),
    ensures
        with_index_registers_exchanged(s).step(iy_twin(op)) == with_index_registers_exchanged(
            s.step(op),
        ),
{
    if op.family() == Family::Arithmetic {
        lemma_iy_twin_mirrors_arithmetic(s, op);
    } else {
        lemma_iy_twin_mirrors_transfer(s, op);
    }
}

/// After the prefix 0xFD the decoder reads the table it reads after 0xDD,
/// with IY in the place of IX: the two decodings have the same length, and
/// the instruction of the one is the twin of that of the other.
pub proof fn lemma_index_prefixes_agree(ix_code: Seq<u8>, iy_code: Seq<u8>)
    requires
        ix_code.len() > 0 && ix_code[0] == 0xDD,
        iy_code == ix_code.update(0, 0xFDu8),
    ensures
        decode(iy_code) == match decode(ix_code) {
            Some(r) => Some((r.0, iy_twin(r.1))),
            None => None,
        },
{
    assert(byte_or_zero(iy_code, 1) == byte_or_zero(ix_code, 1));
    assert(byte_or_zero(iy_code, 2) == byte_or_zero(ix_code, 2));
    assert(byte_or_zero(iy_code, 3) == byte_or_zero(ix_code, 3));
}

} // verus!
