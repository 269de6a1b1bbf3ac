//! Laws of the block moves: what a move leaves in memory and in the
//! registers, and how the repeating form relates to the single step.

use vstd::prelude::*;
use crate::bits::{lemma_wrap16_near, wrap16};
use crate::cpu::flags::{with_bits, Flag, UNUSED_BITS};
use crate::cpu::laws::lemma_flags_after;
use crate::cpu::state::MachineState;
use crate::cpu::step::{advance, copy_block, lemma_advance_none, lemma_advance_sum};
use crate::ops::opcodes::{BigReg, Opcode, Reg};

verus! {

/// How many steps in the direction given lead from `start` to `address`.
pub open spec fn offset(start: u16, address: u16, forward: bool) -> int {
    if forward {
        wrap16(address - start) as int
    } else {
        wrap16(start - address) as int
    }
}

/// Whether `address` is one of the `count` addresses of the block that starts
/// at `start` and runs in the direction given.
pub open spec fn in_block(address: u16, start: u16, count: nat, forward: bool) -> bool {
    offset(start, address, forward) < count
}

/// Whether two blocks of `count` bytes that run in the same direction, one
/// from `first` and one from `second`, have no address in common.
pub open spec fn apart(first: u16, second: u16, count: nat) -> bool {
    wrap16(second - first) >= count && wrap16(first - second) >= count
}

/// After a copy, every address outside the target block holds what it held
/// before, and the memory has the size it had.
pub proof fn lemma_copy_block_elsewhere(
    mem: Seq<u8>,
    source: u16,
    target: u16,
    count: nat,
    forward: bool,
    address: u16,
)
    requires
        mem.len() == 65536,
        count <= 65536,
        !in_block(address, target, count, forward),
    ensures
        copy_block(mem, source, target, count, forward).len() == 65536,
        copy_block(mem, source, target, count, forward)[address as int] == mem[address as int],
    decreases count,
{
    if count > 0 {
        lemma_outside_stays_outside(address, target, count, forward);
        lemma_copy_block_elsewhere(
            mem.update(target as int, mem[source as int]),
            advance(source, forward, 1),
            advance(target, forward, 1),
            (count - 1) as nat,
            forward,
            address,
        );
    }
}

/// After a copy between blocks that have no address in common, the target
/// block holds what the source block held: the byte `k` steps into the one is
/// the byte that was `k` steps into the other.
pub proof fn lemma_copy_block_exact(
    mem: Seq<u8>,
    source: u16,
    target: u16,
    count: nat,
    forward: bool,
    k: int,
)
    requires
        mem.len() == 65536,
        count <= 65536,
        apart(source, target, count),
        0 <= k < count,
    ensures
        copy_block(mem, source, target, count, forward)[advance(target, forward, k) as int]
            == mem[advance(source, forward, k) as int],
    decreases count,
{
    let first = mem.update(target as int, mem[source as int]);
    let next_source = advance(source, forward, 1);
    let next_target = advance(target, forward, 1);
    lemma_step_keeps_apart(source, target, count, forward);
    lemma_advance_none(source, forward);
    lemma_advance_none(target, forward);
    assert(copy_block(mem, source, target, count, forward) == copy_block(
        first,
        next_source,
        next_target,
        (count - 1) as nat,
        forward,
    ));
    if k == 0 {
        lemma_left_behind(target, count, forward);
        lemma_copy_block_elsewhere(
            first,
            next_source,
            next_target,
            (count - 1) as nat,
            forward,
            target,
        );
    } else {
        lemma_copy_block_exact(first, next_source, next_target, (count - 1) as nat, forward, k - 1);
        lemma_advance_sum(source, forward, 1, k - 1);
        lemma_advance_sum(target, forward, 1, k - 1);
        lemma_not_yet_written(source, target, count, forward, k);
    }
}

/// An address outside a block is not the block's first address, and is
/// outside what is left of the block after its first address.
proof fn lemma_outside_stays_outside(address: u16, target: u16, count: nat, forward: bool)
    requires
        0 < count <= 65536,
        !in_block(address, target, count, forward),
    ensures
        address != target,
        !in_block(address, advance(target, forward, 1), (count - 1) as nat, forward),
{
    reveal(advance);
    let a = address as int;
    let t = target as int;
    lemma_wrap16_near(t + 1);
    lemma_wrap16_near(t - 1);
    lemma_wrap16_near(a - t);
    lemma_wrap16_near(t - a);
    lemma_wrap16_near(a - advance(target, forward, 1));
    lemma_wrap16_near(advance(target, forward, 1) - a);
}

/// Two blocks that are apart stay apart when each loses its first address.
proof fn lemma_step_keeps_apart(source: u16, target: u16, count: nat, forward: bool)
    requires
        0 < count,
        apart(source, target, count),
    ensures
        apart(advance(source, forward, 1), advance(target, forward, 1), (count - 1) as nat),
{
    reveal(advance);
    let s = source as int;
    let t = target as int;
    lemma_wrap16_near(s + 1);
    lemma_wrap16_near(t + 1);
    lemma_wrap16_near(s - 1);
    lemma_wrap16_near(t - 1);
    lemma_wrap16_near(t - s);
    lemma_wrap16_near(s - t);
    lemma_wrap16_near(advance(target, forward, 1) - advance(source, forward, 1));
    lemma_wrap16_near(advance(source, forward, 1) - advance(target, forward, 1));
}

/// The first address of a block is not among the addresses after it.
proof fn lemma_left_behind(target: u16, count: nat, forward: bool)
    requires
        0 < count <= 65536,
    ensures
        !in_block(target, advance(target, forward, 1), (count - 1) as nat, forward),
{
    reveal(advance);
    let t = target as int;
    lemma_wrap16_near(t + 1);
    lemma_wrap16_near(t - 1);
    lemma_wrap16_near(t - advance(target, forward, 1));
    lemma_wrap16_near(advance(target, forward, 1) - t);
}

/// Where two blocks are apart, no address of the one is the first address of
/// the other.
proof fn lemma_not_yet_written(source: u16, target: u16, count: nat, forward: bool, k: int)
    requires
        apart(source, target, count),
        0 <= k < count,
    ensures
        advance(source, forward, k) != target,
{
    reveal(advance);
    let s = source as int;
    let t = target as int;
    lemma_wrap16_near(s + k);
    lemma_wrap16_near(s - k);
    lemma_wrap16_near(t - s);
    lemma_wrap16_near(s - t);
}

/// Block move, counts: the repeating move ends with BC at zero and with HL and
/// DE each BC addresses further in its direction; half-carry,
/// parity/overflow and add/subtract end clear; sign, zero and carry, the
/// other registers and everything outside memory and the register file stay.
pub proof fn lemma_block_move_counts(s: MachineState, forward: bool)
    requires
        s.wf(),
    ensures
        s.block_move(forward).wf(),
        s.block_move(forward).wide(BigReg::BC) == 0,
        s.block_move(forward).wide(BigReg::HL) == advance(
            s.wide(BigReg::HL),
            forward,
            s.wide(BigReg::BC) as int,
        ),
        s.block_move(forward).wide(BigReg::DE) == advance(
            s.wide(BigReg::DE),
            forward,
            s.wide(BigReg::BC) as int,
        ),
        !s.block_move(forward).flag(Flag::HalfCarry),
        !s.block_move(forward).flag(Flag::ParityOverflow),
        !s.block_move(forward).flag(Flag::AddSubtract),
        s.block_move(forward).flag(Flag::Sign) == s.flag(Flag::Sign),
        s.block_move(forward).flag(Flag::Zero) == s.flag(Flag::Zero),
        s.block_move(forward).flag(Flag::Carry) == s.flag(Flag::Carry),
        s.block_move(forward).reg(Reg::A) == s.reg(Reg::A),
        s.block_move(forward).sp == s.sp,
        s.block_move(forward).ix == s.ix,
        s.block_move(forward).iy == s.iy,
        s.block_move(forward).pc == s.pc,
{
    let hl = s.wide(BigReg::HL);
    let de = s.wide(BigReg::DE);
    let bc = s.wide(BigReg::BC);
    lemma_copy_block_len(s.mem, hl, de, bc as nat, forward);
    let moved = MachineState { mem: copy_block(s.mem, hl, de, bc as nat, forward), ..s }.with_wide(
        BigReg::HL,
        advance(hl, forward, bc as int),
    ).with_wide(BigReg::DE, advance(de, forward, bc as int)).with_wide(BigReg::BC, 0);
    let s1 = moved.with_flag(Flag::HalfCarry, false);
    let s2 = s1.with_flag(Flag::ParityOverflow, false);
    assert(moved.reg(Reg::F) == s.reg(Reg::F));
    lemma_flags_after(moved, Flag::HalfCarry, false);
    lemma_flags_after(s1, Flag::ParityOverflow, false);
    lemma_flags_after(s2, Flag::AddSubtract, false);
}

/// A copy leaves the memory at its size.
proof fn lemma_copy_block_len(mem: Seq<u8>, source: u16, target: u16, count: nat, forward: bool)
    requires
        mem.len() == 65536,
    ensures
        copy_block(mem, source, target, count, forward).len() == 65536,
    decreases count,
{
    if count > 0 {
        lemma_copy_block_len(
            mem.update(target as int, mem[source as int]),
            advance(source, forward, 1),
            advance(target, forward, 1),
            (count - 1) as nat,
            forward,
        );
    }
}

/// Block move, contents: where the source block and the target block have no
/// address in common, the repeating move leaves in the target block exactly
/// the bytes of the source block, byte `k` for byte `k`.
pub proof fn lemma_block_move_copies(s: MachineState, forward: bool, k: int)
    requires
        s.wf(),
        apart(s.wide(BigReg::HL), s.wide(BigReg::DE), s.wide(BigReg::BC) as nat),
        0 <= k < s.wide(BigReg::BC),
    ensures
        s.block_move(forward).read(advance(s.wide(BigReg::DE), forward, k)) == s.read(
            advance(s.wide(BigReg::HL), forward, k),
        ),
{
    lemma_copy_block_exact(
        s.mem,
        s.wide(BigReg::HL),
        s.wide(BigReg::DE),
        s.wide(BigReg::BC) as nat,
        forward,
        k,
    );
}

/// Block move, the rest of memory: the repeating move changes no byte outside
/// the target block, whether or not the blocks overlap.
pub proof fn lemma_block_move_elsewhere(s: MachineState, forward: bool, address: u16)
    requires
        s.wf(),
        !in_block(address, s.wide(BigReg::DE), s.wide(BigReg::BC) as nat, forward),
    ensures
        s.block_move(forward).read(address) == s.read(address),
{
    lemma_copy_block_elsewhere(
        s.mem,
        s.wide(BigReg::HL),
        s.wide(BigReg::DE),
        s.wide(BigReg::BC) as nat,
        forward,
        address,
    );
}

/// Setting half-carry, parity/overflow and add/subtract a second time
/// forgets what they were set to the first time.
proof fn lemma_three_flags_again(f: u8, first: bool, second: bool)
    by (bit_vector)
    ensures
        ({
            let once = with_bits(with_bits(with_bits(f, 0x10, false), 0x04, first), 0x02, false);
            let twice = with_bits(
                with_bits(with_bits(once, 0x10, false), 0x04, second),
                0x02,
                false,
            );
            let direct = with_bits(with_bits(with_bits(f, 0x10, false), 0x04, second), 0x02, false);
            twice == direct
        }),
{
}

/// Block move, step by step: with BC not zero, the repeating move is the
/// single move followed by the repeating move on what is left. With BC zero
/// it moves nothing and only clears half-carry, parity/overflow and
/// add/subtract.
pub proof fn lemma_block_move_unfolds(s: MachineState, forward: bool)
    requires
        s.wf(),
    ensures
        s.wide(BigReg::BC) != 0 ==> s.block_move(forward) == s.move_step(forward).block_move(
            forward,
        ),
        s.wide(BigReg::BC) == 0 ==> s.block_move(forward) == s.with_flag(
            Flag::HalfCarry,
            false,
        ).with_flag(Flag::ParityOverflow, false).with_flag(Flag::AddSubtract, false),
        s.step(Opcode::LDIR) == s.block_move(true),
        s.step(Opcode::LDDR) == s.block_move(false),
        s.step(Opcode::LDI) == s.move_step(true),
        s.step(Opcode::LDD) == s.move_step(false),
{
    let hl = s.wide(BigReg::HL);
    let de = s.wide(BigReg::DE);
    let bc = s.wide(BigReg::BC);
    let f = s.reg(Reg::F);
    lemma_advance_none(hl, forward);
    lemma_advance_none(de, forward);
    if bc != 0 {
        let one = s.move_step(forward);
        let left = wrap16(bc - 1);
        assert(left == bc - 1);
        assert(one.mem == s.mem.update(de as int, s.mem[hl as int]));
        assert(one.wide(BigReg::HL) == advance(hl, forward, 1));
        assert(one.wide(BigReg::DE) == advance(de, forward, 1));
        assert(one.wide(BigReg::BC) == left);
        lemma_advance_sum(hl, forward, 1, left as int);
        lemma_advance_sum(de, forward, 1, left as int);
        lemma_three_flags_again(f, left != 0, false);
        let all = s.block_move(forward);
        let rest = one.block_move(forward);
        assert(all.mem == rest.mem);
        assert(all.regs =~= rest.regs);
    } else {
        let all = s.block_move(forward);
        let cleared = s.with_flag(Flag::HalfCarry, false).with_flag(
            Flag::ParityOverflow,
            false,
        ).with_flag(Flag::AddSubtract, false);
        assert(all.mem == s.mem);
        assert(all.regs =~= cleared.regs);
    }
}

/// The moves leave bits 3 and 5 of F as they were.
pub proof fn lemma_move_keeps_unused_bits(s: MachineState, forward: bool)
    requires
        s.wf(),
    ensures
        s.move_step(forward).reg(Reg::F) & UNUSED_BITS == s.reg(Reg::F) & UNUSED_BITS,
        s.block_move(forward).reg(Reg::F) & UNUSED_BITS == s.reg(Reg::F) & UNUSED_BITS,
{
    let f = s.reg(Reg::F);
    let left = wrap16(s.wide(BigReg::BC) - 1);
    lemma_three_flags_keep_unused_bits(f, left != 0);
    lemma_three_flags_keep_unused_bits(f, false);
}

proof fn lemma_three_flags_keep_unused_bits(f: u8, value: bool)
    by (bit_vector)
    ensures
        with_bits(with_bits(with_bits(f, 0x10, false), 0x04, value), 0x02, false) & 0x28 == f
            & 0x28,
{
}

} // verus!
