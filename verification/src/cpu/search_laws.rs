//! Laws of the block searches: what a search examines, where it stops,
//! and how the repeating form relates to the single step.

use vstd::prelude::*;
use crate::bits::{high_byte, lemma_wrap16_near, low_byte, wrap16};
use crate::cpu::alu::difference;
use crate::cpu::flags::{flag_assign, with_bits, Flag, UNUSED_BITS};
use crate::cpu::laws::lemma_flags_after;
use crate::cpu::state::MachineState;
use crate::cpu::step::{advance, lemma_advance_none, lemma_advance_sum, search_length};
use crate::ops::opcodes::{BigReg, Opcode, Reg};

verus! {

/// A search examines no more bytes than it may, and at least one if it may
/// examine any.
pub proof fn lemma_search_length_bounds(
    mem: Seq<u8>,
    wanted: u8,
    start: u16,
    count: nat,
    forward: bool,
)
    ensures
        search_length(mem, wanted, start, count, forward) <= count,
        count > 0 ==> search_length(mem, wanted, start, count, forward) >= 1,
    decreases count,
{
    if count > 0 && mem[start as int] != wanted {
        lemma_search_length_bounds(
            mem,
            wanted,
            advance(start, forward, 1),
            (count - 1) as nat,
            forward,
        );
    }
}

/// A search stops at the first byte that equals the one wanted: no byte
/// before the last one examined equals it.
pub proof fn lemma_search_passes_no_match(
    mem: Seq<u8>,
    wanted: u8,
    start: u16,
    count: nat,
    forward: bool,
    k: int,
)
    requires
        0 <= k < search_length(mem, wanted, start, count, forward) - 1,
    ensures
        mem[advance(start, forward, k) as int] != wanted,
    decreases count,
{
    lemma_advance_none(start, forward);
    if k > 0 {
        lemma_search_passes_no_match(
            mem,
            wanted,
            advance(start, forward, 1),
            (count - 1) as nat,
            forward,
            k - 1,
        );
        lemma_advance_sum(start, forward, 1, k - 1);
    }
}

/// A search that stops before it has examined all the bytes it may has
/// stopped on a byte that equals the one wanted.
pub proof fn lemma_search_stops_on_match(
    mem: Seq<u8>,
    wanted: u8,
    start: u16,
    count: nat,
    forward: bool,
)
    requires
        0 < search_length(mem, wanted, start, count, forward) < count,
    ensures
        mem[advance(
            start,
            forward,
            search_length(mem, wanted, start, count, forward) - 1,
        ) as int] == wanted,
    decreases count,
{
    lemma_advance_none(start, forward);
    if mem[start as int] != wanted {
        let rest = search_length(
            mem,
            wanted,
            advance(start, forward, 1),
            (count - 1) as nat,
            forward,
        );
        lemma_search_length_bounds(
            mem,
            wanted,
            advance(start, forward, 1),
            (count - 1) as nat,
            forward,
        );
        lemma_search_stops_on_match(
            mem,
            wanted,
            advance(start, forward, 1),
            (count - 1) as nat,
            forward,
        );
        lemma_advance_sum(start, forward, 1, rest - 1);
    }
}

/// The state after a search has examined `examined` bytes: HL is past them,
/// BC is down by their number, zero tells whether the last of them equals
/// A, parity/overflow whether BC is still not zero, add/subtract is set, and
/// the carry, the accumulator and the memory are as they were.
pub proof fn lemma_searched_state(s: MachineState, forward: bool, examined: int)
    requires
        s.wf(),
        1 <= examined <= s.wide(BigReg::BC),
    ensures
        s.searched(forward, examined).wf(),
        s.searched(forward, examined).wide(BigReg::HL) == advance(
            s.wide(BigReg::HL),
            forward,
            examined,
        ),
        s.searched(forward, examined).wide(BigReg::BC) == s.wide(BigReg::BC) - examined,
        s.searched(forward, examined).flag(Flag::Zero) == (s.read(
            advance(s.wide(BigReg::HL), forward, examined - 1),
        ) == s.reg(Reg::A)),
        s.searched(forward, examined).flag(Flag::ParityOverflow) == (s.wide(BigReg::BC)
            != examined),
        s.searched(forward, examined).flag(Flag::AddSubtract),
        s.searched(forward, examined).flag(Flag::Carry) == s.flag(Flag::Carry),
        s.searched(forward, examined).reg(Reg::A) == s.reg(Reg::A),
        s.searched(forward, examined).mem == s.mem,
{
    reveal(MachineState::searched);
    let hl = s.wide(BigReg::HL);
    let left = wrap16(s.wide(BigReg::BC) - examined);
    let o = difference(
        s.reg(Reg::A),
        s.read(advance(hl, forward, examined - 1)),
        false,
    );
    let s0 = s.with_wide(BigReg::HL, advance(hl, forward, examined)).with_wide(BigReg::BC, left);
    let s1 = s0.with_flag(Flag::Sign, o.sign);
    let s2 = s1.with_flag(Flag::Zero, o.zero);
    let s3 = s2.with_flag(Flag::HalfCarry, o.half_carry);
    let s4 = s3.with_flag(Flag::ParityOverflow, left != 0);
    let s5 = s4.with_flag(Flag::AddSubtract, true);
    assert(s0.flag(Flag::Carry) == s.flag(Flag::Carry));
    lemma_flags_after(s0, Flag::Sign, o.sign);
    lemma_flags_after(s1, Flag::Zero, o.zero);
    lemma_flags_after(s2, Flag::HalfCarry, o.half_carry);
    lemma_flags_after(s3, Flag::ParityOverflow, left != 0);
    lemma_flags_after(s4, Flag::AddSubtract, true);
    assert(s5 == s.searched(forward, examined));
    assert(s5.wide(BigReg::HL) == s0.wide(BigReg::HL));
    assert(s5.wide(BigReg::BC) == s0.wide(BigReg::BC));
}

/// Block search, outcome: with BC not zero the repeating search examines at
/// least one byte and at most BC; HL and BC end that many bytes on; it ends
/// with zero set exactly when the last byte examined equals A, and if zero
/// is not set then BC is exhausted.
pub proof fn lemma_block_search_outcome(s: MachineState, forward: bool)
    requires
        s.wf(),
        s.wide(BigReg::BC) != 0,
    ensures
        ({
            let examined = search_length(
                s.mem,
                s.reg(Reg::A),
                s.wide(BigReg::HL),
                s.wide(BigReg::BC) as nat,
                forward,
            );
            let end = s.block_search(forward);
            &&& 1 <= examined <= s.wide(BigReg::BC)
            &&& end.wide(BigReg::HL) == advance(s.wide(BigReg::HL), forward, examined as int)
            &&& end.wide(BigReg::BC) == s.wide(BigReg::BC) - examined
            &&& end.flag(Flag::Zero) == (s.read(
                advance(s.wide(BigReg::HL), forward, examined - 1),
            ) == s.reg(Reg::A))
            &&& !end.flag(Flag::Zero) ==> end.wide(BigReg::BC) == 0
            &&& end.flag(Flag::ParityOverflow) == (end.wide(BigReg::BC) != 0)
            &&& end.mem == s.mem
        }),
{
    let bc = s.wide(BigReg::BC) as nat;
    let examined = search_length(s.mem, s.reg(Reg::A), s.wide(BigReg::HL), bc, forward);
    lemma_search_length_bounds(s.mem, s.reg(Reg::A), s.wide(BigReg::HL), bc, forward);
    lemma_searched_state(s, forward, examined as int);
    if examined < bc {
        lemma_search_stops_on_match(s.mem, s.reg(Reg::A), s.wide(BigReg::HL), bc, forward);
    }
}

/// Setting sign, zero, half-carry, parity/overflow and add/subtract a second
/// time forgets what they were set to the first time.
proof fn lemma_five_flags_again(
    f: u8,
    s1: bool,
    z1: bool,
    h1: bool,
    p1: bool,
    s2: bool,
    z2: bool,
    h2: bool,
    p2: bool,
)
    by (bit_vector)
    ensures
        ({
            let once = with_bits(
                with_bits(
                    with_bits(with_bits(with_bits(f, 0x80, s1), 0x40, z1), 0x10, h1),
                    0x04,
                    p1,
                ),
                0x02,
                true,
            );
            let twice = with_bits(
                with_bits(
                    with_bits(with_bits(with_bits(once, 0x80, s2), 0x40, z2), 0x10, h2),
                    0x04,
                    p2,
                ),
                0x02,
                true,
            );
            let direct = with_bits(
                with_bits(
                    with_bits(with_bits(with_bits(f, 0x80, s2), 0x40, z2), 0x10, h2),
                    0x04,
                    p2,
                ),
                0x02,
                true,
            );
            twice == direct
        }),
{
}

/// The flags byte after a search: sign, zero and half-carry of the last
/// comparison, parity/overflow for what is left in BC, add/subtract set.
spec fn search_flags(f: u8, sign: bool, zero: bool, half_carry: bool, more: bool) -> u8 {
    flag_assign(
        flag_assign(
            flag_assign(
                flag_assign(flag_assign(f, Flag::Sign, sign), Flag::Zero, zero),
                Flag::HalfCarry,
                half_carry,
            ),
            Flag::ParityOverflow,
            more,
        ),
        Flag::AddSubtract,
        true,
    )
}

/// The flags of a second search do not depend on those of the first.
proof fn lemma_search_flags_again(
    f: u8,
    s1: bool,
    z1: bool,
    h1: bool,
    p1: bool,
    s2: bool,
    z2: bool,
    h2: bool,
    p2: bool,
)
    ensures
        search_flags(search_flags(f, s1, z1, h1, p1), s2, z2, h2, p2) == search_flags(
            f,
            s2,
            z2,
            h2,
            p2,
        ),
{
    lemma_five_flags_again(f, s1, z1, h1, p1, s2, z2, h2, p2);
}

/// The state `s` with `hl` in HL, `left` in BC and `flags` in F.
#[verifier::opaque]
spec fn search_result(s: MachineState, hl: u16, left: u16, flags: u8) -> MachineState {
    MachineState {
        regs: s.regs.update(Reg::H.index(), high_byte(hl)).update(
            Reg::L.index(),
            low_byte(hl),
        ).update(Reg::B.index(), high_byte(left)).update(Reg::C.index(), low_byte(left)).update(
            Reg::F.index(),
            flags,
        ),
        ..s
    }
}

proof fn lemma_search_result_reads(s: MachineState, hl: u16, left: u16, flags: u8)
    requires
        s.wf(),
    ensures
        search_result(s, hl, left, flags).wf(),
        search_result(s, hl, left, flags).wide(BigReg::HL) == hl,
        search_result(s, hl, left, flags).wide(BigReg::BC) == left,
        search_result(s, hl, left, flags).reg(Reg::A) == s.reg(Reg::A),
        search_result(s, hl, left, flags).reg(Reg::F) == flags,
        search_result(s, hl, left, flags).mem == s.mem,
{
    reveal(search_result);
}

proof fn lemma_search_result_twice(
    s: MachineState,
    hl1: u16,
    left1: u16,
    flags1: u8,
    hl2: u16,
    left2: u16,
    flags2: u8,
)
    requires
        s.wf(),
    ensures
        search_result(search_result(s, hl1, left1, flags1), hl2, left2, flags2) == search_result(
            s,
            hl2,
            left2,
            flags2,
        ),
{
    reveal(search_result);
    assert(search_result(search_result(s, hl1, left1, flags1), hl2, left2, flags2).regs
        =~= search_result(s, hl2, left2, flags2).regs);
}

/// The registers after a search are those before it with H, L, B, C and F
/// replaced; nothing else changes.
proof fn lemma_searched_is_result(s: MachineState, forward: bool, examined: int)
    requires
        s.wf(),
    ensures
        ({
            let o = difference(
                s.reg(Reg::A),
                s.read(advance(s.wide(BigReg::HL), forward, examined - 1)),
                false,
            );
            let left = wrap16(s.wide(BigReg::BC) - examined);
            s.searched(forward, examined) == search_result(
                s,
                advance(s.wide(BigReg::HL), forward, examined),
                left,
                search_flags(s.reg(Reg::F), o.sign, o.zero, o.half_carry, left != 0),
            )
        }),
{
    reveal(MachineState::searched);
    reveal(search_result);
    let o = difference(
        s.reg(Reg::A),
        s.read(advance(s.wide(BigReg::HL), forward, examined - 1)),
        false,
    );
    let left = wrap16(s.wide(BigReg::BC) - examined);
    assert(s.searched(forward, examined).regs =~= search_result(
        s,
        advance(s.wide(BigReg::HL), forward, examined),
        left,
        search_flags(s.reg(Reg::F), o.sign, o.zero, o.half_carry, left != 0),
    ).regs);
}

/// A search that goes on after `first` bytes for `second` more ends as one
/// search over all of them.
proof fn lemma_searched_twice(s: MachineState, forward: bool, first: int, second: int)
    requires
        s.wf(),
        1 <= first,
        1 <= second,
        first + second <= s.wide(BigReg::BC),
    ensures
        s.searched(forward, first).searched(forward, second) == s.searched(
            forward,
            first + second,
        ),
{
    let a = s.reg(Reg::A);
    let hl = s.wide(BigReg::HL);
    let bc = s.wide(BigReg::BC);
    let f = s.reg(Reg::F);
    let o1 = difference(a, s.read(advance(hl, forward, first - 1)), false);
    let o2 = difference(a, s.read(advance(hl, forward, first + second - 1)), false);
    let hl1 = advance(hl, forward, first);
    let left1 = wrap16(bc - first);
    let flags1 = search_flags(f, o1.sign, o1.zero, o1.half_carry, left1 != 0);
    let hl2 = advance(hl, forward, first + second);
    let left2 = wrap16(bc - first - second);
    let flags2 = search_flags(f, o2.sign, o2.zero, o2.half_carry, left2 != 0);
    let one = s.searched(forward, first);
    lemma_searched_is_result(s, forward, first);
    lemma_search_result_reads(s, hl1, left1, flags1);
    lemma_searched_is_result(one, forward, second);
    lemma_searched_is_result(s, forward, first + second);
    lemma_advance_sum(hl, forward, first, second);
    lemma_advance_sum(hl, forward, first, second - 1);
    lemma_wrap16_near(bc - first);
    lemma_wrap16_near(left1 - second);
    lemma_wrap16_near(bc - first - second);
    lemma_search_flags_again(
        f,
        o1.sign,
        o1.zero,
        o1.half_carry,
        left1 != 0,
        o2.sign,
        o2.zero,
        o2.half_carry,
        left2 != 0,
    );
    lemma_search_result_twice(s, hl1, left1, flags1, hl2, left2, flags2);
}

/// Block search, step by step: with BC zero the repeating search changes
/// nothing; otherwise it is the single search, and if that found no match and
/// left BC not zero, the repeating search again on what is left.
pub proof fn lemma_block_search_unfolds(s: MachineState, forward: bool)
    requires
        s.wf(),
    ensures
        s.wide(BigReg::BC) == 0 ==> s.block_search(forward) == s,
        s.wide(BigReg::BC) != 0 && (s.search_step(forward).flag(Flag::Zero) || s.search_step(
            forward,
        ).wide(BigReg::BC) == 0) ==> s.block_search(forward) == s.search_step(forward),
        s.wide(BigReg::BC) != 0 && !s.search_step(forward).flag(Flag::Zero) && s.search_step(
            forward,
        ).wide(BigReg::BC) != 0 ==> s.block_search(forward) == s.search_step(
            forward,
        ).block_search(forward),
        s.step(Opcode::CPIR) == s.block_search(true),
        s.step(Opcode::CPDR) == s.block_search(false),
        s.step(Opcode::CPI) == s.search_step(true),
        s.step(Opcode::CPD) == s.search_step(false),
{
    let a = s.reg(Reg::A);
    let hl = s.wide(BigReg::HL);
    let bc = s.wide(BigReg::BC);
    lemma_advance_none(hl, forward);
    if bc != 0 {
        let one = s.search_step(forward);
        lemma_searched_state(s, forward, 1);
        let examined = search_length(s.mem, a, hl, bc as nat, forward);
        if s.read(hl) == a || bc == 1 {
            assert(search_length(s.mem, a, advance(hl, forward, 1), 0, forward) == 0);
            assert(examined == 1);
        } else {
            let rest = search_length(one.mem, a, one.wide(BigReg::HL), (bc - 1) as nat, forward);
            assert(examined == 1 + rest);
            lemma_search_length_bounds(
                one.mem,
                a,
                one.wide(BigReg::HL),
                (bc - 1) as nat,
                forward,
            );
            lemma_searched_twice(s, forward, 1, rest as int);
        }
    }
}

/// The searches take a well-formed state to a well-formed state.
pub proof fn lemma_block_search_keeps_wf(s: MachineState, forward: bool)
    requires
        s.wf(),
    ensures
        s.block_search(forward).wf(),
        s.search_step(forward).wf(),
{
    lemma_searched_is_result(s, forward, 1);
    let examined = search_length(
        s.mem,
        s.reg(Reg::A),
        s.wide(BigReg::HL),
        s.wide(BigReg::BC) as nat,
        forward,
    );
    lemma_searched_is_result(s, forward, examined as int);
    reveal(search_result);
}

/// The searches leave bits 3 and 5 of F as they were.
pub proof fn lemma_search_keeps_unused_bits(s: MachineState, forward: bool)
    requires
        s.wf(),
    ensures
        s.search_step(forward).reg(Reg::F) & UNUSED_BITS == s.reg(Reg::F) & UNUSED_BITS,
        s.block_search(forward).reg(Reg::F) & UNUSED_BITS == s.reg(Reg::F) & UNUSED_BITS,
{
    let examined = search_length(
        s.mem,
        s.reg(Reg::A),
        s.wide(BigReg::HL),
        s.wide(BigReg::BC) as nat,
        forward,
    );
    lemma_searched_keeps_unused_bits(s, forward, 1);
    lemma_searched_keeps_unused_bits(s, forward, examined as int);
}

proof fn lemma_searched_keeps_unused_bits(s: MachineState, forward: bool, examined: int)
    requires
        s.wf(),
    ensures
        s.searched(forward, examined).reg(Reg::F) & UNUSED_BITS == s.reg(Reg::F) & UNUSED_BITS,
{
    let o = difference(
        s.reg(Reg::A),
        s.read(advance(s.wide(BigReg::HL), forward, examined - 1)),
        false,
    );
    let left = wrap16(s.wide(BigReg::BC) - examined);
    lemma_searched_is_result(s, forward, examined);
    lemma_search_result_reads(
        s,
        advance(s.wide(BigReg::HL), forward, examined),
        left,
        search_flags(s.reg(Reg::F), o.sign, o.zero, o.half_carry, left != 0),
    );
    lemma_five_flags_keep_unused_bits(s.reg(Reg::F), o.sign, o.zero, o.half_carry, left != 0);
}

proof fn lemma_five_flags_keep_unused_bits(f: u8, s: bool, z: bool, h: bool, p: bool)
    by (bit_vector)
    ensures
        with_bits(
            with_bits(with_bits(with_bits(with_bits(f, 0x80, s), 0x40, z), 0x10, h), 0x04, p),
            0x02,
            true,
        ) & 0x28 == f & 0x28,
{
}

} // verus!
