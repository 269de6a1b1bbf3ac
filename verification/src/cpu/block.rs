//! The block instructions: moving and searching a range of memory that HL,
//! DE and BC describe.

use vstd::prelude::*;
use crate::bits::wrap16;
use crate::cpu::alu::sub8;
use crate::cpu::machine::Z80;
use crate::cpu::state::MachineState;
use crate::cpu::step::{
    advance, copy_block, lemma_advance_again, lemma_advance_none, search_length,
};
use crate::ops::opcodes::{BigReg, Reg};

verus! {

/// The address `count` bytes after `address` for a forward block instruction,
/// before it for a backward one.
pub fn advance_address(address: u16, forward: bool, count: u16) -> (next: u16)
    ensures
        next == advance(address, forward, count as int),
{
    proof {
        reveal(advance);
    }
    if forward {
        address.wrapping_add(count)
    } else {
        address.wrapping_sub(count)
    }
}

impl Z80 {
    /// Moves one byte from (HL) to (DE) and steps HL, DE and BC.
    pub fn move_step(&mut self, forward: bool)
        ensures
            final(self)@ == old(self)@.move_step(forward),
    {
        let hl = self.get_big_reg(BigReg::HL);
        let de = self.get_big_reg(BigReg::DE);
        let left = self.get_big_reg(BigReg::BC).wrapping_sub(1);
        let byte = self.load(hl);
        self.store(de, byte);
        self.set_big_reg(BigReg::HL, advance_address(hl, forward, 1));
        self.set_big_reg(BigReg::DE, advance_address(de, forward, 1));
        self.set_big_reg(BigReg::BC, left);
        self.set_half_carry(false);
        self.set_parity_overflow(left != 0);
        self.set_add_subtract(false);
    }

    /// Moves BC bytes from (HL) onwards to (DE) onwards, one at a time.
    pub fn block_move(&mut self, forward: bool)
        ensures
            final(self)@ == old(self)@.block_move(forward),
    {
        let hl = self.get_big_reg(BigReg::HL);
        let de = self.get_big_reg(BigReg::DE);
        let bc = self.get_big_reg(BigReg::BC);
        let ghost start = self@;
        let mut source = hl;
        let mut target = de;
        let mut moved: u16 = 0;
        proof {
            lemma_advance_none(hl, forward);
            lemma_advance_none(de, forward);
        }
        while moved < bc
            invariant
                moved <= bc,
                source == advance(hl, forward, moved as int),
                target == advance(de, forward, moved as int),
                self@ == (MachineState { mem: self@.mem, ..start }),
                self@.mem.len() == start.mem.len(),
                copy_block(start.mem, hl, de, bc as nat, forward) == copy_block(
                    self@.mem,
                    source,
                    target,
                    (bc - moved) as nat,
                    forward,
                ),
            decreases bc - moved,
        {
            proof {
                lemma_advance_again(hl, forward, moved as int);
                lemma_advance_again(de, forward, moved as int);
            }
            let byte = self.load(source);
            self.store(target, byte);
            source = advance_address(source, forward, 1);
            target = advance_address(target, forward, 1);
            moved = moved + 1;
        }
        self.set_big_reg(BigReg::HL, source);
        self.set_big_reg(BigReg::DE, target);
        self.set_big_reg(BigReg::BC, 0);
        self.set_half_carry(false);
        self.set_parity_overflow(false);
        self.set_add_subtract(false);
    }

    /// Leaves the registers and flags as a search does that has examined
    /// `examined` bytes.
    fn finish_search(&mut self, forward: bool, examined: u16)
        requires
            examined >= 1,
        ensures
            final(self)@ == old(self)@.searched(forward, examined as int),
    {
        proof {
            reveal(MachineState::searched);
        }
        let hl = self.get_big_reg(BigReg::HL);
        let bc = self.get_big_reg(BigReg::BC);
        let left = bc.wrapping_sub(examined);
        assert(left == wrap16(bc - examined));
        let last = self.load(advance_address(hl, forward, examined - 1));
        let o = sub8(self.reg(Reg::A), last, false);
        self.set_big_reg(BigReg::HL, advance_address(hl, forward, examined));
        self.set_big_reg(BigReg::BC, left);
        self.set_sign(o.sign);
        self.set_zero(o.zero);
        self.set_half_carry(o.half_carry);
        self.set_parity_overflow(left != 0);
        self.set_add_subtract(true);
    }

    /// Compares A with the byte at (HL) and steps HL and BC.
    pub fn search_step(&mut self, forward: bool)
        ensures
            final(self)@ == old(self)@.search_step(forward),
    {
        self.finish_search(forward, 1);
    }

    /// Compares A with the bytes from (HL) onwards until one equals it or BC
    /// bytes have been examined.
    pub fn block_search(&mut self, forward: bool)
        ensures
            final(self)@ == old(self)@.block_search(forward),
    {
        let wanted = self.reg(Reg::A);
        let hl = self.get_big_reg(BigReg::HL);
        let bc = self.get_big_reg(BigReg::BC);
        let mut address = hl;
        let mut examined: u16 = 0;
        let mut found = false;
        proof {
            lemma_advance_none(hl, forward);
        }
        while examined < bc && !found
            invariant
                examined <= bc,
                address == advance(hl, forward, examined as int),
                found ==> search_length(self@.mem, wanted, hl, bc as nat, forward) == examined,
                !found ==> search_length(self@.mem, wanted, hl, bc as nat, forward) == examined
                    + search_length(self@.mem, wanted, address, (bc - examined) as nat, forward),
            decreases bc - examined,
        {
            proof {
                lemma_advance_again(hl, forward, examined as int);
            }
            found = self.load(address) == wanted;
            address = advance_address(address, forward, 1);
            examined = examined + 1;
        }
        if examined > 0 {
            self.finish_search(forward, examined);
        }
    }
}

} // verus!
