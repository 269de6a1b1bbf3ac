//! The round trip of the decoder: decoding the bytes of an instruction gives
//! the instruction back, and the number of its bytes.

use vstd::prelude::*;
use crate::ops::encoding::{
    encoding, extended_encoding, indexed_encoding, ix_twin, pair_selector, selector,
    stack_pair_selector, unprefixed_encoding,
};
use crate::ops::opcodes::{BigReg, Opcode, Reg};
use crate::ops::parser::{
    byte_or_zero, decode, extended, indexed, iy_twin, pair_at, register_at, stack_pair_at,
    unprefixed,
};

verus! {

/// A selector names the register it is the selector of; a register selector
/// is never the selector of memory.
pub proof fn lemma_selectors_invert(r: Reg, rr: BigReg)
    ensures
        selector(r) matches Some(c) ==> 0 <= c < 8 && c != 6 && register_at(c) == Some(r),
        pair_selector(rr) matches Some(p) ==> 0 <= p < 4 && pair_at(p) == rr,
        stack_pair_selector(rr) matches Some(p) ==> 0 <= p < 4 && stack_pair_at(p) == rr,
{
}

/// The byte of `front` at `i`, or `otherwise` past its end.
spec fn at(front: Seq<u8>, i: int, otherwise: u8) -> u8 {
    if i < front.len() {
        front[i]
    } else {
        otherwise
    }
}

/// What the table of unprefixed instructions gives for the bytes of `op`.
spec fn unprefixed_reads_back(op: Opcode, m1: u8, m2: u8) -> bool {
    let front = unprefixed_encoding(op).unwrap();
    &&& 1 <= front.len() <= 3
    &&& front[0] != 0xDD && front[0] != 0xED && front[0] != 0xFD
    &&& unprefixed(front[0], at(front, 1, m1), at(front, 2, m2)) == (front.len() as u8, op)
}

/// The three fields of an opcode byte put together from them.
proof fn lemma_fields(x: int, y: int, z: int)
    requires
        0 <= x < 4,
        0 <= y < 8,
        0 <= z < 8,
    ensures
        0 <= 64 * x + 8 * y + z < 256,
        (64 * x + 8 * y + z) / 64 == x,
        ((64 * x + 8 * y + z) / 8) % 8 == y,
        (64 * x + 8 * y + z) % 8 == z,
{
}

/// Whether the opcode byte of `op` carries a selector.
spec fn has_selector(op: Opcode) -> bool {
    match op {
        Opcode::LDRR(_, _)
        | Opcode::LDRN(_, _)
        | Opcode::LDRHL(_)
        | Opcode::LDHLR(_)
        | Opcode::LDDDNN(_, _)
        | Opcode::PUSHQQ(_)
        | Opcode::POPQQ(_)
        | Opcode::ADDAR(_)
        | Opcode::SUBAR(_)
        | Opcode::SBCAR(_)
        | Opcode::ANDAR(_)
        | Opcode::XORAR(_)
        | Opcode::ORAR(_)
        | Opcode::CPAR(_)
        | Opcode::INCR(_)
        | Opcode::DECR(_) => true,
        _ => false,
    }
}

/// The bytes of LDRR read back: the fields of its opcode byte are its selectors.
proof fn lemma_unprefixed_ldrr(op: Opcode, m1: u8, m2: u8)
    requires
        unprefixed_encoding(op) is Some,
        op is LDRR,
    ensures
        unprefixed_reads_back(op, m1, m2),
{
    match op {
        Opcode::LDRR(r1, r2) => lemma_fields(1, selector(r1).unwrap(), selector(r2).unwrap()),
        _ => {},
    }
}

/// The bytes of LDRN read back: the fields of its opcode byte are its selectors.
proof fn lemma_unprefixed_ldrn(op: Opcode, m1: u8, m2: u8)
    requires
        unprefixed_encoding(op) is Some,
        op is LDRN,
    ensures
        unprefixed_reads_back(op, m1, m2),
{
    match op {
        Opcode::LDRN(r, _) => lemma_fields(0, selector(r).unwrap(), 6),
        _ => {},
    }
}

/// The bytes of LDRHL read back: the fields of its opcode byte are its selectors.
proof fn lemma_unprefixed_ldrhl(op: Opcode, m1: u8, m2: u8)
    requires
        unprefixed_encoding(op) is Some,
        op is LDRHL,
    ensures
        unprefixed_reads_back(op, m1, m2),
{
    match op {
        Opcode::LDRHL(r) => lemma_fields(1, selector(r).unwrap(), 6),
        _ => {},
    }
}

/// The bytes of LDHLR read back: the fields of its opcode byte are its selectors.
proof fn lemma_unprefixed_ldhlr(op: Opcode, m1: u8, m2: u8)
    requires
        unprefixed_encoding(op) is Some,
        op is LDHLR,
    ensures
        unprefixed_reads_back(op, m1, m2),
{
    match op {
        Opcode::LDHLR(r) => lemma_fields(1, 6, selector(r).unwrap()),
        _ => {},
    }
}

/// The bytes of LDDDNN read back: the fields of its opcode byte are its selectors.
proof fn lemma_unprefixed_ldddnn(op: Opcode, m1: u8, m2: u8)
    requires
        unprefixed_encoding(op) is Some,
        op is LDDDNN,
    ensures
        unprefixed_reads_back(op, m1, m2),
{
    match op {
        Opcode::LDDDNN(dd, _) => lemma_fields(0, 2 * pair_selector(dd).unwrap(), 1),
        _ => {},
    }
}

/// The bytes of PUSHQQ read back: the fields of its opcode byte are its selectors.
proof fn lemma_unprefixed_pushqq(op: Opcode, m1: u8, m2: u8)
    requires
        unprefixed_encoding(op) is Some,
        op is PUSHQQ,
    ensures
        unprefixed_reads_back(op, m1, m2),
{
    match op {
        Opcode::PUSHQQ(qq) => lemma_fields(3, 2 * stack_pair_selector(qq).unwrap(), 5),
        _ => {},
    }
}

/// The bytes of POPQQ read back: the fields of its opcode byte are its selectors.
proof fn lemma_unprefixed_popqq(op: Opcode, m1: u8, m2: u8)
    requires
        unprefixed_encoding(op) is Some,
        op is POPQQ,
    ensures
        unprefixed_reads_back(op, m1, m2),
{
    match op {
        Opcode::POPQQ(qq) => lemma_fields(3, 2 * stack_pair_selector(qq).unwrap(), 1),
        _ => {},
    }
}

/// The bytes of ADDAR read back: the fields of its opcode byte are its selectors.
proof fn lemma_unprefixed_addar(op: Opcode, m1: u8, m2: u8)
    requires
        unprefixed_encoding(op) is Some,
        op is ADDAR,
    ensures
        unprefixed_reads_back(op, m1, m2),
{
    match op {
        Opcode::ADDAR(r) => lemma_fields(2, 0, selector(r).unwrap()),
        _ => {},
    }
}

/// The bytes of SUBAR read back: the fields of its opcode byte are its selectors.
proof fn lemma_unprefixed_subar(op: Opcode, m1: u8, m2: u8)
    requires
        unprefixed_encoding(op) is Some,
        op is SUBAR,
    ensures
        unprefixed_reads_back(op, m1, m2),
{
    match op {
        Opcode::SUBAR(r) => lemma_fields(2, 2, selector(r).unwrap()),
        _ => {},
    }
}

/// The bytes of SBCAR read back: the fields of its opcode byte are its selectors.
proof fn lemma_unprefixed_sbcar(op: Opcode, m1: u8, m2: u8)
    requires
        unprefixed_encoding(op) is Some,
        op is SBCAR,
    ensures
        unprefixed_reads_back(op, m1, m2),
{
    match op {
        Opcode::SBCAR(r) => lemma_fields(2, 3, selector(r).unwrap()),
        _ => {},
    }
}

/// The bytes of ANDAR read back: the fields of its opcode byte are its selectors.
proof fn lemma_unprefixed_andar(op: Opcode, m1: u8, m2: u8)
    requires
        unprefixed_encoding(op) is Some,
        op is ANDAR,
    ensures
        unprefixed_reads_back(op, m1, m2),
{
    match op {
        Opcode::ANDAR(r) => lemma_fields(2, 4, selector(r).unwrap()),
        _ => {},
    }
}

/// The bytes of XORAR read back: the fields of its opcode byte are its selectors.
proof fn lemma_unprefixed_xorar(op: Opcode, m1: u8, m2: u8)
    requires
        unprefixed_encoding(op) is Some,
        op is XORAR,
    ensures
        unprefixed_reads_back(op, m1, m2),
{
    match op {
        Opcode::XORAR(r) => lemma_fields(2, 5, selector(r).unwrap()),
        _ => {},
    }
}

/// The bytes of ORAR read back: the fields of its opcode byte are its selectors.
proof fn lemma_unprefixed_orar(op: Opcode, m1: u8, m2: u8)
    requires
        unprefixed_encoding(op) is Some,
        op is ORAR,
    ensures
        unprefixed_reads_back(op, m1, m2),
{
    match op {
        Opcode::ORAR(r) => lemma_fields(2, 6, selector(r).unwrap()),
        _ => {},
    }
}

/// The bytes of CPAR read back: the fields of its opcode byte are its selectors.
proof fn lemma_unprefixed_cpar(op: Opcode, m1: u8, m2: u8)
    requires
        unprefixed_encoding(op) is Some,
        op is CPAR,
    ensures
        unprefixed_reads_back(op, m1, m2),
{
    match op {
        Opcode::CPAR(r) => lemma_fields(2, 7, selector(r).unwrap()),
        _ => {},
    }
}

/// The bytes of INCR read back: the fields of its opcode byte are its selectors.
proof fn lemma_unprefixed_incr(op: Opcode, m1: u8, m2: u8)
    requires
        unprefixed_encoding(op) is Some,
        op is INCR,
    ensures
        unprefixed_reads_back(op, m1, m2),
{
    match op {
        Opcode::INCR(r) => lemma_fields(0, selector(r).unwrap(), 4),
        _ => {},
    }
}

/// The bytes of DECR read back: the fields of its opcode byte are its selectors.
proof fn lemma_unprefixed_decr(op: Opcode, m1: u8, m2: u8)
    requires
        unprefixed_encoding(op) is Some,
        op is DECR,
    ensures
        unprefixed_reads_back(op, m1, m2),
{
    match op {
        Opcode::DECR(r) => lemma_fields(0, selector(r).unwrap(), 5),
        _ => {},
    }
}

/// The bytes of an instruction whose opcode byte is fixed read back.
proof fn lemma_unprefixed_fixed(op: Opcode, m1: u8, m2: u8)
    requires
        unprefixed_encoding(op) is Some,
        !has_selector(op),
    ensures
        unprefixed_reads_back(op, m1, m2),
{
}

/// What the table of extended instructions gives for the bytes of `op`
/// after the prefix.
spec fn extended_reads_back(op: Opcode, m1: u8, m2: u8) -> bool {
    let front = extended_encoding(op).unwrap();
    &&& 1 <= front.len() <= 3
    &&& extended(front[0], at(front, 1, m1), at(front, 2, m2)) == ((front.len() + 1) as u8, op)
}

/// The bytes of LDDDNN2 read back: the fields of its opcode byte are its selectors.
proof fn lemma_extended_lddnn2(op: Opcode, m1: u8, m2: u8)
    requires
        extended_encoding(op) is Some,
        op is LDDDNN2,
    ensures
        extended_reads_back(op, m1, m2),
{
    match op {
        Opcode::LDDDNN2(dd, _) => lemma_fields(1, 2 * pair_selector(dd).unwrap() + 1, 3),
        _ => {},
    }
}

/// The bytes of LDNNDD read back: the fields of its opcode byte are its selectors.
proof fn lemma_extended_ldnndd(op: Opcode, m1: u8, m2: u8)
    requires
        extended_encoding(op) is Some,
        op is LDNNDD,
    ensures
        extended_reads_back(op, m1, m2),
{
    match op {
        Opcode::LDNNDD(_, dd) => lemma_fields(1, 2 * pair_selector(dd).unwrap(), 3),
        _ => {},
    }
}

/// The bytes of an instruction whose opcode byte is fixed read back.
proof fn lemma_extended_fixed(op: Opcode, m1: u8, m2: u8)
    requires
        extended_encoding(op) is Some,
        !(op is LDDDNN2),
        !(op is LDNNDD),
    ensures
        extended_reads_back(op, m1, m2),
{
}

/// What the table of indexed instructions gives for the bytes of `op` after
/// the prefix.
spec fn indexed_reads_back(op: Opcode, m1: u8, m2: u8) -> bool {
    let front = indexed_encoding(op).unwrap();
    &&& 1 <= front.len() <= 3
    &&& indexed(front[0], at(front, 1, m1), at(front, 2, m2)) == ((front.len() + 1) as u8, op)
}

/// The bytes of LDRIXD read back: the fields of its opcode byte are its selectors.
proof fn lemma_indexed_ldrixd(op: Opcode, m1: u8, m2: u8)
    requires
        indexed_encoding(op) is Some,
        op is LDRIXD,
    ensures
        indexed_reads_back(op, m1, m2),
{
    match op {
        Opcode::LDRIXD(r, _) => lemma_fields(1, selector(r).unwrap(), 6),
        _ => {},
    }
}

/// The bytes of LDIXDR read back: the fields of its opcode byte are its selectors.
proof fn lemma_indexed_ldixdr(op: Opcode, m1: u8, m2: u8)
    requires
        indexed_encoding(op) is Some,
        op is LDIXDR,
    ensures
        indexed_reads_back(op, m1, m2),
{
    match op {
        Opcode::LDIXDR(_, r) => lemma_fields(1, 6, selector(r).unwrap()),
        _ => {},
    }
}

/// The bytes of an instruction whose opcode byte is fixed read back.
proof fn lemma_indexed_fixed(op: Opcode, m1: u8, m2: u8)
    requires
        indexed_encoding(op) is Some,
        !(op is LDRIXD),
        !(op is LDIXDR),
    ensures
        indexed_reads_back(op, m1, m2),
{
}

/// The bytes of every instruction of this table read back.
proof fn lemma_unprefixed_reads_back(op: Opcode, m1: u8, m2: u8)
    requires
        unprefixed_encoding(op) is Some,
    ensures
        unprefixed_reads_back(op, m1, m2),
{
    match op {
        Opcode::LDRR(..) => lemma_unprefixed_ldrr(op, m1, m2),
        Opcode::LDRN(..) => lemma_unprefixed_ldrn(op, m1, m2),
        Opcode::LDRHL(..) => lemma_unprefixed_ldrhl(op, m1, m2),
        Opcode::LDHLR(..) => lemma_unprefixed_ldhlr(op, m1, m2),
        Opcode::LDDDNN(..) => lemma_unprefixed_ldddnn(op, m1, m2),
        Opcode::PUSHQQ(..) => lemma_unprefixed_pushqq(op, m1, m2),
        Opcode::POPQQ(..) => lemma_unprefixed_popqq(op, m1, m2),
        Opcode::ADDAR(..) => lemma_unprefixed_addar(op, m1, m2),
        Opcode::SUBAR(..) => lemma_unprefixed_subar(op, m1, m2),
        Opcode::SBCAR(..) => lemma_unprefixed_sbcar(op, m1, m2),
        Opcode::ANDAR(..) => lemma_unprefixed_andar(op, m1, m2),
        Opcode::XORAR(..) => lemma_unprefixed_xorar(op, m1, m2),
        Opcode::ORAR(..) => lemma_unprefixed_orar(op, m1, m2),
        Opcode::CPAR(..) => lemma_unprefixed_cpar(op, m1, m2),
        Opcode::INCR(..) => lemma_unprefixed_incr(op, m1, m2),
        Opcode::DECR(..) => lemma_unprefixed_decr(op, m1, m2),
        _ => lemma_unprefixed_fixed(op, m1, m2),
    }
}

/// The bytes of every instruction of this table read back.
proof fn lemma_extended_reads_back(op: Opcode, m1: u8, m2: u8)
    requires
        extended_encoding(op) is Some,
    ensures
        extended_reads_back(op, m1, m2),
{
    match op {
        Opcode::LDDDNN2(..) => lemma_extended_lddnn2(op, m1, m2),
        Opcode::LDNNDD(..) => lemma_extended_ldnndd(op, m1, m2),
        _ => lemma_extended_fixed(op, m1, m2),
    }
}

/// The bytes of every instruction of this table read back.
proof fn lemma_indexed_reads_back(op: Opcode, m1: u8, m2: u8)
    requires
        indexed_encoding(op) is Some,
    ensures
        indexed_reads_back(op, m1, m2),
{
    match op {
        Opcode::LDRIXD(..) => lemma_indexed_ldrixd(op, m1, m2),
        Opcode::LDIXDR(..) => lemma_indexed_ldixdr(op, m1, m2),
        _ => lemma_indexed_fixed(op, m1, m2),
    }
}

/// The bytes in front of a program are read back from its front.
proof fn lemma_front(front: Seq<u8>, rest: Seq<u8>, i: int)
    requires
        0 <= i,
    ensures
        (front + rest).len() == front.len() + rest.len(),
        i < front.len() ==> byte_or_zero(front + rest, i) == front[i],
        at(front, i, byte_or_zero(front + rest, i)) == byte_or_zero(front + rest, i),
{
}

/// After a prefix, the bytes in front of a program are read back one place
/// further on.
proof fn lemma_front_after_prefix(prefix: u8, front: Seq<u8>, rest: Seq<u8>, i: int)
    requires
        0 <= i,
    ensures
        (seq![prefix] + front + rest).len() == 1 + front.len() + rest.len(),
        byte_or_zero(seq![prefix] + front + rest, 0) == prefix,
        at(front, i, byte_or_zero(seq![prefix] + front + rest, i + 1)) == byte_or_zero(
            seq![prefix] + front + rest,
            i + 1,
        ),
{
}

/// The twin on IY of the twin on IX of an instruction on IY is that
/// instruction.
proof fn lemma_twins_invert(op: Opcode)
    requires
        indexed_encoding(op) is None,
        indexed_encoding(ix_twin(op)) is Some,
    ensures
        iy_twin(ix_twin(op)) == op,
        unprefixed_encoding(op) is None,
        extended_encoding(op) is None,
{
}

/// Round trip: the bytes of an instruction, whatever follows them in the
/// program, decode to that instruction and to the number of its bytes.
pub proof fn lemma_decode_of_encoding(op: Opcode, rest: Seq<u8>)
    requires
        encoding(op) is Some,
    ensures
        decode(encoding(op).unwrap() + rest) == Some((encoding(op).unwrap().len() as u8, op)),
{
    let code = encoding(op).unwrap() + rest;
    let b1 = byte_or_zero(code, 1);
    let b2 = byte_or_zero(code, 2);
    let b3 = byte_or_zero(code, 3);
    if unprefixed_encoding(op) is Some {
        let front = unprefixed_encoding(op).unwrap();
        lemma_unprefixed_reads_back(op, b1, b2);
        lemma_front(front, rest, 0);
        lemma_front(front, rest, 1);
        lemma_front(front, rest, 2);
    } else if extended_encoding(op) is Some {
        let front = extended_encoding(op).unwrap();
        lemma_extended_reads_back(op, b2, b3);
        lemma_front_after_prefix(0xED, front, rest, 0);
        lemma_front_after_prefix(0xED, front, rest, 1);
        lemma_front_after_prefix(0xED, front, rest, 2);
    } else if indexed_encoding(op) is Some {
        let front = indexed_encoding(op).unwrap();
        lemma_indexed_reads_back(op, b2, b3);
        lemma_front_after_prefix(0xDD, front, rest, 0);
        lemma_front_after_prefix(0xDD, front, rest, 1);
        lemma_front_after_prefix(0xDD, front, rest, 2);
    } else {
        let twin = ix_twin(op);
        let front = indexed_encoding(twin).unwrap();
        lemma_twins_invert(op);
        lemma_indexed_reads_back(twin, b2, b3);
        lemma_front_after_prefix(0xFD, front, rest, 0);
        lemma_front_after_prefix(0xFD, front, rest, 1);
        lemma_front_after_prefix(0xFD, front, rest, 2);
    }
}

/// What the first quarter of the opcode bytes decodes to has an encoding.
proof fn lemma_first_quarter_is_encoded(b: u8, n1: u8, n2: u8)
    requires
        b as int / 64 == 0,
    ensures
        unprefixed_encoding(unprefixed(b, n1, n2).1) is Some,
{
}

/// What the second quarter of the opcode bytes decodes to has an encoding.
proof fn lemma_second_quarter_is_encoded(b: u8, n1: u8, n2: u8)
    requires
        b as int / 64 == 1,
    ensures
        unprefixed_encoding(unprefixed(b, n1, n2).1) is Some,
{
}

/// What the third quarter of the opcode bytes decodes to has an encoding.
proof fn lemma_third_quarter_is_encoded(b: u8, n1: u8, n2: u8)
    requires
        b as int / 64 == 2,
    ensures
        unprefixed_encoding(unprefixed(b, n1, n2).1) is Some,
{
}

/// What the fourth quarter of the opcode bytes decodes to has an encoding.
proof fn lemma_fourth_quarter_is_encoded(b: u8, n1: u8, n2: u8)
    requires
        b as int / 64 == 3,
    ensures
        unprefixed_encoding(unprefixed(b, n1, n2).1) is Some,
{
}

/// What an unprefixed opcode byte decodes to has an encoding.
proof fn lemma_unprefixed_is_encoded(b: u8, n1: u8, n2: u8)
    ensures
        unprefixed_encoding(unprefixed(b, n1, n2).1) is Some,
{
    let x = b as int / 64;
    if x == 0 {
        lemma_first_quarter_is_encoded(b, n1, n2);
    } else if x == 1 {
        lemma_second_quarter_is_encoded(b, n1, n2);
    } else if x == 2 {
        lemma_third_quarter_is_encoded(b, n1, n2);
    } else {
        lemma_fourth_quarter_is_encoded(b, n1, n2);
    }
}

/// What a byte after a prefix decodes to has an encoding.
proof fn lemma_prefixed_is_encoded(b: u8, n1: u8, n2: u8)
    ensures
        encoding(extended(b, n1, n2).1) is Some,
        encoding(indexed(b, n1, n2).1) is Some,
        encoding(iy_twin(indexed(b, n1, n2).1)) is Some,
{
}

/// Every instruction that the decoder gives has an encoding: the table of
/// encodings leaves out nothing that the decoder knows.
pub proof fn lemma_decoded_is_encoded(code: Seq<u8>)
    ensures
        decode(code) matches Some(r) ==> encoding(r.1) is Some,
{
    lemma_unprefixed_is_encoded(
        byte_or_zero(code, 0),
        byte_or_zero(code, 1),
        byte_or_zero(code, 2),
    );
    lemma_prefixed_is_encoded(byte_or_zero(code, 1), byte_or_zero(code, 2), byte_or_zero(code, 3));
}

} // verus!
