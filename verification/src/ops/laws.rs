//! Laws of the decoder: how long an instruction can be and which bytes it is
//! read from.

use vstd::prelude::*;
use crate::ops::parser::{byte_or_zero, decode, extended, indexed, leading, unprefixed};

verus! {

/// An unprefixed instruction takes one, two or three bytes; how many is
/// settled by its opcode byte, and the instruction does not depend on a byte
/// it does not reach.
pub proof fn lemma_unprefixed_reach(b: u8, n1: u8, n2: u8, m1: u8, m2: u8)
    ensures
        1 <= unprefixed(b, n1, n2).0 <= 3,
        unprefixed(b, m1, m2).0 == unprefixed(b, n1, n2).0,
        unprefixed(b, n1, n2).0 == 1 ==> unprefixed(b, m1, m2) == unprefixed(b, n1, n2),
        unprefixed(b, n1, n2).0 == 2 && m1 == n1 ==> unprefixed(b, m1, m2) == unprefixed(
            b,
            n1,
            n2,
        ),
{
}

/// An instruction after the prefix 0xED takes two or four bytes, prefix
/// included; how many is settled by the byte after the prefix, and a
/// two-byte instruction does not depend on the bytes after it.
pub proof fn lemma_extended_reach(b: u8, n1: u8, n2: u8, m1: u8, m2: u8)
    ensures
        extended(b, n1, n2).0 == 2 || extended(b, n1, n2).0 == 4,
        extended(b, m1, m2).0 == extended(b, n1, n2).0,
        extended(b, n1, n2).0 == 2 ==> extended(b, m1, m2) == extended(b, n1, n2),
{
}

/// An instruction after the prefix 0xDD or 0xFD takes two, three or four
/// bytes, prefix included; how many is settled by the byte after the prefix,
/// and the instruction does not depend on a byte it does not reach.
pub proof fn lemma_indexed_reach(b: u8, n1: u8, n2: u8, m1: u8, m2: u8)
    ensures
        2 <= indexed(b, n1, n2).0 <= 4,
        indexed(b, m1, m2).0 == indexed(b, n1, n2).0,
        indexed(b, n1, n2).0 == 2 ==> indexed(b, m1, m2) == indexed(b, n1, n2),
        indexed(b, n1, n2).0 == 3 && m1 == n1 ==> indexed(b, m1, m2) == indexed(b, n1, n2),
{
}

/// Decoding takes at least one byte and at most four, never more than there
/// are; it fails on the empty sequence and never on four bytes or more.
pub proof fn lemma_decode_length(code: Seq<u8>)
    ensures
        decode(code) matches Some(r) ==> 1 <= r.0 <= 4 && r.0 <= code.len(),
        code.len() == 0 ==> decode(code) is None,
        code.len() >= 4 ==> decode(code) is Some,
{
    let b1 = byte_or_zero(code, 1);
    let b2 = byte_or_zero(code, 2);
    let b3 = byte_or_zero(code, 3);
    lemma_unprefixed_reach(byte_or_zero(code, 0), b1, b2, b1, b2);
    lemma_extended_reach(b1, b2, b3, b2, b3);
    lemma_indexed_reach(b1, b2, b3, b2, b3);
}

/// Decoding reads the bytes of the instruction and no others: a sequence that
/// starts with the same bytes, as many as the instruction takes, decodes to
/// the same length and instruction, whatever follows them.
pub proof fn lemma_decode_reads_own_bytes(code: Seq<u8>, other: Seq<u8>)
    requires
        decode(code) matches Some(r) && other.len() >= r.0 && forall|i: int|
            0 <= i < r.0 ==> other[i] == code[i],
    ensures
        decode(other) == decode(code),
{
    lemma_decode_length(code);
    let n = decode(code).unwrap().0;
    let c0 = byte_or_zero(code, 0);
    let c1 = byte_or_zero(code, 1);
    let c2 = byte_or_zero(code, 2);
    let c3 = byte_or_zero(code, 3);
    let o0 = byte_or_zero(other, 0);
    let o1 = byte_or_zero(other, 1);
    let o2 = byte_or_zero(other, 2);
    let o3 = byte_or_zero(other, 3);
    assert(o0 == c0);
    assert(n >= 2 ==> o1 == c1);
    assert(n >= 3 ==> o2 == c2);
    assert(n >= 4 ==> o3 == c3);
    lemma_unprefixed_reach(c0, c1, c2, o1, o2);
    lemma_extended_reach(c1, c2, c3, o2, o3);
    lemma_indexed_reach(c1, c2, c3, o2, o3);
    assert(leading(other) == leading(code));
}

} // verus!
