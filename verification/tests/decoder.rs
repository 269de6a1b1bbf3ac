use z80::ops::opcodes::{BigReg, Opcode, Reg};
use z80::ops::parser::{
    bits_to_bigreg1, bits_to_bigreg2, bits_to_reg, byte_to_bits, parse_op, to_displacement,
    to_immediate16, try_parse_op,
};

#[test]
fn register_load_is_one_byte() {
    assert_eq!(parse_op(&[0b01111000]), (1, Opcode::LDRR(Reg::A, Reg::B)));
}

#[test]
fn index_load_reads_low_byte_first() {
    assert_eq!(parse_op(&[0xDD, 0x21, 0x01, 0x02]), (4, Opcode::LDIXNN(0x0201)));
    assert_eq!(parse_op(&[0xFD, 0x21, 0x34, 0x12]), (4, Opcode::LDIYNN(0x1234)));
    assert_eq!(parse_op(&[0x3A, 0xCD, 0xAB]), (3, Opcode::LDANN(0xABCD)));
    assert_eq!(parse_op(&[0x01, 0xFF, 0x00]), (3, Opcode::LDDDNN(BigReg::BC, 0x00FF)));
    assert_eq!(parse_op(&[0xED, 0x7B, 0x00, 0x80]), (4, Opcode::LDDDNN2(BigReg::SP, 0x8000)));
}

#[test]
fn empty_and_truncated_streams_do_not_decode() {
    assert_eq!(try_parse_op(&[]), None);
    assert_eq!(try_parse_op(&[0xDD]), None);
    assert_eq!(try_parse_op(&[0xED]), None);
    assert_eq!(try_parse_op(&[0xFD]), None);
    assert_eq!(try_parse_op(&[0x3A]), None);
    assert_eq!(try_parse_op(&[0x3A, 0x01]), None);
    assert_eq!(try_parse_op(&[0x3E]), None);
    assert_eq!(try_parse_op(&[0xDD, 0x21]), None);
    assert_eq!(try_parse_op(&[0xDD, 0x21, 0x01]), None);
    assert_eq!(try_parse_op(&[0xDD, 0x7E]), None);
    assert_eq!(try_parse_op(&[0xDD, 0x36, 0x01]), None);
    assert_eq!(try_parse_op(&[0xED, 0x4B, 0x01]), None);
}

#[test]
fn complete_streams_decode_as_parse_op_does() {
    assert_eq!(try_parse_op(&[0x3A, 0x01, 0x02]), Some((3, Opcode::LDANN(0x0201))));
    assert_eq!(try_parse_op(&[0xDD, 0x7E, 0x05]), Some((3, Opcode::LDRIXD(Reg::A, 5))));
    assert_eq!(try_parse_op(&[0xD9]), Some((1, Opcode::EXX)));
}

#[test]
fn unrecognised_bytes_are_nops_of_the_bytes_read() {
    assert_eq!(parse_op(&[0x00]), (1, Opcode::NOP));
    assert_eq!(parse_op(&[0x88]), (1, Opcode::NOP));
    assert_eq!(parse_op(&[0xCE, 0x01]), (1, Opcode::NOP));
    assert_eq!(parse_op(&[0xC3, 0x00, 0x10]), (1, Opcode::NOP));
    assert_eq!(parse_op(&[0xDD, 0x00]), (2, Opcode::NOP));
    assert_eq!(parse_op(&[0xFD, 0x00]), (2, Opcode::NOP));
    assert_eq!(parse_op(&[0xED, 0x00]), (2, Opcode::NOP));
    assert_eq!(parse_op(&[0xDD, 0x76]), (2, Opcode::NOP));
    assert_eq!(parse_op(&[0xDD, 0x78, 0x01]), (2, Opcode::NOP));
    assert_eq!(parse_op(&[0xDD, 0x8E, 0x01]), (2, Opcode::NOP));
    assert_eq!(parse_op(&[0xDD, 0xDD]), (2, Opcode::NOP));
}

#[test]
fn selector_of_memory_is_never_a_register() {
    assert_eq!(parse_op(&[0x76]), (1, Opcode::HALT));
    assert_eq!(parse_op(&[0x70]), (1, Opcode::LDHLR(Reg::B)));
    assert_eq!(parse_op(&[0x46]), (1, Opcode::LDRHL(Reg::B)));
    assert_eq!(parse_op(&[0x36, 0x7F]), (2, Opcode::LDHLN(0x7F)));
    assert_eq!(parse_op(&[0x34]), (1, Opcode::INCHL));
    assert_eq!(parse_op(&[0x35]), (1, Opcode::DECHL));
    assert_eq!(parse_op(&[0x86]), (1, Opcode::ADDAHL));
    assert_eq!(parse_op(&[0xBE]), (1, Opcode::CPAHL));
}

#[test]
fn every_register_selector_decodes() {
    let regs = [Reg::B, Reg::C, Reg::D, Reg::E, Reg::H, Reg::L, Reg::A];
    let codes = [0u8, 1, 2, 3, 4, 5, 7];
    for i in 0..7 {
        assert_eq!(parse_op(&[0x80 | codes[i]]), (1, Opcode::ADDAR(regs[i])));
        assert_eq!(parse_op(&[0x04 | (codes[i] << 3)]), (1, Opcode::INCR(regs[i])));
        assert_eq!(parse_op(&[0x05 | (codes[i] << 3)]), (1, Opcode::DECR(regs[i])));
        assert_eq!(parse_op(&[0x06 | (codes[i] << 3), 0x42]), (2, Opcode::LDRN(regs[i], 0x42)));
        for j in 0..7 {
            assert_eq!(
                parse_op(&[0x40 | (codes[i] << 3) | codes[j]]),
                (1, Opcode::LDRR(regs[i], regs[j]))
            );
        }
    }
}

#[test]
fn push_and_pop_select_af_where_loads_select_sp() {
    assert_eq!(parse_op(&[0xF5]), (1, Opcode::PUSHQQ(BigReg::AF)));
    assert_eq!(parse_op(&[0xF1]), (1, Opcode::POPQQ(BigReg::AF)));
    assert_eq!(parse_op(&[0xE5]), (1, Opcode::PUSHQQ(BigReg::HL)));
    assert_eq!(parse_op(&[0xD1]), (1, Opcode::POPQQ(BigReg::DE)));
    assert_eq!(parse_op(&[0x31, 0x00, 0x01]), (3, Opcode::LDDDNN(BigReg::SP, 0x0100)));
    assert_eq!(parse_op(&[0xED, 0x73, 0x00, 0x01]), (4, Opcode::LDNNDD(0x0100, BigReg::SP)));
}

#[test]
fn displacement_bytes_are_signed() {
    assert_eq!(parse_op(&[0xDD, 0x7E, 0xFE]), (3, Opcode::LDRIXD(Reg::A, -2)));
    assert_eq!(parse_op(&[0xFD, 0x77, 0x80]), (3, Opcode::LDIYDR(-128, Reg::A)));
    assert_eq!(parse_op(&[0xDD, 0x36, 0xFF, 0x99]), (4, Opcode::LDIXDN(-1, 0x99)));
    assert_eq!(parse_op(&[0xFD, 0x36, 0x05, 0x99]), (4, Opcode::LDIYDN(5, 0x99)));
    assert_eq!(parse_op(&[0xDD, 0x34, 0x7F]), (3, Opcode::INCIXD(127)));
    assert_eq!(to_displacement(0x00), 0);
    assert_eq!(to_displacement(0x7F), 127);
    assert_eq!(to_displacement(0x80), -128);
    assert_eq!(to_displacement(0xFF), -1);
}

#[test]
fn index_prefixes_share_one_table() {
    let seconds: [u8; 13] =
        [0x21, 0x22, 0x2A, 0x34, 0x35, 0x36, 0x86, 0x96, 0xE1, 0xE3, 0xE5, 0xF9, 0x70];
    for b in seconds {
        let (ix_len, _) = parse_op(&[0xDD, b, 0x01, 0x02]);
        let (iy_len, _) = parse_op(&[0xFD, b, 0x01, 0x02]);
        assert_eq!(ix_len, iy_len);
    }
    assert_eq!(parse_op(&[0xDD, 0xE5]), (2, Opcode::PUSHIX));
    assert_eq!(parse_op(&[0xFD, 0xE5]), (2, Opcode::PUSHIY));
    assert_eq!(parse_op(&[0xDD, 0xBE, 0x03]), (3, Opcode::CPAIXD(3)));
    assert_eq!(parse_op(&[0xFD, 0xBE, 0x03]), (3, Opcode::CPAIYD(3)));
}

#[test]
fn bytes_after_the_instruction_are_not_read() {
    assert_eq!(parse_op(&[0x78, 0xFF, 0xFF, 0xFF]), (1, Opcode::LDRR(Reg::A, Reg::B)));
    assert_eq!(parse_op(&[0x3E, 0x07, 0xFF]), (2, Opcode::LDRN(Reg::A, 0x07)));
    assert_eq!(parse_op(&[0xED, 0xB0, 0x12, 0x34]), (2, Opcode::LDIR));
}

#[test]
fn four_bytes_always_decode() {
    for b0 in 0..=255u8 {
        for b1 in 0..=255u8 {
            let code = [b0, b1, 0x12, 0x34];
            let (length, _) = parse_op(&code);
            assert!(1 <= length && length <= 4);
            if b0 == 0xDD || b0 == 0xED || b0 == 0xFD {
                assert!(length >= 2);
            } else {
                assert!(length <= 3);
            }
            assert_eq!(try_parse_op(&code[..length as usize]), Some(parse_op(&code)));
            if length > 1 {
                assert_eq!(try_parse_op(&code[..length as usize - 1]), None);
            }
        }
    }
}

#[test]
fn bits_are_listed_most_significant_first() {
    assert_eq!(byte_to_bits(0b10110010), (1, 0, 1, 1, 0, 0, 1, 0));
    assert_eq!(byte_to_bits(0x00), (0, 0, 0, 0, 0, 0, 0, 0));
    assert_eq!(byte_to_bits(0xFF), (1, 1, 1, 1, 1, 1, 1, 1));
    assert_eq!(byte_to_bits(0x01), (0, 0, 0, 0, 0, 0, 0, 1));
    assert_eq!(byte_to_bits(0x80), (1, 0, 0, 0, 0, 0, 0, 0));
}

#[test]
fn selector_tables() {
    assert_eq!(bits_to_reg(0, 0, 0), Reg::B);
    assert_eq!(bits_to_reg(0, 0, 1), Reg::C);
    assert_eq!(bits_to_reg(0, 1, 0), Reg::D);
    assert_eq!(bits_to_reg(0, 1, 1), Reg::E);
    assert_eq!(bits_to_reg(1, 0, 0), Reg::H);
    assert_eq!(bits_to_reg(1, 0, 1), Reg::L);
    assert_eq!(bits_to_reg(1, 1, 1), Reg::A);
    assert_eq!(bits_to_bigreg1(0, 0), BigReg::BC);
    assert_eq!(bits_to_bigreg1(0, 1), BigReg::DE);
    assert_eq!(bits_to_bigreg1(1, 0), BigReg::HL);
    assert_eq!(bits_to_bigreg1(1, 1), BigReg::SP);
    assert_eq!(bits_to_bigreg2(0, 0), BigReg::BC);
    assert_eq!(bits_to_bigreg2(0, 1), BigReg::DE);
    assert_eq!(bits_to_bigreg2(1, 0), BigReg::HL);
    assert_eq!(bits_to_bigreg2(1, 1), BigReg::AF);
}

#[test]
fn immediates_are_little_endian() {
    assert_eq!(to_immediate16(0x01, 0x02), 0x0201);
    assert_eq!(to_immediate16(0xFF, 0x00), 0x00FF);
    assert_eq!(to_immediate16(0x00, 0xFF), 0xFF00);
    assert_eq!(to_immediate16(0xFF, 0xFF), 0xFFFF);
}

#[test]
fn extended_table() {
    assert_eq!(parse_op(&[0xED, 0x43, 0x10, 0x20]), (4, Opcode::LDNNDD(0x2010, BigReg::BC)));
    assert_eq!(parse_op(&[0xED, 0x53, 0x10, 0x20]), (4, Opcode::LDNNDD(0x2010, BigReg::DE)));
    assert_eq!(parse_op(&[0xED, 0x63, 0x10, 0x20]), (4, Opcode::LDNNDD(0x2010, BigReg::HL)));
    assert_eq!(parse_op(&[0xED, 0x5B, 0x10, 0x20]), (4, Opcode::LDDDNN2(BigReg::DE, 0x2010)));
    assert_eq!(parse_op(&[0xED, 0x6B, 0x10, 0x20]), (4, Opcode::LDDDNN2(BigReg::HL, 0x2010)));
    assert_eq!(parse_op(&[0xED, 0xA0]), (2, Opcode::LDI));
    assert_eq!(parse_op(&[0xED, 0xB9]), (2, Opcode::CPDR));
    assert_eq!(parse_op(&[0xED, 0x44]), (2, Opcode::NOP));
}
