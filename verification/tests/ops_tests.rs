use z80::ops::opcodes::{BigReg, Opcode, Reg};
use z80::ops::parser::parse_op;

#[test]
fn test_parse_ldrr() {
    let (bytes, op) = parse_op(&vec![0b01111000]);
    assert_eq!(bytes, 1);
    assert_eq!(op, Opcode::LDRR(Reg::A, Reg::B));
}

#[test]
fn test_parse_ldrn() {
    let (bytes, op) = parse_op(&vec![0b00111110, 0b00000001]);
    assert_eq!(bytes, 2);
    assert_eq!(op, Opcode::LDRN(Reg::A, 1));
}

#[test]
fn test_parse_ldrhl() {
    let (bytes, op) = parse_op(&vec![0b01111110]);
    assert_eq!(bytes, 1);
    assert_eq!(op, Opcode::LDRHL(Reg::A));
}

#[test]
fn test_parse_ldrixd() {
    let (bytes, op) = parse_op(&vec![0b11011101, 0b01111110, 0b00000001]);
    assert_eq!(bytes, 3);
    assert_eq!(op, Opcode::LDRIXD(Reg::A, 1));
}

#[test]
fn test_parse_ldriyd() {
    let (bytes, op) = parse_op(&vec![0b11111101, 0b01111110, 0b00000001]);
    assert_eq!(bytes, 3);
    assert_eq!(op, Opcode::LDRIYD(Reg::A, 1));
}

#[test]
fn test_parse_ldhlr() {
    let (bytes, op) = parse_op(&vec![0b01110111]);
    assert_eq!(bytes, 1);
    assert_eq!(op, Opcode::LDHLR(Reg::A));
}

#[test]
fn test_parse_ldixdr() {
    let (bytes, op) = parse_op(&vec![0b11011101, 0b01110111, 0b00000001]);
    assert_eq!(bytes, 3);
    assert_eq!(op, Opcode::LDIXDR(1, Reg::A));
}

#[test]
fn test_parse_ldiydr() {
    let (bytes, op) = parse_op(&vec![0b11111101, 0b01110111, 0b00000001]);
    assert_eq!(bytes, 3);
    assert_eq!(op, Opcode::LDIYDR(1, Reg::A));
}

#[test]
fn test_parse_ldhln() {
    let (bytes, op) = parse_op(&vec![0b00110110, 0b00000001]);
    assert_eq!(bytes, 2);
    assert_eq!(op, Opcode::LDHLN(1));
}

#[test]
fn test_parse_ldixdn() {
    let (bytes, op) = parse_op(&vec![0b11011101, 0b00110110, 0b00000001, 0b00000010]);
    assert_eq!(bytes, 4);
    assert_eq!(op, Opcode::LDIXDN(1, 2));
}

#[test]
fn test_parse_ldiydn() {
    let (bytes, op) = parse_op(&vec![0b11111101, 0b00110110, 0b00000001, 0b00000010]);
    assert_eq!(bytes, 4);
    assert_eq!(op, Opcode::LDIYDN(1, 2));
}

#[test]
fn test_parse_ldabc() {
    let (bytes, op) = parse_op(&vec![0b00001010]);
    assert_eq!(bytes, 1);
    assert_eq!(op, Opcode::LDABC);
}

#[test]
fn test_parse_ldade() {
    let (bytes, op) = parse_op(&vec![0b00011010]);
    assert_eq!(bytes, 1);
    assert_eq!(op, Opcode::LDADE);
}

#[test]
fn test_parse_ldann() {
    let (bytes, op) = parse_op(&vec![0b00111010, 0b00000001, 0b00000010]);
    assert_eq!(bytes, 3);
    assert_eq!(op, Opcode::LDANN(0x0201));
    let (bytes, op) = parse_op(&vec![0b00111010, 0b00000010, 0b00000001]);
    assert_eq!(bytes, 3);
    assert_eq!(op, Opcode::LDANN(258));
}

#[test]
fn test_parse_ldbca() {
    let (bytes, op) = parse_op(&vec![0b00000010]);
    assert_eq!(bytes, 1);
    assert_eq!(op, Opcode::LDBCA);
}

#[test]
fn test_parse_lddea() {
    let (bytes, op) = parse_op(&vec![0b00010010]);
    assert_eq!(bytes, 1);
    assert_eq!(op, Opcode::LDDEA);
}

#[test]
fn test_parse_ldnna() {
    let (bytes, op) = parse_op(&vec![0b00110010, 0b00000001, 0b00000010]);
    assert_eq!(bytes, 3);
    assert_eq!(op, Opcode::LDNNA(0x0201));
    let (bytes, op) = parse_op(&vec![0b00110010, 0b00000010, 0b00000001]);
    assert_eq!(bytes, 3);
    assert_eq!(op, Opcode::LDNNA(258));
}

#[test]
fn test_parse_ldai() {
    let (bytes, op) = parse_op(&vec![0xED, 0x57]);
    assert_eq!(bytes, 2);
    assert_eq!(op, Opcode::LDAI);
}

#[test]
fn test_parse_ldar() {
    let (bytes, op) = parse_op(&vec![0xED, 0x5F]);
    assert_eq!(bytes, 2);
    assert_eq!(op, Opcode::LDAR);
}

#[test]
fn test_parse_ldia() {
    let (bytes, op) = parse_op(&vec![0xED, 0x47]);
    assert_eq!(bytes, 2);
    assert_eq!(op, Opcode::LDIA);
}

#[test]
fn test_parse_ldra() {
    let (bytes, op) = parse_op(&vec![0xED, 0x4F]);
    assert_eq!(bytes, 2);
    assert_eq!(op, Opcode::LDRA);
}

#[test]
fn test_parse_ldddnn() {
    let (bytes, op) = parse_op(&vec![0b00000001, 0b00000001, 0b00000010]);
    assert_eq!(bytes, 3);
    assert_eq!(op, Opcode::LDDDNN(BigReg::BC, 0x0201));
    let (bytes, op) = parse_op(&vec![0b00000001, 0b00000010, 0b00000001]);
    assert_eq!(bytes, 3);
    assert_eq!(op, Opcode::LDDDNN(BigReg::BC, 258));
}

#[test]
fn test_parse_ldixnn() {
    let (bytes, op) = parse_op(&vec![0xDD, 0x21, 1, 2]);
    assert_eq!(bytes, 4);
    assert_eq!(op, Opcode::LDIXNN(0x0201));
    let (bytes, op) = parse_op(&vec![0xDD, 0x21, 2, 1]);
    assert_eq!(bytes, 4);
    assert_eq!(op, Opcode::LDIXNN(258));
}

#[test]
fn test_parse_ldiynn() {
    let (bytes, op) = parse_op(&vec![0xFD, 0x21, 1, 2]);
    assert_eq!(bytes, 4);
    assert_eq!(op, Opcode::LDIYNN(0x0201));
    let (bytes, op) = parse_op(&vec![0xFD, 0x21, 2, 1]);
    assert_eq!(bytes, 4);
    assert_eq!(op, Opcode::LDIYNN(258));
}

#[test]
fn test_parse_ldhlnn() {
    let (bytes, op) = parse_op(&vec![0x2A, 1, 2]);
    assert_eq!(bytes, 3);
    assert_eq!(op, Opcode::LDHLNN(0x0201));
    let (bytes, op) = parse_op(&vec![0x2A, 2, 1]);
    assert_eq!(bytes, 3);
    assert_eq!(op, Opcode::LDHLNN(258));
}

#[test]
fn test_parse_ldddnn2() {
    let (bytes, op) = parse_op(&vec![0xED, 0b01001011, 1, 2]);
    assert_eq!(bytes, 4);
    assert_eq!(op, Opcode::LDDDNN2(BigReg::BC, 0x0201));
    let (bytes, op) = parse_op(&vec![0xED, 0b01001011, 2, 1]);
    assert_eq!(bytes, 4);
    assert_eq!(op, Opcode::LDDDNN2(BigReg::BC, 258));
}

#[test]
fn test_parse_ldixnn2() {
    let (bytes, op) = parse_op(&vec![0xDD, 0x2A, 1, 2]);
    assert_eq!(bytes, 4);
    assert_eq!(op, Opcode::LDIXNN2(0x0201));
    let (bytes, op) = parse_op(&vec![0xDD, 0x2A, 2, 1]);
    assert_eq!(bytes, 4);
    assert_eq!(op, Opcode::LDIXNN2(258));
}

#[test]
fn test_parse_ldiynn2() {
    let (bytes, op) = parse_op(&vec![0xFD, 0x2A, 1, 2]);
    assert_eq!(bytes, 4);
    assert_eq!(op, Opcode::LDIYNN2(0x0201));
    let (bytes, op) = parse_op(&vec![0xFD, 0x2A, 2, 1]);
    assert_eq!(bytes, 4);
    assert_eq!(op, Opcode::LDIYNN2(258));
}

#[test]
fn test_parse_ldnnhl() {
    let (bytes, op) = parse_op(&vec![0x22, 1, 2]);
    assert_eq!(bytes, 3);
    assert_eq!(op, Opcode::LDNNHL(0x0201));
    let (bytes, op) = parse_op(&vec![0x22, 2, 1]);
    assert_eq!(bytes, 3);
    assert_eq!(op, Opcode::LDNNHL(258));
}

#[test]
fn test_parse_ldnndd() {
    let (bytes, op) = parse_op(&vec![0xED, 0b01000011, 1, 2]);
    assert_eq!(bytes, 4);
    assert_eq!(op, Opcode::LDNNDD(0x0201, BigReg::BC));
    let (bytes, op) = parse_op(&vec![0xED, 0b01000011, 2, 1]);
    assert_eq!(bytes, 4);
    assert_eq!(op, Opcode::LDNNDD(258, BigReg::BC));
}

#[test]
fn test_parse_ldnnix() {
    let (bytes, op) = parse_op(&vec![0xDD, 0x22, 1, 2]);
    assert_eq!(bytes, 4);
    assert_eq!(op, Opcode::LDNNIX(0x0201));
    let (bytes, op) = parse_op(&vec![0xDD, 0x22, 2, 1]);
    assert_eq!(bytes, 4);
    assert_eq!(op, Opcode::LDNNIX(258));
}

#[test]
fn test_parse_ldnniy() {
    let (bytes, op) = parse_op(&vec![0xFD, 0x22, 1, 2]);
    assert_eq!(bytes, 4);
    assert_eq!(op, Opcode::LDNNIY(0x0201));
    let (bytes, op) = parse_op(&vec![0xFD, 0x22, 2, 1]);
    assert_eq!(bytes, 4);
    assert_eq!(op, Opcode::LDNNIY(258));
}

#[test]
fn test_parse_ldsphl() {
    let (bytes, op) = parse_op(&vec![0xF9]);
    assert_eq!(bytes, 1);
    assert_eq!(op, Opcode::LDSPHL);
}

#[test]
fn test_parse_ldspix() {
    let (bytes, op) = parse_op(&vec![0xDD, 0xF9]);
    assert_eq!(bytes, 2);
    assert_eq!(op, Opcode::LDSPIX);
}

#[test]
fn test_parse_ldspiy() {
    let (bytes, op) = parse_op(&vec![0xFD, 0xF9]);
    assert_eq!(bytes, 2);
    assert_eq!(op, Opcode::LDSPIY);
}

#[test]
fn test_parse_pushqq() {
    let (bytes, op) = parse_op(&vec![0b11000101]);
    assert_eq!(bytes, 1);
    assert_eq!(op, Opcode::PUSHQQ(BigReg::BC));
}

#[test]
fn test_parse_pushix() {
    let (bytes, op) = parse_op(&vec![0xDD, 0xE5]);
    assert_eq!(bytes, 2);
    assert_eq!(op, Opcode::PUSHIX);
}

#[test]
fn test_parse_pushiy() {
    let (bytes, op) = parse_op(&vec![0xFD, 0xE5]);
    assert_eq!(bytes, 2);
    assert_eq!(op, Opcode::PUSHIY);
}

#[test]
fn test_parse_popqq() {
    let (bytes, op) = parse_op(&vec![0b11000001]);
    assert_eq!(bytes, 1);
    assert_eq!(op, Opcode::POPQQ(BigReg::BC));
}

#[test]
fn test_parse_popix() {
    let (bytes, op) = parse_op(&vec![0xDD, 0xE1]);
    assert_eq!(bytes, 2);
    assert_eq!(op, Opcode::POPIX);
}

#[test]
fn test_parse_popiy() {
    let (bytes, op) = parse_op(&vec![0xFD, 0xE1]);
    assert_eq!(bytes, 2);
    assert_eq!(op, Opcode::POPIY);
}

#[test]
fn test_parse_exdehl() {
    let (bytes, op) = parse_op(&vec![0xEB]);
    assert_eq!(bytes, 1);
    assert_eq!(op, Opcode::EXDEHL);
}

#[test]
fn test_parse_exafaf2() {
    let (bytes, op) = parse_op(&vec![0x08]);
    assert_eq!(bytes, 1);
    assert_eq!(op, Opcode::EXAFAF2);
}

#[test]
fn test_parse_exx() {
    let (bytes, op) = parse_op(&vec![0xD9]);
    assert_eq!(bytes, 1);
    assert_eq!(op, Opcode::EXX);
}

#[test]
fn test_parse_exsphl() {
    let (bytes, op) = parse_op(&vec![0xE3]);
    assert_eq!(bytes, 1);
    assert_eq!(op, Opcode::EXSPHL);
}

#[test]
fn test_parse_exspix() {
    let (bytes, op) = parse_op(&vec![0xDD, 0xE3]);
    assert_eq!(bytes, 2);
    assert_eq!(op, Opcode::EXSPIX);
}

#[test]
fn test_parse_exspiy() {
    let (bytes, op) = parse_op(&vec![0xFD, 0xE3]);
    assert_eq!(bytes, 2);
    assert_eq!(op, Opcode::EXSPIY);
}

#[test]
fn test_parse_ldi() {
    let (bytes, op) = parse_op(&vec![0xED, 0xA0]);
    assert_eq!(bytes, 2);
    assert_eq!(op, Opcode::LDI);
}

#[test]
fn test_parse_ldir() {
    let (bytes, op) = parse_op(&vec![0xED, 0xB0]);
    assert_eq!(bytes, 2);
    assert_eq!(op, Opcode::LDIR);
}

#[test]
fn test_parse_ldd() {
    let (bytes, op) = parse_op(&vec![0xED, 0xA8]);
    assert_eq!(bytes, 2);
    assert_eq!(op, Opcode::LDD);
}

#[test]
fn test_parse_lddr() {
    let (bytes, op) = parse_op(&vec![0xED, 0xB8]);
    assert_eq!(bytes, 2);
    assert_eq!(op, Opcode::LDDR);
}

#[test]
fn test_parse_cpi() {
    let (bytes, op) = parse_op(&vec![0xED, 0xA1]);
    assert_eq!(bytes, 2);
    assert_eq!(op, Opcode::CPI);
}

#[test]
fn test_parse_cpir() {
    let (bytes, op) = parse_op(&vec![0xED, 0xB1]);
    assert_eq!(bytes, 2);
    assert_eq!(op, Opcode::CPIR);
}

#[test]
fn test_parse_cpd() {
    let (bytes, op) = parse_op(&vec![0xED, 0xA9]);
    assert_eq!(bytes, 2);
    assert_eq!(op, Opcode::CPD);
}

#[test]
fn test_parse_cpdr() {
    let (bytes, op) = parse_op(&vec![0xED, 0xB9]);
    assert_eq!(bytes, 2);
    assert_eq!(op, Opcode::CPDR);
}

#[test]
fn test_parse_addar() {
    let (bytes, op) = parse_op(&vec![0b10000111]);
    assert_eq!(bytes, 1);
    assert_eq!(op, Opcode::ADDAR(Reg::A));
}

#[test]
fn test_parse_addan() {
    let (bytes, op) = parse_op(&vec![0xC6, 1]);
    assert_eq!(bytes, 2);
    assert_eq!(op, Opcode::ADDAN(1));
}

#[test]
fn test_parse_addahl() {
    let (bytes, op) = parse_op(&vec![0x86]);
    assert_eq!(bytes, 1);
    assert_eq!(op, Opcode::ADDAHL);
}

#[test]
fn test_parse_addaixd() {
    let (bytes, op) = parse_op(&vec![0xDD, 0x86, 1]);
    assert_eq!(bytes, 3);
    assert_eq!(op, Opcode::ADDAIXD(1));
}

#[test]
fn test_parse_addaiyd() {
    let (bytes, op) = parse_op(&vec![0xFD, 0x86, 1]);
    assert_eq!(bytes, 3);
    assert_eq!(op, Opcode::ADDAIYD(1));
}

#[test]
fn test_parse_subar() {
    let (bytes, op) = parse_op(&vec![0b10010111]);
    assert_eq!(bytes, 1);
    assert_eq!(op, Opcode::SUBAR(Reg::A));
}

#[test]
fn test_parse_suban() {
    let (bytes, op) = parse_op(&vec![0xD6, 1]);
    assert_eq!(bytes, 2);
    assert_eq!(op, Opcode::SUBAN(1));
}

#[test]
fn test_parse_subahl() {
    let (bytes, op) = parse_op(&vec![0x96]);
    assert_eq!(bytes, 1);
    assert_eq!(op, Opcode::SUBAHL);
}

#[test]
fn test_parse_subaixd() {
    let (bytes, op) = parse_op(&vec![0xDD, 0x96, 1]);
    assert_eq!(bytes, 3);
    assert_eq!(op, Opcode::SUBAIXD(1));
}

#[test]
fn test_parse_subaiyd() {
    let (bytes, op) = parse_op(&vec![0xFD, 0x96, 1]);
    assert_eq!(bytes, 3);
    assert_eq!(op, Opcode::SUBAIYD(1));
}

#[test]
fn test_parse_sbcar() {
    let (bytes, op) = parse_op(&vec![0b10011111]);
    assert_eq!(bytes, 1);
    assert_eq!(op, Opcode::SBCAR(Reg::A));
}

#[test]
fn test_parse_sbcan() {
    let (bytes, op) = parse_op(&vec![0xDE, 1]);
    assert_eq!(bytes, 2);
    assert_eq!(op, Opcode::SBCAN(1));
}

#[test]
fn test_parse_sbcahl() {
    let (bytes, op) = parse_op(&vec![0x9E]);
    assert_eq!(bytes, 1);
    assert_eq!(op, Opcode::SBCAHL);
}

#[test]
fn test_parse_sbcaixd() {
    let (bytes, op) = parse_op(&vec![0xDD, 0x9E, 1]);
    assert_eq!(bytes, 3);
    assert_eq!(op, Opcode::SBCAIXD(1));
}

#[test]
fn test_parse_sbcaiyd() {
    let (bytes, op) = parse_op(&vec![0xFD, 0x9E, 1]);
    assert_eq!(bytes, 3);
    assert_eq!(op, Opcode::SBCAIYD(1));
}

#[test]
fn test_parse_andar() {
    let (bytes, op) = parse_op(&vec![0b10100111]);
    assert_eq!(bytes, 1);
    assert_eq!(op, Opcode::ANDAR(Reg::A));
}

#[test]
fn test_parse_andan() {
    let (bytes, op) = parse_op(&vec![0xE6, 1]);
    assert_eq!(bytes, 2);
    assert_eq!(op, Opcode::ANDAN(1));
}

#[test]
fn test_parse_andahl() {
    let (bytes, op) = parse_op(&vec![0xA6]);
    assert_eq!(bytes, 1);
    assert_eq!(op, Opcode::ANDAHL);
}

#[test]
fn test_parse_andaixd() {
    let (bytes, op) = parse_op(&vec![0xDD, 0xA6, 1]);
    assert_eq!(bytes, 3);
    assert_eq!(op, Opcode::ANDAIXD(1));
}

#[test]
fn test_parse_andaiyd() {
    let (bytes, op) = parse_op(&vec![0xFD, 0xA6, 1]);
    assert_eq!(bytes, 3);
    assert_eq!(op, Opcode::ANDAIYD(1));
}

#[test]
fn test_parse_orar() {
    let (bytes, op) = parse_op(&vec![0b10110111]);
    assert_eq!(bytes, 1);
    assert_eq!(op, Opcode::ORAR(Reg::A));
}

#[test]
fn test_parse_oran() {
    let (bytes, op) = parse_op(&vec![0xF6, 1]);
    assert_eq!(bytes, 2);
    assert_eq!(op, Opcode::ORAN(1));
}

#[test]
fn test_parse_orahl() {
    let (bytes, op) = parse_op(&vec![0xB6]);
    assert_eq!(bytes, 1);
    assert_eq!(op, Opcode::ORAHL);
}

#[test]
fn test_parse_oraixd() {
    let (bytes, op) = parse_op(&vec![0xDD, 0xB6, 1]);
    assert_eq!(bytes, 3);
    assert_eq!(op, Opcode::ORAIXD(1));
}

#[test]
fn test_parse_oraiyd() {
    let (bytes, op) = parse_op(&vec![0xFD, 0xB6, 1]);
    assert_eq!(bytes, 3);
    assert_eq!(op, Opcode::ORAIYD(1));
}

#[test]
fn test_parse_xorar() {
    let (bytes, op) = parse_op(&vec![0b10101111]);
    assert_eq!(bytes, 1);
    assert_eq!(op, Opcode::XORAR(Reg::A));
}

#[test]
fn test_parse_xoran() {
    let (bytes, op) = parse_op(&vec![0xEE, 1]);
    assert_eq!(bytes, 2);
    assert_eq!(op, Opcode::XORAN(1));
}

#[test]
fn test_parse_xorahl() {
    let (bytes, op) = parse_op(&vec![0xAE]);
    assert_eq!(bytes, 1);
    assert_eq!(op, Opcode::XORAHL);
}

#[test]
fn test_parse_xoraixd() {
    let (bytes, op) = parse_op(&vec![0xDD, 0xAE, 1]);
    assert_eq!(bytes, 3);
    assert_eq!(op, Opcode::XORAIXD(1));
}

#[test]
fn test_parse_xoraiyd() {
    let (bytes, op) = parse_op(&vec![0xFD, 0xAE, 1]);
    assert_eq!(bytes, 3);
    assert_eq!(op, Opcode::XORAIYD(1));
}

#[test]
fn test_parse_cpar() {
    let (bytes, op) = parse_op(&vec![0b10111111]);
    assert_eq!(bytes, 1);
    assert_eq!(op, Opcode::CPAR(Reg::A));
}

#[test]
fn test_parse_cpan() {
    let (bytes, op) = parse_op(&vec![0xFE, 1]);
    assert_eq!(bytes, 2);
    assert_eq!(op, Opcode::CPAN(1));
}

#[test]
fn test_parse_cpahl() {
    let (bytes, op) = parse_op(&vec![0xBE]);
    assert_eq!(bytes, 1);
    assert_eq!(op, Opcode::CPAHL);
}

#[test]
fn test_parse_cpaixd() {
    let (bytes, op) = parse_op(&vec![0xDD, 0xBE, 1]);
    assert_eq!(bytes, 3);
    assert_eq!(op, Opcode::CPAIXD(1));
}

#[test]
fn test_parse_cpaiyd() {
    let (bytes, op) = parse_op(&vec![0xFD, 0xBE, 1]);
    assert_eq!(bytes, 3);
    assert_eq!(op, Opcode::CPAIYD(1));
}

#[test]
fn test_parse_incr() {
    let (bytes, op) = parse_op(&vec![0b00111100]);
    assert_eq!(bytes, 1);
    assert_eq!(op, Opcode::INCR(Reg::A));
}

#[test]
fn test_parse_inchl() {
    let (bytes, op) = parse_op(&vec![0x34]);
    assert_eq!(bytes, 1);
    assert_eq!(op, Opcode::INCHL);
}

#[test]
fn test_parse_incixd() {
    let (bytes, op) = parse_op(&vec![0xDD, 0x34, 1]);
    assert_eq!(bytes, 3);
    assert_eq!(op, Opcode::INCIXD(1));
}

#[test]
fn test_parse_inciyd() {
    let (bytes, op) = parse_op(&vec![0xFD, 0x34, 1]);
    assert_eq!(bytes, 3);
    assert_eq!(op, Opcode::INCIYD(1));
}

#[test]
fn test_parse_decr() {
    let (bytes, op) = parse_op(&vec![0b00111101]);
    assert_eq!(bytes, 1);
    assert_eq!(op, Opcode::DECR(Reg::A));
}

#[test]
fn test_parse_dechl() {
    let (bytes, op) = parse_op(&vec![0x35]);
    assert_eq!(bytes, 1);
    assert_eq!(op, Opcode::DECHL);
}

#[test]
fn test_parse_decixd() {
    let (bytes, op) = parse_op(&vec![0xDD, 0x35, 1]);
    assert_eq!(bytes, 3);
    assert_eq!(op, Opcode::DECIXD(1));
}

#[test]
fn test_parse_deciyd() {
    let (bytes, op) = parse_op(&vec![0xFD, 0x35, 1]);
    assert_eq!(bytes, 3);
    assert_eq!(op, Opcode::DECIYD(1));
}
