//! The closed vocabulary of instructions and of the operands they carry.
//!
//! Nothing here has behaviour beyond naming: the decoder produces these values
//! and the execution engine consumes them.

use vstd::prelude::*;

verus! {

/// A branch condition, in the order of its three-bit encoding.
#[derive(Debug, Clone, Copy, PartialEq, Eq, Structural)]
pub enum Condition {
    NonZero,
    Zero,
    NoCarry,
    Carry,
    ParityOdd,
    ParityEven,
    PositiveSign,
    NegativeSign,
}

/// One of the sixteen single-byte registers: the main set, then its shadow set.
#[derive(Debug, Clone, Copy, PartialEq, Eq, Structural)]
pub enum Reg {
    A,
    B,
    C,
    D,
    E,
    F,
    H,
    L,
    A2,
    B2,
    C2,
    D2,
    E2,
    F2,
    H2,
    L2,
}

/// A 16-bit register: a pair of single-byte registers, named high byte first,
/// or one of the dedicated registers SP, IX and IY.
#[derive(Debug, Clone, Copy, PartialEq, Eq, Structural)]
pub enum BigReg {
    BC,
    DE,
    HL,
    SP,
    IX,
    IY,
    AF,
}

/// A bit index, 0 to 7.
pub type Bit = u8;

/// An I/O port number.
pub type IODevice = u8;

/// An 8-bit immediate.
pub type Value = u8;

/// A 16-bit immediate or memory address.
pub type Address = u16;

/// The signed offset added to IX or IY in displaced addressing.
pub type Displacement = i8;

/// One instruction, one variant per mnemonic and addressing mode.
///
/// The suffixes name the operands in order: `R` a register, `N` an 8-bit
/// immediate, `NN` a 16-bit immediate or address, `HL` memory through HL,
/// `IXD`/`IYD` memory at an index register plus displacement.
#[derive(Debug, Clone, Copy, PartialEq, Eq, Structural)]
pub enum Opcode {
    // 8-bit loads
    LDRR(Reg, Reg),
    LDRN(Reg, Value),
    LDRHL(Reg),
    LDRIXD(Reg, Displacement),
    LDRIYD(Reg, Displacement),
    LDHLR(Reg),
    LDIXDR(Displacement, Reg),
    LDIYDR(Displacement, Reg),
    LDHLN(Value),
    LDIXDN(Displacement, Value),
    LDIYDN(Displacement, Value),
    LDABC,
    LDADE,
    LDANN(Address),
    LDBCA,
    LDDEA,
    LDNNA(Address),
    LDAI,
    LDAR,
    LDIA,
    LDRA,
    // 16-bit loads; the forms ending in 2 load from memory
    LDDDNN(BigReg, Address),
    LDIXNN(Address),
    LDIYNN(Address),
    LDHLNN(Address),
    LDDDNN2(BigReg, Address),
    LDIXNN2(Address),
    LDIYNN2(Address),
    LDNNHL(Address),
    LDNNDD(Address, BigReg),
    LDNNIX(Address),
    LDNNIY(Address),
    LDSPHL,
    LDSPIX,
    LDSPIY,
    // stack
    PUSHQQ(BigReg),
    PUSHIX,
    PUSHIY,
    POPQQ(BigReg),
    POPIX,
    POPIY,
    // exchanges
    EXDEHL,
    EXAFAF2,
    EXX,
    EXSPHL,
    EXSPIX,
    EXSPIY,
    // block transfer and search
    LDI,
    LDIR,
    LDD,
    LDDR,
    CPI,
    CPIR,
    CPD,
    CPDR,
    // 8-bit arithmetic and logic
    ADDAR(Reg),
    ADDAN(Value),
    ADDAHL,
    ADDAIXD(Displacement),
    ADDAIYD(Displacement),
    ADCAR(Reg),
    ADCAN(Value),
    ADCAHL(Value),
    ADCAIXD(Displacement),
    ADCAIYD(Displacement),
    SUBAR(Reg),
    SUBAN(Value),
    SUBAHL,
    SUBAIXD(Displacement),
    SUBAIYD(Displacement),
    SBCAR(Reg),
    SBCAN(Value),
    SBCAHL,
    SBCAIXD(Displacement),
    SBCAIYD(Displacement),
    ANDAR(Reg),
    ANDAN(Value),
    ANDAHL,
    ANDAIXD(Displacement),
    ANDAIYD(Displacement),
    ORAR(Reg),
    ORAN(Value),
    ORAHL,
    ORAIXD(Displacement),
    ORAIYD(Displacement),
    XORAR(Reg),
    XORAN(Value),
    XORAHL,
    XORAIXD(Displacement),
    XORAIYD(Displacement),
    CPAR(Reg),
    CPAN(Value),
    CPAHL,
    CPAIXD(Displacement),
    CPAIYD(Displacement),
    INCR(Reg),
    INCHL,
    INCIXD(Displacement),
    INCIYD(Displacement),
    DECR(Reg),
    DECHL,
    DECIXD(Displacement),
    DECIYD(Displacement),
    // general purpose and CPU control
    DAA,
    CPL,
    NEG,
    CCF,
    SCF,
    NOP,
    HALT,
    DI,
    EI,
    IM0,
    IM1,
    IM2,
    // 16-bit arithmetic
    ADDHLSS(BigReg),
    ADCHLSS(BigReg),
    SBCHLSS(BigReg),
    ADDIXPP(BigReg),
    ADDIYRR(BigReg),
    INCSS(BigReg),
    INCIX,
    INCIY,
    DECSS(BigReg),
    DECIX,
    DECIY,
    // rotates and shifts
    RLCA,
    RLA,
    RRCA,
    RRA,
    RLCR(Reg),
    RLCHL,
    RLCIXD(Displacement),
    RLCIYD(Displacement),
    RRCR(Reg),
    RRCHL,
    RRCIXD(Displacement),
    RRCIYD(Displacement),
    RRR(Reg),
    RRHL,
    RRIXD(Displacement),
    RRIYD(Displacement),
    SLAR(Reg),
    SLAHL,
    SLAIXD(Displacement),
    SLAIYD(Displacement),
    SRAR(Reg),
    SRAHL,
    SRAIXD(Displacement),
    SRAIYD(Displacement),
    SRLR(Reg),
    SRLHL,
    SRLIXD(Displacement),
    SRLIYD(Displacement),
    RLD,
    RRD,
    // bit test, set and reset
    BITBR(Bit, Reg),
    BITBHL(Bit),
    BITBIXD(Bit, Displacement),
    BITBIYD(Bit, Displacement),
    SETBR(Bit, Reg),
    SETBHL(Bit),
    SETBIXD(Bit, Displacement),
    SETBIYD(Bit, Displacement),
    RESBR(Bit, Reg),
    RESBHL(Bit),
    RESBIXD(Bit, Displacement),
    RESBIYD(Bit, Displacement),
    // jumps, calls and returns
    JPNN(Address),
    JPCCNN(Condition, Address),
    JRE(Value),
    JRCE(Value),
    JRNCE(Value),
    JRZE(Value),
    JRNZE(Value),
    JPHL,
    JPIX,
    JPIY,
    DJNZE(Value),
    CALLNN(Address),
    CALLCCNN(Condition, Address),
    RET,
    RETCC(Condition),
    RETI,
    RETN,
    RETP(Value),
    // input and output
    INAN(IODevice),
    INRC(Reg),
    INI,
    INIR,
    IND,
    INDR,
    OUTNA(IODevice),
    OUTCR(Reg),
    OUTI,
    OTIR,
    OUTD,
    OTDR,
}

impl Reg {
    /// The slot of this register in the register file.
    pub open spec fn index(self) -> int {
        match self {
            Reg::A => 0,
            Reg::B => 1,
            Reg::C => 2,
            Reg::D => 3,
            Reg::E => 4,
            Reg::F => 5,
            Reg::H => 6,
            Reg::L => 7,
            Reg::A2 => 8,
            Reg::B2 => 9,
            Reg::C2 => 10,
            Reg::D2 => 11,
            Reg::E2 => 12,
            Reg::F2 => 13,
            Reg::H2 => 14,
            Reg::L2 => 15,
        }
    }

    /// The slot of this register, as an index into a sixteen-byte file.
    pub fn slot(self) -> (i: usize)
        ensures
            i == self.index(),
            i < 16,
    {
        match self {
            Reg::A => 0,
            Reg::B => 1,
            Reg::C => 2,
            Reg::D => 3,
            Reg::E => 4,
            Reg::F => 5,
            Reg::H => 6,
            Reg::L => 7,
            Reg::A2 => 8,
            Reg::B2 => 9,
            Reg::C2 => 10,
            Reg::D2 => 11,
            Reg::E2 => 12,
            Reg::F2 => 13,
            Reg::H2 => 14,
            Reg::L2 => 15,
        }
    }

    /// Every register has a slot of its own among the sixteen: no two
    /// registers share one.
    pub proof fn lemma_index_total_and_distinct(a: Reg, b: Reg)
        ensures
            0 <= a.index() < 16,
            a.index() == b.index() ==> a == b,
    {
    }
}

} // verus!
