//! The families of instructions, by the kind of effect they have.
//!
//! Every instruction belongs to exactly one family. `Family::Pending` collects
//! the instructions that are named but have no effect yet.

use vstd::prelude::*;
use crate::ops::opcodes::Opcode;

verus! {

/// A family of instructions.
#[derive(Debug, Clone, Copy, PartialEq, Eq, Structural)]
pub enum Family {
    /// The loads of one byte between registers and memory.
    Load8,
    /// The loads of a 16-bit value between registers and memory.
    Load16,
    /// Push and pop.
    Stack,
    /// The exchanges of registers with registers or with the top of the stack.
    Exchange,
    /// The block moves and block searches.
    Block,
    /// The 8-bit arithmetic, logic, compare, increment and decrement.
    Arithmetic,
    /// The instruction that does nothing.
    Idle,
    /// The instructions without an effect yet: executing one changes nothing.
    Pending,
}

impl Opcode {
    /// The family this instruction belongs to.
    pub open spec fn family(self) -> Family {
        match self {
            Opcode::LDRR(_, _)
            | Opcode::LDRN(_, _)
            | Opcode::LDRHL(_)
            | Opcode::LDRIXD(_, _)
            | Opcode::LDRIYD(_, _)
            | Opcode::LDHLR(_)
            | Opcode::LDIXDR(_, _)
            | Opcode::LDIYDR(_, _)
            | Opcode::LDHLN(_)
            | Opcode::LDIXDN(_, _)
            | Opcode::LDIYDN(_, _)
            | Opcode::LDABC
            | Opcode::LDADE
            | Opcode::LDANN(_)
            | Opcode::LDBCA
            | Opcode::LDDEA
            | Opcode::LDNNA(_)
            | Opcode::LDAI
            | Opcode::LDAR
            | Opcode::LDIA
            | Opcode::LDRA => Family::Load8,
            Opcode::LDDDNN(_, _)
            | Opcode::LDIXNN(_)
            | Opcode::LDIYNN(_)
            | Opcode::LDHLNN(_)
            | Opcode::LDDDNN2(_, _)
            | Opcode::LDIXNN2(_)
            | Opcode::LDIYNN2(_)
            | Opcode::LDNNHL(_)
            | Opcode::LDNNDD(_, _)
            | Opcode::LDNNIX(_)
            | Opcode::LDNNIY(_)
            | Opcode::LDSPHL
            | Opcode::LDSPIX
            | Opcode::LDSPIY => Family::Load16,
            Opcode::PUSHQQ(_)
            | Opcode::PUSHIX
            | Opcode::PUSHIY
            | Opcode::POPQQ(_)
            | Opcode::POPIX
            | Opcode::POPIY => Family::Stack,
            Opcode::EXDEHL
            | Opcode::EXAFAF2
            | Opcode::EXX
            | Opcode::EXSPHL
            | Opcode::EXSPIX
            | Opcode::EXSPIY => Family::Exchange,
            Opcode::LDI
            | Opcode::LDIR
            | Opcode::LDD
            | Opcode::LDDR
            | Opcode::CPI
            | Opcode::CPIR
            | Opcode::CPD
            | Opcode::CPDR => Family::Block,
            Opcode::ADDAR(_)
            | Opcode::ADDAN(_)
            | Opcode::ADDAHL
            | Opcode::ADDAIXD(_)
            | Opcode::ADDAIYD(_)
            | Opcode::SUBAR(_)
            | Opcode::SUBAN(_)
            | Opcode::SUBAHL
            | Opcode::SUBAIXD(_)
            | Opcode::SUBAIYD(_)
            | Opcode::SBCAR(_)
            | Opcode::SBCAN(_)
            | Opcode::SBCAHL
            | Opcode::SBCAIXD(_)
            | Opcode::SBCAIYD(_)
            | Opcode::ANDAR(_)
            | Opcode::ANDAN(_)
            | Opcode::ANDAHL
            | Opcode::ANDAIXD(_)
            | Opcode::ANDAIYD(_)
            | Opcode::ORAR(_)
            | Opcode::ORAN(_)
            | Opcode::ORAHL
            | Opcode::ORAIXD(_)
            | Opcode::ORAIYD(_)
            | Opcode::XORAR(_)
            | Opcode::XORAN(_)
            | Opcode::XORAHL
            | Opcode::XORAIXD(_)
            | Opcode::XORAIYD(_)
            | Opcode::CPAR(_)
            | Opcode::CPAN(_)
            | Opcode::CPAHL
            | Opcode::CPAIXD(_)
            | Opcode::CPAIYD(_)
            | Opcode::INCR(_)
            | Opcode::INCHL
            | Opcode::INCIXD(_)
            | Opcode::INCIYD(_)
            | Opcode::DECR(_)
            | Opcode::DECHL
            | Opcode::DECIXD(_)
            | Opcode::DECIYD(_) => Family::Arithmetic,
            Opcode::NOP => Family::Idle,
            Opcode::ADCAR(_)
            | Opcode::ADCAN(_)
            | Opcode::ADCAHL(_)
            | Opcode::ADCAIXD(_)
            | Opcode::ADCAIYD(_)
            | Opcode::DAA
            | Opcode::CPL
            | Opcode::NEG
            | Opcode::CCF
            | Opcode::SCF
            | Opcode::HALT
            | Opcode::DI
            | Opcode::EI
            | Opcode::IM0
            | Opcode::IM1
            | Opcode::IM2
            | Opcode::ADDHLSS(_)
            | Opcode::ADCHLSS(_)
            | Opcode::SBCHLSS(_)
            | Opcode::ADDIXPP(_)
            | Opcode::ADDIYRR(_)
            | Opcode::INCSS(_)
            | Opcode::INCIX
            | Opcode::INCIY
            | Opcode::DECSS(_)
            | Opcode::DECIX
            | Opcode::DECIY
            | Opcode::RLCA
            | Opcode::RLA
            | Opcode::RRCA
            | Opcode::RRA
            | Opcode::RLCR(_)
            | Opcode::RLCHL
            | Opcode::RLCIXD(_)
            | Opcode::RLCIYD(_)
            | Opcode::RRCR(_)
            | Opcode::RRCHL
            | Opcode::RRCIXD(_)
            | Opcode::RRCIYD(_)
            | Opcode::RRR(_)
            | Opcode::RRHL
            | Opcode::RRIXD(_)
            | Opcode::RRIYD(_)
            | Opcode::SLAR(_)
            | Opcode::SLAHL
            | Opcode::SLAIXD(_)
            | Opcode::SLAIYD(_)
            | Opcode::SRAR(_)
            | Opcode::SRAHL
            | Opcode::SRAIXD(_)
            | Opcode::SRAIYD(_)
            | Opcode::SRLR(_)
            | Opcode::SRLHL
            | Opcode::SRLIXD(_)
            | Opcode::SRLIYD(_)
            | Opcode::RLD
            | Opcode::RRD
            | Opcode::BITBR(_, _)
            | Opcode::BITBHL(_)
            | Opcode::BITBIXD(_, _)
            | Opcode::BITBIYD(_, _)
            | Opcode::SETBR(_, _)
            | Opcode::SETBHL(_)
            | Opcode::SETBIXD(_, _)
            | Opcode::SETBIYD(_, _)
            | Opcode::RESBR(_, _)
            | Opcode::RESBHL(_)
            | Opcode::RESBIXD(_, _)
            | Opcode::RESBIYD(_, _)
            | Opcode::JPNN(_)
            | Opcode::JPCCNN(_, _)
            | Opcode::JRE(_)
            | Opcode::JRCE(_)
            | Opcode::JRNCE(_)
            | Opcode::JRZE(_)
            | Opcode::JRNZE(_)
            | Opcode::JPHL
            | Opcode::JPIX
            | Opcode::JPIY
            | Opcode::DJNZE(_)
            | Opcode::CALLNN(_)
            | Opcode::CALLCCNN(_, _)
            | Opcode::RET
            | Opcode::RETCC(_)
            | Opcode::RETI
            | Opcode::RETN
            | Opcode::RETP(_)
            | Opcode::INAN(_)
            | Opcode::INRC(_)
            | Opcode::INI
            | Opcode::INIR
            | Opcode::IND
            | Opcode::INDR
            | Opcode::OUTNA(_)
            | Opcode::OUTCR(_)
            | Opcode::OUTI
            | Opcode::OTIR
            | Opcode::OUTD
            | Opcode::OTDR => Family::Pending,
        }
    }

    /// Whether the execution engine gives this instruction its effect.
    pub open spec fn is_implemented(self) -> bool {
        self.family() != Family::Pending
    }

    /// The family this instruction belongs to.
    pub fn classify(&self) -> (family: Family)
        ensures
            family == self.family(),
    {
        match self {
            Opcode::LDRR(_, _)
            | Opcode::LDRN(_, _)
            | Opcode::LDRHL(_)
            | Opcode::LDRIXD(_, _)
            | Opcode::LDRIYD(_, _)
            | Opcode::LDHLR(_)
            | Opcode::LDIXDR(_, _)
            | Opcode::LDIYDR(_, _)
            | Opcode::LDHLN(_)
            | Opcode::LDIXDN(_, _)
            | Opcode::LDIYDN(_, _)
            | Opcode::LDABC
            | Opcode::LDADE
            | Opcode::LDANN(_)
            | Opcode::LDBCA
            | Opcode::LDDEA
            | Opcode::LDNNA(_)
            | Opcode::LDAI
            | Opcode::LDAR
            | Opcode::LDIA
            | Opcode::LDRA => Family::Load8,
            Opcode::LDDDNN(_, _)
            | Opcode::LDIXNN(_)
            | Opcode::LDIYNN(_)
            | Opcode::LDHLNN(_)
            | Opcode::LDDDNN2(_, _)
            | Opcode::LDIXNN2(_)
            | Opcode::LDIYNN2(_)
            | Opcode::LDNNHL(_)
            | Opcode::LDNNDD(_, _)
            | Opcode::LDNNIX(_)
            | Opcode::LDNNIY(_)
            | Opcode::LDSPHL
            | Opcode::LDSPIX
            | Opcode::LDSPIY => Family::Load16,
            Opcode::PUSHQQ(_)
            | Opcode::PUSHIX
            | Opcode::PUSHIY
            | Opcode::POPQQ(_)
            | Opcode::POPIX
            | Opcode::POPIY => Family::Stack,
            Opcode::EXDEHL
            | Opcode::EXAFAF2
            | Opcode::EXX
            | Opcode::EXSPHL
            | Opcode::EXSPIX
            | Opcode::EXSPIY => Family::Exchange,
            Opcode::LDI
            | Opcode::LDIR
            | Opcode::LDD
            | Opcode::LDDR
            | Opcode::CPI
            | Opcode::CPIR
            | Opcode::CPD
            | Opcode::CPDR => Family::Block,
            Opcode::ADDAR(_)
            | Opcode::ADDAN(_)
            | Opcode::ADDAHL
            | Opcode::ADDAIXD(_)
            | Opcode::ADDAIYD(_)
            | Opcode::SUBAR(_)
            | Opcode::SUBAN(_)
            | Opcode::SUBAHL
            | Opcode::SUBAIXD(_)
            | Opcode::SUBAIYD(_)
            | Opcode::SBCAR(_)
            | Opcode::SBCAN(_)
            | Opcode::SBCAHL
            | Opcode::SBCAIXD(_)
            | Opcode::SBCAIYD(_)
            | Opcode::ANDAR(_)
            | Opcode::ANDAN(_)
            | Opcode::ANDAHL
            | Opcode::ANDAIXD(_)
            | Opcode::ANDAIYD(_)
            | Opcode::ORAR(_)
            | Opcode::ORAN(_)
            | Opcode::ORAHL
            | Opcode::ORAIXD(_)
            | Opcode::ORAIYD(_)
            | Opcode::XORAR(_)
            | Opcode::XORAN(_)
            | Opcode::XORAHL
            | Opcode::XORAIXD(_)
            | Opcode::XORAIYD(_)
            | Opcode::CPAR(_)
            | Opcode::CPAN(_)
            | Opcode::CPAHL
            | Opcode::CPAIXD(_)
            | Opcode::CPAIYD(_)
            | Opcode::INCR(_)
            | Opcode::INCHL
            | Opcode::INCIXD(_)
            | Opcode::INCIYD(_)
            | Opcode::DECR(_)
            | Opcode::DECHL
            | Opcode::DECIXD(_)
            | Opcode::DECIYD(_) => Family::Arithmetic,
            Opcode::NOP => Family::Idle,
            Opcode::ADCAR(_)
            | Opcode::ADCAN(_)
            | Opcode::ADCAHL(_)
            | Opcode::ADCAIXD(_)
            | Opcode::ADCAIYD(_)
            | Opcode::DAA
            | Opcode::CPL
            | Opcode::NEG
            | Opcode::CCF
            | Opcode::SCF
            | Opcode::HALT
            | Opcode::DI
            | Opcode::EI
            | Opcode::IM0
            | Opcode::IM1
            | Opcode::IM2
            | Opcode::ADDHLSS(_)
            | Opcode::ADCHLSS(_)
            | Opcode::SBCHLSS(_)
            | Opcode::ADDIXPP(_)
            | Opcode::ADDIYRR(_)
            | Opcode::INCSS(_)
            | Opcode::INCIX
            | Opcode::INCIY
            | Opcode::DECSS(_)
            | Opcode::DECIX
            | Opcode::DECIY
            | Opcode::RLCA
            | Opcode::RLA
            | Opcode::RRCA
            | Opcode::RRA
            | Opcode::RLCR(_)
            | Opcode::RLCHL
            | Opcode::RLCIXD(_)
            | Opcode::RLCIYD(_)
            | Opcode::RRCR(_)
            | Opcode::RRCHL
            | Opcode::RRCIXD(_)
            | Opcode::RRCIYD(_)
            | Opcode::RRR(_)
            | Opcode::RRHL
            | Opcode::RRIXD(_)
            | Opcode::RRIYD(_)
            | Opcode::SLAR(_)
            | Opcode::SLAHL
            | Opcode::SLAIXD(_)
            | Opcode::SLAIYD(_)
            | Opcode::SRAR(_)
            | Opcode::SRAHL
            | Opcode::SRAIXD(_)
            | Opcode::SRAIYD(_)
            | Opcode::SRLR(_)
            | Opcode::SRLHL
            | Opcode::SRLIXD(_)
            | Opcode::SRLIYD(_)
            | Opcode::RLD
            | Opcode::RRD
            | Opcode::BITBR(_, _)
            | Opcode::BITBHL(_)
            | Opcode::BITBIXD(_, _)
            | Opcode::BITBIYD(_, _)
            | Opcode::SETBR(_, _)
            | Opcode::SETBHL(_)
            | Opcode::SETBIXD(_, _)
            | Opcode::SETBIYD(_, _)
            | Opcode::RESBR(_, _)
            | Opcode::RESBHL(_)
            | Opcode::RESBIXD(_, _)
            | Opcode::RESBIYD(_, _)
            | Opcode::JPNN(_)
            | Opcode::JPCCNN(_, _)
            | Opcode::JRE(_)
            | Opcode::JRCE(_)
            | Opcode::JRNCE(_)
            | Opcode::JRZE(_)
            | Opcode::JRNZE(_)
            | Opcode::JPHL
            | Opcode::JPIX
            | Opcode::JPIY
            | Opcode::DJNZE(_)
            | Opcode::CALLNN(_)
            | Opcode::CALLCCNN(_, _)
            | Opcode::RET
            | Opcode::RETCC(_)
            | Opcode::RETI
            | Opcode::RETN
            | Opcode::RETP(_)
            | Opcode::INAN(_)
            | Opcode::INRC(_)
            | Opcode::INI
            | Opcode::INIR
            | Opcode::IND
            | Opcode::INDR
            | Opcode::OUTNA(_)
            | Opcode::OUTCR(_)
            | Opcode::OUTI
            | Opcode::OTIR
            | Opcode::OUTD
            | Opcode::OTDR => Family::Pending,
        }
    }

    /// Whether the execution engine gives this instruction its effect.
    pub fn implemented(&self) -> (b: bool)
        ensures
            b == self.is_implemented(),
    {
        match self.classify() {
            Family::Pending => false,
            _ => true,
        }
    }
}

} // verus!
