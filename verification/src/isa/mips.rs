//! The MIPS instruction word: its fields, its opcodes, and the registers and
//! pipes that an instruction needs in order to issue.

pub mod ee;
pub mod instruction;

use crate::isa::mips::instruction::{destination_of, function_of, Instruction, source_of, target_of};
use vstd::prelude::*;

verus! {

/// The word that does nothing.
pub const NOP: u32 = 0x0000_0000;

/// The primary opcodes: bits 31..26 of an instruction word.
#[derive(Clone, Copy, Debug, PartialEq, Eq, Structural)]
pub enum Opcode {
    Special,
    Cache,
    Cop0,
    Cop1,
    RegImm,
    AddI,
    AddIU,
    AndI,
    BEq,
    BEqL,
    BGTZ,
    BLEZ,
    BNE,
    BNEL,
    J,
    JaL,
    LB,
    LBU,
    LD,
    LHU,
    LUI,
    LW,
    OrI,
    SB,
    SD,
    SLTI,
    SLTIU,
    SW,
    SWC1,
}

impl Opcode {
    /// The six bits that encode each opcode.
    pub open spec fn code(self) -> u8 {
        match self {
            Opcode::Special => 0b00_0000,
            Opcode::Cache => 0b10_1111,
            Opcode::Cop0 => 0b01_0000,
            Opcode::Cop1 => 0b01_0001,
            Opcode::RegImm => 0b00_0001,
            Opcode::AddI => 0b00_1000,
            Opcode::AddIU => 0b00_1001,
            Opcode::AndI => 0b00_1100,
            Opcode::BEq => 0b00_0100,
            Opcode::BEqL => 0b01_0100,
            Opcode::BGTZ => 0b00_0111,
            Opcode::BLEZ => 0b00_0110,
            Opcode::BNE => 0b00_0101,
            Opcode::BNEL => 0b01_0101,
            Opcode::J => 0b00_0010,
            Opcode::JaL => 0b00_0011,
            Opcode::LB => 0b10_0000,
            Opcode::LBU => 0b10_0100,
            Opcode::LD => 0b11_0111,
            Opcode::LHU => 0b10_0101,
            Opcode::LUI => 0b00_1111,
            Opcode::LW => 0b10_0011,
            Opcode::OrI => 0b00_1101,
            Opcode::SB => 0b10_1000,
            Opcode::SD => 0b11_1111,
            Opcode::SLTI => 0b00_1010,
            Opcode::SLTIU => 0b00_1011,
            Opcode::SW => 0b10_1011,
            Opcode::SWC1 => 0b11_1001,
        }
    }

    /// The variant that `v` stands for, if any.
    pub open spec fn spec_from_u8(v: u8) -> Option<Opcode> {
        if v == 0b00_0000 {
            Some(Opcode::Special)
        } else if v == 0b10_1111 {
            Some(Opcode::Cache)
        } else if v == 0b01_0000 {
            Some(Opcode::Cop0)
        } else if v == 0b01_0001 {
            Some(Opcode::Cop1)
        } else if v == 0b00_0001 {
            Some(Opcode::RegImm)
        } else if v == 0b00_1000 {
            Some(Opcode::AddI)
        } else if v == 0b00_1001 {
            Some(Opcode::AddIU)
        } else if v == 0b00_1100 {
            Some(Opcode::AndI)
        } else if v == 0b00_0100 {
            Some(Opcode::BEq)
        } else if v == 0b01_0100 {
            Some(Opcode::BEqL)
        } else if v == 0b00_0111 {
            Some(Opcode::BGTZ)
        } else if v == 0b00_0110 {
            Some(Opcode::BLEZ)
        } else if v == 0b00_0101 {
            Some(Opcode::BNE)
        } else if v == 0b01_0101 {
            Some(Opcode::BNEL)
        } else if v == 0b00_0010 {
            Some(Opcode::J)
        } else if v == 0b00_0011 {
            Some(Opcode::JaL)
        } else if v == 0b10_0000 {
            Some(Opcode::LB)
        } else if v == 0b10_0100 {
            Some(Opcode::LBU)
        } else if v == 0b11_0111 {
            Some(Opcode::LD)
        } else if v == 0b10_0101 {
            Some(Opcode::LHU)
        } else if v == 0b00_1111 {
            Some(Opcode::LUI)
        } else if v == 0b10_0011 {
            Some(Opcode::LW)
        } else if v == 0b00_1101 {
            Some(Opcode::OrI)
        } else if v == 0b10_1000 {
            Some(Opcode::SB)
        } else if v == 0b11_1111 {
            Some(Opcode::SD)
        } else if v == 0b00_1010 {
            Some(Opcode::SLTI)
        } else if v == 0b00_1011 {
            Some(Opcode::SLTIU)
        } else if v == 0b10_1011 {
            Some(Opcode::SW)
        } else if v == 0b11_1001 {
            Some(Opcode::SWC1)
        } else {
            None
        }
    }

    pub fn to_u8(self) -> (r: u8)
        ensures
            r == self.code(),
    {
        match self {
            Opcode::Special => 0b00_0000,
            Opcode::Cache => 0b10_1111,
            Opcode::Cop0 => 0b01_0000,
            Opcode::Cop1 => 0b01_0001,
            Opcode::RegImm => 0b00_0001,
            Opcode::AddI => 0b00_1000,
            Opcode::AddIU => 0b00_1001,
            Opcode::AndI => 0b00_1100,
            Opcode::BEq => 0b00_0100,
            Opcode::BEqL => 0b01_0100,
            Opcode::BGTZ => 0b00_0111,
            Opcode::BLEZ => 0b00_0110,
            Opcode::BNE => 0b00_0101,
            Opcode::BNEL => 0b01_0101,
            Opcode::J => 0b00_0010,
            Opcode::JaL => 0b00_0011,
            Opcode::LB => 0b10_0000,
            Opcode::LBU => 0b10_0100,
            Opcode::LD => 0b11_0111,
            Opcode::LHU => 0b10_0101,
            Opcode::LUI => 0b00_1111,
            Opcode::LW => 0b10_0011,
            Opcode::OrI => 0b00_1101,
            Opcode::SB => 0b10_1000,
            Opcode::SD => 0b11_1111,
            Opcode::SLTI => 0b00_1010,
            Opcode::SLTIU => 0b00_1011,
            Opcode::SW => 0b10_1011,
            Opcode::SWC1 => 0b11_1001,
        }
    }

    pub fn from_u8(v: u8) -> (r: Option<Opcode>)
        ensures
            r == Opcode::spec_from_u8(v),
            r matches Some(x) ==> x.code() == v,
    {
        if v == 0b00_0000 {
            Some(Opcode::Special)
        } else if v == 0b10_1111 {
            Some(Opcode::Cache)
        } else if v == 0b01_0000 {
            Some(Opcode::Cop0)
        } else if v == 0b01_0001 {
            Some(Opcode::Cop1)
        } else if v == 0b00_0001 {
            Some(Opcode::RegImm)
        } else if v == 0b00_1000 {
            Some(Opcode::AddI)
        } else if v == 0b00_1001 {
            Some(Opcode::AddIU)
        } else if v == 0b00_1100 {
            Some(Opcode::AndI)
        } else if v == 0b00_0100 {
            Some(Opcode::BEq)
        } else if v == 0b01_0100 {
            Some(Opcode::BEqL)
        } else if v == 0b00_0111 {
            Some(Opcode::BGTZ)
        } else if v == 0b00_0110 {
            Some(Opcode::BLEZ)
        } else if v == 0b00_0101 {
            Some(Opcode::BNE)
        } else if v == 0b01_0101 {
            Some(Opcode::BNEL)
        } else if v == 0b00_0010 {
            Some(Opcode::J)
        } else if v == 0b00_0011 {
            Some(Opcode::JaL)
        } else if v == 0b10_0000 {
            Some(Opcode::LB)
        } else if v == 0b10_0100 {
            Some(Opcode::LBU)
        } else if v == 0b11_0111 {
            Some(Opcode::LD)
        } else if v == 0b10_0101 {
            Some(Opcode::LHU)
        } else if v == 0b00_1111 {
            Some(Opcode::LUI)
        } else if v == 0b10_0011 {
            Some(Opcode::LW)
        } else if v == 0b00_1101 {
            Some(Opcode::OrI)
        } else if v == 0b10_1000 {
            Some(Opcode::SB)
        } else if v == 0b11_1111 {
            Some(Opcode::SD)
        } else if v == 0b00_1010 {
            Some(Opcode::SLTI)
        } else if v == 0b00_1011 {
            Some(Opcode::SLTIU)
        } else if v == 0b10_1011 {
            Some(Opcode::SW)
        } else if v == 0b11_1001 {
            Some(Opcode::SWC1)
        } else {
            None
        }
    }

    /// Every variant is found again from its number.
    pub proof fn law_code_round_trip(self)
        ensures
            Opcode::spec_from_u8(self.code()) == Some(self),
    {
    }
}

/// The functions of the `Special` opcode: bits 5..0 of the word.
#[derive(Clone, Copy, Debug, PartialEq, Eq, Structural)]
pub enum Function {
    Add,
    AddU,
    And,
    Break,
    DAddU,
    Div,
    DivU,
    JaLR,
    JR,
    MFHi,
    MFLo,
    MovN,
    Mult,
    Or,
    SLL,
    SLT,
    SLTU,
    SRA,
    SRL,
    SubU,
    Sync,
}

impl Function {
    /// The six bits that encode each function.
    pub open spec fn code(self) -> u8 {
        match self {
            Function::Add => 0b10_0000,
            Function::AddU => 0b10_0001,
            Function::And => 0b10_0100,
            Function::Break => 0b00_1101,
            Function::DAddU => 0b10_1101,
            Function::Div => 0b01_1010,
            Function::DivU => 0b01_1011,
            Function::JaLR => 0b00_1001,
            Function::JR => 0b00_1000,
            Function::MFHi => 0b01_0000,
            Function::MFLo => 0b01_0010,
            Function::MovN => 0b00_1011,
            Function::Mult => 0b01_1000,
            Function::Or => 0b10_0101,
            Function::SLL => 0b00_0000,
            Function::SLT => 0b10_1010,
            Function::SLTU => 0b10_1011,
            Function::SRA => 0b00_0011,
            Function::SRL => 0b00_0010,
            Function::SubU => 0b10_0011,
            Function::Sync => 0b00_1111,
        }
    }

    /// The variant that `v` stands for, if any.
    pub open spec fn spec_from_u8(v: u8) -> Option<Function> {
        if v == 0b10_0000 {
            Some(Function::Add)
        } else if v == 0b10_0001 {
            Some(Function::AddU)
        } else if v == 0b10_0100 {
            Some(Function::And)
        } else if v == 0b00_1101 {
            Some(Function::Break)
        } else if v == 0b10_1101 {
            Some(Function::DAddU)
        } else if v == 0b01_1010 {
            Some(Function::Div)
        } else if v == 0b01_1011 {
            Some(Function::DivU)
        } else if v == 0b00_1001 {
            Some(Function::JaLR)
        } else if v == 0b00_1000 {
            Some(Function::JR)
        } else if v == 0b01_0000 {
            Some(Function::MFHi)
        } else if v == 0b01_0010 {
            Some(Function::MFLo)
        } else if v == 0b00_1011 {
            Some(Function::MovN)
        } else if v == 0b01_1000 {
            Some(Function::Mult)
        } else if v == 0b10_0101 {
            Some(Function::Or)
        } else if v == 0b00_0000 {
            Some(Function::SLL)
        } else if v == 0b10_1010 {
            Some(Function::SLT)
        } else if v == 0b10_1011 {
            Some(Function::SLTU)
        } else if v == 0b00_0011 {
            Some(Function::SRA)
        } else if v == 0b00_0010 {
            Some(Function::SRL)
        } else if v == 0b10_0011 {
            Some(Function::SubU)
        } else if v == 0b00_1111 {
            Some(Function::Sync)
        } else {
            None
        }
    }

    pub fn to_u8(self) -> (r: u8)
        ensures
            r == self.code(),
    {
        match self {
            Function::Add => 0b10_0000,
            Function::AddU => 0b10_0001,
            Function::And => 0b10_0100,
            Function::Break => 0b00_1101,
            Function::DAddU => 0b10_1101,
            Function::Div => 0b01_1010,
            Function::DivU => 0b01_1011,
            Function::JaLR => 0b00_1001,
            Function::JR => 0b00_1000,
            Function::MFHi => 0b01_0000,
            Function::MFLo => 0b01_0010,
            Function::MovN => 0b00_1011,
            Function::Mult => 0b01_1000,
            Function::Or => 0b10_0101,
            Function::SLL => 0b00_0000,
            Function::SLT => 0b10_1010,
            Function::SLTU => 0b10_1011,
            Function::SRA => 0b00_0011,
            Function::SRL => 0b00_0010,
            Function::SubU => 0b10_0011,
            Function::Sync => 0b00_1111,
        }
    }

    pub fn from_u8(v: u8) -> (r: Option<Function>)
        ensures
            r == Function::spec_from_u8(v),
            r matches Some(x) ==> x.code() == v,
    {
        if v == 0b10_0000 {
            Some(Function::Add)
        } else if v == 0b10_0001 {
            Some(Function::AddU)
        } else if v == 0b10_0100 {
            Some(Function::And)
        } else if v == 0b00_1101 {
            Some(Function::Break)
        } else if v == 0b10_1101 {
            Some(Function::DAddU)
        } else if v == 0b01_1010 {
            Some(Function::Div)
        } else if v == 0b01_1011 {
            Some(Function::DivU)
        } else if v == 0b00_1001 {
            Some(Function::JaLR)
        } else if v == 0b00_1000 {
            Some(Function::JR)
        } else if v == 0b01_0000 {
            Some(Function::MFHi)
        } else if v == 0b01_0010 {
            Some(Function::MFLo)
        } else if v == 0b00_1011 {
            Some(Function::MovN)
        } else if v == 0b01_1000 {
            Some(Function::Mult)
        } else if v == 0b10_0101 {
            Some(Function::Or)
        } else if v == 0b00_0000 {
            Some(Function::SLL)
        } else if v == 0b10_1010 {
            Some(Function::SLT)
        } else if v == 0b10_1011 {
            Some(Function::SLTU)
        } else if v == 0b00_0011 {
            Some(Function::SRA)
        } else if v == 0b00_0010 {
            Some(Function::SRL)
        } else if v == 0b10_0011 {
            Some(Function::SubU)
        } else if v == 0b00_1111 {
            Some(Function::Sync)
        } else {
            None
        }
    }

    /// Every variant is found again from its number.
    pub proof fn law_code_round_trip(self)
        ensures
            Function::spec_from_u8(self.code()) == Some(self),
    {
    }
}

impl Function {
    /// The function that the function field of `instruction` names.
    pub open spec fn spec_decode(instruction: u32) -> Option<Function> {
        Function::spec_from_u8(function_of(instruction))
    }

    #[inline(always)]
    pub fn decode(instruction: u32) -> (r: Option<Function>)
        ensures
            r == Function::spec_decode(instruction),
    {
        let raw_func = instruction.r_get_function();
        Function::from_u8(raw_func)
    }
}

/// The branches of the `RegImm` opcode: bits 20..16 of the word.
#[derive(Clone, Copy, Debug, PartialEq, Eq, Structural)]
pub enum RegImmFunction {
    BGEZ,
    BLTZ,
}

impl RegImmFunction {
    /// The five bits that encode each branch.
    pub open spec fn code(self) -> u8 {
        match self {
            RegImmFunction::BGEZ => 0b0_0001,
            RegImmFunction::BLTZ => 0b0_0000,
        }
    }

    /// The variant that `v` stands for, if any.
    pub open spec fn spec_from_u8(v: u8) -> Option<RegImmFunction> {
        if v == 0b0_0001 {
            Some(RegImmFunction::BGEZ)
        } else if v == 0b0_0000 {
            Some(RegImmFunction::BLTZ)
        } else {
            None
        }
    }

    pub fn to_u8(self) -> (r: u8)
        ensures
            r == self.code(),
    {
        match self {
            RegImmFunction::BGEZ => 0b0_0001,
            RegImmFunction::BLTZ => 0b0_0000,
        }
    }

    pub fn from_u8(v: u8) -> (r: Option<RegImmFunction>)
        ensures
            r == RegImmFunction::spec_from_u8(v),
            r matches Some(x) ==> x.code() == v,
    {
        if v == 0b0_0001 {
            Some(RegImmFunction::BGEZ)
        } else if v == 0b0_0000 {
            Some(RegImmFunction::BLTZ)
        } else {
            None
        }
    }

    /// Every variant is found again from its number.
    pub proof fn law_code_round_trip(self)
        ensures
            RegImmFunction::spec_from_u8(self.code()) == Some(self),
    {
    }
}

impl RegImmFunction {
    /// The branch that the target field of `instruction` names.
    pub open spec fn spec_decode(instruction: u32) -> Option<RegImmFunction> {
        RegImmFunction::spec_from_u8(target_of(instruction))
    }

    #[inline(always)]
    pub fn decode(instruction: u32) -> (r: Option<RegImmFunction>)
        ensures
            r == RegImmFunction::spec_decode(instruction),
    {
        let raw_func = instruction.ri_get_target();
        RegImmFunction::from_u8(raw_func)
    }
}

/// What every MIPS processor offers: its 32 general registers, HI and LO,
/// and the 32 registers of COP0, all of one width.
pub trait Cpu {
    /// What a register holds.
    type Register;

    /// What holds of every processor of this kind.
    spec fn cpu_wf(&self) -> bool;

    /// What general register `index` holds.
    spec fn register(&self, index: u8) -> Self::Register;

    /// What COP0 register `index` holds.
    spec fn cop0_register(&self, index: u8) -> Self::Register;

    /// What COP0 register `index` holds once `value` is written to it.
    spec fn cop0_written(&self, index: u8, value: Self::Register) -> Self::Register;

    /// What HI holds.
    spec fn hi_register(&self) -> Self::Register;

    /// What LO holds.
    spec fn lo_register(&self) -> Self::Register;

    fn read_register(&self, index: u8) -> (r: Self::Register)
        requires
            index < 32,
        ensures
            r == self.register(index),
    ;

    /// Register 0 is wired: a write to it changes no register. A write to
    /// another changes that one alone.
    fn write_register(&mut self, index: u8, value: Self::Register)
        requires
            old(self).cpu_wf(),
            index < 32,
        ensures
            final(self).cpu_wf(),
            forall|other: u8|
                other < 32 ==> #[trigger] final(self).register(other) == if other == index && index
                    != 0 {
                    value
                } else {
                    old(self).register(other)
                },
            final(self).hi_register() == old(self).hi_register(),
            final(self).lo_register() == old(self).lo_register(),
    ;

    fn read_cop0(&self, index: u8) -> (r: Self::Register)
        requires
            index < 32,
        ensures
            r == self.cop0_register(index),
    ;

    /// What a register of COP0 takes of a value, and what else follows from
    /// the write, is the processor's own matter; the general registers, HI
    /// and LO are left as they are.
    fn write_cop0(&mut self, index: u8, value: Self::Register)
        requires
            old(self).cpu_wf(),
            index < 32,
        ensures
            final(self).cpu_wf(),
            final(self).cop0_register(index) == old(self).cop0_written(index, value),
            forall|other: u8|
                other < 32 ==> #[trigger] final(self).register(other) == old(self).register(other),
            final(self).hi_register() == old(self).hi_register(),
            final(self).lo_register() == old(self).lo_register(),
    ;

    fn read_hi(&self) -> (r: Self::Register)
        ensures
            r == self.hi_register(),
    ;

    fn write_hi(&mut self, value: Self::Register)
        requires
            old(self).cpu_wf(),
        ensures
            final(self).cpu_wf(),
            final(self).hi_register() == value,
            final(self).lo_register() == old(self).lo_register(),
            forall|other: u8|
                other < 32 ==> #[trigger] final(self).register(other) == old(self).register(other),
    ;

    fn read_lo(&self) -> (r: Self::Register)
        ensures
            r == self.lo_register(),
    ;

    fn write_lo(&mut self, value: Self::Register)
        requires
            old(self).cpu_wf(),
        ensures
            final(self).cpu_wf(),
            final(self).lo_register() == value,
            final(self).hi_register() == old(self).hi_register(),
            forall|other: u8|
                other < 32 ==> #[trigger] final(self).register(other) == old(self).register(other),
    ;
}

/// The registers that an instruction reads and writes, and the pipes that it
/// takes, as two masks: bits 0..31 stand for the general registers, bits 32..37
/// for PC, SA, HI, LO, HI1 and LO1, and the bits from 38 up, in `write` only,
/// for the physical pipes.
#[derive(Clone, Copy, Debug, Eq, Ord, PartialEq, PartialOrd, Structural)]
pub struct Capability {
    /// The registers written, and the pipes consumed.
    pub write: u64,
    /// The registers read.
    pub read: u64,
}

impl Default for Capability {
    fn default() -> (r: Self)
        ensures
            r == (Capability { write: 0, read: 0 }),
    {
        Capability { write: 0, read: 0 }
    }
}

/// The mask bit of general register `r`.
pub open spec fn gpr_bit(r: u8) -> u64 {
    1u64 << r
}

proof fn lemma_normalised(write: u64, read: u64)
    by (bit_vector)
    ensures
        read & (read ^ write) == read & !write,
{
}

impl Capability {
    pub const REG_PC: u64 = 0x1_0000_0000;

    pub const REG_SA: u64 = 0x2_0000_0000;

    pub const REG_HI: u64 = 0x4_0000_0000;

    pub const REG_LO: u64 = 0x8_0000_0000;

    pub const REG_HI1: u64 = 0x10_0000_0000;

    pub const REG_LO1: u64 = 0x20_0000_0000;

    /// The bit of `write` at which the pipes start.
    pub const PIPELINE_SHIFT: u64 = 38;

    /// Selects the registers.
    pub const REGISTER_MASK: u64 = 0x0000_003F_FFFF_FFFF;

    /// Selects the pipes.
    pub const PIPE_MASK: u64 = 0xFFFF_FFC0_0000_0000;

    /// A register that is written is not counted as read: within one
    /// instruction the read comes first, so it is no hazard for another.
    pub open spec fn spec_normalised(write: u64, read: u64) -> Capability {
        Capability { write, read: read & !write }
    }

    #[inline]
    pub fn normalised(write: u64, read: u64) -> (r: Self)
        ensures
            r == Capability::spec_normalised(write, read),
    {
        proof {
            lemma_normalised(write, read);
        }
        Self { write, read: read & (read ^ write) }
    }

    /// Every register and every pipe.
    pub fn all() -> (r: Self)
        ensures
            r == (Capability { write: u64::MAX, read: u64::MAX }),
    {
        Self { write: u64::MAX, read: u64::MAX }
    }

    pub fn write_d_read_ts(i: u32) -> (r: Self)
        ensures
            r == Capability::spec_normalised(
                gpr_bit(destination_of(i)),
                gpr_bit(target_of(i)) | gpr_bit(source_of(i)),
            ),
    {
        Self::normalised(
            1u64 << i.r_get_destination(),
            (1u64 << i.ri_get_target()) | (1u64 << i.ri_get_source()),
        )
    }

    pub fn write_d_read_s(i: u32) -> (r: Self)
        ensures
            r == Capability::spec_normalised(gpr_bit(destination_of(i)), gpr_bit(source_of(i))),
    {
        Self::normalised(1u64 << i.r_get_destination(), 1u64 << i.ri_get_source())
    }

    pub fn write_d_read_t(i: u32) -> (r: Self)
        ensures
            r == Capability::spec_normalised(gpr_bit(destination_of(i)), gpr_bit(target_of(i))),
    {
        Self::normalised(1u64 << i.r_get_destination(), 1u64 << i.ri_get_target())
    }

    pub fn write_d(i: u32) -> (r: Self)
        ensures
            r == Capability::spec_normalised(gpr_bit(destination_of(i)), 0),
    {
        Self::normalised(1u64 << i.r_get_destination(), 0)
    }

    pub fn write_t_read_s(i: u32) -> (r: Self)
        ensures
            r == Capability::spec_normalised(gpr_bit(target_of(i)), gpr_bit(source_of(i))),
    {
        Self::normalised(1u64 << i.ri_get_target(), 1u64 << i.ri_get_source())
    }

    pub fn write_t_read_d(i: u32) -> (r: Self)
        ensures
            r == Capability::spec_normalised(gpr_bit(target_of(i)), gpr_bit(destination_of(i))),
    {
        Self::normalised(1u64 << i.ri_get_target(), 1u64 << i.r_get_destination())
    }

    pub fn write_t(i: u32) -> (r: Self)
        ensures
            r == Capability::spec_normalised(gpr_bit(target_of(i)), 0),
    {
        Self::normalised(1u64 << i.ri_get_target(), 0)
    }

    pub fn read_ts(i: u32) -> (r: Self)
        ensures
            r == Capability::spec_normalised(0, gpr_bit(target_of(i)) | gpr_bit(source_of(i))),
    {
        Self::normalised(0, (1u64 << i.ri_get_target()) | (1u64 << i.ri_get_source()))
    }

    pub fn read_s(i: u32) -> (r: Self)
        ensures
            r == Capability::spec_normalised(0, gpr_bit(source_of(i))),
    {
        Self::normalised(0, 1u64 << i.ri_get_source())
    }

    pub fn read_t(i: u32) -> (r: Self)
        ensures
            r == Capability::spec_normalised(0, gpr_bit(target_of(i))),
    {
        Self::normalised(0, 1u64 << i.ri_get_target())
    }

    pub fn read_td(i: u32) -> (r: Self)
        ensures
            r == Capability::spec_normalised(
                0,
                gpr_bit(target_of(i)) | gpr_bit(destination_of(i)),
            ),
    {
        Self::normalised(0, (1u64 << i.ri_get_target()) | (1u64 << i.r_get_destination()))
    }

    pub fn jump(_i: u32) -> (r: Self)
        ensures
            r == (Capability { write: Capability::REG_PC, read: 0 }),
    {
        Self { write: Self::REG_PC, read: 0 }
    }

    pub fn jump_link(_i: u32) -> (r: Self)
        ensures
            r == (Capability { write: Capability::REG_PC | gpr_bit(31), read: 0 }),
    {
        Self { write: Self::REG_PC | (1u64 << 31u8), read: 0 }
    }

    /// Unlike the others this one is not normalised: a register that is both
    /// the link and the source stays in both masks.
    pub fn jump_link_reg(i: u32) -> (r: Self)
        ensures
            r == (Capability {
                write: Capability::REG_PC | gpr_bit(destination_of(i)),
                read: gpr_bit(source_of(i)),
            }),
    {
        Self { write: Self::REG_PC | (1u64 << i.r_get_destination()), read: (1u64 << i.ri_get_source()) }
    }

    pub fn jump_reg(i: u32) -> (r: Self)
        ensures
            r == (Capability { write: Capability::REG_PC, read: gpr_bit(source_of(i)) }),
    {
        Self { write: Self::REG_PC, read: (1u64 << i.ri_get_source()) }
    }

    pub fn branch_compare(i: u32) -> (r: Self)
        ensures
            r == Capability::spec_normalised(
                Capability::REG_PC,
                gpr_bit(source_of(i)) | gpr_bit(target_of(i)),
            ),
    {
        Self::normalised(Self::REG_PC, (1u64 << i.ri_get_source()) | (1u64 << i.ri_get_target()))
    }

    pub fn branch_read_s(i: u32) -> (r: Self)
        ensures
            r == Capability::spec_normalised(Capability::REG_PC, gpr_bit(source_of(i))),
    {
        Self::normalised(Self::REG_PC, 1u64 << i.ri_get_source())
    }

    pub fn mul_div(i: u32) -> (r: Self)
        ensures
            r == Capability::spec_normalised(
                Capability::REG_HI | Capability::REG_LO,
                gpr_bit(source_of(i)) | gpr_bit(target_of(i)),
            ),
    {
        Self::normalised(
            Self::REG_HI | Self::REG_LO,
            (1u64 << i.ri_get_source()) | (1u64 << i.ri_get_target()),
        )
    }

    pub fn no_req(_i: u32) -> (r: Self)
        ensures
            r == (Capability { write: 0, read: 0 }),
    {
        Capability { write: 0, read: 0 }
    }
}

/// What an instruction needs: one set, or either of two.
#[derive(Debug, Eq, Ord, PartialEq, PartialOrd)]
pub enum Requirement<T> {
    /// All of it is needed.
    Joint(T),
    /// Either the first or the second is enough.
    Disjoint(T, T),
}

impl<T: Copy> Clone for Requirement<T> {
    fn clone(&self) -> (r: Self)
        ensures
            r == *self,
    {
        *self
    }
}

impl<T: Copy> Copy for Requirement<T> {

}

impl<T: Default> Default for Requirement<T> {
    /// All of what `T` needs by default.
    fn default() -> (r: Self)
        ensures
            r matches Requirement::Joint(a) && call_ensures(T::default, (), a),
    {
        Requirement::Joint(T::default())
    }
}

impl<T> Requirement<T> {
    pub open spec fn spec_first(self) -> T {
        match self {
            Requirement::Joint(a) => a,
            Requirement::Disjoint(a, _b) => a,
        }
    }

    pub open spec fn spec_second(self) -> Option<T> {
        match self {
            Requirement::Joint(_a) => None,
            Requirement::Disjoint(_a, b) => Some(b),
        }
    }

    pub fn first(&self) -> (r: &T)
        ensures
            *r == self.spec_first(),
    {
        match self {
            Requirement::Joint(a) => a,
            Requirement::Disjoint(a, _b) => a,
        }
    }

    pub fn second(&self) -> (r: Option<&T>)
        ensures
            r matches Some(b) ==> self.spec_second() == Some(*b),
            r is None <==> self.spec_second() is None,
    {
        match self {
            Requirement::Joint(_a) => None,
            Requirement::Disjoint(_a, b) => Some(b),
        }
    }
}

} // verus!
