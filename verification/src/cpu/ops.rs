//! The instructions: what each does, and how a word is decoded into one.

pub mod arithmetic;
pub mod branch;
pub mod cop0;
pub mod cop1;
pub mod load;
pub mod store;

use crate::cpu::EECore;
use crate::cpu::constants::requirements::PipeClass;
use crate::cpu::constants::timings::{
    FLOAT_MFC1_DELAY, INTEGER_BRANCH_JUMP_DELAY, INTEGER_CONDITIONAL_MOVE_DELAY, INTEGER_DIV_DELAY,
    INTEGER_HI_LO_TRANSFER_DELAY, INTEGER_LOAD_STORE_DELAY, INTEGER_MULT_DELAY,
    INTEGER_SHIFT_LUI_DELAY, INTEGER_SUM_LOGIC_DELAY,
};
use crate::cpu::pipeline::{BranchAction, BranchOpCode, BranchResult, EEAction, OpCode};
use crate::cpu::state::EEState;
use crate::isa::mips::{Capability, Function, gpr_bit, Opcode, RegImmFunction};
use crate::isa::mips::ee::{CacheFunction, Cop0Function, Cop1Function};
use crate::isa::mips::instruction::{destination_of, Instruction, opcode_of, source_of, target_of};
use vstd::prelude::*;

verus! {

/// What a word encodes: an instruction of its own opcode, or one of a
/// family that shares an opcode.
#[derive(Clone, Copy, Debug, PartialEq, Eq, Structural)]
pub enum Encoding {
    Primary(Opcode),
    Special(Function),
    Cache(CacheFunction),
    Cop0(Cop0Function),
    RegImm(RegImmFunction),
}

/// The ways in which an instruction uses the general registers, by the
/// fields of its word.
#[derive(Clone, Copy, Debug, PartialEq, Eq, Structural)]
pub enum RegisterUse {
    /// Writes rd; reads rt and rs.
    WriteDReadTS,
    /// Writes rd; reads rs.
    WriteDReadS,
    /// Writes rd; reads rt.
    WriteDReadT,
    /// Writes rd.
    WriteD,
    /// Writes rt; reads rs.
    WriteTReadS,
    /// Writes rt; reads rd.
    WriteTReadD,
    /// Writes rt.
    WriteT,
    /// Reads rt and rs.
    ReadTS,
    /// Reads rs.
    ReadS,
    /// Reads rt.
    ReadT,
    /// Reads rt and rd.
    ReadTD,
    /// Writes PC.
    Jump,
    /// Writes PC and register 31.
    JumpLink,
    /// Writes PC and rd; reads rs.
    JumpLinkReg,
    /// Writes PC; reads rs.
    JumpReg,
    /// Writes PC; reads rs and rt.
    BranchCompare,
    /// Writes PC; reads rs.
    BranchReadS,
    /// Writes HI and LO; reads rs and rt.
    MulDiv,
    /// Touches no register.
    NoReq,
}

impl RegisterUse {
    /// The registers that an instruction with the word `word` reads and
    /// writes.
    pub open spec fn registers(self, word: u32) -> Capability {
        match self {
            RegisterUse::WriteDReadTS => Capability::spec_normalised(
                gpr_bit(destination_of(word)),
                gpr_bit(target_of(word)) | gpr_bit(source_of(word)),
            ),
            RegisterUse::WriteDReadS => Capability::spec_normalised(
                gpr_bit(destination_of(word)),
                gpr_bit(source_of(word)),
            ),
            RegisterUse::WriteDReadT => Capability::spec_normalised(
                gpr_bit(destination_of(word)),
                gpr_bit(target_of(word)),
            ),
            RegisterUse::WriteD => Capability::spec_normalised(gpr_bit(destination_of(word)), 0),
            RegisterUse::WriteTReadS => Capability::spec_normalised(
                gpr_bit(target_of(word)),
                gpr_bit(source_of(word)),
            ),
            RegisterUse::WriteTReadD => Capability::spec_normalised(
                gpr_bit(target_of(word)),
                gpr_bit(destination_of(word)),
            ),
            RegisterUse::WriteT => Capability::spec_normalised(gpr_bit(target_of(word)), 0),
            RegisterUse::ReadTS => Capability::spec_normalised(
                0,
                gpr_bit(target_of(word)) | gpr_bit(source_of(word)),
            ),
            RegisterUse::ReadS => Capability::spec_normalised(0, gpr_bit(source_of(word))),
            RegisterUse::ReadT => Capability::spec_normalised(0, gpr_bit(target_of(word))),
            RegisterUse::ReadTD => Capability::spec_normalised(
                0,
                gpr_bit(target_of(word)) | gpr_bit(destination_of(word)),
            ),
            RegisterUse::Jump => Capability { write: Capability::REG_PC, read: 0 },
            RegisterUse::JumpLink => Capability { write: Capability::REG_PC | gpr_bit(31), read: 0 },
            RegisterUse::JumpLinkReg => Capability {
                write: Capability::REG_PC | gpr_bit(destination_of(word)),
                read: gpr_bit(source_of(word)),
            },
            RegisterUse::JumpReg => Capability { write: Capability::REG_PC, read: gpr_bit(source_of(word)) },
            RegisterUse::BranchCompare => Capability::spec_normalised(
                Capability::REG_PC,
                gpr_bit(source_of(word)) | gpr_bit(target_of(word)),
            ),
            RegisterUse::BranchReadS => Capability::spec_normalised(Capability::REG_PC, gpr_bit(source_of(word))),
            RegisterUse::MulDiv => Capability::spec_normalised(
                Capability::REG_HI | Capability::REG_LO,
                gpr_bit(source_of(word)) | gpr_bit(target_of(word)),
            ),
            RegisterUse::NoReq => Capability { write: 0, read: 0 },
        }
    }

    pub fn build(self, word: u32) -> (r: Capability)
        ensures
            r == self.registers(word),
    {
        match self {
            RegisterUse::WriteDReadTS => Capability::write_d_read_ts(word),
            RegisterUse::WriteDReadS => Capability::write_d_read_s(word),
            RegisterUse::WriteDReadT => Capability::write_d_read_t(word),
            RegisterUse::WriteD => Capability::write_d(word),
            RegisterUse::WriteTReadS => Capability::write_t_read_s(word),
            RegisterUse::WriteTReadD => Capability::write_t_read_d(word),
            RegisterUse::WriteT => Capability::write_t(word),
            RegisterUse::ReadTS => Capability::read_ts(word),
            RegisterUse::ReadS => Capability::read_s(word),
            RegisterUse::ReadT => Capability::read_t(word),
            RegisterUse::ReadTD => Capability::read_td(word),
            RegisterUse::Jump => Capability::jump(word),
            RegisterUse::JumpLink => Capability::jump_link(word),
            RegisterUse::JumpLinkReg => Capability::jump_link_reg(word),
            RegisterUse::JumpReg => Capability::jump_reg(word),
            RegisterUse::BranchCompare => Capability::branch_compare(word),
            RegisterUse::BranchReadS => Capability::branch_read_s(word),
            RegisterUse::MulDiv => Capability::mul_div(word),
            RegisterUse::NoReq => Capability::no_req(word),
        }
    }
}

/// One line of the decoder table: what the instruction does, how many
/// cycles it takes, the pipes it needs, and how it uses the registers. The
/// mnemonic of the line is had from `Encoding::mnemonic`.
#[derive(Clone, Copy, Debug, PartialEq, Eq, Structural)]
pub struct OpEntry {
    pub action: EEAction,
    pub delay: u8,
    pub pipes: PipeClass,
    pub registers: RegisterUse,
}

impl Encoding {
    /// The family that the opcode of `word` opens, or the opcode itself;
    /// nothing where the opcode or the member of the family is not known.
    pub open spec fn spec_of_word(word: u32) -> Option<Encoding> {
        match Opcode::spec_from_u8(opcode_of(word)) {
            Some(Opcode::Special) => match Function::spec_decode(word) {
                Some(f) => Some(Encoding::Special(f)),
                None => None,
            },
            Some(Opcode::Cache) => match CacheFunction::spec_decode(word) {
                Some(f) => Some(Encoding::Cache(f)),
                None => None,
            },
            Some(Opcode::Cop0) => match Cop0Function::spec_decode(word) {
                Some(f) => Some(Encoding::Cop0(f)),
                None => None,
            },
            Some(Opcode::Cop1) => None,
            Some(Opcode::RegImm) => match RegImmFunction::spec_decode(word) {
                Some(f) => Some(Encoding::RegImm(f)),
                None => None,
            },
            Some(op) => Some(Encoding::Primary(op)),
            None => None,
        }
    }

    pub fn of_word(word: u32) -> (r: Option<Encoding>)
        ensures
            r == Encoding::spec_of_word(word),
    {
        match Opcode::from_u8(word.get_opcode()) {
            Some(Opcode::Special) => match Function::decode(word) {
                Some(f) => Some(Encoding::Special(f)),
                None => None,
            },
            Some(Opcode::Cache) => match CacheFunction::decode(word) {
                Some(f) => Some(Encoding::Cache(f)),
                None => None,
            },
            Some(Opcode::Cop0) => match Cop0Function::decode(word) {
                Some(f) => Some(Encoding::Cop0(f)),
                None => None,
            },
            Some(Opcode::Cop1) => match Cop1Function::decode(word) {
                Some(_) => None,
                None => None,
            },
            Some(Opcode::RegImm) => match RegImmFunction::decode(word) {
                Some(f) => Some(Encoding::RegImm(f)),
                None => None,
            },
            Some(op) => Some(Encoding::Primary(op)),
            None => None,
        }
    }

    /// The decoder table. An opcode that only opens a family has no line of
    /// its own.
    pub open spec fn entry(self) -> Option<OpEntry> {
        match self {
            Encoding::Special(Function::Add) => Some(
                OpEntry {
                    action: EEAction::Add,
                    delay: INTEGER_SUM_LOGIC_DELAY,
                    pipes: PipeClass::Alu,
                    registers: RegisterUse::WriteDReadTS,
                },
            ),
            Encoding::Special(Function::AddU) => Some(
                OpEntry {
                    action: EEAction::Addu,
                    delay: INTEGER_SUM_LOGIC_DELAY,
                    pipes: PipeClass::Alu,
                    registers: RegisterUse::WriteDReadTS,
                },
            ),
            Encoding::Special(Function::And) => Some(
                OpEntry {
                    action: EEAction::And,
                    delay: INTEGER_SUM_LOGIC_DELAY,
                    pipes: PipeClass::Alu,
                    registers: RegisterUse::WriteDReadTS,
                },
            ),
            Encoding::Special(Function::Break) => Some(
                OpEntry {
                    action: EEAction::BreakI,
                    delay: INTEGER_BRANCH_JUMP_DELAY,
                    pipes: PipeClass::Alu,
                    registers: RegisterUse::NoReq,
                },
            ),
            Encoding::Special(Function::DAddU) => Some(
                OpEntry {
                    action: EEAction::Daddu,
                    delay: INTEGER_SUM_LOGIC_DELAY,
                    pipes: PipeClass::Alu,
                    registers: RegisterUse::WriteDReadTS,
                },
            ),
            Encoding::Special(Function::Div) => Some(
                OpEntry {
                    action: EEAction::Div,
                    delay: INTEGER_DIV_DELAY,
                    pipes: PipeClass::Mac0,
                    registers: RegisterUse::MulDiv,
                },
            ),
            Encoding::Special(Function::DivU) => Some(
                OpEntry {
                    action: EEAction::Divu,
                    delay: INTEGER_DIV_DELAY,
                    pipes: PipeClass::Mac0,
                    registers: RegisterUse::MulDiv,
                },
            ),
            Encoding::Special(Function::JaLR) => Some(
                OpEntry {
                    action: EEAction::Jalr,
                    delay: INTEGER_BRANCH_JUMP_DELAY,
                    pipes: PipeClass::Branch,
                    registers: RegisterUse::JumpLinkReg,
                },
            ),
            Encoding::Special(Function::JR) => Some(
                OpEntry {
                    action: EEAction::Jr,
                    delay: INTEGER_BRANCH_JUMP_DELAY,
                    pipes: PipeClass::Branch,
                    registers: RegisterUse::JumpReg,
                },
            ),
            Encoding::Special(Function::MFHi) => Some(
                OpEntry {
                    action: EEAction::Mfhi,
                    delay: INTEGER_HI_LO_TRANSFER_DELAY,
                    pipes: PipeClass::Mac0,
                    registers: RegisterUse::WriteD,
                },
            ),
            Encoding::Special(Function::MFLo) => Some(
                OpEntry {
                    action: EEAction::Mflo,
                    delay: INTEGER_HI_LO_TRANSFER_DELAY,
                    pipes: PipeClass::Mac0,
                    registers: RegisterUse::WriteD,
                },
            ),
            Encoding::Special(Function::MovN) => Some(
                OpEntry {
                    action: EEAction::Movn,
                    delay: INTEGER_CONDITIONAL_MOVE_DELAY,
                    pipes: PipeClass::Alu,
                    registers: RegisterUse::WriteDReadTS,
                },
            ),
            Encoding::Special(Function::Mult) => Some(
                OpEntry {
                    action: EEAction::Mult,
                    delay: INTEGER_MULT_DELAY,
                    pipes: PipeClass::Mac0,
                    registers: RegisterUse::MulDiv,
                },
            ),
            Encoding::Special(Function::Or) => Some(
                OpEntry {
                    action: EEAction::Or,
                    delay: INTEGER_SUM_LOGIC_DELAY,
                    pipes: PipeClass::Alu,
                    registers: RegisterUse::WriteDReadTS,
                },
            ),
            Encoding::Special(Function::SLL) => Some(
                OpEntry {
                    action: EEAction::Sll,
                    delay: INTEGER_SHIFT_LUI_DELAY,
                    pipes: PipeClass::Alu,
                    registers: RegisterUse::WriteDReadT,
                },
            ),
            Encoding::Special(Function::SLT) => Some(
                OpEntry {
                    action: EEAction::Slt,
                    delay: INTEGER_SUM_LOGIC_DELAY,
                    pipes: PipeClass::Alu,
                    registers: RegisterUse::WriteDReadTS,
                },
            ),
            Encoding::Special(Function::SLTU) => Some(
                OpEntry {
                    action: EEAction::Sltu,
                    delay: INTEGER_SUM_LOGIC_DELAY,
                    pipes: PipeClass::Alu,
                    registers: RegisterUse::WriteDReadTS,
                },
            ),
            Encoding::Special(Function::SRA) => Some(
                OpEntry {
                    action: EEAction::Sra,
                    delay: INTEGER_SHIFT_LUI_DELAY,
                    pipes: PipeClass::Alu,
                    registers: RegisterUse::WriteDReadT,
                },
            ),
            Encoding::Special(Function::SRL) => Some(
                OpEntry {
                    action: EEAction::Srl,
                    delay: INTEGER_SHIFT_LUI_DELAY,
                    pipes: PipeClass::Alu,
                    registers: RegisterUse::WriteDReadT,
                },
            ),
            Encoding::Special(Function::SubU) => Some(
                OpEntry {
                    action: EEAction::Subu,
                    delay: INTEGER_SUM_LOGIC_DELAY,
                    pipes: PipeClass::Alu,
                    registers: RegisterUse::WriteDReadTS,
                },
            ),
            Encoding::Special(Function::Sync) => Some(
                OpEntry {
                    action: EEAction::Nop,
                    delay: INTEGER_SHIFT_LUI_DELAY,
                    pipes: PipeClass::Sync,
                    registers: RegisterUse::NoReq,
                },
            ),
            Encoding::Cache(CacheFunction::BFH) => Some(
                OpEntry {
                    action: EEAction::Nop,
                    delay: INTEGER_LOAD_STORE_DELAY,
                    pipes: PipeClass::Ls,
                    registers: RegisterUse::NoReq,
                },
            ),
            Encoding::Cache(CacheFunction::BHINBT) => Some(
                OpEntry {
                    action: EEAction::Nop,
                    delay: INTEGER_LOAD_STORE_DELAY,
                    pipes: PipeClass::Ls,
                    registers: RegisterUse::NoReq,
                },
            ),
            Encoding::Cache(CacheFunction::BXLBT) => Some(
                OpEntry {
                    action: EEAction::Nop,
                    delay: INTEGER_LOAD_STORE_DELAY,
                    pipes: PipeClass::Ls,
                    registers: RegisterUse::NoReq,
                },
            ),
            Encoding::Cache(CacheFunction::BXSBT) => Some(
                OpEntry {
                    action: EEAction::Nop,
                    delay: INTEGER_LOAD_STORE_DELAY,
                    pipes: PipeClass::Ls,
                    registers: RegisterUse::NoReq,
                },
            ),
            Encoding::Cache(CacheFunction::DHIN) => Some(
                OpEntry {
                    action: EEAction::Nop,
                    delay: INTEGER_LOAD_STORE_DELAY,
                    pipes: PipeClass::Ls,
                    registers: RegisterUse::NoReq,
                },
            ),
            Encoding::Cache(CacheFunction::DHWBIN) => Some(
                OpEntry {
                    action: EEAction::Nop,
                    delay: INTEGER_LOAD_STORE_DELAY,
                    pipes: PipeClass::Ls,
                    registers: RegisterUse::NoReq,
                },
            ),
            Encoding::Cache(CacheFunction::DHWOIN) => Some(
                OpEntry {
                    action: EEAction::Nop,
                    delay: INTEGER_LOAD_STORE_DELAY,
                    pipes: PipeClass::Ls,
                    registers: RegisterUse::NoReq,
                },
            ),
            Encoding::Cache(CacheFunction::DXIN) => Some(
                OpEntry {
                    action: EEAction::Nop,
                    delay: INTEGER_LOAD_STORE_DELAY,
                    pipes: PipeClass::Ls,
                    registers: RegisterUse::NoReq,
                },
            ),
            Encoding::Cache(CacheFunction::DXLDT) => Some(
                OpEntry {
                    action: EEAction::Nop,
                    delay: INTEGER_LOAD_STORE_DELAY,
                    pipes: PipeClass::Ls,
                    registers: RegisterUse::NoReq,
                },
            ),
            Encoding::Cache(CacheFunction::DXLTG) => Some(
                OpEntry {
                    action: EEAction::Nop,
                    delay: INTEGER_LOAD_STORE_DELAY,
                    pipes: PipeClass::Ls,
                    registers: RegisterUse::NoReq,
                },
            ),
            Encoding::Cache(CacheFunction::DXSDT) => Some(
                OpEntry {
                    action: EEAction::Nop,
                    delay: INTEGER_LOAD_STORE_DELAY,
                    pipes: PipeClass::Ls,
                    registers: RegisterUse::NoReq,
                },
            ),
            Encoding::Cache(CacheFunction::DXSTG) => Some(
                OpEntry {
                    action: EEAction::Nop,
                    delay: INTEGER_LOAD_STORE_DELAY,
                    pipes: PipeClass::Ls,
                    registers: RegisterUse::NoReq,
                },
            ),
            Encoding::Cache(CacheFunction::DXWBIN) => Some(
                OpEntry {
                    action: EEAction::Nop,
                    delay: INTEGER_LOAD_STORE_DELAY,
                    pipes: PipeClass::Ls,
                    registers: RegisterUse::NoReq,
                },
            ),
            Encoding::Cache(CacheFunction::IFL) => Some(
                OpEntry {
                    action: EEAction::Nop,
                    delay: INTEGER_LOAD_STORE_DELAY,
                    pipes: PipeClass::Ls,
                    registers: RegisterUse::NoReq,
                },
            ),
            Encoding::Cache(CacheFunction::IHIN) => Some(
                OpEntry {
                    action: EEAction::Nop,
                    delay: INTEGER_LOAD_STORE_DELAY,
                    pipes: PipeClass::Ls,
                    registers: RegisterUse::NoReq,
                },
            ),
            Encoding::Cache(CacheFunction::IXIN) => Some(
                OpEntry {
                    action: EEAction::Nop,
                    delay: INTEGER_LOAD_STORE_DELAY,
                    pipes: PipeClass::Ls,
                    registers: RegisterUse::NoReq,
                },
            ),
            Encoding::Cache(CacheFunction::IXLDT) => Some(
                OpEntry {
                    action: EEAction::Nop,
                    delay: INTEGER_LOAD_STORE_DELAY,
                    pipes: PipeClass::Ls,
                    registers: RegisterUse::NoReq,
                },
            ),
            Encoding::Cache(CacheFunction::IXLTG) => Some(
                OpEntry {
                    action: EEAction::Ixltg,
                    delay: INTEGER_LOAD_STORE_DELAY,
                    pipes: PipeClass::Ls,
                    registers: RegisterUse::NoReq,
                },
            ),
            Encoding::Cache(CacheFunction::IXSDT) => Some(
                OpEntry {
                    action: EEAction::Nop,
                    delay: INTEGER_LOAD_STORE_DELAY,
                    pipes: PipeClass::Ls,
                    registers: RegisterUse::NoReq,
                },
            ),
            Encoding::Cache(CacheFunction::IXSTG) => Some(
                OpEntry {
                    action: EEAction::Nop,
                    delay: INTEGER_LOAD_STORE_DELAY,
                    pipes: PipeClass::Ls,
                    registers: RegisterUse::NoReq,
                },
            ),
            Encoding::Cop0(Cop0Function::MFBPC) => Some(
                OpEntry {
                    action: EEAction::Mfc0,
                    delay: INTEGER_LOAD_STORE_DELAY,
                    pipes: PipeClass::Cop0,
                    registers: RegisterUse::WriteT,
                },
            ),
            Encoding::Cop0(Cop0Function::MFC0) => Some(
                OpEntry {
                    action: EEAction::Mfc0,
                    delay: INTEGER_LOAD_STORE_DELAY,
                    pipes: PipeClass::Cop0,
                    registers: RegisterUse::WriteTReadD,
                },
            ),
            Encoding::Cop0(Cop0Function::MTBPC) => Some(
                OpEntry {
                    action: EEAction::Mtc0,
                    delay: INTEGER_LOAD_STORE_DELAY,
                    pipes: PipeClass::Cop0,
                    registers: RegisterUse::ReadT,
                },
            ),
            Encoding::Cop0(Cop0Function::MTC0) => Some(
                OpEntry {
                    action: EEAction::Mtc0,
                    delay: INTEGER_LOAD_STORE_DELAY,
                    pipes: PipeClass::Cop0,
                    registers: RegisterUse::ReadTD,
                },
            ),
            Encoding::Cop0(Cop0Function::TlbWI) => Some(
                OpEntry {
                    action: EEAction::Tlbwi,
                    delay: INTEGER_LOAD_STORE_DELAY,
                    pipes: PipeClass::Cop0,
                    registers: RegisterUse::NoReq,
                },
            ),
            Encoding::Cop0(Cop0Function::TlbWR) => Some(
                OpEntry {
                    action: EEAction::Tlbwr,
                    delay: INTEGER_LOAD_STORE_DELAY,
                    pipes: PipeClass::Cop0,
                    registers: RegisterUse::NoReq,
                },
            ),
            Encoding::RegImm(RegImmFunction::BGEZ) => Some(
                OpEntry {
                    action: EEAction::Bgez,
                    delay: INTEGER_BRANCH_JUMP_DELAY,
                    pipes: PipeClass::Branch,
                    registers: RegisterUse::BranchReadS,
                },
            ),
            Encoding::RegImm(RegImmFunction::BLTZ) => Some(
                OpEntry {
                    action: EEAction::Bltz,
                    delay: INTEGER_BRANCH_JUMP_DELAY,
                    pipes: PipeClass::Branch,
                    registers: RegisterUse::BranchReadS,
                },
            ),
            Encoding::Primary(Opcode::AddI) => Some(
                OpEntry {
                    action: EEAction::Addi,
                    delay: INTEGER_SUM_LOGIC_DELAY,
                    pipes: PipeClass::Alu,
                    registers: RegisterUse::WriteTReadS,
                },
            ),
            Encoding::Primary(Opcode::AddIU) => Some(
                OpEntry {
                    action: EEAction::Addiu,
                    delay: INTEGER_SUM_LOGIC_DELAY,
                    pipes: PipeClass::Alu,
                    registers: RegisterUse::WriteTReadS,
                },
            ),
            Encoding::Primary(Opcode::AndI) => Some(
                OpEntry {
                    action: EEAction::Andi,
                    delay: INTEGER_SUM_LOGIC_DELAY,
                    pipes: PipeClass::Alu,
                    registers: RegisterUse::WriteTReadS,
                },
            ),
            Encoding::Primary(Opcode::BEq) => Some(
                OpEntry {
                    action: EEAction::Beq,
                    delay: INTEGER_BRANCH_JUMP_DELAY,
                    pipes: PipeClass::Branch,
                    registers: RegisterUse::BranchCompare,
                },
            ),
            Encoding::Primary(Opcode::BEqL) => Some(
                OpEntry {
                    action: EEAction::Beql,
                    delay: INTEGER_BRANCH_JUMP_DELAY,
                    pipes: PipeClass::Branch,
                    registers: RegisterUse::BranchCompare,
                },
            ),
            Encoding::Primary(Opcode::BGTZ) => Some(
                OpEntry {
                    action: EEAction::Bgtz,
                    delay: INTEGER_BRANCH_JUMP_DELAY,
                    pipes: PipeClass::Branch,
                    registers: RegisterUse::BranchCompare,
                },
            ),
            Encoding::Primary(Opcode::BLEZ) => Some(
                OpEntry {
                    action: EEAction::Blez,
                    delay: INTEGER_BRANCH_JUMP_DELAY,
                    pipes: PipeClass::Branch,
                    registers: RegisterUse::BranchCompare,
                },
            ),
            Encoding::Primary(Opcode::BNE) => Some(
                OpEntry {
                    action: EEAction::Bne,
                    delay: INTEGER_BRANCH_JUMP_DELAY,
                    pipes: PipeClass::Branch,
                    registers: RegisterUse::BranchCompare,
                },
            ),
            Encoding::Primary(Opcode::BNEL) => Some(
                OpEntry {
                    action: EEAction::Bnel,
                    delay: INTEGER_BRANCH_JUMP_DELAY,
                    pipes: PipeClass::Branch,
                    registers: RegisterUse::BranchCompare,
                },
            ),
            Encoding::Primary(Opcode::J) => Some(
                OpEntry {
                    action: EEAction::J,
                    delay: INTEGER_BRANCH_JUMP_DELAY,
                    pipes: PipeClass::Branch,
                    registers: RegisterUse::Jump,
                },
            ),
            Encoding::Primary(Opcode::JaL) => Some(
                OpEntry {
                    action: EEAction::Jal,
                    delay: INTEGER_BRANCH_JUMP_DELAY,
                    pipes: PipeClass::Branch,
                    registers: RegisterUse::JumpLink,
                },
            ),
            Encoding::Primary(Opcode::LB) => Some(
                OpEntry {
                    action: EEAction::Lb,
                    delay: INTEGER_LOAD_STORE_DELAY,
                    pipes: PipeClass::Ls,
                    registers: RegisterUse::WriteTReadS,
                },
            ),
            Encoding::Primary(Opcode::LBU) => Some(
                OpEntry {
                    action: EEAction::Lbu,
                    delay: INTEGER_LOAD_STORE_DELAY,
                    pipes: PipeClass::Ls,
                    registers: RegisterUse::WriteTReadS,
                },
            ),
            Encoding::Primary(Opcode::LD) => Some(
                OpEntry {
                    action: EEAction::Ld,
                    delay: INTEGER_LOAD_STORE_DELAY,
                    pipes: PipeClass::Ls,
                    registers: RegisterUse::WriteTReadS,
                },
            ),
            Encoding::Primary(Opcode::LHU) => Some(
                OpEntry {
                    action: EEAction::Lhu,
                    delay: INTEGER_LOAD_STORE_DELAY,
                    pipes: PipeClass::Ls,
                    registers: RegisterUse::WriteTReadS,
                },
            ),
            Encoding::Primary(Opcode::LUI) => Some(
                OpEntry {
                    action: EEAction::Lui,
                    delay: INTEGER_SHIFT_LUI_DELAY,
                    pipes: PipeClass::Ls,
                    registers: RegisterUse::WriteT,
                },
            ),
            Encoding::Primary(Opcode::LW) => Some(
                OpEntry {
                    action: EEAction::Lw,
                    delay: INTEGER_LOAD_STORE_DELAY,
                    pipes: PipeClass::Ls,
                    registers: RegisterUse::WriteTReadS,
                },
            ),
            Encoding::Primary(Opcode::OrI) => Some(
                OpEntry {
                    action: EEAction::Ori,
                    delay: INTEGER_SUM_LOGIC_DELAY,
                    pipes: PipeClass::Alu,
                    registers: RegisterUse::WriteTReadS,
                },
            ),
            Encoding::Primary(Opcode::SB) => Some(
                OpEntry {
                    action: EEAction::Sb,
                    delay: INTEGER_LOAD_STORE_DELAY,
                    pipes: PipeClass::Ls,
                    registers: RegisterUse::ReadTS,
                },
            ),
            Encoding::Primary(Opcode::SD) => Some(
                OpEntry {
                    action: EEAction::Sd,
                    delay: INTEGER_LOAD_STORE_DELAY,
                    pipes: PipeClass::Ls,
                    registers: RegisterUse::ReadTS,
                },
            ),
            Encoding::Primary(Opcode::SLTI) => Some(
                OpEntry {
                    action: EEAction::Slti,
                    delay: INTEGER_SUM_LOGIC_DELAY,
                    pipes: PipeClass::Alu,
                    registers: RegisterUse::WriteTReadS,
                },
            ),
            Encoding::Primary(Opcode::SLTIU) => Some(
                OpEntry {
                    action: EEAction::Sltiu,
                    delay: INTEGER_SUM_LOGIC_DELAY,
                    pipes: PipeClass::Alu,
                    registers: RegisterUse::WriteTReadS,
                },
            ),
            Encoding::Primary(Opcode::SW) => Some(
                OpEntry {
                    action: EEAction::Sw,
                    delay: INTEGER_LOAD_STORE_DELAY,
                    pipes: PipeClass::Ls,
                    registers: RegisterUse::ReadTS,
                },
            ),
            Encoding::Primary(Opcode::SWC1) => Some(
                OpEntry {
                    action: EEAction::Swc1,
                    delay: FLOAT_MFC1_DELAY,
                    pipes: PipeClass::Cop1Move,
                    registers: RegisterUse::ReadS,
                },
            ),
            Encoding::Primary(_) => None,
        }
    }

    pub fn table_entry(self) -> (r: Option<OpEntry>)
        ensures
            r == self.entry(),
    {
        match self {
            Encoding::Special(Function::Add) => Some(
                OpEntry {
                    action: EEAction::Add,
                    delay: INTEGER_SUM_LOGIC_DELAY,
                    pipes: PipeClass::Alu,
                    registers: RegisterUse::WriteDReadTS,
                },
            ),
            Encoding::Special(Function::AddU) => Some(
                OpEntry {
                    action: EEAction::Addu,
                    delay: INTEGER_SUM_LOGIC_DELAY,
                    pipes: PipeClass::Alu,
                    registers: RegisterUse::WriteDReadTS,
                },
            ),
            Encoding::Special(Function::And) => Some(
                OpEntry {
                    action: EEAction::And,
                    delay: INTEGER_SUM_LOGIC_DELAY,
                    pipes: PipeClass::Alu,
                    registers: RegisterUse::WriteDReadTS,
                },
            ),
            Encoding::Special(Function::Break) => Some(
                OpEntry {
                    action: EEAction::BreakI,
                    delay: INTEGER_BRANCH_JUMP_DELAY,
                    pipes: PipeClass::Alu,
                    registers: RegisterUse::NoReq,
                },
            ),
            Encoding::Special(Function::DAddU) => Some(
                OpEntry {
                    action: EEAction::Daddu,
                    delay: INTEGER_SUM_LOGIC_DELAY,
                    pipes: PipeClass::Alu,
                    registers: RegisterUse::WriteDReadTS,
                },
            ),
            Encoding::Special(Function::Div) => Some(
                OpEntry {
                    action: EEAction::Div,
                    delay: INTEGER_DIV_DELAY,
                    pipes: PipeClass::Mac0,
                    registers: RegisterUse::MulDiv,
                },
            ),
            Encoding::Special(Function::DivU) => Some(
                OpEntry {
                    action: EEAction::Divu,
                    delay: INTEGER_DIV_DELAY,
                    pipes: PipeClass::Mac0,
                    registers: RegisterUse::MulDiv,
                },
            ),
            Encoding::Special(Function::JaLR) => Some(
                OpEntry {
                    action: EEAction::Jalr,
                    delay: INTEGER_BRANCH_JUMP_DELAY,
                    pipes: PipeClass::Branch,
                    registers: RegisterUse::JumpLinkReg,
                },
            ),
            Encoding::Special(Function::JR) => Some(
                OpEntry {
                    action: EEAction::Jr,
                    delay: INTEGER_BRANCH_JUMP_DELAY,
                    pipes: PipeClass::Branch,
                    registers: RegisterUse::JumpReg,
                },
            ),
            Encoding::Special(Function::MFHi) => Some(
                OpEntry {
                    action: EEAction::Mfhi,
                    delay: INTEGER_HI_LO_TRANSFER_DELAY,
                    pipes: PipeClass::Mac0,
                    registers: RegisterUse::WriteD,
                },
            ),
            Encoding::Special(Function::MFLo) => Some(
                OpEntry {
                    action: EEAction::Mflo,
                    delay: INTEGER_HI_LO_TRANSFER_DELAY,
                    pipes: PipeClass::Mac0,
                    registers: RegisterUse::WriteD,
                },
            ),
            Encoding::Special(Function::MovN) => Some(
                OpEntry {
                    action: EEAction::Movn,
                    delay: INTEGER_CONDITIONAL_MOVE_DELAY,
                    pipes: PipeClass::Alu,
                    registers: RegisterUse::WriteDReadTS,
                },
            ),
            Encoding::Special(Function::Mult) => Some(
                OpEntry {
                    action: EEAction::Mult,
                    delay: INTEGER_MULT_DELAY,
                    pipes: PipeClass::Mac0,
                    registers: RegisterUse::MulDiv,
                },
            ),
            Encoding::Special(Function::Or) => Some(
                OpEntry {
                    action: EEAction::Or,
                    delay: INTEGER_SUM_LOGIC_DELAY,
                    pipes: PipeClass::Alu,
                    registers: RegisterUse::WriteDReadTS,
                },
            ),
            Encoding::Special(Function::SLL) => Some(
                OpEntry {
                    action: EEAction::Sll,
                    delay: INTEGER_SHIFT_LUI_DELAY,
                    pipes: PipeClass::Alu,
                    registers: RegisterUse::WriteDReadT,
                },
            ),
            Encoding::Special(Function::SLT) => Some(
                OpEntry {
                    action: EEAction::Slt,
                    delay: INTEGER_SUM_LOGIC_DELAY,
                    pipes: PipeClass::Alu,
                    registers: RegisterUse::WriteDReadTS,
                },
            ),
            Encoding::Special(Function::SLTU) => Some(
                OpEntry {
                    action: EEAction::Sltu,
                    delay: INTEGER_SUM_LOGIC_DELAY,
                    pipes: PipeClass::Alu,
                    registers: RegisterUse::WriteDReadTS,
                },
            ),
            Encoding::Special(Function::SRA) => Some(
                OpEntry {
                    action: EEAction::Sra,
                    delay: INTEGER_SHIFT_LUI_DELAY,
                    pipes: PipeClass::Alu,
                    registers: RegisterUse::WriteDReadT,
                },
            ),
            Encoding::Special(Function::SRL) => Some(
                OpEntry {
                    action: EEAction::Srl,
                    delay: INTEGER_SHIFT_LUI_DELAY,
                    pipes: PipeClass::Alu,
                    registers: RegisterUse::WriteDReadT,
                },
            ),
            Encoding::Special(Function::SubU) => Some(
                OpEntry {
                    action: EEAction::Subu,
                    delay: INTEGER_SUM_LOGIC_DELAY,
                    pipes: PipeClass::Alu,
                    registers: RegisterUse::WriteDReadTS,
                },
            ),
            Encoding::Special(Function::Sync) => Some(
                OpEntry {
                    action: EEAction::Nop,
                    delay: INTEGER_SHIFT_LUI_DELAY,
                    pipes: PipeClass::Sync,
                    registers: RegisterUse::NoReq,
                },
            ),
            Encoding::Cache(CacheFunction::BFH) => Some(
                OpEntry {
                    action: EEAction::Nop,
                    delay: INTEGER_LOAD_STORE_DELAY,
                    pipes: PipeClass::Ls,
                    registers: RegisterUse::NoReq,
                },
            ),
            Encoding::Cache(CacheFunction::BHINBT) => Some(
                OpEntry {
                    action: EEAction::Nop,
                    delay: INTEGER_LOAD_STORE_DELAY,
                    pipes: PipeClass::Ls,
                    registers: RegisterUse::NoReq,
                },
            ),
            Encoding::Cache(CacheFunction::BXLBT) => Some(
                OpEntry {
                    action: EEAction::Nop,
                    delay: INTEGER_LOAD_STORE_DELAY,
                    pipes: PipeClass::Ls,
                    registers: RegisterUse::NoReq,
                },
            ),
            Encoding::Cache(CacheFunction::BXSBT) => Some(
                OpEntry {
                    action: EEAction::Nop,
                    delay: INTEGER_LOAD_STORE_DELAY,
                    pipes: PipeClass::Ls,
                    registers: RegisterUse::NoReq,
                },
            ),
            Encoding::Cache(CacheFunction::DHIN) => Some(
                OpEntry {
                    action: EEAction::Nop,
                    delay: INTEGER_LOAD_STORE_DELAY,
                    pipes: PipeClass::Ls,
                    registers: RegisterUse::NoReq,
                },
            ),
            Encoding::Cache(CacheFunction::DHWBIN) => Some(
                OpEntry {
                    action: EEAction::Nop,
                    delay: INTEGER_LOAD_STORE_DELAY,
                    pipes: PipeClass::Ls,
                    registers: RegisterUse::NoReq,
                },
            ),
            Encoding::Cache(CacheFunction::DHWOIN) => Some(
                OpEntry {
                    action: EEAction::Nop,
                    delay: INTEGER_LOAD_STORE_DELAY,
                    pipes: PipeClass::Ls,
                    registers: RegisterUse::NoReq,
                },
            ),
            Encoding::Cache(CacheFunction::DXIN) => Some(
                OpEntry {
                    action: EEAction::Nop,
                    delay: INTEGER_LOAD_STORE_DELAY,
                    pipes: PipeClass::Ls,
                    registers: RegisterUse::NoReq,
                },
            ),
            Encoding::Cache(CacheFunction::DXLDT) => Some(
                OpEntry {
                    action: EEAction::Nop,
                    delay: INTEGER_LOAD_STORE_DELAY,
                    pipes: PipeClass::Ls,
                    registers: RegisterUse::NoReq,
                },
            ),
            Encoding::Cache(CacheFunction::DXLTG) => Some(
                OpEntry {
                    action: EEAction::Nop,
                    delay: INTEGER_LOAD_STORE_DELAY,
                    pipes: PipeClass::Ls,
                    registers: RegisterUse::NoReq,
                },
            ),
            Encoding::Cache(CacheFunction::DXSDT) => Some(
                OpEntry {
                    action: EEAction::Nop,
                    delay: INTEGER_LOAD_STORE_DELAY,
                    pipes: PipeClass::Ls,
                    registers: RegisterUse::NoReq,
                },
            ),
            Encoding::Cache(CacheFunction::DXSTG) => Some(
                OpEntry {
                    action: EEAction::Nop,
                    delay: INTEGER_LOAD_STORE_DELAY,
                    pipes: PipeClass::Ls,
                    registers: RegisterUse::NoReq,
                },
            ),
            Encoding::Cache(CacheFunction::DXWBIN) => Some(
                OpEntry {
                    action: EEAction::Nop,
                    delay: INTEGER_LOAD_STORE_DELAY,
                    pipes: PipeClass::Ls,
                    registers: RegisterUse::NoReq,
                },
            ),
            Encoding::Cache(CacheFunction::IFL) => Some(
                OpEntry {
                    action: EEAction::Nop,
                    delay: INTEGER_LOAD_STORE_DELAY,
                    pipes: PipeClass::Ls,
                    registers: RegisterUse::NoReq,
                },
            ),
            Encoding::Cache(CacheFunction::IHIN) => Some(
                OpEntry {
                    action: EEAction::Nop,
                    delay: INTEGER_LOAD_STORE_DELAY,
                    pipes: PipeClass::Ls,
                    registers: RegisterUse::NoReq,
                },
            ),
            Encoding::Cache(CacheFunction::IXIN) => Some(
                OpEntry {
                    action: EEAction::Nop,
                    delay: INTEGER_LOAD_STORE_DELAY,
                    pipes: PipeClass::Ls,
                    registers: RegisterUse::NoReq,
                },
            ),
            Encoding::Cache(CacheFunction::IXLDT) => Some(
                OpEntry {
                    action: EEAction::Nop,
                    delay: INTEGER_LOAD_STORE_DELAY,
                    pipes: PipeClass::Ls,
                    registers: RegisterUse::NoReq,
                },
            ),
            Encoding::Cache(CacheFunction::IXLTG) => Some(
                OpEntry {
                    action: EEAction::Ixltg,
                    delay: INTEGER_LOAD_STORE_DELAY,
                    pipes: PipeClass::Ls,
                    registers: RegisterUse::NoReq,
                },
            ),
            Encoding::Cache(CacheFunction::IXSDT) => Some(
                OpEntry {
                    action: EEAction::Nop,
                    delay: INTEGER_LOAD_STORE_DELAY,
                    pipes: PipeClass::Ls,
                    registers: RegisterUse::NoReq,
                },
            ),
            Encoding::Cache(CacheFunction::IXSTG) => Some(
                OpEntry {
                    action: EEAction::Nop,
                    delay: INTEGER_LOAD_STORE_DELAY,
                    pipes: PipeClass::Ls,
                    registers: RegisterUse::NoReq,
                },
            ),
            Encoding::Cop0(Cop0Function::MFBPC) => Some(
                OpEntry {
                    action: EEAction::Mfc0,
                    delay: INTEGER_LOAD_STORE_DELAY,
                    pipes: PipeClass::Cop0,
                    registers: RegisterUse::WriteT,
                },
            ),
            Encoding::Cop0(Cop0Function::MFC0) => Some(
                OpEntry {
                    action: EEAction::Mfc0,
                    delay: INTEGER_LOAD_STORE_DELAY,
                    pipes: PipeClass::Cop0,
                    registers: RegisterUse::WriteTReadD,
                },
            ),
            Encoding::Cop0(Cop0Function::MTBPC) => Some(
                OpEntry {
                    action: EEAction::Mtc0,
                    delay: INTEGER_LOAD_STORE_DELAY,
                    pipes: PipeClass::Cop0,
                    registers: RegisterUse::ReadT,
                },
            ),
            Encoding::Cop0(Cop0Function::MTC0) => Some(
                OpEntry {
                    action: EEAction::Mtc0,
                    delay: INTEGER_LOAD_STORE_DELAY,
                    pipes: PipeClass::Cop0,
                    registers: RegisterUse::ReadTD,
                },
            ),
            Encoding::Cop0(Cop0Function::TlbWI) => Some(
                OpEntry {
                    action: EEAction::Tlbwi,
                    delay: INTEGER_LOAD_STORE_DELAY,
                    pipes: PipeClass::Cop0,
                    registers: RegisterUse::NoReq,
                },
            ),
            Encoding::Cop0(Cop0Function::TlbWR) => Some(
                OpEntry {
                    action: EEAction::Tlbwr,
                    delay: INTEGER_LOAD_STORE_DELAY,
                    pipes: PipeClass::Cop0,
                    registers: RegisterUse::NoReq,
                },
            ),
            Encoding::RegImm(RegImmFunction::BGEZ) => Some(
                OpEntry {
                    action: EEAction::Bgez,
                    delay: INTEGER_BRANCH_JUMP_DELAY,
                    pipes: PipeClass::Branch,
                    registers: RegisterUse::BranchReadS,
                },
            ),
            Encoding::RegImm(RegImmFunction::BLTZ) => Some(
                OpEntry {
                    action: EEAction::Bltz,
                    delay: INTEGER_BRANCH_JUMP_DELAY,
                    pipes: PipeClass::Branch,
                    registers: RegisterUse::BranchReadS,
                },
            ),
            Encoding::Primary(Opcode::AddI) => Some(
                OpEntry {
                    action: EEAction::Addi,
                    delay: INTEGER_SUM_LOGIC_DELAY,
                    pipes: PipeClass::Alu,
                    registers: RegisterUse::WriteTReadS,
                },
            ),
            Encoding::Primary(Opcode::AddIU) => Some(
                OpEntry {
                    action: EEAction::Addiu,
                    delay: INTEGER_SUM_LOGIC_DELAY,
                    pipes: PipeClass::Alu,
                    registers: RegisterUse::WriteTReadS,
                },
            ),
            Encoding::Primary(Opcode::AndI) => Some(
                OpEntry {
                    action: EEAction::Andi,
                    delay: INTEGER_SUM_LOGIC_DELAY,
                    pipes: PipeClass::Alu,
                    registers: RegisterUse::WriteTReadS,
                },
            ),
            Encoding::Primary(Opcode::BEq) => Some(
                OpEntry {
                    action: EEAction::Beq,
                    delay: INTEGER_BRANCH_JUMP_DELAY,
                    pipes: PipeClass::Branch,
                    registers: RegisterUse::BranchCompare,
                },
            ),
            Encoding::Primary(Opcode::BEqL) => Some(
                OpEntry {
                    action: EEAction::Beql,
                    delay: INTEGER_BRANCH_JUMP_DELAY,
                    pipes: PipeClass::Branch,
                    registers: RegisterUse::BranchCompare,
                },
            ),
            Encoding::Primary(Opcode::BGTZ) => Some(
                OpEntry {
                    action: EEAction::Bgtz,
                    delay: INTEGER_BRANCH_JUMP_DELAY,
                    pipes: PipeClass::Branch,
                    registers: RegisterUse::BranchCompare,
                },
            ),
            Encoding::Primary(Opcode::BLEZ) => Some(
                OpEntry {
                    action: EEAction::Blez,
                    delay: INTEGER_BRANCH_JUMP_DELAY,
                    pipes: PipeClass::Branch,
                    registers: RegisterUse::BranchCompare,
                },
            ),
            Encoding::Primary(Opcode::BNE) => Some(
                OpEntry {
                    action: EEAction::Bne,
                    delay: INTEGER_BRANCH_JUMP_DELAY,
                    pipes: PipeClass::Branch,
                    registers: RegisterUse::BranchCompare,
                },
            ),
            Encoding::Primary(Opcode::BNEL) => Some(
                OpEntry {
                    action: EEAction::Bnel,
                    delay: INTEGER_BRANCH_JUMP_DELAY,
                    pipes: PipeClass::Branch,
                    registers: RegisterUse::BranchCompare,
                },
            ),
            Encoding::Primary(Opcode::J) => Some(
                OpEntry {
                    action: EEAction::J,
                    delay: INTEGER_BRANCH_JUMP_DELAY,
                    pipes: PipeClass::Branch,
                    registers: RegisterUse::Jump,
                },
            ),
            Encoding::Primary(Opcode::JaL) => Some(
                OpEntry {
                    action: EEAction::Jal,
                    delay: INTEGER_BRANCH_JUMP_DELAY,
                    pipes: PipeClass::Branch,
                    registers: RegisterUse::JumpLink,
                },
            ),
            Encoding::Primary(Opcode::LB) => Some(
                OpEntry {
                    action: EEAction::Lb,
                    delay: INTEGER_LOAD_STORE_DELAY,
                    pipes: PipeClass::Ls,
                    registers: RegisterUse::WriteTReadS,
                },
            ),
            Encoding::Primary(Opcode::LBU) => Some(
                OpEntry {
                    action: EEAction::Lbu,
                    delay: INTEGER_LOAD_STORE_DELAY,
                    pipes: PipeClass::Ls,
                    registers: RegisterUse::WriteTReadS,
                },
            ),
            Encoding::Primary(Opcode::LD) => Some(
                OpEntry {
                    action: EEAction::Ld,
                    delay: INTEGER_LOAD_STORE_DELAY,
                    pipes: PipeClass::Ls,
                    registers: RegisterUse::WriteTReadS,
                },
            ),
            Encoding::Primary(Opcode::LHU) => Some(
                OpEntry {
                    action: EEAction::Lhu,
                    delay: INTEGER_LOAD_STORE_DELAY,
                    pipes: PipeClass::Ls,
                    registers: RegisterUse::WriteTReadS,
                },
            ),
            Encoding::Primary(Opcode::LUI) => Some(
                OpEntry {
                    action: EEAction::Lui,
                    delay: INTEGER_SHIFT_LUI_DELAY,
                    pipes: PipeClass::Ls,
                    registers: RegisterUse::WriteT,
                },
            ),
            Encoding::Primary(Opcode::LW) => Some(
                OpEntry {
                    action: EEAction::Lw,
                    delay: INTEGER_LOAD_STORE_DELAY,
                    pipes: PipeClass::Ls,
                    registers: RegisterUse::WriteTReadS,
                },
            ),
            Encoding::Primary(Opcode::OrI) => Some(
                OpEntry {
                    action: EEAction::Ori,
                    delay: INTEGER_SUM_LOGIC_DELAY,
                    pipes: PipeClass::Alu,
                    registers: RegisterUse::WriteTReadS,
                },
            ),
            Encoding::Primary(Opcode::SB) => Some(
                OpEntry {
                    action: EEAction::Sb,
                    delay: INTEGER_LOAD_STORE_DELAY,
                    pipes: PipeClass::Ls,
                    registers: RegisterUse::ReadTS,
                },
            ),
            Encoding::Primary(Opcode::SD) => Some(
                OpEntry {
                    action: EEAction::Sd,
                    delay: INTEGER_LOAD_STORE_DELAY,
                    pipes: PipeClass::Ls,
                    registers: RegisterUse::ReadTS,
                },
            ),
            Encoding::Primary(Opcode::SLTI) => Some(
                OpEntry {
                    action: EEAction::Slti,
                    delay: INTEGER_SUM_LOGIC_DELAY,
                    pipes: PipeClass::Alu,
                    registers: RegisterUse::WriteTReadS,
                },
            ),
            Encoding::Primary(Opcode::SLTIU) => Some(
                OpEntry {
                    action: EEAction::Sltiu,
                    delay: INTEGER_SUM_LOGIC_DELAY,
                    pipes: PipeClass::Alu,
                    registers: RegisterUse::WriteTReadS,
                },
            ),
            Encoding::Primary(Opcode::SW) => Some(
                OpEntry {
                    action: EEAction::Sw,
                    delay: INTEGER_LOAD_STORE_DELAY,
                    pipes: PipeClass::Ls,
                    registers: RegisterUse::ReadTS,
                },
            ),
            Encoding::Primary(Opcode::SWC1) => Some(
                OpEntry {
                    action: EEAction::Swc1,
                    delay: FLOAT_MFC1_DELAY,
                    pipes: PipeClass::Cop1Move,
                    registers: RegisterUse::ReadS,
                },
            ),
            Encoding::Primary(_) => None,
        }
    }

    /// The mnemonic of each line of the decoder table, for traces.
    pub open spec fn spec_mnemonic(self) -> Option<Seq<char>> {
        match self {
            Encoding::Special(Function::Add) => Some("ADD"@),
            Encoding::Special(Function::AddU) => Some("ADDU"@),
            Encoding::Special(Function::And) => Some("AND"@),
            Encoding::Special(Function::Break) => Some("BREAK"@),
            Encoding::Special(Function::DAddU) => Some("DADDU"@),
            Encoding::Special(Function::Div) => Some("DIV"@),
            Encoding::Special(Function::DivU) => Some("DIVU"@),
            Encoding::Special(Function::JaLR) => Some("JALR"@),
            Encoding::Special(Function::JR) => Some("JR"@),
            Encoding::Special(Function::MFHi) => Some("MFHI"@),
            Encoding::Special(Function::MFLo) => Some("MFLO"@),
            Encoding::Special(Function::MovN) => Some("MOVN"@),
            Encoding::Special(Function::Mult) => Some("MULT"@),
            Encoding::Special(Function::Or) => Some("OR"@),
            Encoding::Special(Function::SLL) => Some("SLL"@),
            Encoding::Special(Function::SLT) => Some("SLT"@),
            Encoding::Special(Function::SLTU) => Some("SLTU"@),
            Encoding::Special(Function::SRA) => Some("SRA"@),
            Encoding::Special(Function::SRL) => Some("SRL"@),
            Encoding::Special(Function::SubU) => Some("SUBU"@),
            Encoding::Special(Function::Sync) => Some("SYNC"@),
            Encoding::Cache(CacheFunction::BFH) => Some("BFH"@),
            Encoding::Cache(CacheFunction::BHINBT) => Some("BHINBT"@),
            Encoding::Cache(CacheFunction::BXLBT) => Some("BXLBT"@),
            Encoding::Cache(CacheFunction::BXSBT) => Some("BXSBT"@),
            Encoding::Cache(CacheFunction::DHIN) => Some("DHIN"@),
            Encoding::Cache(CacheFunction::DHWBIN) => Some("DHWBIN"@),
            Encoding::Cache(CacheFunction::DHWOIN) => Some("DHWOIN"@),
            Encoding::Cache(CacheFunction::DXIN) => Some("DXIN"@),
            Encoding::Cache(CacheFunction::DXLDT) => Some("DXLDT"@),
            Encoding::Cache(CacheFunction::DXLTG) => Some("DXLTG"@),
            Encoding::Cache(CacheFunction::DXSDT) => Some("DXSDT"@),
            Encoding::Cache(CacheFunction::DXSTG) => Some("DXSTG"@),
            Encoding::Cache(CacheFunction::DXWBIN) => Some("DXWBIN"@),
            Encoding::Cache(CacheFunction::IFL) => Some("IFL"@),
            Encoding::Cache(CacheFunction::IHIN) => Some("IHIN"@),
            Encoding::Cache(CacheFunction::IXIN) => Some("IXIN"@),
            Encoding::Cache(CacheFunction::IXLDT) => Some("IXLDT"@),
            Encoding::Cache(CacheFunction::IXLTG) => Some("IXLTG"@),
            Encoding::Cache(CacheFunction::IXSDT) => Some("IXSDT"@),
            Encoding::Cache(CacheFunction::IXSTG) => Some("IXSTG"@),
            Encoding::Cop0(Cop0Function::MFBPC) => Some("MFBPC"@),
            Encoding::Cop0(Cop0Function::MFC0) => Some("MFC0"@),
            Encoding::Cop0(Cop0Function::MTBPC) => Some("MTBPC"@),
            Encoding::Cop0(Cop0Function::MTC0) => Some("MTC0"@),
            Encoding::Cop0(Cop0Function::TlbWI) => Some("TLBWI"@),
            Encoding::Cop0(Cop0Function::TlbWR) => Some("TLBWR"@),
            Encoding::RegImm(RegImmFunction::BGEZ) => Some("BGEZ"@),
            Encoding::RegImm(RegImmFunction::BLTZ) => Some("BLTZ"@),
            Encoding::Primary(Opcode::AddI) => Some("ADDI"@),
            Encoding::Primary(Opcode::AddIU) => Some("ADDIU"@),
            Encoding::Primary(Opcode::AndI) => Some("ANDI"@),
            Encoding::Primary(Opcode::BEq) => Some("BEQ"@),
            Encoding::Primary(Opcode::BEqL) => Some("BEQL"@),
            Encoding::Primary(Opcode::BGTZ) => Some("BGTZ"@),
            Encoding::Primary(Opcode::BLEZ) => Some("BLEZ"@),
            Encoding::Primary(Opcode::BNE) => Some("BNE"@),
            Encoding::Primary(Opcode::BNEL) => Some("BNEL"@),
            Encoding::Primary(Opcode::J) => Some("J"@),
            Encoding::Primary(Opcode::JaL) => Some("JAL"@),
            Encoding::Primary(Opcode::LB) => Some("LB"@),
            Encoding::Primary(Opcode::LBU) => Some("LBU"@),
            Encoding::Primary(Opcode::LD) => Some("LD"@),
            Encoding::Primary(Opcode::LHU) => Some("LHU"@),
            Encoding::Primary(Opcode::LUI) => Some("LUI"@),
            Encoding::Primary(Opcode::LW) => Some("LW"@),
            Encoding::Primary(Opcode::OrI) => Some("ORI"@),
            Encoding::Primary(Opcode::SB) => Some("SB"@),
            Encoding::Primary(Opcode::SD) => Some("SD"@),
            Encoding::Primary(Opcode::SLTI) => Some("SLTI"@),
            Encoding::Primary(Opcode::SLTIU) => Some("SLTIU"@),
            Encoding::Primary(Opcode::SW) => Some("SW"@),
            Encoding::Primary(Opcode::SWC1) => Some("SWC1"@),
            Encoding::Primary(_) => None,
        }
    }

    pub fn mnemonic(self) -> (r: Option<&'static str>)
        ensures
            match self.spec_mnemonic() {
                Some(name) => r is Some && r.unwrap()@ == name,
                None => r is None,
            },
    {
        match self {
            Encoding::Special(Function::Add) => Some("ADD"),
            Encoding::Special(Function::AddU) => Some("ADDU"),
            Encoding::Special(Function::And) => Some("AND"),
            Encoding::Special(Function::Break) => Some("BREAK"),
            Encoding::Special(Function::DAddU) => Some("DADDU"),
            Encoding::Special(Function::Div) => Some("DIV"),
            Encoding::Special(Function::DivU) => Some("DIVU"),
            Encoding::Special(Function::JaLR) => Some("JALR"),
            Encoding::Special(Function::JR) => Some("JR"),
            Encoding::Special(Function::MFHi) => Some("MFHI"),
            Encoding::Special(Function::MFLo) => Some("MFLO"),
            Encoding::Special(Function::MovN) => Some("MOVN"),
            Encoding::Special(Function::Mult) => Some("MULT"),
            Encoding::Special(Function::Or) => Some("OR"),
            Encoding::Special(Function::SLL) => Some("SLL"),
            Encoding::Special(Function::SLT) => Some("SLT"),
            Encoding::Special(Function::SLTU) => Some("SLTU"),
            Encoding::Special(Function::SRA) => Some("SRA"),
            Encoding::Special(Function::SRL) => Some("SRL"),
            Encoding::Special(Function::SubU) => Some("SUBU"),
            Encoding::Special(Function::Sync) => Some("SYNC"),
            Encoding::Cache(CacheFunction::BFH) => Some("BFH"),
            Encoding::Cache(CacheFunction::BHINBT) => Some("BHINBT"),
            Encoding::Cache(CacheFunction::BXLBT) => Some("BXLBT"),
            Encoding::Cache(CacheFunction::BXSBT) => Some("BXSBT"),
            Encoding::Cache(CacheFunction::DHIN) => Some("DHIN"),
            Encoding::Cache(CacheFunction::DHWBIN) => Some("DHWBIN"),
            Encoding::Cache(CacheFunction::DHWOIN) => Some("DHWOIN"),
            Encoding::Cache(CacheFunction::DXIN) => Some("DXIN"),
            Encoding::Cache(CacheFunction::DXLDT) => Some("DXLDT"),
            Encoding::Cache(CacheFunction::DXLTG) => Some("DXLTG"),
            Encoding::Cache(CacheFunction::DXSDT) => Some("DXSDT"),
            Encoding::Cache(CacheFunction::DXSTG) => Some("DXSTG"),
            Encoding::Cache(CacheFunction::DXWBIN) => Some("DXWBIN"),
            Encoding::Cache(CacheFunction::IFL) => Some("IFL"),
            Encoding::Cache(CacheFunction::IHIN) => Some("IHIN"),
            Encoding::Cache(CacheFunction::IXIN) => Some("IXIN"),
            Encoding::Cache(CacheFunction::IXLDT) => Some("IXLDT"),
            Encoding::Cache(CacheFunction::IXLTG) => Some("IXLTG"),
            Encoding::Cache(CacheFunction::IXSDT) => Some("IXSDT"),
            Encoding::Cache(CacheFunction::IXSTG) => Some("IXSTG"),
            Encoding::Cop0(Cop0Function::MFBPC) => Some("MFBPC"),
            Encoding::Cop0(Cop0Function::MFC0) => Some("MFC0"),
            Encoding::Cop0(Cop0Function::MTBPC) => Some("MTBPC"),
            Encoding::Cop0(Cop0Function::MTC0) => Some("MTC0"),
            Encoding::Cop0(Cop0Function::TlbWI) => Some("TLBWI"),
            Encoding::Cop0(Cop0Function::TlbWR) => Some("TLBWR"),
            Encoding::RegImm(RegImmFunction::BGEZ) => Some("BGEZ"),
            Encoding::RegImm(RegImmFunction::BLTZ) => Some("BLTZ"),
            Encoding::Primary(Opcode::AddI) => Some("ADDI"),
            Encoding::Primary(Opcode::AddIU) => Some("ADDIU"),
            Encoding::Primary(Opcode::AndI) => Some("ANDI"),
            Encoding::Primary(Opcode::BEq) => Some("BEQ"),
            Encoding::Primary(Opcode::BEqL) => Some("BEQL"),
            Encoding::Primary(Opcode::BGTZ) => Some("BGTZ"),
            Encoding::Primary(Opcode::BLEZ) => Some("BLEZ"),
            Encoding::Primary(Opcode::BNE) => Some("BNE"),
            Encoding::Primary(Opcode::BNEL) => Some("BNEL"),
            Encoding::Primary(Opcode::J) => Some("J"),
            Encoding::Primary(Opcode::JaL) => Some("JAL"),
            Encoding::Primary(Opcode::LB) => Some("LB"),
            Encoding::Primary(Opcode::LBU) => Some("LBU"),
            Encoding::Primary(Opcode::LD) => Some("LD"),
            Encoding::Primary(Opcode::LHU) => Some("LHU"),
            Encoding::Primary(Opcode::LUI) => Some("LUI"),
            Encoding::Primary(Opcode::LW) => Some("LW"),
            Encoding::Primary(Opcode::OrI) => Some("ORI"),
            Encoding::Primary(Opcode::SB) => Some("SB"),
            Encoding::Primary(Opcode::SD) => Some("SD"),
            Encoding::Primary(Opcode::SLTI) => Some("SLTI"),
            Encoding::Primary(Opcode::SLTIU) => Some("SLTIU"),
            Encoding::Primary(Opcode::SW) => Some("SW"),
            Encoding::Primary(Opcode::SWC1) => Some("SWC1"),
            Encoding::Primary(_) => None,
        }
    }
}

/// The decoded form of a word that encodes `encoding`: the action, the
/// delay and the needs of its line in the table; and where it has no line,
/// an instruction that does nothing and needs nothing.
pub open spec fn decoded_as(instruction: u32, encoding: Encoding) -> OpCode {
    match encoding.entry() {
        Some(line) => OpCode {
            raw: instruction,
            action: line.action,
            delay: line.delay,
            requirements: line.pipes.pipes().spec_fuse_registers(
                line.registers.registers(instruction),
            ),
        },
        None => OpCode { raw: instruction, ..OpCode::spec_default() },
    }
}

/// The decoded form of `instruction`. The zero word is the explicit no-op,
/// which goes to either integer pipe. A word whose encoding is known is
/// decoded as the table says. Any other word does nothing and needs
/// nothing.
pub open spec fn spec_process_instruction(instruction: u32) -> OpCode {
    if instruction == 0 {
        OpCode {
            requirements: PipeClass::Alu.pipes().spec_fuse_registers(
                Capability { write: 0, read: 0 },
            ),
            ..OpCode::spec_default()
        }
    } else {
        match Encoding::spec_of_word(instruction) {
            Some(encoding) => decoded_as(instruction, encoding),
            None => OpCode { raw: instruction, ..OpCode::spec_default() },
        }
    }
}

/// Convert a 32-bit instruction into an `OpCode`, for later execution.
pub fn process_instruction(instruction: u32) -> (r: OpCode)
    ensures
        r == spec_process_instruction(instruction),
{
    let mut out = OpCode::default();
    out.raw = instruction;

    if instruction == 0 {
        out.requirements = PipeClass::Alu.requirement().fuse_registers(Capability::default());
        return out;
    }
    match Encoding::of_word(instruction) {
        Some(encoding) => match encoding.table_entry() {
            Some(line) => {
                let regs = line.registers.build(instruction);
                out.action = line.action;
                out.delay = line.delay;
                out.requirements = line.pipes.requirement().fuse_registers(regs);
            },
            None => {},
        },
        None => {},
    }
    out
}

/// NOP, and every instruction that is accepted without effect: nothing
/// changes.
pub open spec fn spec_nop(s: EEState, word: u32) -> EEState {
    s
}

pub fn nop(_cpu: &mut EECore, _data: &OpCode)
    ensures
        final(_cpu)@ == spec_nop(old(_cpu)@, _data.raw),
{
}

/// What the action `action` of an instruction with the word `word` makes of
/// the processor.
pub open spec fn effect(s: EEState, action: EEAction, word: u32) -> EEState {
    match action {
        EEAction::Nop => spec_nop(s, word),
        EEAction::Add => crate::cpu::ops::arithmetic::spec_add(s, word),
        EEAction::Addi => crate::cpu::ops::arithmetic::spec_addi(s, word),
        EEAction::Addiu => crate::cpu::ops::arithmetic::spec_addiu(s, word),
        EEAction::Addu => crate::cpu::ops::arithmetic::spec_addu(s, word),
        EEAction::And => crate::cpu::ops::arithmetic::spec_and(s, word),
        EEAction::Andi => crate::cpu::ops::arithmetic::spec_andi(s, word),
        EEAction::Daddu => crate::cpu::ops::arithmetic::spec_daddu(s, word),
        EEAction::Div => crate::cpu::ops::arithmetic::spec_div(s, word),
        EEAction::Divu => crate::cpu::ops::arithmetic::spec_divu(s, word),
        EEAction::Movn => crate::cpu::ops::arithmetic::spec_movn(s, word),
        EEAction::Mult => crate::cpu::ops::arithmetic::spec_mult(s, word),
        EEAction::Or => crate::cpu::ops::arithmetic::spec_or(s, word),
        EEAction::Ori => crate::cpu::ops::arithmetic::spec_ori(s, word),
        EEAction::Sll => crate::cpu::ops::arithmetic::spec_sll(s, word),
        EEAction::Slt => crate::cpu::ops::arithmetic::spec_slt(s, word),
        EEAction::Slti => crate::cpu::ops::arithmetic::spec_slti(s, word),
        EEAction::Sltiu => crate::cpu::ops::arithmetic::spec_sltiu(s, word),
        EEAction::Sltu => crate::cpu::ops::arithmetic::spec_sltu(s, word),
        EEAction::Sra => crate::cpu::ops::arithmetic::spec_sra(s, word),
        EEAction::Srl => crate::cpu::ops::arithmetic::spec_srl(s, word),
        EEAction::Subu => crate::cpu::ops::arithmetic::spec_subu(s, word),
        EEAction::Beq => crate::cpu::ops::branch::spec_beq(s, word),
        EEAction::Beql => crate::cpu::ops::branch::spec_beql(s, word),
        EEAction::Bgez => crate::cpu::ops::branch::spec_bgez(s, word),
        EEAction::Bgtz => crate::cpu::ops::branch::spec_bgtz(s, word),
        EEAction::Blez => crate::cpu::ops::branch::spec_blez(s, word),
        EEAction::Bltz => crate::cpu::ops::branch::spec_bltz(s, word),
        EEAction::Bne => crate::cpu::ops::branch::spec_bne(s, word),
        EEAction::Bnel => crate::cpu::ops::branch::spec_bnel(s, word),
        EEAction::BreakI => crate::cpu::ops::branch::spec_break_i(s, word),
        EEAction::J => crate::cpu::ops::branch::spec_j(s, word),
        EEAction::Jal => crate::cpu::ops::branch::spec_jal(s, word),
        EEAction::Jalr => crate::cpu::ops::branch::spec_jalr(s, word),
        EEAction::Jr => crate::cpu::ops::branch::spec_jr(s, word),
        EEAction::Mfc0 => crate::cpu::ops::cop0::spec_mfc0(s, word),
        EEAction::Mtc0 => crate::cpu::ops::cop0::spec_mtc0(s, word),
        EEAction::Tlbwi => crate::cpu::ops::cop0::spec_tlbwi(s, word),
        EEAction::Tlbwr => crate::cpu::ops::cop0::spec_tlbwr(s, word),
        EEAction::Ixltg => crate::cpu::ops::cop0::cache::spec_ixltg(s, word),
        EEAction::Swc1 => crate::cpu::ops::cop1::spec_swc1(s, word),
        EEAction::Lb => crate::cpu::ops::load::spec_lb(s, word),
        EEAction::Lbu => crate::cpu::ops::load::spec_lbu(s, word),
        EEAction::Ld => crate::cpu::ops::load::spec_ld(s, word),
        EEAction::Lhu => crate::cpu::ops::load::spec_lhu(s, word),
        EEAction::Lui => crate::cpu::ops::load::spec_lui(s, word),
        EEAction::Lw => crate::cpu::ops::load::spec_lw(s, word),
        EEAction::Mfhi => crate::cpu::ops::load::spec_mfhi(s, word),
        EEAction::Mflo => crate::cpu::ops::load::spec_mflo(s, word),
        EEAction::Sb => crate::cpu::ops::store::spec_sb(s, word),
        EEAction::Sd => crate::cpu::ops::store::spec_sd(s, word),
        EEAction::Sw => crate::cpu::ops::store::spec_sw(s, word),
    }
}

/// Runs the action of `op` on the processor.
pub fn perform(cpu: &mut EECore, op: &OpCode)
    ensures
        final(cpu)@ == effect(old(cpu)@, op.action, op.raw),
{
    match op.action {
        EEAction::Nop => nop(cpu, op),
        EEAction::Add => crate::cpu::ops::arithmetic::add(cpu, op),
        EEAction::Addi => crate::cpu::ops::arithmetic::addi(cpu, op),
        EEAction::Addiu => crate::cpu::ops::arithmetic::addiu(cpu, op),
        EEAction::Addu => crate::cpu::ops::arithmetic::addu(cpu, op),
        EEAction::And => crate::cpu::ops::arithmetic::and(cpu, op),
        EEAction::Andi => crate::cpu::ops::arithmetic::andi(cpu, op),
        EEAction::Daddu => crate::cpu::ops::arithmetic::daddu(cpu, op),
        EEAction::Div => crate::cpu::ops::arithmetic::div(cpu, op),
        EEAction::Divu => crate::cpu::ops::arithmetic::divu(cpu, op),
        EEAction::Movn => crate::cpu::ops::arithmetic::movn(cpu, op),
        EEAction::Mult => crate::cpu::ops::arithmetic::mult(cpu, op),
        EEAction::Or => crate::cpu::ops::arithmetic::or(cpu, op),
        EEAction::Ori => crate::cpu::ops::arithmetic::ori(cpu, op),
        EEAction::Sll => crate::cpu::ops::arithmetic::sll(cpu, op),
        EEAction::Slt => crate::cpu::ops::arithmetic::slt(cpu, op),
        EEAction::Slti => crate::cpu::ops::arithmetic::slti(cpu, op),
        EEAction::Sltiu => crate::cpu::ops::arithmetic::sltiu(cpu, op),
        EEAction::Sltu => crate::cpu::ops::arithmetic::sltu(cpu, op),
        EEAction::Sra => crate::cpu::ops::arithmetic::sra(cpu, op),
        EEAction::Srl => crate::cpu::ops::arithmetic::srl(cpu, op),
        EEAction::Subu => crate::cpu::ops::arithmetic::subu(cpu, op),
        EEAction::Beq => crate::cpu::ops::branch::beq(cpu, op),
        EEAction::Beql => crate::cpu::ops::branch::beql(cpu, op),
        EEAction::Bgez => crate::cpu::ops::branch::bgez(cpu, op),
        EEAction::Bgtz => crate::cpu::ops::branch::bgtz(cpu, op),
        EEAction::Blez => crate::cpu::ops::branch::blez(cpu, op),
        EEAction::Bltz => crate::cpu::ops::branch::bltz(cpu, op),
        EEAction::Bne => crate::cpu::ops::branch::bne(cpu, op),
        EEAction::Bnel => crate::cpu::ops::branch::bnel(cpu, op),
        EEAction::BreakI => crate::cpu::ops::branch::break_i(cpu, op),
        EEAction::J => crate::cpu::ops::branch::j(cpu, op),
        EEAction::Jal => crate::cpu::ops::branch::jal(cpu, op),
        EEAction::Jalr => crate::cpu::ops::branch::jalr(cpu, op),
        EEAction::Jr => crate::cpu::ops::branch::jr(cpu, op),
        EEAction::Mfc0 => crate::cpu::ops::cop0::mfc0(cpu, op),
        EEAction::Mtc0 => crate::cpu::ops::cop0::mtc0(cpu, op),
        EEAction::Tlbwi => crate::cpu::ops::cop0::tlbwi(cpu, op),
        EEAction::Tlbwr => crate::cpu::ops::cop0::tlbwr(cpu, op),
        EEAction::Ixltg => crate::cpu::ops::cop0::cache::ixltg(cpu, op),
        EEAction::Swc1 => crate::cpu::ops::cop1::swc1(cpu, op),
        EEAction::Lb => crate::cpu::ops::load::lb(cpu, op),
        EEAction::Lbu => crate::cpu::ops::load::lbu(cpu, op),
        EEAction::Ld => crate::cpu::ops::load::ld(cpu, op),
        EEAction::Lhu => crate::cpu::ops::load::lhu(cpu, op),
        EEAction::Lui => crate::cpu::ops::load::lui(cpu, op),
        EEAction::Lw => crate::cpu::ops::load::lw(cpu, op),
        EEAction::Mfhi => crate::cpu::ops::load::mfhi(cpu, op),
        EEAction::Mflo => crate::cpu::ops::load::mflo(cpu, op),
        EEAction::Sb => crate::cpu::ops::store::sb(cpu, op),
        EEAction::Sd => crate::cpu::ops::store::sd(cpu, op),
        EEAction::Sw => crate::cpu::ops::store::sw(cpu, op),
    }
}

/// What the second stage `data` of a branch makes of the processor, and
/// what it tells the instruction in the delay slot.
pub open spec fn branch_effect(s: EEState, data: BranchOpCode) -> (EEState, BranchResult) {
    match data.action {
        BranchAction::InnerBne => branch::spec_inner_bne(s, data),
        BranchAction::InnerBnel => branch::spec_inner_bnel(s, data),
        BranchAction::InnerJ => branch::spec_inner_j(s, data),
        BranchAction::InnerJr => branch::spec_inner_jr(s, data),
    }
}

/// Runs the second stage of a branch on the processor.
pub fn perform_branch(cpu: &mut EECore, data: &BranchOpCode) -> (r: BranchResult)
    ensures
        (final(cpu)@, r) == branch_effect(old(cpu)@, *data),
{
    match data.action {
        BranchAction::InnerBne => branch::inner_bne(cpu, data),
        BranchAction::InnerBnel => branch::inner_bnel(cpu, data),
        BranchAction::InnerJ => branch::inner_j(cpu, data),
        BranchAction::InnerJr => branch::inner_jr(cpu, data),
    }
}

} // verus!
