//! Branches and jumps. Each has two stages: the first decides and queues
//! the second, which writes the program counter once the instruction in the
//! delay slot is about to run.

use crate::cpu::EECore;
use crate::cpu::constants::OPCODE_LENGTH_BYTES;
use crate::cpu::exceptions::L1Exception;
use crate::cpu::pipeline::{BranchAction, BranchOpCode, BranchResult, OpCode};
use crate::cpu::state::EEState;
use crate::isa::mips::instruction::{destination_of, Instruction, jump_of, source_of, target_of};
use crate::utils::{spec_v_addr_with_offset_branch, v_addr_with_offset_branch};
use vstd::prelude::*;

verus! {

/// The bits of the program counter that a jump keeps.
pub const PC_HO_BITS: u32 = 0xF000_0000;

/// The bits that are clear in the address of an instruction.
pub const PC_ALIGNED_BITS: u32 = 0b11;

/// The number that tells the second stage whether the branch is taken.
pub open spec fn flag(cond: bool) -> u32 {
    if cond {
        1
    } else {
        0
    }
}

fn flag_of(cond: bool) -> (r: u32)
    ensures
        r == flag(cond),
{
    if cond {
        1
    } else {
        0
    }
}

/// The address that follows the delay slot of a jump at the current
/// program counter.
pub open spec fn link_address(s: EEState) -> u64 {
    vstd::wrapping::u32_specs::wrapping_add(s.pc_register, (OPCODE_LENGTH_BYTES * 2) as u32) as u64
}

/// BEQ: branch if rs equals rt.
pub open spec fn spec_beq(s: EEState, word: u32) -> EEState {
    s.branch(
        word,
        BranchAction::InnerBne,
        flag(s.read_register(source_of(word)) == s.read_register(target_of(word))),
    )
}

pub fn beq(cpu: &mut EECore, data: &OpCode)
    ensures
        final(cpu)@ == spec_beq(old(cpu)@, data.raw),
{
    let cond = cpu.read_register(data.ri_get_source()) == cpu.read_register(data.ri_get_target());
    cpu.branch(data, BranchAction::InnerBne, flag_of(cond));
}

/// BEQL: branch if rs equals rt, and skip the delay slot if not.
pub open spec fn spec_beql(s: EEState, word: u32) -> EEState {
    s.branch(
        word,
        BranchAction::InnerBnel,
        flag(s.read_register(source_of(word)) == s.read_register(target_of(word))),
    )
}

pub fn beql(cpu: &mut EECore, data: &OpCode)
    ensures
        final(cpu)@ == spec_beql(old(cpu)@, data.raw),
{
    let cond = cpu.read_register(data.ri_get_source()) == cpu.read_register(data.ri_get_target());
    cpu.branch(data, BranchAction::InnerBnel, flag_of(cond));
}

/// BGEZ: branch if rs, as a signed number, is zero or more.
pub open spec fn spec_bgez(s: EEState, word: u32) -> EEState {
    s.branch(word, BranchAction::InnerBne, flag((s.read_register(source_of(word)) as i64) >= 0))
}

pub fn bgez(cpu: &mut EECore, data: &OpCode)
    ensures
        final(cpu)@ == spec_bgez(old(cpu)@, data.raw),
{
    let cond = (cpu.read_register(data.ri_get_source()) as i64) >= 0;
    cpu.branch(data, BranchAction::InnerBne, flag_of(cond));
}

/// BGTZ: branch if rs, as a signed number, is more than zero.
pub open spec fn spec_bgtz(s: EEState, word: u32) -> EEState {
    s.branch(word, BranchAction::InnerBne, flag((s.read_register(source_of(word)) as i64) > 0))
}

pub fn bgtz(cpu: &mut EECore, data: &OpCode)
    ensures
        final(cpu)@ == spec_bgtz(old(cpu)@, data.raw),
{
    let cond = (cpu.read_register(data.ri_get_source()) as i64) > 0;
    cpu.branch(data, BranchAction::InnerBne, flag_of(cond));
}

/// BLEZ: branch if rs, as a signed number, is zero or less.
pub open spec fn spec_blez(s: EEState, word: u32) -> EEState {
    s.branch(word, BranchAction::InnerBne, flag((s.read_register(source_of(word)) as i64) <= 0))
}

pub fn blez(cpu: &mut EECore, data: &OpCode)
    ensures
        final(cpu)@ == spec_blez(old(cpu)@, data.raw),
{
    let cond = (cpu.read_register(data.ri_get_source()) as i64) <= 0;
    cpu.branch(data, BranchAction::InnerBne, flag_of(cond));
}

/// BLTZ: branch if rs, as a signed number, is less than zero.
pub open spec fn spec_bltz(s: EEState, word: u32) -> EEState {
    s.branch(word, BranchAction::InnerBne, flag((s.read_register(source_of(word)) as i64) < 0))
}

pub fn bltz(cpu: &mut EECore, data: &OpCode)
    ensures
        final(cpu)@ == spec_bltz(old(cpu)@, data.raw),
{
    let cond = (cpu.read_register(data.ri_get_source()) as i64) < 0;
    cpu.branch(data, BranchAction::InnerBne, flag_of(cond));
}

/// BNE: branch if rs differs from rt.
pub open spec fn spec_bne(s: EEState, word: u32) -> EEState {
    s.branch(
        word,
        BranchAction::InnerBne,
        flag(s.read_register(source_of(word)) != s.read_register(target_of(word))),
    )
}

pub fn bne(cpu: &mut EECore, data: &OpCode)
    ensures
        final(cpu)@ == spec_bne(old(cpu)@, data.raw),
{
    let cond = cpu.read_register(data.ri_get_source()) != cpu.read_register(data.ri_get_target());
    cpu.branch(data, BranchAction::InnerBne, flag_of(cond));
}

/// Where a branch that is taken leads: the program counter, which is at the
/// delay slot, plus four times the immediate, sign-extended.
pub open spec fn branch_target(s: EEState, word: u32) -> u32 {
    spec_v_addr_with_offset_branch(s, word)
}

/// The second stage of a branch: where it is taken, the program counter
/// goes to its target.
pub open spec fn spec_inner_bne(s: EEState, data: BranchOpCode) -> (EEState, BranchResult) {
    if data.temp != 0 {
        (
            EEState { pc_register: branch_target(s, data.raw), ..s },
            BranchResult { bits: BranchResult::BRANCHED },
        )
    } else {
        (s, BranchResult { bits: 0 })
    }
}

pub fn inner_bne(cpu: &mut EECore, data: &BranchOpCode) -> (r: BranchResult)
    ensures
        (final(cpu)@, r) == spec_inner_bne(old(cpu)@, *data),
{
    if data.temp != 0 {
        cpu.pc_register = v_addr_with_offset_branch(cpu, data);
        BranchResult { bits: BranchResult::BRANCHED }
    } else {
        BranchResult::empty()
    }
}

/// BNEL: branch if rs differs from rt, and skip the delay slot if not.
pub open spec fn spec_bnel(s: EEState, word: u32) -> EEState {
    s.branch(
        word,
        BranchAction::InnerBnel,
        flag(s.read_register(source_of(word)) != s.read_register(target_of(word))),
    )
}

pub fn bnel(cpu: &mut EECore, data: &OpCode)
    ensures
        final(cpu)@ == spec_bnel(old(cpu)@, data.raw),
{
    let cond = cpu.read_register(data.ri_get_source()) != cpu.read_register(data.ri_get_target());
    cpu.branch(data, BranchAction::InnerBnel, flag_of(cond));
}

/// The second stage of a likely branch: where it is taken, the program
/// counter goes to its target; where it is not, the delay slot is skipped.
pub open spec fn spec_inner_bnel(s: EEState, data: BranchOpCode) -> (EEState, BranchResult) {
    if data.temp != 0 {
        (
            EEState { pc_register: branch_target(s, data.raw), ..s },
            BranchResult { bits: BranchResult::BRANCHED },
        )
    } else {
        (s, BranchResult { bits: BranchResult::NULLIFIED })
    }
}

pub fn inner_bnel(cpu: &mut EECore, data: &BranchOpCode) -> (r: BranchResult)
    ensures
        (final(cpu)@, r) == spec_inner_bnel(old(cpu)@, *data),
{
    if data.temp != 0 {
        cpu.pc_register = v_addr_with_offset_branch(cpu, data);
        BranchResult { bits: BranchResult::BRANCHED }
    } else {
        BranchResult { bits: BranchResult::NULLIFIED }
    }
}

/// BREAK: raises the breakpoint exception.
pub open spec fn spec_break_i(s: EEState, word: u32) -> EEState {
    s.throw_l1_exception(L1Exception::Break)
}

pub fn break_i(cpu: &mut EECore, _data: &OpCode)
    ensures
        final(cpu)@ == spec_break_i(old(cpu)@, _data.raw),
{
    cpu.throw_l1_exception(L1Exception::Break);
}

/// J: jump within the current region of 256 MiB.
pub open spec fn spec_j(s: EEState, word: u32) -> EEState {
    s.branch(word, BranchAction::InnerJ, 0)
}

pub fn j(cpu: &mut EECore, data: &OpCode)
    ensures
        final(cpu)@ == spec_j(old(cpu)@, data.raw),
{
    cpu.branch(data, BranchAction::InnerJ, 0);
}

/// Where a jump leads: the top four bits of the program counter, which is
/// at the delay slot, above four times the jump field.
pub open spec fn jump_target(s: EEState, word: u32) -> u32 {
    (s.pc_register & PC_HO_BITS) | (jump_of(word) << 2u32)
}

/// The second stage of a jump: the program counter goes to its target.
pub open spec fn spec_inner_j(s: EEState, data: BranchOpCode) -> (EEState, BranchResult) {
    (
        EEState { pc_register: jump_target(s, data.raw), ..s },
        BranchResult { bits: BranchResult::BRANCHED },
    )
}

pub fn inner_j(cpu: &mut EECore, data: &BranchOpCode) -> (r: BranchResult)
    ensures
        (final(cpu)@, r) == spec_inner_j(old(cpu)@, *data),
{
    cpu.pc_register = (cpu.pc_register & PC_HO_BITS) | (data.j_get_jump() << 2);

    BranchResult { bits: BranchResult::BRANCHED }
}

/// JAL: jump, and leave the address after the delay slot in register 31.
pub open spec fn spec_jal(s: EEState, word: u32) -> EEState {
    s.write_register(31, link_address(s)).branch(word, BranchAction::InnerJ, 0)
}

pub fn jal(cpu: &mut EECore, data: &OpCode)
    ensures
        final(cpu)@ == spec_jal(old(cpu)@, data.raw),
{
    let link = cpu.pc_register.wrapping_add((OPCODE_LENGTH_BYTES * 2) as u32) as u64;
    cpu.write_register(31, link);

    cpu.branch(data, BranchAction::InnerJ, 0);
}

/// JALR: jump to the address in rs, and leave the address after the delay
/// slot in rd. An address that is not that of an instruction raises an
/// address error: then nothing is written and no jump is queued.
pub open spec fn spec_jalr(s: EEState, word: u32) -> EEState {
    let dest = s.read_register(source_of(word)) as u32;
    if dest & PC_ALIGNED_BITS == 0 {
        s.write_register(destination_of(word), link_address(s)).branch(
            word,
            BranchAction::InnerJr,
            dest,
        )
    } else {
        s.throw_l1_exception(L1Exception::AddressErrorFetchLoad(dest))
    }
}

pub fn jalr(cpu: &mut EECore, data: &OpCode)
    ensures
        final(cpu)@ == spec_jalr(old(cpu)@, data.raw),
{
    let dest = cpu.read_register(data.ri_get_source()) as u32;

    if dest & PC_ALIGNED_BITS == 0 {
        let link = cpu.pc_register.wrapping_add((OPCODE_LENGTH_BYTES * 2) as u32) as u64;
        cpu.write_register(data.r_get_destination(), link);
        cpu.branch(data, BranchAction::InnerJr, dest);
    } else {
        cpu.throw_l1_exception(L1Exception::AddressErrorFetchLoad(dest));
    }
}

/// JR: jump to the address in rs. An address that is not that of an
/// instruction raises an address error, and no jump is queued.
pub open spec fn spec_jr(s: EEState, word: u32) -> EEState {
    let dest = s.read_register(source_of(word)) as u32;
    if dest & PC_ALIGNED_BITS == 0 {
        s.branch(word, BranchAction::InnerJr, dest)
    } else {
        s.throw_l1_exception(L1Exception::AddressErrorFetchLoad(dest))
    }
}

pub fn jr(cpu: &mut EECore, data: &OpCode)
    ensures
        final(cpu)@ == spec_jr(old(cpu)@, data.raw),
{
    let dest = cpu.read_register(data.ri_get_source()) as u32;

    if dest & PC_ALIGNED_BITS == 0 {
        cpu.branch(data, BranchAction::InnerJr, dest);
    } else {
        cpu.throw_l1_exception(L1Exception::AddressErrorFetchLoad(dest));
    }
}

/// The second stage of a jump through a register: the program counter goes
/// to the address that the first stage took from it.
pub open spec fn spec_inner_jr(s: EEState, data: BranchOpCode) -> (EEState, BranchResult) {
    (EEState { pc_register: data.temp, ..s }, BranchResult { bits: BranchResult::BRANCHED })
}

pub fn inner_jr(cpu: &mut EECore, data: &BranchOpCode) -> (r: BranchResult)
    ensures
        (final(cpu)@, r) == spec_inner_jr(old(cpu)@, *data),
{
    cpu.pc_register = data.temp;

    BranchResult { bits: BranchResult::BRANCHED }
}

} // verus!
