//! The laws of issue: single and dual issue, the delay slot of a branch,
//! and the registers that an instruction writes.

use crate::cpu::constants::OPCODE_LENGTH_BYTES;
use crate::cpu::exceptions::L1Exception;
use crate::cpu::laws::registers::law_register_write_leaves_the_others;
use crate::cpu::laws::wellformed::{
    law_execute_keeps_wf, lemma_memory_keeps_wf, lemma_throw_l1_keeps_wf,
};
use crate::cpu::ops::{branch_effect, effect, Encoding, spec_process_instruction};
use crate::cpu::pipeline::{
    admits_second, BranchAction, BranchOpCode, BranchResult, EEAction, issued_write_set, OpCode,
};
use crate::cpu::state::EEState;
use crate::isa::mips::{Capability, gpr_bit};
use crate::isa::mips::instruction::{destination_of, lemma_field_ranges, source_of, target_of};
use vstd::bytes::{spec_u32_to_le_bytes, spec_u64_to_le_bytes};
use vstd::prelude::*;

verus! {

/// With dual issue off, a cycle issues the first of the two words that it
/// fetched, and nothing else.
pub proof fn law_single_issue(s: EEState, first: u32, second: u32)
    requires
        !s.dual_issue,
    ensures
        !s.issues_both(first, second),
        s.issue(first, second) == s.execute(spec_process_instruction(first)),
{
}

/// With dual issue on, a cycle issues the first of the two words that it
/// fetched, and after it the second where the first admits it, and nothing
/// else. The registers that the cycle declares written are those of both
/// instructions where the second was admitted, and those of the first alone
/// where it was not.
pub proof fn law_dual_issue(s: EEState, first: u32, second: u32)
    requires
        s.dual_issue,
    ensures
        ({
            let first_op = spec_process_instruction(first);
            let second_op = spec_process_instruction(second);
            let admitted = admits_second(first_op, second_op, Capability { write: u64::MAX, read: u64::MAX });
            &&& s.issues_both(first, second) == admitted
            &&& admitted ==> s.issue(first, second) == s.execute(first_op).execute(second_op)
            &&& !admitted ==> s.issue(first, second) == s.execute(first_op)
            &&& admitted ==> issued_write_set(first_op, second_op, admitted) == crate::cpu::pipeline::registers_of(
                first_op.requirements.spec_first().write,
            ) | crate::cpu::pipeline::registers_of(second_op.requirements.spec_first().write)
            &&& !admitted ==> issued_write_set(first_op, second_op, admitted)
                == crate::cpu::pipeline::registers_of(first_op.requirements.spec_first().write)
        }),
{
}

/// Whether the second stage `data` of a branch writes the program counter:
/// a jump always does, a branch where its condition held.
pub open spec fn is_taken(data: BranchOpCode) -> bool {
    data.action == BranchAction::InnerJ || data.action == BranchAction::InnerJr || data.temp != 0
}

/// Where the second stage `data` of a branch that is taken sends the
/// program counter.
pub open spec fn target_of_branch(s: EEState, data: BranchOpCode) -> u32 {
    match data.action {
        BranchAction::InnerBne | BranchAction::InnerBnel => crate::cpu::ops::branch::branch_target(
            s,
            data.raw,
        ),
        BranchAction::InnerJ => crate::cpu::ops::branch::jump_target(s, data.raw),
        BranchAction::InnerJr => data.temp,
    }
}

/// The delay slot of a branch that is taken: the instruction that follows
/// the branch is executed in full, on a processor whose program counter is
/// at the target already, and the program counter is not moved on after it.
/// So it stays at the target unless the instruction itself writes it.
pub proof fn law_delay_slot_of_taken_branch(s: EEState, data: BranchOpCode, op: OpCode)
    requires
        s.branch_delay_slot_active == Some(data),
        is_taken(data),
    ensures
        s.execute(op) == effect(
            EEState {
                branch_delay_slot_active: None,
                pc_register: target_of_branch(s, data),
                ..s
            },
            op.action,
            op.raw,
        ),
{
    assert(BranchResult { bits: BranchResult::BRANCHED }.spec_contains(BranchResult::BRANCHED)) by {
        assert(2u8 & 2u8 == 2u8) by (bit_vector);
    }
    assert(!(BranchResult { bits: BranchResult::BRANCHED }).spec_contains(
        BranchResult::NULLIFIED,
    )) by {
        assert(2u8 & 1u8 != 1u8) by (bit_vector);
    }
}

/// The delay slot of a branch that is not taken: after a plain branch the
/// instruction that follows is executed as any other; after a likely branch
/// it is skipped, and only the program counter moves on, unless an
/// exception was raised in this cycle.
pub proof fn law_delay_slot_of_branch_not_taken(s: EEState, data: BranchOpCode, op: OpCode)
    requires
        s.branch_delay_slot_active == Some(data),
        !is_taken(data),
    ensures
        data.action == BranchAction::InnerBne ==> s.execute(op) == (EEState {
            branch_delay_slot_active: None,
            ..s
        }).execute(op),
        data.action == BranchAction::InnerBnel ==> s.execute(op).register_file == s.register_file
            && s.execute(op).memory == s.memory && s.execute(op).branch_delay_slot_active is None
            && s.execute(op).pc_register == if s.excepted_this_cycle {
            s.pc_register
        } else {
            vstd::wrapping::u32_specs::wrapping_add(s.pc_register, OPCODE_LENGTH_BYTES as u32)
        },
{
    assert(BranchResult { bits: BranchResult::NULLIFIED }.spec_contains(BranchResult::NULLIFIED))
        by {
        assert(1u8 & 1u8 == 1u8) by (bit_vector);
    }
    assert(!(BranchResult { bits: BranchResult::NULLIFIED }).spec_contains(
        BranchResult::BRANCHED,
    )) by {
        assert(1u8 & 2u8 != 2u8) by (bit_vector);
    }
    assert(!(BranchResult { bits: 0 }).spec_contains(BranchResult::BRANCHED)) by {
        assert(0u8 & 2u8 != 2u8) by (bit_vector);
    }
    assert(!(BranchResult { bits: 0 }).spec_contains(BranchResult::NULLIFIED)) by {
        assert(0u8 & 1u8 != 1u8) by (bit_vector);
    }
}

/// The general register that an action writes, if it writes one.
pub open spec fn written_register(action: EEAction, word: u32) -> Option<u8> {
    match action {
        EEAction::Add | EEAction::Addu | EEAction::And | EEAction::Daddu | EEAction::Movn
        | EEAction::Mult | EEAction::Or | EEAction::Sll | EEAction::Slt | EEAction::Sltu
        | EEAction::Sra | EEAction::Srl | EEAction::Subu | EEAction::Mfhi | EEAction::Mflo
        | EEAction::Jalr => Some(destination_of(word)),
        EEAction::Addi | EEAction::Addiu | EEAction::Andi | EEAction::Ori | EEAction::Slti
        | EEAction::Sltiu | EEAction::Lui | EEAction::Lb | EEAction::Lbu | EEAction::Ld
        | EEAction::Lhu | EEAction::Lw | EEAction::Mfc0 => Some(target_of(word)),
        EEAction::Jal => Some(31),
        _ => None,
    }
}

proof fn lemma_arithmetic_writes_one_register(s: EEState, action: EEAction, word: u32, other: u8)
    requires
        s.wf(),
        other < 32,
        written_register(action, word) != Some(other),
    ensures
        match action {
            EEAction::Add | EEAction::Addi | EEAction::Addiu | EEAction::Addu | EEAction::And
            | EEAction::Andi | EEAction::Daddu | EEAction::Div | EEAction::Divu | EEAction::Movn
            | EEAction::Mult | EEAction::Or | EEAction::Ori | EEAction::Sll | EEAction::Slt
            | EEAction::Slti | EEAction::Sltiu | EEAction::Sltu | EEAction::Sra | EEAction::Srl
            | EEAction::Subu | EEAction::Lui | EEAction::Mfhi | EEAction::Mflo | EEAction::Nop => effect(
                s,
                action,
                word,
            ).read_register(other) == s.read_register(other),
            _ => true,
        },
{
    lemma_field_ranges(word);
    match action {
        EEAction::Add | EEAction::Addi => {
            lemma_throw_l1_keeps_wf(s, L1Exception::Overflow);
        },
        _ => {},
    }
    match written_register(action, word) {
        Some(index) => {
            assert forall|value: u64| #[trigger]
                s.write_register(index, value).read_register(other) == s.read_register(other) by {
                law_register_write_leaves_the_others(s, index, value, other);
            }
            if action == EEAction::Mult {
                let result = crate::cpu::ops::arithmetic::mult_product(s, word);
                let lo_part = (result as i32) as u64;
                let s1 = s.write_hi((result >> 32u32) as u64).write_lo(lo_part);
                law_register_write_leaves_the_others(s1, index, lo_part, other);
            }
        },
        None => {},
    }
}

proof fn lemma_branches_write_one_register(s: EEState, action: EEAction, word: u32, other: u8)
    requires
        s.wf(),
        other < 32,
        written_register(action, word) != Some(other),
    ensures
        match action {
            EEAction::Beq | EEAction::Beql | EEAction::Bgez | EEAction::Bgtz | EEAction::Blez
            | EEAction::Bltz | EEAction::Bne | EEAction::Bnel | EEAction::BreakI | EEAction::J
            | EEAction::Jal | EEAction::Jalr | EEAction::Jr => effect(
                s,
                action,
                word,
            ).read_register(other) == s.read_register(other),
            _ => true,
        },
{
    lemma_field_ranges(word);
    match action {
        EEAction::BreakI => {
            lemma_throw_l1_keeps_wf(s, L1Exception::Break);
        },
        EEAction::Jalr | EEAction::Jr => {
            let dest = s.read_register(source_of(word)) as u32;
            lemma_throw_l1_keeps_wf(s, L1Exception::AddressErrorFetchLoad(dest));
        },
        _ => {},
    }
    match written_register(action, word) {
        Some(index) => {
            law_register_write_leaves_the_others(
                s,
                index,
                crate::cpu::ops::branch::link_address(s),
                other,
            );
        },
        None => {},
    }
}

proof fn lemma_loads_write_one_register(s: EEState, action: EEAction, word: u32, other: u8)
    requires
        s.wf(),
        other < 32,
        written_register(action, word) != Some(other),
    ensures
        match action {
            EEAction::Lb | EEAction::Lbu | EEAction::Ld | EEAction::Lhu | EEAction::Lw => effect(
                s,
                action,
                word,
            ).read_register(other) == s.read_register(other),
            _ => true,
        },
{
    lemma_field_ranges(word);
    let v_addr = crate::utils::spec_v_addr_with_offset(s, word);
    let size: int = match action {
        EEAction::Ld => 8,
        EEAction::Lhu => 2,
        EEAction::Lw => 4,
        _ => 1,
    };
    let misaligned = match action {
        EEAction::Ld => v_addr & 0b111 != 0,
        EEAction::Lhu => v_addr & 0b1 != 0,
        EEAction::Lw => v_addr & 0b11 != 0,
        _ => false,
    };
    let is_load = action == EEAction::Lb || action == EEAction::Lbu || action == EEAction::Ld
        || action == EEAction::Lhu || action == EEAction::Lw;
    if !is_load {
    } else if misaligned {
        lemma_throw_l1_keeps_wf(s, L1Exception::AddressErrorFetchLoad(v_addr));
    } else {
        lemma_memory_keeps_wf(s, v_addr, size, true, Seq::empty());
        let (s1, bytes) = s.read_memory(v_addr, size);
        assert(s1.read_register(other) == s.read_register(other));
        match bytes {
            Some(b) => {
                let value: u64 = match action {
                    EEAction::Lb => (b[0] as i8) as u64,
                    EEAction::Lbu => b[0] as u64,
                    EEAction::Ld => vstd::bytes::spec_u64_from_le_bytes(b),
                    EEAction::Lhu => vstd::bytes::spec_u16_from_le_bytes(b) as u64,
                    _ => (vstd::bytes::spec_u32_from_le_bytes(b) as i32) as u64,
                };
                law_register_write_leaves_the_others(s1, target_of(word), value, other);
            },
            None => {},
        }
    }
}

proof fn lemma_stores_write_no_register(s: EEState, action: EEAction, word: u32, other: u8)
    requires
        s.wf(),
        other < 32,
    ensures
        match action {
            EEAction::Sb | EEAction::Sw | EEAction::Sd | EEAction::Swc1 => effect(
                s,
                action,
                word,
            ).read_register(other) == s.read_register(other),
            _ => true,
        },
{
    lemma_field_ranges(word);
    let v_addr = crate::utils::spec_v_addr_with_offset(s, word);
    let data: Seq<u8> = match action {
        EEAction::Sb => seq![s.read_register(target_of(word)) as u8],
        EEAction::Sw => spec_u32_to_le_bytes(s.read_register(target_of(word)) as u32),
        EEAction::Sd => spec_u64_to_le_bytes(s.read_register(target_of(word))),
        _ => spec_u32_to_le_bytes(0),
    };
    let misaligned = match action {
        EEAction::Sd => v_addr & 0b111 != 0,
        EEAction::Sw | EEAction::Swc1 => v_addr & 0b11 != 0,
        _ => false,
    };
    if misaligned {
        lemma_throw_l1_keeps_wf(s, L1Exception::AddressErrorStore(v_addr));
    } else {
        lemma_memory_keeps_wf(s, v_addr, 0, false, data);
    }
}

proof fn lemma_cop0_ops_write_one_register(s: EEState, action: EEAction, word: u32, other: u8)
    requires
        s.wf(),
        other < 32,
        written_register(action, word) != Some(other),
    ensures
        match action {
            EEAction::Mfc0 | EEAction::Mtc0 | EEAction::Tlbwi | EEAction::Tlbwr | EEAction::Ixltg => effect(
                s,
                action,
                word,
            ).read_register(other) == s.read_register(other),
            _ => true,
        },
{
    lemma_field_ranges(word);
    if !crate::cpu::ops::cop0::cop0_is_usable(s) {
        lemma_throw_l1_keeps_wf(s, L1Exception::CoprocessorUnusable(0));
    } else {
        match action {
            EEAction::Mfc0 => {
                law_register_write_leaves_the_others(
                    s,
                    target_of(word),
                    (s.read_cop0_direct(destination_of(word)) as i32) as u64,
                    other,
                );
            },
            _ => {},
        }
    }
}

/// An instruction changes no general register but the one that
/// `written_register` names.
pub proof fn law_effect_writes_one_register(s: EEState, action: EEAction, word: u32, other: u8)
    requires
        s.wf(),
        other < 32,
        written_register(action, word) != Some(other),
    ensures
        effect(s, action, word).read_register(other) == s.read_register(other),
{
    lemma_arithmetic_writes_one_register(s, action, word, other);
    lemma_branches_write_one_register(s, action, word, other);
    lemma_loads_write_one_register(s, action, word, other);
    lemma_stores_write_no_register(s, action, word, other);
    lemma_cop0_ops_write_one_register(s, action, word, other);
}

proof fn lemma_bit_is_in_mask(j: u8, r: u8, before: u64, rest: u64)
    by (bit_vector)
    requires
        j < 32,
        r < 32,
    ensures
        (1u64 << j) & ((1u64 << r) | rest) == 0 ==> j != r,
        (1u64 << j) & ((before | (1u64 << r)) | rest) == 0 ==> j != r,
{
}

/// A register outside the write set of a decoded instruction is not the
/// one that its action writes, MULT left out.
proof fn lemma_decoded_writes_are_declared(word: u32, register: u8)
    requires
        register < 32,
        spec_process_instruction(word).action != EEAction::Mult,
        gpr_bit(register) & spec_process_instruction(word).requirements.spec_first().write == 0,
    ensures
        spec_process_instruction(word).raw == word || word == 0,
        written_register(
            spec_process_instruction(word).action,
            spec_process_instruction(word).raw,
        ) != Some(register),
{
    let op = spec_process_instruction(word);
    lemma_field_ranges(word);
    if word != 0 {
        match Encoding::spec_of_word(word) {
            Some(encoding) => {
                let line = encoding.entry();
                if line is Some {
                    let regs = line.unwrap().registers.registers(word);
                    let pipes = match line.unwrap().pipes.pipes() {
                        crate::isa::mips::Requirement::Joint(a) => a.bits,
                        crate::isa::mips::Requirement::Disjoint(a, _b) => a.bits,
                    };
                    let rest = pipes << Capability::PIPELINE_SHIFT;
                    assert(op.requirements.spec_first().write == regs.write | rest);
                    lemma_bit_is_in_mask(register, destination_of(word), Capability::REG_PC, rest);
                    lemma_bit_is_in_mask(register, target_of(word), Capability::REG_PC, rest);
                    lemma_bit_is_in_mask(register, 31, Capability::REG_PC, rest);
                }
            },
            None => {},
        }
    }
}

/// The decoder table declares what the instructions write: but for MULT, an
/// instruction changes no general register outside the write set of its
/// decoded form. MULT also writes its destination register, which its line
/// in the table leaves out.
pub proof fn law_writes_are_declared(s: EEState, word: u32, register: u8)
    requires
        s.wf(),
        register < 32,
        spec_process_instruction(word).action != EEAction::Mult,
        gpr_bit(register) & spec_process_instruction(word).requirements.spec_first().write == 0,
    ensures
        effect(
            s,
            spec_process_instruction(word).action,
            spec_process_instruction(word).raw,
        ).read_register(register) == s.read_register(register),
{
    let op = spec_process_instruction(word);
    lemma_decoded_writes_are_declared(word, register);
    law_effect_writes_one_register(s, op.action, op.raw, register);
}

/// `execute` changes no general register but the one that the action of
/// its instruction writes: the second stage of a branch writes none.
pub proof fn law_execute_writes_one_register(s: EEState, op: OpCode, other: u8)
    requires
        s.wf(),
        other < 32,
        written_register(op.action, op.raw) != Some(other),
    ensures
        s.execute(op).read_register(other) == s.read_register(other),
{
    let (s1, result) = match s.branch_delay_slot_active {
        Some(b) => branch_effect(EEState { branch_delay_slot_active: None, ..s }, b),
        None => (s, BranchResult { bits: 0 }),
    };
    assert(s1.wf() && s1.register_file == s.register_file);
    law_effect_writes_one_register(s1, op.action, op.raw, other);
}

proof fn lemma_bit_outside_both(r: u8, first: u64, second: u64)
    by (bit_vector)
    requires
        r < 32,
    ensures
        (1u64 << r) & ((first & 0x0000_003F_FFFF_FFFFu64) | (second & 0x0000_003F_FFFF_FFFFu64)) == 0
            ==> (1u64 << r) & first == 0 && (1u64 << r) & second == 0,
        (1u64 << r) & (first & 0x0000_003F_FFFF_FFFFu64) == 0 ==> (1u64 << r) & first == 0,
{
}

/// The registers that a cycle writes are those that it declares: the issue
/// of the two words that a cycle fetched changes no general register
/// outside the write set of the cycle, which is that of both instructions
/// where the second was admitted and that of the first alone where it was
/// not. MULT is left out, whose line in the table does not declare the
/// destination register that it writes.
pub proof fn law_issue_writes_are_declared(s: EEState, first: u32, second: u32, register: u8)
    requires
        s.wf(),
        register < 32,
        spec_process_instruction(first).action != EEAction::Mult,
        spec_process_instruction(second).action != EEAction::Mult,
        gpr_bit(register) & issued_write_set(
            spec_process_instruction(first),
            spec_process_instruction(second),
            s.issues_both(first, second),
        ) == 0,
    ensures
        s.issue(first, second).read_register(register) == s.read_register(register),
{
    let first_op = spec_process_instruction(first);
    let second_op = spec_process_instruction(second);
    lemma_bit_outside_both(
        register,
        first_op.requirements.spec_first().write,
        second_op.requirements.spec_first().write,
    );
    lemma_decoded_writes_are_declared(first, register);
    law_execute_writes_one_register(s, first_op, register);
    if s.issues_both(first, second) {
        lemma_decoded_writes_are_declared(second, register);
        law_execute_keeps_wf(s, first_op);
        law_execute_writes_one_register(s.execute(first_op), second_op, register);
    }
}

} // verus!
