//! Well-formedness is an invariant: whatever a processor does, register 0
//! stays zero and every scratchpad line of the TLB stays valid.

use crate::cpu::cop0::{Cause, Register, Status};
use crate::cpu::exceptions::{L1Exception, L2Exception};
use crate::cpu::laws::registers::{lemma_splice, lemma_zero_bytes};
use crate::cpu::ops::{branch_effect, effect, spec_process_instruction};
use crate::cpu::ops::cop0::install_line;
use crate::cpu::pipeline::{BranchResult, EEAction, OpCode};
use crate::cpu::state::{EEState, gpr_floor};
use crate::isa::mips::instruction::{destination_of, lemma_field_ranges, source_of, target_of};
use crate::memory::zeros;
use crate::memory::mmu::MmuAddress;
use vstd::bytes::{
    lemma_auto_spec_u32_to_from_le_bytes, lemma_auto_spec_u64_to_from_le_bytes,
    spec_u32_to_le_bytes, spec_u64_to_le_bytes,
};
use vstd::prelude::*;

verus! {

/// Writes to the registers keep a processor well formed.
pub proof fn lemma_register_writes_keep_wf(s: EEState)
    requires
        s.wf(),
    ensures
        forall|index: u8, value: u64| index < 32 ==> (#[trigger] s.write_register(index, value)).wf(),
        forall|value: u64| (#[trigger] s.write_hi(value)).wf(),
        forall|value: u64| (#[trigger] s.write_lo(value)).wf(),
        forall|index: u8, value: u32| (#[trigger] s.write_hi_half(index, value)).wf(),
        forall|index: u8, value: u32| (#[trigger] s.write_lo_half(index, value)).wf(),
        forall|index: u8, value: u32|
            index < 32 ==> (#[trigger] s.write_cop0_direct(index, value)).wf(),
{
    lemma_auto_spec_u64_to_from_le_bytes();
    lemma_auto_spec_u32_to_from_le_bytes();
    assert forall|index: u8, value: u64| index < 32 implies (#[trigger] s.write_register(
        index,
        value,
    )).wf() by {
        if index != 0 {
            lemma_splice(s.register_file, gpr_floor(index), spec_u64_to_le_bytes(value));
        }
    }
    assert forall|value: u64| (#[trigger] s.write_hi(value)).wf() by {
        lemma_splice(s.hi, crate::cpu::state::lower_half(), spec_u64_to_le_bytes(value));
    }
    assert forall|value: u64| (#[trigger] s.write_lo(value)).wf() by {
        lemma_splice(s.lo, crate::cpu::state::lower_half(), spec_u64_to_le_bytes(value));
    }
    assert forall|index: u8, value: u32| (#[trigger] s.write_hi_half(index, value)).wf() by {
        lemma_splice(s.hi, crate::cpu::state::half_offset(index), spec_u32_to_le_bytes(value));
    }
    assert forall|index: u8, value: u32| (#[trigger] s.write_lo_half(index, value)).wf() by {
        lemma_splice(s.lo, crate::cpu::state::half_offset(index), spec_u32_to_le_bytes(value));
    }
    assert forall|index: u8, value: u32| index < 32 implies (#[trigger] s.write_cop0_direct(
        index,
        value,
    )).wf() by {
        lemma_splice(s.cop0_register_file, index * 4, spec_u32_to_le_bytes(value));
    }
}

/// A write to a COP0 register with its side effects keeps a processor well
/// formed.
pub proof fn lemma_write_cop0_keeps_wf(s: EEState, index: u8, value: u32)
    requires
        s.wf(),
        index < 32,
    ensures
        s.write_cop0(index, value).wf(),
{
    let stored = s.masked_cop0_value(index, value);
    lemma_register_writes_keep_wf(s);
    let s1 = s.write_cop0_direct(index, stored);
    lemma_register_writes_keep_wf(s1);
    match Register::spec_from_u8(index) {
        Some(Register::Wired) => {
            let s2 = EEState {
                mmu: crate::memory::mmu::MmuView { wired: stored as u8, ..s1.mmu },
                ..s1
            };
            lemma_register_writes_keep_wf(s2);
        },
        _ => {},
    }
}

/// An exception of level 1 keeps a processor well formed.
pub proof fn lemma_throw_l1_keeps_wf(s: EEState, ex: L1Exception)
    requires
        s.wf(),
    ensures
        s.throw_l1_exception(ex).wf(),
        s.throw_l1_exception(ex).register_file == s.register_file,
        s.throw_l1_exception(ex).excepted_this_cycle,
{
    let status = s.status();
    let entering = !status.spec_contains(crate::cpu::cop0::Status::EXCEPTION_LEVEL);
    let s0 = EEState { excepted_this_cycle: true, ..s };
    lemma_register_writes_keep_wf(s0);
    let s1 = if entering {
        let sa = s0.write_cop0_direct(Register::EPC.code(), s.saved_address());
        lemma_register_writes_keep_wf(sa);
        sa.write_cop0_direct(
            Register::Status.code(),
            status.spec_insert(crate::cpu::cop0::Status::EXCEPTION_LEVEL).bits,
        )
    } else {
        s0
    };
    assert(s1.wf());
    assert(s1.register_file == s.register_file);
    let cause1 = if !entering {
        s.cause_with_l1_code(ex)
    } else if s.branch_delay_slot_active is None {
        s.cause_with_l1_code(ex).spec_insert(crate::cpu::cop0::Cause::BRANCH_DELAY_1)
    } else {
        s.cause_with_l1_code(ex).spec_remove(crate::cpu::cop0::Cause::BRANCH_DELAY_1)
    };
    let (s2, cause2) = s1.l1_specific_handling(ex, cause1);
    match ex {
        L1Exception::TlbModified(addr) | L1Exception::TlbFetchLoadRefill(addr)
        | L1Exception::TlbStoreRefill(addr) | L1Exception::TlbFetchLoadInvalid(addr)
        | L1Exception::TlbStoreInvalid(addr) => {
            lemma_write_cop0_keeps_wf(s1, Register::BadVAddr.code(), addr);
            let sb = s1.write_cop0(Register::BadVAddr.code(), addr);
            let context = sb.read_cop0_direct(Register::Context.code());
            let entry_hi = sb.read_cop0_direct(Register::EntryHi.code());
            let cv = crate::cpu::cop0::spec_context_from_parts(
                crate::cpu::cop0::Context::spec_get_pte_base(context),
                addr >> 13u32,
            );
            lemma_write_cop0_keeps_wf(sb, Register::Context.code(), cv);
            let sc = sb.write_cop0(Register::Context.code(), cv);
            lemma_write_cop0_keeps_wf(
                sc,
                Register::EntryHi.code(),
                crate::cpu::cop0::spec_entry_hi_from_parts(
                    addr >> 13u32,
                    crate::cpu::cop0::EntryHi::spec_get_asid(entry_hi),
                ),
            );
        },
        L1Exception::AddressErrorStore(addr) | L1Exception::AddressErrorFetchLoad(addr) => {
            lemma_write_cop0_keeps_wf(s1, Register::BadVAddr.code(), addr);
        },
        _ => {},
    }
    assert(s2.wf());
    assert(s2.register_file == s.register_file);
    lemma_register_writes_keep_wf(s2);
}

/// An exception of level 2 keeps a processor well formed.
pub proof fn law_l2_exception_keeps_wf(s: EEState, ex: L2Exception)
    requires
        s.wf(),
    ensures
        s.throw_l2_exception(ex).wf(),
{
    let status = s.status();
    let entering = !status.spec_contains(crate::cpu::cop0::Status::ERROR_LEVEL);
    let status1 = if entering {
        status.spec_insert(crate::cpu::cop0::Status::ERROR_LEVEL)
    } else {
        status
    };
    let s0 = EEState { excepted_this_cycle: true, ..s };
    lemma_register_writes_keep_wf(s0);
    let s1 = if entering {
        s0.write_cop0_direct(Register::ErrorEPC.code(), s.saved_address())
    } else {
        s0
    };
    lemma_register_writes_keep_wf(s1);
    let cause = s.cause_with_l2_code(ex);
    let cause1 = if !entering {
        cause
    } else if s.branch_delay_slot_active is None {
        cause.spec_insert(crate::cpu::cop0::Cause::BRANCH_DELAY_2)
    } else {
        cause.spec_remove(crate::cpu::cop0::Cause::BRANCH_DELAY_2)
    };
    let s2 = EEState {
        pc_register: ex.vector(status1),
        ..s1.write_cop0_direct(Register::Cause.code(), cause1.bits)
    };
    assert(s2.wf());
    let (s3, status2) = s2.l2_specific_handling(ex, status1);
    if ex is Reset {
        lemma_write_cop0_keeps_wf(s2, Register::Random.code(), crate::cpu::cop0::RANDOM_DEFAULT);
        let sa = s2.write_cop0(Register::Random.code(), crate::cpu::cop0::RANDOM_DEFAULT);
        lemma_write_cop0_keeps_wf(sa, Register::Wired.code(), 0);
        let sb = sa.write_cop0(Register::Wired.code(), 0);
        lemma_write_cop0_keeps_wf(
            sb,
            Register::Config.code(),
            sb.read_cop0_direct(Register::Config.code()) & !crate::cpu::cop0::Config::ENABLES,
        );
    }
    assert(s3.wf());
    lemma_register_writes_keep_wf(s3);
}

/// Finding, reading and writing memory keep a processor well formed, and
/// leave its general registers as they were.
pub proof fn lemma_memory_keeps_wf(s: EEState, v_addr: u32, size: int, load: bool, data: Seq<u8>)
    requires
        s.wf(),
    ensures
        s.locate(v_addr, size, load).0.wf(),
        s.locate(v_addr, size, load).0.register_file == s.register_file,
        s.read_memory(v_addr, size).0.wf(),
        s.read_memory(v_addr, size).0.register_file == s.register_file,
        s.write_memory(v_addr, data).wf(),
        s.write_memory(v_addr, data).register_file == s.register_file,
{
    lemma_locate_keeps_wf(s, v_addr, size, load);
    lemma_locate_keeps_wf(s, v_addr, size, true);
    lemma_locate_keeps_wf(s, v_addr, data.len() as int, false);
}

proof fn lemma_locate_keeps_wf(s: EEState, v_addr: u32, size: int, load: bool)
    requires
        s.wf(),
    ensures
        s.locate(v_addr, size, load).0.wf(),
        s.locate(v_addr, size, load).0.register_file == s.register_file,
{
    if !s.may_access(v_addr) {
        if load {
            lemma_throw_l1_keeps_wf(s, L1Exception::AddressErrorFetchLoad(v_addr));
        } else {
            lemma_throw_l1_keeps_wf(s, L1Exception::AddressErrorStore(v_addr));
        }
    } else if EEState::is_unmapped(v_addr) {
    } else if !crate::memory::mmu::page_mask_is_legal(s.mmu.page_mask) {
    } else {
        match s.mmu.translate_address(v_addr, load) {
            MmuAddress::Exception(e) => {
                lemma_throw_l1_keeps_wf(s, e);
            },
            _ => {},
        }
    }
}

/// A TLB write keeps a processor well formed: a line that is not valid is
/// not installed.
proof fn lemma_install_line_keeps_wf(s: EEState, at: int)
    requires
        s.wf(),
    ensures
        install_line(s, at).wf(),
{
    let entry_hi = s.read_cop0_direct(Register::EntryHi.code());
    let entry_lo0 = s.read_cop0_direct(Register::EntryLo0.code());
    let entry_lo1 = s.read_cop0_direct(Register::EntryLo1.code());
    if 0 <= at < 48 && crate::memory::mmu::tlb::TlbLine::installable(
        s.mmu.page_mask,
        entry_hi,
        entry_lo0,
        entry_lo1,
    ) {
        let after = s.mmu.write_line(at, entry_hi, entry_lo0, entry_lo1);
        assert forall|i: int| 0 <= i < 48 implies (#[trigger] after.lines[i]).wf() by {
            if i != at {
                assert(after.lines[i] == s.mmu.lines[i]);
            }
        }
    }
}

proof fn lemma_arithmetic_keeps_wf(s: EEState, action: EEAction, word: u32)
    requires
        s.wf(),
    ensures
        match action {
            EEAction::Add | EEAction::Addi | EEAction::Addiu | EEAction::Addu | EEAction::And
            | EEAction::Andi | EEAction::Daddu | EEAction::Div | EEAction::Divu | EEAction::Movn
            | EEAction::Mult | EEAction::Or | EEAction::Ori | EEAction::Sll | EEAction::Slt
            | EEAction::Slti | EEAction::Sltiu | EEAction::Sltu | EEAction::Sra | EEAction::Srl
            | EEAction::Subu | EEAction::Lui | EEAction::Mfhi | EEAction::Mflo | EEAction::Nop => effect(
                s,
                action,
                word,
            ).wf(),
            _ => true,
        },
{
    lemma_field_ranges(word);
    lemma_register_writes_keep_wf(s);
    match action {
        EEAction::Add | EEAction::Addi => {
            lemma_throw_l1_keeps_wf(s, L1Exception::Overflow);
        },
        EEAction::Div => {
            let lhs = s.read_register(source_of(word)) as i32;
            let rhs = s.read_register(target_of(word)) as i32;
            lemma_register_writes_keep_wf(
                s.write_hi(crate::cpu::ops::arithmetic::div_remainder(lhs, rhs) as u64),
            );
        },
        EEAction::Divu => {
            let lhs = s.read_register(source_of(word)) as u32;
            let rhs = s.read_register(target_of(word)) as u32;
            lemma_register_writes_keep_wf(s.write_hi((((lhs % rhs) as u32) as i32) as u64));
        },
        EEAction::Mult => {
            let result = crate::cpu::ops::arithmetic::mult_product(s, word);
            let s1 = s.write_hi((result >> 32u32) as u64);
            lemma_register_writes_keep_wf(s1);
            lemma_register_writes_keep_wf(s1.write_lo((result as i32) as u64));
        },
        _ => {},
    }
}

proof fn lemma_branches_keep_wf(s: EEState, action: EEAction, word: u32)
    requires
        s.wf(),
    ensures
        match action {
            EEAction::Beq | EEAction::Beql | EEAction::Bgez | EEAction::Bgtz | EEAction::Blez
            | EEAction::Bltz | EEAction::Bne | EEAction::Bnel | EEAction::BreakI | EEAction::J
            | EEAction::Jal | EEAction::Jalr | EEAction::Jr => effect(s, action, word).wf(),
            _ => true,
        },
{
    lemma_field_ranges(word);
    lemma_register_writes_keep_wf(s);
    match action {
        EEAction::BreakI => {
            lemma_throw_l1_keeps_wf(s, L1Exception::Break);
        },
        EEAction::Jalr | EEAction::Jr => {
            let dest = s.read_register(source_of(word)) as u32;
            lemma_throw_l1_keeps_wf(s, L1Exception::AddressErrorFetchLoad(dest));
        },
        _ => {},
    }
}

proof fn lemma_loads_keep_wf(s: EEState, action: EEAction, word: u32)
    requires
        s.wf(),
    ensures
        match action {
            EEAction::Lb | EEAction::Lbu | EEAction::Ld | EEAction::Lhu | EEAction::Lw => effect(
                s,
                action,
                word,
            ).wf(),
            _ => true,
        },
{
    lemma_field_ranges(word);
    let v_addr = crate::utils::spec_v_addr_with_offset(s, word);
    let size: int = match action {
        EEAction::Ld => 8,
        EEAction::Lhu => 2,
        EEAction::Lw => 4,
        _ => 1,
    };
    let misaligned = match action {
        EEAction::Ld => v_addr & 0b111 != 0,
        EEAction::Lhu => v_addr & 0b1 != 0,
        EEAction::Lw => v_addr & 0b11 != 0,
        _ => false,
    };
    if misaligned {
        lemma_throw_l1_keeps_wf(s, L1Exception::AddressErrorFetchLoad(v_addr));
    } else {
        lemma_memory_keeps_wf(s, v_addr, size, true, Seq::empty());
        lemma_register_writes_keep_wf(s.read_memory(v_addr, size).0);
    }
}

proof fn lemma_stores_keep_wf(s: EEState, action: EEAction, word: u32)
    requires
        s.wf(),
    ensures
        match action {
            EEAction::Sb | EEAction::Sw | EEAction::Sd | EEAction::Swc1 => effect(
                s,
                action,
                word,
            ).wf(),
            _ => true,
        },
{
    lemma_field_ranges(word);
    let v_addr = crate::utils::spec_v_addr_with_offset(s, word);
    let data: Seq<u8> = match action {
        EEAction::Sb => seq![s.read_register(target_of(word)) as u8],
        EEAction::Sw => spec_u32_to_le_bytes(s.read_register(target_of(word)) as u32),
        EEAction::Sd => spec_u64_to_le_bytes(s.read_register(target_of(word))),
        _ => spec_u32_to_le_bytes(0),
    };
    let misaligned = match action {
        EEAction::Sd => v_addr & 0b111 != 0,
        EEAction::Sw | EEAction::Swc1 => v_addr & 0b11 != 0,
        _ => false,
    };
    if misaligned {
        lemma_throw_l1_keeps_wf(s, L1Exception::AddressErrorStore(v_addr));
    } else {
        lemma_memory_keeps_wf(s, v_addr, 0, false, data);
    }
}

proof fn lemma_cop0_ops_keep_wf(s: EEState, action: EEAction, word: u32)
    requires
        s.wf(),
    ensures
        match action {
            EEAction::Mfc0 | EEAction::Mtc0 | EEAction::Tlbwi | EEAction::Tlbwr | EEAction::Ixltg => effect(
                s,
                action,
                word,
            ).wf(),
            _ => true,
        },
{
    lemma_field_ranges(word);
    if !crate::cpu::ops::cop0::cop0_is_usable(s) {
        lemma_throw_l1_keeps_wf(s, L1Exception::CoprocessorUnusable(0));
    } else {
        match action {
            EEAction::Mfc0 => {
                lemma_register_writes_keep_wf(s);
            },
            EEAction::Mtc0 => {
                lemma_write_cop0_keeps_wf(
                    s,
                    destination_of(word),
                    s.read_register(target_of(word)) as u32,
                );
            },
            EEAction::Tlbwi => {
                lemma_install_line_keeps_wf(s, s.mmu.index as int);
            },
            EEAction::Tlbwr => {
                lemma_install_line_keeps_wf(
                    s,
                    s.read_cop0_direct(Register::Random.code()) as int,
                );
            },
            _ => {},
        }
    }
}

/// Whatever an instruction does, it keeps a processor well formed: register
/// 0 stays zero and no scratchpad line of the TLB becomes invalid.
pub proof fn law_effect_keeps_wf(s: EEState, action: EEAction, word: u32)
    requires
        s.wf(),
    ensures
        effect(s, action, word).wf(),
{
    lemma_arithmetic_keeps_wf(s, action, word);
    lemma_branches_keep_wf(s, action, word);
    lemma_loads_keep_wf(s, action, word);
    lemma_stores_keep_wf(s, action, word);
    lemma_cop0_ops_keep_wf(s, action, word);
}

/// `execute` keeps a processor well formed.
pub proof fn law_execute_keeps_wf(s: EEState, op: OpCode)
    requires
        s.wf(),
    ensures
        s.execute(op).wf(),
{
    let (s1, result) = match s.branch_delay_slot_active {
        Some(b) => branch_effect(EEState { branch_delay_slot_active: None, ..s }, b),
        None => (s, BranchResult { bits: 0 }),
    };
    assert(s1.wf());
    law_effect_keeps_wf(s1, op.action, op.raw);
}

/// A cycle keeps a processor well formed, up to the step of Random and
/// after it.
pub proof fn law_cycle_keeps_wf(s: EEState)
    requires
        s.wf(),
    ensures
        s.cycle_before_random().wf(),
        s.cycle().wf(),
{
    lemma_register_writes_keep_wf(s);
    let count = vstd::wrapping::u32_specs::wrapping_add(
        s.read_cop0_direct(Register::Count.code()),
        1,
    );
    let s_count = s.write_cop0_direct(Register::Count.code(), count);
    lemma_throw_l1_keeps_wf(s_count, L1Exception::Interrupt(7));
    let s0 = s.tick_timer();
    assert(s0.wf());
    lemma_memory_keeps_wf(s0, s0.pc_register, 8, true, Seq::empty());
    let (s1, words) = s0.fetch();
    assert(s1.wf());
    let s2 = match words {
        Some((first, second)) => {
            law_execute_keeps_wf(s1, spec_process_instruction(first));
            law_execute_keeps_wf(
                s1.execute(spec_process_instruction(first)),
                spec_process_instruction(second),
            );
            s1.issue(first, second)
        },
        None => s1,
    };
    assert(s2.wf());
    let s3 = EEState { excepted_this_cycle: false, ..s2 };
    lemma_register_writes_keep_wf(s3);
}

/// A processor is well formed as it is made, and at power-up.
pub proof fn law_created_is_wf()
    ensures
        EEState::created().wf(),
        EEState::created().init_as_ee().wf(),
{
    let s = EEState::created();
    lemma_zero_bytes();
    assert(s.register_file.subrange(gpr_floor(0), gpr_floor(0) + 8) =~= zeros(8));
    assert(s.wf());
    lemma_register_writes_keep_wf(s);
    let s1 = s.write_cop0_direct(Register::Wired.code(), crate::cpu::cop0::WIRED_DEFAULT);
    lemma_register_writes_keep_wf(s1);
    let s2 = s1.write_cop0_direct(Register::Random.code(), crate::cpu::cop0::RANDOM_DEFAULT);
    lemma_register_writes_keep_wf(s2);
    let s3 = s2.write_cop0_direct(Register::PRId.code(), crate::cpu::constants::EE_PRID);
    lemma_register_writes_keep_wf(s3);
    let s4 = s3.write_cop0_direct(
        Register::Status.code(),
        Status::ERROR_LEVEL | Status::B_EXCEPTION_VECTOR,
    );
    lemma_register_writes_keep_wf(s4);
}

} // verus!
