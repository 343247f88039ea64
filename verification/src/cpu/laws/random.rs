//! The law of the Random register: it stays between Wired and the last
//! line of the TLB.

use crate::cpu::cop0::{Cause, RANDOM_MAX, Register, Status};
use crate::cpu::exceptions::L1Exception;
use crate::cpu::laws::registers::law_cop0_keeps_what_is_stored;
use crate::cpu::laws::wellformed::{
    law_cycle_keeps_wf, law_execute_keeps_wf, lemma_memory_keeps_wf, lemma_register_writes_keep_wf,
    lemma_throw_l1_keeps_wf, lemma_write_cop0_keeps_wf,
};
use crate::cpu::ops::{branch_effect, effect, spec_process_instruction};
use crate::cpu::pipeline::{BranchResult, EEAction, OpCode};
use crate::cpu::state::EEState;
use crate::isa::mips::instruction::{destination_of, lemma_field_ranges, source_of, target_of};
use crate::memory::mmu::MmuAddress;
use vstd::bytes::{lemma_auto_spec_u32_to_from_le_bytes, lemma_auto_spec_u64_to_from_le_bytes};
use vstd::prelude::*;

verus! {

/// Random, and Wired as the MMU holds it.
pub open spec fn random_and_wired(s: EEState) -> (u32, u8) {
    (s.read_cop0_direct(Register::Random.code()), s.mmu.wired)
}

/// Whether an instruction is a move to Random or to Wired.
pub open spec fn moves_random_or_wired(op: OpCode) -> bool {
    op.action == EEAction::Mtc0 && (destination_of(op.raw) == Register::Random.code()
        || destination_of(op.raw) == Register::Wired.code())
}

proof fn lemma_write_cop0_keeps_random(s: EEState, index: u8, value: u32)
    requires
        s.wf(),
        index < 32,
        index != Register::Random.code(),
        index != Register::Wired.code(),
    ensures
        s.write_cop0(index, value).wf(),
        random_and_wired(s.write_cop0(index, value)) == random_and_wired(s),
{
    lemma_write_cop0_keeps_wf(s, index, value);
    law_cop0_keeps_what_is_stored(
        s,
        index,
        s.masked_cop0_value(index, value),
        Register::Random.code(),
    );
}

proof fn lemma_throw_l1_keeps_random(s: EEState, ex: L1Exception)
    requires
        s.wf(),
    ensures
        s.throw_l1_exception(ex).wf(),
        random_and_wired(s.throw_l1_exception(ex)) == random_and_wired(s),
{
    lemma_throw_l1_keeps_wf(s, ex);
    let random = Register::Random.code();
    let status = s.status();
    let entering = !status.spec_contains(Status::EXCEPTION_LEVEL);
    let s0 = EEState { excepted_this_cycle: true, ..s };
    lemma_register_writes_keep_wf(s0);
    let sa = s0.write_cop0_direct(Register::EPC.code(), s.saved_address());
    lemma_register_writes_keep_wf(sa);
    let entered = status.spec_insert(Status::EXCEPTION_LEVEL).bits;
    law_cop0_keeps_what_is_stored(s0, Register::EPC.code(), s.saved_address(), random);
    law_cop0_keeps_what_is_stored(sa, Register::Status.code(), entered, random);
    let s1 = if entering {
        sa.write_cop0_direct(Register::Status.code(), entered)
    } else {
        s0
    };
    assert(s1.wf() && random_and_wired(s1) == random_and_wired(s));
    let cause0 = s.cause_with_l1_code(ex);
    let cause1 = if !entering {
        cause0
    } else if s.branch_delay_slot_active is None {
        cause0.spec_insert(Cause::BRANCH_DELAY_1)
    } else {
        cause0.spec_remove(Cause::BRANCH_DELAY_1)
    };
    let (s2, cause2) = s1.l1_specific_handling(ex, cause1);
    match ex {
        L1Exception::TlbModified(addr) | L1Exception::TlbFetchLoadRefill(addr)
        | L1Exception::TlbStoreRefill(addr) | L1Exception::TlbFetchLoadInvalid(addr)
        | L1Exception::TlbStoreInvalid(addr) => {
            lemma_write_cop0_keeps_random(s1, Register::BadVAddr.code(), addr);
            let sb = s1.write_cop0(Register::BadVAddr.code(), addr);
            let context = sb.read_cop0_direct(Register::Context.code());
            let entry_hi = sb.read_cop0_direct(Register::EntryHi.code());
            let cv = crate::cpu::cop0::spec_context_from_parts(
                crate::cpu::cop0::Context::spec_get_pte_base(context),
                addr >> 13u32,
            );
            lemma_write_cop0_keeps_random(sb, Register::Context.code(), cv);
            let sc = sb.write_cop0(Register::Context.code(), cv);
            lemma_write_cop0_keeps_random(
                sc,
                Register::EntryHi.code(),
                crate::cpu::cop0::spec_entry_hi_from_parts(
                    addr >> 13u32,
                    crate::cpu::cop0::EntryHi::spec_get_asid(entry_hi),
                ),
            );
        },
        L1Exception::AddressErrorStore(addr) | L1Exception::AddressErrorFetchLoad(addr) => {
            lemma_write_cop0_keeps_random(s1, Register::BadVAddr.code(), addr);
        },
        _ => {},
    }
    assert(s2.wf() && random_and_wired(s2) == random_and_wired(s));
    law_cop0_keeps_what_is_stored(s2, Register::Cause.code(), cause2.bits, random);
}

proof fn lemma_locate_keeps_random(s: EEState, v_addr: u32, size: int, load: bool)
    requires
        s.wf(),
    ensures
        random_and_wired(s.locate(v_addr, size, load).0) == random_and_wired(s),
{
    if !s.may_access(v_addr) {
        if load {
            lemma_throw_l1_keeps_random(s, L1Exception::AddressErrorFetchLoad(v_addr));
        } else {
            lemma_throw_l1_keeps_random(s, L1Exception::AddressErrorStore(v_addr));
        }
    } else if EEState::is_unmapped(v_addr) {
    } else if !crate::memory::mmu::page_mask_is_legal(s.mmu.page_mask) {
    } else {
        match s.mmu.translate_address(v_addr, load) {
            MmuAddress::Exception(e) => {
                lemma_throw_l1_keeps_random(s, e);
            },
            _ => {},
        }
    }
}

proof fn lemma_plain_actions_keep_random(s: EEState, action: EEAction, word: u32)
    requires
        s.wf(),
    ensures
        match action {
            EEAction::Add | EEAction::Addi | EEAction::Addiu | EEAction::Addu | EEAction::And
            | EEAction::Andi | EEAction::Daddu | EEAction::Div | EEAction::Divu | EEAction::Movn
            | EEAction::Mult | EEAction::Or | EEAction::Ori | EEAction::Sll | EEAction::Slt
            | EEAction::Slti | EEAction::Sltiu | EEAction::Sltu | EEAction::Sra | EEAction::Srl
            | EEAction::Subu | EEAction::Lui | EEAction::Mfhi | EEAction::Mflo | EEAction::Nop
            | EEAction::Beq | EEAction::Beql | EEAction::Bgez | EEAction::Bgtz | EEAction::Blez
            | EEAction::Bltz | EEAction::Bne | EEAction::Bnel | EEAction::BreakI | EEAction::J
            | EEAction::Jal | EEAction::Jalr | EEAction::Jr => random_and_wired(
                effect(s, action, word),
            ) == random_and_wired(s),
            _ => true,
        },
{
    lemma_field_ranges(word);
    match action {
        EEAction::Add | EEAction::Addi => {
            lemma_throw_l1_keeps_random(s, L1Exception::Overflow);
        },
        EEAction::BreakI => {
            lemma_throw_l1_keeps_random(s, L1Exception::Break);
        },
        EEAction::Jalr | EEAction::Jr => {
            let dest = s.read_register(source_of(word)) as u32;
            lemma_throw_l1_keeps_random(s, L1Exception::AddressErrorFetchLoad(dest));
        },
        _ => {},
    }
}

proof fn lemma_loads_keep_random(s: EEState, action: EEAction, word: u32)
    requires
        s.wf(),
    ensures
        match action {
            EEAction::Lb | EEAction::Lbu | EEAction::Ld | EEAction::Lhu | EEAction::Lw => random_and_wired(
                effect(s, action, word),
            ) == random_and_wired(s),
            _ => true,
        },
{
    lemma_field_ranges(word);
    let v_addr = crate::utils::spec_v_addr_with_offset(s, word);
    let size: int = match action {
        EEAction::Ld => 8,
        EEAction::Lhu => 2,
        EEAction::Lw => 4,
        _ => 1,
    };
    let misaligned = match action {
        EEAction::Ld => v_addr & 0b111 != 0,
        EEAction::Lhu => v_addr & 0b1 != 0,
        EEAction::Lw => v_addr & 0b11 != 0,
        _ => false,
    };
    let is_load = action == EEAction::Lb || action == EEAction::Lbu || action == EEAction::Ld
        || action == EEAction::Lhu || action == EEAction::Lw;
    if !is_load {
    } else if misaligned {
        lemma_throw_l1_keeps_random(s, L1Exception::AddressErrorFetchLoad(v_addr));
    } else {
        lemma_locate_keeps_random(s, v_addr, size, true);
        let (s1, bytes) = s.read_memory(v_addr, size);
        assert(s1 == s.locate(v_addr, size, true).0);
        assert(random_and_wired(s1) == random_and_wired(s));
        assert forall|value: u64|
            random_and_wired(#[trigger] s1.write_register(target_of(word), value))
                == random_and_wired(s1) by {}
    }
}

proof fn lemma_stores_keep_random(s: EEState, action: EEAction, word: u32)
    requires
        s.wf(),
    ensures
        match action {
            EEAction::Sb | EEAction::Sw | EEAction::Sd | EEAction::Swc1 => random_and_wired(
                effect(s, action, word),
            ) == random_and_wired(s),
            _ => true,
        },
{
    lemma_field_ranges(word);
    lemma_auto_spec_u32_to_from_le_bytes();
    lemma_auto_spec_u64_to_from_le_bytes();
    let v_addr = crate::utils::spec_v_addr_with_offset(s, word);
    let size: int = match action {
        EEAction::Sd => 8,
        EEAction::Sb => 1,
        _ => 4,
    };
    let misaligned = match action {
        EEAction::Sd => v_addr & 0b111 != 0,
        EEAction::Sw | EEAction::Swc1 => v_addr & 0b11 != 0,
        _ => false,
    };
    let is_store = action == EEAction::Sb || action == EEAction::Sw || action == EEAction::Sd
        || action == EEAction::Swc1;
    if !is_store {
    } else if misaligned {
        lemma_throw_l1_keeps_random(s, L1Exception::AddressErrorStore(v_addr));
    } else {
        lemma_locate_keeps_random(s, v_addr, size, false);
    }
}

proof fn lemma_cop0_ops_keep_random(s: EEState, action: EEAction, word: u32)
    requires
        s.wf(),
        !moves_random_or_wired(OpCode { raw: word, action, ..OpCode::spec_default() }),
    ensures
        match action {
            EEAction::Mfc0 | EEAction::Mtc0 | EEAction::Tlbwi | EEAction::Tlbwr | EEAction::Ixltg => random_and_wired(
                effect(s, action, word),
            ) == random_and_wired(s),
            _ => true,
        },
{
    lemma_field_ranges(word);
    if !crate::cpu::ops::cop0::cop0_is_usable(s) {
        lemma_throw_l1_keeps_random(s, L1Exception::CoprocessorUnusable(0));
    } else if action == EEAction::Mtc0 {
        lemma_write_cop0_keeps_random(
            s,
            destination_of(word),
            s.read_register(target_of(word)) as u32,
        );
    }
}

/// But for a move to Random or to Wired, an instruction leaves both as
/// they were.
pub proof fn law_effect_keeps_random(s: EEState, action: EEAction, word: u32)
    requires
        s.wf(),
        !moves_random_or_wired(OpCode { raw: word, action, ..OpCode::spec_default() }),
    ensures
        random_and_wired(effect(s, action, word)) == random_and_wired(s),
{
    lemma_plain_actions_keep_random(s, action, word);
    lemma_loads_keep_random(s, action, word);
    lemma_stores_keep_random(s, action, word);
    lemma_cop0_ops_keep_random(s, action, word);
}

/// But for a move to Random or to Wired, `execute` leaves both as they
/// were.
pub proof fn law_execute_keeps_random(s: EEState, op: OpCode)
    requires
        s.wf(),
        !moves_random_or_wired(op),
    ensures
        random_and_wired(s.execute(op)) == random_and_wired(s),
{
    let (s1, result) = match s.branch_delay_slot_active {
        Some(b) => branch_effect(EEState { branch_delay_slot_active: None, ..s }, b),
        None => (s, BranchResult { bits: 0 }),
    };
    assert(s1.wf() && random_and_wired(s1) == random_and_wired(s));
    law_effect_keeps_random(s1, op.action, op.raw);
}

/// Whether Random lies between Wired, as the MMU holds it, and the last
/// line of the TLB.
pub open spec fn random_in_range(s: EEState) -> bool {
    s.mmu.wired <= s.read_cop0_direct(Register::Random.code()) <= RANDOM_MAX
}

/// Random lies between Wired and the last line of the TLB after every
/// cycle, whatever the cycle did, if only Wired, as the MMU holds it, names
/// a line of the TLB then.
pub proof fn law_random_stays_in_range(s: EEState)
    requires
        s.wf(),
        s.cycle().mmu.wired <= RANDOM_MAX,
    ensures
        random_in_range(s.cycle()),
{
    law_cycle_keeps_wf(s);
    let t = s.cycle_before_random();
    law_cop0_keeps_what_is_stored(t, Register::Random.code(), t.next_random(), 0);
}

/// Whether the cycle that starts at `s` issues a move to Random or to
/// Wired: as the first of the two words that it fetches, or as the second
/// where that one issues too.
pub open spec fn issues_move_to_random_or_wired(s: EEState) -> bool {
    let (fetched, words) = s.tick_timer().fetch();
    match words {
        Some((first, second)) => moves_random_or_wired(spec_process_instruction(first)) || (
        fetched.issues_both(first, second) && moves_random_or_wired(
            spec_process_instruction(second),
        )),
        None => false,
    }
}

/// Random steps down by one in every cycle and starts again at the last
/// line of the TLB once it has reached Wired: so it does from every state
/// in which it lies between Wired and the last line, in a cycle that issues
/// no move to Random or to Wired. Such a cycle leaves Wired as it was.
pub proof fn law_random_steps_down(s: EEState)
    requires
        s.wf(),
        random_in_range(s),
        !issues_move_to_random_or_wired(s),
    ensures
        s.cycle().mmu.wired == s.mmu.wired,
        s.cycle().read_cop0_direct(Register::Random.code()) == if s.read_cop0_direct(
            Register::Random.code(),
        ) == s.mmu.wired {
            RANDOM_MAX as int
        } else {
            s.read_cop0_direct(Register::Random.code()) - 1
        },
{
    let random = Register::Random.code();
    lemma_register_writes_keep_wf(s);
    let count = vstd::wrapping::u32_specs::wrapping_add(
        s.read_cop0_direct(Register::Count.code()),
        1,
    );
    law_cop0_keeps_what_is_stored(s, Register::Count.code(), count, random);
    let s_count = s.write_cop0_direct(Register::Count.code(), count);
    lemma_throw_l1_keeps_random(s_count, L1Exception::Interrupt(7));
    let s0 = s.tick_timer();
    assert(s0.wf() && random_and_wired(s0) == random_and_wired(s));
    lemma_memory_keeps_wf(s0, s0.pc_register, 8, true, Seq::empty());
    lemma_locate_keeps_random(s0, s0.pc_register, 8, true);
    let (s1, words) = s0.fetch();
    assert(s1.wf() && random_and_wired(s1) == random_and_wired(s));
    let s2 = match words {
        Some((first, second)) => {
            let first_op = spec_process_instruction(first);
            let second_op = spec_process_instruction(second);
            law_execute_keeps_wf(s1, first_op);
            law_execute_keeps_random(s1, first_op);
            if s1.issues_both(first, second) {
                law_execute_keeps_wf(s1.execute(first_op), second_op);
                law_execute_keeps_random(s1.execute(first_op), second_op);
            }
            s1.issue(first, second)
        },
        None => s1,
    };
    assert(s2.wf() && random_and_wired(s2) == random_and_wired(s));
    let t = EEState { excepted_this_cycle: false, ..s2 };
    assert(t == s.cycle_before_random());
    law_cop0_keeps_what_is_stored(t, random, t.next_random(), 0);
}

} // verus!
