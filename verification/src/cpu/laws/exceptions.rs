//! The laws of the exceptions: the overflow trap, and what a level 1
//! exception leaves to be seen.

use crate::cpu::cop0::{Cause, Register, Status};
use crate::cpu::exceptions::L1Exception;
use crate::cpu::laws::registers::law_cop0_keeps_what_is_stored;
use crate::cpu::laws::wellformed::{
    lemma_register_writes_keep_wf, lemma_throw_l1_keeps_wf, lemma_write_cop0_keeps_wf,
};
use crate::cpu::ops::arithmetic::{fits_i32, spec_add, spec_addi};
use crate::cpu::state::EEState;
use crate::isa::mips::instruction::{immediate_signed_of, source_of, target_of};
use vstd::prelude::*;

verus! {

/// ADD and ADDI trap on overflow: where the sum of the operands does not
/// fit 32 bits, no general register changes, the destination among them,
/// and the exception is noted for the cycle.
pub proof fn law_overflow_traps(s: EEState, word: u32)
    requires
        s.wf(),
    ensures
        !fits_i32(
            (s.read_register(source_of(word)) as i32) + (s.read_register(target_of(word)) as i32),
        ) ==> spec_add(s, word).register_file == s.register_file && spec_add(
            s,
            word,
        ).excepted_this_cycle && spec_add(s, word) == s.throw_l1_exception(L1Exception::Overflow),
        !fits_i32((s.read_register(source_of(word)) as i32) + (immediate_signed_of(word) as i32))
            ==> spec_addi(s, word).register_file == s.register_file && spec_addi(
            s,
            word,
        ).excepted_this_cycle && spec_addi(s, word) == s.throw_l1_exception(
            L1Exception::Overflow,
        ),
{
    lemma_throw_l1_keeps_wf(s, L1Exception::Overflow);
}

proof fn lemma_cause_keeps_code(old_cause: u32, code: u32, first: u32, second: u32)
    by (bit_vector)
    requires
        code <= 13,
        first & 0x0000_007C == 0,
        second & 0x0000_007C == 0,
    ensures
        ({
            let with_code = ((old_cause & !0x0000_007Cu32) | (code << 2)) & 0xF007_8C7Cu32;
            &&& (with_code & 0x0000_007C) >> 2 == code
            &&& ((with_code | (first & 0xF007_8C7Cu32)) & 0x0000_007C) >> 2 == code
            &&& ((with_code & !first) & 0x0000_007C) >> 2 == code
            &&& (((with_code | (first & 0xF007_8C7Cu32)) | (second & 0xF007_8C7Cu32)) & 0x0000_007C)
                >> 2 == code
            &&& (((with_code & !first) | (second & 0xF007_8C7Cu32)) & 0x0000_007C) >> 2 == code
            &&& ((with_code | (second & 0xF007_8C7Cu32)) & 0x0000_007C) >> 2 == code
            &&& ((((with_code | (first & 0xF007_8C7Cu32)) & !0x3000_0000u32) | second) & 0x0000_007C)
                >> 2 == code
            &&& ((((with_code & !first) & !0x3000_0000u32) | second) & 0x0000_007C) >> 2 == code
            &&& (((with_code & !0x3000_0000u32) | second) & 0x0000_007C) >> 2 == code
        }),
{
}

proof fn lemma_exception_flags(status: u32, shift: u32, cop: u32)
    by (bit_vector)
    requires
        8 <= shift < 16,
        cop < 256,
    ensures
        0u32 & 0x0000_007C == 0,
        ((status & 0xF0C7_9C1Fu32) | (0x2u32 & 0xF0C7_9C1Fu32)) & 0xF0C7_9C1Fu32 & 0x2 == 0x2,
        ((status & 0xF0C7_9C1Fu32) | (0x2u32 & 0xF0C7_9C1Fu32)) & 0xF0C7_9C1Fu32 & 0x4 == status
            & 0x4,
        (1u32 << shift) & 0x0000_007C == 0,
        (cop << 28) & 0x0000_007C == 0,
        0x8000_0000u32 & 0x0000_007C == 0,
        (status & 0xF0C7_9C1Fu32) & 0x2 == 0x2 <==> status & 0x2 == 0x2,
        (status & 0xF0C7_9C1Fu32) & 0x4 == 0x4 <==> status & 0x4 == 0x4,
{
}

/// What a level 1 exception leaves to be seen: the exception is noted for
/// the cycle, the processor is at an exception level, Cause shows the code
/// of the exception and, where a coprocessor was unusable, its number,
/// and the program counter is at the vector.
pub proof fn law_l1_exception_is_visible(s: EEState, ex: L1Exception)
    requires
        s.wf(),
        ex.wf(),
    ensures
        s.throw_l1_exception(ex).excepted_this_cycle,
        s.throw_l1_exception(ex).in_exception(),
        (s.throw_l1_exception(ex).read_cop0_direct(Register::Cause.code())
            & Cause::EXCEPTION_CODE_L1) >> 2u32 == ex.code(),
        ex matches L1Exception::CoprocessorUnusable(c) ==> (s.throw_l1_exception(
            ex,
        ).read_cop0_direct(Register::Cause.code()) & Cause::COPROCESSOR_NUMBER) >> 28u32 == c,
        s.throw_l1_exception(ex).pc_register == ex.vector(s.status()),
{
    let status = s.status();
    let raw_status = s.read_cop0_direct(Register::Status.code());
    let entering = !status.spec_contains(Status::EXCEPTION_LEVEL);
    let s0 = EEState { excepted_this_cycle: true, ..s };
    lemma_register_writes_keep_wf(s0);
    let sa = s0.write_cop0_direct(Register::EPC.code(), s.saved_address());
    lemma_register_writes_keep_wf(sa);
    let entered = status.spec_insert(Status::EXCEPTION_LEVEL).bits;
    law_cop0_keeps_what_is_stored(s0, Register::EPC.code(), s.saved_address(), Register::Status.code());
    law_cop0_keeps_what_is_stored(sa, Register::Status.code(), entered, 0);
    let s1 = if entering {
        sa.write_cop0_direct(Register::Status.code(), entered)
    } else {
        s0
    };
    let shift: u32 = match ex {
        L1Exception::Interrupt(n) => (n + 8) as u32,
        _ => 8,
    };
    let cop: u32 = match ex {
        L1Exception::CoprocessorUnusable(c) => c as u32,
        _ => 0,
    };
    lemma_exception_flags(raw_status, shift, cop);
    assert(s1.wf());
    let status1 = s1.read_cop0_direct(Register::Status.code());
    assert(Status::spec_from_bits_truncate(status1).spec_contains(Status::EXCEPTION_LEVEL));
    let cause0 = s.cause_with_l1_code(ex);
    let cause1 = if !entering {
        cause0
    } else if s.branch_delay_slot_active is None {
        cause0.spec_insert(Cause::BRANCH_DELAY_1)
    } else {
        cause0.spec_remove(Cause::BRANCH_DELAY_1)
    };
    let (s2, cause2) = s1.l1_specific_handling(ex, cause1);
    let second: u32 = match ex {
        L1Exception::Interrupt(n) => 1u32 << ((n + 8) as u32),
        L1Exception::CoprocessorUnusable(c) => (c as u32) << 28u32,
        _ => 0,
    };
    lemma_cause_keeps_code(
        s.read_cop0_direct(Register::Cause.code()),
        ex.code() as u32,
        Cause::BRANCH_DELAY_1,
        second,
    );
    assert((cause2.bits & Cause::EXCEPTION_CODE_L1) >> 2u32 == ex.code()) by {
        assert(0u32 & 0xF007_8C7Cu32 == 0 && (cause1.bits | 0) == cause1.bits) by (bit_vector);
    }
    if let L1Exception::CoprocessorUnusable(c) = ex {
        cause1.law_coprocessor_number_is_written(c);
    }
    lemma_l1_specific_keeps_status(s1, ex, cause1);
    assert(s2.wf() && s2.read_cop0_direct(Register::Status.code()) == status1);
    law_cop0_keeps_what_is_stored(s2, Register::Cause.code(), cause2.bits, Register::Status.code());
    let s3 = s2.write_cop0_direct(Register::Cause.code(), cause2.bits);
    assert(s3.read_cop0_direct(Register::Status.code()) == status1);
    assert(s.throw_l1_exception(ex) == (EEState { pc_register: ex.vector(status), ..s3 }));
}

/// What the kind of a level 1 exception adds leaves the Status register as
/// it was, and the processor well formed.
proof fn lemma_l1_specific_keeps_status(s: EEState, ex: L1Exception, cause: Cause)
    requires
        s.wf(),
    ensures
        s.l1_specific_handling(ex, cause).0.wf(),
        s.l1_specific_handling(ex, cause).0.read_cop0_direct(Register::Status.code())
            == s.read_cop0_direct(Register::Status.code()),
{
    match ex {
        L1Exception::TlbModified(addr) | L1Exception::TlbFetchLoadRefill(addr)
        | L1Exception::TlbStoreRefill(addr) | L1Exception::TlbFetchLoadInvalid(addr)
        | L1Exception::TlbStoreInvalid(addr) => {
            lemma_write_cop0_keeps_status(s, Register::BadVAddr, addr);
            let sb = s.write_cop0(Register::BadVAddr.code(), addr);
            let context = sb.read_cop0_direct(Register::Context.code());
            let entry_hi = sb.read_cop0_direct(Register::EntryHi.code());
            let cv = crate::cpu::cop0::spec_context_from_parts(
                crate::cpu::cop0::Context::spec_get_pte_base(context),
                addr >> 13u32,
            );
            lemma_write_cop0_keeps_status(sb, Register::Context, cv);
            let sc = sb.write_cop0(Register::Context.code(), cv);
            lemma_write_cop0_keeps_status(
                sc,
                Register::EntryHi,
                crate::cpu::cop0::spec_entry_hi_from_parts(
                    addr >> 13u32,
                    crate::cpu::cop0::EntryHi::spec_get_asid(entry_hi),
                ),
            );
        },
        L1Exception::AddressErrorStore(addr) | L1Exception::AddressErrorFetchLoad(addr) => {
            lemma_write_cop0_keeps_status(s, Register::BadVAddr, addr);
        },
        _ => {},
    }
}

/// A write to BadVAddr, Context or EntryHi leaves the Status register as it
/// was.
proof fn lemma_write_cop0_keeps_status(s: EEState, register: Register, value: u32)
    requires
        s.wf(),
        register == Register::BadVAddr || register == Register::Context || register
            == Register::EntryHi,
    ensures
        s.write_cop0(register.code(), value).wf(),
        s.write_cop0(register.code(), value).read_cop0_direct(Register::Status.code())
            == s.read_cop0_direct(Register::Status.code()),
{
    lemma_write_cop0_keeps_wf(s, register.code(), value);
    law_cop0_keeps_what_is_stored(
        s,
        register.code(),
        s.masked_cop0_value(register.code(), value),
        Register::Status.code(),
    );
}

} // verus!
