//! The operations of COP0: moves to and from its registers, and writes to
//! the TLB.

pub mod cache;

use crate::cpu::EECore;
use crate::cpu::cop0::{Register, Status};
use crate::cpu::exceptions::L1Exception;
use crate::cpu::pipeline::OpCode;
use crate::cpu::state::{EEState, Fault};
use crate::isa::mips::instruction::{destination_of, Instruction, target_of};
use crate::memory::mmu::tlb::TlbLine;
use vstd::prelude::*;

verus! {

/// Whether COP0 may be used: by a kernel always, by anyone else where the
/// status says so.
pub open spec fn cop0_is_usable(s: EEState) -> bool {
    s.status().spec_contains(Status::COP0_USABLE) || s.status().spec_privilege_level().spec_is_kernel()
}

/// Checks that COP0 may be used, and raises "coprocessor unusable" where it
/// may not.
pub open spec fn spec_cop0_usable(s: EEState) -> (EEState, bool) {
    if cop0_is_usable(s) {
        (s, true)
    } else {
        (s.throw_l1_exception(L1Exception::CoprocessorUnusable(0)), false)
    }
}

#[inline(always)]
pub(crate) fn cop0_usable(cpu: &mut EECore) -> (r: bool)
    ensures
        (final(cpu)@, r) == spec_cop0_usable(old(cpu)@),
{
    let status = Status::from_bits_truncate(cpu.read_cop0_direct(Register::Status.to_u8()));
    let non_k_usable = status.contains(Status::COP0_USABLE);

    let valid = non_k_usable || status.privilege_level().is_kernel();

    if !valid {
        cpu.throw_l1_exception(L1Exception::CoprocessorUnusable(0));
    }
    valid
}

/// MFC0: rt <- the COP0 register rd, sign-extended.
pub open spec fn spec_mfc0(s: EEState, word: u32) -> EEState {
    let (s1, usable) = spec_cop0_usable(s);
    if usable {
        s1.write_register(target_of(word), (s1.read_cop0_direct(destination_of(word)) as i32) as u64)
    } else {
        s1
    }
}

pub fn mfc0(cpu: &mut EECore, data: &OpCode)
    ensures
        final(cpu)@ == spec_mfc0(old(cpu)@, data.raw),
{
    if !cop0_usable(cpu) {
        return ;
    }
    let v = cpu.read_cop0(data.r_get_destination()) as i32;
    cpu.write_register(data.ri_get_target(), v as u64);
}

/// MTC0: the COP0 register rd <- the low 32 bits of rt.
pub open spec fn spec_mtc0(s: EEState, word: u32) -> EEState {
    let (s1, usable) = spec_cop0_usable(s);
    if usable {
        s1.write_cop0(destination_of(word), s1.read_register(target_of(word)) as u32)
    } else {
        s1
    }
}

pub fn mtc0(cpu: &mut EECore, data: &OpCode)
    ensures
        final(cpu)@ == spec_mtc0(old(cpu)@, data.raw),
{
    if !cop0_usable(cpu) {
        return ;
    }
    let v = cpu.read_register(data.ri_get_target()) as u32;
    cpu.write_cop0(data.r_get_destination(), v);
}

/// Installs at line `at` of the TLB the line that PageMask, EntryHi,
/// EntryLo0 and EntryLo1 describe. A line that does not exist, or a
/// scratchpad line that is not valid, is a fault, and the TLB stays as it
/// is.
pub open spec fn install_line(s: EEState, at: int) -> EEState {
    let entry_hi = s.read_cop0_direct(Register::EntryHi.code());
    let entry_lo0 = s.read_cop0_direct(Register::EntryLo0.code());
    let entry_lo1 = s.read_cop0_direct(Register::EntryLo1.code());
    if !(0 <= at < 48) {
        EEState { fault: Some(Fault::TlbIndexOutOfRange), ..s }
    } else if !TlbLine::installable(s.mmu.page_mask, entry_hi, entry_lo0, entry_lo1) {
        EEState { fault: Some(Fault::InvalidScratchpadLine), ..s }
    } else {
        EEState { mmu: s.mmu.write_line(at, entry_hi, entry_lo0, entry_lo1), ..s }
    }
}

/// TLBWI: writes the TLB line that Index names.
pub open spec fn spec_tlbwi(s: EEState, word: u32) -> EEState {
    let (s1, usable) = spec_cop0_usable(s);
    if usable {
        install_line(s1, s1.mmu.index as int)
    } else {
        s1
    }
}

pub fn tlbwi(cpu: &mut EECore, _data: &OpCode)
    ensures
        final(cpu)@ == spec_tlbwi(old(cpu)@, _data.raw),
{
    if !cop0_usable(cpu) {
        return ;
    }
    let entry_hi = cpu.read_cop0_direct(Register::EntryHi.to_u8());
    let entry_lo0 = cpu.read_cop0_direct(Register::EntryLo0.to_u8());
    let entry_lo1 = cpu.read_cop0_direct(Register::EntryLo1.to_u8());
    if cpu.mmu.index >= 48 {
        cpu.fault = Some(Fault::TlbIndexOutOfRange);
    } else if !cpu.mmu.can_write_index(entry_hi, entry_lo0, entry_lo1) {
        cpu.fault = Some(Fault::InvalidScratchpadLine);
    } else {
        cpu.mmu.write_index(entry_hi, entry_lo0, entry_lo1);
    }
}

/// TLBWR: writes the TLB line that Random names.
pub open spec fn spec_tlbwr(s: EEState, word: u32) -> EEState {
    let (s1, usable) = spec_cop0_usable(s);
    if usable {
        install_line(s1, s1.read_cop0_direct(Register::Random.code()) as int)
    } else {
        s1
    }
}

pub fn tlbwr(cpu: &mut EECore, _data: &OpCode)
    ensures
        final(cpu)@ == spec_tlbwr(old(cpu)@, _data.raw),
{
    if !cop0_usable(cpu) {
        return ;
    }
    let random = cpu.read_cop0_direct(Register::Random.to_u8());
    let entry_hi = cpu.read_cop0_direct(Register::EntryHi.to_u8());
    let entry_lo0 = cpu.read_cop0_direct(Register::EntryLo0.to_u8());
    let entry_lo1 = cpu.read_cop0_direct(Register::EntryLo1.to_u8());
    if random >= 48 {
        cpu.fault = Some(Fault::TlbIndexOutOfRange);
    } else if !cpu.mmu.can_write_random(random, entry_hi, entry_lo0, entry_lo1) {
        cpu.fault = Some(Fault::InvalidScratchpadLine);
    } else {
        cpu.mmu.write_random(random, entry_hi, entry_lo0, entry_lo1);
    }
}

} // verus!
