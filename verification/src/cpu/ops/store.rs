//! Stores to memory.

use crate::cpu::EECore;
use crate::cpu::exceptions::L1Exception;
use crate::cpu::pipeline::OpCode;
use crate::cpu::state::EEState;
use crate::endian::{write_u32, write_u64};
use crate::isa::mips::instruction::{Instruction, target_of};
use crate::utils::{spec_v_addr_with_offset, v_addr_with_offset};
use vstd::bytes::{spec_u32_to_le_bytes, spec_u64_to_le_bytes};
use vstd::prelude::*;

verus! {

/// SB: the byte at rs + offset <- the low byte of rt.
pub open spec fn spec_sb(s: EEState, word: u32) -> EEState {
    s.write_memory(spec_v_addr_with_offset(s, word), seq![s.read_register(target_of(word)) as u8])
}

pub fn sb(cpu: &mut EECore, data: &OpCode)
    ensures
        final(cpu)@ == spec_sb(old(cpu)@, data.raw),
{
    let to_store = cpu.read_register(data.ri_get_target()) as u8;
    let v_addr = v_addr_with_offset(cpu, data);

    if let Some(loc) = cpu.read_memory_mut(v_addr, 1) {
        loc[0] = to_store;
        proof {
            assert(loc@ =~= seq![to_store]);
        }
    }
}

/// SW: the four bytes at rs + offset <- the low 32 bits of rt. An address
/// that is no multiple of four raises an address error.
pub open spec fn spec_sw(s: EEState, word: u32) -> EEState {
    let v_addr = spec_v_addr_with_offset(s, word);
    if v_addr & 0b11 != 0 {
        s.throw_l1_exception(L1Exception::AddressErrorStore(v_addr))
    } else {
        s.write_memory(v_addr, spec_u32_to_le_bytes(s.read_register(target_of(word)) as u32))
    }
}

pub fn sw(cpu: &mut EECore, data: &OpCode)
    ensures
        final(cpu)@ == spec_sw(old(cpu)@, data.raw),
{
    let to_store = cpu.read_register(data.ri_get_target()) as u32;
    let v_addr = v_addr_with_offset(cpu, data);

    if v_addr & 0b11 != 0 {
        cpu.throw_l1_exception(L1Exception::AddressErrorStore(v_addr));
        return ;
    }
    proof {
        vstd::bytes::lemma_auto_spec_u32_to_from_le_bytes();
    }
    if let Some(loc) = cpu.read_memory_mut(v_addr, 4) {
        write_u32(loc, to_store);
        proof {
            assert(loc@ =~= spec_u32_to_le_bytes(to_store));
        }
    }
}

/// SD: the eight bytes at rs + offset <- rt. An address that is no
/// multiple of eight raises an address error.
pub open spec fn spec_sd(s: EEState, word: u32) -> EEState {
    let v_addr = spec_v_addr_with_offset(s, word);
    if v_addr & 0b111 != 0 {
        s.throw_l1_exception(L1Exception::AddressErrorStore(v_addr))
    } else {
        s.write_memory(v_addr, spec_u64_to_le_bytes(s.read_register(target_of(word))))
    }
}

pub fn sd(cpu: &mut EECore, data: &OpCode)
    ensures
        final(cpu)@ == spec_sd(old(cpu)@, data.raw),
{
    let to_store = cpu.read_register(data.ri_get_target());
    let v_addr = v_addr_with_offset(cpu, data);

    if v_addr & 0b111 != 0 {
        cpu.throw_l1_exception(L1Exception::AddressErrorStore(v_addr));
        return ;
    }
    proof {
        vstd::bytes::lemma_auto_spec_u64_to_from_le_bytes();
    }
    if let Some(loc) = cpu.read_memory_mut(v_addr, 8) {
        write_u64(loc, to_store);
        proof {
            assert(loc@ =~= spec_u64_to_le_bytes(to_store));
        }
    }
}

} // verus!
