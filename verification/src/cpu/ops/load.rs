//! Loads from memory, and moves into the general registers.

use crate::cpu::EECore;
use crate::cpu::exceptions::L1Exception;
use crate::cpu::pipeline::OpCode;
use crate::cpu::state::EEState;
use crate::endian::{read_u16, read_u32, read_u64};
use crate::isa::mips::instruction::{destination_of, immediate_of, Instruction, target_of};
use crate::utils::{SignExtend, spec_v_addr_with_offset, v_addr_with_offset, ZeroExtend};
use vstd::bytes::{spec_u16_from_le_bytes, spec_u32_from_le_bytes, spec_u64_from_le_bytes};
use vstd::prelude::*;

verus! {

/// LB: rt <- the byte at rs + offset, sign-extended.
pub open spec fn spec_lb(s: EEState, word: u32) -> EEState {
    let (s1, bytes) = s.read_memory(spec_v_addr_with_offset(s, word), 1);
    match bytes {
        Some(b) => s1.write_register(target_of(word), (b[0] as i8) as u64),
        None => s1,
    }
}

pub fn lb(cpu: &mut EECore, data: &OpCode)
    ensures
        final(cpu)@ == spec_lb(old(cpu)@, data.raw),
{
    let v_addr = v_addr_with_offset(cpu, data);

    let loc = match cpu.read_memory(v_addr, 1) {
        Some(buf) => Some(buf[0]),
        None => None,
    };

    if let Some(loc) = loc {
        cpu.write_register(data.ri_get_target(), loc.s_ext());
    }
}

/// LBU: rt <- the byte at rs + offset, zero-extended.
pub open spec fn spec_lbu(s: EEState, word: u32) -> EEState {
    let (s1, bytes) = s.read_memory(spec_v_addr_with_offset(s, word), 1);
    match bytes {
        Some(b) => s1.write_register(target_of(word), b[0] as u64),
        None => s1,
    }
}

pub fn lbu(cpu: &mut EECore, data: &OpCode)
    ensures
        final(cpu)@ == spec_lbu(old(cpu)@, data.raw),
{
    let v_addr = v_addr_with_offset(cpu, data);

    let loc = match cpu.read_memory(v_addr, 1) {
        Some(buf) => Some(buf[0]),
        None => None,
    };

    if let Some(loc) = loc {
        cpu.write_register(data.ri_get_target(), loc.z_ext());
    }
}

/// LD: rt <- the eight bytes at rs + offset. An address that is no
/// multiple of eight raises an address error.
pub open spec fn spec_ld(s: EEState, word: u32) -> EEState {
    let v_addr = spec_v_addr_with_offset(s, word);
    if v_addr & 0b111 != 0 {
        s.throw_l1_exception(L1Exception::AddressErrorFetchLoad(v_addr))
    } else {
        let (s1, bytes) = s.read_memory(v_addr, 8);
        match bytes {
            Some(b) => s1.write_register(target_of(word), spec_u64_from_le_bytes(b)),
            None => s1,
        }
    }
}

pub fn ld(cpu: &mut EECore, data: &OpCode)
    ensures
        final(cpu)@ == spec_ld(old(cpu)@, data.raw),
{
    let v_addr = v_addr_with_offset(cpu, data);

    if v_addr & 0b111 != 0 {
        cpu.throw_l1_exception(L1Exception::AddressErrorFetchLoad(v_addr));
        return ;
    }
    let loc = match cpu.read_memory(v_addr, 8) {
        Some(buf) => {
            proof {
                assert(buf@.subrange(0, 8) =~= buf@);
            }
            Some(read_u64(buf))
        },
        None => None,
    };

    if let Some(loc) = loc {
        cpu.write_register(data.ri_get_target(), loc);
    }
}

/// LHU: rt <- the two bytes at rs + offset, zero-extended. An odd address
/// raises an address error.
pub open spec fn spec_lhu(s: EEState, word: u32) -> EEState {
    let v_addr = spec_v_addr_with_offset(s, word);
    if v_addr & 0b1 != 0 {
        s.throw_l1_exception(L1Exception::AddressErrorFetchLoad(v_addr))
    } else {
        let (s1, bytes) = s.read_memory(v_addr, 2);
        match bytes {
            Some(b) => s1.write_register(target_of(word), spec_u16_from_le_bytes(b) as u64),
            None => s1,
        }
    }
}

pub fn lhu(cpu: &mut EECore, data: &OpCode)
    ensures
        final(cpu)@ == spec_lhu(old(cpu)@, data.raw),
{
    let v_addr = v_addr_with_offset(cpu, data);

    if v_addr & 0b1 != 0 {
        cpu.throw_l1_exception(L1Exception::AddressErrorFetchLoad(v_addr));
        return ;
    }
    let loc = match cpu.read_memory(v_addr, 2) {
        Some(buf) => {
            proof {
                assert(buf@.subrange(0, 2) =~= buf@);
            }
            Some(read_u16(buf))
        },
        None => None,
    };

    if let Some(loc) = loc {
        cpu.write_register(data.ri_get_target(), loc.z_ext());
    }
}

/// LW: rt <- the four bytes at rs + offset, sign-extended. An address that
/// is no multiple of four raises an address error.
pub open spec fn spec_lw(s: EEState, word: u32) -> EEState {
    let v_addr = spec_v_addr_with_offset(s, word);
    if v_addr & 0b11 != 0 {
        s.throw_l1_exception(L1Exception::AddressErrorFetchLoad(v_addr))
    } else {
        let (s1, bytes) = s.read_memory(v_addr, 4);
        match bytes {
            Some(b) => s1.write_register(target_of(word), (spec_u32_from_le_bytes(b) as i32) as u64),
            None => s1,
        }
    }
}

pub fn lw(cpu: &mut EECore, data: &OpCode)
    ensures
        final(cpu)@ == spec_lw(old(cpu)@, data.raw),
{
    let v_addr = v_addr_with_offset(cpu, data);

    if v_addr & 0b11 != 0 {
        cpu.throw_l1_exception(L1Exception::AddressErrorFetchLoad(v_addr));
        return ;
    }
    let loc = match cpu.read_memory(v_addr, 4) {
        Some(buf) => {
            proof {
                assert(buf@.subrange(0, 4) =~= buf@);
            }
            Some(read_u32(buf))
        },
        None => None,
    };

    if let Some(loc) = loc {
        cpu.write_register(data.ri_get_target(), loc.s_ext());
    }
}

/// LUI: rt <- the immediate, sign-extended, shifted left by 16 bits.
pub open spec fn spec_lui(s: EEState, word: u32) -> EEState {
    s.write_register(target_of(word), ((immediate_of(word) as i16) as u64) << 16u32)
}

pub fn lui(cpu: &mut EECore, data: &OpCode)
    ensures
        final(cpu)@ == spec_lui(old(cpu)@, data.raw),
{
    let v: u64 = data.i_get_immediate().s_ext();
    cpu.write_register(data.ri_get_target(), v << 16u32);
}

/// MFHI: rd <- HI.
pub open spec fn spec_mfhi(s: EEState, word: u32) -> EEState {
    s.write_register(destination_of(word), s.read_hi())
}

pub fn mfhi(cpu: &mut EECore, data: &OpCode)
    ensures
        final(cpu)@ == spec_mfhi(old(cpu)@, data.raw),
{
    let v = cpu.read_hi();
    cpu.write_register(data.r_get_destination(), v);
}

/// MFLO: rd <- LO.
pub open spec fn spec_mflo(s: EEState, word: u32) -> EEState {
    s.write_register(destination_of(word), s.read_lo())
}

pub fn mflo(cpu: &mut EECore, data: &OpCode)
    ensures
        final(cpu)@ == spec_mflo(old(cpu)@, data.raw),
{
    let v = cpu.read_lo();
    cpu.write_register(data.r_get_destination(), v);
}

} // verus!
