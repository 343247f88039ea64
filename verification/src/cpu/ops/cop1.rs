//! The one operation of COP1 that is recognised.

use crate::cpu::EECore;
use crate::cpu::exceptions::L1Exception;
use crate::cpu::pipeline::OpCode;
use crate::cpu::state::EEState;
use crate::endian::write_u32;
use crate::utils::{spec_v_addr_with_offset, v_addr_with_offset};
use vstd::bytes::spec_u32_to_le_bytes;
use vstd::prelude::*;

verus! {

/// SWC1: the four bytes at rs + offset <- zero, the floating-point
/// registers being none. An address that is no multiple of four raises an
/// address error.
pub open spec fn spec_swc1(s: EEState, word: u32) -> EEState {
    let v_addr = spec_v_addr_with_offset(s, word);
    if v_addr & 0b11 != 0 {
        s.throw_l1_exception(L1Exception::AddressErrorStore(v_addr))
    } else {
        s.write_memory(v_addr, spec_u32_to_le_bytes(0))
    }
}

pub fn swc1(cpu: &mut EECore, data: &OpCode)
    ensures
        final(cpu)@ == spec_swc1(old(cpu)@, data.raw),
{
    let to_store: u32 = 0;
    let v_addr = v_addr_with_offset(cpu, data);

    if v_addr & 0b11 != 0 {
        cpu.throw_l1_exception(L1Exception::AddressErrorStore(v_addr));
        return ;
    }
    proof {
        vstd::bytes::lemma_auto_spec_u32_to_from_le_bytes();
    }
    if let Some(loc) = cpu.read_memory_mut(v_addr, 4) {
        write_u32(loc, to_store);
        proof {
            assert(loc@ =~= spec_u32_to_le_bytes(to_store));
        }
    }
}

} // verus!
