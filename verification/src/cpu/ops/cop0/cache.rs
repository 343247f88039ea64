//! The cache operations. The caches are not modelled: an operation is
//! accepted and changes nothing of them.

use crate::cpu::EECore;
use crate::cpu::cop0::Register;
use crate::cpu::ops::cop0::{cop0_usable, spec_cop0_usable};
use crate::cpu::pipeline::OpCode;
use crate::cpu::state::EEState;
use crate::utils::v_addr_with_offset;
use vstd::prelude::*;

verus! {

/// IXLTG: would read the tag of an instruction cache entry into TagLo.
/// Nothing is read: only the use of COP0 is checked.
pub open spec fn spec_ixltg(s: EEState, word: u32) -> EEState {
    spec_cop0_usable(s).0
}

pub fn ixltg(cpu: &mut EECore, data: &OpCode)
    ensures
        final(cpu)@ == spec_ixltg(old(cpu)@, data.raw),
{
    if !cop0_usable(cpu) {
        return ;
    }
    let _v_addr = v_addr_with_offset(cpu, data);

    let _taglo = cpu.read_cop0(Register::TagLo.to_u8());
}

} // verus!
