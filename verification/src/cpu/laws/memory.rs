//! The laws of the address space: where the BIOS is read, and how the
//! unmapped segments translate.

use crate::cpu::laws::registers::lemma_splice;
use crate::cpu::state::{EEState, installed_image};
use crate::memory::constants::{BIOS_LEN, BIOS_PHYSICAL, BIOS_START, KSEG0_START, KSEG1_START};
use crate::memory::mmu::MmuAddress;
use vstd::prelude::*;

verus! {

/// Every byte of the BIOS is read, by a kernel, at its offset from the start
/// of the BIOS in kseg1, and is the byte of the image that was installed:
/// that of the image given where it has one there, zero beyond its end.
pub proof fn law_bios_is_read_where_it_is_mounted(s: EEState, image: Seq<u8>, offset: u32)
    requires
        offset < BIOS_LEN,
        s.get_current_privilege().spec_is_kernel(),
    ensures
        installed_image(image).len() == BIOS_LEN,
        installed_image(image)[offset as int] == if offset < image.len() {
            image[offset as int]
        } else {
            0
        },
        s.set_bios(image).read_memory((BIOS_START + offset) as u32, 1) == (
            s.set_bios(image),
            Some(seq![installed_image(image)[offset as int]]),
        ),
{
    let s1 = s.set_bios(image);
    let v_addr = (BIOS_START + offset) as u32;
    assert(s1.get_current_privilege() == s.get_current_privilege());
    assert(s1.may_access(v_addr));
    assert(EEState::is_unmapped(v_addr));
    assert(EEState::unmapped_address(v_addr) == BIOS_PHYSICAL + offset);
    let a = MmuAddress::Address((BIOS_PHYSICAL + offset) as u32);
    assert(s1.translate_virtual_address(v_addr, true) == (s1, Some(a)));
    assert(s1.memory.backs(a, 1));
    assert(s1.memory.read(a, 1) =~= seq![installed_image(image)[offset as int]]);
}

/// An address in kseg0 and the address at the same offset in kseg1 both lead
/// to the physical address that is their offset, for a load as for a store,
/// and the processor stays as it is.
pub proof fn law_kseg_maps_straight(s: EEState, offset: u32, load: bool)
    requires
        offset <= 0x1FFF_FFFF,
    ensures
        s.translate_virtual_address((KSEG0_START + offset) as u32, load) == (
            s,
            Some(MmuAddress::Address(offset)),
        ),
        s.translate_virtual_address((KSEG1_START + offset) as u32, load) == (
            s,
            Some(MmuAddress::Address(offset)),
        ),
{
}

/// What a kernel writes through kseg1 is read back through kseg0, and the
/// other way round: the two segments show the same memory.
pub proof fn law_kseg_memory_keeps_what_is_written(s: EEState, offset: u32, data: Seq<u8>)
    requires
        offset <= 0x1FFF_FFFF,
        s.get_current_privilege().spec_is_kernel(),
        s.memory.backs(MmuAddress::Address(offset), data.len() as int),
    ensures
        s.write_memory((KSEG1_START + offset) as u32, data).read_memory(
            (KSEG0_START + offset) as u32,
            data.len() as int,
        ).1 == Some(data),
        s.write_memory((KSEG0_START + offset) as u32, data).read_memory(
            (KSEG1_START + offset) as u32,
            data.len() as int,
        ).1 == Some(data),
{
    let a = MmuAddress::Address(offset);
    law_kseg_maps_straight(s, offset, false);
    let (which, at) = crate::memory::place_of(a);
    let before = s.memory.store(which);
    lemma_splice(before, at, data);
    let after = s.memory.write(a, data);
    assert(after.store(which) == crate::endian::splice(before, at, data));
    assert(after.backs(a, data.len() as int));
    assert(after.read(a, data.len() as int) == data);
    let s1 = EEState { memory: after, ..s };
    assert(s.write_memory((KSEG1_START + offset) as u32, data) == s1);
    assert(s.write_memory((KSEG0_START + offset) as u32, data) == s1);
    law_kseg_maps_straight(s1, offset, true);
    assert(s1.get_current_privilege() == s.get_current_privilege());
}

} // verus!
