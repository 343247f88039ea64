#![allow(unused_imports, unused_variables, unused_mut)]

use byteorder::{ByteOrder, LittleEndian};
use rs2::cpu::constants::{EE_PRID, REGISTER_COUNT};
use rs2::cpu::cop0::{entry_hi_from_parts, entry_lo_from_parts, Cause, Register, Status};
use rs2::cpu::exceptions::vectors::{COMMON, COMMON_B};
use rs2::cpu::ops::branch::PC_HO_BITS;
use rs2::cpu::ops::process_instruction;
use rs2::cpu::EECore;
use rs2::isa::mips::ee::{C0Function, CacheFunction, C0, MF0, MT0};
use rs2::isa::mips::instruction::{
    build_op_immediate, build_op_jump, build_op_register, build_op_register_custom, Instruction,
};
use rs2::isa::mips::{Function as MipsFunction, Opcode as MipsOpcode, RegImmFunction, NOP};
use rs2::memory::constants::{BIOS_START, KSEG0_START, KSEG1_START, SPRAM_START};
use rs2::memory::mmu::{MmuAddress, PAGE_MASK_16KB, PAGE_MASK_4KB};
use rs2::utils::{
    install_and_run_program, install_and_run_program_for, instructions_to_bytes, SignExtend,
    ZeroExtend,
};

#[test]
#[should_panic]
fn crash_on_bad_spram_line() {
    let mut test_ee = EECore::default();

    let hi = entry_hi_from_parts(SPRAM_START >> 13, 0);
    let lo0 = entry_lo_from_parts(true, 12, 2, false, true, true);
    let lo1 = entry_lo_from_parts(false, 12, 2, true, true, true);

    test_ee.write_cop0(Register::PageMask.to_u8(), PAGE_MASK_16KB);

    assert!(test_ee.mmu.can_write_index(hi, lo0, lo1));
    test_ee.mmu.write_index(hi, lo0, lo1);
}

#[test]
fn basic_spram() {
    let data: [u8; 8] = [1, 2, 3, 4, 5, 6, 7, 8];
    let mut test_ee = EECore::default();

    let hi = 0b0111_0000_0000_0000_0000_0000_0000_0000;
    let lo0 = entry_lo_from_parts(true, 0, 0, true, true, true);
    let lo1 = entry_lo_from_parts(false, 0, 0, true, true, true);

    // Can we addres SPRAM?
    test_ee.write_cop0(Register::PageMask.to_u8(), PAGE_MASK_4KB);
    test_ee.write_cop0(Register::Index.to_u8(), 0);
    test_ee.mmu.write_index(hi, lo0, lo1);
    assert_eq!(test_ee.translate_virtual_address(SPRAM_START, false), Some(MmuAddress::Scratchpad(0)));

    // Do writes persist?
    test_ee.write_memory(SPRAM_START, &data[..]);
    assert_eq!(&data[..], &test_ee.memory.scratchpad[..data.len()]);

    // Do true reads?
    let read_data = test_ee.read_memory(SPRAM_START, data.len());
    assert_eq!(Some(&data[..]), read_data);
}
