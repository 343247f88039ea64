#![allow(unused_imports, unused_variables, unused_mut)]

use byteorder::{ByteOrder, LittleEndian};
use rs2::cpu::constants::{EE_PRID, REGISTER_COUNT};
use rs2::cpu::cop0::{entry_hi_from_parts, entry_lo_from_parts, Cause, Register, Status};
use rs2::cpu::exceptions::vectors::{COMMON, COMMON_B};
use rs2::cpu::ops::branch::PC_HO_BITS;
use rs2::cpu::ops::process_instruction;
use rs2::cpu::EECore;
use rs2::isa::mips::ee::{C0Function, CacheFunction, C0, MF0, MT0};
use rs2::isa::mips::instruction::{
    build_op_immediate, build_op_jump, build_op_register, build_op_register_custom, Instruction,
};
use rs2::isa::mips::{Function as MipsFunction, Opcode as MipsOpcode, RegImmFunction, NOP};
use rs2::memory::constants::{BIOS_START, KSEG0_START, KSEG1_START, SPRAM_START};
use rs2::memory::mmu::{MmuAddress, PAGE_MASK_16KB, PAGE_MASK_4KB};
use rs2::utils::{
    install_and_run_program, install_and_run_program_for, instructions_to_bytes, SignExtend,
    ZeroExtend,
};

#[test]
fn simple_register_read_and_write() {
    let mut test_ee = EECore::new();
    let mut in_vals = [0u64; REGISTER_COUNT];

    // Place a different value in each register.
    // NOTE: R0 is special, don't touch.
    for i in 1..REGISTER_COUNT {
        let reg = i.try_into().unwrap();
        in_vals[i] = i.try_into().unwrap();

        test_ee.write_register(reg, in_vals[i]);
    }

    // Read each register a considerable amount of time after it was last written to.
    // Ensure that outputs match the inputs.
    for i in 1..REGISTER_COUNT {
        let reg = i.try_into().unwrap();
        let expected = in_vals[i];
        let observed = test_ee.read_register(reg);

        assert_eq!(expected, observed);
    }
}

#[test]
fn write_reg_0_nop() {
    let mut test_ee = EECore::new();
    
    // Pre-condition: R0 == 0
    assert_eq!(0, test_ee.read_register(0));
    // Write should fail.
    assert_eq!(None, test_ee.write_register(0, 123456));
    // Post-condition: R0 == 0
    assert_eq!(0, test_ee.read_register(0));
}

#[test]
fn physical_address_mapped_by_kseg_0_1() {
    let mut test_ee = EECore::default();

    for offset in (0..=0x1fff_ffff).step_by(32) {
        assert_eq!(test_ee.translate_virtual_address(KSEG0_START + offset, true), Some(MmuAddress::Address(offset)));
        assert_eq!(test_ee.translate_virtual_address(KSEG1_START + offset, true), Some(MmuAddress::Address(offset)));
    }
}
