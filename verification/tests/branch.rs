#![allow(unused_imports, unused_variables, unused_mut)]

use byteorder::{ByteOrder, LittleEndian};
use rs2::cpu::constants::{EE_PRID, REGISTER_COUNT};
use rs2::cpu::cop0::{entry_hi_from_parts, entry_lo_from_parts, Cause, Register, Status};
use rs2::cpu::exceptions::vectors::{COMMON, COMMON_B};
use rs2::cpu::ops::branch::PC_HO_BITS;
use rs2::cpu::ops::process_instruction;
use rs2::cpu::EECore;
use rs2::isa::mips::ee::{C0Function, CacheFunction, C0, MF0, MT0};
use rs2::isa::mips::instruction::{
    build_op_immediate, build_op_jump, build_op_register, build_op_register_custom, Instruction,
};
use rs2::isa::mips::{Function as MipsFunction, Opcode as MipsOpcode, RegImmFunction, NOP};
use rs2::memory::constants::{BIOS_START, KSEG0_START, KSEG1_START, SPRAM_START};
use rs2::memory::mmu::{MmuAddress, PAGE_MASK_16KB, PAGE_MASK_4KB};
use rs2::utils::{
    install_and_run_program, install_and_run_program_for, instructions_to_bytes, SignExtend,
    ZeroExtend,
};

#[test]
fn jump_not_instant() {
    // Execute a jump instruction with no followup. No change to PC.
    let jump_offset = 0x12_34_56;
    let jump_target = (BIOS_START as u32) | (jump_offset << 2);

    let mut test_ee = EECore::new();

    install_and_run_program(&mut test_ee, instructions_to_bytes(&vec![
        NOP,
        build_op_jump(MipsOpcode::J, jump_offset),
    ]));

    assert_ne!(test_ee.pc_register, jump_target);
}

#[test]
fn basic_beq() {
    // Execute a jump instruction and a NOP. PC changes by relative amount.
    // PC only changes if target registers do not match.
    let jump_offset: u16 = 0x00_f0;
    let jump_target = (BIOS_START as u32) + 4 + ((jump_offset as u32) << 2);

    let program = instructions_to_bytes(&vec![
        build_op_immediate(MipsOpcode::BEq, 1, 2, jump_offset),
        NOP,
    ]);
    
    let mut staying_ee = EECore::new();
    let mut jumping_ee = EECore::new();

    staying_ee.write_register(1, 1234);
    staying_ee.write_register(2, 1235);
    install_and_run_program(&mut staying_ee, program.clone());

    jumping_ee.write_register(1, 1234);
    jumping_ee.write_register(2, 1234);
    install_and_run_program(&mut jumping_ee, program);

    assert_eq!(staying_ee.pc_register, (BIOS_START as u32) + 8);
    assert_eq!(jumping_ee.pc_register, jump_target);
}

#[test]
fn basic_bne() {
    // Execute a jump instruction and a NOP. PC changes by relative amount.
    // PC only changes if target registers do not match.
    let jump_offset: u16 = 0x00_f0;
    let jump_target = (BIOS_START as u32) + 4 + ((jump_offset as u32) << 2);

    let program = instructions_to_bytes(&vec![
        build_op_immediate(MipsOpcode::BNE, 1, 2, jump_offset),
        NOP,
    ]);
    
    let mut staying_ee = EECore::new();
    let mut jumping_ee = EECore::new();

    staying_ee.write_register(1, 1234);
    staying_ee.write_register(2, 1234);
    install_and_run_program(&mut staying_ee, program.clone());

    jumping_ee.write_register(1, 1234);
    jumping_ee.write_register(2, 1235);
    install_and_run_program(&mut jumping_ee, program);

    assert_eq!(staying_ee.pc_register, (BIOS_START as u32) + 8);
    assert_eq!(jumping_ee.pc_register, jump_target);
}

#[test]
fn bne_negative_offset() {
    // Go backwards by 5 instructions from Jump's PC.
    let jump_offset: i16 = -5;
    let jump_target = (BIOS_START as u32) + 4 - 20;

    let program = instructions_to_bytes(&vec![
        build_op_immediate(MipsOpcode::BNE, 1, 2, jump_offset as u16),
        NOP,
    ]);

    let mut jumping_ee = EECore::new();

    jumping_ee.write_register(1, 1234);
    jumping_ee.write_register(2, 1235);
    install_and_run_program(&mut jumping_ee, program);

    assert_eq!(jumping_ee.pc_register, jump_target);
}

#[test]
fn basic_bgez() {
    let jump_offset: u16 = 0x00_f0;
    let jump_target = (BIOS_START as u32) + 4 + ((jump_offset as u32) << 2);

    let program = instructions_to_bytes(&vec![
        build_op_immediate(MipsOpcode::RegImm, 1, RegImmFunction::BGEZ.to_u8(), jump_offset),
        NOP,
    ]);
    
    let mut staying_ee = EECore::new();
    let mut jumping_ee = EECore::new();
    let mut jumping_z_ee = EECore::new();

    let staying_val: i32 = -123;

    staying_ee.write_register(1, staying_val.s_ext());
    install_and_run_program(&mut staying_ee, program.clone());

    jumping_ee.write_register(1, 1234);
    install_and_run_program(&mut jumping_ee, program.clone());

    jumping_z_ee.write_register(1, 0);
    install_and_run_program(&mut jumping_z_ee, program);

    assert_eq!(staying_ee.pc_register, (BIOS_START as u32) + 8);
    assert_eq!(jumping_ee.pc_register, jump_target);
    assert_eq!(jumping_z_ee.pc_register, jump_target);
}

#[test]
fn basic_bltz() {
    let jump_offset: u16 = 0x00_f0;
    let jump_target = (BIOS_START as u32) + 4 + ((jump_offset as u32) << 2);

    let program = instructions_to_bytes(&vec![
        build_op_immediate(MipsOpcode::RegImm, 1, RegImmFunction::BLTZ.to_u8(), jump_offset),
        NOP,
    ]);
    
    let mut jumping_ee = EECore::new();
    let mut stay_z_ee = EECore::new();
    let mut stay_gz_ee = EECore::new();

    let jumping_val: i32 = -123;

    jumping_ee.write_register(1, jumping_val.s_ext());
    install_and_run_program(&mut jumping_ee, program.clone());

    stay_z_ee.write_register(1, 0);
    install_and_run_program(&mut stay_z_ee, program.clone());

    stay_gz_ee.write_register(1, 1234);
    install_and_run_program(&mut stay_gz_ee, program);

    assert_eq!(jumping_ee.pc_register, jump_target);
    assert_eq!(stay_z_ee.pc_register, (BIOS_START as u32) + 8);
    assert_eq!(stay_gz_ee.pc_register, (BIOS_START as u32) + 8);
}

#[test]
fn basic_break_i() {
    // BREAK raises the breakpoint exception and sends the PC to the common vector.
    let mut test_ee = EECore::new();

    let instruction = build_op_register(MipsFunction::Break, 0, 0, 0, 0);
    test_ee.execute(process_instruction(instruction));

    assert!(test_ee.in_exception());
    assert!(test_ee.excepted_this_cycle);
    let cause = test_ee.read_cop0_direct(Register::Cause.to_u8());
    assert_eq!((cause & Cause::EXCEPTION_CODE_L1) >> 2, 9);
    assert_eq!(test_ee.read_cop0_direct(Register::EPC.to_u8()), BIOS_START);
    assert_eq!(test_ee.pc_register, COMMON);
}

#[test]
fn basic_beql() {
    // PC changes by the relative amount only if the registers match.
    let jump_offset: u16 = 0x00_f0;
    let jump_target = (BIOS_START as u32) + 4 + ((jump_offset as u32) << 2);

    let program = instructions_to_bytes(&vec![
        build_op_immediate(MipsOpcode::BEqL, 1, 2, jump_offset),
        NOP,
    ]);

    let mut staying_ee = EECore::new();
    let mut jumping_ee = EECore::new();

    staying_ee.write_register(1, 1234);
    staying_ee.write_register(2, 1235);
    install_and_run_program(&mut staying_ee, program.clone());

    jumping_ee.write_register(1, 1234);
    jumping_ee.write_register(2, 1234);
    install_and_run_program(&mut jumping_ee, program);

    assert_eq!(staying_ee.pc_register, (BIOS_START as u32) + 8);
    assert_eq!(jumping_ee.pc_register, jump_target);
}

#[test]
fn basic_bnel() {
    // PC changes by the relative amount only if the registers differ.
    let jump_offset: u16 = 0x00_f0;
    let jump_target = (BIOS_START as u32) + 4 + ((jump_offset as u32) << 2);

    let program = instructions_to_bytes(&vec![
        build_op_immediate(MipsOpcode::BNEL, 1, 2, jump_offset),
        NOP,
    ]);

    let mut staying_ee = EECore::new();
    let mut jumping_ee = EECore::new();

    staying_ee.write_register(1, 1234);
    staying_ee.write_register(2, 1234);
    install_and_run_program(&mut staying_ee, program.clone());

    jumping_ee.write_register(1, 1234);
    jumping_ee.write_register(2, 1235);
    install_and_run_program(&mut jumping_ee, program);

    assert_eq!(staying_ee.pc_register, (BIOS_START as u32) + 8);
    assert_eq!(jumping_ee.pc_register, jump_target);
}

#[test]
fn beql_bnel_skip_delay_slot() {
    // A likely branch that is not taken skips its delay slot; one that is
    // taken runs it.
    for (opcode, equal) in [(MipsOpcode::BEqL, true), (MipsOpcode::BNEL, false)] {
        let program = instructions_to_bytes(&vec![
            build_op_immediate(opcode, 1, 2, 0x00_f0),
            build_op_immediate(MipsOpcode::AddIU, 0, 3, 5),
        ]);

        let mut taken_ee = EECore::new();
        let mut skipped_ee = EECore::new();

        taken_ee.write_register(1, 1234);
        taken_ee.write_register(2, if equal { 1234 } else { 1235 });
        install_and_run_program(&mut taken_ee, program.clone());

        skipped_ee.write_register(1, 1234);
        skipped_ee.write_register(2, if equal { 1235 } else { 1234 });
        install_and_run_program(&mut skipped_ee, program);

        assert_eq!(taken_ee.read_register(3), 5);
        assert_eq!(skipped_ee.read_register(3), 0);
        assert_eq!(skipped_ee.pc_register, (BIOS_START as u32) + 8);
    }
}

#[test]
fn basic_jump() {
    // Execute a jump instruction and a NOP. PC changes to new target.
    // NOTE: EE starts in uncached BIOS region (KSEG1).
    let jump_offset: u32 = 0x12_34_56;
    let jump_target = (BIOS_START as u32) & PC_HO_BITS | (jump_offset << 2);

    let mut test_ee = EECore::new();
    install_and_run_program(&mut test_ee, instructions_to_bytes(&vec![
        build_op_jump(MipsOpcode::J, jump_offset),
        NOP,
    ]));

    assert_eq!(test_ee.pc_register, jump_target);
}

#[test]
fn basic_jr() {
    // Execute a jump instruction and a NOP. PC changes to new target.
    let jump_dest: u32 = 0x1234_5678;

    let mut test_ee = EECore::new();
    test_ee.write_register(1, jump_dest as u64);
    install_and_run_program(&mut test_ee, instructions_to_bytes(&vec![
        build_op_register(MipsFunction::JR, 1, 0, 0, 0),
        NOP,
    ]));

    assert_eq!(test_ee.pc_register, jump_dest);
}

#[test]
fn basic_jalr() {
    // Execute a jump instruction and a NOP. PC changes to new target.
    // Old PC appears in arbitrary register.
    let jump_dest: u32 = 0x1234_5678;

    let mut test_ee = EECore::new();
    test_ee.write_register(1, jump_dest as u64);
    install_and_run_program(&mut test_ee, instructions_to_bytes(&vec![
        build_op_register(MipsFunction::JaLR, 1, 0, 5, 0),
        NOP,
    ]));

    assert_eq!(test_ee.read_register(5) as u32, (BIOS_START as u32) + 8);
    assert_eq!(test_ee.pc_register, jump_dest);
}

#[test]
fn basic_jal() {
    // Execute a jump instruction and a NOP. PC changes to new target.
    // Old PC appears in register 31.
    let jump_offset: u32 = 0x12_34_56;
    let jump_target = (BIOS_START as u32) & PC_HO_BITS | (jump_offset << 2);

    let mut test_ee = EECore::new();
    let old_pc = test_ee.pc_register;
    install_and_run_program(&mut test_ee, instructions_to_bytes(&vec![
        build_op_jump(MipsOpcode::JaL, jump_offset),
        NOP,
    ]));

    assert_eq!(test_ee.pc_register, jump_target);
    assert_eq!(test_ee.read_register(31) as u32, (BIOS_START as u32) + 8);
}

#[test]
fn jalr_unaligned_address_exception() {
    // A jump through a register to an address that is not aligned raises an
    // address error: no link is written and no jump is queued.
    let jump_dest: u32 = (BIOS_START as u32) + 0x0000_1235;

    let mut test_ee = EECore::new();
    test_ee.write_register(1, jump_dest as u64);
    test_ee.execute(process_instruction(build_op_register(MipsFunction::JaLR, 1, 0, 5, 0)));

    assert!(test_ee.in_exception());
    assert!(test_ee.branch_delay_slot_active.is_none());
    assert_eq!(test_ee.read_register(5), 0);
    assert_eq!(test_ee.read_cop0_direct(Register::BadVAddr.to_u8()), jump_dest);
    let cause = test_ee.read_cop0_direct(Register::Cause.to_u8());
    assert_eq!((cause & Cause::EXCEPTION_CODE_L1) >> 2, 4);
    assert_ne!(test_ee.pc_register, jump_dest);
}

#[test]
fn jr_unaligned_address_exception() {
    // Execute a jump instruction and a NOP. PC changes to new target.
    let jump_dest: u32 = (BIOS_START as u32) + 0x0000_1235;

    let mut test_ee = EECore::new();
    test_ee.write_register(1, jump_dest as u64);
    install_and_run_program(&mut test_ee, instructions_to_bytes(&vec![
        build_op_register(MipsFunction::JR, 1, 0, 0, 0),
        NOP,
    ]));

    assert_ne!(test_ee.pc_register, jump_dest);
    assert!(test_ee.in_exception());
}

#[test]
fn jump_delay_slot_fires() {
    // Execute a jump instruction and an ADD. ADD should have taken effect.
    let jump_offset: u32 = 0x12_34_56;
    let jump_target = (BIOS_START as u32) & PC_HO_BITS | (jump_offset << 2);

    let mut test_ee = EECore::new();
    let in_1 = 111;
    let in_2 = 256;
    test_ee.write_register(1, in_1);
    test_ee.write_register(2, in_2);

    install_and_run_program(&mut test_ee, instructions_to_bytes(&vec![
        build_op_jump(MipsOpcode::J, jump_offset),
        build_op_register(MipsFunction::Add, 1, 2, 3, 0),
    ]));

    assert_eq!(test_ee.read_register(3), in_1 + in_2);
    assert_eq!(test_ee.pc_register, jump_target);
}
