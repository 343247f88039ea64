#![allow(unused_imports, unused_variables, unused_mut)]

use rs2::cpu::constants::EE_PRID;
use rs2::cpu::cop0::{
    context_from_parts, entry_hi_from_parts, entry_lo_from_parts, increment_random, Cause, Config,
    Context, EntryHi, EntryLo, Register, Status, RANDOM_MAX,
};
use rs2::cpu::exceptions::vectors::{
    COMMON, COMMON_B, COUNTER, COUNTER_D, DEBUG, DEBUG_D, INTERRUPT, INTERRUPT_B, RESET_NMI,
    TLB_REFILL, TLB_REFILL_B,
};
use rs2::cpu::exceptions::{L1Exception, L2Exception};
use rs2::cpu::mode::{ExceptionLevel, PrivilegeLevel};
use rs2::cpu::ops::process_instruction;
use rs2::cpu::pipeline::{BranchAction, BranchOpCode, EEAction};
use rs2::cpu::state::Fault;
use rs2::cpu::EECore;
use rs2::isa::mips::ee::{C0Function, C0, MF0, MT0};
use rs2::isa::mips::instruction::{
    build_op_immediate, build_op_jump, build_op_register, build_op_register_custom,
};
use rs2::isa::mips::{Function as MipsFunction, Opcode as MipsOpcode, NOP};
use rs2::memory::constants::{
    BIOS_LEN, BIOS_PHYSICAL, BIOS_START, KSEG0_START, KSEG1_START, PHYSICAL_MEMORY_SIZE,
    SPRAM_SIZE, SSEG_START,
};
use rs2::memory::mmu::tlb::TlbLine;
use rs2::memory::mmu::{MmuAddress, PAGE_MASK_16KB};
use rs2::utils::{install_and_run_program, install_and_run_program_for, instructions_to_bytes};

fn l1_code(ee: &EECore) -> u32 {
    (ee.read_cop0_direct(Register::Cause.to_u8()) & Cause::EXCEPTION_CODE_L1) >> 2
}

fn l2_code(ee: &EECore) -> u32 {
    (ee.read_cop0_direct(Register::Cause.to_u8()) & Cause::EXCEPTION_CODE_L2) >> 16
}

#[test]
fn register_zero_stays_zero_through_instructions() {
    let mut ee = EECore::new();
    ee.write_register(1, 36);
    ee.write_register(2, 19);

    // ADD, ADDIU and LUI with register 0 as their destination.
    ee.execute(process_instruction(build_op_register(MipsFunction::Add, 1, 2, 0, 0)));
    ee.execute(process_instruction(build_op_immediate(MipsOpcode::AddIU, 1, 0, 77)));
    ee.execute(process_instruction(build_op_immediate(MipsOpcode::LUI, 0, 0, 0x1234)));

    assert_eq!(ee.read_register(0), 0);
    assert!(ee.register_file[..16].iter().all(|b| *b == 0));
}

#[test]
fn register_write_touches_its_own_lane_only() {
    let mut ee = EECore::new();
    ee.write_register(5, 0x0102_0304_0506_0708);

    // The architectural half of lane 5 is bytes 8 to 15, low byte first.
    assert_eq!(&ee.register_file[5 * 16 + 8..6 * 16], &[8, 7, 6, 5, 4, 3, 2, 1]);
    assert!(ee.register_file[..5 * 16 + 8].iter().all(|b| *b == 0));
    assert!(ee.register_file[6 * 16..].iter().all(|b| *b == 0));
    assert_eq!(ee.read_register(4), 0);
    assert_eq!(ee.read_register(6), 0);
    assert_eq!(ee.write_register(31, u64::MAX), Some(()));
    assert_eq!(ee.read_register(31), u64::MAX);
}

#[test]
fn hi_and_lo_halves() {
    let mut ee = EECore::new();

    // The 64 bits of HI are the lower half of its lane, and half 0 is their
    // low word; half 1 is the low word of the upper half.
    ee.write_hi(0x1122_3344_5566_7788);
    assert_eq!(ee.read_hi(), 0x1122_3344_5566_7788);
    assert_eq!(ee.read_hi_half(0), 0x5566_7788);
    assert_eq!(ee.read_hi_half(1), 0);
    assert_eq!(&ee.hi[8..], &[0x88, 0x77, 0x66, 0x55, 0x44, 0x33, 0x22, 0x11]);

    ee.write_hi_half(1, 0xdead_beef);
    assert_eq!(ee.read_hi_half(1), 0xdead_beef);
    assert_eq!(ee.read_hi(), 0x1122_3344_5566_7788);
    assert_eq!(&ee.hi[..8], &[0xef, 0xbe, 0xad, 0xde, 0, 0, 0, 0]);

    ee.write_hi_half(0, 0x0102_0304);
    assert_eq!(ee.read_hi(), 0x1122_3344_0102_0304);

    ee.write_lo_half(0, 0xcafe_f00d);
    assert_eq!(ee.read_lo_half(0), 0xcafe_f00d);
    assert_eq!(ee.read_lo(), 0xcafe_f00d);
    ee.write_lo(0x0102_0304_0506_0708);
    assert_eq!(ee.read_lo_half(0), 0x0506_0708);
    assert_eq!(ee.read_lo_half(1), 0);
    ee.write_lo_half(7, 5);
    assert_eq!(ee.read_lo_half(1), 5);
    assert_eq!(ee.read_lo(), 0x0102_0304_0506_0708);
    assert_eq!(ee.read_hi_half(1), 0xdead_beef);
}

#[test]
fn power_up_state() {
    let mut ee = EECore::default();

    assert_eq!(ee.pc_register, BIOS_START);
    assert_eq!(ee.pc_register, BIOS_PHYSICAL + KSEG1_START);
    assert_eq!(ee.read_cop0_direct(Register::PRId.to_u8()), EE_PRID);
    assert_eq!(EE_PRID, 0x2e00);
    assert_eq!(ee.read_cop0_direct(Register::Random.to_u8()), 47);
    assert_eq!(ee.read_cop0_direct(Register::Wired.to_u8()), 0);
    assert_eq!(
        ee.read_cop0_direct(Register::Status.to_u8()),
        Status::ERROR_LEVEL | Status::B_EXCEPTION_VECTOR
    );
    assert_eq!(ee.read_cop0_direct(Register::Config.to_u8()), 0x440);
    assert_eq!(ee.get_current_privilege(), PrivilegeLevel::Kernel(ExceptionLevel::Level2));
    assert!(!ee.dual_issue);
    assert!(ee.fault.is_none());
    assert!(ee.branch_delay_slot_active.is_none());
    assert_eq!(ee.memory.data.len(), PHYSICAL_MEMORY_SIZE);
    assert_eq!(ee.memory.scratchpad.len(), SPRAM_SIZE);
}

#[test]
fn bios_bytes_are_read_where_the_bios_is_mounted() {
    let image: Vec<u8> = (0..1000u32).map(|i| (i % 251) as u8 + 1).collect();
    let mut ee = EECore::new();
    ee.set_bios(image.clone());

    assert_eq!(ee.memory.bios.len(), BIOS_LEN as usize);
    for offset in [0u32, 1, 7, 500, 999] {
        let byte = ee.read_memory(BIOS_START + offset, 1).map(|b| b[0]);
        assert_eq!(byte, Some(image[offset as usize]));
    }
    // Beyond the image the BIOS is padded with zeros, up to its last byte.
    for offset in [1000u32, 1001, BIOS_LEN - 1] {
        let byte = ee.read_memory(BIOS_START + offset, 1).map(|b| b[0]);
        assert_eq!(byte, Some(0));
    }
    // The BIOS is seen through kseg0 as well.
    assert_eq!(ee.read_memory(KSEG0_START + BIOS_PHYSICAL + 3, 2), Some(&image[3..5]));
    assert!(ee.fault.is_none());
}

#[test]
fn bios_longer_than_its_place_is_cut() {
    let mut image = vec![0x5au8; BIOS_LEN as usize + 10];
    image[BIOS_LEN as usize - 1] = 0x77;
    let mut ee = EECore::new();
    ee.set_bios(image);

    assert_eq!(ee.memory.bios.len(), BIOS_LEN as usize);
    assert_eq!(ee.read_memory(BIOS_START + BIOS_LEN - 1, 1).map(|b| b[0]), Some(0x77));
}

#[test]
fn kseg_translation_is_the_same_for_loads_and_stores() {
    let mut ee = EECore::default();
    let before = ee.read_cop0_direct(Register::Cause.to_u8());

    for offset in [0u32, 4, 0x1000, 0x01ff_ffff, 0x1fc0_0000, 0x1fff_ffff] {
        for load in [true, false] {
            assert_eq!(
                ee.translate_virtual_address(KSEG0_START + offset, load),
                Some(MmuAddress::Address(offset))
            );
            assert_eq!(
                ee.translate_virtual_address(KSEG1_START + offset, load),
                Some(MmuAddress::Address(offset))
            );
        }
    }
    assert_eq!(ee.read_cop0_direct(Register::Cause.to_u8()), before);
    assert!(!ee.excepted_this_cycle);
}

#[test]
fn add_overflow_leaves_its_mark() {
    let mut ee = EECore::new();
    ee.write_register(1, 0x7fff_ffff);
    ee.write_register(2, 1);
    ee.write_register(3, 0x55);

    ee.execute(process_instruction(build_op_register(MipsFunction::Add, 1, 2, 3, 0)));

    assert_eq!(ee.read_register(3), 0x55);
    assert!(ee.excepted_this_cycle);
    assert!(ee.in_exception());
    assert_eq!(l1_code(&ee), 12);
    assert_eq!(L1Exception::Overflow.to_exception_code(), 12);
    assert_eq!(ee.read_cop0_direct(Register::EPC.to_u8()), BIOS_START);
    assert_ne!(ee.read_cop0_direct(Register::Cause.to_u8()) & Cause::BRANCH_DELAY_1, 0);
    assert_eq!(ee.pc_register, COMMON);

    // ADDI traps in the same way, towards the negative side too.
    let mut ee = EECore::new();
    ee.write_register(1, 0xffff_ffff_8000_0000);
    ee.execute(process_instruction(build_op_immediate(MipsOpcode::AddI, 1, 2, 0xffff)));

    assert_eq!(ee.read_register(2), 0);
    assert!(ee.excepted_this_cycle);
    assert_eq!(l1_code(&ee), 12);
}

#[test]
fn exception_in_a_delay_slot_saves_the_address_before() {
    let mut ee = EECore::new();
    ee.write_register(1, 0x7fff_ffff);
    ee.write_register(2, 1);

    // A branch that is not taken, with an ADD that overflows in its delay slot.
    ee.execute(process_instruction(build_op_immediate(MipsOpcode::BEq, 1, 2, 0x10)));
    assert_eq!(ee.pc_register, BIOS_START + 4);
    assert!(ee.branch_delay_slot_active.is_some());
    ee.execute(process_instruction(build_op_register(MipsFunction::Add, 1, 2, 3, 0)));

    // The second stage has run by then, so no branch is pending any more.
    assert!(ee.branch_delay_slot_active.is_none());
    assert_eq!(ee.read_cop0_direct(Register::EPC.to_u8()), BIOS_START + 4);
    assert_ne!(ee.read_cop0_direct(Register::Cause.to_u8()) & Cause::BRANCH_DELAY_1, 0);

    // With a branch still pending, the address before is saved and the flag is clear.
    let mut ee = EECore::new();
    ee.execute(process_instruction(build_op_jump(MipsOpcode::J, 0x100)));
    ee.throw_l1_exception(L1Exception::Trap);

    assert_eq!(ee.read_cop0_direct(Register::EPC.to_u8()), BIOS_START + 4 - 4);
    assert_eq!(ee.read_cop0_direct(Register::Cause.to_u8()) & Cause::BRANCH_DELAY_1, 0);
    assert_eq!(l1_code(&ee), 13);
}

#[test]
fn nested_level_1_exception_keeps_epc() {
    let mut ee = EECore::new();
    ee.throw_l1_exception(L1Exception::Systemcall);
    assert_eq!(l1_code(&ee), 8);
    assert_eq!(ee.read_cop0_direct(Register::EPC.to_u8()), BIOS_START);
    assert_eq!(ee.pc_register, COMMON);

    ee.throw_l1_exception(L1Exception::ReservedInstruction);
    assert_eq!(l1_code(&ee), 10);
    assert_eq!(ee.read_cop0_direct(Register::EPC.to_u8()), BIOS_START);
    assert_eq!(ee.pc_register, COMMON);
}

#[test]
fn level_1_vectors() {
    let plain = Status::from_bits_truncate(0);
    let boot = Status::from_bits_truncate(Status::B_EXCEPTION_VECTOR);
    let at_level_1 = Status::from_bits_truncate(Status::EXCEPTION_LEVEL);
    let at_level_1_boot =
        Status::from_bits_truncate(Status::EXCEPTION_LEVEL | Status::B_EXCEPTION_VECTOR);

    assert_eq!(L1Exception::Interrupt(3).to_exception_vector(plain), INTERRUPT);
    assert_eq!(L1Exception::Interrupt(3).to_exception_vector(boot), INTERRUPT_B);
    assert_eq!(L1Exception::TlbFetchLoadRefill(0).to_exception_vector(plain), TLB_REFILL);
    assert_eq!(L1Exception::TlbStoreRefill(0).to_exception_vector(boot), TLB_REFILL_B);
    assert_eq!(L1Exception::TlbFetchLoadRefill(0).to_exception_vector(at_level_1), COMMON);
    assert_eq!(L1Exception::TlbStoreRefill(0).to_exception_vector(at_level_1_boot), COMMON_B);
    assert_eq!(L1Exception::TlbFetchLoadInvalid(0).to_exception_vector(plain), COMMON);
    assert_eq!(L1Exception::TlbModified(0).to_exception_vector(boot), COMMON_B);
    assert_eq!(L1Exception::Break.to_exception_vector(plain), COMMON);
    assert_eq!(INTERRUPT, 0x8000_0200);
    assert_eq!(TLB_REFILL_B, 0xBFC0_0200);
    assert_eq!(COMMON_B, 0xBFC0_0380);
}

#[test]
fn level_1_codes() {
    let codes = [
        (L1Exception::Interrupt(0), 0),
        (L1Exception::TlbModified(0), 1),
        (L1Exception::TlbFetchLoadRefill(0), 2),
        (L1Exception::TlbStoreRefill(0), 3),
        (L1Exception::TlbFetchLoadInvalid(0), 2),
        (L1Exception::TlbStoreInvalid(0), 3),
        (L1Exception::AddressErrorFetchLoad(0), 4),
        (L1Exception::AddressErrorStore(0), 5),
        (L1Exception::BusErrorFetch, 6),
        (L1Exception::BusErrorLoadStore, 7),
        (L1Exception::Systemcall, 8),
        (L1Exception::Break, 9),
        (L1Exception::ReservedInstruction, 10),
        (L1Exception::CoprocessorUnusable(1), 11),
        (L1Exception::Overflow, 12),
        (L1Exception::Trap, 13),
    ];
    for (ex, code) in codes {
        assert_eq!(ex.to_exception_code(), code);
        let mut ee = EECore::new();
        if !matches!(
            ex,
            L1Exception::TlbModified(_)
                | L1Exception::TlbFetchLoadRefill(_)
                | L1Exception::TlbStoreRefill(_)
                | L1Exception::TlbFetchLoadInvalid(_)
                | L1Exception::TlbStoreInvalid(_)
        ) {
            ee.throw_l1_exception(ex);
            assert_eq!(l1_code(&ee), code as u32);
        }
    }
}

#[test]
fn interrupt_sets_its_pending_bit() {
    let mut ee = EECore::new();
    ee.throw_l1_exception(L1Exception::Interrupt(7));
    let cause = ee.read_cop0_direct(Register::Cause.to_u8());
    assert_eq!(cause & Cause::PENDING_INTERRUPT_TIMER, Cause::PENDING_INTERRUPT_TIMER);
    assert_eq!(l1_code(&ee), 0);
    assert_eq!(ee.pc_register, INTERRUPT);

    let mut ee = EECore::new();
    ee.throw_l1_exception(L1Exception::Interrupt(2));
    let cause = ee.read_cop0_direct(Register::Cause.to_u8());
    assert_eq!(cause & (1 << 10), 1 << 10);
}

#[test]
fn coprocessor_unusable_names_the_coprocessor() {
    let mut ee = EECore::new();
    ee.throw_l1_exception(L1Exception::CoprocessorUnusable(2));
    let cause = ee.read_cop0_direct(Register::Cause.to_u8());
    assert_eq!((cause & Cause::COPROCESSOR_NUMBER) >> 28, 2);
    assert_eq!(l1_code(&ee), 11);
}

#[test]
fn coprocessor_number_is_written_over_the_old_one() {
    for (before, number) in [(3u32, 0u8), (3, 1), (1, 2), (0, 3), (2, 2)] {
        let mut ee = EECore::new();
        let others = Cause::PENDING_INTERRUPT_TIMER | Cause::BRANCH_DELAY_2 | (5 << 16);
        ee.write_cop0_direct(Register::Cause.to_u8(), others | (before << 28));
        ee.write_cop0_direct(Register::BadVAddr.to_u8(), 0x1234);

        ee.throw_l1_exception(L1Exception::CoprocessorUnusable(number));

        let cause = ee.read_cop0_direct(Register::Cause.to_u8());
        assert_eq!((cause >> 28) & 0x3, number as u32);
        assert_eq!(l1_code(&ee), 11);
        // Outside the two fields and the branch delay flag, Cause is as it was.
        let untouched = !(Cause::COPROCESSOR_NUMBER | Cause::EXCEPTION_CODE_L1 | Cause::BRANCH_DELAY_1);
        assert_eq!(cause & untouched, others);
        assert_eq!(ee.read_cop0_direct(Register::BadVAddr.to_u8()), 0x1234);
    }

    let mut cause = Cause::from_bits_truncate(0x3000_0000 | Cause::BRANCH_DELAY_1);
    assert_eq!(cause.coprocessor_number(), 3);
    cause.set_coprocessor_number(0);
    assert_eq!(cause.bits(), Cause::BRANCH_DELAY_1);
    cause.set_coprocessor_number(2);
    assert_eq!(cause.coprocessor_number(), 2);
    assert_eq!(cause.bits(), Cause::BRANCH_DELAY_1 | Cause::COPROCESSOR_B1);

    assert!(L1Exception::CoprocessorUnusable(3).can_be_raised());
    assert!(!L1Exception::CoprocessorUnusable(4).can_be_raised());
    assert!(L1Exception::Interrupt(7).can_be_raised());
    assert!(!L1Exception::Interrupt(8).can_be_raised());
    assert!(L1Exception::Overflow.can_be_raised());
}

#[test]
fn tlb_miss_fills_the_address_registers() {
    let addr: u32 = 0x0040_3abc;
    let mut ee = EECore::new();
    ee.write_cop0(Register::Context.to_u8(), context_from_parts(0x155, 0x3ffff));
    ee.write_cop0(Register::EntryHi.to_u8(), entry_hi_from_parts(0x7, 0x42));

    // No line answers for this page: a refill, with a vector of its own.
    assert_eq!(ee.translate_virtual_address(addr, true), None);

    assert!(ee.excepted_this_cycle);
    assert_eq!(l1_code(&ee), 2);
    assert_eq!(ee.read_cop0_direct(Register::BadVAddr.to_u8()), addr);
    let context = ee.read_cop0_direct(Register::Context.to_u8());
    assert_eq!(context, context_from_parts(0x155, addr >> 13));
    assert_eq!(context.get_pte_base(), 0x155);
    assert_eq!(Context::get_vpn2(context), addr >> 13);
    let entry_hi = ee.read_cop0_direct(Register::EntryHi.to_u8());
    assert_eq!(EntryHi::get_vpn2(entry_hi), addr >> 13);
    assert_eq!(entry_hi.get_asid(), 0x42);
    assert_eq!(ee.pc_register, TLB_REFILL);
    assert!(ee.fault.is_none());

    // A store to a page whose line is there but not valid: an invalid miss.
    let mut ee = EECore::new();
    ee.write_cop0(Register::Index.to_u8(), 7);
    ee.mmu.write_index(
        entry_hi_from_parts(0, 0),
        entry_lo_from_parts(false, 5, 0, true, false, true),
        entry_lo_from_parts(false, 6, 0, true, true, true),
    );
    assert_eq!(ee.translate_virtual_address(0x0000_0010, false), None);
    assert_eq!(l1_code(&ee), 3);
    assert_eq!(ee.read_cop0_direct(Register::BadVAddr.to_u8()), 0x10);
    assert_eq!(ee.pc_register, COMMON);
}

#[test]
fn a_tlb_never_written_answers_for_nothing() {
    for addr in [0u32, 0x10, 0x1000, 0x7fff_fffc, SSEG_START, 0xffff_fffc] {
        for load in [true, false] {
            let mut ee = EECore::new();
            let refill = if load {
                L1Exception::TlbFetchLoadRefill(addr)
            } else {
                L1Exception::TlbStoreRefill(addr)
            };
            assert_eq!(ee.mmu.translate_address(addr, load), MmuAddress::Exception(refill));
            assert_eq!(ee.translate_virtual_address(addr, load), None);
            assert_eq!(l1_code(&ee), if load { 2 } else { 3 });
            assert_eq!(ee.pc_register, TLB_REFILL);
        }
    }
    let ee = EECore::default();
    for line in ee.mmu.tlb.lines.iter() {
        assert_eq!(line.virtual_page_number_half, 0xFFFF_FFFF);
        assert!(!line.even.valid && !line.odd.valid && !line.scratchpad);
    }
}

#[test]
fn an_installed_line_is_reached_past_lines_for_other_pages() {
    let mut ee = EECore::new();
    ee.write_cop0(Register::PageMask.to_u8(), 0);
    // Line 1 answers for page pair 3, line 6 and line 9 for page pair 2.
    for (index, pair, frame) in [(1u32, 3u32, 0x30u32), (6, 2, 0x60), (9, 2, 0x90)] {
        ee.write_cop0(Register::Index.to_u8(), index);
        ee.mmu.write_index(
            entry_hi_from_parts(pair, 0),
            entry_lo_from_parts(false, frame, 0, true, true, true),
            entry_lo_from_parts(false, frame + 1, 0, false, true, true),
        );
    }
    // The first line in order answers.
    assert_eq!(ee.mmu.translate_address(2 << 13, true), MmuAddress::Address(0x60 << 12));
    assert_eq!(
        ee.mmu.translate_address((2 << 13) | 0x1234, true),
        MmuAddress::Address((0x61 << 12) | 0x234)
    );
    assert_eq!(ee.mmu.translate_address((3 << 13) | 0x0ffc, false), MmuAddress::Address((0x30 << 12) | 0xffc));
    assert_eq!(
        ee.mmu.translate_address((3 << 13) | 0x1000, false),
        MmuAddress::Exception(L1Exception::TlbModified((3 << 13) | 0x1000))
    );
    assert_eq!(
        ee.mmu.translate_address(4 << 13, true),
        MmuAddress::Exception(L1Exception::TlbFetchLoadRefill(4 << 13))
    );
}

#[test]
fn store_to_a_clean_page_is_a_modification() {
    let mut ee = EECore::new();
    ee.write_cop0(Register::Index.to_u8(), 3);
    ee.write_cop0(Register::PageMask.to_u8(), 0);
    let hi = entry_hi_from_parts(0x100, 0);
    let lo0 = entry_lo_from_parts(false, 0x20, 0, false, true, true);
    let lo1 = entry_lo_from_parts(false, 0x21, 0, true, true, true);
    assert!(ee.mmu.can_write_index(hi, lo0, lo1));
    ee.mmu.write_index(hi, lo0, lo1);

    let even: u32 = 0x100 << 13;
    assert_eq!(ee.translate_virtual_address(even + 0x123, true), Some(MmuAddress::Address((0x20 << 12) | 0x123)));
    assert_eq!(ee.translate_virtual_address(even + 0x1000 + 4, false), Some(MmuAddress::Address((0x21 << 12) | 4)));
    assert!(!ee.excepted_this_cycle);

    assert_eq!(ee.translate_virtual_address(even + 0x123, false), None);
    assert_eq!(l1_code(&ee), 1);
    assert_eq!(ee.read_cop0_direct(Register::BadVAddr.to_u8()), even + 0x123);
}

#[test]
fn tlb_line_of_another_address_space_does_not_match() {
    let mut ee = EECore::new();
    ee.write_cop0(Register::Index.to_u8(), 0);
    let hi = entry_hi_from_parts(0x200, 9);
    // Not global: only one of the halves has the flag.
    let lo0 = entry_lo_from_parts(false, 0x30, 0, true, true, true);
    let lo1 = entry_lo_from_parts(false, 0x31, 0, true, true, false);
    ee.mmu.write_index(hi, lo0, lo1);
    assert!(!ee.mmu.tlb.lines[0].global);
    assert_eq!(ee.mmu.tlb.lines[0].asid, 9);

    // The MMU is in address space 0, the line in 9.
    assert_eq!(ee.translate_virtual_address(0x200 << 13, true), None);
    assert_eq!(l1_code(&ee), 2);

    ee.mmu.asid = 9;
    assert_eq!(
        ee.translate_virtual_address(0x200 << 13, true),
        Some(MmuAddress::Address(0x30 << 12))
    );
}

#[test]
fn tlbwi_then_translate() {
    let mut ee = EECore::default();

    ee.write_cop0(Register::Index.to_u8(), 4);
    ee.write_cop0(Register::PageMask.to_u8(), 0);
    ee.write_cop0(Register::EntryHi.to_u8(), entry_hi_from_parts(0, 0));
    ee.write_cop0(Register::EntryLo0.to_u8(), entry_lo_from_parts(false, 320, 2, true, true, true));
    ee.write_cop0(Register::EntryLo1.to_u8(), entry_lo_from_parts(false, 160, 2, true, true, true));
    assert_eq!(ee.read_cop0_direct(Register::EntryLo0.to_u8()), 0x5017);
    assert_eq!(ee.read_cop0_direct(Register::EntryLo1.to_u8()), 0x2817);

    let tlbwi =
        build_op_register_custom(MipsOpcode::Cop0, C0Function::TlbWI.to_u8(), C0, 1, 10, 0);
    assert_eq!(tlbwi, 0x4201_5002);
    install_and_run_program(&mut ee, instructions_to_bytes(&vec![tlbwi]));

    // The lines before line 4 were never installed: they answer for nothing.
    assert_eq!(ee.mmu.translate_address(0, true), MmuAddress::Address(0x0014_0000));
    assert_eq!(ee.mmu.translate_address(0x1000, true), MmuAddress::Address(0x000A_0000));
    assert_eq!(ee.translate_virtual_address(0, true), Some(MmuAddress::Address(320 << 12)));
    assert_eq!(ee.translate_virtual_address(0x1000, true), Some(MmuAddress::Address(160 << 12)));
    assert_eq!(ee.translate_virtual_address(0x1abc, false), Some(MmuAddress::Address((160 << 12) | 0xabc)));
    let line = ee.mmu.tlb.lines[4];
    assert_eq!(line.even.cache_mode, 2);
    assert!(line.even.dirty && line.even.valid && line.odd.dirty && line.odd.valid);
    assert!(!line.scratchpad);
}

#[test]
fn cop0_unusable_in_user_mode() {
    let instruction = build_op_register_custom(
        MipsOpcode::Cop0,
        0,
        MF0,
        1,
        Register::PRId.to_u8(),
        0,
    );

    let mut forbidden = EECore::default();
    forbidden.write_cop0_direct(Register::Status.to_u8(), Status::USER_MODE);
    assert_eq!(forbidden.get_current_privilege(), PrivilegeLevel::User);
    forbidden.execute(process_instruction(instruction));

    assert!(forbidden.excepted_this_cycle);
    assert_eq!(l1_code(&forbidden), 11);
    let cause = forbidden.read_cop0_direct(Register::Cause.to_u8());
    assert_eq!(cause & Cause::COPROCESSOR_NUMBER, 0);
    assert_eq!(forbidden.read_register(1), 0);

    let mut allowed = EECore::default();
    allowed.write_cop0_direct(Register::Status.to_u8(), Status::USER_MODE | Status::COP0_USABLE);
    allowed.execute(process_instruction(instruction));

    assert!(!allowed.excepted_this_cycle);
    assert_eq!(allowed.read_register(1), 0x2E00);
    assert_eq!(allowed.read_register(1), EE_PRID as u64);
}

#[test]
fn mfc0_sign_extends() {
    let mut ee = EECore::new();
    ee.write_cop0_direct(Register::EPC.to_u8(), 0x8000_0180);
    ee.execute(process_instruction(build_op_register_custom(
        MipsOpcode::Cop0,
        0,
        MF0,
        7,
        Register::EPC.to_u8(),
        0,
    )));
    assert_eq!(ee.read_register(7), 0xffff_ffff_8000_0180);
}

#[test]
fn level_2_exceptions() {
    // A reset.
    let mut ee = EECore::new();
    ee.write_cop0(Register::Config.to_u8(), 0x440 | Config::ENABLES);
    assert!(ee.dual_issue);
    ee.write_cop0(Register::Wired.to_u8(), 12);
    ee.write_cop0_direct(Register::Random.to_u8(), 30);
    ee.write_cop0_direct(Register::Status.to_u8(), Status::BUS_ERROR_MASK | Status::INTERRUPT_ENABLE);
    ee.pc_register = 0x8000_1000;

    ee.throw_l2_exception(L2Exception::Reset);

    assert!(ee.excepted_this_cycle);
    assert_eq!(l2_code(&ee), 0);
    assert_eq!(ee.pc_register, RESET_NMI);
    assert_eq!(ee.read_cop0_direct(Register::ErrorEPC.to_u8()), 0x8000_1000);
    assert_ne!(ee.read_cop0_direct(Register::Cause.to_u8()) & Cause::BRANCH_DELAY_2, 0);
    assert_eq!(
        ee.read_cop0_direct(Register::Status.to_u8()),
        Status::INTERRUPT_ENABLE | Status::ERROR_LEVEL | Status::B_EXCEPTION_VECTOR
    );
    assert_eq!(ee.read_cop0_direct(Register::Random.to_u8()), RANDOM_MAX);
    assert_eq!(ee.read_cop0_direct(Register::Wired.to_u8()), 0);
    assert_eq!(ee.mmu.wired, 0);
    assert_eq!(ee.read_cop0_direct(Register::Config.to_u8()), 0x440);
    assert!(!ee.dual_issue);
    assert_eq!(ee.get_current_privilege(), PrivilegeLevel::Kernel(ExceptionLevel::Level2));

    // An NMI.
    let mut ee = EECore::new();
    ee.throw_l2_exception(L2Exception::Nmi);
    assert_eq!(l2_code(&ee), 1);
    assert_eq!(ee.pc_register, RESET_NMI);
    assert_eq!(
        ee.read_cop0_direct(Register::Status.to_u8()),
        Status::ERROR_LEVEL | Status::B_EXCEPTION_VECTOR
    );

    // The performance counter and debug, with and without the bootstrap flag.
    for (ex, code, plain, boot) in [
        (L2Exception::PerformanceCounter, 2, COUNTER, COUNTER_D),
        (L2Exception::Debug, 4, DEBUG, DEBUG_D),
    ] {
        let mut ee = EECore::new();
        ee.throw_l2_exception(ex);
        assert_eq!(l2_code(&ee), code);
        assert_eq!(ee.pc_register, plain);
        assert_eq!(ex.to_exception_code() as u32, code);

        let mut ee = EECore::new();
        ee.write_cop0_direct(Register::Status.to_u8(), Status::D_EXCEPTION_VECTOR);
        ee.execute(process_instruction(build_op_jump(MipsOpcode::J, 0x40)));
        ee.throw_l2_exception(ex);
        assert_eq!(ee.pc_register, boot);
        // A branch was pending: the address before is saved, the flag is clear.
        assert_eq!(ee.read_cop0_direct(Register::ErrorEPC.to_u8()), BIOS_START);
        assert_eq!(ee.read_cop0_direct(Register::Cause.to_u8()) & Cause::BRANCH_DELAY_2, 0);
    }
    assert_eq!(L2Exception::from_u8(3), None);
    assert_eq!(L2Exception::from_u8(4), Some(L2Exception::Debug));
    assert_eq!(COUNTER_D, 0xBFC0_0280);
    assert_eq!(DEBUG, 0x8000_0100);
}

#[test]
fn cop0_writes_and_their_side_effects() {
    let mut ee = EECore::new();

    ee.write_cop0(Register::Config.to_u8(), Config::ENABLE_DUAL_ISSUE);
    assert!(ee.dual_issue);
    ee.write_cop0(Register::Config.to_u8(), 0);
    assert!(!ee.dual_issue);

    ee.write_cop0(Register::Index.to_u8(), 0x1_07);
    assert_eq!(ee.mmu.index, 7);
    assert_eq!(ee.read_cop0(Register::Index.to_u8()), 0x1_07);

    ee.write_cop0(Register::PageMask.to_u8(), PAGE_MASK_16KB);
    assert_eq!(ee.mmu.page_mask, PAGE_MASK_16KB);

    ee.write_cop0_direct(Register::Random.to_u8(), 20);
    ee.write_cop0(Register::Wired.to_u8(), 10);
    assert_eq!(ee.mmu.wired, 10);
    assert_eq!(ee.read_cop0_direct(Register::Random.to_u8()), 47);

    // The direct write stores and does nothing else.
    let mut ee = EECore::new();
    ee.write_cop0_direct(Register::Config.to_u8(), Config::ENABLE_DUAL_ISSUE);
    ee.write_cop0_direct(Register::Index.to_u8(), 7);
    ee.write_cop0_direct(Register::PageMask.to_u8(), PAGE_MASK_16KB);
    ee.write_cop0_direct(Register::Random.to_u8(), 20);
    ee.write_cop0_direct(Register::Wired.to_u8(), 10);
    assert!(!ee.dual_issue);
    assert_eq!(ee.mmu.index, 0);
    assert_eq!(ee.mmu.page_mask, 0);
    assert_eq!(ee.mmu.wired, 0);
    assert_eq!(ee.read_cop0_direct(Register::Random.to_u8()), 20);
    assert_eq!(ee.read_cop0_direct(Register::Wired.to_u8()), 10);
    assert_eq!(ee.read_cop0_direct(Register::Index.to_u8()), 7);

    // A register with no name is stored like any other.
    ee.write_cop0(7, 0xabcd_ef01);
    assert_eq!(ee.read_cop0(7), 0xabcd_ef01);
    assert_eq!(Register::from_u8(7), None);
    assert_eq!(Register::from_u8(23), Some(Register::BadPAddr));
    assert_eq!(Register::ErrorEPC.to_u8(), 30);
}

#[test]
fn mtc0_through_an_instruction_switches_dual_issue() {
    let mut ee = EECore::new();
    ee.write_register(1, Config::ENABLE_DUAL_ISSUE as u64);
    ee.execute(process_instruction(build_op_register_custom(
        MipsOpcode::Cop0,
        0,
        MT0,
        1,
        Register::Config.to_u8(),
        0,
    )));
    assert!(ee.dual_issue);
    assert_eq!(ee.read_cop0_direct(Register::Config.to_u8()), Config::ENABLE_DUAL_ISSUE);
}

#[test]
fn access_is_checked_by_privilege() {
    // A user may touch the user segment only.
    let mut ee = EECore::new();
    ee.write_cop0_direct(Register::Status.to_u8(), Status::USER_MODE);
    assert!(ee.access_virtual_address(0x7fff_fffc, true));
    assert!(!ee.excepted_this_cycle);
    assert!(!ee.access_virtual_address(SSEG_START, true));
    assert_eq!(l1_code(&ee), 4);
    assert_eq!(ee.read_cop0_direct(Register::BadVAddr.to_u8()), SSEG_START);

    let mut ee = EECore::new();
    ee.write_cop0_direct(Register::Status.to_u8(), Status::USER_MODE);
    assert!(!ee.access_virtual_address(KSEG0_START, false));
    assert_eq!(l1_code(&ee), 5);

    // A supervisor may touch the supervisor segment too, but no kernel segment.
    let mut ee = EECore::new();
    ee.write_cop0_direct(Register::Status.to_u8(), Status::SUPERVISOR_MODE);
    assert_eq!(ee.get_current_privilege(), PrivilegeLevel::Supervisor);
    assert!(ee.access_virtual_address(SSEG_START + 8, false));
    assert!(!ee.access_virtual_address(0xE000_0000, true));
    assert_eq!(l1_code(&ee), 4);

    // A kernel may touch everything.
    let mut ee = EECore::new();
    for addr in [0u32, SSEG_START, KSEG0_START, KSEG1_START, 0xE000_0000, 0xFFFF_FFFF] {
        assert!(ee.access_virtual_address(addr, true));
    }
    assert!(!ee.excepted_this_cycle);
}

#[test]
fn privilege_levels() {
    let level = |bits: u32| Status::from_bits_truncate(bits).privilege_level();
    assert_eq!(level(0), PrivilegeLevel::Kernel(ExceptionLevel::NoException));
    assert_eq!(level(Status::SUPERVISOR_MODE), PrivilegeLevel::Supervisor);
    assert_eq!(level(Status::USER_MODE), PrivilegeLevel::User);
    assert_eq!(level(Status::USER_MODE | Status::SUPERVISOR_MODE), PrivilegeLevel::User);
    assert_eq!(
        level(Status::USER_MODE | Status::EXCEPTION_LEVEL),
        PrivilegeLevel::Kernel(ExceptionLevel::Level1)
    );
    assert_eq!(
        level(Status::EXCEPTION_LEVEL | Status::ERROR_LEVEL),
        PrivilegeLevel::Kernel(ExceptionLevel::Level2)
    );
    assert!(PrivilegeLevel::Kernel(ExceptionLevel::NoException).is_kernel());
    assert!(!PrivilegeLevel::Kernel(ExceptionLevel::NoException).is_in_exception());
    assert!(PrivilegeLevel::Kernel(ExceptionLevel::Level1).is_in_exception());
    assert!(PrivilegeLevel::Kernel(ExceptionLevel::Level2).is_in_exception());
    assert!(!PrivilegeLevel::User.is_kernel());
    assert!(!PrivilegeLevel::Supervisor.is_in_exception());
    // Bits that name no flag are dropped.
    assert_eq!(Status::from_bits_truncate(0xffff_ffff).bits(), Status::ALL);
    assert_eq!(Status::default().bits(), 0x0040_0004);
}

#[test]
fn faults() {
    // Memory that no store backs: main memory ends at 32 MiB.
    let mut ee = EECore::new();
    assert_eq!(ee.read_memory(KSEG0_START + 0x0200_0000, 4), None);
    assert_eq!(ee.fault, Some(Fault::UnbackedMemory));
    assert!(!ee.excepted_this_cycle);

    let mut ee = EECore::new();
    ee.write_memory(KSEG0_START + 0x01ff_fffe, &[1, 2, 3, 4]);
    assert_eq!(ee.fault, Some(Fault::UnbackedMemory));
    assert_eq!(ee.read_memory(KSEG0_START + 0x01ff_fffe, 2), Some(&[0u8, 0][..]));

    // The BIOS of a processor as it is made has four bytes.
    let mut ee = EECore::new();
    ee.cycle();
    assert_eq!(ee.fault, Some(Fault::UnbackedMemory));
    assert_eq!(ee.pc_register, BIOS_START);

    // A page mask that the hardware does not know.
    let mut ee = EECore::new();
    ee.write_cop0(Register::PageMask.to_u8(), 0x0000_2000);
    assert_eq!(ee.translate_virtual_address(0x1000, true), None);
    assert_eq!(ee.fault, Some(Fault::IllegalPageMask));
    assert!(!ee.excepted_this_cycle);
    // The unmapped segments do not ask the TLB.
    ee.fault = None;
    assert_eq!(ee.translate_virtual_address(KSEG1_START, true), Some(MmuAddress::Address(0)));
    assert_eq!(ee.fault, None);

    // A TLB line that does not exist.
    let tlbwi = process_instruction(build_op_register_custom(
        MipsOpcode::Cop0,
        C0Function::TlbWI.to_u8(),
        C0,
        0,
        0,
        0,
    ));
    let tlbwr = process_instruction(build_op_register_custom(
        MipsOpcode::Cop0,
        C0Function::TlbWR.to_u8(),
        C0,
        0,
        0,
        0,
    ));
    let mut ee = EECore::new();
    ee.write_cop0(Register::Index.to_u8(), 48);
    ee.execute(tlbwi);
    assert_eq!(ee.fault, Some(Fault::TlbIndexOutOfRange));
    let mut ee = EECore::new();
    ee.write_cop0_direct(Register::Random.to_u8(), 1000);
    ee.execute(tlbwr);
    assert_eq!(ee.fault, Some(Fault::TlbIndexOutOfRange));

    // A scratchpad line whose halves disagree.
    let mut ee = EECore::new();
    ee.write_cop0(Register::Index.to_u8(), 2);
    ee.write_cop0(Register::EntryHi.to_u8(), entry_hi_from_parts(0x38000, 0));
    ee.write_cop0(Register::EntryLo0.to_u8(), entry_lo_from_parts(true, 0, 0, false, true, true));
    ee.write_cop0(Register::EntryLo1.to_u8(), entry_lo_from_parts(false, 0, 0, true, true, true));
    ee.execute(tlbwi);
    assert_eq!(ee.fault, Some(Fault::InvalidScratchpadLine));
    assert!(!ee.mmu.tlb.lines[2].scratchpad);
    assert_eq!(ee.mmu.tlb.lines[2], TlbLine::default());
    assert_eq!(ee.pc_register, BIOS_START + 4);
}

#[test]
fn fetch_that_fails_issues_nothing() {
    // A user whose program counter is in a kernel segment.
    let mut ee = EECore::new();
    ee.set_bios(instructions_to_bytes(&[build_op_immediate(MipsOpcode::AddIU, 0, 1, 5)]));
    ee.write_cop0_direct(Register::Status.to_u8(), Status::USER_MODE);

    ee.cycle();

    assert_eq!(ee.read_register(1), 0);
    assert!(ee.in_exception());
    assert_eq!(l1_code(&ee), 4);
    assert_eq!(ee.read_cop0_direct(Register::BadVAddr.to_u8()), BIOS_START);
    assert_eq!(ee.read_cop0_direct(Register::EPC.to_u8()), BIOS_START);
    assert_eq!(ee.pc_register, COMMON);
    assert!(!ee.excepted_this_cycle);
    assert_eq!(ee.read_cop0_direct(Register::Count.to_u8()), 1);
    assert!(ee.fault.is_none());
}

#[test]
fn timer_interrupt() {
    let mut ee = EECore::new();
    ee.set_bios(instructions_to_bytes(&[NOP, NOP, NOP, NOP]));
    ee.write_cop0_direct(Register::Compare.to_u8(), 2);

    ee.cycle();
    assert_eq!(ee.read_cop0_direct(Register::Count.to_u8()), 1);
    assert!(!ee.in_exception());
    assert_eq!(ee.pc_register, BIOS_START + 4);

    ee.cycle();
    assert_eq!(ee.read_cop0_direct(Register::Count.to_u8()), 2);
    assert!(ee.in_exception());
    assert_eq!(l1_code(&ee), 0);
    let cause = ee.read_cop0_direct(Register::Cause.to_u8());
    assert_eq!(cause & Cause::PENDING_INTERRUPT_TIMER, Cause::PENDING_INTERRUPT_TIMER);
    assert_eq!(ee.read_cop0_direct(Register::EPC.to_u8()), BIOS_START + 4);
    // The instruction at the vector, a zero word in main memory, has run; the
    // exception holds the program counter for this cycle.
    assert_eq!(ee.pc_register, INTERRUPT);
    assert!(!ee.excepted_this_cycle);

    ee.cycle();
    assert_eq!(ee.pc_register, INTERRUPT + 4);

    // Count wraps round.
    let mut ee = EECore::new();
    ee.set_bios(instructions_to_bytes(&[NOP, NOP]));
    ee.write_cop0_direct(Register::Count.to_u8(), u32::MAX);
    ee.write_cop0_direct(Register::Compare.to_u8(), 5);
    ee.cycle();
    assert_eq!(ee.read_cop0_direct(Register::Count.to_u8()), 0);
    assert!(!ee.in_exception());
}

#[test]
fn random_steps_down_to_wired_and_starts_again() {
    let mut ee = EECore::default();
    ee.set_bios(vec![0u8; 64]);
    ee.write_cop0(Register::Wired.to_u8(), 44);
    assert_eq!(ee.read_cop0_direct(Register::Random.to_u8()), 47);

    let mut seen = vec![];
    for _ in 0..9 {
        ee.cycle();
        let random = ee.read_cop0_direct(Register::Random.to_u8());
        assert!(44 <= random && random <= RANDOM_MAX);
        seen.push(random);
    }
    assert_eq!(seen, vec![46, 45, 44, 47, 46, 45, 44, 47, 46]);

    // With nothing wired it goes down to zero.
    let mut ee = EECore::default();
    ee.set_bios(vec![0u8; 4 * 64]);
    for expected in (0..47).rev() {
        ee.cycle();
        assert_eq!(ee.read_cop0_direct(Register::Random.to_u8()), expected);
    }
    ee.cycle();
    assert_eq!(ee.read_cop0_direct(Register::Random.to_u8()), 47);
    assert_eq!(increment_random(46), 47);
    assert_eq!(increment_random(47), 0);
    assert_eq!(increment_random(0), 1);
}

#[test]
fn single_issue_runs_one_instruction_a_cycle() {
    let mut ee = EECore::new();
    ee.set_bios(instructions_to_bytes(&[
        build_op_immediate(MipsOpcode::AddIU, 0, 1, 5),
        build_op_immediate(MipsOpcode::AddIU, 0, 2, 7),
        build_op_immediate(MipsOpcode::AddIU, 0, 3, 9),
    ]));
    assert!(!ee.dual_issue);

    ee.cycle();
    assert_eq!(ee.read_register(1), 5);
    assert_eq!(ee.read_register(2), 0);
    assert_eq!(ee.pc_register, BIOS_START + 4);

    // The second word is fetched again as the first of the next cycle.
    ee.cycle();
    assert_eq!(ee.read_register(2), 7);
    assert_eq!(ee.read_register(3), 0);
    assert_eq!(ee.pc_register, BIOS_START + 8);
}

#[test]
fn dual_issue_runs_two_instructions_where_admitted() {
    let mut ee = EECore::new();
    ee.set_bios(instructions_to_bytes(&[
        build_op_immediate(MipsOpcode::AddIU, 0, 1, 5),
        build_op_immediate(MipsOpcode::AddIU, 0, 2, 7),
        // The second of this pair reads what the first writes.
        build_op_immediate(MipsOpcode::AddIU, 0, 3, 9),
        build_op_immediate(MipsOpcode::AddIU, 3, 4, 1),
        NOP,
        NOP,
    ]));
    ee.dual_issue = true;

    ee.cycle();
    assert_eq!(ee.read_register(1), 5);
    assert_eq!(ee.read_register(2), 7);
    assert_eq!(ee.pc_register, BIOS_START + 8);

    ee.cycle();
    assert_eq!(ee.read_register(3), 9);
    assert_eq!(ee.read_register(4), 0);
    assert_eq!(ee.pc_register, BIOS_START + 12);

    ee.cycle();
    assert_eq!(ee.read_register(4), 10);
    assert_eq!(ee.pc_register, BIOS_START + 20);
}

#[test]
fn dual_issue_keeps_two_loads_apart() {
    // Both need the load and store pipe, which only the second slot has.
    let mut ee = EECore::new();
    ee.set_bios(instructions_to_bytes(&[
        build_op_immediate(MipsOpcode::LUI, 0, 1, 0x1234),
        build_op_immediate(MipsOpcode::LUI, 0, 2, 0x5678),
        NOP,
    ]));
    ee.dual_issue = true;

    ee.cycle();
    assert_eq!(ee.read_register(1), 0x1234_0000);
    assert_eq!(ee.read_register(2), 0);
    assert_eq!(ee.pc_register, BIOS_START + 4);
}

#[test]
fn dual_issue_runs_the_word_behind_a_delay_slot() {
    // Both words of a cycle are fetched at once: the second is the word that
    // follows the first in memory, also where the first sits in the delay
    // slot of a jump that is taken.
    let offset_base = ((BIOS_START << 3) >> 5) as u32;

    let mut ee = EECore::new();
    ee.dual_issue = true;

    install_and_run_program_for(
        &mut ee,
        instructions_to_bytes(&vec![
            NOP,
            build_op_jump(MipsOpcode::J, offset_base + 8),
            // The delay slot, and the word behind it.
            NOP,
            build_op_immediate(MipsOpcode::LUI, 0, 9, 1),
            NOP,
            NOP,
            NOP,
            NOP,
            // The target of the jump.
            build_op_immediate(MipsOpcode::LUI, 0, 8, 0xabcd),
            build_op_immediate(MipsOpcode::OrI, 8, 8, 0xef12),
        ]),
        2,
    );

    // The jump was taken in the delay slot, and the word behind the slot
    // moved the program counter on from the target.
    assert_eq!(ee.pc_register, BIOS_START + (9 << 2));
    assert_eq!(ee.read_register(9), 0x1_0000);
    assert_eq!(ee.read_register(8), 0);

    ee.cycle();
    assert_eq!(ee.read_register(8), 0xef12);
    assert_eq!(ee.pc_register, BIOS_START + (11 << 2));
}

#[test]
fn peek_reads_without_a_trace() {
    let mut ee = EECore::new();
    ee.set_bios(vec![1, 2, 3, 4, 5, 6, 7, 8]);
    ee.write_memory(KSEG0_START + 0x40, &[9, 8, 7]);

    assert_eq!(ee.peek_memory(BIOS_START + 2, 4), Some(&[3u8, 4, 5, 6][..]));
    assert_eq!(ee.peek_memory(KSEG1_START + 0x40, 3), Some(&[9u8, 8, 7][..]));
    // What cannot be read gives nothing, and leaves no mark.
    assert_eq!(ee.peek_memory(0x0040_0000, 4), None);
    assert_eq!(ee.peek_memory(KSEG0_START + 0x0200_0000, 1), None);
    ee.write_cop0(Register::PageMask.to_u8(), 0x2000);
    assert_eq!(ee.peek_memory(0x1000, 4), None);
    ee.write_cop0_direct(Register::Status.to_u8(), Status::USER_MODE);
    assert_eq!(ee.peek_memory(BIOS_START, 4), None);
    assert!(!ee.excepted_this_cycle);
    assert!(ee.fault.is_none());
    assert_eq!(ee.read_cop0_direct(Register::Cause.to_u8()), 0);
    assert_eq!(ee.pc_register, BIOS_START);
}

#[test]
fn random_starts_again_from_outside_its_range() {
    // Below Wired, and beyond the last line.
    for (wired, random) in [(10u32, 3u32), (10, 9), (10, 10), (0, 0), (5, 48), (5, 1000), (47, 47)] {
        let mut ee = EECore::default();
        ee.set_bios(vec![0u8; 16]);
        ee.write_cop0(Register::Wired.to_u8(), wired);
        ee.write_cop0_direct(Register::Random.to_u8(), random);
        ee.cycle();
        assert_eq!(ee.read_cop0_direct(Register::Random.to_u8()), 47);
    }
    // Inside it, one step down.
    for (wired, random) in [(10u32, 11u32), (10, 47), (0, 1), (46, 47)] {
        let mut ee = EECore::default();
        ee.set_bios(vec![0u8; 16]);
        ee.write_cop0(Register::Wired.to_u8(), wired);
        ee.write_cop0_direct(Register::Random.to_u8(), random);
        ee.cycle();
        assert_eq!(ee.read_cop0_direct(Register::Random.to_u8()), random - 1);
    }
    // A move to Random of a value below Wired, in a cycle.
    let mut ee = EECore::default();
    ee.write_cop0(Register::Wired.to_u8(), 20);
    ee.write_register(1, 7);
    install_and_run_program(
        &mut ee,
        instructions_to_bytes(&[build_op_register_custom(
            MipsOpcode::Cop0,
            0,
            MT0,
            1,
            Register::Random.to_u8(),
            0,
        )]),
    );
    assert_eq!(ee.read_cop0_direct(Register::Random.to_u8()), 47);
    // A move to Wired starts Random again, and the step takes it down by one.
    let mut ee = EECore::default();
    ee.write_cop0_direct(Register::Random.to_u8(), 30);
    ee.write_register(1, 12);
    install_and_run_program(
        &mut ee,
        instructions_to_bytes(&[build_op_register_custom(
            MipsOpcode::Cop0,
            0,
            MT0,
            1,
            Register::Wired.to_u8(),
            0,
        )]),
    );
    assert_eq!(ee.mmu.wired, 12);
    assert_eq!(ee.read_cop0_direct(Register::Random.to_u8()), 46);
}
