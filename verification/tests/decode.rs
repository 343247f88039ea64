#![allow(unused_imports, unused_variables, unused_mut)]

use rs2::cpu::constants::requirements::{alu, branch, cop0, cop1_move, ls, mac0, sync, PipeClass};
use rs2::cpu::cop0::Register;
use rs2::cpu::ops::{process_instruction, Encoding, RegisterUse};
use rs2::cpu::pipeline::{
    can_dual_issue, BranchResult, EEAction, LiveAction, OpCode, Pipe, Slot,
};
use rs2::isa::mips::ee::{C0Function, CacheFunction, Cop0Function, Cop1Function, BC0, C0, MF0, MT0};
use rs2::isa::mips::instruction::{
    build_op_immediate, build_op_jump, build_op_register, build_op_register_custom, Instruction,
};
use rs2::isa::mips::{Capability, Function, Opcode, RegImmFunction, Requirement, NOP};

const FUNCTIONS: [(Function, u8, EEAction); 21] = [
    (Function::Add, 0b10_0000, EEAction::Add),
    (Function::AddU, 0b10_0001, EEAction::Addu),
    (Function::And, 0b10_0100, EEAction::And),
    (Function::Break, 0b00_1101, EEAction::BreakI),
    (Function::DAddU, 0b10_1101, EEAction::Daddu),
    (Function::Div, 0b01_1010, EEAction::Div),
    (Function::DivU, 0b01_1011, EEAction::Divu),
    (Function::JaLR, 0b00_1001, EEAction::Jalr),
    (Function::JR, 0b00_1000, EEAction::Jr),
    (Function::MFHi, 0b01_0000, EEAction::Mfhi),
    (Function::MFLo, 0b01_0010, EEAction::Mflo),
    (Function::MovN, 0b00_1011, EEAction::Movn),
    (Function::Mult, 0b01_1000, EEAction::Mult),
    (Function::Or, 0b10_0101, EEAction::Or),
    (Function::SLL, 0b00_0000, EEAction::Sll),
    (Function::SLT, 0b10_1010, EEAction::Slt),
    (Function::SLTU, 0b10_1011, EEAction::Sltu),
    (Function::SRA, 0b00_0011, EEAction::Sra),
    (Function::SRL, 0b00_0010, EEAction::Srl),
    (Function::SubU, 0b10_0011, EEAction::Subu),
    (Function::Sync, 0b00_1111, EEAction::Nop),
];

const OPCODES: [(Opcode, u8, EEAction); 24] = [
    (Opcode::AddI, 0b00_1000, EEAction::Addi),
    (Opcode::AddIU, 0b00_1001, EEAction::Addiu),
    (Opcode::AndI, 0b00_1100, EEAction::Andi),
    (Opcode::BEq, 0b00_0100, EEAction::Beq),
    (Opcode::BEqL, 0b01_0100, EEAction::Beql),
    (Opcode::BGTZ, 0b00_0111, EEAction::Bgtz),
    (Opcode::BLEZ, 0b00_0110, EEAction::Blez),
    (Opcode::BNE, 0b00_0101, EEAction::Bne),
    (Opcode::BNEL, 0b01_0101, EEAction::Bnel),
    (Opcode::J, 0b00_0010, EEAction::J),
    (Opcode::JaL, 0b00_0011, EEAction::Jal),
    (Opcode::LB, 0b10_0000, EEAction::Lb),
    (Opcode::LBU, 0b10_0100, EEAction::Lbu),
    (Opcode::LD, 0b11_0111, EEAction::Ld),
    (Opcode::LHU, 0b10_0101, EEAction::Lhu),
    (Opcode::LUI, 0b00_1111, EEAction::Lui),
    (Opcode::LW, 0b10_0011, EEAction::Lw),
    (Opcode::OrI, 0b00_1101, EEAction::Ori),
    (Opcode::SB, 0b10_1000, EEAction::Sb),
    (Opcode::SD, 0b11_1111, EEAction::Sd),
    (Opcode::SLTI, 0b00_1010, EEAction::Slti),
    (Opcode::SLTIU, 0b00_1011, EEAction::Sltiu),
    (Opcode::SW, 0b10_1011, EEAction::Sw),
    (Opcode::SWC1, 0b11_1001, EEAction::Swc1),
];

#[test]
fn field_accessors() {
    let word: u32 = 0b101011_10001_01010_11100_00111_110011;
    assert_eq!(word.get_opcode(), 0b101011);
    assert_eq!(word.ri_get_source(), 0b10001);
    assert_eq!(word.ri_get_target(), 0b01010);
    assert_eq!(word.r_get_destination(), 0b11100);
    assert_eq!(word.r_get_shift_amount(), 0b00111);
    assert_eq!(word.r_get_function(), 0b110011);
    assert_eq!(word.i_get_immediate(), 0b11100_00111_110011);
    assert_eq!(word.i_get_immediate_signed(), 0b11100_00111_110011u16 as i16);
    assert_eq!(word.j_get_jump(), 0b10001_01010_11100_00111_110011);

    let mut word: u32 = 0xffff_ffff;
    word.set_opcode(0);
    assert_eq!(word, 0x03ff_ffff);
    word.ri_set_source(0b10101);
    assert_eq!(word.ri_get_source(), 0b10101);
    word.ri_set_target(0);
    word.r_set_destination(1);
    word.r_set_shift_amount(2);
    word.r_set_function(3);
    assert_eq!(word, 0b000000_10101_00000_00001_00010_000011);
    word.i_set_immediate(0xbeef);
    assert_eq!(word.i_get_immediate(), 0xbeef);
    assert_eq!(word.ri_get_source(), 0b10101);
    word.j_set_jump(0x123_4567);
    assert_eq!(word.j_get_jump(), 0x123_4567);
    assert_eq!(word.get_opcode(), 0);

    // A decoded instruction gives the fields of its word.
    let mut op = process_instruction(0b000000_00001_00010_00011_00100_100000);
    assert_eq!(op.ri_get_source(), 1);
    assert_eq!(op.ri_get_target(), 2);
    assert_eq!(op.r_get_destination(), 3);
    assert_eq!(op.r_get_shift_amount(), 4);
    assert_eq!(op.r_get_function(), 0b100000);
    op.r_set_destination(9);
    assert_eq!(op.raw, 0b000000_00001_00010_01001_00100_100000);
    assert_eq!(op.action, EEAction::Add);
}

#[test]
fn a_field_too_wide_spills_upwards() {
    // 33 does not fit five bits: its sixth bit lands in the field above.
    assert_eq!(build_op_immediate(Opcode::AddI, 0, 33, 0), (0b001000 << 26) | (33 << 16));
    assert_eq!(build_op_immediate(Opcode::AddI, 0, 33, 0).ri_get_source(), 1);
    assert_eq!(build_op_jump(Opcode::J, 0x0400_0000).get_opcode(), 0b00_0011);
}

#[test]
fn every_function_is_decoded_to_its_action() {
    for (function, code, action) in FUNCTIONS {
        assert_eq!(function.to_u8(), code);
        assert_eq!(Function::from_u8(code), Some(function));
        let word = build_op_register(function, 1, 2, 3, 4);
        assert_eq!(Function::decode(word), Some(function));
        assert_eq!(Encoding::of_word(word), Some(Encoding::Special(function)));
        let op = process_instruction(word);
        assert_eq!(op.raw, word);
        assert_eq!(op.action, action);
    }
    assert_eq!(Function::from_u8(0b11_1111), None);
    assert_eq!(Function::from_u8(0b00_0001), None);
}

#[test]
fn every_opcode_is_decoded_to_its_action() {
    for (opcode, code, action) in OPCODES {
        assert_eq!(opcode.to_u8(), code);
        assert_eq!(Opcode::from_u8(code), Some(opcode));
        let word = build_op_immediate(opcode, 1, 2, 0x1234);
        assert_eq!(Encoding::of_word(word), Some(Encoding::Primary(opcode)));
        let op = process_instruction(word);
        assert_eq!(op.raw, word);
        assert_eq!(op.action, action);
        let word = build_op_jump(opcode, 0x12_3456);
        assert_eq!(process_instruction(word).action, action);
    }
    assert_eq!(Opcode::Special.to_u8(), 0);
    assert_eq!(Opcode::RegImm.to_u8(), 1);
    assert_eq!(Opcode::Cop0.to_u8(), 0b01_0000);
    assert_eq!(Opcode::Cop1.to_u8(), 0b01_0001);
    assert_eq!(Opcode::Cache.to_u8(), 0b10_1111);
    assert_eq!(Opcode::from_u8(0b11_1110), None);
    assert_eq!(Opcode::from_u8(64), None);
}

#[test]
fn families() {
    assert_eq!(RegImmFunction::BGEZ.to_u8(), 1);
    assert_eq!(RegImmFunction::BLTZ.to_u8(), 0);
    let word = build_op_immediate(Opcode::RegImm, 5, RegImmFunction::BGEZ.to_u8(), 8);
    assert_eq!(RegImmFunction::decode(word), Some(RegImmFunction::BGEZ));
    assert_eq!(process_instruction(word).action, EEAction::Bgez);
    let word = build_op_immediate(Opcode::RegImm, 5, RegImmFunction::BLTZ.to_u8(), 8);
    assert_eq!(process_instruction(word).action, EEAction::Bltz);
    let word = build_op_immediate(Opcode::RegImm, 5, 0b10001, 8);
    assert_eq!(RegImmFunction::decode(word), None);
    assert_eq!(process_instruction(word).action, EEAction::Nop);

    let caches = [
        (CacheFunction::BFH, 0b0_1100),
        (CacheFunction::BHINBT, 0b0_1010),
        (CacheFunction::BXLBT, 0b0_0010),
        (CacheFunction::BXSBT, 0b0_0110),
        (CacheFunction::DHIN, 0b1_1010),
        (CacheFunction::DHWBIN, 0b1_1000),
        (CacheFunction::DHWOIN, 0b1_1100),
        (CacheFunction::DXIN, 0b1_0110),
        (CacheFunction::DXLDT, 0b1_0001),
        (CacheFunction::DXLTG, 0b1_0000),
        (CacheFunction::DXSDT, 0b1_0011),
        (CacheFunction::DXSTG, 0b1_0010),
        (CacheFunction::DXWBIN, 0b1_0100),
        (CacheFunction::IFL, 0b0_1110),
        (CacheFunction::IHIN, 0b0_1011),
        (CacheFunction::IXIN, 0b0_0111),
        (CacheFunction::IXLDT, 0b0_0001),
        (CacheFunction::IXLTG, 0b0_0000),
        (CacheFunction::IXSDT, 0b0_0101),
        (CacheFunction::IXSTG, 0b0_0100),
    ];
    for (function, code) in caches {
        assert_eq!(function.to_u8(), code);
        assert_eq!(CacheFunction::from_u8(code), Some(function));
        let word = build_op_immediate(Opcode::Cache, 1, code, 0);
        assert_eq!(CacheFunction::decode(word), Some(function));
        let expected =
            if function == CacheFunction::IXLTG { EEAction::Ixltg } else { EEAction::Nop };
        assert_eq!(process_instruction(word).action, expected);
        assert_eq!(process_instruction(word).delay, 1);
    }
    assert_eq!(CacheFunction::from_u8(0b0_1000), None);
    assert_eq!(CacheFunction::from_u8(0b1_1111), None);

    assert_eq!(C0Function::TlbWI.to_u8(), 0b00_0010);
    assert_eq!(C0Function::TlbWR.to_u8(), 0b00_0110);
    assert_eq!(C0Function::from_u8(0b00_0110), Some(C0Function::TlbWR));
    assert_eq!(C0Function::from_u8(0b00_0111), None);
    assert_eq!(C0Function::decode(0xffff_ffc2), Some(C0Function::TlbWI));
    assert_eq!(Cop1Function::decode(0x4600_0000), None);
    assert_eq!(process_instruction(build_op_register_custom(Opcode::Cop1, 0, 0, 1, 2, 0)).action, EEAction::Nop);
}

#[test]
fn cop0_decoding() {
    let word = |function: u8, family: u8, rt: u8, rd: u8| {
        build_op_register_custom(Opcode::Cop0, function, family, rt, rd, 0)
    };
    let debug = Register::Debug.to_u8();
    assert_eq!(debug, 24);

    assert_eq!(Cop0Function::decode(word(0, MF0, 1, 15)), Some(Cop0Function::MFC0));
    assert_eq!(Cop0Function::decode(word(0, MF0, 1, debug)), Some(Cop0Function::MFBPC));
    assert_eq!(Cop0Function::decode(word(0, MT0, 1, 15)), Some(Cop0Function::MTC0));
    assert_eq!(Cop0Function::decode(word(0, MT0, 1, debug)), Some(Cop0Function::MTBPC));
    assert_eq!(Cop0Function::decode(word(2, C0, 0, 0)), Some(Cop0Function::TlbWI));
    assert_eq!(Cop0Function::decode(word(6, C0, 0, 0)), Some(Cop0Function::TlbWR));
    // The low eleven bits of a move are zero.
    assert_eq!(Cop0Function::decode(word(1, MF0, 1, 15)), None);
    assert_eq!(Cop0Function::decode(word(0, MT0, 1, 15) | (1 << 6)), None);
    assert_eq!(Cop0Function::decode(word(3, C0, 0, 0)), None);
    assert_eq!(Cop0Function::decode(word(0, BC0, 0, 0)), None);
    // A family that is none of the four.
    assert_eq!(Cop0Function::decode(word(0, 0b1_1111, 0, 0)), None);
    assert_eq!(Cop0Function::decode(word(0, 0b0_0001, 0, 0)), None);

    assert_eq!(process_instruction(word(0, MF0, 1, 15)).action, EEAction::Mfc0);
    assert_eq!(process_instruction(word(0, MF0, 1, debug)).action, EEAction::Mfc0);
    assert_eq!(process_instruction(word(0, MT0, 1, 15)).action, EEAction::Mtc0);
    assert_eq!(process_instruction(word(0, MT0, 1, debug)).action, EEAction::Mtc0);
    assert_eq!(process_instruction(word(2, C0, 0, 0)).action, EEAction::Tlbwi);
    assert_eq!(process_instruction(word(6, C0, 0, 0)).action, EEAction::Tlbwr);
    assert_eq!(process_instruction(word(0, 0b1_1111, 0, 0)).action, EEAction::Nop);
    assert_eq!(process_instruction(word(0, 0b1_1111, 0, 0)).raw, word(0, 0b1_1111, 0, 0));

    // MFBPC writes rt and reads nothing; MFC0 reads rd too.
    let mfbpc = process_instruction(word(0, MF0, 3, debug));
    assert_eq!(mfbpc.requirements.first().read, 0);
    assert_eq!(mfbpc.requirements.first().write & Capability::REGISTER_MASK, 1 << 3);
    let mfc0 = process_instruction(word(0, MF0, 3, 15));
    assert_eq!(mfc0.requirements.first().read, 1 << 15);
    let mtc0 = process_instruction(word(0, MT0, 3, 15));
    assert_eq!(mtc0.requirements.first().read, (1 << 3) | (1 << 15));
    assert_eq!(mtc0.requirements.first().write & Capability::REGISTER_MASK, 0);
}

#[test]
fn unknown_words_do_nothing() {
    for word in [0xfbff_ffffu32, 0b111110 << 26, 0b000000_00000_00000_00000_00000_111111] {
        let op = process_instruction(word);
        assert_eq!(op.raw, word);
        assert_eq!(op.action, EEAction::Nop);
        assert_eq!(op.delay, 0);
        assert_eq!(op.requirements, Requirement::Joint(Capability { write: 0, read: 0 }));
    }
    // The zero word is the explicit no-op: it goes to either integer pipe.
    let op = process_instruction(NOP);
    assert_eq!(op.action, EEAction::Nop);
    assert_eq!(op.delay, 0);
    assert_eq!(
        op.requirements,
        Requirement::Disjoint(
            Capability { write: Pipe::I0 << 38, read: 0 },
            Capability { write: Pipe::I1 << 38, read: 0 },
        )
    );
    assert_eq!(op.pipeline_fits(&Capability::all()), Slot::Either);
    let default = OpCode::default();
    assert_eq!(default.raw, 0);
    assert_eq!(default.action, EEAction::Nop);
    assert_eq!(default.requirements, Requirement::Joint(Capability::default()));
}

#[test]
fn table_lines() {
    let add = process_instruction(build_op_register(Function::Add, 1, 2, 3, 0));
    assert_eq!(add.delay, 1);
    assert!(!add.needs_queue());
    assert_eq!(
        add.requirements,
        Requirement::Disjoint(
            Capability { write: (1 << 3) | (Pipe::I0 << 38), read: (1 << 1) | (1 << 2) },
            Capability { write: (1 << 3) | (Pipe::I1 << 38), read: (1 << 1) | (1 << 2) },
        )
    );

    let div = process_instruction(build_op_register(Function::Div, 1, 2, 0, 0));
    assert_eq!(div.delay, 37);
    assert!(div.needs_queue());
    assert_eq!(
        div.requirements,
        Requirement::Joint(Capability {
            write: Capability::REG_HI | Capability::REG_LO | (Pipe::I0 << 38),
            read: (1 << 1) | (1 << 2),
        })
    );
    let mult = process_instruction(build_op_register(Function::Mult, 1, 2, 0, 0));
    assert_eq!(mult.delay, 4);

    let jal = process_instruction(build_op_jump(Opcode::JaL, 0x100));
    assert_eq!(
        jal.requirements,
        Requirement::Joint(Capability {
            write: Capability::REG_PC | (1 << 31) | (Pipe::BR << 38),
            read: 0,
        })
    );
    let jalr = process_instruction(build_op_register(Function::JaLR, 4, 0, 4, 0));
    assert_eq!(
        jalr.requirements,
        Requirement::Joint(Capability {
            write: Capability::REG_PC | (1 << 4) | (Pipe::BR << 38),
            read: 1 << 4,
        })
    );
    let bne = process_instruction(build_op_immediate(Opcode::BNE, 6, 7, 0));
    assert_eq!(
        bne.requirements,
        Requirement::Joint(Capability {
            write: Capability::REG_PC | (Pipe::BR << 38),
            read: (1 << 6) | (1 << 7),
        })
    );
    let swc1 = process_instruction(build_op_immediate(Opcode::SWC1, 6, 7, 0));
    assert_eq!(swc1.delay, 2);
    assert_eq!(
        swc1.requirements,
        Requirement::Joint(Capability { write: Pipe::COP1_MOVE << 38, read: 1 << 6 })
    );
    let sync = process_instruction(build_op_register(Function::Sync, 0, 0, 0, 0));
    assert_eq!(sync.requirements, Requirement::Joint(Capability { write: Pipe::I1 << 38, read: 0 }));
    // A register that is both read and written counts as written only.
    let ori = process_instruction(build_op_immediate(Opcode::OrI, 5, 5, 1));
    assert_eq!(ori.requirements.first().read, 0);
    assert_eq!(ori.requirements.first().write & Capability::REGISTER_MASK, 1 << 5);
    assert_eq!(ori.requirements.second().map(|c| c.read), Some(0));
    assert_eq!(div.requirements.second(), None);
}

#[test]
fn capability_builders() {
    let word = build_op_register(Function::Add, 1, 2, 3, 0);
    assert_eq!(Capability::normalised(0b0110, 0b1100), Capability { write: 0b0110, read: 0b1000 });
    assert_eq!(Capability::all(), Capability { write: u64::MAX, read: u64::MAX });
    assert_eq!(Capability::write_d_read_ts(word), Capability { write: 8, read: 6 });
    assert_eq!(Capability::write_d_read_s(word), Capability { write: 8, read: 2 });
    assert_eq!(Capability::write_d_read_t(word), Capability { write: 8, read: 4 });
    assert_eq!(Capability::write_d(word), Capability { write: 8, read: 0 });
    assert_eq!(Capability::write_t_read_s(word), Capability { write: 4, read: 2 });
    assert_eq!(Capability::write_t_read_d(word), Capability { write: 4, read: 8 });
    assert_eq!(Capability::write_t(word), Capability { write: 4, read: 0 });
    assert_eq!(Capability::read_ts(word), Capability { write: 0, read: 6 });
    assert_eq!(Capability::read_s(word), Capability { write: 0, read: 2 });
    assert_eq!(Capability::read_t(word), Capability { write: 0, read: 4 });
    assert_eq!(Capability::read_td(word), Capability { write: 0, read: 12 });
    assert_eq!(Capability::jump(word), Capability { write: 1 << 32, read: 0 });
    assert_eq!(Capability::jump_link(word), Capability { write: (1 << 32) | (1 << 31), read: 0 });
    assert_eq!(Capability::jump_link_reg(word), Capability { write: (1 << 32) | 8, read: 2 });
    assert_eq!(Capability::jump_reg(word), Capability { write: 1 << 32, read: 2 });
    assert_eq!(Capability::branch_compare(word), Capability { write: 1 << 32, read: 6 });
    assert_eq!(Capability::branch_read_s(word), Capability { write: 1 << 32, read: 2 });
    assert_eq!(Capability::mul_div(word), Capability { write: (1 << 34) | (1 << 35), read: 6 });
    assert_eq!(Capability::no_req(word), Capability { write: 0, read: 0 });
    assert_eq!(RegisterUse::MulDiv.build(word), Capability::mul_div(word));
    assert_eq!(RegisterUse::WriteTReadS.build(word), Capability::write_t_read_s(word));
    assert_eq!(Capability::REGISTER_MASK, (1 << 38) - 1);
    assert_eq!(Capability::PIPE_MASK, !Capability::REGISTER_MASK);
    assert_eq!(Capability::REG_SA, 1 << 33);
    assert_eq!(Capability::REG_HI1, 1 << 36);
    assert_eq!(Capability::REG_LO1, 1 << 37);
}

#[test]
fn slots_combine() {
    let (neither, pipe0, pipe1, either, both) =
        (Slot::Neither, Slot::Pipe0, Slot::Pipe1, Slot::Either, Slot::Both);
    assert_eq!(pipe0.combine(pipe1), either);
    assert_eq!(pipe1.combine(pipe0), either);
    for slot in [neither, pipe0, pipe1, either, both] {
        assert_eq!(neither.combine(slot), slot);
        assert_eq!(slot.combine(neither), slot);
        assert_eq!(slot.combine(slot), slot);
        assert_eq!(either.combine(slot), either);
        assert_eq!(slot.combine(either), either);
    }
    assert_eq!(both.combine(pipe0), pipe0);
    assert_eq!(pipe1.combine(both), pipe1);
}

#[test]
fn pipe_classes() {
    assert_eq!(PipeClass::Alu.requirement(), alu());
    assert_eq!(alu(), Requirement::Disjoint(Pipe { bits: Pipe::I0 }, Pipe { bits: Pipe::I1 }));
    assert_eq!(ls(), Requirement::Joint(Pipe { bits: Pipe::LS }));
    assert_eq!(cop0(), Requirement::Joint(Pipe { bits: Pipe::LS }));
    assert_eq!(sync(), Requirement::Joint(Pipe { bits: Pipe::I1 }));
    assert_eq!(mac0(), Requirement::Joint(Pipe { bits: Pipe::I0 }));
    assert_eq!(branch(), Requirement::Joint(Pipe { bits: Pipe::BR }));
    assert_eq!(cop1_move(), Requirement::Joint(Pipe { bits: Pipe::LS | Pipe::C1 }));
    assert_eq!(Pipe::LOGICAL0, Pipe::I0 | Pipe::BR | Pipe::C1 | Pipe::C2);
    assert_eq!(Pipe::LOGICAL1, Pipe::I1 | Pipe::LS | Pipe::BR | Pipe::C1 | Pipe::C2);
    assert_eq!(Pipe::all().bits(), 0b11_1111);
    assert!(Pipe::from_bits_truncate(0xff).contains(Pipe::WIDE_OPERATE));
    assert!(!Pipe::empty().contains(Pipe::I0));
    // A register that is not free leaves no slot.
    let needs_r3 = alu().fuse_registers(Capability { write: 1 << 3, read: 0 });
    let mut taken = Capability::all();
    taken.write &= !(1 << 3);
    assert_eq!(needs_r3.pipeline_fits(&taken), Slot::Neither);
    assert_eq!(needs_r3.pipeline_fits(&Capability::all()), Slot::Either);
}

#[test]
fn issue_predicate() {
    let all = Capability::all();
    let addiu = |rs: u8, rt: u8| process_instruction(build_op_immediate(Opcode::AddIU, rs, rt, 1));
    let lw = |rs: u8, rt: u8| process_instruction(build_op_immediate(Opcode::LW, rs, rt, 0));
    let mult = process_instruction(build_op_register(Function::Mult, 1, 2, 0, 0));
    let mfhi = process_instruction(build_op_register(Function::MFHi, 0, 0, 9, 0));
    let jump = process_instruction(build_op_jump(Opcode::J, 0x10));

    // Two ALU instructions on different registers.
    assert!(can_dual_issue(&addiu(1, 2), &addiu(3, 4), &all));
    // The second reads what the first writes.
    assert!(!can_dual_issue(&addiu(1, 2), &addiu(2, 4), &all));
    // Both write the same register.
    assert!(!can_dual_issue(&addiu(1, 2), &addiu(3, 2), &all));
    // The first reads what the second writes: no hazard, the first runs first.
    assert!(can_dual_issue(&addiu(4, 2), &addiu(3, 4), &all));
    // An ALU instruction beside a load, in either order.
    assert!(can_dual_issue(&addiu(1, 2), &lw(3, 4), &all));
    assert!(can_dual_issue(&lw(3, 4), &addiu(1, 2), &all));
    // Two loads need the same slot.
    assert!(!can_dual_issue(&lw(1, 2), &lw(3, 4), &all));
    // A multiplication in the first slot beside a load in the second.
    assert!(can_dual_issue(&mult, &lw(3, 4), &all));
    // Two instructions of the first slot.
    assert!(!can_dual_issue(&mult, &mfhi, &all));
    // A branch fits either slot.
    assert!(can_dual_issue(&addiu(1, 2), &jump, &all));
    assert!(can_dual_issue(&jump, &lw(3, 4), &all));
    // Two jumps both write the program counter.
    assert!(!can_dual_issue(&jump, &jump, &all));
    // With the second integer pipe taken, an ALU instruction is left the first
    // slot, and a multiplication cannot go beside it.
    let mut i1_taken = all;
    i1_taken.write &= !(Pipe::I1 << Capability::PIPELINE_SHIFT);
    assert_eq!(addiu(1, 2).pipeline_fits(&i1_taken), Slot::Pipe0);
    assert!(!can_dual_issue(&addiu(1, 2), &mult, &i1_taken));
    assert!(can_dual_issue(&addiu(1, 2), &lw(3, 4), &i1_taken));
}

#[test]
fn live_actions() {
    let div = process_instruction(build_op_register(Function::Div, 1, 2, 0, 0));
    let add = process_instruction(build_op_register(Function::Add, 1, 2, 3, 0));

    let live_div = div.make_live(100);
    assert_eq!(live_div.time, 136);
    assert_eq!(live_div.action.action, EEAction::Div);
    let live_add = add.make_live(136);
    assert_eq!(live_add.time, 136);

    // They are compared by their times alone.
    assert!(live_div == live_add);
    assert!(add.make_live(5) < add.make_live(6));
    assert!(div.make_live(5) > add.make_live(6));
    assert_eq!(add.make_live(5).partial_cmp(&add.make_live(5)), Some(std::cmp::Ordering::Equal));
    assert!(add.make_live(5) != add.make_live(6));
}

#[test]
fn branch_results() {
    assert_eq!(BranchResult::empty().bits(), 0);
    assert_eq!(BranchResult::default(), BranchResult::empty());
    let mut result = BranchResult::empty();
    assert!(!result.contains(BranchResult::BRANCHED));
    result.insert(BranchResult::BRANCHED);
    assert!(result.contains(BranchResult::BRANCHED));
    assert!(!result.contains(BranchResult::NULLIFIED));
    result.insert(0xf0 | BranchResult::NULLIFIED);
    assert_eq!(result, BranchResult::all());
    result.remove(BranchResult::BRANCHED);
    assert_eq!(result.bits(), BranchResult::NULLIFIED);
    assert_eq!(BranchResult::from_bits_truncate(0xff).bits(), 0b11);
}

#[test]
fn mnemonics() {
    assert_eq!(Encoding::Special(Function::Add).mnemonic(), Some("ADD"));
    assert_eq!(Encoding::Special(Function::Sync).mnemonic(), Some("SYNC"));
    assert_eq!(Encoding::Special(Function::JaLR).mnemonic(), Some("JALR"));
    assert_eq!(Encoding::Cache(CacheFunction::IXLTG).mnemonic(), Some("IXLTG"));
    assert_eq!(Encoding::Cop0(Cop0Function::MFBPC).mnemonic(), Some("MFBPC"));
    assert_eq!(Encoding::Cop0(Cop0Function::TlbWR).mnemonic(), Some("TLBWR"));
    assert_eq!(Encoding::RegImm(RegImmFunction::BLTZ).mnemonic(), Some("BLTZ"));
    assert_eq!(Encoding::Primary(Opcode::SWC1).mnemonic(), Some("SWC1"));
    assert_eq!(Encoding::Primary(Opcode::OrI).mnemonic(), Some("ORI"));
    // An opcode that only opens a family has no line, and no mnemonic.
    assert_eq!(Encoding::Primary(Opcode::Special).mnemonic(), None);
    assert_eq!(Encoding::Primary(Opcode::Cop1).table_entry(), None);
    for (opcode, _, action) in OPCODES {
        let line = Encoding::Primary(opcode).table_entry();
        assert_eq!(line.map(|l| l.action), Some(action));
        assert!(Encoding::Primary(opcode).mnemonic().is_some());
    }
    for (function, _, action) in FUNCTIONS {
        let line = Encoding::Special(function).table_entry();
        assert_eq!(line.map(|l| l.action), Some(action));
        assert!(Encoding::Special(function).mnemonic().is_some());
    }
}
