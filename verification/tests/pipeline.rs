#![allow(unused_imports, unused_variables, unused_mut)]

use rs2::cpu::constants::requirements::{
    alu, branch, cop0, cop1_move, cop1_operate, cop2_move, cop2_operate, eret, ls, lzc, mac0, mac1,
    sa, sync, wide_operate,
};
use rs2::cpu::cop0::Register;
use rs2::cpu::ops::process_instruction;
use rs2::cpu::pipeline::{Pipe, Slot};
use rs2::isa::mips::ee::MF0;
use rs2::isa::mips::instruction::build_op_register_custom;
use rs2::isa::mips::{Capability, Opcode as MipsOpcode};

#[test]
fn ls_function_in_pipe_1() {
    assert_eq!(
        ls().fuse_registers(Default::default()).pipeline_fits(&Capability::all()),
        Slot::Pipe1,
    );
}

#[test]
fn sync_function_in_pipe_1() {
    assert_eq!(
        sync().fuse_registers(Default::default()).pipeline_fits(&Capability::all()),
        Slot::Pipe1,
    );
}

#[test]
fn lzc_function_in_pipe_1() {
    assert_eq!(
        lzc().fuse_registers(Default::default()).pipeline_fits(&Capability::all()),
        Slot::Pipe1,
    );
}

#[test]
fn eret_function_in_pipe_1() {
    assert_eq!(
        eret().fuse_registers(Default::default()).pipeline_fits(&Capability::all()),
        Slot::Pipe1,
    );
}

#[test]
fn sa_function_in_pipe_0() {
    assert_eq!(
        sa().fuse_registers(Default::default()).pipeline_fits(&Capability::all()),
        Slot::Pipe0,
    );
}

#[test]
fn cop0_function_in_pipe_1() {
    assert_eq!(
        cop0().fuse_registers(Default::default()).pipeline_fits(&Capability::all()),
        Slot::Pipe1,
    );
}

#[test]
fn cop1_move_function_in_pipe_1() {
    assert_eq!(
        cop1_move().fuse_registers(Default::default()).pipeline_fits(&Capability::all()),
        Slot::Pipe1,
    );
}

#[test]
fn cop2_move_function_in_pipe_1() {
    assert_eq!(
        cop2_move().fuse_registers(Default::default()).pipeline_fits(&Capability::all()),
        Slot::Pipe1,
    );
}

#[test]
fn cop1_operate_function_in_pipe_0() {
    assert_eq!(
        cop1_operate().fuse_registers(Default::default()).pipeline_fits(&Capability::all()),
        Slot::Pipe0,
    );
}

#[test]
fn cop2_operate_function_in_pipe_0() {
    assert_eq!(
        cop2_operate().fuse_registers(Default::default()).pipeline_fits(&Capability::all()),
        Slot::Pipe0,
    );
}

#[test]
fn alu_function_in_either_slot() {
    assert_eq!(
        alu().fuse_registers(Default::default()).pipeline_fits(&Capability::all()),
        Slot::Either,
    );
}

#[test]
fn mac0_function_in_pipe_0() {
    assert_eq!(
        mac0().fuse_registers(Default::default()).pipeline_fits(&Capability::all()),
        Slot::Pipe0,
    );
}

#[test]
fn mac1_function_in_pipe_1() {
    assert_eq!(
        mac1().fuse_registers(Default::default()).pipeline_fits(&Capability::all()),
        Slot::Pipe1,
    );
}

#[test]
fn branch_function_in_either_slot() {
    assert_eq!(
        branch().fuse_registers(Default::default()).pipeline_fits(&Capability::all()),
        Slot::Either,
    );
}

#[test]
fn wide_function_in_both_slots() {
    assert_eq!(
        wide_operate().fuse_registers(Default::default()).pipeline_fits(&Capability::all()),
        Slot::Both,
    );
}

#[test]
fn alu_function_narrows() {
    // Suppose MAC0 or MAC1 are asyncronously holding up the I0/1 pipes.
    let mut mac0_in_use = Capability::all();
    mac0_in_use.write &= !(Pipe::I0 << Capability::PIPELINE_SHIFT);

    assert_eq!(
        alu().fuse_registers(Default::default()).pipeline_fits(&mac0_in_use),
        Slot::Pipe1,
    );

    let mut mac1_in_use = Capability::all();
    mac1_in_use.write &= !(Pipe::I1 << Capability::PIPELINE_SHIFT);

    assert_eq!(
        alu().fuse_registers(Default::default()).pipeline_fits(&mac1_in_use),
        Slot::Pipe0,
    );
}

#[test]
fn shared_pipe_consumes_both() {
    let mut pipe_in_use = Capability::all();
    pipe_in_use.write &= !(Pipe::BR << Capability::PIPELINE_SHIFT);

    assert_eq!(
        branch().fuse_registers(Default::default()).pipeline_fits(&pipe_in_use),
        Slot::Neither,
    );
}

#[test]
fn mfc0_with_register_deps_in_pipe_1() {
    // Suppose MAC0 or MAC1 are asyncronously holding up the I0/1 pipes.
    let opcode = process_instruction(
        build_op_register_custom(
            MipsOpcode::Cop0, 0, MF0, 26, Register::PRId.to_u8(), 0
        )
    );

    assert_eq!(
        opcode.pipeline_fits(&Capability::all()),
        Slot::Pipe1,
    );
}
