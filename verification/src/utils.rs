//! Helpers shared by the instruction handlers and by those who load and
//! run programs.

use crate::cpu::EECore;
use crate::cpu::pipeline::{BranchOpCode, OpCode};
use crate::cpu::state::EEState;
use crate::endian::{words_to_le_bytes, write_u32_into};
use crate::isa::mips::instruction::{immediate_signed_of, Instruction, source_of};
use vstd::prelude::*;

verus! {

/// The processor after `n` cycles.
pub open spec fn cycles(s: EEState, n: nat) -> EEState
    decreases n,
{
    if n == 0 {
        s
    } else {
        cycles(s.cycle(), (n - 1) as nat)
    }
}

/// Installs `program` as the BIOS and runs one cycle for each of its
/// instructions.
pub fn install_and_run_program(cpu: &mut EECore, program: Vec<u8>)
    ensures
        final(cpu)@ == cycles(old(cpu)@.set_bios(program@), program@.len() / 4),
{
    let duration = program.len() / 4;
    install_and_run_program_for(cpu, program, duration);
}

/// Installs `program` as the BIOS and runs `duration` cycles.
pub fn install_and_run_program_for(cpu: &mut EECore, program: Vec<u8>, duration: usize)
    ensures
        final(cpu)@ == cycles(old(cpu)@.set_bios(program@), duration as nat),
{
    cpu.set_bios(program);
    let mut done: usize = 0;
    while done < duration
        invariant
            0 <= done <= duration,
            cycles(cpu@, (duration - done) as nat) == cycles(
                old(cpu)@.set_bios(program@),
                duration as nat,
            ),
        decreases duration - done,
    {
        cpu.cycle();
        done += 1;
    }
}

/// The bytes of a program: each instruction word low byte first.
pub fn instructions_to_bytes(program: &[u32]) -> (r: Vec<u8>)
    requires
        4 * program@.len() <= usize::MAX,
    ensures
        r@ == words_to_le_bytes(program@),
{
    let mut program_bytes = vec![0u8; 4 * program.len()];
    write_u32_into(program, program_bytes.as_mut_slice());

    program_bytes
}

/// The address of a load or a store: the low 32 bits of rs plus the
/// immediate, sign-extended, wrapping round.
pub open spec fn spec_v_addr_with_offset(s: EEState, word: u32) -> u32 {
    vstd::wrapping::u32_specs::wrapping_add(
        s.read_register(source_of(word)) as u32,
        immediate_signed_of(word) as u32,
    )
}

#[inline(always)]
pub fn v_addr_with_offset(cpu: &EECore, data: &OpCode) -> (r: u32)
    ensures
        r == spec_v_addr_with_offset(cpu@, data.raw),
{
    let offset: u32 = data.i_get_immediate_signed().s_ext();
    (cpu.read_register(data.ri_get_source()) as u32).wrapping_add(offset)
}

/// The target of a branch: the program counter plus four times the
/// immediate, sign-extended, wrapping round.
pub open spec fn spec_v_addr_with_offset_branch(s: EEState, word: u32) -> u32 {
    vstd::wrapping::u32_specs::wrapping_add(
        s.pc_register,
        (immediate_signed_of(word) as u32) << 2u32,
    )
}

#[inline(always)]
pub fn v_addr_with_offset_branch(cpu: &EECore, data: &BranchOpCode) -> (r: u32)
    ensures
        r == spec_v_addr_with_offset_branch(cpu@, data.raw),
{
    let offset: u32 = data.i_get_immediate_signed().s_ext();
    cpu.pc_register.wrapping_add(offset << 2)
}

/// Widening that copies the sign bit of the source into every new bit.
pub trait SignExtend<T>: Sized {
    /// The sign-extended value.
    spec fn s_ext_spec(self) -> T;

    fn s_ext(self) -> (r: T)
        ensures
            r == self.s_ext_spec(),
    ;
}

/// Widening that fills every new bit with zero.
pub trait ZeroExtend<T>: Sized {
    /// The zero-extended value.
    spec fn z_ext_spec(self) -> T;

    fn z_ext(self) -> (r: T)
        ensures
            r == self.z_ext_spec(),
    ;
}

impl SignExtend<u16> for i8 {
    open spec fn s_ext_spec(self) -> u16 {
        self as u16
    }

    fn s_ext(self) -> (r: u16) {
        self as u16
    }
}

impl SignExtend<u16> for u8 {
    open spec fn s_ext_spec(self) -> u16 {
        (self as i8) as u16
    }

    fn s_ext(self) -> (r: u16) {
        (self as i8) as u16
    }
}

impl SignExtend<u32> for i8 {
    open spec fn s_ext_spec(self) -> u32 {
        self as u32
    }

    fn s_ext(self) -> (r: u32) {
        self as u32
    }
}

impl SignExtend<u32> for u8 {
    open spec fn s_ext_spec(self) -> u32 {
        (self as i8) as u32
    }

    fn s_ext(self) -> (r: u32) {
        (self as i8) as u32
    }
}

impl SignExtend<u64> for i8 {
    open spec fn s_ext_spec(self) -> u64 {
        self as u64
    }

    fn s_ext(self) -> (r: u64) {
        self as u64
    }
}

impl SignExtend<u64> for u8 {
    open spec fn s_ext_spec(self) -> u64 {
        (self as i8) as u64
    }

    fn s_ext(self) -> (r: u64) {
        (self as i8) as u64
    }
}

impl SignExtend<u32> for i16 {
    open spec fn s_ext_spec(self) -> u32 {
        self as u32
    }

    fn s_ext(self) -> (r: u32) {
        self as u32
    }
}

impl SignExtend<u32> for u16 {
    open spec fn s_ext_spec(self) -> u32 {
        (self as i16) as u32
    }

    fn s_ext(self) -> (r: u32) {
        (self as i16) as u32
    }
}

impl SignExtend<u64> for i16 {
    open spec fn s_ext_spec(self) -> u64 {
        self as u64
    }

    fn s_ext(self) -> (r: u64) {
        self as u64
    }
}

impl SignExtend<u64> for u16 {
    open spec fn s_ext_spec(self) -> u64 {
        (self as i16) as u64
    }

    fn s_ext(self) -> (r: u64) {
        (self as i16) as u64
    }
}

impl SignExtend<u64> for i32 {
    open spec fn s_ext_spec(self) -> u64 {
        self as u64
    }

    fn s_ext(self) -> (r: u64) {
        self as u64
    }
}

impl SignExtend<u64> for u32 {
    open spec fn s_ext_spec(self) -> u64 {
        (self as i32) as u64
    }

    fn s_ext(self) -> (r: u64) {
        (self as i32) as u64
    }
}

impl ZeroExtend<u16> for i8 {
    open spec fn z_ext_spec(self) -> u16 {
        (self as u8) as u16
    }

    fn z_ext(self) -> (r: u16) {
        (self as u8) as u16
    }
}

impl ZeroExtend<u16> for u8 {
    open spec fn z_ext_spec(self) -> u16 {
        self as u16
    }

    fn z_ext(self) -> (r: u16) {
        self as u16
    }
}

impl ZeroExtend<u32> for i8 {
    open spec fn z_ext_spec(self) -> u32 {
        (self as u8) as u32
    }

    fn z_ext(self) -> (r: u32) {
        (self as u8) as u32
    }
}

impl ZeroExtend<u32> for u8 {
    open spec fn z_ext_spec(self) -> u32 {
        self as u32
    }

    fn z_ext(self) -> (r: u32) {
        self as u32
    }
}

impl ZeroExtend<u64> for i8 {
    open spec fn z_ext_spec(self) -> u64 {
        (self as u8) as u64
    }

    fn z_ext(self) -> (r: u64) {
        (self as u8) as u64
    }
}

impl ZeroExtend<u64> for u8 {
    open spec fn z_ext_spec(self) -> u64 {
        self as u64
    }

    fn z_ext(self) -> (r: u64) {
        self as u64
    }
}

impl ZeroExtend<u32> for i16 {
    open spec fn z_ext_spec(self) -> u32 {
        (self as u16) as u32
    }

    fn z_ext(self) -> (r: u32) {
        (self as u16) as u32
    }
}

impl ZeroExtend<u32> for u16 {
    open spec fn z_ext_spec(self) -> u32 {
        self as u32
    }

    fn z_ext(self) -> (r: u32) {
        self as u32
    }
}

impl ZeroExtend<u64> for i16 {
    open spec fn z_ext_spec(self) -> u64 {
        (self as u16) as u64
    }

    fn z_ext(self) -> (r: u64) {
        (self as u16) as u64
    }
}

impl ZeroExtend<u64> for u16 {
    open spec fn z_ext_spec(self) -> u64 {
        self as u64
    }

    fn z_ext(self) -> (r: u64) {
        self as u64
    }
}

impl ZeroExtend<u64> for i32 {
    open spec fn z_ext_spec(self) -> u64 {
        (self as u32) as u64
    }

    fn z_ext(self) -> (r: u64) {
        (self as u32) as u64
    }
}

impl ZeroExtend<u64> for u32 {
    open spec fn z_ext_spec(self) -> u64 {
        self as u64
    }

    fn z_ext(self) -> (r: u64) {
        self as u64
    }
}

proof fn lemma_extension_of_half(half: u16)
    by (bit_vector)
    ensures
        half < 0x8000 ==> ((half as i16) as u32) == half as u32 && ((half as i16) as u64)
            == half as u64,
        half >= 0x8000 ==> ((half as i16) as u32) == (half as u32) + 0xffff_0000u32 && ((
        half as i16) as u64) == (half as u64) + 0xffff_ffff_ffff_0000u64,
{
}

proof fn lemma_extension_of_word(word: u32)
    by (bit_vector)
    ensures
        word < 0x8000_0000 ==> ((word as i32) as u64) == word as u64,
        word >= 0x8000_0000 ==> ((word as i32) as u64) == (word as u64) + 0xffff_ffff_0000_0000u64,
{
}

/// Sign extension in numbers: a value whose top bit is clear keeps its
/// value, and one whose top bit is set gains every bit above it. Zero
/// extension keeps the value.
pub proof fn law_extensions(half: u16, word: u32)
    ensures
        SignExtend::<u32>::s_ext_spec(half) == if half < 0x8000 {
            half as int
        } else {
            half + 0xffff_0000
        },
        SignExtend::<u64>::s_ext_spec(half) == if half < 0x8000 {
            half as int
        } else {
            half + 0xffff_ffff_ffff_0000
        },
        SignExtend::<u64>::s_ext_spec(word) == if word < 0x8000_0000 {
            word as int
        } else {
            word + 0xffff_ffff_0000_0000
        },
        ZeroExtend::<u32>::z_ext_spec(half) == half,
        ZeroExtend::<u64>::z_ext_spec(half) == half,
        ZeroExtend::<u64>::z_ext_spec(word) == word,
{
    lemma_extension_of_half(half);
    lemma_extension_of_word(word);
}

} // verus!
