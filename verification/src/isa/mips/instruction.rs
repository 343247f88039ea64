//! Named fields of the 32-bit instruction word, and builders of whole words.

use crate::isa::mips::{Function, Opcode};
use vstd::prelude::*;

verus! {

pub const OP_MASK: u32 = 0b0011_1111;

pub const REGISTER_MASK: u32 = 0b0001_1111;

pub const IMMEDIATE_MASK: u32 = 0xFF_FF;

pub const JUMP_MASK: u32 = 0x03_FF_FF_FF;

/// Bits 31..26: the primary opcode.
pub open spec fn opcode_of(w: u32) -> u8 {
    (w >> 26) as u8
}

/// Bits 25..21: the source register `rs`.
pub open spec fn source_of(w: u32) -> u8 {
    ((w >> 21) & REGISTER_MASK) as u8
}

/// Bits 20..16: the target register `rt`.
pub open spec fn target_of(w: u32) -> u8 {
    ((w >> 16) & REGISTER_MASK) as u8
}

/// Bits 15..11: the destination register `rd`.
pub open spec fn destination_of(w: u32) -> u8 {
    ((w >> 11) & REGISTER_MASK) as u8
}

/// Bits 10..6: the shift amount `sa`.
pub open spec fn shift_amount_of(w: u32) -> u8 {
    ((w >> 6) & REGISTER_MASK) as u8
}

/// Bits 5..0: the function field.
pub open spec fn function_of(w: u32) -> u8 {
    (w & OP_MASK) as u8
}

/// Bits 15..0: the immediate, unsigned.
pub open spec fn immediate_of(w: u32) -> u16 {
    (w & 0xFF_FF) as u16
}

/// Bits 15..0: the immediate, read as a two's complement number.
pub open spec fn immediate_signed_of(w: u32) -> i16 {
    immediate_of(w) as i16
}

/// Bits 25..0: the jump target.
pub open spec fn jump_of(w: u32) -> u32 {
    w & 0x03_FF_FF_FF
}

/// `w` with the opcode field cleared and `v`, shifted to its place, or-ed in.
pub open spec fn with_opcode(w: u32, v: u8) -> u32 {
    (w & !(OP_MASK << 26)) | ((v as u32) << 26)
}

pub open spec fn with_source(w: u32, v: u8) -> u32 {
    (w & !(REGISTER_MASK << 21)) | ((v as u32) << 21)
}

pub open spec fn with_target(w: u32, v: u8) -> u32 {
    (w & !(REGISTER_MASK << 16)) | ((v as u32) << 16)
}

pub open spec fn with_destination(w: u32, v: u8) -> u32 {
    (w & !(REGISTER_MASK << 11)) | ((v as u32) << 11)
}

pub open spec fn with_shift_amount(w: u32, v: u8) -> u32 {
    (w & !(REGISTER_MASK << 6)) | ((v as u32) << 6)
}

pub open spec fn with_function(w: u32, v: u8) -> u32 {
    (w & !OP_MASK) | (v as u32)
}

pub open spec fn with_immediate(w: u32, v: u16) -> u32 {
    (w & !IMMEDIATE_MASK) | (v as u32)
}

pub open spec fn with_jump(w: u32, v: u32) -> u32 {
    (w & !JUMP_MASK) | v
}

/// The register fields and the shift amount are below 32, the opcode and the
/// function field below 64, the jump target below 2^26.
pub proof fn lemma_field_ranges(w: u32)
    ensures
        opcode_of(w) < 64,
        opcode_of(w) == w >> 26,
        source_of(w) < 32,
        target_of(w) < 32,
        destination_of(w) < 32,
        shift_amount_of(w) < 32,
        function_of(w) < 64,
        jump_of(w) < 0x0400_0000,
{
    assert((w >> 26) < 64 && ((w >> 21) & 0b0001_1111) < 32 && ((w >> 16) & 0b0001_1111) < 32 && ((w
        >> 11) & 0b0001_1111) < 32 && ((w >> 6) & 0b0001_1111) < 32 && (w & 0b0011_1111) < 64 && (w
        & 0x03_FF_FF_FF) < 0x0400_0000) by (bit_vector);
}

/// Reads and writes the named fields of an instruction word, on the word
/// itself or on a decoded instruction that carries it.
pub trait Instruction {
    /// The instruction word that the fields are taken from.
    spec fn word(&self) -> u32;

    fn get_opcode(&self) -> (r: u8)
        ensures
            r == opcode_of(self.word()),
            r < 64,
    ;

    fn ri_get_source(&self) -> (r: u8)
        ensures
            r == source_of(self.word()),
            r < 32,
    ;

    fn ri_get_target(&self) -> (r: u8)
        ensures
            r == target_of(self.word()),
            r < 32,
    ;

    fn r_get_destination(&self) -> (r: u8)
        ensures
            r == destination_of(self.word()),
            r < 32,
    ;

    fn r_get_shift_amount(&self) -> (r: u8)
        ensures
            r == shift_amount_of(self.word()),
            r < 32,
    ;

    fn r_get_function(&self) -> (r: u8)
        ensures
            r == function_of(self.word()),
            r < 64,
    ;

    fn i_get_immediate(&self) -> (r: u16)
        ensures
            r == immediate_of(self.word()),
    ;

    fn i_get_immediate_signed(&self) -> (r: i16)
        ensures
            r == immediate_signed_of(self.word()),
    ;

    fn j_get_jump(&self) -> (r: u32)
        ensures
            r == jump_of(self.word()),
            r < 0x0400_0000,
    ;

    fn set_opcode(&mut self, v: u8)
        ensures
            final(self).word() == with_opcode(old(self).word(), v),
    ;

    fn ri_set_source(&mut self, v: u8)
        ensures
            final(self).word() == with_source(old(self).word(), v),
    ;

    fn ri_set_target(&mut self, v: u8)
        ensures
            final(self).word() == with_target(old(self).word(), v),
    ;

    fn r_set_destination(&mut self, v: u8)
        ensures
            final(self).word() == with_destination(old(self).word(), v),
    ;

    fn r_set_shift_amount(&mut self, v: u8)
        ensures
            final(self).word() == with_shift_amount(old(self).word(), v),
    ;

    fn r_set_function(&mut self, v: u8)
        ensures
            final(self).word() == with_function(old(self).word(), v),
    ;

    fn i_set_immediate(&mut self, v: u16)
        ensures
            final(self).word() == with_immediate(old(self).word(), v),
    ;

    fn j_set_jump(&mut self, v: u32)
        ensures
            final(self).word() == with_jump(old(self).word(), v),
    ;
}

/// The fields of the word itself.
impl Instruction for u32 {
    open spec fn word(&self) -> u32 {
        *self
    }

    #[inline]
    fn get_opcode(&self) -> (r: u8) {
        proof {
            lemma_field_ranges(*self);
        }
        (*self >> 26) as u8
    }

    #[inline]
    fn ri_get_source(&self) -> (r: u8) {
        proof {
            lemma_field_ranges(*self);
        }
        ((*self >> 21) & REGISTER_MASK) as u8
    }

    #[inline]
    fn ri_get_target(&self) -> (r: u8) {
        proof {
            lemma_field_ranges(*self);
        }
        ((*self >> 16) & REGISTER_MASK) as u8
    }

    #[inline]
    fn r_get_destination(&self) -> (r: u8) {
        proof {
            lemma_field_ranges(*self);
        }
        ((*self >> 11) & REGISTER_MASK) as u8
    }

    #[inline]
    fn r_get_shift_amount(&self) -> (r: u8) {
        proof {
            lemma_field_ranges(*self);
        }
        ((*self >> 6) & REGISTER_MASK) as u8
    }

    #[inline]
    fn r_get_function(&self) -> (r: u8) {
        proof {
            lemma_field_ranges(*self);
        }
        (*self & OP_MASK) as u8
    }

    #[inline]
    fn i_get_immediate(&self) -> (r: u16) {
        (*self & 0xFF_FF) as u16
    }

    #[inline]
    fn i_get_immediate_signed(&self) -> (r: i16) {
        self.i_get_immediate() as i16
    }

    #[inline]
    fn j_get_jump(&self) -> (r: u32) {
        proof {
            lemma_field_ranges(*self);
        }
        *self & 0x03_FF_FF_FF
    }

    #[inline]
    fn set_opcode(&mut self, v: u8) {
        *self = (*self & !(OP_MASK << 26)) | ((v as u32) << 26);
    }

    #[inline]
    fn ri_set_source(&mut self, v: u8) {
        *self = (*self & !(REGISTER_MASK << 21)) | ((v as u32) << 21);
    }

    #[inline]
    fn ri_set_target(&mut self, v: u8) {
        *self = (*self & !(REGISTER_MASK << 16)) | ((v as u32) << 16);
    }

    #[inline]
    fn r_set_destination(&mut self, v: u8) {
        *self = (*self & !(REGISTER_MASK << 11)) | ((v as u32) << 11);
    }

    #[inline]
    fn r_set_shift_amount(&mut self, v: u8) {
        *self = (*self & !(REGISTER_MASK << 6)) | ((v as u32) << 6);
    }

    #[inline]
    fn r_set_function(&mut self, v: u8) {
        *self = (*self & !OP_MASK) | (v as u32);
    }

    #[inline]
    fn i_set_immediate(&mut self, v: u16) {
        *self = (*self & !IMMEDIATE_MASK) | (v as u32);
    }

    #[inline]
    fn j_set_jump(&mut self, v: u32) {
        *self = (*self & !JUMP_MASK) | v;
    }
}

/// The word whose fields, each shifted to its place, are or-ed together. A
/// field wider than its place spills into the bits above it.
pub open spec fn register_word(
    opcode: u8,
    function: u8,
    source: u8,
    target: u8,
    destination: u8,
    shift_amount: u8,
) -> u32 {
    ((opcode as u32) << 26) | ((source as u32) << 21) | ((target as u32) << 16) | ((
    destination as u32) << 11) | ((shift_amount as u32) << 6) | (function as u32)
}

pub open spec fn immediate_word(opcode: u8, source: u8, target: u8, immediate: u16) -> u32 {
    ((opcode as u32) << 26) | ((source as u32) << 21) | ((target as u32) << 16) | (immediate as u32)
}

pub open spec fn jump_word(opcode: u8, jump_target: u32) -> u32 {
    ((opcode as u32) << 26) | jump_target
}

proof fn lemma_register_word(op: u32, f: u32, s: u32, t: u32, d: u32, sa: u32)
    by (bit_vector)
    requires
        op < 256,
        f < 256,
        s < 256,
        t < 256,
        d < 256,
        sa < 256,
    ensures
        ({
            let w1 = (0u32 & !(0b0011_1111u32 << 26)) | (op << 26);
            let w2 = (w1 & !(0b0001_1111u32 << 21)) | (s << 21);
            let w3 = (w2 & !(0b0001_1111u32 << 16)) | (t << 16);
            let w4 = (w3 & !(0b0001_1111u32 << 11)) | (d << 11);
            let w5 = (w4 & !(0b0001_1111u32 << 6)) | (sa << 6);
            (w5 & !0b0011_1111u32) | f
        }) == (op << 26) | (s << 21) | (t << 16) | (d << 11) | (sa << 6) | f,
{
}

proof fn lemma_immediate_word(op: u32, s: u32, t: u32, imm: u32)
    by (bit_vector)
    requires
        op < 256,
        s < 256,
        t < 256,
        imm < 0x1_0000,
    ensures
        ({
            let w1 = (0u32 & !(0b0011_1111u32 << 26)) | (op << 26);
            let w2 = (w1 & !(0b0001_1111u32 << 21)) | (s << 21);
            let w3 = (w2 & !(0b0001_1111u32 << 16)) | (t << 16);
            (w3 & !0xFF_FFu32) | imm
        }) == (op << 26) | (s << 21) | (t << 16) | imm,
{
}

proof fn lemma_jump_word(op: u32, j: u32)
    by (bit_vector)
    requires
        op < 256,
    ensures
        (((0u32 & !(0b0011_1111u32 << 26)) | (op << 26)) & !0x03_FF_FF_FFu32) | j == (op << 26) | j,
{
}

/// Builds a register-type word with the `Special` opcode.
#[inline]
pub fn build_op_register(
    function: Function,
    source: u8,
    target: u8,
    destination: u8,
    shift_amount: u8,
) -> (r: u32)
    ensures
        r == register_word(
            Opcode::Special.code(),
            function.code(),
            source,
            target,
            destination,
            shift_amount,
        ),
{
    build_op_register_custom(
        Opcode::Special,
        function.to_u8(),
        source,
        target,
        destination,
        shift_amount,
    )
}

/// Builds a register-type word under any opcode.
#[inline]
pub fn build_op_register_custom(
    opcode: Opcode,
    function: u8,
    source: u8,
    target: u8,
    destination: u8,
    shift_amount: u8,
) -> (r: u32)
    ensures
        r == register_word(opcode.code(), function, source, target, destination, shift_amount),
{
    let mut out: u32 = 0;

    out.set_opcode(opcode.to_u8());
    out.ri_set_source(source);
    out.ri_set_target(target);
    out.r_set_destination(destination);
    out.r_set_shift_amount(shift_amount);
    out.r_set_function(function);

    proof {
        lemma_register_word(
            opcode.code() as u32,
            function as u32,
            source as u32,
            target as u32,
            destination as u32,
            shift_amount as u32,
        );
    }

    out
}

/// Builds an immediate-type word.
#[inline]
pub fn build_op_immediate(opcode: Opcode, source: u8, target: u8, immediate: u16) -> (r: u32)
    ensures
        r == immediate_word(opcode.code(), source, target, immediate),
{
    let mut out: u32 = 0;

    out.set_opcode(opcode.to_u8());
    out.ri_set_source(source);
    out.ri_set_target(target);
    out.i_set_immediate(immediate);

    proof {
        lemma_immediate_word(
            opcode.code() as u32,
            source as u32,
            target as u32,
            immediate as u32,
        );
    }

    out
}

/// Builds a jump-type word. A `jump_target` of more than 26 bits spills into
/// the opcode field.
#[inline]
pub fn build_op_jump(opcode: Opcode, jump_target: u32) -> (r: u32)
    ensures
        r == jump_word(opcode.code(), jump_target),
{
    let mut out: u32 = 0;

    out.set_opcode(opcode.to_u8());
    out.j_set_jump(jump_target);

    proof {
        lemma_jump_word(opcode.code() as u32, jump_target);
    }

    out
}

} // verus!
