//! The laws of the decoder: building a word and decoding it agree.

use crate::cpu::ops::{decoded_as, effect, Encoding, spec_process_instruction};
use crate::cpu::pipeline::EEAction;
use crate::cpu::state::EEState;
use crate::isa::mips::{Function, Opcode, RegImmFunction};
use crate::isa::mips::ee::CacheFunction;
use crate::isa::mips::instruction::{
    destination_of, function_of, immediate_of, immediate_word, jump_of, jump_word, opcode_of,
    register_word, shift_amount_of, source_of, target_of,
};
use vstd::prelude::*;

verus! {

proof fn lemma_fields_of_register_word(op: u32, f: u32, s: u32, t: u32, d: u32, sa: u32)
    by (bit_vector)
    requires
        op < 64,
        f < 64,
        s < 32,
        t < 32,
        d < 32,
        sa < 32,
    ensures
        ({
            let w = (op << 26) | (s << 21) | (t << 16) | (d << 11) | (sa << 6) | f;
            &&& w >> 26 == op
            &&& (w >> 21) & 0b0001_1111 == s
            &&& (w >> 16) & 0b0001_1111 == t
            &&& (w >> 11) & 0b0001_1111 == d
            &&& (w >> 6) & 0b0001_1111 == sa
            &&& w & 0b0011_1111 == f
            &&& (w == 0 ==> op == 0 && f == 0 && d == 0)
        }),
{
}

proof fn lemma_fields_of_immediate_word(op: u32, s: u32, t: u32, imm: u32)
    by (bit_vector)
    requires
        op < 64,
        s < 32,
        t < 32,
        imm < 0x1_0000,
    ensures
        ({
            let w = (op << 26) | (s << 21) | (t << 16) | imm;
            &&& w >> 26 == op
            &&& (w >> 21) & 0b0001_1111 == s
            &&& (w >> 16) & 0b0001_1111 == t
            &&& w & 0xFF_FF == imm
            &&& (w == 0 ==> op == 0)
        }),
{
}

proof fn lemma_fields_of_jump_word(op: u32, j: u32)
    by (bit_vector)
    requires
        op < 64,
        j < 0x0400_0000,
    ensures
        ({
            let w = (op << 26) | j;
            &&& w >> 26 == op
            &&& w & 0x03_FF_FF_FF == j
            &&& (w == 0 ==> op == 0)
        }),
{
}

/// A register-type word that is built from fields, each of which fits its
/// place, gives the fields back.
pub proof fn law_register_word_keeps_its_fields(
    opcode: u8,
    function: u8,
    source: u8,
    target: u8,
    destination: u8,
    shift_amount: u8,
)
    requires
        opcode < 64,
        function < 64,
        source < 32,
        target < 32,
        destination < 32,
        shift_amount < 32,
    ensures
        ({
            let word = register_word(opcode, function, source, target, destination, shift_amount);
            &&& opcode_of(word) == opcode
            &&& source_of(word) == source
            &&& target_of(word) == target
            &&& destination_of(word) == destination
            &&& shift_amount_of(word) == shift_amount
            &&& function_of(word) == function
        }),
{
    lemma_fields_of_register_word(
        opcode as u32,
        function as u32,
        source as u32,
        target as u32,
        destination as u32,
        shift_amount as u32,
    );
}

/// An immediate-type word that is built from fields, each of which fits its
/// place, gives the fields back.
pub proof fn law_immediate_word_keeps_its_fields(opcode: u8, source: u8, target: u8, immediate: u16)
    requires
        opcode < 64,
        source < 32,
        target < 32,
    ensures
        ({
            let word = immediate_word(opcode, source, target, immediate);
            &&& opcode_of(word) == opcode
            &&& source_of(word) == source
            &&& target_of(word) == target
            &&& immediate_of(word) == immediate
        }),
{
    lemma_fields_of_immediate_word(opcode as u32, source as u32, target as u32, immediate as u32);
}

/// A jump-type word that is built from an opcode and a target of at most 26
/// bits gives both back.
pub proof fn law_jump_word_keeps_its_fields(opcode: u8, jump_target: u32)
    requires
        opcode < 64,
        jump_target < 0x0400_0000,
    ensures
        opcode_of(jump_word(opcode, jump_target)) == opcode,
        jump_of(jump_word(opcode, jump_target)) == jump_target,
{
    lemma_fields_of_jump_word(opcode as u32, jump_target);
}

/// Building and decoding agree on the functions of the `Special` opcode:
/// the word that `build_op_register` builds for a function is decoded as
/// the line of that function in the table says, and so it does what the
/// function does. The one word that is decoded otherwise is the zero word,
/// which is SLL of register 0 into register 0: it is the explicit no-op,
/// and SLL on it does nothing either.
pub proof fn law_decode_of_built_register_word(
    function: Function,
    source: u8,
    target: u8,
    destination: u8,
    shift_amount: u8,
)
    requires
        source < 32,
        target < 32,
        destination < 32,
        shift_amount < 32,
    ensures
        ({
            let word = register_word(
                Opcode::Special.code(),
                function.code(),
                source,
                target,
                destination,
                shift_amount,
            );
            &&& Encoding::spec_of_word(word) == Some(Encoding::Special(function))
            &&& word != 0 ==> spec_process_instruction(word) == decoded_as(
                word,
                Encoding::Special(function),
            )
            &&& word == 0 ==> function == Function::SLL && spec_process_instruction(word).action
                == EEAction::Nop && forall|s: EEState| #[trigger]
                effect(s, EEAction::Sll, word) == effect(s, EEAction::Nop, word)
        }),
{
    law_register_word_keeps_its_fields(
        Opcode::Special.code(),
        function.code(),
        source,
        target,
        destination,
        shift_amount,
    );
    lemma_fields_of_register_word(
        Opcode::Special.code() as u32,
        function.code() as u32,
        source as u32,
        target as u32,
        destination as u32,
        shift_amount as u32,
    );
    function.law_code_round_trip();
}

/// Whether an opcode stands for an instruction of its own, and not for a
/// family of them.
pub open spec fn is_plain_opcode(opcode: Opcode) -> bool {
    opcode != Opcode::Special && opcode != Opcode::Cache && opcode != Opcode::Cop0 && opcode
        != Opcode::Cop1 && opcode != Opcode::RegImm
}

/// Building and decoding agree on the instructions that have an opcode of
/// their own: the word that `build_op_immediate` builds for one is decoded
/// as its line in the table says, and so is the word that `build_op_jump`
/// builds.
pub proof fn law_decode_of_built_immediate_word(
    opcode: Opcode,
    source: u8,
    target: u8,
    immediate: u16,
    jump_target: u32,
)
    requires
        is_plain_opcode(opcode),
        source < 32,
        target < 32,
        jump_target < 0x0400_0000,
    ensures
        spec_process_instruction(immediate_word(opcode.code(), source, target, immediate))
            == decoded_as(
            immediate_word(opcode.code(), source, target, immediate),
            Encoding::Primary(opcode),
        ),
        spec_process_instruction(jump_word(opcode.code(), jump_target)) == decoded_as(
            jump_word(opcode.code(), jump_target),
            Encoding::Primary(opcode),
        ),
{
    law_immediate_word_keeps_its_fields(opcode.code(), source, target, immediate);
    lemma_fields_of_immediate_word(
        opcode.code() as u32,
        source as u32,
        target as u32,
        immediate as u32,
    );
    law_jump_word_keeps_its_fields(opcode.code(), jump_target);
    lemma_fields_of_jump_word(opcode.code() as u32, jump_target);
    opcode.law_code_round_trip();
}

/// Building and decoding agree on the families that keep their member in
/// the target field: the word that `build_op_immediate` builds for a branch
/// of `RegImm`, or for an operation of `Cache`, is decoded as the line of
/// that member in the table says.
pub proof fn law_decode_of_built_family_word(
    branch: RegImmFunction,
    operation: CacheFunction,
    source: u8,
    immediate: u16,
)
    requires
        source < 32,
    ensures
        spec_process_instruction(
            immediate_word(Opcode::RegImm.code(), source, branch.code(), immediate),
        ) == decoded_as(
            immediate_word(Opcode::RegImm.code(), source, branch.code(), immediate),
            Encoding::RegImm(branch),
        ),
        spec_process_instruction(
            immediate_word(Opcode::Cache.code(), source, operation.code(), immediate),
        ) == decoded_as(
            immediate_word(Opcode::Cache.code(), source, operation.code(), immediate),
            Encoding::Cache(operation),
        ),
{
    law_immediate_word_keeps_its_fields(Opcode::RegImm.code(), source, branch.code(), immediate);
    lemma_fields_of_immediate_word(
        Opcode::RegImm.code() as u32,
        source as u32,
        branch.code() as u32,
        immediate as u32,
    );
    law_immediate_word_keeps_its_fields(Opcode::Cache.code(), source, operation.code(), immediate);
    lemma_fields_of_immediate_word(
        Opcode::Cache.code() as u32,
        source as u32,
        operation.code() as u32,
        immediate as u32,
    );
    branch.law_code_round_trip();
    operation.law_code_round_trip();
}

} // verus!
