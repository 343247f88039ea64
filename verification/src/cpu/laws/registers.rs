//! The laws of the register files: what is written is read back, and a
//! write touches its own register alone.

use crate::cpu::cop0::Register;
use crate::cpu::state::{EEState, gpr_floor, half_offset, lower_half};
use crate::endian::splice;
use crate::memory::zeros;
use vstd::bytes::{
    lemma_auto_spec_u32_to_from_le_bytes, lemma_auto_spec_u64_to_from_le_bytes,
    spec_u32_to_le_bytes, spec_u64_to_le_bytes,
};
use vstd::prelude::*;

verus! {

/// Bytes written over a run inside a sequence leave its length as it was,
/// are read back from where they were written, and leave every run beside
/// them as it was.
pub proof fn lemma_splice(s: Seq<u8>, at: int, bytes: Seq<u8>)
    requires
        0 <= at,
        at + bytes.len() <= s.len(),
    ensures
        splice(s, at, bytes).len() == s.len(),
        splice(s, at, bytes).subrange(at, at + bytes.len()) == bytes,
        forall|from: int, to: int|
            0 <= from <= to <= s.len() && (to <= at || at + bytes.len() <= from) ==> #[trigger] splice(
                s,
                at,
                bytes,
            ).subrange(from, to) == s.subrange(from, to),
{
    assert(splice(s, at, bytes).subrange(at, at + bytes.len()) =~= bytes);
    assert forall|from: int, to: int|
        0 <= from <= to <= s.len() && (to <= at || at + bytes.len() <= from) implies #[trigger] splice(
        s,
        at,
        bytes,
    ).subrange(from, to) == s.subrange(from, to) by {
        assert(splice(s, at, bytes).subrange(from, to) =~= s.subrange(from, to));
    }
}

/// A value written to one of the registers 1 to 31 is read back from it.
pub proof fn law_register_keeps_what_is_written(s: EEState, index: u8, value: u64)
    requires
        s.register_file.len() == 512,
        1 <= index <= 31,
    ensures
        s.write_register(index, value).read_register(index) == value,
{
    lemma_auto_spec_u64_to_from_le_bytes();
    lemma_splice(s.register_file, gpr_floor(index), spec_u64_to_le_bytes(value));
}

/// A write to one register leaves every other register as it was.
pub proof fn law_register_write_leaves_the_others(s: EEState, index: u8, value: u64, other: u8)
    requires
        s.register_file.len() == 512,
        index < 32,
        other < 32,
        other != index,
    ensures
        s.write_register(index, value).read_register(other) == s.read_register(other),
{
    lemma_auto_spec_u64_to_from_le_bytes();
    lemma_splice(s.register_file, gpr_floor(index), spec_u64_to_le_bytes(value));
}

/// Register 0 is wired to zero: after a write to it, of whatever value, it
/// reads as zero; and so it does after a write to any other register.
pub proof fn law_register_zero_reads_zero(s: EEState, index: u8, value: u64)
    requires
        s.wf(),
        index < 32,
    ensures
        s.write_register(0, value).read_register(0) == 0,
        s.write_register(index, value).read_register(0) == 0,
{
    if index != 0 {
        law_register_write_leaves_the_others(s, index, value, 0);
    }
}

/// A value stored in a COP0 register is read back from it, and leaves every
/// other register of COP0 as it was.
pub proof fn law_cop0_keeps_what_is_stored(s: EEState, index: u8, value: u32, other: u8)
    requires
        s.cop0_register_file.len() == 128,
        index < 32,
        other < 32,
    ensures
        s.write_cop0_direct(index, value).read_cop0_direct(index) == value,
        other != index ==> s.write_cop0_direct(index, value).read_cop0_direct(other)
            == s.read_cop0_direct(other),
{
    lemma_auto_spec_u32_to_from_le_bytes();
    lemma_splice(s.cop0_register_file, index * 4, spec_u32_to_le_bytes(value));
}

/// Eight zero bytes hold the number zero.
pub proof fn lemma_zero_bytes()
    ensures
        vstd::bytes::spec_u64_from_le_bytes(zeros(8)) == 0,
{
    lemma_auto_spec_u64_to_from_le_bytes();
    assert(0u64 & 0xff == 0 && (0u64 >> 8) & 0xff == 0 && (0u64 >> 16) & 0xff == 0 && (0u64 >> 24)
        & 0xff == 0 && (0u64 >> 32) & 0xff == 0 && (0u64 >> 40) & 0xff == 0 && (0u64 >> 48) & 0xff
        == 0 && (0u64 >> 56) & 0xff == 0) by (bit_vector);
    vstd::bytes::spec_u64_to_le_bytes_to_open(0);
    assert(spec_u64_to_le_bytes(0) =~= zeros(8));
}

/// What is written to HI or LO, or to one of their halves, is read back
/// from there; and a write to HI leaves LO as it was, and the other way
/// round.
pub proof fn law_hi_lo_keep_what_is_written(s: EEState, value: u64, half: u8, word: u32)
    requires
        s.hi.len() == 16,
        s.lo.len() == 16,
    ensures
        s.write_hi(value).read_hi() == value,
        s.write_lo(value).read_lo() == value,
        s.write_hi_half(half, word).read_hi_half(half) == word,
        s.write_lo_half(half, word).read_lo_half(half) == word,
        s.write_hi(value).read_lo() == s.read_lo(),
        s.write_lo(value).read_hi() == s.read_hi(),
        s.write_hi_half(1, word).read_hi() == s.read_hi(),
        s.write_lo_half(1, word).read_lo() == s.read_lo(),
{
    lemma_auto_spec_u64_to_from_le_bytes();
    lemma_auto_spec_u32_to_from_le_bytes();
    lemma_splice(s.hi, lower_half(), spec_u64_to_le_bytes(value));
    lemma_splice(s.lo, lower_half(), spec_u64_to_le_bytes(value));
    lemma_splice(s.hi, half_offset(half), spec_u32_to_le_bytes(word));
    lemma_splice(s.lo, half_offset(half), spec_u32_to_le_bytes(word));
    lemma_splice(s.hi, half_offset(1), spec_u32_to_le_bytes(word));
    lemma_splice(s.lo, half_offset(1), spec_u32_to_le_bytes(word));
}

/// After a write to a COP0 register with its side effects, the register
/// holds what the write stored: the writable bits of the value.
pub proof fn law_cop0_write_is_read_back(s: EEState, index: u8, value: u32)
    requires
        s.cop0_register_file.len() == 128,
        index < 32,
    ensures
        s.write_cop0(index, value).read_cop0_direct(index) == s.masked_cop0_value(index, value),
{
    let stored = s.masked_cop0_value(index, value);
    law_cop0_keeps_what_is_stored(s, index, stored, 0);
    let s1 = s.write_cop0_direct(index, stored);
    lemma_auto_spec_u32_to_from_le_bytes();
    lemma_splice(s.cop0_register_file, index * 4, spec_u32_to_le_bytes(stored));
    if Register::spec_from_u8(index) == Some(Register::Wired) {
        let s2 = EEState {
            mmu: crate::memory::mmu::MmuView { wired: stored as u8, ..s1.mmu },
            ..s1
        };
        law_cop0_keeps_what_is_stored(
            s2,
            Register::Random.code(),
            crate::cpu::cop0::RANDOM_DEFAULT,
            index,
        );
    }
}

} // verus!
