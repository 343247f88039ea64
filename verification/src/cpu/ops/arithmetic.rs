//! Integer arithmetic, logic, shifts and comparisons.

use crate::cpu::EECore;
use crate::cpu::exceptions::L1Exception;
use crate::cpu::pipeline::OpCode;
use crate::cpu::state::EEState;
use crate::isa::mips::instruction::{
    destination_of, immediate_of, immediate_signed_of, Instruction, shift_amount_of, source_of,
    target_of,
};
use crate::utils::SignExtend;
use vstd::prelude::*;

verus! {

/// Whether `n` is a number that 32 bits hold in two's complement.
pub open spec fn fits_i32(n: int) -> bool {
    i32::MIN <= n <= i32::MAX
}

/// The quotient of `x` by `d`, which is not zero, rounded towards zero.
pub open spec fn quotient_towards_zero(x: int, d: int) -> int {
    if x == 0 {
        0
    } else if x > 0 && d > 0 {
        x / d
    } else if x < 0 && d < 0 {
        ((x * -1) / (d * -1))
    } else if x < 0 {
        ((x * -1) / d) * -1
    } else {
        (x / (d * -1)) * -1
    }
}

/// The remainder that goes with `quotient_towards_zero`: it has the sign of
/// `x`.
pub open spec fn remainder_towards_zero(x: int, d: int) -> int {
    if x == 0 {
        0
    } else if x > 0 && d > 0 {
        x % d
    } else if x < 0 && d < 0 {
        ((x * -1) % (d * -1)) * -1
    } else if x < 0 {
        ((x * -1) % d) * -1
    } else {
        x % (d * -1)
    }
}

/// Of a dividend of at most `bound` and a divisor of at least 1, the
/// quotient is at most `bound` and the remainder less than the divisor.
proof fn lemma_division_bounds(a: int, b: int, bound: int)
    by (nonlinear_arith)
    requires
        0 <= a <= bound,
        1 <= b,
    ensures
        0 <= a / b <= bound,
        0 <= a % b < b,
        b >= 2 ==> 2 * (a / b) <= bound,
{
}

/// Quotient and remainder of two numbers of 32 bits fit 32 bits, but for the
/// least number divided by -1.
proof fn lemma_towards_zero_fits(x: int, d: int)
    requires
        fits_i32(x),
        fits_i32(d),
        d != 0,
        !(x == i32::MIN && d == -1),
    ensures
        fits_i32(quotient_towards_zero(x, d)),
        fits_i32(remainder_towards_zero(x, d)),
{
    if x > 0 && d > 0 {
        lemma_division_bounds(x, d, 0x7fff_ffff);
    } else if x < 0 && d < 0 {
        lemma_division_bounds(x * -1, d * -1, 0x8000_0000);
    } else if x < 0 {
        lemma_division_bounds(x * -1, d, 0x8000_0000);
    } else if x > 0 {
        lemma_division_bounds(x, d * -1, 0x7fff_ffff);
    }
}

/// ADD: rd <- rs + rt on 32 bits, sign-extended. Where the sum does not fit
/// 32 bits, rd is left as it is and an overflow exception is raised.
pub open spec fn spec_add(s: EEState, word: u32) -> EEState {
    let lhs = s.read_register(source_of(word)) as i32;
    let rhs = s.read_register(target_of(word)) as i32;
    if fits_i32(lhs + rhs) {
        s.write_register(destination_of(word), ((lhs + rhs) as i32) as u64)
    } else {
        s.throw_l1_exception(L1Exception::Overflow)
    }
}

pub fn add(cpu: &mut EECore, data: &OpCode)
    ensures
        final(cpu)@ == spec_add(old(cpu)@, data.raw),
{
    let lhs = cpu.read_register(data.ri_get_source()) as i32;
    let rhs = cpu.read_register(data.ri_get_target()) as i32;

    if let Some(sum) = lhs.checked_add(rhs) {
        cpu.write_register(data.r_get_destination(), sum.s_ext());
    } else {
        cpu.throw_l1_exception(L1Exception::Overflow);
    }
}

/// ADDI: rt <- rs + the immediate, sign-extended, on 32 bits. Where the sum
/// does not fit 32 bits, rt is left as it is and an overflow exception is
/// raised.
pub open spec fn spec_addi(s: EEState, word: u32) -> EEState {
    let lhs = s.read_register(source_of(word)) as i32;
    let rhs = immediate_signed_of(word) as i32;
    if fits_i32(lhs + rhs) {
        s.write_register(target_of(word), ((lhs + rhs) as i32) as u64)
    } else {
        s.throw_l1_exception(L1Exception::Overflow)
    }
}

pub fn addi(cpu: &mut EECore, data: &OpCode)
    ensures
        final(cpu)@ == spec_addi(old(cpu)@, data.raw),
{
    let lhs = cpu.read_register(data.ri_get_source()) as i32;
    let rhs = data.i_get_immediate_signed() as i32;

    if let Some(sum) = lhs.checked_add(rhs) {
        cpu.write_register(data.ri_get_target(), sum as u64);
    } else {
        cpu.throw_l1_exception(L1Exception::Overflow);
    }
}

/// ADDIU: rt <- rs + the immediate, sign-extended, on 32 bits, wrapping
/// round; the result is sign-extended.
pub open spec fn spec_addiu(s: EEState, word: u32) -> EEState {
    let lhs = s.read_register(source_of(word)) as u32;
    let rhs = immediate_signed_of(word) as u32;
    s.write_register(
        target_of(word),
        (vstd::wrapping::u32_specs::wrapping_add(lhs, rhs) as i32) as u64,
    )
}

pub fn addiu(cpu: &mut EECore, data: &OpCode)
    ensures
        final(cpu)@ == spec_addiu(old(cpu)@, data.raw),
{
    let lhs = cpu.read_register(data.ri_get_source()) as u32;
    let rhs: u32 = data.i_get_immediate_signed().s_ext();

    cpu.write_register(data.ri_get_target(), lhs.wrapping_add(rhs).s_ext());
}

/// ADDU: rd <- rs + rt on 32 bits, wrapping round; the result is
/// sign-extended.
pub open spec fn spec_addu(s: EEState, word: u32) -> EEState {
    let lhs = s.read_register(source_of(word)) as u32;
    let rhs = s.read_register(target_of(word)) as u32;
    s.write_register(
        destination_of(word),
        (vstd::wrapping::u32_specs::wrapping_add(lhs, rhs) as i32) as u64,
    )
}

pub fn addu(cpu: &mut EECore, data: &OpCode)
    ensures
        final(cpu)@ == spec_addu(old(cpu)@, data.raw),
{
    let lhs = cpu.read_register(data.ri_get_source()) as u32;
    let rhs = cpu.read_register(data.ri_get_target()) as u32;

    cpu.write_register(data.r_get_destination(), lhs.wrapping_add(rhs).s_ext());
}

/// AND: rd <- rs & rt.
pub open spec fn spec_and(s: EEState, word: u32) -> EEState {
    s.write_register(
        destination_of(word),
        s.read_register(source_of(word)) & s.read_register(target_of(word)),
    )
}

pub fn and(cpu: &mut EECore, data: &OpCode)
    ensures
        final(cpu)@ == spec_and(old(cpu)@, data.raw),
{
    let v = cpu.read_register(data.ri_get_source()) & cpu.read_register(data.ri_get_target());
    cpu.write_register(data.r_get_destination(), v);
}

/// ANDI: rt <- rs & the immediate, zero-extended.
pub open spec fn spec_andi(s: EEState, word: u32) -> EEState {
    s.write_register(
        target_of(word),
        s.read_register(source_of(word)) & (immediate_of(word) as u64),
    )
}

pub fn andi(cpu: &mut EECore, data: &OpCode)
    ensures
        final(cpu)@ == spec_andi(old(cpu)@, data.raw),
{
    let extd_imm = data.i_get_immediate() as u64;
    let v = cpu.read_register(data.ri_get_source()) & extd_imm;
    cpu.write_register(data.ri_get_target(), v);
}

/// DADDU: rd <- rs + rt on 64 bits, wrapping round.
pub open spec fn spec_daddu(s: EEState, word: u32) -> EEState {
    s.write_register(
        destination_of(word),
        vstd::wrapping::u64_specs::wrapping_add(
            s.read_register(source_of(word)),
            s.read_register(target_of(word)),
        ),
    )
}

pub fn daddu(cpu: &mut EECore, data: &OpCode)
    ensures
        final(cpu)@ == spec_daddu(old(cpu)@, data.raw),
{
    let lhs = cpu.read_register(data.ri_get_source());
    let rhs = cpu.read_register(data.ri_get_target());

    cpu.write_register(data.r_get_destination(), lhs.wrapping_add(rhs));
}

/// The quotient that DIV leaves in LO: rounded towards zero, and the least
/// number itself where the least number is divided by -1.
pub open spec fn div_quotient(lhs: i32, rhs: i32) -> i32 {
    if lhs == i32::MIN && rhs == -1 {
        i32::MIN
    } else {
        quotient_towards_zero(lhs as int, rhs as int) as i32
    }
}

/// The remainder that DIV leaves in HI: it has the sign of the dividend,
/// and is zero where the least number is divided by -1.
pub open spec fn div_remainder(lhs: i32, rhs: i32) -> i32 {
    if lhs == i32::MIN && rhs == -1 {
        0
    } else {
        remainder_towards_zero(lhs as int, rhs as int) as i32
    }
}

/// DIV: LO <- rs / rt and HI <- rs % rt on 32 bits, signed, both
/// sign-extended. A division by zero changes nothing.
pub open spec fn spec_div(s: EEState, word: u32) -> EEState {
    let lhs = s.read_register(source_of(word)) as i32;
    let rhs = s.read_register(target_of(word)) as i32;
    if rhs == 0 {
        s
    } else {
        s.write_hi(div_remainder(lhs, rhs) as u64).write_lo(div_quotient(lhs, rhs) as u64)
    }
}

pub fn div(cpu: &mut EECore, data: &OpCode)
    ensures
        final(cpu)@ == spec_div(old(cpu)@, data.raw),
{
    let lhs = cpu.read_register(data.ri_get_source()) as i32;
    let rhs = cpu.read_register(data.ri_get_target()) as i32;

    if rhs == 0 {
        return ;
    }
    proof {
        if !(lhs == i32::MIN && rhs == -1) {
            lemma_towards_zero_fits(lhs as int, rhs as int);
        }
    }
    let quotient: u64 = match lhs.checked_div(rhs) {
        Some(q) => q.s_ext(),
        None => i32::MIN.s_ext(),
    };
    let remainder: u64 = match lhs.checked_rem(rhs) {
        Some(r) => r.s_ext(),
        None => 0i32.s_ext(),
    };

    cpu.write_hi(remainder);
    cpu.write_lo(quotient);
}

/// DIVU: LO <- rs / rt and HI <- rs % rt on 32 bits, unsigned; both are
/// sign-extended. A division by zero changes nothing.
pub open spec fn spec_divu(s: EEState, word: u32) -> EEState {
    let lhs = s.read_register(source_of(word)) as u32;
    let rhs = s.read_register(target_of(word)) as u32;
    if rhs == 0 {
        s
    } else {
        s.write_hi((((lhs % rhs) as u32) as i32) as u64).write_lo(
            (((lhs / rhs) as u32) as i32) as u64,
        )
    }
}

pub fn divu(cpu: &mut EECore, data: &OpCode)
    ensures
        final(cpu)@ == spec_divu(old(cpu)@, data.raw),
{
    let lhs = cpu.read_register(data.ri_get_source()) as u32;
    let rhs = cpu.read_register(data.ri_get_target()) as u32;

    if rhs == 0 {
        return ;
    }
    let quotient: u64 = (lhs / rhs).s_ext();
    let remainder: u64 = (lhs % rhs).s_ext();

    cpu.write_hi(remainder);
    cpu.write_lo(quotient);
}

/// MOVN: rd <- rs, if rt is not zero.
pub open spec fn spec_movn(s: EEState, word: u32) -> EEState {
    if s.read_register(target_of(word)) != 0 {
        s.write_register(destination_of(word), s.read_register(source_of(word)))
    } else {
        s
    }
}

pub fn movn(cpu: &mut EECore, data: &OpCode)
    ensures
        final(cpu)@ == spec_movn(old(cpu)@, data.raw),
{
    if cpu.read_register(data.ri_get_target()) != 0 {
        let v = cpu.read_register(data.ri_get_source());
        cpu.write_register(data.r_get_destination(), v);
    }
}

/// The product of MULT: that of the two registers as signed numbers of 64
/// bits, wrapping round.
pub open spec fn mult_product(s: EEState, word: u32) -> i64 {
    vstd::wrapping::i64_specs::wrapping_mul(
        s.read_register(source_of(word)) as i64,
        s.read_register(target_of(word)) as i64,
    )
}

/// MULT: HI <- the product shifted right by 32 bits; LO and rd <- the low
/// 32 bits of the product, sign-extended.
pub open spec fn spec_mult(s: EEState, word: u32) -> EEState {
    let result = mult_product(s, word);
    let lo_part = (result as i32) as u64;
    s.write_hi((result >> 32u32) as u64).write_lo(lo_part).write_register(
        destination_of(word),
        lo_part,
    )
}

pub fn mult(cpu: &mut EECore, data: &OpCode)
    ensures
        final(cpu)@ == spec_mult(old(cpu)@, data.raw),
{
    let lhs = cpu.read_register(data.ri_get_source()) as i64;
    let rhs = cpu.read_register(data.ri_get_target()) as i64;
    let result = lhs.wrapping_mul(rhs);

    cpu.write_hi((result >> 32u32) as u64);
    let lo_part: u64 = (result as i32).s_ext();
    cpu.write_lo(lo_part);

    let dest = data.r_get_destination();
    if dest != 0 {
        cpu.write_register(dest, lo_part);
    }
}

/// OR: rd <- rs | rt.
pub open spec fn spec_or(s: EEState, word: u32) -> EEState {
    s.write_register(
        destination_of(word),
        s.read_register(source_of(word)) | s.read_register(target_of(word)),
    )
}

pub fn or(cpu: &mut EECore, data: &OpCode)
    ensures
        final(cpu)@ == spec_or(old(cpu)@, data.raw),
{
    let v = cpu.read_register(data.ri_get_source()) | cpu.read_register(data.ri_get_target());
    cpu.write_register(data.r_get_destination(), v);
}

/// ORI: rt <- rs | the immediate, zero-extended.
pub open spec fn spec_ori(s: EEState, word: u32) -> EEState {
    s.write_register(
        target_of(word),
        s.read_register(source_of(word)) | (immediate_of(word) as u64),
    )
}

pub fn ori(cpu: &mut EECore, data: &OpCode)
    ensures
        final(cpu)@ == spec_ori(old(cpu)@, data.raw),
{
    let extd_imm = data.i_get_immediate() as u64;
    let v = cpu.read_register(data.ri_get_source()) | extd_imm;
    cpu.write_register(data.ri_get_target(), v);
}

/// SLL: rd <- the low 32 bits of rt shifted left by sa, sign-extended.
pub open spec fn spec_sll(s: EEState, word: u32) -> EEState {
    s.write_register(
        destination_of(word),
        ((((s.read_register(target_of(word)) as u32) << shift_amount_of(word)) as u32)
            as i32) as u64,
    )
}

pub fn sll(cpu: &mut EECore, data: &OpCode)
    ensures
        final(cpu)@ == spec_sll(old(cpu)@, data.raw),
{
    let v: u64 = ((cpu.read_register(data.ri_get_target()) as u32)
        << data.r_get_shift_amount()).s_ext();
    cpu.write_register(data.r_get_destination(), v);
}

/// SLT: rd <- 1 if rs is less than rt, as signed numbers of 64 bits, else 0.
pub open spec fn spec_slt(s: EEState, word: u32) -> EEState {
    s.write_register(
        destination_of(word),
        if (s.read_register(source_of(word)) as i64) < (s.read_register(target_of(word)) as i64) {
            1
        } else {
            0
        },
    )
}

pub fn slt(cpu: &mut EECore, data: &OpCode)
    ensures
        final(cpu)@ == spec_slt(old(cpu)@, data.raw),
{
    let lhs = cpu.read_register(data.ri_get_source()) as i64;
    let rhs = cpu.read_register(data.ri_get_target()) as i64;
    cpu.write_register(
        data.r_get_destination(),
        if lhs < rhs {
            1
        } else {
            0
        },
    );
}

/// SLTI: rt <- 1 if rs, as a signed number of 64 bits, is less than the
/// immediate, zero-extended, else 0.
pub open spec fn spec_slti(s: EEState, word: u32) -> EEState {
    s.write_register(
        target_of(word),
        if (s.read_register(source_of(word)) as i64) < immediate_of(word) {
            1
        } else {
            0
        },
    )
}

pub fn slti(cpu: &mut EECore, data: &OpCode)
    ensures
        final(cpu)@ == spec_slti(old(cpu)@, data.raw),
{
    let lhs = cpu.read_register(data.ri_get_source()) as i64;
    let rhs = data.i_get_immediate() as i64;
    cpu.write_register(
        data.ri_get_target(),
        if lhs < rhs {
            1
        } else {
            0
        },
    );
}

/// SLTIU: rt <- 1 if rs is less than the immediate, sign-extended, both
/// as unsigned numbers of 64 bits, else 0.
pub open spec fn spec_sltiu(s: EEState, word: u32) -> EEState {
    s.write_register(
        target_of(word),
        if s.read_register(source_of(word)) < ((immediate_of(word) as i16) as u64) {
            1
        } else {
            0
        },
    )
}

pub fn sltiu(cpu: &mut EECore, data: &OpCode)
    ensures
        final(cpu)@ == spec_sltiu(old(cpu)@, data.raw),
{
    let lhs = cpu.read_register(data.ri_get_source());
    let rhs: u64 = data.i_get_immediate().s_ext();
    cpu.write_register(
        data.ri_get_target(),
        if lhs < rhs {
            1
        } else {
            0
        },
    );
}

/// SLTU: rd <- 1 if rs is less than rt, as unsigned numbers of 64 bits,
/// else 0.
pub open spec fn spec_sltu(s: EEState, word: u32) -> EEState {
    s.write_register(
        destination_of(word),
        if s.read_register(source_of(word)) < s.read_register(target_of(word)) {
            1
        } else {
            0
        },
    )
}

pub fn sltu(cpu: &mut EECore, data: &OpCode)
    ensures
        final(cpu)@ == spec_sltu(old(cpu)@, data.raw),
{
    let lhs = cpu.read_register(data.ri_get_source());
    let rhs = cpu.read_register(data.ri_get_target());
    cpu.write_register(
        data.r_get_destination(),
        if lhs < rhs {
            1
        } else {
            0
        },
    );
}

/// SRA: rd <- the low 32 bits of rt shifted right by sa, the sign bit
/// filling in; sign-extended.
pub open spec fn spec_sra(s: EEState, word: u32) -> EEState {
    s.write_register(
        destination_of(word),
        ((s.read_register(target_of(word)) as i32) >> shift_amount_of(word)) as u64,
    )
}

pub fn sra(cpu: &mut EECore, data: &OpCode)
    ensures
        final(cpu)@ == spec_sra(old(cpu)@, data.raw),
{
    let v: u64 = ((cpu.read_register(data.ri_get_target()) as i32)
        >> data.r_get_shift_amount()).s_ext();
    cpu.write_register(data.r_get_destination(), v);
}

/// SRL: rd <- the low 32 bits of rt shifted right by sa, zeros filling in;
/// sign-extended.
pub open spec fn spec_srl(s: EEState, word: u32) -> EEState {
    s.write_register(
        destination_of(word),
        (((s.read_register(target_of(word)) as u32) >> shift_amount_of(word)) as i32) as u64,
    )
}

pub fn srl(cpu: &mut EECore, data: &OpCode)
    ensures
        final(cpu)@ == spec_srl(old(cpu)@, data.raw),
{
    let v: u64 = ((cpu.read_register(data.ri_get_target()) as u32)
        >> data.r_get_shift_amount()).s_ext();
    cpu.write_register(data.r_get_destination(), v);
}

/// SUBU: rd <- rs - rt on 32 bits, wrapping round; the result is
/// sign-extended.
pub open spec fn spec_subu(s: EEState, word: u32) -> EEState {
    let lhs = s.read_register(source_of(word)) as u32;
    let rhs = s.read_register(target_of(word)) as u32;
    s.write_register(
        destination_of(word),
        (vstd::wrapping::u32_specs::wrapping_sub(lhs, rhs) as i32) as u64,
    )
}

pub fn subu(cpu: &mut EECore, data: &OpCode)
    ensures
        final(cpu)@ == spec_subu(old(cpu)@, data.raw),
{
    let lhs = cpu.read_register(data.ri_get_source()) as u32;
    let rhs = cpu.read_register(data.ri_get_target()) as u32;
    cpu.write_register(data.r_get_destination(), lhs.wrapping_sub(rhs).s_ext());
}

} // verus!
