//! The laws of the TLB: a line that was never installed answers for no
//! address, and a line that was installed answers for the addresses of its
//! page pair.

use crate::cpu::cop0::{EntryHi, EntryLo, Register};
use crate::cpu::exceptions::L1Exception;
use crate::cpu::ops::cop0::{cop0_is_usable, install_line, spec_tlbwi};
use crate::cpu::state::EEState;
use crate::memory::mmu::{
    MmuAddress, MmuView, OFFSET_ALWAYS_ACTIVE_BITS, spec_page_mask_shift_amount,
};
use crate::memory::mmu::tlb::{
    first_match, found_line, line_matches, PAGE_PAIRS, TlbLine, TlbPageInfo,
};
use vstd::prelude::*;

verus! {

proof fn lemma_pair_has_19_bits(v: u32, shift: u32, extra: u32, entry_hi: u32)
    by (bit_vector)
    requires
        shift == 12 || shift == 14 || shift == 16 || shift == 18 || shift == 20 || shift == 22
            || shift == 24,
        extra == shift - 12,
    ensures
        ((v >> shift) >> 1u32) << extra < 0x0008_0000u32,
        (v >> 15u32) << 2u32 < 0x0008_0000u32,
        entry_hi >> 13u32 < 0x0008_0000u32,
{
}

/// The page pair of an address has 19 bits at most, under every page mask;
/// so has its scratchpad page pair, and the page pair that EntryHi gives to
/// a line.
pub proof fn law_page_pairs_have_19_bits(m: MmuView, v_addr: u32, entry_hi: u32)
    ensures
        m.vpn2_of(v_addr) < PAGE_PAIRS,
        MmuView::scratchpad_pair_of(v_addr) < PAGE_PAIRS,
        EntryHi::spec_get_vpn2(entry_hi) < PAGE_PAIRS,
{
    let shift = spec_page_mask_shift_amount(m.page_mask);
    lemma_pair_has_19_bits(v_addr, shift, (shift - 12) as u32, entry_hi);
}

/// A line that was never installed answers for no address.
pub proof fn law_empty_line_answers_nothing(m: MmuView, v_addr: u32)
    ensures
        !line_matches(TlbLine::empty(), m.vpn2_of(v_addr), MmuView::scratchpad_pair_of(v_addr)),
{
    law_page_pairs_have_19_bits(m, v_addr, 0);
}

/// Where no line from `from` up to `to` answers, a lookup from `from` on
/// finds what a lookup from `to` on finds.
proof fn lemma_skip_lines(lines: Seq<TlbLine>, vpn_2: u32, spr_vpn_2: u32, from: int, to: int)
    requires
        0 <= from <= to <= lines.len(),
        forall|j: int| from <= j < to ==> !line_matches(#[trigger] lines[j], vpn_2, spr_vpn_2),
    ensures
        first_match(lines, vpn_2, spr_vpn_2, from) == first_match(lines, vpn_2, spr_vpn_2, to),
    decreases to - from,
{
    if from < to {
        lemma_skip_lines(lines, vpn_2, spr_vpn_2, from + 1, to);
    }
}

/// On a TLB none of whose lines was ever installed, every address misses:
/// the translation is the refill exception.
pub proof fn law_empty_tlb_refills(m: MmuView, v_addr: u32, load: bool)
    requires
        forall|i: int| 0 <= i < m.lines.len() ==> #[trigger] m.lines[i] == TlbLine::empty(),
    ensures
        m.translate_address(v_addr, load) == MmuAddress::Exception(
            if load {
                L1Exception::TlbFetchLoadRefill(v_addr)
            } else {
                L1Exception::TlbStoreRefill(v_addr)
            },
        ),
{
    law_empty_line_answers_nothing(m, v_addr);
    lemma_skip_lines(
        m.lines,
        m.vpn2_of(v_addr),
        MmuView::scratchpad_pair_of(v_addr),
        0,
        m.lines.len() as int,
    );
}

/// The half of `line` that answers for `v_addr`.
pub open spec fn half_for(m: MmuView, line: TlbLine, v_addr: u32) -> TlbPageInfo {
    if m.is_even_page(v_addr) {
        line.even
    } else {
        line.odd
    }
}

/// Whether the lookup of `v_addr` goes past every line before `at`: none
/// of them answers for it. That is so, among others, where none of them
/// was ever installed.
pub open spec fn reaches(m: MmuView, at: int, v_addr: u32) -> bool {
    forall|j: int|
        0 <= j < at ==> !line_matches(
            #[trigger] m.lines[j],
            m.vpn2_of(v_addr),
            MmuView::scratchpad_pair_of(v_addr),
        )
}

/// Write by index, then hit. After a line is written at `at`, an address of
/// its page pair whose lookup reaches the line is translated through it.
/// Where the line is no scratchpad line, of the address space of the MMU or
/// global, and its half for the address is valid, and dirty if the access
/// is a store, the address leads to the page frame of that half, with its
/// offset within the page.
pub proof fn law_write_by_index_then_hit(
    m: MmuView,
    at: int,
    entry_hi: u32,
    entry_lo0: u32,
    entry_lo1: u32,
    v_addr: u32,
    load: bool,
)
    requires
        0 <= at < m.lines.len(),
        m.vpn2_of(v_addr) == EntryHi::spec_get_vpn2(entry_hi),
        reaches(m, at, v_addr),
    ensures
        ({
            let line = TlbLine::assembled(m.page_mask, entry_hi, entry_lo0, entry_lo1);
            let after = m.write_line(at, entry_hi, entry_lo0, entry_lo1);
            let page = half_for(m, line, v_addr);
            &&& found_line(
                after.lines,
                after.vpn2_of(v_addr),
                MmuView::scratchpad_pair_of(v_addr),
            ) == Some(line)
            &&& after.through_line(line, v_addr, load) is Some ==> Some(
                after.translate_address(v_addr, load),
            ) == after.through_line(line, v_addr, load)
            &&& (!line.scratchpad && (line.global || line.asid == m.asid) && page.valid && (load
                || page.dirty)) ==> after.translate_address(v_addr, load) == MmuAddress::Address(
                (page.page_frame_number << spec_page_mask_shift_amount(m.page_mask)) | (v_addr & (
                OFFSET_ALWAYS_ACTIVE_BITS | (m.page_mask >> 1u32))),
            )
        }),
{
    let line = TlbLine::assembled(m.page_mask, entry_hi, entry_lo0, entry_lo1);
    let after = m.write_line(at, entry_hi, entry_lo0, entry_lo1);
    let vpn_2 = m.vpn2_of(v_addr);
    let spr_vpn_2 = MmuView::scratchpad_pair_of(v_addr);
    assert(after.vpn2_of(v_addr) == vpn_2);
    assert(after.lines[at] == line);
    assert forall|j: int| 0 <= j < at implies !line_matches(
        #[trigger] after.lines[j],
        vpn_2,
        spr_vpn_2,
    ) by {
        assert(after.lines[j] == m.lines[j]);
    }
    lemma_skip_lines(after.lines, vpn_2, spr_vpn_2, 0, at);
    assert(line_matches(line, vpn_2, spr_vpn_2));
    assert(first_match(after.lines, vpn_2, spr_vpn_2, at) == Some(at));
}

/// TLBWI, then hit. Where COP0 may be used and Index names a line, TLBWI of
/// a line that is no scratchpad line leaves a TLB in which an address of the
/// page pair of EntryHi, whose lookup reaches the line, leads to the page
/// frame of EntryLo0 if it lies in the even page and of EntryLo1 if in the
/// odd one, provided that half is valid, and dirty if the access is a
/// store, and the line is global or of the address space of the MMU.
pub proof fn law_tlbwi_then_hit(s: EEState, word: u32, v_addr: u32, load: bool)
    requires
        cop0_is_usable(s),
        s.mmu.lines.len() == 48,
        s.mmu.index < 48,
        !s.read_cop0_direct(Register::EntryLo0.code()).spec_is_scratchpad(),
        s.mmu.vpn2_of(v_addr) == EntryHi::spec_get_vpn2(
            s.read_cop0_direct(Register::EntryHi.code()),
        ),
        reaches(s.mmu, s.mmu.index as int, v_addr),
    ensures
        ({
            let entry_hi = s.read_cop0_direct(Register::EntryHi.code());
            let entry_lo = if s.mmu.is_even_page(v_addr) {
                s.read_cop0_direct(Register::EntryLo0.code())
            } else {
                s.read_cop0_direct(Register::EntryLo1.code())
            };
            let global = s.read_cop0_direct(Register::EntryLo0.code()).spec_is_global()
                && s.read_cop0_direct(Register::EntryLo1.code()).spec_is_global();
            (global || entry_hi.spec_get_asid() == s.mmu.asid) && entry_lo.spec_is_valid() && (load
                || entry_lo.spec_is_dirty()) ==> spec_tlbwi(s, word).mmu.translate_address(
                v_addr,
                load,
            ) == MmuAddress::Address(
                (entry_lo.spec_get_pfn() << spec_page_mask_shift_amount(s.mmu.page_mask)) | (v_addr
                    & (OFFSET_ALWAYS_ACTIVE_BITS | (s.mmu.page_mask >> 1u32))),
            )
        }),
{
    let entry_hi = s.read_cop0_direct(Register::EntryHi.code());
    let entry_lo0 = s.read_cop0_direct(Register::EntryLo0.code());
    let entry_lo1 = s.read_cop0_direct(Register::EntryLo1.code());
    assert(TlbLine::installable(s.mmu.page_mask, entry_hi, entry_lo0, entry_lo1));
    assert(spec_tlbwi(s, word) == install_line(s, s.mmu.index as int));
    law_write_by_index_then_hit(
        s.mmu,
        s.mmu.index as int,
        entry_hi,
        entry_lo0,
        entry_lo1,
        v_addr,
        load,
    );
}

} // verus!
