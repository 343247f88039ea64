//! The translation lookaside buffer: 48 lines, each of which maps a pair of
//! pages, the even one and the odd one.

use crate::cpu::cop0::{EntryHi, EntryLo};
use crate::memory::mmu::PAGE_MASK_16KB;
use vstd::prelude::*;

verus! {

broadcast use vstd::array::group_array_axioms;

/// The TLB of the EE Core is 48 lines wide.
pub const EE_TLB_WIDTH: usize = 48;

/// The page pair of a line that was never installed. The page pair of an
/// address has 19 bits at most, and so has that of a line that was
/// installed: no address and no installed line has this one.
pub const NO_PAGE: u32 = 0xFFFF_FFFF;

/// The bound below which every page pair of an address lies.
pub const PAGE_PAIRS: u32 = 0x0008_0000;

/// The lines of the TLB, in the order in which a lookup goes through them.
pub struct Tlb {
    pub lines: [TlbLine; 48],
}

impl Default for Tlb {
    fn default() -> (r: Self)
        ensures
            r.lines@ == Seq::new(48, |i: int| TlbLine::empty()),
            r.wf(),
    {
        let line = TlbLine::default();
        let lines = [line;48];
        assert(lines == vstd::array::spec_array_fill_for_copy_type::<TlbLine, 48>(line));
        assert(lines@ =~= Seq::new(48, |i: int| TlbLine::empty()));
        Self { lines }
    }
}

/// One half of a TLB line: where one page goes and how it may be used.
#[derive(Clone, Copy, Debug, PartialEq, Eq, Structural)]
pub struct TlbPageInfo {
    pub page_frame_number: u32,
    pub cache_mode: u8,
    pub dirty: bool,
    pub valid: bool,
}

impl Default for TlbPageInfo {
    fn default() -> (r: Self)
        ensures
            r == TlbPageInfo::empty(),
    {
        TlbPageInfo { page_frame_number: 0, cache_mode: 0, dirty: false, valid: false }
    }
}

/// A line of the TLB: the pair of pages that it maps, for whom, and where
/// to.
#[derive(Clone, Copy, Debug, PartialEq, Eq, Structural)]
pub struct TlbLine {
    pub mask: u32,
    pub virtual_page_number_half: u32,
    pub global: bool,
    pub asid: u8,
    pub scratchpad: bool,
    pub even: TlbPageInfo,
    pub odd: TlbPageInfo,
}

impl Default for TlbLine {
    fn default() -> (r: Self)
        ensures
            r == TlbLine::empty(),
    {
        TlbLine {
            mask: 0,
            virtual_page_number_half: NO_PAGE,
            global: false,
            asid: 0,
            scratchpad: false,
            even: TlbPageInfo::default(),
            odd: TlbPageInfo::default(),
        }
    }
}

/// Whether `line` answers for the page pair `vpn_2`, or, being a scratchpad
/// line, for the scratchpad page pair `spr_vpn_2`.
pub open spec fn line_matches(line: TlbLine, vpn_2: u32, spr_vpn_2: u32) -> bool {
    (line.scratchpad && spr_vpn_2 == line.virtual_page_number_half) || vpn_2
        == line.virtual_page_number_half
}

/// The index of the first line from `from` on that matches.
pub open spec fn first_match(lines: Seq<TlbLine>, vpn_2: u32, spr_vpn_2: u32, from: int) -> Option<
    int,
>
    decreases lines.len() - from,
{
    if from < 0 || from >= lines.len() {
        None
    } else if line_matches(lines[from], vpn_2, spr_vpn_2) {
        Some(from)
    } else {
        first_match(lines, vpn_2, spr_vpn_2, from + 1)
    }
}

/// The line that a lookup finds: the first in order that matches.
pub open spec fn found_line(lines: Seq<TlbLine>, vpn_2: u32, spr_vpn_2: u32) -> Option<TlbLine> {
    match first_match(lines, vpn_2, spr_vpn_2, 0) {
        Some(i) => Some(lines[i]),
        None => None,
    }
}

/// `first_match` gives the least matching index from `from` on, and nothing
/// only where no line from there on matches.
pub proof fn law_first_match_is_least(lines: Seq<TlbLine>, vpn_2: u32, spr_vpn_2: u32, from: int)
    requires
        0 <= from <= lines.len(),
    ensures
        match first_match(lines, vpn_2, spr_vpn_2, from) {
            Some(i) => from <= i < lines.len() && line_matches(lines[i], vpn_2, spr_vpn_2)
                && forall|j: int| from <= j < i ==> !line_matches(#[trigger] lines[j], vpn_2, spr_vpn_2),
            None => forall|j: int|
                from <= j < lines.len() ==> !line_matches(#[trigger] lines[j], vpn_2, spr_vpn_2),
        },
    decreases lines.len() - from,
{
    if from < lines.len() && !line_matches(lines[from], vpn_2, spr_vpn_2) {
        law_first_match_is_least(lines, vpn_2, spr_vpn_2, from + 1);
    }
}

impl Tlb {
    /// Every scratchpad line is one that could have been installed.
    pub open spec fn wf(&self) -> bool {
        forall|i: int| 0 <= i < 48 ==> (#[trigger] self.lines@[i]).wf()
    }

    /// The first line, in order, that matches.
    pub fn find_match(&self, vpn_2: u32, spr_vpn_2: u32) -> (r: Option<&TlbLine>)
        ensures
            match found_line(self.lines@, vpn_2, spr_vpn_2) {
                Some(line) => r == Some(&line),
                None => r is None,
            },
    {
        let mut i: usize = 0;
        while i < EE_TLB_WIDTH
            invariant
                0 <= i <= 48,
                first_match(self.lines@, vpn_2, spr_vpn_2, 0) == first_match(
                    self.lines@,
                    vpn_2,
                    spr_vpn_2,
                    i as int,
                ),
            decreases 48 - i,
        {
            let line = &self.lines[i];
            if (line.scratchpad && spr_vpn_2 == line.virtual_page_number_half) || vpn_2
                == line.virtual_page_number_half {
                return Some(line);
            }
            i += 1;
        }
        None
    }
}

impl TlbPageInfo {
    pub open spec fn empty() -> TlbPageInfo {
        TlbPageInfo { page_frame_number: 0, cache_mode: 0, dirty: false, valid: false }
    }

    /// The page that an EntryLo register describes.
    pub open spec fn from_entry_lo(entry_lo: u32) -> TlbPageInfo {
        TlbPageInfo {
            page_frame_number: entry_lo.spec_get_pfn(),
            cache_mode: entry_lo.spec_get_cache_mode(),
            dirty: entry_lo.spec_is_dirty(),
            valid: entry_lo.spec_is_valid(),
        }
    }

    pub fn update(&mut self, entry_lo: u32)
        ensures
            *final(self) == TlbPageInfo::from_entry_lo(entry_lo),
    {
        self.page_frame_number = entry_lo.get_pfn();
        self.cache_mode = entry_lo.get_cache_mode();
        self.dirty = entry_lo.is_dirty();
        self.valid = entry_lo.is_valid();
    }
}

/// The cache mode that a scratchpad page reads as.
pub const SCRATCHPAD_CACHE_MODE: u8 = 2;

impl TlbLine {
    /// A line that was never installed: it answers for no address.
    pub open spec fn empty() -> TlbLine {
        TlbLine {
            mask: 0,
            virtual_page_number_half: NO_PAGE,
            global: false,
            asid: 0,
            scratchpad: false,
            even: TlbPageInfo::empty(),
            odd: TlbPageInfo::empty(),
        }
    }

    /// What a scratchpad line has to meet: no page mask, a page number with
    /// the 16 KiB mask bits clear, and two halves that agree on dirty and on
    /// valid.
    pub open spec fn valid_scratchpad(self) -> bool {
        self.mask == 0 && self.even.dirty == self.odd.dirty && self.even.valid == self.odd.valid && (
        self.virtual_page_number_half & PAGE_MASK_16KB) == 0
    }

    /// A line is well formed if it is no scratchpad line or a valid one.
    pub open spec fn wf(self) -> bool {
        self.scratchpad ==> self.valid_scratchpad()
    }

    /// The line that the four staging registers describe. The pages of a
    /// scratchpad line get the scratchpad's cache mode, whatever the registers
    /// say. The line is global where both halves are.
    pub open spec fn assembled(page_mask: u32, entry_hi: u32, entry_lo0: u32, entry_lo1: u32) -> TlbLine {
        let scratchpad = entry_lo0.spec_is_scratchpad();
        let even = TlbPageInfo::from_entry_lo(entry_lo0);
        let odd = TlbPageInfo::from_entry_lo(entry_lo1);
        TlbLine {
            mask: page_mask,
            virtual_page_number_half: EntryHi::spec_get_vpn2(entry_hi),
            global: entry_lo0.spec_is_global() && entry_lo1.spec_is_global(),
            asid: entry_hi.spec_get_asid(),
            scratchpad,
            even: if scratchpad {
                TlbPageInfo { cache_mode: SCRATCHPAD_CACHE_MODE, ..even }
            } else {
                even
            },
            odd: if scratchpad {
                TlbPageInfo { cache_mode: SCRATCHPAD_CACHE_MODE, ..odd }
            } else {
                odd
            },
        }
    }

    /// Whether the staging registers describe a line that may be installed.
    pub open spec fn installable(page_mask: u32, entry_hi: u32, entry_lo0: u32, entry_lo1: u32) -> bool {
        TlbLine::assembled(page_mask, entry_hi, entry_lo0, entry_lo1).wf()
    }

    /// Tells whether `update` may be called with these registers.
    pub fn can_install(page_mask: u32, entry_hi: u32, entry_lo0: u32, entry_lo1: u32) -> (r: bool)
        ensures
            r == TlbLine::installable(page_mask, entry_hi, entry_lo0, entry_lo1),
    {
        if entry_lo0.is_scratchpad() {
            page_mask == 0 && entry_lo0.is_dirty() == entry_lo1.is_dirty() && entry_lo0.is_valid()
                == entry_lo1.is_valid() && (EntryHi::get_vpn2(entry_hi) & PAGE_MASK_16KB) == 0
        } else {
            true
        }
    }

    /// Installs the line that the staging registers describe. An invalid
    /// scratchpad line is not accepted.
    pub fn update(&mut self, page_mask: u32, entry_hi: u32, entry_lo0: u32, entry_lo1: u32)
        requires
            TlbLine::installable(page_mask, entry_hi, entry_lo0, entry_lo1),
        ensures
            *final(self) == TlbLine::assembled(page_mask, entry_hi, entry_lo0, entry_lo1),
            final(self).wf(),
    {
        self.mask = page_mask;

        self.virtual_page_number_half = EntryHi::get_vpn2(entry_hi);
        self.asid = entry_hi.get_asid();

        self.scratchpad = entry_lo0.is_scratchpad();
        self.even.update(entry_lo0);
        self.odd.update(entry_lo1);

        if self.scratchpad {
            self.even.cache_mode = SCRATCHPAD_CACHE_MODE;
            self.odd.cache_mode = SCRATCHPAD_CACHE_MODE;
        }
        self.global = entry_lo0.is_global() && entry_lo1.is_global();
    }
}

} // verus!
