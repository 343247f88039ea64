//! The memory management unit: translation of the virtual addresses that the
//! TLB maps.

pub mod tlb;

use crate::cpu::cop0::WIRED_DEFAULT;
use crate::cpu::exceptions::L1Exception;
use crate::memory::mmu::tlb::{found_line, Tlb, TlbLine};
use vstd::prelude::*;

verus! {

/// The memory management unit: the TLB, and what it needs of the COP0
/// registers to translate.
pub struct Mmu {
    pub tlb: Tlb,
    pub page_mask: u32,
    /// The least value that the Random register takes.
    pub wired: u8,
    /// The TLB line that a write by index goes to.
    pub index: u8,
    pub context: u32,
    pub asid: u8,
}

/// What the contracts say of an `Mmu`: the same fields, the lines as a
/// sequence.
pub struct MmuView {
    pub lines: Seq<TlbLine>,
    pub page_mask: u32,
    pub wired: u8,
    pub index: u8,
    pub context: u32,
    pub asid: u8,
}

impl View for Mmu {
    type V = MmuView;

    open spec fn view(&self) -> MmuView {
        MmuView {
            lines: self.tlb.lines@,
            page_mask: self.page_mask,
            wired: self.wired,
            index: self.index,
            context: self.context,
            asid: self.asid,
        }
    }
}

pub const VPN_ALWAYS_ACTIVE_BITS: u32 = 0xFE00_0000;

pub const OFFSET_ALWAYS_ACTIVE_BITS: u32 = 0x0000_0FFF;

pub const RAW_MASK_4KB: u32 = 0b0000_0000_0000;

pub const RAW_MASK_16KB: u32 = 0b0000_0000_0011;

pub const RAW_MASK_64KB: u32 = 0b0000_0000_1111;

pub const RAW_MASK_256KB: u32 = 0b0000_0011_1111;

pub const RAW_MASK_1MB: u32 = 0b0000_1111_1111;

pub const RAW_MASK_4MB: u32 = 0b0011_1111_1111;

pub const RAW_MASK_16MB: u32 = 0b1111_1111_1111;

pub const PAGE_MASK_4KB: u32 = 0x0000_0000;

pub const PAGE_MASK_16KB: u32 = 0x0000_6000;

pub const PAGE_MASK_64KB: u32 = 0x0001_E000;

pub const PAGE_MASK_256KB: u32 = 0x0007_E000;

pub const PAGE_MASK_1MB: u32 = 0x001F_E000;

pub const PAGE_MASK_4MB: u32 = 0x007F_E000;

pub const PAGE_MASK_16MB: u32 = 0x01FF_E000;

/// The seven page masks that the hardware knows.
pub open spec fn page_mask_is_legal(p_mask: u32) -> bool {
    p_mask == PAGE_MASK_4KB || p_mask == PAGE_MASK_16KB || p_mask == PAGE_MASK_64KB || p_mask
        == PAGE_MASK_256KB || p_mask == PAGE_MASK_1MB || p_mask == PAGE_MASK_4MB || p_mask
        == PAGE_MASK_16MB
}

/// Tells whether `p_mask` is one of the seven legal page masks.
pub fn is_legal_page_mask(p_mask: u32) -> (r: bool)
    ensures
        r == page_mask_is_legal(p_mask),
{
    p_mask == PAGE_MASK_4KB || p_mask == PAGE_MASK_16KB || p_mask == PAGE_MASK_64KB || p_mask
        == PAGE_MASK_256KB || p_mask == PAGE_MASK_1MB || p_mask == PAGE_MASK_4MB || p_mask
        == PAGE_MASK_16MB
}

/// The binary logarithm of the page size that each legal mask stands for:
/// from 12, for 4 KiB, to 24, for 16 MiB, in steps of two.
pub open spec fn spec_page_mask_shift_amount(p_mask: u32) -> u32 {
    if p_mask == PAGE_MASK_4KB {
        12
    } else if p_mask == PAGE_MASK_16KB {
        14
    } else if p_mask == PAGE_MASK_64KB {
        16
    } else if p_mask == PAGE_MASK_256KB {
        18
    } else if p_mask == PAGE_MASK_1MB {
        20
    } else if p_mask == PAGE_MASK_4MB {
        22
    } else {
        24
    }
}

/// Given a page mask, the shift that takes an address to its virtual page
/// number.
#[inline]
pub fn page_mask_shift_amount(p_mask: u32) -> (r: u32)
    requires
        page_mask_is_legal(p_mask),
    ensures
        r == spec_page_mask_shift_amount(p_mask),
        12 <= r <= 24,
{
    let extra: u32 = if p_mask == PAGE_MASK_4KB {
        0
    } else if p_mask == PAGE_MASK_16KB {
        2
    } else if p_mask == PAGE_MASK_64KB {
        4
    } else if p_mask == PAGE_MASK_256KB {
        6
    } else if p_mask == PAGE_MASK_1MB {
        8
    } else if p_mask == PAGE_MASK_4MB {
        10
    } else {
        12
    };
    12 + extra
}

/// The name of the page size that each legal mask stands for.
pub open spec fn spec_page_mask_size(p_mask: u32) -> Seq<char> {
    if p_mask == PAGE_MASK_4KB {
        "4KB"@
    } else if p_mask == PAGE_MASK_16KB {
        "16KB"@
    } else if p_mask == PAGE_MASK_64KB {
        "64KB"@
    } else if p_mask == PAGE_MASK_256KB {
        "256KB"@
    } else if p_mask == PAGE_MASK_1MB {
        "1MB"@
    } else if p_mask == PAGE_MASK_4MB {
        "4MB"@
    } else {
        "16MB"@
    }
}

pub fn page_mask_size(p_mask: u32) -> (r: &'static str)
    requires
        page_mask_is_legal(p_mask),
    ensures
        r@ == spec_page_mask_size(p_mask),
{
    if p_mask == PAGE_MASK_4KB {
        "4KB"
    } else if p_mask == PAGE_MASK_16KB {
        "16KB"
    } else if p_mask == PAGE_MASK_64KB {
        "64KB"
    } else if p_mask == PAGE_MASK_256KB {
        "256KB"
    } else if p_mask == PAGE_MASK_1MB {
        "1MB"
    } else if p_mask == PAGE_MASK_4MB {
        "4MB"
    } else {
        "16MB"
    }
}

/// The shift that takes an address to its scratchpad page pair.
pub const SPR_SHIFT_AMOUNT: u32 = 15;

/// Where a virtual address leads.
#[derive(Clone, Copy, Debug, PartialEq, Eq, Structural)]
pub enum MmuAddress {
    /// A physical address.
    Address(u32),
    /// An offset into the scratchpad.
    Scratchpad(u32),
    /// Nowhere: the exception to raise.
    Exception(L1Exception),
}

impl MmuView {
    /// What an `Mmu` has to meet: 48 lines, each of them well formed.
    pub open spec fn wf(self) -> bool {
        self.lines.len() == 48 && forall|i: int| 0 <= i < 48 ==> (#[trigger] self.lines[i]).wf()
    }

    /// The page pair of `v_addr` under the current page mask, as the lines
    /// store it.
    pub open spec fn vpn2_of(self, v_addr: u32) -> u32 {
        let shift = spec_page_mask_shift_amount(self.page_mask);
        ((v_addr >> shift) >> 1u32) << ((shift - 12) as u32)
    }

    /// The page pair of `v_addr` as a scratchpad line stores it: that of
    /// pages of 16 KiB, whatever the page mask.
    pub open spec fn scratchpad_pair_of(v_addr: u32) -> u32 {
        (v_addr >> SPR_SHIFT_AMOUNT) << 2u32
    }

    /// Whether `v_addr` lies in the even page of its pair.
    pub open spec fn is_even_page(self, v_addr: u32) -> bool {
        ((v_addr >> spec_page_mask_shift_amount(self.page_mask)) & 1) == 0
    }

    /// Where the line `line`, which matched, sends `v_addr`. A line of another
    /// address space counts as no match. An invalid page refuses every
    /// access, and a page that is not dirty refuses a store. A scratchpad line
    /// leads to the offset within the 16 KiB of the scratchpad, any other line
    /// to the page frame and the offset within the page.
    pub open spec fn through_line(self, line: TlbLine, v_addr: u32, load: bool) -> Option<
        MmuAddress,
    > {
        let page = if self.is_even_page(v_addr) {
            line.even
        } else {
            line.odd
        };
        if !line.global && line.asid != self.asid {
            None
        } else if !page.valid {
            if load {
                Some(MmuAddress::Exception(L1Exception::TlbFetchLoadInvalid(v_addr)))
            } else {
                Some(MmuAddress::Exception(L1Exception::TlbStoreInvalid(v_addr)))
            }
        } else if !page.dirty && !load {
            Some(MmuAddress::Exception(L1Exception::TlbModified(v_addr)))
        } else if line.scratchpad {
            Some(
                MmuAddress::Scratchpad(
                    v_addr & (OFFSET_ALWAYS_ACTIVE_BITS | (PAGE_MASK_16KB >> 1u32)),
                ),
            )
        } else {
            Some(
                MmuAddress::Address(
                    (page.page_frame_number << spec_page_mask_shift_amount(self.page_mask)) | (
                    v_addr & (OFFSET_ALWAYS_ACTIVE_BITS | (self.page_mask >> 1u32))),
                ),
            )
        }
    }

    /// Where the TLB sends `v_addr`: through the first line that matches its
    /// page pair, or to a refill exception where there is none.
    pub open spec fn translate_address(self, v_addr: u32, load: bool) -> MmuAddress {
        let through = match found_line(
            self.lines,
            self.vpn2_of(v_addr),
            MmuView::scratchpad_pair_of(v_addr),
        ) {
            Some(line) => self.through_line(line, v_addr, load),
            None => None,
        };
        match through {
            Some(a) => a,
            None => if load {
                MmuAddress::Exception(L1Exception::TlbFetchLoadRefill(v_addr))
            } else {
                MmuAddress::Exception(L1Exception::TlbStoreRefill(v_addr))
            },
        }
    }

    /// With the line at `at` replaced by the one that the page mask and the
    /// three registers describe.
    pub open spec fn write_line(self, at: int, entry_hi: u32, entry_lo0: u32, entry_lo1: u32) -> MmuView {
        MmuView {
            lines: self.lines.update(
                at,
                TlbLine::assembled(self.page_mask, entry_hi, entry_lo0, entry_lo1),
            ),
            ..self
        }
    }

    /// Whether line `at` exists and the registers describe a line that may be
    /// installed.
    pub open spec fn can_write_line(self, at: int, entry_hi: u32, entry_lo0: u32, entry_lo1: u32) -> bool {
        0 <= at < 48 && TlbLine::installable(self.page_mask, entry_hi, entry_lo0, entry_lo1)
    }
}

impl Mmu {
    /// Every line of the TLB is well formed.
    pub open spec fn wf(&self) -> bool {
        self@.wf()
    }

    /// Translates an address of a segment that the TLB maps.
    pub fn translate_address(&self, v_addr: u32, load: bool) -> (r: MmuAddress)
        requires
            page_mask_is_legal(self.page_mask),
        ensures
            r == self@.translate_address(v_addr, load),
    {
        let vpn_shift_amount = page_mask_shift_amount(self.page_mask);

        let vpn = v_addr >> vpn_shift_amount;
        let vpn2 = (vpn >> 1) << (vpn_shift_amount - 12);
        let spr_vpn2 = (v_addr >> SPR_SHIFT_AMOUNT) << (SPR_SHIFT_AMOUNT - 12 - 1);
        let even_page = (vpn & 1) == 0;

        let through = match self.tlb.find_match(vpn2, spr_vpn2) {
            None => None,
            Some(line) => {
                let indiv_page = if even_page {
                    &line.even
                } else {
                    &line.odd
                };
                if !line.global && line.asid != self.asid {
                    None
                } else if !indiv_page.valid {
                    if load {
                        Some(MmuAddress::Exception(L1Exception::TlbFetchLoadInvalid(v_addr)))
                    } else {
                        Some(MmuAddress::Exception(L1Exception::TlbStoreInvalid(v_addr)))
                    }
                } else if !indiv_page.dirty && !load {
                    Some(MmuAddress::Exception(L1Exception::TlbModified(v_addr)))
                } else if line.scratchpad {
                    let offset = v_addr & (OFFSET_ALWAYS_ACTIVE_BITS | (PAGE_MASK_16KB >> 1));
                    Some(MmuAddress::Scratchpad(offset))
                } else {
                    let offset = v_addr & (OFFSET_ALWAYS_ACTIVE_BITS | (self.page_mask >> 1));
                    Some(
                        MmuAddress::Address(
                            (indiv_page.page_frame_number << vpn_shift_amount) | offset,
                        ),
                    )
                }
            },
        };
        match through {
            Some(a) => a,
            None => MmuAddress::Exception(
                if load {
                    L1Exception::TlbFetchLoadRefill(v_addr)
                } else {
                    L1Exception::TlbStoreRefill(v_addr)
                },
            ),
        }
    }

    /// Tells whether `write_index` may be called with these registers.
    pub fn can_write_index(&self, entry_hi: u32, entry_lo0: u32, entry_lo1: u32) -> (r: bool)
        ensures
            r == self@.can_write_line(self.index as int, entry_hi, entry_lo0, entry_lo1),
    {
        (self.index as usize) < tlb::EE_TLB_WIDTH && TlbLine::can_install(
            self.page_mask,
            entry_hi,
            entry_lo0,
            entry_lo1,
        )
    }

    /// Tells whether `write_random` may be called with these registers.
    pub fn can_write_random(&self, random_index: u32, entry_hi: u32, entry_lo0: u32, entry_lo1: u32) -> (r:
        bool)
        ensures
            r == self@.can_write_line(random_index as int, entry_hi, entry_lo0, entry_lo1),
    {
        random_index < 48 && TlbLine::can_install(self.page_mask, entry_hi, entry_lo0, entry_lo1)
    }

    /// Installs the line that the page mask and the three registers describe
    /// at the line that `index` names.
    pub fn write_index(&mut self, entry_hi: u32, entry_lo0: u32, entry_lo1: u32)
        requires
            old(self)@.can_write_line(old(self).index as int, entry_hi, entry_lo0, entry_lo1),
        ensures
            final(self)@ == old(self)@.write_line(
                old(self).index as int,
                entry_hi,
                entry_lo0,
                entry_lo1,
            ),
            old(self).wf() ==> final(self).wf(),
    {
        let mut line = self.tlb.lines[self.index as usize];
        line.update(self.page_mask, entry_hi, entry_lo0, entry_lo1);
        self.tlb.lines[self.index as usize] = line;
        assert(self@.lines =~= old(self)@.lines.update(old(self).index as int, line));
    }

    /// Installs the line that the page mask and the three registers describe
    /// at line `random_index`.
    pub fn write_random(&mut self, random_index: u32, entry_hi: u32, entry_lo0: u32, entry_lo1: u32)
        requires
            old(self)@.can_write_line(random_index as int, entry_hi, entry_lo0, entry_lo1),
        ensures
            final(self)@ == old(self)@.write_line(
                random_index as int,
                entry_hi,
                entry_lo0,
                entry_lo1,
            ),
            old(self).wf() ==> final(self).wf(),
    {
        let mut line = self.tlb.lines[random_index as usize];
        line.update(self.page_mask, entry_hi, entry_lo0, entry_lo1);
        self.tlb.lines[random_index as usize] = line;
        assert(self@.lines =~= old(self)@.lines.update(random_index as int, line));
    }
}

impl Default for Mmu {
    fn default() -> (r: Self)
        ensures
            r@ == (MmuView {
                lines: Seq::new(48, |i: int| TlbLine::empty()),
                page_mask: 0,
                wired: 0,
                index: 0,
                context: 0,
                asid: 0,
            }),
            r.wf(),
    {
        Self { tlb: Tlb::default(), page_mask: 0, wired: WIRED_DEFAULT as u8, index: 0, context: 0, asid: 0 }
    }
}

} // verus!
