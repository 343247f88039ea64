//! The segments of the virtual address space and the places of the physical
//! one.

use vstd::prelude::*;

verus! {

/// Start of useg: the addresses whose top bit is clear. Mapped by the TLB;
/// open to user, supervisor and kernel.
pub const USEG_START: u32 = 0x0000_0000;

pub const SPRAM_START: u32 = 0x7000_0000;

pub const USEG_END: u32 = 0x7FFF_FFFF;

/// Start of kseg0, which maps straight onto the physical addresses from 0 to
/// `0x1FFF_FFFF`. Kernel only.
pub const KSEG0_START: u32 = 0x8000_0000;

pub const KSEG0_END: u32 = 0x9FFF_FFFF;

/// Start of kseg1, which maps straight onto the physical addresses from 0 to
/// `0x1FFF_FFFF`, uncached. Kernel only.
pub const KSEG1_START: u32 = 0xA000_0000;

pub const KSEG1_END: u32 = 0xBFFF_FFFF;

/// Start of sseg. Mapped by the TLB; open to supervisor and kernel.
pub const SSEG_START: u32 = 0xC000_0000;

pub const SSEG_END: u32 = 0xDFFF_FFFF;

/// Start of kseg3. Mapped by the TLB; kernel only.
pub const KSEG3_START: u32 = 0xE000_0000;

pub const KSEG3_END: u32 = 0xFFFF_FFFF;

pub const IO_REGISTERS_PHYSICAL: u32 = 0x1000_0000;

pub const VU0_CODE_PHYSICAL: u32 = 0x1100_0000;

pub const VU0_DATA_PHYSICAL: u32 = 0x1100_4000;

pub const VU1_CODE_PHYSICAL: u32 = 0x1100_8000;

pub const VU1_DATA_PHYSICAL: u32 = 0x1100_C000;

pub const GS_PRIV_REGISTERS_PHYSICAL: u32 = 0x1200_0000;

pub const IOP_RAM_PHYSICAL: u32 = 0x1C00_0000;

pub const BIOS_PHYSICAL: u32 = 0x1FC0_0000;

/// The virtual address of the first instruction: the BIOS, seen through kseg1.
pub const BIOS_START: u32 = 0xBFC0_0000;

/// The length of the BIOS image once installed: 4 MiB, up to the end of the
/// physical space that kseg0 and kseg1 map.
pub const BIOS_LEN: u32 = 0x0040_0000;

/// The main memory: 32 MiB.
pub const PHYSICAL_MEMORY_SIZE: usize = 0x0200_0000;

/// The scratchpad: 16 KiB.
pub const SPRAM_SIZE: usize = 0x4000;

} // verus!
