//! The addresses at which the exception handlers start.

use vstd::prelude::*;

verus! {

pub const RESET_NMI: u32 = 0xBFC0_0000;

pub const TLB_REFILL: u32 = 0x8000_0000;

pub const TLB_REFILL_B: u32 = 0xBFC0_0200;

pub const COUNTER: u32 = 0x8000_0080;

pub const COUNTER_D: u32 = 0xBFC0_0280;

pub const DEBUG: u32 = 0x8000_0100;

pub const DEBUG_D: u32 = 0xBFC0_0300;

pub const COMMON: u32 = 0x8000_0180;

pub const COMMON_B: u32 = 0xBFC0_0380;

pub const INTERRUPT: u32 = 0x8000_0200;

pub const INTERRUPT_B: u32 = 0xBFC0_0400;

} // verus!
