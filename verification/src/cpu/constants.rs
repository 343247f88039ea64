//! Sizes and numbers of the EE Core.

pub mod requirements;
pub mod timings;

use vstd::prelude::*;

verus! {

pub const OPCODE_LENGTH_BYTES: usize = 4;

pub const REGISTER_WIDTH: usize = 128;

pub const REGISTER_WIDTH_BYTES: usize = 16;

pub const HALF_REGISTER_WIDTH_BYTES: usize = 8;

pub const REGISTER_COUNT: usize = 32;

pub const REGISTER_FILE_SIZE: usize = 512;

pub const COP0_REGISTER_WIDTH: usize = 32;

pub const COP0_REGISTER_WIDTH_BYTES: usize = 4;

pub const COP0_REGISTER_FILE_SIZE: usize = 128;

/// The implementation number of the EE Core.
pub const EE_IMPL: u32 = 0x2e;

/// The implementation number of the IOP.
pub const IOP_IMPL: u32 = 0x00;

/// The PRId register of the EE Core: its implementation number in bits 15..8.
pub const EE_PRID: u32 = 0x2e00;

pub const IOP_PRID: u32 = 0x0000;

} // verus!
