//! An emulator of the Emotion Engine core: the MIPS-derived main processor of
//! the PlayStation 2, with its register files, translation lookaside buffer,
//! exception engine, branch delay slots and instruction set.
//!
//! Every function is verified against a contract.

pub mod cpu;
pub mod endian;
pub mod isa;
pub mod memory;
pub mod utils;
