//! Instruction set definitions.

pub mod mips;
