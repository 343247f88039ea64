//! What holds of every processor: the laws of its registers, of its address
//! space, of its TLB, of its exceptions, of its decoder and of its cycle.

pub mod decoding;
pub mod exceptions;
pub mod issue;
pub mod memory;
pub mod random;
pub mod registers;
pub mod translation;
pub mod wellformed;
