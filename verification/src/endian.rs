//! Little-endian reads and writes of integers, as the `byteorder` crate does
//! them. The contracts here are taken on trust from that crate.

use byteorder::{ByteOrder, LittleEndian};
use vstd::bytes::{
    spec_u16_from_le_bytes, spec_u32_from_le_bytes, spec_u32_to_le_bytes, spec_u64_from_le_bytes,
    spec_u64_to_le_bytes,
};
use vstd::prelude::*;

verus! {

/// `s` with the `size` bytes from `at` on taken out and `bytes` put in their
/// place.
pub open spec fn replace_run(s: Seq<u8>, at: int, size: int, bytes: Seq<u8>) -> Seq<u8> {
    s.subrange(0, at) + bytes + s.subrange(at + size, s.len() as int)
}

/// `s` with `bytes` written over the bytes from `at` on.
pub open spec fn splice(s: Seq<u8>, at: int, bytes: Seq<u8>) -> Seq<u8> {
    replace_run(s, at, bytes.len() as int, bytes)
}

/// The little-endian bytes of each word of `words`, one word after the other.
pub open spec fn words_to_le_bytes(words: Seq<u32>) -> Seq<u8> {
    Seq::new(4 * words.len(), |k: int| spec_u32_to_le_bytes(words[k / 4])[k % 4])
}

/// `byteorder::LittleEndian::read_u16`: the number that the first two bytes of
/// `buf` hold, low byte first. The crate panics on a shorter `buf`.
#[verifier::external_body]
pub(crate) fn read_u16(buf: &[u8]) -> (r: u16)
    requires
        buf@.len() >= 2,
    ensures
        r == spec_u16_from_le_bytes(buf@.subrange(0, 2)),
{
    LittleEndian::read_u16(buf)
}

/// `byteorder::LittleEndian::read_u32`: the number that the first four bytes
/// of `buf` hold, low byte first. The crate panics on a shorter `buf`.
#[verifier::external_body]
pub(crate) fn read_u32(buf: &[u8]) -> (r: u32)
    requires
        buf@.len() >= 4,
    ensures
        r == spec_u32_from_le_bytes(buf@.subrange(0, 4)),
{
    LittleEndian::read_u32(buf)
}

/// `byteorder::LittleEndian::read_u64`: the number that the first eight bytes
/// of `buf` hold, low byte first. The crate panics on a shorter `buf`.
#[verifier::external_body]
pub(crate) fn read_u64(buf: &[u8]) -> (r: u64)
    requires
        buf@.len() >= 8,
    ensures
        r == spec_u64_from_le_bytes(buf@.subrange(0, 8)),
{
    LittleEndian::read_u64(buf)
}

/// `byteorder::LittleEndian::write_u32`: puts the four bytes of `n`, low byte
/// first, at the start of `buf` and leaves the rest of it as it was. The crate
/// panics on a shorter `buf`.
#[verifier::external_body]
pub(crate) fn write_u32(buf: &mut [u8], n: u32)
    requires
        old(buf)@.len() >= 4,
    ensures
        final(buf)@ == splice(old(buf)@, 0, spec_u32_to_le_bytes(n)),
{
    LittleEndian::write_u32(buf, n)
}

/// `byteorder::LittleEndian::write_u64`: puts the eight bytes of `n`, low byte
/// first, at the start of `buf` and leaves the rest of it as it was. The crate
/// panics on a shorter `buf`.
#[verifier::external_body]
pub(crate) fn write_u64(buf: &mut [u8], n: u64)
    requires
        old(buf)@.len() >= 8,
    ensures
        final(buf)@ == splice(old(buf)@, 0, spec_u64_to_le_bytes(n)),
{
    LittleEndian::write_u64(buf, n)
}

/// `byteorder::LittleEndian::write_u32_into`: fills `dst` with the bytes of
/// the words of `src`, each low byte first. The crate panics unless `dst` is
/// four times as long as `src`.
#[verifier::external_body]
pub(crate) fn write_u32_into(src: &[u32], dst: &mut [u8])
    requires
        old(dst)@.len() == 4 * src@.len(),
    ensures
        final(dst)@ == words_to_le_bytes(src@),
{
    LittleEndian::write_u32_into(src, dst)
}

} // verus!
