pub mod ram;
pub mod readable;
pub mod rom;
pub mod writable;

use crate::types::{halfword_from_bytes, word_from_bytes};
use vstd::prelude::*;

verus! {

/// Byte-addressed storage, viewed as the sequence of bytes it holds.
pub trait Raw {
    spec fn data(&self) -> Seq<u8>;
}

/// Relies on byteorder's `LittleEndian::read_u16`: the two bytes at `i`,
/// least significant first.
#[verifier::external_body]
pub(crate) fn le_read_u16(buf: &Vec<u8>, i: usize) -> (r: u16)
    requires
        i + 2 <= buf@.len(),
    ensures
        r == halfword_from_bytes(buf@[i as int], buf@[i + 1]),
{
    <byteorder::LittleEndian as byteorder::ByteOrder>::read_u16(&buf[i..])
}

/// Relies on byteorder's `LittleEndian::read_u32`: the four bytes at `i`,
/// least significant first.
#[verifier::external_body]
pub(crate) fn le_read_u32(buf: &Vec<u8>, i: usize) -> (r: u32)
    requires
        i + 4 <= buf@.len(),
    ensures
        r == word_from_bytes(buf@[i as int], buf@[i + 1], buf@[i + 2], buf@[i + 3]),
{
    <byteorder::LittleEndian as byteorder::ByteOrder>::read_u32(&buf[i..])
}

/// Relies on byteorder's `LittleEndian::write_u16`: it stores the two
/// bytes of `n` at `i`, least significant first, and touches nothing
/// else.
#[verifier::external_body]
pub(crate) fn le_write_u16(buf: &mut Vec<u8>, i: usize, n: u16)
    requires
        i + 2 <= old(buf)@.len(),
    ensures
        final(buf)@ == old(buf)@.update(i as int, (n & 0xFFu16) as u8).update(
            i + 1,
            ((n >> 8u16) & 0xFFu16) as u8,
        ),
{
    <byteorder::LittleEndian as byteorder::ByteOrder>::write_u16(&mut buf[i..], n)
}

/// Relies on byteorder's `LittleEndian::write_u32`: it stores the four
/// bytes of `n` at `i`, least significant first, and touches nothing
/// else.
#[verifier::external_body]
pub(crate) fn le_write_u32(buf: &mut Vec<u8>, i: usize, n: u32)
    requires
        i + 4 <= old(buf)@.len(),
    ensures
        final(buf)@ == old(buf)@.update(i as int, (n & 0xFFu32) as u8).update(
            i + 1,
            ((n >> 8u32) & 0xFFu32) as u8,
        ).update(i + 2, ((n >> 16u32) & 0xFFu32) as u8).update(
            i + 3,
            ((n >> 24u32) & 0xFFu32) as u8,
        ),
{
    <byteorder::LittleEndian as byteorder::ByteOrder>::write_u32(&mut buf[i..], n)
}

} // verus!
