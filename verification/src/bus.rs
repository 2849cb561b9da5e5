use crate::types::{byte_of, wadd, word_from_bytes, Byte, Word};
use vstd::prelude::*;

verus! {

/// The little-endian word a bus yields at `addr`: the four bytes at
/// `addr`, `addr+1`, `addr+2`, `addr+3` (addresses wrap), least
/// significant byte first.
pub open spec fn word_at(m: Map<u32, u8>, addr: u32) -> u32 {
    word_from_bytes(m[addr], m[wadd(addr, 1)], m[wadd(addr, 2)], m[wadd(addr, 3)])
}

/// The memory map after a little-endian word write at `addr`.
pub open spec fn word_written(m: Map<u32, u8>, addr: u32, data: u32) -> Map<u32, u8> {
    m.insert(addr, byte_of(data, 0)).insert(wadd(addr, 1), byte_of(data, 1)).insert(
        wadd(addr, 2),
        byte_of(data, 2),
    ).insert(wadd(addr, 3), byte_of(data, 3))
}

/// The CPU's only outbound surface.  A bus implementation exposes its
/// state as a map from 32-bit addresses to bytes; words are read and
/// written little-endian.  Reads need shared access only and leave the
/// device unchanged; writes update exactly the bytes named.
pub trait Bus: Sized {
    /// Well-formedness of the device state; constructors establish it and
    /// every bus operation preserves it.
    spec fn inv(&self) -> bool;

    /// The bytes the device holds.
    spec fn mem(&self) -> Map<u32, u8>;

    fn read_byte(&self, addr: u32) -> (r: Byte)
        requires
            self.inv(),
        ensures
            r == self.mem()[addr],
    ;

    fn read_word(&self, addr: u32) -> (r: Word)
        requires
            self.inv(),
        ensures
            r == word_at(self.mem(), addr),
    ;

    fn write_byte(&mut self, addr: u32, data: u8)
        requires
            old(self).inv(),
        ensures
            final(self).inv(),
            final(self).mem() == old(self).mem().insert(addr, data),
    ;

    fn write_word(&mut self, addr: u32, data: u32)
        requires
            old(self).inv(),
        ensures
            final(self).inv(),
            final(self).mem() == word_written(old(self).mem(), addr, data),
    ;
}


/// Adding distinct small offsets to one base yields distinct addresses.
pub proof fn lemma_wadd_injective(s: u32, x: u32, y: u32)
    ensures
        x != y ==> wadd(s, x) != wadd(s, y),
{
}

/// Offset addition composes: stepping by `b` from `s + a` lands on
/// `s + (a + b)` as long as the offsets themselves do not overflow.
pub proof fn lemma_wadd_assoc(s: u32, a: u32, b: u32)
    requires
        a + b <= u32::MAX,
    ensures
        wadd(wadd(s, a), b) == wadd(s, (a + b) as u32),
{
}

/// Reading a word back from where it was just written yields the word.
pub proof fn lemma_word_at_written_same(m: Map<u32, u8>, a: u32, v: u32)
    ensures
        word_at(word_written(m, a, v), a) == v,
{
    assert(crate::types::word_from_bytes(
        crate::types::byte_of(v, 0),
        crate::types::byte_of(v, 1),
        crate::types::byte_of(v, 2),
        crate::types::byte_of(v, 3),
    ) == v) by (bit_vector);
}

/// A word write at one small offset from a base leaves the word at a
/// disjoint small offset untouched.
pub proof fn lemma_word_write_disjoint(m: Map<u32, u8>, s: u32, o1: u32, o2: u32, v: u32)
    requires
        o1 + 4 <= o2 || o2 + 4 <= o1,
        o1 <= 100,
        o2 <= 100,
    ensures
        word_at(word_written(m, wadd(s, o1), v), wadd(s, o2)) == word_at(m, wadd(s, o2)),
{
    assert forall|x: u32, y: u32| x <= 104 && y <= 104 && x != y implies wadd(s, x) != wadd(
        s,
        y,
    ) by {
        lemma_wadd_injective(s, x, y);
    }
    lemma_wadd_assoc(s, o1, 1);
    lemma_wadd_assoc(s, o1, 2);
    lemma_wadd_assoc(s, o1, 3);
    lemma_wadd_assoc(s, o2, 1);
    lemma_wadd_assoc(s, o2, 2);
    lemma_wadd_assoc(s, o2, 3);
}

} // verus!
