use crate::memory::Raw;
use crate::types::{halfword_from_bytes, word_from_bytes};
use vstd::prelude::*;

verus! {

pub trait ByteReadable: Raw {
    fn read_byte(&self, addr: u32) -> (r: u8)
        requires
            addr < self.data().len(),
        ensures
            r == self.data()[addr as int],
    ;
}

pub trait HalfWordReadable: Raw {
    fn read_halfword(&self, addr: u32) -> (r: u16)
        requires
            addr + 2 <= self.data().len(),
        ensures
            r == halfword_from_bytes(self.data()[addr as int], self.data()[addr + 1]),
    ;
}

pub trait WordReadable: Raw {
    fn read_word(&self, addr: u32) -> (r: u32)
        requires
            addr + 4 <= self.data().len(),
        ensures
            r == word_from_bytes(
                self.data()[addr as int],
                self.data()[addr + 1],
                self.data()[addr + 2],
                self.data()[addr + 3],
            ),
    ;
}

} // verus!
