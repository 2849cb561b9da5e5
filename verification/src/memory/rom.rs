use crate::memory::ram::grow_to;
use crate::memory::readable::{ByteReadable, HalfWordReadable, WordReadable};
use crate::memory::{le_read_u16, le_read_u32, Raw};
use vstd::prelude::*;

verus! {

/// Read-only little-endian memory over a byte vector.
#[derive(Debug)]
pub struct Rom(Vec<u8>);

impl Rom {
    /// A ROM of `size` bytes holding `init` at its start and zeroes
    /// after it.
    pub fn new(size: usize, init: Vec<u8>) -> (r: Self)
        requires
            init@.len() <= size,
        ensures
            r.data() == init@ + Seq::new((size - init@.len()) as nat, |i: int| 0u8),
    {
        let mut buf = init;
        grow_to(&mut buf, size);
        Rom(buf)
    }
}

impl Raw for Rom {
    closed spec fn data(&self) -> Seq<u8> {
        self.0@
    }
}

impl ByteReadable for Rom {
    fn read_byte(&self, addr: u32) -> u8 {
        self.0[addr as usize]
    }
}

impl HalfWordReadable for Rom {
    fn read_halfword(&self, addr: u32) -> u16 {
        le_read_u16(&self.0, addr as usize)
    }
}

impl WordReadable for Rom {
    fn read_word(&self, addr: u32) -> u32 {
        le_read_u32(&self.0, addr as usize)
    }
}

} // verus!
