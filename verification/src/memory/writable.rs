use crate::memory::Raw;
use vstd::prelude::*;

verus! {

pub trait ByteWritable: Raw {
    fn write_byte(&mut self, addr: u32, data: u8)
        requires
            addr < old(self).data().len(),
        ensures
            final(self).data() == old(self).data().update(addr as int, data),
    ;
}

pub trait HalfWordWritable: Raw {
    fn write_halfword(&mut self, addr: u32, data: u16)
        requires
            addr + 2 <= old(self).data().len(),
        ensures
            final(self).data() == old(self).data().update(addr as int, (data & 0xFFu16) as u8)
                .update(addr + 1, ((data >> 8u16) & 0xFFu16) as u8),
    ;
}

pub trait WordWritable: Raw {
    fn write_word(&mut self, addr: u32, data: u32)
        requires
            addr + 4 <= old(self).data().len(),
        ensures
            final(self).data() == old(self).data().update(addr as int, (data & 0xFFu32) as u8)
                .update(addr + 1, ((data >> 8u32) & 0xFFu32) as u8).update(
                addr + 2,
                ((data >> 16u32) & 0xFFu32) as u8,
            ).update(addr + 3, ((data >> 24u32) & 0xFFu32) as u8),
    ;
}

} // verus!
