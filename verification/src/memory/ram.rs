use crate::bus::Bus;
use crate::memory::readable::{ByteReadable, HalfWordReadable, WordReadable};
use crate::memory::writable::{ByteWritable, HalfWordWritable, WordWritable};
use crate::memory::{le_read_u16, le_read_u32, le_write_u16, le_write_u32, Raw};
use crate::types::byte_of;
use vstd::prelude::*;

verus! {

/// Little-endian random-access memory over a byte vector.  The raw
/// accessors address the vector directly and ask the caller to stay in
/// bounds; the `Bus` view is total, reading zero beyond the current
/// extent and growing the vector when a store lands there.
#[derive(Debug)]
pub struct Ram(Vec<u8>);

impl Ram {
    pub fn new(buf: Vec<u8>) -> (r: Self)
        ensures
            r.data() == buf@,
    {
        Ram(buf)
    }
}

impl Raw for Ram {
    closed spec fn data(&self) -> Seq<u8> {
        self.0@
    }
}

impl ByteReadable for Ram {
    fn read_byte(&self, addr: u32) -> u8 {
        self.0[addr as usize]
    }
}

impl HalfWordReadable for Ram {
    fn read_halfword(&self, addr: u32) -> u16 {
        le_read_u16(&self.0, addr as usize)
    }
}

impl WordReadable for Ram {
    fn read_word(&self, addr: u32) -> u32 {
        le_read_u32(&self.0, addr as usize)
    }
}

impl ByteWritable for Ram {
    fn write_byte(&mut self, addr: u32, data: u8) {
        self.0[addr as usize] = data;
    }
}

impl HalfWordWritable for Ram {
    fn write_halfword(&mut self, addr: u32, data: u16) {
        le_write_u16(&mut self.0, addr as usize, data);
    }
}

impl WordWritable for Ram {
    fn write_word(&mut self, addr: u32, data: u32) {
        le_write_u32(&mut self.0, addr as usize, data);
    }
}

/// Extend `buf` with zero bytes until it holds at least `len` of them.
pub(crate) fn grow_to(buf: &mut Vec<u8>, len: usize)
    ensures
        final(buf)@ == if old(buf)@.len() >= len {
            old(buf)@
        } else {
            old(buf)@ + Seq::new((len - old(buf)@.len()) as nat, |i: int| 0u8)
        },
        final(buf)@.len() >= len,
{
    let ghost orig = buf@;
    proof {
        assert(buf@ =~= orig + Seq::new((buf@.len() - orig.len()) as nat, |i: int| 0u8));
    }
    while buf.len() < len
        invariant
            buf@.len() >= orig.len(),
            orig.len() >= len ==> buf@.len() == orig.len(),
            orig.len() < len ==> buf@.len() <= len,
            buf@ == orig + Seq::new((buf@.len() - orig.len()) as nat, |i: int| 0u8),
        decreases len - buf@.len(),
    {
        buf.push(0);
        proof {
            assert(buf@ =~= orig + Seq::new((buf@.len() - orig.len()) as nat, |i: int| 0u8));
        }
    }
    proof {
        if orig.len() >= len {
            assert(buf@ =~= orig);
        }
    }
}

impl Ram {
    /// The byte the bus view yields: the stored byte in range, zero
    /// beyond the extent.
    fn bus_byte(&self, addr: u32) -> (r: u8)
        ensures
            r == self.mem()[addr],
    {
        if (addr as usize) < self.0.len() {
            self.0[addr as usize]
        } else {
            0
        }
    }

    /// Store one byte at any address, growing the backing vector when
    /// the address lies beyond the current extent.
    fn bus_set_byte(&mut self, addr: u32, data: u8)
        ensures
            final(self).mem() == old(self).mem().insert(addr, data),
    {
        let ghost orig = self.0@;
        proof {
            assert(self.0@ =~= orig + Seq::new((self.0@.len() - orig.len()) as nat, |i: int| 0u8));
        }
        while self.0.len() <= addr as usize
            invariant
                self.0@.len() >= orig.len(),
                self.0@ == orig + Seq::new((self.0@.len() - orig.len()) as nat, |i: int| 0u8),
            decreases addr as int + 1 - self.0@.len(),
        {
            self.0.push(0);
            proof {
                assert(self.0@ =~= orig + Seq::new(
                    (self.0@.len() - orig.len()) as nat,
                    |i: int| 0u8,
                ));
            }
        }
        self.0[addr as usize] = data;
        proof {
            assert forall|a: u32| self.mem()[a] == #[trigger] old(self).mem().insert(
                addr,
                data,
            )[a] by {
                if a != addr {
                    if (a as int) < old(self).0@.len() {
                    } else {
                    }
                }
            }
            assert(self.mem() =~= old(self).mem().insert(addr, data));
        }
    }
}

impl Bus for Ram {
    closed spec fn inv(&self) -> bool {
        true
    }

    closed spec fn mem(&self) -> Map<u32, u8> {
        Map::new(
            |a: u32| true,
            |a: u32|
                if (a as int) < self.0@.len() {
                    self.0@[a as int]
                } else {
                    0u8
                },
        )
    }

    fn read_byte(&self, addr: u32) -> u8 {
        self.bus_byte(addr)
    }

    fn read_word(&self, addr: u32) -> u32 {
        let b0 = self.bus_byte(addr);
        let b1 = self.bus_byte(addr.wrapping_add(1));
        let b2 = self.bus_byte(addr.wrapping_add(2));
        let b3 = self.bus_byte(addr.wrapping_add(3));
        (b0 as u32) | ((b1 as u32) << 8) | ((b2 as u32) << 16) | ((b3 as u32) << 24)
    }

    fn write_byte(&mut self, addr: u32, data: u8) {
        self.bus_set_byte(addr, data);
    }

    fn write_word(&mut self, addr: u32, data: u32) {
        let b0 = (data & 0xFF) as u8;
        let b1 = ((data >> 8) & 0xFF) as u8;
        let b2 = ((data >> 16) & 0xFF) as u8;
        let b3 = ((data >> 24) & 0xFF) as u8;
        proof {
            assert(byte_of(data, 0) == (data & 0xFFu32) as u8 && byte_of(data, 1) == ((data
                >> 8u32) & 0xFFu32) as u8 && byte_of(data, 2) == ((data >> 16u32) & 0xFFu32) as u8
                && byte_of(data, 3) == ((data >> 24u32) & 0xFFu32) as u8) by (bit_vector);
        }
        self.bus_set_byte(addr, b0);
        self.bus_set_byte(addr.wrapping_add(1), b1);
        self.bus_set_byte(addr.wrapping_add(2), b2);
        self.bus_set_byte(addr.wrapping_add(3), b3);
    }
}

} // verus!
