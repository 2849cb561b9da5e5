use vstd::prelude::*;

verus! {

pub type Byte = u8;

pub type HalfWord = u16;

pub type Word = u32;

/// The four shift kinds of the barrel shifter.
#[derive(Debug, PartialEq, Eq, Structural, Clone, Copy)]
pub enum Shift {
    LSL,
    LSR,
    ASR,
    ROR,
}

/// 32-bit wrapping sum; addresses and the ALU wrap modulo 2^32.
pub open spec fn wadd(a: u32, b: u32) -> u32 {
    if a + b > u32::MAX {
        (a + b - 0x1_0000_0000) as u32
    } else {
        (a + b) as u32
    }
}

/// 32-bit wrapping difference.
pub open spec fn wsub(a: u32, b: u32) -> u32 {
    if a - b < 0 {
        (a - b + 0x1_0000_0000) as u32
    } else {
        (a - b) as u32
    }
}

/// Little-endian assembly of a 32-bit word from four bytes, least
/// significant byte first.
pub open spec fn word_from_bytes(b0: u8, b1: u8, b2: u8, b3: u8) -> u32 {
    (b0 as u32) | ((b1 as u32) << 8u32) | ((b2 as u32) << 16u32) | ((b3 as u32) << 24u32)
}

/// Little-endian assembly of a 16-bit half-word from two bytes.
pub open spec fn halfword_from_bytes(b0: u8, b1: u8) -> u16 {
    (b0 as u16) | ((b1 as u16) << 8u16)
}

/// The k-th byte of a 32-bit word, least significant first (k in 0..4).
pub open spec fn byte_of(w: u32, k: u32) -> u8 {
    ((w >> (8u32 * k)) & 0xFFu32) as u8
}

/// Bit `i` of a 32-bit word.
pub open spec fn bit_set(w: u32, i: u32) -> bool {
    w & (1u32 << i) != 0
}

} // verus!
