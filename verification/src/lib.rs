//! A verified interpreter core for the 32-bit ARMv4 instruction set (ARM
//! state only).  The crate models the fetch/decode/execute pipeline, the
//! instruction decoder, the barrel shifter, the program status register and
//! the execute units for the data-processing, memory, extra-memory,
//! multiply, block-transfer and branch instruction families.  Memory is
//! reached through the little-endian `Bus` interface, which the host (or
//! the `memory` module of this crate) implements.

pub mod bus;
pub mod constants;
pub mod cpu;
pub mod decoder;
pub mod instructions;
pub mod memory;
pub mod registers;
pub mod types;
