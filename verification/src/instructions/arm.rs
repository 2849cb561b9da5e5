pub mod branch;
pub mod data;
pub mod extra_memory;
pub mod memory;
pub mod multi_load_and_store;
pub mod multiple;
pub mod shift;

use crate::constants::{COND_AL, COND_FIELD};
use crate::types::Word;
use vstd::prelude::*;

verus! {

/// The instruction classes of the early, reduced decoder kept beside
/// the full one.
#[derive(Debug, PartialEq, Eq, Structural, Clone, Copy)]
pub enum Category {
    Undefined,
    Memory,
    DataProcessing,
}

#[derive(Debug, PartialEq, Eq, Structural, Clone, Copy)]
pub enum Opcode {
    LDR,
    STR,
    MOV,
    Undefined,
    DataProcessing,
    NOP,
}

#[allow(non_camel_case_types)]
#[derive(Debug, PartialEq, Eq, Structural, Clone, Copy)]
pub enum Condition {
    EQ,
    NE,
    CS_HS,
    CC_LO,
    MI,
    PL,
    VS,
    VC,
    HI,
    LS,
    GE,
    LT,
    GT,
    LE,
    AL,
}

/// A word decoded by the reduced decoder.
#[derive(Debug)]
pub struct Instruction {
    pub cond: Condition,
    pub opcode: Opcode,
    pub category: Category,
    pub raw: Word,
}

pub const RAW_NOP: Word = 0b0000_00_0_1101_0_0000_0000_00000000_0000;

/// The class the reduced decoder gives a word, or `None` where it
/// recognises none.
pub open spec fn spec_insn_category(w: u32) -> Option<Category> {
    if w & 0x0E00_0010u32 == 0x0600_0010u32 {
        Some(Category::Undefined)
    } else if w & 0x0C00_0000u32 == 0x0400_0000u32 {
        Some(Category::Memory)
    } else if w & 0x0C00_0000u32 == 0x0000_0000u32 {
        Some(Category::DataProcessing)
    } else {
        None
    }
}

/// The opcode the reduced decoder gives a word: memory words split on
/// bit 11, and of the data-processing class it knows only MOV.
pub open spec fn spec_insn_opcode(w: u32) -> Option<Opcode> {
    match spec_insn_category(w) {
        Some(Category::Undefined) => Some(Opcode::Undefined),
        Some(Category::Memory) => if w & 0x0000_0800u32 == 0 {
            Some(Opcode::LDR)
        } else {
            Some(Opcode::STR)
        },
        Some(Category::DataProcessing) => if (w & 0x01E0_0000u32) >> 21u32 == 13 {
            Some(Opcode::MOV)
        } else {
            None
        },
        None => None,
    }
}

/// The words the reduced decoder accepts: the always condition, and a
/// class and opcode it knows.
pub open spec fn spec_insn_decodable(w: u32) -> bool {
    w & COND_FIELD == COND_AL && spec_insn_opcode(w) is Some
}

fn decode_memory_instruction(fetched: Word) -> (r: Opcode)
    ensures
        spec_insn_category(fetched) == Some(Category::Memory) ==> Some(r) == spec_insn_opcode(
            fetched,
        ),
{
    if fetched & 0x0000_0800 == 0x0000_0000 {
        Opcode::LDR
    } else {
        Opcode::STR
    }
}

fn decode_data_processing_instruction(fetched: Word) -> (r: Opcode)
    requires
        spec_insn_category(fetched) == Some(Category::DataProcessing) ==> spec_insn_opcode(fetched)
            is Some,
    ensures
        spec_insn_category(fetched) == Some(Category::DataProcessing) ==> Some(r)
            == spec_insn_opcode(fetched),
{
    let cmd = (fetched & 0x01E0_0000) >> 21;
    if cmd == 0b1101 {
        Opcode::MOV
    } else {
        Opcode::NOP
    }
}

impl Instruction {
    pub fn opcode(&self) -> (r: Opcode)
        ensures
            r == self.opcode,
    {
        self.opcode
    }

    pub fn is_load(&self) -> (r: bool)
        ensures
            r == (self.raw & 0x800u32 != 0),
    {
        proof {
            assert(1u32 << 11u32 == 0x800u32) by (bit_vector);
        }
        0 != (self.raw & (1 << 11))
    }

    pub fn decode(fetched: Word) -> (r: Instruction)
        requires
            spec_insn_decodable(fetched),
        ensures
            r.raw == fetched,
            r.cond == Condition::AL,
            Some(r.category) == spec_insn_category(fetched),
            Some(r.opcode) == spec_insn_opcode(fetched),
    {
        let cond = Condition::AL;
        let category = if fetched & 0x0E00_0010 == 0x0600_0010 {
            Category::Undefined
        } else if fetched & 0x0C00_0000 == 0x0400_0000 {
            Category::Memory
        } else {
            Category::DataProcessing
        };
        let opcode = match category {
            Category::Undefined => Opcode::Undefined,
            Category::Memory => decode_memory_instruction(fetched),
            Category::DataProcessing => decode_data_processing_instruction(fetched),
        };
        Instruction { raw: fetched, cond, category, opcode }
    }

    #[allow(non_snake_case)]
    pub fn get_Rn(&self) -> (r: usize)
        ensures
            r == crate::decoder::arm::f_rn(self.raw) as usize,
    {
        ((self.raw >> 16) & 0xF) as usize
    }

    #[allow(non_snake_case)]
    pub fn get_Rd(&self) -> (r: usize)
        ensures
            r == crate::decoder::arm::f_rd(self.raw) as usize,
    {
        ((self.raw >> 12) & 0xF) as usize
    }

    pub fn get_src2(&self) -> (r: usize)
        ensures
            r == crate::decoder::arm::f_src2(self.raw) as usize,
    {
        (self.raw & 0xFFF) as usize
    }

    #[allow(non_snake_case)]
    pub fn has_I(&self) -> (r: bool)
        ensures
            r == crate::decoder::arm::f_i(self.raw),
    {
        self.raw & 0x0200_0000 != 0
    }

    /// In this decoder's convention a clear U bit names the upward
    /// offset.
    pub fn is_plus_offset(&self) -> (r: bool)
        ensures
            r == (self.raw & 0x0080_0000u32 == 0),
    {
        self.raw & 0x0080_0000 == 0
    }

    pub fn is_minus_offset(&self) -> (r: bool)
        ensures
            r == (self.raw & 0x0080_0000u32 != 0),
    {
        !self.is_plus_offset()
    }
}

} // verus!
