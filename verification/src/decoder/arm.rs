use crate::constants::{
    COND_AL, COND_CC_LO, COND_CS_HS, COND_EQ, COND_FIELD, COND_GE, COND_GT, COND_HI, COND_LE,
    COND_LS, COND_LT, COND_MI, COND_NE, COND_PL, COND_VC, COND_VS,
};
use crate::instructions::ArmError;
use crate::types::{Shift, Word};
use vstd::prelude::*;

verus! {

#[derive(Debug, PartialEq, Eq, Structural, Clone, Copy)]
pub enum Category {
    Undefined,
    Multiple,
    Memory,
    ExtraMemory,
    DataProcessing,
    Branch,
    MultiLoadAndStore,
}

#[derive(Debug, PartialEq, Eq, Structural, Clone, Copy)]
pub enum Opcode {
    AND,
    EOR,
    SUB,
    RSB,
    ADD,
    ADC,
    SBC,
    RSC,
    TST,
    TEQ,
    CMP,
    CMN,
    ORR,
    MOV,
    LSL,
    LSR,
    ASR,
    RRX,
    ROR,
    BIC,
    MVN,
    MUL,
    MLA,
    UMULL,
    UMLAL,
    SMULL,
    SMLAL,
    STR,
    LDR,
    LDRB,
    STRB,
    STRH,
    LDRH,
    LDRSB,
    LDRSH,
    B,
    BL,
    LDM,
    STM,
    Undefined,
    NOP,
}

#[allow(non_camel_case_types)]
#[derive(Debug, PartialEq, Eq, Structural, Clone, Copy)]
pub enum Condition {
    EQ,
    NE,
    CS_HS,
    CC_LO,
    MI,
    PL,
    VS,
    VC,
    HI,
    LS,
    GE,
    LT,
    GT,
    LE,
    AL,
}

#[derive(Debug, PartialEq, Eq, Structural, Clone, Copy)]
pub enum IndexMode {
    PostIndex,
    Unsupported,
    Offset,
    PreIndex,
}

// Field views over a raw instruction word.  Each is the named bit field,
// shifted down to the low bits.

/// Rn, bits 19..16.
pub open spec fn f_rn(w: u32) -> u32 {
    (w >> 16u32) & 0xFu32
}

/// Rd, bits 15..12.
pub open spec fn f_rd(w: u32) -> u32 {
    (w >> 12u32) & 0xFu32
}

/// src2, bits 11..0.
pub open spec fn f_src2(w: u32) -> u32 {
    w & 0xFFFu32
}

/// imm24, bits 23..0.
pub open spec fn f_imm24(w: u32) -> u32 {
    w & 0xFF_FFFFu32
}

/// The I bit, bit 25.
pub open spec fn f_i(w: u32) -> bool {
    w & 0x0200_0000u32 != 0
}

/// The P (pre-index) bit, bit 24.
pub open spec fn f_p(w: u32) -> bool {
    w & 0x0100_0000u32 != 0
}

/// The U (add offset) bit, bit 23.
pub open spec fn f_u(w: u32) -> bool {
    w & 0x0080_0000u32 != 0
}

/// The W (write-back) bit, bit 21.
pub open spec fn f_w(w: u32) -> bool {
    w & 0x0020_0000u32 != 0
}

/// The L (load) bit, bit 20.
pub open spec fn f_l(w: u32) -> bool {
    w & 0x0010_0000u32 != 0
}

/// The S bit, bit 20 (shared position with L).
pub open spec fn f_s(w: u32) -> bool {
    w & 0x0010_0000u32 != 0
}

/// Rm, bits 3..0.
pub open spec fn f_rm(w: u32) -> u32 {
    w & 0xFu32
}

/// The shift kind, bits 6..5.
pub open spec fn f_sh(w: u32) -> Shift {
    let sh = (w & 0x60u32) >> 5u32;
    if sh == 0 {
        Shift::LSL
    } else if sh == 1 {
        Shift::LSR
    } else if sh == 2 {
        Shift::ASR
    } else {
        Shift::ROR
    }
}

/// Rs, bits 11..8.
pub open spec fn f_rs(w: u32) -> u32 {
    (w >> 8u32) & 0xFu32
}

/// The five-bit immediate shift amount, bits 11..7.
pub open spec fn f_shamt5(w: u32) -> u32 {
    (w >> 7u32) & 0x1Fu32
}

/// imm8, bits 7..0.
pub open spec fn f_imm8(w: u32) -> u32 {
    w & 0xFFu32
}

/// The immediate rotation, bits 11..8.
pub open spec fn f_rot(w: u32) -> u32 {
    (w >> 8u32) & 0xFu32
}

/// Register-specified shift (bit 4) rather than an immediate amount.
pub open spec fn f_reg_offset(w: u32) -> bool {
    w & 0x10u32 != 0
}

/// Rd of a multiply encoding, bits 19..16.
pub open spec fn f_mul_rd(w: u32) -> u32 {
    (w >> 16u32) & 0xFu32
}

/// Rn of a multiply encoding, bits 3..0.
pub open spec fn f_mul_rn(w: u32) -> u32 {
    w & 0xFu32
}

/// Rm of a multiply encoding, bits 11..8.
pub open spec fn f_mul_rm(w: u32) -> u32 {
    (w >> 8u32) & 0xFu32
}

/// Ra (accumulate) of a multiply encoding, bits 15..12.
pub open spec fn f_mul_ra(w: u32) -> u32 {
    (w >> 12u32) & 0xFu32
}

/// The immediate-offset bit of an extra-memory encoding, bit 22.
pub open spec fn f_ex_i(w: u32) -> bool {
    w & 0x0040_0000u32 != 0
}

/// The split eight-bit offset of an extra-memory encoding.
pub open spec fn f_ex_imm8(w: u32) -> u32 {
    ((w & 0xF00u32) >> 4u32) | (w & 0xFu32)
}

/// The composite indexing mode derived from the P and W bits.
pub open spec fn spec_index_mode(w: u32) -> IndexMode {
    if !f_p(w) && !f_w(w) {
        IndexMode::PostIndex
    } else if !f_p(w) && f_w(w) {
        IndexMode::Unsupported
    } else if f_p(w) && !f_w(w) {
        IndexMode::Offset
    } else {
        IndexMode::PreIndex
    }
}

/// Every four-bit register field names a register under 16, and the other
/// fields stay under their width.
pub proof fn lemma_fields_bounded(w: u32)
    by (bit_vector)
    ensures
        f_rn(w) < 16,
        f_rd(w) < 16,
        f_rm(w) < 16,
        f_rs(w) < 16,
        f_rot(w) < 16,
        f_shamt5(w) < 32,
        f_imm8(w) < 256,
        f_src2(w) < 0x1000,
        f_imm24(w) < 0x100_0000,
        f_mul_rd(w) < 16,
        f_mul_rn(w) < 16,
        f_mul_rm(w) < 16,
        f_mul_ra(w) < 16,
        f_ex_imm8(w) < 256,
{
}

#[derive(Debug, PartialEq, Eq, Structural, Clone, Copy)]
pub struct BaseDecoder {
    pub cond: Condition,
    pub opcode: Opcode,
    pub raw: Word,
}

#[derive(Debug, PartialEq, Eq, Structural, Clone, Copy)]
pub struct MultipleDecoder(pub BaseDecoder);

#[derive(Debug, PartialEq, Eq, Structural, Clone, Copy)]
pub struct ExtraMemoryDecoder(pub BaseDecoder);

/// The decoded forms `decode` can yield; the variant names the field
/// layout the execute units must read the word with.
#[derive(Debug, PartialEq, Eq, Structural, Clone, Copy)]
pub enum Decoded {
    Base(BaseDecoder),
    Multiple(MultipleDecoder),
    ExtraMemory(ExtraMemoryDecoder),
}

impl Decoded {
    /// The record common to all decoded forms.
    pub open spec fn base(self) -> BaseDecoder {
        match self {
            Decoded::Base(d) => d,
            Decoded::Multiple(d) => d.0,
            Decoded::ExtraMemory(d) => d.0,
        }
    }
}

pub fn is_load(raw: Word) -> (r: bool)
    ensures
        r == f_l(raw),
{
    raw & 0x0010_0000 != 0
}

#[allow(non_snake_case)]
fn get_I(raw: Word) -> (r: Word)
    ensures
        (r != 0) == f_i(raw),
        r == (raw & 0x0200_0000u32) >> 25u32,
{
    proof {
        assert(((raw & 0x0200_0000u32) >> 25u32 != 0) == (raw & 0x0200_0000u32 != 0))
            by (bit_vector);
    }
    (raw & 0x0200_0000) >> 25
}

fn get_sh(raw: Word) -> (r: Word)
    ensures
        r == (raw & 0x60u32) >> 5u32,
{
    (raw & 0b110_0000) >> 5
}

fn get_instr(raw: Word) -> (r: Word)
    ensures
        r == (raw & 0xFF0u32) >> 4u32,
{
    (raw & 0b1111_1111_0000) >> 4
}

#[allow(non_snake_case)]
fn get_S(raw: Word) -> (r: Word)
    ensures
        (r != 0) == f_s(raw),
        r == (raw & 0x0010_0000u32) >> 20u32,
{
    proof {
        assert(((raw & 0x0010_0000u32) >> 20u32 != 0) == (raw & 0x0010_0000u32 != 0))
            by (bit_vector);
    }
    (raw & 0x0010_0000) >> 20
}

pub trait Raw {
    spec fn spec_raw(&self) -> Word;

    spec fn spec_op(&self) -> Opcode;

    fn raw(&self) -> (r: u32)
        ensures
            r == self.spec_raw(),
    ;

    fn op(&self) -> (r: Opcode)
        ensures
            r == self.spec_op(),
    ;
}

/// Field accessors shared by every decoded form, each a pure view over
/// the raw word.
pub trait Decoder: Raw {
    fn opcode(&self) -> (r: Opcode)
        ensures
            r == self.spec_op(),
    {
        self.op()
    }

    #[allow(non_snake_case)]
    fn get_Rn(&self) -> (r: usize)
        ensures
            r == f_rn(self.spec_raw()) as usize,
    {
        ((self.raw() >> 16) & 0xF) as usize
    }

    #[allow(non_snake_case)]
    fn get_Rd(&self) -> (r: usize)
        ensures
            r == f_rd(self.spec_raw()) as usize,
    {
        ((self.raw() >> 12) & 0xF) as usize
    }

    fn get_src2(&self) -> (r: usize)
        ensures
            r == f_src2(self.spec_raw()) as usize,
    {
        (self.raw() & 0xFFF) as usize
    }

    fn get_imm24(&self) -> (r: u32)
        ensures
            r == f_imm24(self.spec_raw()),
    {
        self.raw() & 0xFF_FFFF
    }

    #[allow(non_snake_case)]
    fn has_I(&self) -> (r: bool)
        ensures
            r == f_i(self.spec_raw()),
    {
        self.raw() & 0x0200_0000 != 0
    }

    fn is_pre_indexed(&self) -> (r: bool)
        ensures
            r == f_p(self.spec_raw()),
    {
        self.raw() & 0x0100_0000 != 0
    }

    fn is_write_back(&self) -> (r: bool)
        ensures
            r == f_w(self.spec_raw()),
    {
        self.raw() & 0x0020_0000 != 0
    }

    fn is_load(&self) -> (r: bool)
        ensures
            r == f_l(self.spec_raw()),
    {
        is_load(self.raw())
    }

    #[allow(non_snake_case)]
    fn get_memory_index_mode(&self) -> (r: IndexMode)
        ensures
            r == spec_index_mode(self.spec_raw()),
    {
        let p = self.raw() & 0x0100_0000 != 0;
        let w = self.raw() & 0x0020_0000 != 0;
        if !p && !w {
            IndexMode::PostIndex
        } else if !p && w {
            IndexMode::Unsupported
        } else if p && !w {
            IndexMode::Offset
        } else {
            IndexMode::PreIndex
        }
    }

    #[allow(non_snake_case)]
    fn get_Rm(&self) -> (r: usize)
        ensures
            r == f_rm(self.spec_raw()) as usize,
    {
        (self.raw() & 0xF) as usize
    }

    fn get_sh(&self) -> (r: Shift)
        ensures
            r == f_sh(self.spec_raw()),
    {
        let sh = (self.raw() & 0b110_0000) >> 5;
        if sh == 0 {
            Shift::LSL
        } else if sh == 1 {
            Shift::LSR
        } else if sh == 2 {
            Shift::ASR
        } else {
            Shift::ROR
        }
    }

    #[allow(non_snake_case)]
    fn get_Rs(&self) -> (r: u32)
        ensures
            r == f_rs(self.spec_raw()),
    {
        (self.raw() >> 8) & 0xF
    }

    fn get_shamt5(&self) -> (r: u32)
        ensures
            r == f_shamt5(self.spec_raw()),
    {
        (self.raw() >> 7) & 0x1F
    }

    fn get_imm8(&self) -> (r: u32)
        ensures
            r == f_imm8(self.spec_raw()),
    {
        self.raw() & 0xFF
    }

    fn get_rot(&self) -> (r: u32)
        ensures
            r == f_rot(self.spec_raw()),
    {
        (self.raw() >> 8) & 0xF
    }

    // Bit: 23
    fn is_plus_offset(&self) -> (r: bool)
        ensures
            r == f_u(self.spec_raw()),
    {
        self.raw() & 0x0080_0000 != 0
    }

    fn is_reg_offset(&self) -> (r: bool)
        ensures
            r == f_reg_offset(self.spec_raw()),
    {
        self.raw() & 0x0000_0010 != 0
    }

    fn is_minus_offset(&self) -> (r: bool)
        ensures
            r == !f_u(self.spec_raw()),
    {
        !self.is_plus_offset()
    }
}

impl Raw for BaseDecoder {
    open spec fn spec_raw(&self) -> Word {
        self.raw
    }

    open spec fn spec_op(&self) -> Opcode {
        self.opcode
    }

    fn raw(&self) -> u32 {
        self.raw
    }

    fn op(&self) -> Opcode {
        self.opcode
    }
}

impl Raw for MultipleDecoder {
    open spec fn spec_raw(&self) -> Word {
        self.0.raw
    }

    open spec fn spec_op(&self) -> Opcode {
        self.0.opcode
    }

    fn raw(&self) -> u32 {
        self.0.raw
    }

    fn op(&self) -> Opcode {
        self.0.opcode
    }
}

impl Raw for ExtraMemoryDecoder {
    open spec fn spec_raw(&self) -> Word {
        self.0.raw
    }

    open spec fn spec_op(&self) -> Opcode {
        self.0.opcode
    }

    fn raw(&self) -> u32 {
        self.0.raw
    }

    fn op(&self) -> Opcode {
        self.0.opcode
    }
}

impl Decoder for BaseDecoder {

}

impl Decoder for MultipleDecoder {

}

impl Decoder for ExtraMemoryDecoder {

}

impl MultipleDecoder {
    /// Ra of the multiply field layout, bits 15..12.
    #[allow(non_snake_case)]
    pub fn get_Ra(&self) -> (r: usize)
        ensures
            r == f_mul_ra(self.spec_raw()) as usize,
    {
        ((self.raw() >> 12) & 0xF) as usize
    }

    /// Rd of the multiply field layout, bits 19..16.
    #[allow(non_snake_case)]
    pub fn get_Rd(&self) -> (r: usize)
        ensures
            r == f_mul_rd(self.spec_raw()) as usize,
    {
        ((self.raw() >> 16) & 0xF) as usize
    }

    /// Rn of the multiply field layout, bits 3..0.
    #[allow(non_snake_case)]
    pub fn get_Rn(&self) -> (r: usize)
        ensures
            r == f_mul_rn(self.spec_raw()) as usize,
    {
        (self.raw() & 0xF) as usize
    }

    /// Rm of the multiply field layout, bits 11..8.
    #[allow(non_snake_case)]
    pub fn get_Rm(&self) -> (r: usize)
        ensures
            r == f_mul_rm(self.spec_raw()) as usize,
    {
        ((self.raw() >> 8) & 0xF) as usize
    }
}

impl ExtraMemoryDecoder {
    /// The extra-memory immediate-offset bit, bit 22.
    #[allow(non_snake_case)]
    pub fn has_I(&self) -> (r: bool)
        ensures
            r == f_ex_i(self.spec_raw()),
    {
        self.raw() & 0x0040_0000 != 0
    }

    /// The split eight-bit extra-memory offset.
    pub fn get_imm8(&self) -> (r: u32)
        ensures
            r == f_ex_imm8(self.spec_raw()),
    {
        ((self.raw() & 0xF00) >> 4) | (self.raw() & 0xF)
    }
}

/// The condition named by bits 31..28, or `None` for the reserved
/// pattern 0b1111.
pub open spec fn spec_cond(w: u32) -> Option<Condition> {
    let c = w & COND_FIELD;
    if c == COND_EQ {
        Some(Condition::EQ)
    } else if c == COND_NE {
        Some(Condition::NE)
    } else if c == COND_CS_HS {
        Some(Condition::CS_HS)
    } else if c == COND_CC_LO {
        Some(Condition::CC_LO)
    } else if c == COND_MI {
        Some(Condition::MI)
    } else if c == COND_PL {
        Some(Condition::PL)
    } else if c == COND_VS {
        Some(Condition::VS)
    } else if c == COND_VC {
        Some(Condition::VC)
    } else if c == COND_HI {
        Some(Condition::HI)
    } else if c == COND_LS {
        Some(Condition::LS)
    } else if c == COND_GE {
        Some(Condition::GE)
    } else if c == COND_LT {
        Some(Condition::LT)
    } else if c == COND_GT {
        Some(Condition::GT)
    } else if c == COND_LE {
        Some(Condition::LE)
    } else if c == COND_AL {
        Some(Condition::AL)
    } else {
        None
    }
}

/// The instruction category selected by the fixed mask tests, tried in
/// order; `None` when no mask matches.
pub open spec fn spec_category(w: u32) -> Option<Category> {
    if w & 0x0E00_0000u32 == 0x0A00_0000u32 {
        Some(Category::Branch)
    } else if w & 0x0FC0_00F0u32 == 0x0000_0090u32 {
        Some(Category::Multiple)
    } else if w & 0x0F80_00F0u32 == 0x0080_0090u32 {
        Some(Category::Multiple)
    } else if w & 0x0E00_0010u32 == 0x0600_0010u32 {
        Some(Category::Undefined)
    } else if w & 0x0E40_0F90u32 == 0x0000_0090u32 {
        Some(Category::ExtraMemory)
    } else if w & 0x0E40_0090u32 == 0x0040_0090u32 {
        Some(Category::ExtraMemory)
    } else if w & 0x0C00_0000u32 == 0x0400_0000u32 {
        Some(Category::Memory)
    } else if w & 0x0C00_0000u32 == 0x0000_0000u32 {
        Some(Category::DataProcessing)
    } else if w & 0x0E00_0000u32 == 0x0800_0000u32 {
        Some(Category::MultiLoadAndStore)
    } else {
        None
    }
}

/// The multiply opcode named by bits 24..21; `None` for the patterns the
/// multiply class reserves.
pub open spec fn spec_decode_multiple(w: u32) -> Option<Opcode> {
    let cmd = (w & 0x01E0_0000u32) >> 21u32;
    if cmd == 0 {
        Some(Opcode::MUL)
    } else if cmd == 1 {
        Some(Opcode::MLA)
    } else if cmd == 4 {
        Some(Opcode::UMULL)
    } else if cmd == 5 {
        Some(Opcode::UMLAL)
    } else if cmd == 6 {
        Some(Opcode::SMULL)
    } else if cmd == 7 {
        Some(Opcode::SMLAL)
    } else {
        None
    }
}

/// The single-transfer opcode named by the L and B bits.
pub open spec fn spec_decode_memory(w: u32) -> Opcode {
    if w & 0x0050_0000u32 == 0x0050_0000u32 {
        Opcode::LDRB
    } else if w & 0x0010_0000u32 == 0x0010_0000u32 {
        Opcode::LDR
    } else if w & 0x0040_0000u32 == 0x0040_0000u32 {
        Opcode::STRB
    } else {
        Opcode::STR
    }
}

/// The extra-memory opcode named by op2 (bits 6..5) and the L bit;
/// `None` for the store forms of the signed and double encodings.
pub open spec fn spec_decode_extra_memory(w: u32) -> Option<Opcode> {
    let op2 = (w >> 5u32) & 3u32;
    let l = f_l(w);
    if op2 == 1 && !l {
        Some(Opcode::STRH)
    } else if op2 == 1 && l {
        Some(Opcode::LDRH)
    } else if op2 == 2 && l {
        Some(Opcode::LDRSB)
    } else if op2 == 3 && l {
        Some(Opcode::LDRSH)
    } else {
        None
    }
}

/// The data-processing opcode named by the cmd field, bits 24..21.  The
/// four comparison opcodes exist only with S set; cmd 0b1101 splits into
/// MOV and the shift forms by the I bit, the shift kind and the
/// sub-opcode bits, with RRX the I=0, sh=0b11 form whose 0xF90 mask is
/// clear.
pub open spec fn spec_decode_data_processing(w: u32) -> Option<Opcode> {
    let cmd = (w & 0x01E0_0000u32) >> 21u32;
    let s = f_s(w);
    let i = f_i(w);
    let sh = (w & 0x60u32) >> 5u32;
    let instr = (w & 0xFF0u32) >> 4u32;
    if cmd == 0 {
        Some(Opcode::AND)
    } else if cmd == 1 {
        Some(Opcode::EOR)
    } else if cmd == 2 {
        Some(Opcode::SUB)
    } else if cmd == 3 {
        Some(Opcode::RSB)
    } else if cmd == 4 {
        Some(Opcode::ADD)
    } else if cmd == 5 {
        Some(Opcode::ADC)
    } else if cmd == 6 {
        Some(Opcode::SBC)
    } else if cmd == 7 {
        Some(Opcode::RSC)
    } else if cmd == 8 {
        if s {
            Some(Opcode::TST)
        } else {
            None
        }
    } else if cmd == 9 {
        if s {
            Some(Opcode::TEQ)
        } else {
            None
        }
    } else if cmd == 10 {
        if s {
            Some(Opcode::CMP)
        } else {
            None
        }
    } else if cmd == 11 {
        if s {
            Some(Opcode::CMN)
        } else {
            None
        }
    } else if cmd == 12 {
        Some(Opcode::ORR)
    } else if cmd == 13 {
        if i || instr == 0 {
            Some(Opcode::MOV)
        } else if sh == 0 {
            Some(Opcode::LSL)
        } else if sh == 1 {
            Some(Opcode::LSR)
        } else if sh == 2 {
            Some(Opcode::ASR)
        } else if w & 0xF90u32 == 0 {
            Some(Opcode::RRX)
        } else {
            Some(Opcode::ROR)
        }
    } else if cmd == 14 {
        Some(Opcode::BIC)
    } else {
        Some(Opcode::MVN)
    }
}

/// LDM or STM, by the L bit.
pub open spec fn spec_decode_multi_load_and_store(w: u32) -> Opcode {
    if f_l(w) {
        Opcode::LDM
    } else {
        Opcode::STM
    }
}

/// B or BL, by the link bit 24.
pub open spec fn spec_decode_branch(w: u32) -> Opcode {
    if w & 0x0100_0000u32 != 0 {
        Opcode::BL
    } else {
        Opcode::B
    }
}

/// The opcode of a classified word, or `None` where the word falls into
/// a reserved sub-encoding or the undefined class.
pub open spec fn spec_opcode(w: u32) -> Option<Opcode> {
    match spec_category(w) {
        Some(Category::Undefined) => None,
        Some(Category::Multiple) => spec_decode_multiple(w),
        Some(Category::Memory) => Some(spec_decode_memory(w)),
        Some(Category::ExtraMemory) => spec_decode_extra_memory(w),
        Some(Category::DataProcessing) => spec_decode_data_processing(w),
        Some(Category::Branch) => Some(spec_decode_branch(w)),
        Some(Category::MultiLoadAndStore) => Some(spec_decode_multi_load_and_store(w)),
        None => None,
    }
}

/// What `decode` yields: the condition, the category and the opcode of a
/// supported word, and `None` exactly where `decode` reports
/// `UnsupportedEncoding`.
pub open spec fn spec_decode(w: u32) -> Option<(Condition, Category, Opcode)> {
    match (spec_cond(w), spec_category(w), spec_opcode(w)) {
        (Some(c), Some(cat), Some(op)) => Some((c, cat, op)),
        _ => None,
    }
}

fn decode_multiple(raw: Word) -> (r: Result<Opcode, ArmError>)
    ensures
        match r {
            Ok(op) => spec_decode_multiple(raw) == Some(op),
            Err(e) => spec_decode_multiple(raw) is None && e == ArmError::UnsupportedEncoding,
        },
{
    let cmd = (raw & 0x01E0_0000) >> 21;
    if cmd == 0 {
        Ok(Opcode::MUL)
    } else if cmd == 1 {
        Ok(Opcode::MLA)
    } else if cmd == 4 {
        Ok(Opcode::UMULL)
    } else if cmd == 5 {
        Ok(Opcode::UMLAL)
    } else if cmd == 6 {
        Ok(Opcode::SMULL)
    } else if cmd == 7 {
        Ok(Opcode::SMLAL)
    } else {
        Err(ArmError::UnsupportedEncoding)
    }
}

fn decode_memory(raw: Word) -> (r: Opcode)
    ensures
        r == spec_decode_memory(raw),
{
    if raw & 0x0050_0000 == 0x0050_0000 {
        Opcode::LDRB
    } else if raw & 0x0010_0000 == 0x0010_0000 {
        Opcode::LDR
    } else if raw & 0x0040_0000 == 0x0040_0000 {
        Opcode::STRB
    } else {
        Opcode::STR
    }
}

fn decode_extra_memory(raw: Word) -> (r: Result<Opcode, ArmError>)
    ensures
        match r {
            Ok(op) => spec_decode_extra_memory(raw) == Some(op),
            Err(e) => spec_decode_extra_memory(raw) is None && e == ArmError::UnsupportedEncoding,
        },
{
    let op2 = (raw >> 5) & 0b11;
    let l = is_load(raw);
    if op2 == 0b01 && !l {
        Ok(Opcode::STRH)
    } else if op2 == 0b01 && l {
        Ok(Opcode::LDRH)
    } else if op2 == 0b10 && l {
        Ok(Opcode::LDRSB)
    } else if op2 == 0b11 && l {
        Ok(Opcode::LDRSH)
    } else {
        Err(ArmError::UnsupportedEncoding)
    }
}

fn decode_data_processing(raw: Word) -> (r: Result<Opcode, ArmError>)
    ensures
        match r {
            Ok(op) => spec_decode_data_processing(raw) == Some(op),
            Err(e) => spec_decode_data_processing(raw) is None && e
                == ArmError::UnsupportedEncoding,
        },
{
    let cmd = (raw & 0x01E0_0000) >> 21;
    let s = get_S(raw) != 0;
    let i = get_I(raw) != 0;
    let sh = get_sh(raw);
    let instr = get_instr(raw);
    if cmd == 0b0000 {
        Ok(Opcode::AND)
    } else if cmd == 0b0001 {
        Ok(Opcode::EOR)
    } else if cmd == 0b0010 {
        Ok(Opcode::SUB)
    } else if cmd == 0b0011 {
        Ok(Opcode::RSB)
    } else if cmd == 0b0100 {
        Ok(Opcode::ADD)
    } else if cmd == 0b0101 {
        Ok(Opcode::ADC)
    } else if cmd == 0b0110 {
        Ok(Opcode::SBC)
    } else if cmd == 0b0111 {
        Ok(Opcode::RSC)
    } else if cmd == 0b1000 {
        if s {
            Ok(Opcode::TST)
        } else {
            Err(ArmError::UnsupportedEncoding)
        }
    } else if cmd == 0b1001 {
        if s {
            Ok(Opcode::TEQ)
        } else {
            Err(ArmError::UnsupportedEncoding)
        }
    } else if cmd == 0b1010 {
        if s {
            Ok(Opcode::CMP)
        } else {
            Err(ArmError::UnsupportedEncoding)
        }
    } else if cmd == 0b1011 {
        if s {
            Ok(Opcode::CMN)
        } else {
            Err(ArmError::UnsupportedEncoding)
        }
    } else if cmd == 0b1100 {
        Ok(Opcode::ORR)
    } else if cmd == 0b1101 {
        if i || instr == 0 {
            Ok(Opcode::MOV)
        } else if sh == 0b00 {
            Ok(Opcode::LSL)
        } else if sh == 0b01 {
            Ok(Opcode::LSR)
        } else if sh == 0b10 {
            Ok(Opcode::ASR)
        } else if raw & 0xF90 == 0 {
            Ok(Opcode::RRX)
        } else {
            Ok(Opcode::ROR)
        }
    } else if cmd == 0b1110 {
        Ok(Opcode::BIC)
    } else {
        Ok(Opcode::MVN)
    }
}

fn decode_multi_load_and_store(raw: Word) -> (r: Opcode)
    ensures
        r == spec_decode_multi_load_and_store(raw),
{
    if is_load(raw) {
        Opcode::LDM
    } else {
        Opcode::STM
    }
}

fn decode_branch(raw: Word) -> (r: Opcode)
    ensures
        r == spec_decode_branch(raw),
{
    let with_link = raw & 0x0100_0000 != 0;
    if with_link {
        Opcode::BL
    } else {
        Opcode::B
    }
}

fn decode_condition(raw: Word) -> (r: Result<Condition, ArmError>)
    ensures
        match r {
            Ok(c) => spec_cond(raw) == Some(c),
            Err(e) => spec_cond(raw) is None && e == ArmError::UnsupportedEncoding,
        },
{
    let cond = raw & COND_FIELD;
    if cond == COND_EQ {
        Ok(Condition::EQ)
    } else if cond == COND_NE {
        Ok(Condition::NE)
    } else if cond == COND_CS_HS {
        Ok(Condition::CS_HS)
    } else if cond == COND_CC_LO {
        Ok(Condition::CC_LO)
    } else if cond == COND_MI {
        Ok(Condition::MI)
    } else if cond == COND_PL {
        Ok(Condition::PL)
    } else if cond == COND_VS {
        Ok(Condition::VS)
    } else if cond == COND_VC {
        Ok(Condition::VC)
    } else if cond == COND_HI {
        Ok(Condition::HI)
    } else if cond == COND_LS {
        Ok(Condition::LS)
    } else if cond == COND_GE {
        Ok(Condition::GE)
    } else if cond == COND_LT {
        Ok(Condition::LT)
    } else if cond == COND_GT {
        Ok(Condition::GT)
    } else if cond == COND_LE {
        Ok(Condition::LE)
    } else if cond == COND_AL {
        Ok(Condition::AL)
    } else {
        Err(ArmError::UnsupportedEncoding)
    }
}

/// Classify a raw word.  A supported word yields the decoded record in
/// the field layout its category asks for; a word whose condition,
/// category or sub-encoding is reserved yields `UnsupportedEncoding`.
pub fn decode(raw: Word) -> (r: Result<Decoded, ArmError>)
    ensures
        match r {
            Ok(d) => {
                &&& spec_decode(raw) == Some(
                    (d.base().cond, spec_category(raw).unwrap(), d.base().opcode),
                )
                &&& d.base().raw == raw
                &&& (d is Multiple <==> spec_category(raw) == Some(Category::Multiple))
                &&& (d is ExtraMemory <==> spec_category(raw) == Some(Category::ExtraMemory))
            },
            Err(e) => e == ArmError::UnsupportedEncoding && spec_decode(raw) is None,
        },
{
    let cond = match decode_condition(raw) {
        Ok(c) => c,
        Err(e) => {
            return Err(e);
        },
    };
    let category = if raw & 0x0E00_0000 == 0x0A00_0000 {
        Category::Branch
    } else if raw & 0x0FC0_00F0 == 0x0000_0090 {
        Category::Multiple
    } else if raw & 0x0F80_00F0 == 0x0080_0090 {
        Category::Multiple
    } else if raw & 0x0E00_0010 == 0x0600_0010 {
        Category::Undefined
    } else if raw & 0x0E40_0F90 == 0x0000_0090 {
        Category::ExtraMemory
    } else if raw & 0x0E40_0090 == 0x0040_0090 {
        Category::ExtraMemory
    } else if raw & 0x0C00_0000 == 0x0400_0000 {
        Category::Memory
    } else if raw & 0x0C00_0000 == 0x0000_0000 {
        Category::DataProcessing
    } else if raw & 0x0E00_0000 == 0x0800_0000 {
        Category::MultiLoadAndStore
    } else {
        return Err(ArmError::UnsupportedEncoding);
    };
    let opcode = match category {
        Category::Undefined => {
            return Err(ArmError::UnsupportedEncoding);
        },
        Category::Multiple => decode_multiple(raw)?,
        Category::Memory => decode_memory(raw),
        Category::ExtraMemory => decode_extra_memory(raw)?,
        Category::DataProcessing => decode_data_processing(raw)?,
        Category::Branch => decode_branch(raw),
        Category::MultiLoadAndStore => decode_multi_load_and_store(raw),
    };
    let dec = BaseDecoder { raw, cond, opcode };
    match category {
        Category::Multiple => Ok(Decoded::Multiple(MultipleDecoder(dec))),
        Category::ExtraMemory => Ok(Decoded::ExtraMemory(ExtraMemoryDecoder(dec))),
        _ => Ok(Decoded::Base(dec)),
    }
}


/// Which category each decodable opcode can come from: the multiply,
/// extra-memory, memory, branch and block-transfer opcode sets name
/// their categories, and every other opcode names a data-processing
/// word.
pub proof fn lemma_opcode_category(w: u32)
    ensures
        match spec_opcode(w) {
            Some(op) => {
                &&& (op == Opcode::MUL || op == Opcode::MLA || op == Opcode::UMULL || op
                    == Opcode::UMLAL || op == Opcode::SMULL || op == Opcode::SMLAL)
                    <==> spec_category(w) == Some(Category::Multiple)
                &&& (op == Opcode::STRH || op == Opcode::LDRH || op == Opcode::LDRSB || op
                    == Opcode::LDRSH) <==> spec_category(w) == Some(Category::ExtraMemory)
            },
            None => true,
        },
{
}

} // verus!
