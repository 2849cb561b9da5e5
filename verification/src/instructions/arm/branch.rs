use crate::constants::{LR, PC};
use crate::decoder::arm::{f_imm24, BaseDecoder, Decoder, Opcode};
use crate::instructions::{ArmError, PipelineStatus};
use crate::types::{wadd, wsub};
use vstd::prelude::*;

verus! {

/// The 24-bit branch immediate sign-extended to 32 bits.
pub open spec fn spec_branch_imm(w: u32) -> u32 {
    let imm = f_imm24(w);
    if imm & 0x0080_0000u32 != 0 {
        imm | 0xFF00_0000u32
    } else {
        imm
    }
}

/// 32-bit wrapping product.
pub open spec fn wmul(a: u32, b: u32) -> u32 {
    ((a as nat * b as nat) % 0x1_0000_0000) as u32
}

/// The branch target: the sign-extended immediate, shifted left by two,
/// added to the program counter, which already points two instructions
/// ahead.
pub open spec fn spec_branch_target(w: u32, gpr: Seq<u32>) -> u32 {
    wadd(gpr[15], wmul(spec_branch_imm(w), 4))
}

/// The registers and pipeline request a branch leaves: the target in
/// the program counter, the return address in the link register for BL,
/// and always a flush.
pub open spec fn spec_exec_branch(op: Opcode, w: u32, gpr: Seq<u32>) -> (Seq<u32>, PipelineStatus) {
    let g0 = if op is BL {
        gpr.update(14, wsub(gpr[15], 4))
    } else {
        gpr
    };
    (g0.update(15, spec_branch_target(w, g0)), PipelineStatus::Flush)
}

pub fn exec_b(dec: &BaseDecoder, gpr: &mut [u32; 16]) -> (r: Result<PipelineStatus, ArmError>)
    ensures
        final(gpr)@ == spec_exec_branch(Opcode::B, dec.raw, old(gpr)@).0,
        r == Ok::<PipelineStatus, ArmError>(PipelineStatus::Flush),
{
    let imm = dec.get_imm24();
    let imm = if imm & 0x0080_0000 != 0 {
        imm | 0xFF00_0000
    } else {
        imm
    };
    gpr[PC] = gpr[PC].wrapping_add(imm.wrapping_mul(4));
    Ok(PipelineStatus::Flush)
}

pub fn exec_bl(dec: &BaseDecoder, gpr: &mut [u32; 16]) -> (r: Result<PipelineStatus, ArmError>)
    ensures
        final(gpr)@ == spec_exec_branch(Opcode::BL, dec.raw, old(gpr)@).0,
        r == Ok::<PipelineStatus, ArmError>(PipelineStatus::Flush),
{
    gpr[LR] = gpr[PC].wrapping_sub(4);
    exec_b(dec, gpr)
}

} // verus!
