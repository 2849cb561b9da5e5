use crate::constants::PC;
use crate::decoder::arm::{
    f_i, f_imm8, f_reg_offset, f_rd, f_rm, f_rn, f_rot, f_rs, f_s, f_sh, f_shamt5,
    lemma_fields_bounded, BaseDecoder, Decoder, Opcode, Raw,
};
use crate::instructions::arm::shift::{is_carry_over, ror, shift, spec_carry, spec_shift};
use crate::instructions::{ArmError, PipelineStatus};
use crate::registers::psr::{flag_c, flag_v, set_bit32, PSR};
use crate::types::{wadd, wsub, Shift};
use vstd::prelude::*;

verus! {

/// Bit 31 of a result: the N flag it produces.
pub open spec fn n_of(r: u32) -> bool {
    (r >> 31u32) != 0
}

/// The shifter operand of a data-processing word: the value and the
/// carry the barrel shifter leaves.  With I set it is the eight-bit
/// immediate rotated right by twice the rot field; otherwise it is Rm
/// shifted by the five-bit immediate amount or, with bit 4 set, by the
/// low byte of Rs reduced below 32.
pub open spec fn spec_operand2(w: u32, gpr: Seq<u32>) -> (u32, Option<bool>) {
    if f_i(w) {
        let amount = (f_rot(w) * 2) as u32;
        (
            spec_shift(Shift::ROR, f_imm8(w), amount),
            spec_carry(Shift::ROR, f_imm8(w), amount),
        )
    } else {
        let value = gpr[f_rm(w) as int];
        let amount = if f_reg_offset(w) {
            (gpr[f_rs(w) as int] & 0xFFu32) % 32u32
        } else {
            f_shamt5(w)
        };
        (spec_shift(f_sh(w), value, amount), spec_carry(f_sh(w), value, amount))
    }
}

/// Whether writing Rd asks for a pipeline flush: it does exactly when Rd
/// is the program counter.
pub open spec fn spec_dp_status(w: u32) -> PipelineStatus {
    if f_rd(w) == 15 {
        PipelineStatus::Flush
    } else {
        PipelineStatus::Continue
    }
}

/// The status word after a logical operation's flag write: N and Z from
/// the result, C from the shifter where it produced one, V untouched.
pub open spec fn logical_flags(cpsr: u32, result: u32, carry: Option<bool>) -> u32 {
    let w1 = set_bit32(set_bit32(cpsr, 31, n_of(result)), 30, result == 0);
    match carry {
        Some(c) => set_bit32(w1, 29, c),
        None => w1,
    }
}

/// The status word after an arithmetic operation's flag write: N and Z
/// from the result, C and V as computed by the ALU.
pub open spec fn arith_flags(cpsr: u32, result: u32, c: bool, v: bool) -> u32 {
    set_bit32(set_bit32(set_bit32(set_bit32(cpsr, 31, n_of(result)), 30, result == 0), 29, c), 28, v)
}

/// Unsigned carry out of `a + b + cin`.
pub open spec fn carry_add(a: u32, b: u32, cin: int) -> bool {
    a + b + cin > u32::MAX
}

/// No borrow out of `a - b - bin`: the C flag a subtraction leaves.
pub open spec fn carry_sub(a: u32, b: u32, bin: int) -> bool {
    a >= b + bin
}

/// Signed overflow of an addition, read off the operand and result
/// signs: the addends agree in sign and the result does not.
pub open spec fn overflow_add(a: u32, b: u32, r: u32) -> bool {
    n_of(a) == n_of(b) && n_of(r) != n_of(a)
}

/// Signed overflow of a subtraction `a - b`: the operands differ in sign
/// and the result leaves the minuend's sign.
pub open spec fn overflow_sub(a: u32, b: u32, r: u32) -> bool {
    n_of(a) != n_of(b) && n_of(r) != n_of(a)
}

/// Post-state of a data-processing instruction that writes `result` to
/// Rd as a logical operation: flags change only with S set.
pub open spec fn dp_logical(w: u32, gpr: Seq<u32>, cpsr: u32, result: u32, carry: Option<
    bool,
>) -> (Seq<u32>, u32, PipelineStatus) {
    (
        gpr.update(f_rd(w) as int, result),
        if f_s(w) {
            logical_flags(cpsr, result, carry)
        } else {
            cpsr
        },
        spec_dp_status(w),
    )
}

/// Post-state of a data-processing instruction that writes `result` to
/// Rd as an arithmetic operation: flags change only with S set.
pub open spec fn dp_arith(w: u32, gpr: Seq<u32>, cpsr: u32, result: u32, c: bool, v: bool) -> (
    Seq<u32>,
    u32,
    PipelineStatus,
) {
    (
        gpr.update(f_rd(w) as int, result),
        if f_s(w) {
            arith_flags(cpsr, result, c, v)
        } else {
            cpsr
        },
        spec_dp_status(w),
    )
}

/// The registers, status word and pipeline request a data-processing
/// opcode leaves, per the ARMv4 ALU table.  Opcodes outside the
/// data-processing class leave the state unchanged.
pub open spec fn spec_exec_dp(op: Opcode, w: u32, gpr: Seq<u32>, cpsr: u32) -> (
    Seq<u32>,
    u32,
    PipelineStatus,
) {
    let v2 = spec_operand2(w, gpr).0;
    let carry = spec_operand2(w, gpr).1;
    let rn = gpr[f_rn(w) as int];
    let cin: int = if flag_c(cpsr) {
        1
    } else {
        0
    };
    let bin: int = 1 - cin;
    match op {
        Opcode::AND => dp_logical(w, gpr, cpsr, rn & v2, carry),
        Opcode::EOR => dp_logical(w, gpr, cpsr, rn ^ v2, carry),
        Opcode::ORR => dp_logical(w, gpr, cpsr, rn | v2, carry),
        Opcode::BIC => dp_logical(w, gpr, cpsr, rn & !v2, carry),
        Opcode::MOV => dp_logical(w, gpr, cpsr, v2, carry),
        Opcode::LSL => dp_logical(w, gpr, cpsr, v2, carry),
        Opcode::LSR => dp_logical(w, gpr, cpsr, v2, carry),
        Opcode::ASR => dp_logical(w, gpr, cpsr, v2, carry),
        Opcode::ROR => dp_logical(w, gpr, cpsr, v2, carry),
        Opcode::MVN => dp_logical(w, gpr, cpsr, !v2, carry),
        Opcode::RRX => {
            let result = (v2 >> 1u32) | if flag_c(cpsr) {
                0x8000_0000u32
            } else {
                0u32
            };
            dp_logical(w, gpr, cpsr, result, Some(v2 & 1 != 0))
        },
        Opcode::ADD => {
            let r = wadd(rn, v2);
            dp_arith(w, gpr, cpsr, r, carry_add(rn, v2, 0), overflow_add(rn, v2, r))
        },
        Opcode::ADC => {
            let r = wadd(wadd(rn, v2), cin as u32);
            dp_arith(w, gpr, cpsr, r, carry_add(rn, v2, cin), overflow_add(rn, v2, r))
        },
        Opcode::SUB => {
            let r = wsub(rn, v2);
            dp_arith(w, gpr, cpsr, r, carry_sub(rn, v2, 0), overflow_sub(rn, v2, r))
        },
        Opcode::SBC => {
            let r = wsub(wsub(rn, v2), bin as u32);
            dp_arith(w, gpr, cpsr, r, carry_sub(rn, v2, bin), overflow_sub(rn, v2, r))
        },
        Opcode::RSB => {
            let r = wsub(v2, rn);
            dp_arith(w, gpr, cpsr, r, carry_sub(v2, rn, 0), overflow_sub(v2, rn, r))
        },
        Opcode::RSC => {
            let r = wsub(wsub(v2, rn), bin as u32);
            dp_arith(w, gpr, cpsr, r, carry_sub(v2, rn, bin), overflow_sub(v2, rn, r))
        },
        Opcode::TST => (gpr, logical_flags(cpsr, rn & v2, carry), spec_dp_status(w)),
        Opcode::TEQ => (gpr, logical_flags(cpsr, rn ^ v2, carry), spec_dp_status(w)),
        Opcode::CMP => {
            let r = wsub(rn, v2);
            (
                gpr,
                arith_flags(cpsr, r, carry_sub(rn, v2, 0), overflow_sub(rn, v2, r)),
                spec_dp_status(w),
            )
        },
        Opcode::CMN => {
            let r = wadd(rn, v2);
            (
                gpr,
                arith_flags(cpsr, r, carry_add(rn, v2, 0), overflow_add(rn, v2, r)),
                spec_dp_status(w),
            )
        },
        _ => (gpr, cpsr, PipelineStatus::Continue),
    }
}

/// The shared data-processing engine: resolve the shifter operand of a
/// decoded word against the register file.
pub fn exec_data_processing(dec: &BaseDecoder, gpr: &[u32; 16]) -> (r: (u32, Option<bool>))
    ensures
        r == spec_operand2(dec.raw, gpr@),
{
    proof {
        lemma_fields_bounded(dec.raw);
    }
    if dec.has_I() {
        let amount = dec.get_rot() * 2;
        (ror(dec.get_imm8(), amount), is_carry_over(Shift::ROR, dec.get_imm8(), amount))
    } else {
        let value = gpr[dec.get_Rm()];
        let amount = if dec.is_reg_offset() {
            (gpr[dec.get_Rs() as usize] & 0xFF) % 32
        } else {
            dec.get_shamt5()
        };
        let sh = dec.get_sh();
        (shift(sh, value, amount), is_carry_over(sh, value, amount))
    }
}

fn dp_status(dec: &BaseDecoder) -> (r: PipelineStatus)
    ensures
        r == spec_dp_status(dec.raw),
{
    proof {
        lemma_fields_bounded(dec.raw);
    }
    if dec.get_Rd() == PC {
        PipelineStatus::Flush
    } else {
        PipelineStatus::Continue
    }
}

/// Write the N, Z and (where the shifter produced one) C flags of a
/// logical result.
fn set_logical_flags(cpsr: &mut PSR, result: u32, carry: Option<bool>)
    ensures
        final(cpsr).0 == logical_flags(old(cpsr).0, result, carry),
{
    cpsr.set_N(result >> 31 != 0);
    cpsr.set_Z(result == 0);
    match carry {
        Some(c) => cpsr.set_C(c),
        None => (),
    }
}

/// Write all four flags of an arithmetic result.
fn set_arith_flags(cpsr: &mut PSR, result: u32, c: bool, v: bool)
    ensures
        final(cpsr).0 == arith_flags(old(cpsr).0, result, c, v),
{
    cpsr.set_N(result >> 31 != 0);
    cpsr.set_Z(result == 0);
    cpsr.set_C(c);
    cpsr.set_V(v);
}

/// The S bit of the word, gating flag writes.
fn has_s(dec: &BaseDecoder) -> (r: bool)
    ensures
        r == f_s(dec.raw),
{
    dec.raw() & 0x0010_0000 != 0
}

#[allow(non_snake_case)]
pub fn exec_mov(dec: &BaseDecoder, gpr: &mut [u32; 16], cpsr: &mut PSR) -> (r: Result<
    PipelineStatus,
    ArmError,
>)
    ensures
        ({
            let (g, c, st) = spec_exec_dp(Opcode::MOV, dec.raw, old(gpr)@, old(cpsr).0);
            final(gpr)@ == g && final(cpsr).0 == c && r == Ok::<PipelineStatus, ArmError>(st)
        }),
{
    proof {
        lemma_fields_bounded(dec.raw);
    }
    let (value, carry) = exec_data_processing(dec, gpr);
    gpr[dec.get_Rd()] = value;
    if has_s(dec) {
        set_logical_flags(cpsr, value, carry);
    }
    Ok(dp_status(dec))
}

pub fn exec_and(dec: &BaseDecoder, gpr: &mut [u32; 16], cpsr: &mut PSR) -> (r: Result<
    PipelineStatus,
    ArmError,
>)
    ensures
        ({
            let (g, c, st) = spec_exec_dp(Opcode::AND, dec.raw, old(gpr)@, old(cpsr).0);
            final(gpr)@ == g && final(cpsr).0 == c && r == Ok::<PipelineStatus, ArmError>(st)
        }),
{
    proof {
        lemma_fields_bounded(dec.raw);
    }
    let (value, carry) = exec_data_processing(dec, gpr);
    let result = gpr[dec.get_Rn()] & value;
    gpr[dec.get_Rd()] = result;
    if has_s(dec) {
        set_logical_flags(cpsr, result, carry);
    }
    Ok(dp_status(dec))
}

pub fn exec_eor(dec: &BaseDecoder, gpr: &mut [u32; 16], cpsr: &mut PSR) -> (r: Result<
    PipelineStatus,
    ArmError,
>)
    ensures
        ({
            let (g, c, st) = spec_exec_dp(Opcode::EOR, dec.raw, old(gpr)@, old(cpsr).0);
            final(gpr)@ == g && final(cpsr).0 == c && r == Ok::<PipelineStatus, ArmError>(st)
        }),
{
    proof {
        lemma_fields_bounded(dec.raw);
    }
    let (value, carry) = exec_data_processing(dec, gpr);
    let result = gpr[dec.get_Rn()] ^ value;
    gpr[dec.get_Rd()] = result;
    if has_s(dec) {
        set_logical_flags(cpsr, result, carry);
    }
    Ok(dp_status(dec))
}

pub fn exec_orr(dec: &BaseDecoder, gpr: &mut [u32; 16], cpsr: &mut PSR) -> (r: Result<
    PipelineStatus,
    ArmError,
>)
    ensures
        ({
            let (g, c, st) = spec_exec_dp(Opcode::ORR, dec.raw, old(gpr)@, old(cpsr).0);
            final(gpr)@ == g && final(cpsr).0 == c && r == Ok::<PipelineStatus, ArmError>(st)
        }),
{
    proof {
        lemma_fields_bounded(dec.raw);
    }
    let (value, carry) = exec_data_processing(dec, gpr);
    let result = gpr[dec.get_Rn()] | value;
    gpr[dec.get_Rd()] = result;
    if has_s(dec) {
        set_logical_flags(cpsr, result, carry);
    }
    Ok(dp_status(dec))
}

pub fn exec_bic(dec: &BaseDecoder, gpr: &mut [u32; 16], cpsr: &mut PSR) -> (r: Result<
    PipelineStatus,
    ArmError,
>)
    ensures
        ({
            let (g, c, st) = spec_exec_dp(Opcode::BIC, dec.raw, old(gpr)@, old(cpsr).0);
            final(gpr)@ == g && final(cpsr).0 == c && r == Ok::<PipelineStatus, ArmError>(st)
        }),
{
    proof {
        lemma_fields_bounded(dec.raw);
    }
    let (value, carry) = exec_data_processing(dec, gpr);
    let result = gpr[dec.get_Rn()] & !value;
    gpr[dec.get_Rd()] = result;
    if has_s(dec) {
        set_logical_flags(cpsr, result, carry);
    }
    Ok(dp_status(dec))
}

pub fn exec_mvn(dec: &BaseDecoder, gpr: &mut [u32; 16], cpsr: &mut PSR) -> (r: Result<
    PipelineStatus,
    ArmError,
>)
    ensures
        ({
            let (g, c, st) = spec_exec_dp(Opcode::MVN, dec.raw, old(gpr)@, old(cpsr).0);
            final(gpr)@ == g && final(cpsr).0 == c && r == Ok::<PipelineStatus, ArmError>(st)
        }),
{
    proof {
        lemma_fields_bounded(dec.raw);
    }
    let (value, carry) = exec_data_processing(dec, gpr);
    let result = !value;
    gpr[dec.get_Rd()] = result;
    if has_s(dec) {
        set_logical_flags(cpsr, result, carry);
    }
    Ok(dp_status(dec))
}

/// LSL, LSR, ASR and ROR all move the shifter operand into Rd.
pub fn exec_shift(dec: &BaseDecoder, gpr: &mut [u32; 16], cpsr: &mut PSR) -> (r: Result<
    PipelineStatus,
    ArmError,
>)
    requires
        dec.opcode == Opcode::LSL || dec.opcode == Opcode::LSR || dec.opcode == Opcode::ASR
            || dec.opcode == Opcode::ROR,
    ensures
        ({
            let (g, c, st) = spec_exec_dp(dec.opcode, dec.raw, old(gpr)@, old(cpsr).0);
            final(gpr)@ == g && final(cpsr).0 == c && r == Ok::<PipelineStatus, ArmError>(st)
        }),
{
    proof {
        lemma_fields_bounded(dec.raw);
    }
    let (value, carry) = exec_data_processing(dec, gpr);
    gpr[dec.get_Rd()] = value;
    if has_s(dec) {
        set_logical_flags(cpsr, value, carry);
    }
    Ok(dp_status(dec))
}

pub fn exec_rrx(dec: &BaseDecoder, gpr: &mut [u32; 16], cpsr: &mut PSR) -> (r: Result<
    PipelineStatus,
    ArmError,
>)
    ensures
        ({
            let (g, c, st) = spec_exec_dp(Opcode::RRX, dec.raw, old(gpr)@, old(cpsr).0);
            final(gpr)@ == g && final(cpsr).0 == c && r == Ok::<PipelineStatus, ArmError>(st)
        }),
{
    proof {
        lemma_fields_bounded(dec.raw);
    }
    let (value, _) = exec_data_processing(dec, gpr);
    let result = (value >> 1) | if cpsr.get_C() {
        0x8000_0000
    } else {
        0
    };
    gpr[dec.get_Rd()] = result;
    if has_s(dec) {
        set_logical_flags(cpsr, result, Some(value & 1 != 0));
    }
    Ok(dp_status(dec))
}

pub fn exec_add(dec: &BaseDecoder, gpr: &mut [u32; 16], cpsr: &mut PSR) -> (r: Result<
    PipelineStatus,
    ArmError,
>)
    ensures
        ({
            let (g, c, st) = spec_exec_dp(Opcode::ADD, dec.raw, old(gpr)@, old(cpsr).0);
            final(gpr)@ == g && final(cpsr).0 == c && r == Ok::<PipelineStatus, ArmError>(st)
        }),
{
    proof {
        lemma_fields_bounded(dec.raw);
    }
    let (value, _) = exec_data_processing(dec, gpr);
    let rn = gpr[dec.get_Rn()];
    let result = rn.wrapping_add(value);
    gpr[dec.get_Rd()] = result;
    if has_s(dec) {
        let c = (rn as u64) + (value as u64) > 0xFFFF_FFFF;
        let v = ((rn >> 31 != 0) == (value >> 31 != 0)) && ((result >> 31 != 0) != (rn >> 31
            != 0));
        set_arith_flags(cpsr, result, c, v);
    }
    Ok(dp_status(dec))
}

pub fn exec_adc(dec: &BaseDecoder, gpr: &mut [u32; 16], cpsr: &mut PSR) -> (r: Result<
    PipelineStatus,
    ArmError,
>)
    ensures
        ({
            let (g, c, st) = spec_exec_dp(Opcode::ADC, dec.raw, old(gpr)@, old(cpsr).0);
            final(gpr)@ == g && final(cpsr).0 == c && r == Ok::<PipelineStatus, ArmError>(st)
        }),
{
    proof {
        lemma_fields_bounded(dec.raw);
    }
    let (value, _) = exec_data_processing(dec, gpr);
    let rn = gpr[dec.get_Rn()];
    let cin: u32 = if cpsr.get_C() {
        1
    } else {
        0
    };
    let result = rn.wrapping_add(value).wrapping_add(cin);
    gpr[dec.get_Rd()] = result;
    if has_s(dec) {
        let c = (rn as u64) + (value as u64) + (cin as u64) > 0xFFFF_FFFF;
        let v = ((rn >> 31 != 0) == (value >> 31 != 0)) && ((result >> 31 != 0) != (rn >> 31
            != 0));
        set_arith_flags(cpsr, result, c, v);
    }
    Ok(dp_status(dec))
}

pub fn exec_sub(dec: &BaseDecoder, gpr: &mut [u32; 16], cpsr: &mut PSR) -> (r: Result<
    PipelineStatus,
    ArmError,
>)
    ensures
        ({
            let (g, c, st) = spec_exec_dp(Opcode::SUB, dec.raw, old(gpr)@, old(cpsr).0);
            final(gpr)@ == g && final(cpsr).0 == c && r == Ok::<PipelineStatus, ArmError>(st)
        }),
{
    proof {
        lemma_fields_bounded(dec.raw);
    }
    let (value, _) = exec_data_processing(dec, gpr);
    let rn = gpr[dec.get_Rn()];
    let result = rn.wrapping_sub(value);
    gpr[dec.get_Rd()] = result;
    if has_s(dec) {
        let c = rn >= value;
        let v = ((rn >> 31 != 0) != (value >> 31 != 0)) && ((result >> 31 != 0) != (rn >> 31
            != 0));
        set_arith_flags(cpsr, result, c, v);
    }
    Ok(dp_status(dec))
}

pub fn exec_sbc(dec: &BaseDecoder, gpr: &mut [u32; 16], cpsr: &mut PSR) -> (r: Result<
    PipelineStatus,
    ArmError,
>)
    ensures
        ({
            let (g, c, st) = spec_exec_dp(Opcode::SBC, dec.raw, old(gpr)@, old(cpsr).0);
            final(gpr)@ == g && final(cpsr).0 == c && r == Ok::<PipelineStatus, ArmError>(st)
        }),
{
    proof {
        lemma_fields_bounded(dec.raw);
    }
    let (value, _) = exec_data_processing(dec, gpr);
    let rn = gpr[dec.get_Rn()];
    let bin: u32 = if cpsr.get_C() {
        0
    } else {
        1
    };
    let result = rn.wrapping_sub(value).wrapping_sub(bin);
    gpr[dec.get_Rd()] = result;
    if has_s(dec) {
        let c = (rn as u64) >= (value as u64) + (bin as u64);
        let v = ((rn >> 31 != 0) != (value >> 31 != 0)) && ((result >> 31 != 0) != (rn >> 31
            != 0));
        set_arith_flags(cpsr, result, c, v);
    }
    Ok(dp_status(dec))
}

pub fn exec_rsb(dec: &BaseDecoder, gpr: &mut [u32; 16], cpsr: &mut PSR) -> (r: Result<
    PipelineStatus,
    ArmError,
>)
    ensures
        ({
            let (g, c, st) = spec_exec_dp(Opcode::RSB, dec.raw, old(gpr)@, old(cpsr).0);
            final(gpr)@ == g && final(cpsr).0 == c && r == Ok::<PipelineStatus, ArmError>(st)
        }),
{
    proof {
        lemma_fields_bounded(dec.raw);
    }
    let (value, _) = exec_data_processing(dec, gpr);
    let rn = gpr[dec.get_Rn()];
    let result = value.wrapping_sub(rn);
    gpr[dec.get_Rd()] = result;
    if has_s(dec) {
        let c = value >= rn;
        let v = ((value >> 31 != 0) != (rn >> 31 != 0)) && ((result >> 31 != 0) != (value >> 31
            != 0));
        set_arith_flags(cpsr, result, c, v);
    }
    Ok(dp_status(dec))
}

pub fn exec_rsc(dec: &BaseDecoder, gpr: &mut [u32; 16], cpsr: &mut PSR) -> (r: Result<
    PipelineStatus,
    ArmError,
>)
    ensures
        ({
            let (g, c, st) = spec_exec_dp(Opcode::RSC, dec.raw, old(gpr)@, old(cpsr).0);
            final(gpr)@ == g && final(cpsr).0 == c && r == Ok::<PipelineStatus, ArmError>(st)
        }),
{
    proof {
        lemma_fields_bounded(dec.raw);
    }
    let (value, _) = exec_data_processing(dec, gpr);
    let rn = gpr[dec.get_Rn()];
    let bin: u32 = if cpsr.get_C() {
        0
    } else {
        1
    };
    let result = value.wrapping_sub(rn).wrapping_sub(bin);
    gpr[dec.get_Rd()] = result;
    if has_s(dec) {
        let c = (value as u64) >= (rn as u64) + (bin as u64);
        let v = ((value >> 31 != 0) != (rn >> 31 != 0)) && ((result >> 31 != 0) != (value >> 31
            != 0));
        set_arith_flags(cpsr, result, c, v);
    }
    Ok(dp_status(dec))
}

pub fn exec_tst(dec: &BaseDecoder, gpr: &mut [u32; 16], cpsr: &mut PSR) -> (r: Result<
    PipelineStatus,
    ArmError,
>)
    ensures
        ({
            let (g, c, st) = spec_exec_dp(Opcode::TST, dec.raw, old(gpr)@, old(cpsr).0);
            final(gpr)@ == g && final(cpsr).0 == c && r == Ok::<PipelineStatus, ArmError>(st)
        }),
{
    proof {
        lemma_fields_bounded(dec.raw);
    }
    let (value, carry) = exec_data_processing(dec, gpr);
    let result = gpr[dec.get_Rn()] & value;
    set_logical_flags(cpsr, result, carry);
    Ok(dp_status(dec))
}

pub fn exec_teq(dec: &BaseDecoder, gpr: &mut [u32; 16], cpsr: &mut PSR) -> (r: Result<
    PipelineStatus,
    ArmError,
>)
    ensures
        ({
            let (g, c, st) = spec_exec_dp(Opcode::TEQ, dec.raw, old(gpr)@, old(cpsr).0);
            final(gpr)@ == g && final(cpsr).0 == c && r == Ok::<PipelineStatus, ArmError>(st)
        }),
{
    proof {
        lemma_fields_bounded(dec.raw);
    }
    let (value, carry) = exec_data_processing(dec, gpr);
    let result = gpr[dec.get_Rn()] ^ value;
    set_logical_flags(cpsr, result, carry);
    Ok(dp_status(dec))
}

pub fn exec_cmp(dec: &BaseDecoder, gpr: &mut [u32; 16], cpsr: &mut PSR) -> (r: Result<
    PipelineStatus,
    ArmError,
>)
    ensures
        ({
            let (g, c, st) = spec_exec_dp(Opcode::CMP, dec.raw, old(gpr)@, old(cpsr).0);
            final(gpr)@ == g && final(cpsr).0 == c && r == Ok::<PipelineStatus, ArmError>(st)
        }),
{
    proof {
        lemma_fields_bounded(dec.raw);
    }
    let (value, _) = exec_data_processing(dec, gpr);
    let rn = gpr[dec.get_Rn()];
    let result = rn.wrapping_sub(value);
    let c = rn >= value;
    let v = ((rn >> 31 != 0) != (value >> 31 != 0)) && ((result >> 31 != 0) != (rn >> 31 != 0));
    set_arith_flags(cpsr, result, c, v);
    Ok(dp_status(dec))
}

pub fn exec_cmn(dec: &BaseDecoder, gpr: &mut [u32; 16], cpsr: &mut PSR) -> (r: Result<
    PipelineStatus,
    ArmError,
>)
    ensures
        ({
            let (g, c, st) = spec_exec_dp(Opcode::CMN, dec.raw, old(gpr)@, old(cpsr).0);
            final(gpr)@ == g && final(cpsr).0 == c && r == Ok::<PipelineStatus, ArmError>(st)
        }),
{
    proof {
        lemma_fields_bounded(dec.raw);
    }
    let (value, _) = exec_data_processing(dec, gpr);
    let rn = gpr[dec.get_Rn()];
    let result = rn.wrapping_add(value);
    let c = (rn as u64) + (value as u64) > 0xFFFF_FFFF;
    let v = ((rn >> 31 != 0) == (value >> 31 != 0)) && ((result >> 31 != 0) != (rn >> 31 != 0));
    set_arith_flags(cpsr, result, c, v);
    Ok(dp_status(dec))
}


/// A data-processing opcode with S clear leaves the status word, its
/// condition flags included, exactly as it was; the four comparison
/// opcodes decode only with S set.
pub proof fn lemma_dp_s_clear_flags_unchanged(op: Opcode, w: u32, gpr: Seq<u32>, cpsr: u32)
    requires
        !f_s(w),
        crate::decoder::arm::spec_decode_data_processing(w) == Some(op),
    ensures
        spec_exec_dp(op, w, gpr, cpsr).1 == cpsr,
{
}


/// The sign rule the ALU uses for V coincides with signed overflow: an
/// addition with carry-in overflows exactly when the operands' signed
/// sum leaves the 32-bit two's-complement range.
pub proof fn lemma_overflow_add_signed(a: u32, b: u32, cin: u32)
    by (bit_vector)
    requires
        cin <= 1,
    ensures
        overflow_add(a, b, wadd(wadd(a, b), cin)) == (
        crate::instructions::arm::multiple::as_signed(a)
            + crate::instructions::arm::multiple::as_signed(b) + cin > 0x7FFF_FFFF
            || crate::instructions::arm::multiple::as_signed(a)
            + crate::instructions::arm::multiple::as_signed(b) + cin < -0x8000_0000),
{
}

/// The sign rule for V on subtraction coincides with signed overflow of
/// the signed difference, borrow included.
pub proof fn lemma_overflow_sub_signed(a: u32, b: u32, bin: u32)
    by (bit_vector)
    requires
        bin <= 1,
    ensures
        overflow_sub(a, b, wsub(wsub(a, b), bin)) == (
        crate::instructions::arm::multiple::as_signed(a)
            - crate::instructions::arm::multiple::as_signed(b) - bin > 0x7FFF_FFFF
            || crate::instructions::arm::multiple::as_signed(a)
            - crate::instructions::arm::multiple::as_signed(b) - bin < -0x8000_0000),
{
}

} // verus!
