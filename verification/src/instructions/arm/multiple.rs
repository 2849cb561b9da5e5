use crate::decoder::arm::{
    f_mul_ra, f_mul_rd, f_mul_rm, f_mul_rn, f_s, lemma_fields_bounded, MultipleDecoder, Opcode,
    Raw,
};
use crate::instructions::arm::data::n_of;
use crate::instructions::{ArmError, PipelineStatus};
use crate::registers::psr::{set_bit32, PSR};
use vstd::prelude::*;

verus! {

/// A 32-bit value reinterpreted as a signed integer.
pub open spec fn as_signed(w: u32) -> int {
    if w >= 0x8000_0000 {
        w - 0x1_0000_0000
    } else {
        w as int
    }
}

/// The unsigned 64-bit product of two words.
pub open spec fn spec_umul64(a: u32, b: u32) -> u64 {
    ((a as u64) * (b as u64)) as u64
}

/// The signed 64-bit product of two words, in its two's-complement
/// 64-bit pattern.
pub open spec fn spec_smul64(a: u32, b: u32) -> u64 {
    (as_signed(a) * as_signed(b)) as u64
}

/// Two words packed into the 64 bits `(hi << 32) | lo`.
pub open spec fn pack64(hi: u32, lo: u32) -> u64 {
    ((hi as u64) * 0x1_0000_0000 + (lo as u64)) as u64
}

/// The low word of a 64-bit value.
pub open spec fn lo32(m: u64) -> u32 {
    (m % 0x1_0000_0000u64) as u32
}

/// The high word of a 64-bit value.
pub open spec fn hi32(m: u64) -> u32 {
    (m / 0x1_0000_0000u64) as u32
}

/// 64-bit wrapping sum.
pub open spec fn wadd64(a: u64, b: u64) -> u64 {
    if a + b > u64::MAX {
        (a + b - 0x1_0000_0000_0000_0000) as u64
    } else {
        (a + b) as u64
    }
}

/// The status word after a multiply's flag write with S set: N and Z
/// from the result, C and V left unchanged.
pub open spec fn mul_flags(cpsr: u32, n: bool, z: bool) -> u32 {
    set_bit32(set_bit32(cpsr, 31, n), 30, z)
}

/// The registers, status word and pipeline request a multiply opcode
/// leaves.  Rd = 15 is not a legal multiply encoding and is refused
/// with the state unchanged; the long forms write the low word to Ra
/// and the high word to Rd; with S set, N and Z follow the 32-bit or
/// 64-bit result.
pub open spec fn spec_exec_mul(op: Opcode, w: u32, gpr: Seq<u32>, cpsr: u32) -> Result<
    (Seq<u32>, u32, PipelineStatus),
    ArmError,
> {
    if f_mul_rd(w) == 15 {
        Err(ArmError::UnsupportedEncoding)
    } else {
        let rd = f_mul_rd(w) as int;
        let ra = f_mul_ra(w) as int;
        let rn = gpr[f_mul_rn(w) as int];
        let rm = gpr[f_mul_rm(w) as int];
        let s = f_s(w);
        match op {
            Opcode::MUL => {
                let r = lo32(spec_umul64(rn, rm));
                let c1 = if s {
                    mul_flags(cpsr, n_of(r), r == 0)
                } else {
                    cpsr
                };
                Ok((gpr.update(rd, r), c1, PipelineStatus::Continue))
            },
            Opcode::MLA => {
                let r = lo32(wadd64(spec_umul64(rn, rm), gpr[ra] as u64));
                let c1 = if s {
                    mul_flags(cpsr, n_of(r), r == 0)
                } else {
                    cpsr
                };
                Ok((gpr.update(rd, r), c1, PipelineStatus::Continue))
            },
            Opcode::UMULL => {
                let m = spec_umul64(rn, rm);
                let c1 = if s {
                    mul_flags(cpsr, n_of(hi32(m)), m == 0)
                } else {
                    cpsr
                };
                Ok((gpr.update(ra, lo32(m)).update(rd, hi32(m)), c1, PipelineStatus::Continue))
            },
            Opcode::UMLAL => {
                let m = wadd64(spec_umul64(rn, rm), pack64(gpr[rd], gpr[ra]));
                let c1 = if s {
                    mul_flags(cpsr, n_of(hi32(m)), m == 0)
                } else {
                    cpsr
                };
                Ok((gpr.update(ra, lo32(m)).update(rd, hi32(m)), c1, PipelineStatus::Continue))
            },
            Opcode::SMULL => {
                let m = spec_smul64(rn, rm);
                let c1 = if s {
                    mul_flags(cpsr, n_of(hi32(m)), m == 0)
                } else {
                    cpsr
                };
                Ok((gpr.update(ra, lo32(m)).update(rd, hi32(m)), c1, PipelineStatus::Continue))
            },
            Opcode::SMLAL => {
                let m = wadd64(spec_smul64(rn, rm), pack64(gpr[rd], gpr[ra]));
                let c1 = if s {
                    mul_flags(cpsr, n_of(hi32(m)), m == 0)
                } else {
                    cpsr
                };
                Ok((gpr.update(ra, lo32(m)).update(rd, hi32(m)), c1, PipelineStatus::Continue))
            },
            _ => Ok((gpr, cpsr, PipelineStatus::Continue)),
        }
    }
}

/// The guard every multiply opcode shares: Rd must not be the program
/// counter; a legal multiply never flushes the pipeline.
pub fn exec_multiple(dec: &MultipleDecoder) -> (r: Result<PipelineStatus, ArmError>)
    ensures
        f_mul_rd(dec.spec_raw()) == 15 ==> r == Err::<PipelineStatus, ArmError>(
            ArmError::UnsupportedEncoding,
        ),
        f_mul_rd(dec.spec_raw()) != 15 ==> r == Ok::<PipelineStatus, ArmError>(
            PipelineStatus::Continue,
        ),
{
    proof {
        lemma_fields_bounded(dec.spec_raw());
    }
    if dec.get_Rd() == 15 {
        Err(ArmError::UnsupportedEncoding)
    } else {
        Ok(PipelineStatus::Continue)
    }
}

/// Write the N and Z flags of a multiply result when S is set.
fn set_mul_flags(dec: &MultipleDecoder, cpsr: &mut PSR, n: bool, z: bool)
    ensures
        final(cpsr).0 == if f_s(dec.spec_raw()) {
            mul_flags(old(cpsr).0, n, z)
        } else {
            old(cpsr).0
        },
{
    if dec.raw() & 0x0010_0000 != 0 {
        cpsr.set_N(n);
        cpsr.set_Z(z);
    }
}

/// The unsigned 64-bit product of two registers, with the bound the
/// overflow check needs.
fn umul64(a: u32, b: u32) -> (r: u64)
    ensures
        r == spec_umul64(a, b),
{
    proof {
        assert((a as u64) * (b as u64) <= 0xFFFF_FFFFu64 * 0xFFFF_FFFFu64) by (nonlinear_arith)
            requires
                a <= 0xFFFF_FFFFu64,
                b <= 0xFFFF_FFFFu64,
        ;
    }
    (a as u64) * (b as u64)
}

pub fn exec_mul(dec: &MultipleDecoder, gpr: &mut [u32; 16], cpsr: &mut PSR) -> (r: Result<
    PipelineStatus,
    ArmError,
>)
    ensures
        match spec_exec_mul(Opcode::MUL, dec.spec_raw(), old(gpr)@, old(cpsr).0) {
            Ok((g, c, st)) => final(gpr)@ == g && final(cpsr).0 == c && r == Ok::<
                PipelineStatus,
                ArmError,
            >(st),
            Err(e) => r == Err::<PipelineStatus, ArmError>(e) && final(gpr)@ == old(gpr)@ && final(cpsr).0 == old(cpsr).0,
        },
{
    proof {
        lemma_fields_bounded(dec.spec_raw());
    }
    let status = exec_multiple(dec)?;
    let m = umul64(gpr[dec.get_Rn()], gpr[dec.get_Rm()]);
    let result = (m % 0x1_0000_0000) as u32;
    gpr[dec.get_Rd()] = result;
    set_mul_flags(dec, cpsr, result >> 31 != 0, result == 0);
    Ok(status)
}

pub fn exec_mla(dec: &MultipleDecoder, gpr: &mut [u32; 16], cpsr: &mut PSR) -> (r: Result<
    PipelineStatus,
    ArmError,
>)
    ensures
        match spec_exec_mul(Opcode::MLA, dec.spec_raw(), old(gpr)@, old(cpsr).0) {
            Ok((g, c, st)) => final(gpr)@ == g && final(cpsr).0 == c && r == Ok::<
                PipelineStatus,
                ArmError,
            >(st),
            Err(e) => r == Err::<PipelineStatus, ArmError>(e) && final(gpr)@ == old(gpr)@ && final(cpsr).0 == old(cpsr).0,
        },
{
    proof {
        lemma_fields_bounded(dec.spec_raw());
    }
    let status = exec_multiple(dec)?;
    let m = umul64(gpr[dec.get_Rn()], gpr[dec.get_Rm()]);
    let acc = m.wrapping_add(gpr[dec.get_Ra()] as u64);
    let result = (acc % 0x1_0000_0000) as u32;
    gpr[dec.get_Rd()] = result;
    set_mul_flags(dec, cpsr, result >> 31 != 0, result == 0);
    Ok(status)
}

pub fn exec_umull(dec: &MultipleDecoder, gpr: &mut [u32; 16], cpsr: &mut PSR) -> (r: Result<
    PipelineStatus,
    ArmError,
>)
    ensures
        match spec_exec_mul(Opcode::UMULL, dec.spec_raw(), old(gpr)@, old(cpsr).0) {
            Ok((g, c, st)) => final(gpr)@ == g && final(cpsr).0 == c && r == Ok::<
                PipelineStatus,
                ArmError,
            >(st),
            Err(e) => r == Err::<PipelineStatus, ArmError>(e) && final(gpr)@ == old(gpr)@ && final(cpsr).0 == old(cpsr).0,
        },
{
    proof {
        lemma_fields_bounded(dec.spec_raw());
    }
    let status = exec_multiple(dec)?;
    let m = umul64(gpr[dec.get_Rn()], gpr[dec.get_Rm()]);
    let lo = (m % 0x1_0000_0000) as u32;
    let hi = (m / 0x1_0000_0000) as u32;
    gpr[dec.get_Ra()] = lo;
    gpr[dec.get_Rd()] = hi;
    set_mul_flags(dec, cpsr, hi >> 31 != 0, m == 0);
    Ok(status)
}

pub fn exec_umlal(dec: &MultipleDecoder, gpr: &mut [u32; 16], cpsr: &mut PSR) -> (r: Result<
    PipelineStatus,
    ArmError,
>)
    ensures
        match spec_exec_mul(Opcode::UMLAL, dec.spec_raw(), old(gpr)@, old(cpsr).0) {
            Ok((g, c, st)) => final(gpr)@ == g && final(cpsr).0 == c && r == Ok::<
                PipelineStatus,
                ArmError,
            >(st),
            Err(e) => r == Err::<PipelineStatus, ArmError>(e) && final(gpr)@ == old(gpr)@ && final(cpsr).0 == old(cpsr).0,
        },
{
    proof {
        lemma_fields_bounded(dec.spec_raw());
    }
    let status = exec_multiple(dec)?;
    let m = umul64(gpr[dec.get_Rn()], gpr[dec.get_Rm()]);
    let base = (gpr[dec.get_Rd()] as u64) * 0x1_0000_0000 + (gpr[dec.get_Ra()] as u64);
    let acc = m.wrapping_add(base);
    let lo = (acc % 0x1_0000_0000) as u32;
    let hi = (acc / 0x1_0000_0000) as u32;
    gpr[dec.get_Ra()] = lo;
    gpr[dec.get_Rd()] = hi;
    set_mul_flags(dec, cpsr, hi >> 31 != 0, acc == 0);
    Ok(status)
}

/// The signed 64-bit product of two registers.
fn smul64(a: u32, b: u32) -> (r: u64)
    ensures
        r == spec_smul64(a, b),
{
    let sa: i64 = (#[verifier::truncate] (a as i32)) as i64;
    let sb: i64 = (#[verifier::truncate] (b as i32)) as i64;
    proof {
        assert(-0x8000_0000i64 <= sa <= 0x7FFF_FFFFi64 && -0x8000_0000i64 <= sb <= 0x7FFF_FFFFi64
            && sa == as_signed(a) && sb == as_signed(b)) by (bit_vector)
            requires
                sa == a as i32 as i64,
                sb == b as i32 as i64,
        ;
        assert(sa * sb <= 0x8000_0000i64 * 0x8000_0000i64 && sa * sb >= -(0x8000_0000i64
            * 0x8000_0000i64)) by (nonlinear_arith)
            requires
                -0x8000_0000i64 <= sa <= 0x7FFF_FFFFi64,
                -0x8000_0000i64 <= sb <= 0x7FFF_FFFFi64,
        ;
    }
    let m: i64 = sa * sb;
    #[verifier::truncate] (m as u64)
}

pub fn exec_smull(dec: &MultipleDecoder, gpr: &mut [u32; 16], cpsr: &mut PSR) -> (r: Result<
    PipelineStatus,
    ArmError,
>)
    ensures
        match spec_exec_mul(Opcode::SMULL, dec.spec_raw(), old(gpr)@, old(cpsr).0) {
            Ok((g, c, st)) => final(gpr)@ == g && final(cpsr).0 == c && r == Ok::<
                PipelineStatus,
                ArmError,
            >(st),
            Err(e) => r == Err::<PipelineStatus, ArmError>(e) && final(gpr)@ == old(gpr)@ && final(cpsr).0 == old(cpsr).0,
        },
{
    proof {
        lemma_fields_bounded(dec.spec_raw());
    }
    let status = exec_multiple(dec)?;
    let m = smul64(gpr[dec.get_Rn()], gpr[dec.get_Rm()]);
    let lo = (m % 0x1_0000_0000) as u32;
    let hi = (m / 0x1_0000_0000) as u32;
    gpr[dec.get_Ra()] = lo;
    gpr[dec.get_Rd()] = hi;
    set_mul_flags(dec, cpsr, hi >> 31 != 0, m == 0);
    Ok(status)
}

pub fn exec_smlal(dec: &MultipleDecoder, gpr: &mut [u32; 16], cpsr: &mut PSR) -> (r: Result<
    PipelineStatus,
    ArmError,
>)
    ensures
        match spec_exec_mul(Opcode::SMLAL, dec.spec_raw(), old(gpr)@, old(cpsr).0) {
            Ok((g, c, st)) => final(gpr)@ == g && final(cpsr).0 == c && r == Ok::<
                PipelineStatus,
                ArmError,
            >(st),
            Err(e) => r == Err::<PipelineStatus, ArmError>(e) && final(gpr)@ == old(gpr)@ && final(cpsr).0 == old(cpsr).0,
        },
{
    proof {
        lemma_fields_bounded(dec.spec_raw());
    }
    let status = exec_multiple(dec)?;
    let m = smul64(gpr[dec.get_Rn()], gpr[dec.get_Rm()]);
    let base = (gpr[dec.get_Rd()] as u64) * 0x1_0000_0000 + (gpr[dec.get_Ra()] as u64);
    let acc = m.wrapping_add(base);
    let lo = (acc % 0x1_0000_0000) as u32;
    let hi = (acc / 0x1_0000_0000) as u32;
    gpr[dec.get_Ra()] = lo;
    gpr[dec.get_Rd()] = hi;
    set_mul_flags(dec, cpsr, hi >> 31 != 0, acc == 0);
    Ok(status)
}

} // verus!
