use crate::bus::{word_at, word_written, Bus};
use crate::constants::PC;
use crate::decoder::arm::{
    f_i, f_p, f_rd, f_rm, f_rn, f_sh, f_shamt5, f_src2, f_u, f_w, lemma_fields_bounded,
    BaseDecoder, Decoder, Opcode, Raw,
};
use crate::instructions::arm::shift::{shift, spec_shift};
use crate::instructions::{ArmError, PipelineStatus};
use vstd::prelude::*;

verus! {

/// The offset of a single data transfer: the 12-bit immediate with I
/// clear, or Rm shifted by the five-bit immediate amount with I set.
pub open spec fn spec_mem_offset(w: u32, gpr: Seq<u32>) -> u32 {
    if !f_i(w) {
        f_src2(w)
    } else {
        spec_shift(f_sh(w), gpr[f_rm(w) as int], f_shamt5(w))
    }
}

/// The base plus or minus the offset, per the U bit.
pub open spec fn spec_mem_effective(w: u32, gpr: Seq<u32>) -> u32 {
    let base = gpr[f_rn(w) as int];
    let offset = spec_mem_offset(w, gpr);
    if f_u(w) {
        crate::types::wadd(base, offset)
    } else {
        crate::types::wsub(base, offset)
    }
}

/// Whether the indexing mode is supported: post-index with write-back
/// (P=0, W=1) is reserved.
pub open spec fn spec_mem_mode_ok(w: u32) -> bool {
    !(!f_p(w) && f_w(w))
}

/// The transfer address: the indexed address when pre-indexed, the bare
/// base when post-indexed.
pub open spec fn spec_mem_addr(w: u32, gpr: Seq<u32>) -> u32 {
    if f_p(w) {
        spec_mem_effective(w, gpr)
    } else {
        gpr[f_rn(w) as int]
    }
}

/// The register file after base write-back: post-indexing always writes
/// the indexed address back to Rn, pre-indexing only with W set.
pub open spec fn spec_mem_wb(w: u32, gpr: Seq<u32>) -> Seq<u32> {
    if !f_p(w) || f_w(w) {
        gpr.update(f_rn(w) as int, spec_mem_effective(w, gpr))
    } else {
        gpr
    }
}

/// A load flushes the pipeline exactly when it writes the program
/// counter.
pub open spec fn spec_load_status(w: u32) -> PipelineStatus {
    if f_rd(w) == 15 {
        PipelineStatus::Flush
    } else {
        PipelineStatus::Continue
    }
}

/// The registers, memory and pipeline request a single data transfer
/// leaves: base write-back first, then the transfer, with loads writing
/// Rd last.  Post-indexing with write-back is refused with the state
/// unchanged.
pub open spec fn spec_exec_mem(op: Opcode, w: u32, gpr: Seq<u32>, mem: Map<u32, u8>) -> Result<
    (Seq<u32>, Map<u32, u8>, PipelineStatus),
    ArmError,
> {
    if !spec_mem_mode_ok(w) {
        Err(ArmError::UnsupportedIndexingMode)
    } else {
        let addr = spec_mem_addr(w, gpr);
        let g1 = spec_mem_wb(w, gpr);
        let rd = f_rd(w) as int;
        match op {
            Opcode::LDR => Ok((g1.update(rd, word_at(mem, addr)), mem, spec_load_status(w))),
            Opcode::LDRB => Ok((g1.update(rd, mem[addr] as u32), mem, spec_load_status(w))),
            Opcode::STR => Ok((g1, word_written(mem, addr, g1[rd]), PipelineStatus::Continue)),
            Opcode::STRB => Ok(
                (g1, mem.insert(addr, (g1[rd] & 0xFFu32) as u8), PipelineStatus::Continue),
            ),
            _ => Ok((g1, mem, PipelineStatus::Continue)),
        }
    }
}

/// The shared addressing engine of the single-transfer unit: refuse the
/// reserved indexing mode, compute the transfer address and perform the
/// base write-back.
fn mem_prepare(dec: &BaseDecoder, gpr: &mut [u32; 16]) -> (r: Result<u32, ArmError>)
    ensures
        match r {
            Ok(addr) => {
                &&& spec_mem_mode_ok(dec.raw)
                &&& addr == spec_mem_addr(dec.raw, old(gpr)@)
                &&& final(gpr)@ == spec_mem_wb(dec.raw, old(gpr)@)
            },
            Err(e) => {
                &&& e == ArmError::UnsupportedIndexingMode
                &&& !spec_mem_mode_ok(dec.raw)
                &&& final(gpr)@ == old(gpr)@
            },
        },
{
    proof {
        lemma_fields_bounded(dec.raw);
    }
    let pre = dec.is_pre_indexed();
    let wback = dec.is_write_back();
    if !pre && wback {
        return Err(ArmError::UnsupportedIndexingMode);
    }
    let base = gpr[dec.get_Rn()];
    let offset = if !dec.has_I() {
        dec.get_src2() as u32
    } else {
        shift(dec.get_sh(), gpr[dec.get_Rm()], dec.get_shamt5())
    };
    let effective = if dec.is_plus_offset() {
        base.wrapping_add(offset)
    } else {
        base.wrapping_sub(offset)
    };
    let addr = if pre {
        effective
    } else {
        base
    };
    if !pre || wback {
        gpr[dec.get_Rn()] = effective;
    }
    Ok(addr)
}

pub fn exec_ldr<T: Bus>(dec: &BaseDecoder, gpr: &mut [u32; 16], bus: &mut T) -> (r: Result<
    PipelineStatus,
    ArmError,
>)
    requires
        old(bus).inv(),
    ensures
        final(bus).inv(),
        match spec_exec_mem(Opcode::LDR, dec.raw, old(gpr)@, old(bus).mem()) {
            Ok((g, m, st)) => final(gpr)@ == g && final(bus).mem() == m && r == Ok::<
                PipelineStatus,
                ArmError,
            >(st),
            Err(e) => r == Err::<PipelineStatus, ArmError>(e) && final(gpr)@ == old(gpr)@ && final(bus).mem() == old(bus).mem(),
        },
{
    proof {
        lemma_fields_bounded(dec.raw);
    }
    let addr = match mem_prepare(dec, gpr) {
        Ok(a) => a,
        Err(e) => {
            return Err(e);
        },
    };
    let value = bus.read_word(addr);
    gpr[dec.get_Rd()] = value;
    if dec.get_Rd() == PC {
        Ok(PipelineStatus::Flush)
    } else {
        Ok(PipelineStatus::Continue)
    }
}

pub fn exec_ldrb<T: Bus>(dec: &BaseDecoder, gpr: &mut [u32; 16], bus: &mut T) -> (r: Result<
    PipelineStatus,
    ArmError,
>)
    requires
        old(bus).inv(),
    ensures
        final(bus).inv(),
        match spec_exec_mem(Opcode::LDRB, dec.raw, old(gpr)@, old(bus).mem()) {
            Ok((g, m, st)) => final(gpr)@ == g && final(bus).mem() == m && r == Ok::<
                PipelineStatus,
                ArmError,
            >(st),
            Err(e) => r == Err::<PipelineStatus, ArmError>(e) && final(gpr)@ == old(gpr)@ && final(bus).mem() == old(bus).mem(),
        },
{
    proof {
        lemma_fields_bounded(dec.raw);
    }
    let addr = match mem_prepare(dec, gpr) {
        Ok(a) => a,
        Err(e) => {
            return Err(e);
        },
    };
    let value = bus.read_byte(addr);
    gpr[dec.get_Rd()] = value as u32;
    if dec.get_Rd() == PC {
        Ok(PipelineStatus::Flush)
    } else {
        Ok(PipelineStatus::Continue)
    }
}

pub fn exec_str<T: Bus>(dec: &BaseDecoder, gpr: &mut [u32; 16], bus: &mut T) -> (r: Result<
    PipelineStatus,
    ArmError,
>)
    requires
        old(bus).inv(),
    ensures
        final(bus).inv(),
        match spec_exec_mem(Opcode::STR, dec.raw, old(gpr)@, old(bus).mem()) {
            Ok((g, m, st)) => final(gpr)@ == g && final(bus).mem() == m && r == Ok::<
                PipelineStatus,
                ArmError,
            >(st),
            Err(e) => r == Err::<PipelineStatus, ArmError>(e) && final(gpr)@ == old(gpr)@ && final(bus).mem() == old(bus).mem(),
        },
{
    proof {
        lemma_fields_bounded(dec.raw);
    }
    let addr = match mem_prepare(dec, gpr) {
        Ok(a) => a,
        Err(e) => {
            return Err(e);
        },
    };
    bus.write_word(addr, gpr[dec.get_Rd()]);
    Ok(PipelineStatus::Continue)
}

pub fn exec_strb<T: Bus>(dec: &BaseDecoder, gpr: &mut [u32; 16], bus: &mut T) -> (r: Result<
    PipelineStatus,
    ArmError,
>)
    requires
        old(bus).inv(),
    ensures
        final(bus).inv(),
        match spec_exec_mem(Opcode::STRB, dec.raw, old(gpr)@, old(bus).mem()) {
            Ok((g, m, st)) => final(gpr)@ == g && final(bus).mem() == m && r == Ok::<
                PipelineStatus,
                ArmError,
            >(st),
            Err(e) => r == Err::<PipelineStatus, ArmError>(e) && final(gpr)@ == old(gpr)@ && final(bus).mem() == old(bus).mem(),
        },
{
    proof {
        lemma_fields_bounded(dec.raw);
    }
    let addr = match mem_prepare(dec, gpr) {
        Ok(a) => a,
        Err(e) => {
            return Err(e);
        },
    };
    bus.write_byte(addr, (gpr[dec.get_Rd()] & 0xFF) as u8);
    Ok(PipelineStatus::Continue)
}


/// A single data transfer whose Rd is not the program counter never
/// asks for a pipeline flush.
pub proof fn lemma_mem_rd_not_pc_continues(op: Opcode, w: u32, gpr: Seq<u32>, mem: Map<u32, u8>)
    requires
        f_rd(w) != 15,
    ensures
        match spec_exec_mem(op, w, gpr, mem) {
            Ok((g, m, st)) => st == PipelineStatus::Continue,
            Err(_) => true,
        },
{
}

} // verus!
