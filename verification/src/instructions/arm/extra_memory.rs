use crate::bus::Bus;
use crate::constants::PC;
use crate::decoder::arm::{
    f_ex_i, f_ex_imm8, f_p, f_rd, f_rm, f_rn, f_u, f_w, lemma_fields_bounded, Decoder,
    ExtraMemoryDecoder, Opcode, Raw,
};
use crate::instructions::arm::memory::{spec_load_status, spec_mem_mode_ok};
use crate::instructions::{ArmError, PipelineStatus};
use crate::types::{wadd, wsub};
use vstd::prelude::*;

verus! {

/// The offset of an extra-memory transfer: the split eight-bit
/// immediate with the I bit (bit 22) set, else the value of Rm.
pub open spec fn spec_ex_offset(w: u32, gpr: Seq<u32>) -> u32 {
    if f_ex_i(w) {
        f_ex_imm8(w)
    } else {
        gpr[f_rm(w) as int]
    }
}

/// The base plus or minus the extra-memory offset, per the U bit.
pub open spec fn spec_ex_effective(w: u32, gpr: Seq<u32>) -> u32 {
    let base = gpr[f_rn(w) as int];
    let offset = spec_ex_offset(w, gpr);
    if f_u(w) {
        wadd(base, offset)
    } else {
        wsub(base, offset)
    }
}

/// The extra-memory transfer address, indexed exactly as the single
/// data transfer is.
pub open spec fn spec_ex_addr(w: u32, gpr: Seq<u32>) -> u32 {
    if f_p(w) {
        spec_ex_effective(w, gpr)
    } else {
        gpr[f_rn(w) as int]
    }
}

/// The register file after extra-memory base write-back.
pub open spec fn spec_ex_wb(w: u32, gpr: Seq<u32>) -> Seq<u32> {
    if !f_p(w) || f_w(w) {
        gpr.update(f_rn(w) as int, spec_ex_effective(w, gpr))
    } else {
        gpr
    }
}

/// A byte sign-extended to 32 bits.
pub open spec fn sign_extend_byte(b: u8) -> u32 {
    if b >= 0x80 {
        (b as u32) | 0xFFFF_FF00u32
    } else {
        b as u32
    }
}

/// A half-word sign-extended to 32 bits.
pub open spec fn sign_extend_halfword(h: u32) -> u32 {
    if h >= 0x8000 {
        h | 0xFFFF_0000u32
    } else {
        h
    }
}

/// The little-endian half-word of a memory map at `addr`.
pub open spec fn halfword_at(mem: Map<u32, u8>, addr: u32) -> u32 {
    (mem[addr] as u32) | ((mem[wadd(addr, 1)] as u32) << 8u32)
}

/// The registers, memory and pipeline request an extra-memory transfer
/// leaves.  Half-words are synthesised from byte accesses, little
/// endian; the reserved indexing mode is refused with the state
/// unchanged.
pub open spec fn spec_exec_exmem(op: Opcode, w: u32, gpr: Seq<u32>, mem: Map<u32, u8>) -> Result<
    (Seq<u32>, Map<u32, u8>, PipelineStatus),
    ArmError,
> {
    if !spec_mem_mode_ok(w) {
        Err(ArmError::UnsupportedIndexingMode)
    } else {
        let addr = spec_ex_addr(w, gpr);
        let g1 = spec_ex_wb(w, gpr);
        let rd = f_rd(w) as int;
        match op {
            Opcode::STRH => {
                let v = g1[rd];
                let m1 = mem.insert(addr, (v & 0xFFu32) as u8).insert(
                    wadd(addr, 1),
                    ((v >> 8u32) & 0xFFu32) as u8,
                );
                Ok((g1, m1, PipelineStatus::Continue))
            },
            Opcode::LDRH => Ok((g1.update(rd, halfword_at(mem, addr)), mem, spec_load_status(w))),
            Opcode::LDRSB => Ok(
                (g1.update(rd, sign_extend_byte(mem[addr])), mem, spec_load_status(w)),
            ),
            Opcode::LDRSH => Ok(
                (g1.update(rd, sign_extend_halfword(halfword_at(mem, addr))), mem, spec_load_status(
                    w,
                )),
            ),
            _ => Ok((g1, mem, PipelineStatus::Continue)),
        }
    }
}

/// The shared addressing engine of the extra-memory unit.
fn ex_mem_prepare(dec: &ExtraMemoryDecoder, gpr: &mut [u32; 16]) -> (r: Result<u32, ArmError>)
    ensures
        match r {
            Ok(addr) => {
                &&& spec_mem_mode_ok(dec.spec_raw())
                &&& addr == spec_ex_addr(dec.spec_raw(), old(gpr)@)
                &&& final(gpr)@ == spec_ex_wb(dec.spec_raw(), old(gpr)@)
            },
            Err(e) => {
                &&& e == ArmError::UnsupportedIndexingMode
                &&& !spec_mem_mode_ok(dec.spec_raw())
                &&& final(gpr)@ == old(gpr)@
            },
        },
{
    proof {
        lemma_fields_bounded(dec.spec_raw());
    }
    let pre = dec.is_pre_indexed();
    let wback = dec.is_write_back();
    if !pre && wback {
        return Err(ArmError::UnsupportedIndexingMode);
    }
    let base = gpr[dec.get_Rn()];
    let offset = if dec.has_I() {
        dec.get_imm8()
    } else {
        gpr[dec.get_Rm()]
    };
    let effective = if dec.is_plus_offset() {
        base.wrapping_add(offset)
    } else {
        base.wrapping_sub(offset)
    };
    let addr = if pre {
        effective
    } else {
        base
    };
    if !pre || wback {
        gpr[dec.get_Rn()] = effective;
    }
    Ok(addr)
}

pub fn exec_strh<T: Bus>(dec: &ExtraMemoryDecoder, gpr: &mut [u32; 16], bus: &mut T) -> (r: Result<
    PipelineStatus,
    ArmError,
>)
    requires
        old(bus).inv(),
    ensures
        final(bus).inv(),
        match spec_exec_exmem(Opcode::STRH, dec.spec_raw(), old(gpr)@, old(bus).mem()) {
            Ok((g, m, st)) => final(gpr)@ == g && final(bus).mem() == m && r == Ok::<
                PipelineStatus,
                ArmError,
            >(st),
            Err(e) => r == Err::<PipelineStatus, ArmError>(e) && final(gpr)@ == old(gpr)@ && final(bus).mem() == old(bus).mem(),
        },
{
    proof {
        lemma_fields_bounded(dec.spec_raw());
    }
    let addr = match ex_mem_prepare(dec, gpr) {
        Ok(a) => a,
        Err(e) => {
            return Err(e);
        },
    };
    let v = gpr[Decoder::get_Rd(dec)];
    bus.write_byte(addr, (v & 0xFF) as u8);
    bus.write_byte(addr.wrapping_add(1), ((v >> 8) & 0xFF) as u8);
    Ok(PipelineStatus::Continue)
}

pub fn exec_ldrh<T: Bus>(dec: &ExtraMemoryDecoder, gpr: &mut [u32; 16], bus: &mut T) -> (r: Result<
    PipelineStatus,
    ArmError,
>)
    requires
        old(bus).inv(),
    ensures
        final(bus).inv(),
        match spec_exec_exmem(Opcode::LDRH, dec.spec_raw(), old(gpr)@, old(bus).mem()) {
            Ok((g, m, st)) => final(gpr)@ == g && final(bus).mem() == m && r == Ok::<
                PipelineStatus,
                ArmError,
            >(st),
            Err(e) => r == Err::<PipelineStatus, ArmError>(e) && final(gpr)@ == old(gpr)@ && final(bus).mem() == old(bus).mem(),
        },
{
    proof {
        lemma_fields_bounded(dec.spec_raw());
    }
    let addr = match ex_mem_prepare(dec, gpr) {
        Ok(a) => a,
        Err(e) => {
            return Err(e);
        },
    };
    let lo = bus.read_byte(addr);
    let hi = bus.read_byte(addr.wrapping_add(1));
    let value = (lo as u32) | ((hi as u32) << 8);
    gpr[Decoder::get_Rd(dec)] = value;
    if Decoder::get_Rd(dec) == PC {
        Ok(PipelineStatus::Flush)
    } else {
        Ok(PipelineStatus::Continue)
    }
}

pub fn exec_ldrsb<T: Bus>(dec: &ExtraMemoryDecoder, gpr: &mut [u32; 16], bus: &mut T) -> (r:
    Result<PipelineStatus, ArmError>)
    requires
        old(bus).inv(),
    ensures
        final(bus).inv(),
        match spec_exec_exmem(Opcode::LDRSB, dec.spec_raw(), old(gpr)@, old(bus).mem()) {
            Ok((g, m, st)) => final(gpr)@ == g && final(bus).mem() == m && r == Ok::<
                PipelineStatus,
                ArmError,
            >(st),
            Err(e) => r == Err::<PipelineStatus, ArmError>(e) && final(gpr)@ == old(gpr)@ && final(bus).mem() == old(bus).mem(),
        },
{
    proof {
        lemma_fields_bounded(dec.spec_raw());
    }
    let addr = match ex_mem_prepare(dec, gpr) {
        Ok(a) => a,
        Err(e) => {
            return Err(e);
        },
    };
    let b = bus.read_byte(addr);
    let value = if b >= 0x80 {
        (b as u32) | 0xFFFF_FF00
    } else {
        b as u32
    };
    gpr[Decoder::get_Rd(dec)] = value;
    if Decoder::get_Rd(dec) == PC {
        Ok(PipelineStatus::Flush)
    } else {
        Ok(PipelineStatus::Continue)
    }
}

pub fn exec_ldrsh<T: Bus>(dec: &ExtraMemoryDecoder, gpr: &mut [u32; 16], bus: &mut T) -> (r:
    Result<PipelineStatus, ArmError>)
    requires
        old(bus).inv(),
    ensures
        final(bus).inv(),
        match spec_exec_exmem(Opcode::LDRSH, dec.spec_raw(), old(gpr)@, old(bus).mem()) {
            Ok((g, m, st)) => final(gpr)@ == g && final(bus).mem() == m && r == Ok::<
                PipelineStatus,
                ArmError,
            >(st),
            Err(e) => r == Err::<PipelineStatus, ArmError>(e) && final(gpr)@ == old(gpr)@ && final(bus).mem() == old(bus).mem(),
        },
{
    proof {
        lemma_fields_bounded(dec.spec_raw());
    }
    let addr = match ex_mem_prepare(dec, gpr) {
        Ok(a) => a,
        Err(e) => {
            return Err(e);
        },
    };
    let lo = bus.read_byte(addr);
    let hi = bus.read_byte(addr.wrapping_add(1));
    let h = (lo as u32) | ((hi as u32) << 8);
    let value = if h >= 0x8000 {
        h | 0xFFFF_0000
    } else {
        h
    };
    gpr[Decoder::get_Rd(dec)] = value;
    if Decoder::get_Rd(dec) == PC {
        Ok(PipelineStatus::Flush)
    } else {
        Ok(PipelineStatus::Continue)
    }
}


/// An extra-memory transfer whose Rd is not the program counter never
/// asks for a pipeline flush.
pub proof fn lemma_exmem_rd_not_pc_continues(op: Opcode, w: u32, gpr: Seq<u32>, mem: Map<u32, u8>)
    requires
        f_rd(w) != 15,
    ensures
        match spec_exec_exmem(op, w, gpr, mem) {
            Ok((g, m, st)) => st == PipelineStatus::Continue,
            Err(_) => true,
        },
{
}

} // verus!
