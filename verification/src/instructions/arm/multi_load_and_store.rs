use crate::bus::{word_at, word_written, Bus};
use crate::decoder::arm::{
    f_p, f_rn, f_u, f_w, lemma_fields_bounded, BaseDecoder, Decoder, Opcode, Raw,
};
use crate::instructions::{ArmError, PipelineStatus};
use crate::registers::psr::PSR;
use crate::types::{bit_set, wadd, wsub};
use vstd::prelude::*;

verus! {

/// The S bit of a block transfer, bit 22: banked-register or PSR
/// transfer.
pub open spec fn f_bt_s(w: u32) -> bool {
    w & 0x0040_0000u32 != 0
}

/// The register list of a block transfer, bits 15..0.
pub open spec fn f_list(w: u32) -> u32 {
    w & 0xFFFFu32
}

/// How many of the bits below `i` are set in `list`.
pub open spec fn count_bits(list: u32, i: nat) -> nat
    decreases i,
{
    if i == 0 {
        0
    } else {
        count_bits(list, (i - 1) as nat) + if bit_set(list, (i - 1) as u32) {
            1nat
        } else {
            0nat
        }
    }
}

/// The bits set in `list` number at most `i` among the first `i`.
pub proof fn lemma_count_bits_le(list: u32, i: nat)
    ensures
        count_bits(list, i) <= i,
    decreases i,
{
    if i > 0 {
        lemma_count_bits_le(list, (i - 1) as nat);
    }
}

/// The lowest transfer address: the base when ascending, the base less
/// four bytes per listed register when descending.
pub open spec fn bt_start(w: u32, base: u32) -> u32 {
    if f_u(w) {
        base
    } else {
        wsub(base, (4 * count_bits(f_list(w), 16)) as u32)
    }
}

/// The written-back base: the base moved four bytes per listed register,
/// up or down per the U bit.
pub open spec fn bt_newbase(w: u32, base: u32) -> u32 {
    if f_u(w) {
        wadd(base, (4 * count_bits(f_list(w), 16)) as u32)
    } else {
        wsub(base, (4 * count_bits(f_list(w), 16)) as u32)
    }
}

/// The fixed shift the IB and DA variants add before the first
/// transfer: four when P equals U, nothing otherwise.
pub open spec fn bt_pre(w: u32) -> u32 {
    if f_p(w) == f_u(w) {
        4u32
    } else {
        0u32
    }
}

/// The transfer address of listed register `i`: ascending register
/// order maps the j-th listed register to the j-th word from the start.
pub open spec fn bt_addr(w: u32, base: u32, i: nat) -> u32 {
    wadd(bt_start(w, base), (bt_pre(w) + 4 * count_bits(f_list(w), i)) as u32)
}

/// The register file after the loads of an LDM over registers below
/// `i`, in ascending order.
pub open spec fn ldm_gpr(w: u32, base: u32, g: Seq<u32>, mem: Map<u32, u8>, i: nat) -> Seq<u32>
    decreases i,
{
    if i == 0 {
        g
    } else {
        let g1 = ldm_gpr(w, base, g, mem, (i - 1) as nat);
        if bit_set(f_list(w), (i - 1) as u32) {
            g1.update((i - 1) as int, word_at(mem, bt_addr(w, base, (i - 1) as nat)))
        } else {
            g1
        }
    }
}

/// The memory after the stores of an STM over registers below `i`, in
/// ascending order.
pub open spec fn stm_mem(w: u32, base: u32, g: Seq<u32>, mem: Map<u32, u8>, i: nat) -> Map<u32, u8>
    decreases i,
{
    if i == 0 {
        mem
    } else {
        let m1 = stm_mem(w, base, g, mem, (i - 1) as nat);
        if bit_set(f_list(w), (i - 1) as u32) {
            word_written(m1, bt_addr(w, base, (i - 1) as nat), g[i - 1])
        } else {
            m1
        }
    }
}

/// The registers, memory, status word and pipeline request a block
/// transfer leaves.  An S=1 transfer in User mode is refused with the
/// state unchanged.  LDM writes the base back before loading, so a
/// listed base takes the loaded value; STM stores the register values
/// as they stood before the instruction.  An LDM whose list holds the
/// program counter flushes, and with S set it also copies the saved
/// status word into the current one.
pub open spec fn spec_exec_block(
    op: Opcode,
    w: u32,
    gpr: Seq<u32>,
    mem: Map<u32, u8>,
    cpsr: u32,
    spsr: u32,
    user_mode: bool,
) -> Result<(Seq<u32>, Map<u32, u8>, u32, PipelineStatus), ArmError> {
    if f_bt_s(w) && user_mode {
        Err(ArmError::PrivilegedAccess)
    } else {
        let rn = f_rn(w) as int;
        let base = gpr[rn];
        match op {
            Opcode::LDM => {
                let g0 = if f_w(w) {
                    gpr.update(rn, bt_newbase(w, base))
                } else {
                    gpr
                };
                let g1 = ldm_gpr(w, base, g0, mem, 16);
                let c1 = if f_bt_s(w) && bit_set(f_list(w), 15) {
                    spsr
                } else {
                    cpsr
                };
                let st = if bit_set(f_list(w), 15) {
                    PipelineStatus::Flush
                } else {
                    PipelineStatus::Continue
                };
                Ok((g1, mem, c1, st))
            },
            Opcode::STM => {
                let m1 = stm_mem(w, base, gpr, mem, 16);
                let g1 = if f_w(w) {
                    gpr.update(rn, bt_newbase(w, base))
                } else {
                    gpr
                };
                Ok((g1, m1, cpsr, PipelineStatus::Continue))
            },
            _ => Ok((gpr, mem, cpsr, PipelineStatus::Continue)),
        }
    }
}

/// Count the registers a block-transfer list names.
fn count_registers(list: u32) -> (n: u32)
    ensures
        n == count_bits(list, 16),
        n <= 16,
{
    let mut n: u32 = 0;
    let mut i: u32 = 0;
    while i < 16
        invariant
            i <= 16,
            n == count_bits(list, i as nat),
            n <= i,
        decreases 16 - i,
    {
        if list & (1u32 << i) != 0 {
            n = n + 1;
        }
        i = i + 1;
    }
    n
}

pub fn exec_ldm<T: Bus>(
    dec: &BaseDecoder,
    gpr: &mut [u32; 16],
    bus: &mut T,
    cpsr: &mut PSR,
    spsr: PSR,
    user_mode: bool,
) -> (r: Result<PipelineStatus, ArmError>)
    requires
        old(bus).inv(),
    ensures
        final(bus).inv(),
        match spec_exec_block(
            Opcode::LDM,
            dec.raw,
            old(gpr)@,
            old(bus).mem(),
            old(cpsr).0,
            spsr.0,
            user_mode,
        ) {
            Ok((g, m, c, st)) => final(gpr)@ == g && final(bus).mem() == m && final(cpsr).0 == c
                && r == Ok::<PipelineStatus, ArmError>(st),
            Err(e) => r == Err::<PipelineStatus, ArmError>(e) && final(gpr)@ == old(gpr)@ && final(bus).mem() == old(bus).mem() && final(cpsr).0 == old(cpsr).0,
        },
{
    proof {
        lemma_fields_bounded(dec.raw);
        lemma_count_bits_le(f_list(dec.raw), 16);
    }
    let s_bit = dec.raw() & 0x0040_0000 != 0;
    if s_bit && user_mode {
        return Err(ArmError::PrivilegedAccess);
    }
    let list = dec.raw() & 0xFFFF;
    let n = count_registers(list);
    let base = gpr[dec.get_Rn()];
    let bytes = 4 * n;
    let newbase = if dec.is_plus_offset() {
        base.wrapping_add(bytes)
    } else {
        base.wrapping_sub(bytes)
    };
    let start = if dec.is_plus_offset() {
        base
    } else {
        base.wrapping_sub(bytes)
    };
    let pre: u32 = if dec.is_pre_indexed() == dec.is_plus_offset() {
        4
    } else {
        0
    };
    if dec.is_write_back() {
        gpr[dec.get_Rn()] = newbase;
    }
    let ghost g0 = gpr@;
    let ghost mem0 = bus.mem();
    let mut i: usize = 0;
    let mut addr: u32 = start.wrapping_add(pre);
    while i < 16
        invariant
            i <= 16,
            bus.inv(),
            bus.mem() == mem0,
            list == f_list(dec.raw),
            pre == bt_pre(dec.raw),
            start == bt_start(dec.raw, base),
            addr == wadd(start, (pre + 4 * count_bits(list, i as nat)) as u32),
            count_bits(list, i as nat) <= 16,
            gpr@ == ldm_gpr(dec.raw, base, g0, mem0, i as nat),
        decreases 16 - i,
    {
        proof {
            lemma_count_bits_le(list, (i + 1) as nat);
        }
        if list & (1u32 << (i as u32)) != 0 {
            let v = bus.read_word(addr);
            gpr[i] = v;
            addr = addr.wrapping_add(4);
        }
        i = i + 1;
    }
    if s_bit && list & (1u32 << 15) != 0 {
        cpsr.set(spsr.0);
    }
    if list & (1u32 << 15) != 0 {
        Ok(PipelineStatus::Flush)
    } else {
        Ok(PipelineStatus::Continue)
    }
}

pub fn exec_stm<T: Bus>(
    dec: &BaseDecoder,
    gpr: &mut [u32; 16],
    bus: &mut T,
    cpsr: &mut PSR,
    spsr: PSR,
    user_mode: bool,
) -> (r: Result<PipelineStatus, ArmError>)
    requires
        old(bus).inv(),
    ensures
        final(bus).inv(),
        match spec_exec_block(
            Opcode::STM,
            dec.raw,
            old(gpr)@,
            old(bus).mem(),
            old(cpsr).0,
            spsr.0,
            user_mode,
        ) {
            Ok((g, m, c, st)) => final(gpr)@ == g && final(bus).mem() == m && final(cpsr).0 == c
                && r == Ok::<PipelineStatus, ArmError>(st),
            Err(e) => r == Err::<PipelineStatus, ArmError>(e) && final(gpr)@ == old(gpr)@ && final(bus).mem() == old(bus).mem() && final(cpsr).0 == old(cpsr).0,
        },
{
    proof {
        lemma_fields_bounded(dec.raw);
        lemma_count_bits_le(f_list(dec.raw), 16);
    }
    let s_bit = dec.raw() & 0x0040_0000 != 0;
    if s_bit && user_mode {
        return Err(ArmError::PrivilegedAccess);
    }
    let list = dec.raw() & 0xFFFF;
    let n = count_registers(list);
    let base = gpr[dec.get_Rn()];
    let bytes = 4 * n;
    let newbase = if dec.is_plus_offset() {
        base.wrapping_add(bytes)
    } else {
        base.wrapping_sub(bytes)
    };
    let start = if dec.is_plus_offset() {
        base
    } else {
        base.wrapping_sub(bytes)
    };
    let pre: u32 = if dec.is_pre_indexed() == dec.is_plus_offset() {
        4
    } else {
        0
    };
    let ghost g0 = gpr@;
    let ghost mem0 = bus.mem();
    let mut i: usize = 0;
    let mut addr: u32 = start.wrapping_add(pre);
    while i < 16
        invariant
            i <= 16,
            bus.inv(),
            gpr@ == g0,
            list == f_list(dec.raw),
            pre == bt_pre(dec.raw),
            start == bt_start(dec.raw, base),
            addr == wadd(start, (pre + 4 * count_bits(list, i as nat)) as u32),
            count_bits(list, i as nat) <= 16,
            bus.mem() == stm_mem(dec.raw, base, g0, mem0, i as nat),
        decreases 16 - i,
    {
        proof {
            lemma_count_bits_le(list, (i + 1) as nat);
        }
        if list & (1u32 << (i as u32)) != 0 {
            bus.write_word(addr, gpr[i]);
            addr = addr.wrapping_add(4);
        }
        i = i + 1;
    }
    if dec.is_write_back() {
        gpr[dec.get_Rn()] = newbase;
    }
    Ok(PipelineStatus::Continue)
}


/// Counting set bits is monotone, and passes a listed bit by exactly
/// one.
proof fn lemma_count_bits_mono(list: u32, i: nat, j: nat)
    requires
        i <= j,
    ensures
        count_bits(list, i) <= count_bits(list, j),
        i < j && bit_set(list, i as u32) ==> count_bits(list, i) + 1 <= count_bits(list, j),
    decreases j,
{
    if i < j {
        lemma_count_bits_mono(list, i, (j - 1) as nat);
    }
}

/// The loads of an LDM leave the register file's length alone.
proof fn lemma_ldm_len(w: u32, base: u32, g: Seq<u32>, mem: Map<u32, u8>, i: nat)
    requires
        g.len() == 16,
        i <= 16,
    ensures
        ldm_gpr(w, base, g, mem, i).len() == 16,
    decreases i,
{
    if i > 0 {
        lemma_ldm_len(w, base, g, mem, (i - 1) as nat);
    }
}

/// Registers the list leaves out, and registers at or above the bound,
/// keep their values through the loads of an LDM.
proof fn lemma_ldm_untouched(w: u32, base: u32, g: Seq<u32>, mem: Map<u32, u8>, i: nat, r: int)
    requires
        g.len() == 16,
        0 <= r < 16,
        i <= 16,
        r >= i || !bit_set(f_list(w), r as u32),
    ensures
        ldm_gpr(w, base, g, mem, i)[r] == g[r],
    decreases i,
{
    if i > 0 {
        lemma_ldm_len(w, base, g, mem, (i - 1) as nat);
        lemma_ldm_untouched(w, base, g, mem, (i - 1) as nat, r);
    }
}

/// A listed register ends an LDM holding the word at its transfer
/// address.
proof fn lemma_ldm_value_aux(w: u32, base: u32, g: Seq<u32>, mem: Map<u32, u8>, i: nat, j: nat)
    requires
        g.len() == 16,
        i < j <= 16,
        bit_set(f_list(w), i as u32),
    ensures
        ldm_gpr(w, base, g, mem, j)[i as int] == word_at(mem, bt_addr(w, base, i)),
    decreases j,
{
    lemma_ldm_len(w, base, g, mem, (j - 1) as nat);
    if j == i + 1 {
        lemma_ldm_untouched(w, base, g, mem, i, i as int);
    } else {
        lemma_ldm_value_aux(w, base, g, mem, i, (j - 1) as nat);
    }
}

/// The stores of an STM past register `i` land at least one word above
/// register `i`'s address and leave its word alone.
proof fn lemma_stm_preserves(w: u32, base: u32, g: Seq<u32>, mem: Map<u32, u8>, i: nat, j: nat)
    requires
        i < j <= 16,
        bit_set(f_list(w), i as u32),
    ensures
        word_at(stm_mem(w, base, g, mem, j), bt_addr(w, base, i)) == word_at(
            stm_mem(w, base, g, mem, (i + 1) as nat),
            bt_addr(w, base, i),
        ),
    decreases j,
{
    if j > i + 1 {
        lemma_stm_preserves(w, base, g, mem, i, (j - 1) as nat);
        if bit_set(f_list(w), (j - 1) as u32) {
            lemma_count_bits_le(f_list(w), (i + 1) as nat);
            lemma_count_bits_le(f_list(w), (j - 1) as nat);
            lemma_count_bits_mono(f_list(w), i, (j - 1) as nat);
            crate::bus::lemma_word_write_disjoint(
                stm_mem(w, base, g, mem, (j - 1) as nat),
                bt_start(w, base),
                (bt_pre(w) + 4 * count_bits(f_list(w), (j - 1) as nat)) as u32,
                (bt_pre(w) + 4 * count_bits(f_list(w), i)) as u32,
                g[j - 1],
            );
        }
    }
}

/// The words an STM stores equal the listed registers' values, in
/// ascending register order: listed register `i` is found at its
/// transfer address, the `count`-th word above the transfer start.
pub proof fn lemma_stm_stored_words(w: u32, base: u32, g: Seq<u32>, mem: Map<u32, u8>, i: nat)
    requires
        i < 16,
        bit_set(f_list(w), i as u32),
    ensures
        word_at(stm_mem(w, base, g, mem, 16), bt_addr(w, base, i)) == g[i as int],
{
    crate::bus::lemma_word_at_written_same(
        stm_mem(w, base, g, mem, i),
        bt_addr(w, base, i),
        g[i as int],
    );
    lemma_stm_preserves(w, base, g, mem, i, 16);
}

/// With write-back, a block transfer moves the base register by four
/// bytes per listed register, up or down per the U bit; an LDM whose
/// list leaves the base out keeps the written-back value.
pub proof fn lemma_block_write_back(
    op: Opcode,
    w: u32,
    gpr: Seq<u32>,
    mem: Map<u32, u8>,
    cpsr: u32,
    spsr: u32,
)
    requires
        op == Opcode::LDM || op == Opcode::STM,
        f_w(w),
        !f_bt_s(w),
        gpr.len() == 16,
        op == Opcode::LDM ==> !bit_set(f_list(w), f_rn(w)),
    ensures
        spec_exec_block(op, w, gpr, mem, cpsr, spsr, false) is Ok,
        ({
            let g1 = spec_exec_block(op, w, gpr, mem, cpsr, spsr, false)->Ok_0.0;
            let base = gpr[f_rn(w) as int];
            let bytes = (4 * count_bits(f_list(w), 16)) as u32;
            g1[f_rn(w) as int] == if f_u(w) {
                wadd(base, bytes)
            } else {
                wsub(base, bytes)
            }
        }),
{
    crate::decoder::arm::lemma_fields_bounded(w);
    let base = gpr[f_rn(w) as int];
    if op == Opcode::LDM {
        let g0 = gpr.update(f_rn(w) as int, bt_newbase(w, base));
        lemma_ldm_untouched(w, base, g0, mem, 16, f_rn(w) as int);
    }
}

/// Round trip: storing a register list with STM and loading it back
/// with an LDM of the same base, direction and indexing, with no
/// write-back and the base register outside the list, restores every
/// register exactly and leaves the stored words in place.
pub proof fn lemma_stm_ldm_round_trip(
    ws: u32,
    wl: u32,
    gpr: Seq<u32>,
    mem: Map<u32, u8>,
    cpsr: u32,
    spsr: u32,
)
    requires
        gpr.len() == 16,
        f_list(wl) == f_list(ws),
        f_p(wl) == f_p(ws),
        f_u(wl) == f_u(ws),
        f_rn(wl) == f_rn(ws),
        !f_w(ws),
        !f_w(wl),
        !f_bt_s(ws),
        !f_bt_s(wl),
        !bit_set(f_list(ws), f_rn(ws)),
    ensures
        spec_exec_block(Opcode::STM, ws, gpr, mem, cpsr, spsr, false) is Ok,
        ({
            let m1 = spec_exec_block(Opcode::STM, ws, gpr, mem, cpsr, spsr, false)->Ok_0.1;
            let r2 = spec_exec_block(Opcode::LDM, wl, gpr, m1, cpsr, spsr, false);
            &&& r2 is Ok
            &&& r2->Ok_0.0 == gpr
            &&& r2->Ok_0.1 == m1
        }),
{
    crate::decoder::arm::lemma_fields_bounded(ws);
    let base = gpr[f_rn(ws) as int];
    let m1 = stm_mem(ws, base, gpr, mem, 16);
    let g2 = ldm_gpr(wl, base, gpr, m1, 16);
    lemma_ldm_len(wl, base, gpr, m1, 16);
    assert forall|i: nat| i < 16 implies g2[i as int] == gpr[i as int] by {
        if bit_set(f_list(wl), i as u32) {
            lemma_ldm_value_aux(wl, base, gpr, m1, i, 16);
            assert(bt_addr(wl, base, i) == bt_addr(ws, base, i));
            lemma_stm_stored_words(ws, base, gpr, mem, i);
        } else {
            lemma_ldm_untouched(wl, base, gpr, m1, 16, i as int);
        }
    }
    assert(g2 =~= gpr);
}

} // verus!
