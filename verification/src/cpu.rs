use crate::bus::{word_at, Bus};
use crate::constants::PC;
use crate::decoder::arm::{
    decode, lemma_opcode_category, spec_category, spec_decode, BaseDecoder, Category, Condition,
    Decoded, ExtraMemoryDecoder, MultipleDecoder, Opcode,
};
use crate::instructions::arm::branch::{exec_b, exec_bl, spec_exec_branch};
use crate::instructions::arm::data::{
    exec_adc, exec_add, exec_and, exec_bic, exec_cmn, exec_cmp, exec_eor, exec_mov, exec_mvn,
    exec_orr, exec_rrx, exec_rsb, exec_rsc, exec_sbc, exec_shift, exec_sub, exec_teq, exec_tst,
    spec_exec_dp,
};
use crate::instructions::arm::extra_memory::{
    exec_ldrh, exec_ldrsb, exec_ldrsh, exec_strh, spec_exec_exmem,
};
use crate::instructions::arm::memory::{exec_ldr, exec_ldrb, exec_str, exec_strb, spec_exec_mem};
use crate::instructions::arm::multi_load_and_store::{exec_ldm, exec_stm, spec_exec_block};
use crate::instructions::arm::multiple::{
    exec_mla, exec_mul, exec_smlal, exec_smull, exec_umlal, exec_umull, spec_exec_mul,
};
use crate::instructions::{ArmError, PipelineStatus};
use crate::registers::psr::{flag_c, flag_n, flag_v, flag_z, PSR};
use crate::types::{wadd, wsub, Word};
use vstd::array::array_fill_for_copy_types;
use vstd::prelude::*;

verus! {

pub const INITIAL_PIPELINE_WAIT: u8 = 2;

pub const PC_OFFSET: usize = 2;

#[derive(Debug, PartialEq, Eq, Structural, Clone, Copy)]
enum CpuMode {
    System,
    Supervisor,
    FIQ,
}

#[derive(Debug, PartialEq, Eq, Structural, Clone, Copy)]
enum CpuState {
    ARM,
    Thumb,
}

/// The architectural state `tick` steps: the sixteen registers, the
/// current and saved status words, the pipeline warm-up counter and the
/// bytes on the bus.
pub struct CoreModel {
    pub gpr: Seq<u32>,
    pub cpsr: u32,
    pub spsr: u32,
    pub wait: nat,
    pub mem: Map<u32, u8>,
}

/// Whether a condition code passes against the N, Z, C and V flags of a
/// status word, per the ARM condition table.
pub open spec fn spec_cond_holds(cond: Condition, cpsr: u32) -> bool {
    let n = flag_n(cpsr);
    let z = flag_z(cpsr);
    let c = flag_c(cpsr);
    let v = flag_v(cpsr);
    match cond {
        Condition::EQ => z,
        Condition::NE => !z,
        Condition::CS_HS => c,
        Condition::CC_LO => !c,
        Condition::MI => n,
        Condition::PL => !n,
        Condition::VS => v,
        Condition::VC => !v,
        Condition::HI => c && !z,
        Condition::LS => !c || z,
        Condition::GE => n == v,
        Condition::LT => n != v,
        Condition::GT => !z && n == v,
        Condition::LE => z || n != v,
        Condition::AL => true,
    }
}

/// The model with its program counter advanced one instruction.
pub open spec fn advance_pc(m: CoreModel) -> CoreModel {
    CoreModel { gpr: m.gpr.update(15, wadd(m.gpr[15], 4)), ..m }
}

/// How an execute unit's pipeline request lands on the model: continue
/// advances the program counter; a flush re-arms the two-cycle warm-up
/// and leaves the program counter where the unit put it.
pub open spec fn apply_status(m: CoreModel, st: PipelineStatus) -> CoreModel {
    match st {
        PipelineStatus::Continue => advance_pc(m),
        PipelineStatus::Flush => CoreModel { wait: 2, ..m },
    }
}

/// What executing one decoded word does to the model, by opcode
/// family.  The core never leaves a privileged mode (its mode set has
/// no User member), so block transfers run privileged.
pub open spec fn spec_exec(op: Opcode, raw: u32, m: CoreModel) -> Result<CoreModel, ArmError> {
    match op {
        Opcode::LDR | Opcode::STR | Opcode::LDRB | Opcode::STRB => match spec_exec_mem(
            op,
            raw,
            m.gpr,
            m.mem,
        ) {
            Ok((g, mm, st)) => Ok(apply_status(CoreModel { gpr: g, mem: mm, ..m }, st)),
            Err(e) => Err(e),
        },
        Opcode::STRH | Opcode::LDRH | Opcode::LDRSB | Opcode::LDRSH => match spec_exec_exmem(
            op,
            raw,
            m.gpr,
            m.mem,
        ) {
            Ok((g, mm, st)) => Ok(apply_status(CoreModel { gpr: g, mem: mm, ..m }, st)),
            Err(e) => Err(e),
        },
        Opcode::MUL | Opcode::MLA | Opcode::UMULL | Opcode::UMLAL | Opcode::SMULL
            | Opcode::SMLAL => match spec_exec_mul(op, raw, m.gpr, m.cpsr) {
            Ok((g, c, st)) => Ok(apply_status(CoreModel { gpr: g, cpsr: c, ..m }, st)),
            Err(e) => Err(e),
        },
        Opcode::B | Opcode::BL => {
            let (g, st) = spec_exec_branch(op, raw, m.gpr);
            Ok(apply_status(CoreModel { gpr: g, ..m }, st))
        },
        Opcode::LDM | Opcode::STM => match spec_exec_block(op, raw, m.gpr, m.mem, m.cpsr, m.spsr, false) {
            Ok((g, mm, c, st)) => Ok(apply_status(CoreModel { gpr: g, mem: mm, cpsr: c, ..m }, st)),
            Err(e) => Err(e),
        },
        Opcode::Undefined | Opcode::NOP => Err(ArmError::UnsupportedEncoding),
        _ => {
            let (g, c, st) = spec_exec_dp(op, raw, m.gpr, m.cpsr);
            Ok(apply_status(CoreModel { gpr: g, cpsr: c, ..m }, st))
        },
    }
}

/// One pipeline tick of the model.  During warm-up the counter falls
/// and the program counter advances without a fetch.  Otherwise the
/// word two instructions behind the program counter is fetched and
/// decoded; a failed condition skips it; an unsupported word is an
/// error that leaves the model unchanged.
pub open spec fn spec_step(m: CoreModel) -> Result<CoreModel, ArmError> {
    if m.wait > 0 {
        Ok(CoreModel { gpr: m.gpr.update(15, wadd(m.gpr[15], 4)), wait: (m.wait - 1) as nat, ..m })
    } else {
        let raw = word_at(m.mem, wsub(m.gpr[15], 8));
        match spec_decode(raw) {
            None => Err(ArmError::UnsupportedEncoding),
            Some((cond, cat, op)) => if !spec_cond_holds(cond, m.cpsr) {
                Ok(advance_pc(m))
            } else {
                spec_exec(op, raw, m)
            },
        }
    }
}

/// `n` ticks of the model, stopping at the first error.
pub open spec fn spec_steps(m: CoreModel, n: nat) -> Result<CoreModel, ArmError>
    decreases n,
{
    if n == 0 {
        Ok(m)
    } else {
        match spec_step(m) {
            Ok(m1) => spec_steps(m1, (n - 1) as nat),
            Err(e) => Err(e),
        }
    }
}

/// Evaluate a condition code against the flags of a status register.
pub fn condition_passed(cond: Condition, cpsr: &PSR) -> (r: bool)
    ensures
        r == spec_cond_holds(cond, cpsr.0),
{
    let n = cpsr.get_N();
    let z = cpsr.get_Z();
    let c = cpsr.get_C();
    let v = cpsr.get_V();
    match cond {
        Condition::EQ => z,
        Condition::NE => !z,
        Condition::CS_HS => c,
        Condition::CC_LO => !c,
        Condition::MI => n,
        Condition::PL => !n,
        Condition::VS => v,
        Condition::VC => !v,
        Condition::HI => c && !z,
        Condition::LS => !c || z,
        Condition::GE => n == v,
        Condition::LT => n != v,
        Condition::GT => !z && (n == v),
        Condition::LE => z || n != v,
        Condition::AL => true,
    }
}

#[allow(non_camel_case_types)]
pub struct ARMv4<T> where T: Bus {
    gpr: [u32; 16],
    bus: T,
    pipeline_wait: u8,
    cpsr: PSR,
    spsr: [PSR; 7],
    mode: CpuMode,
    state: CpuState,
    irq_disable: bool,
    fiq_disable: bool,
    optimise_swi: bool,
}

impl<T> ARMv4<T> where T: Bus {
    /// Well-formedness: the pipeline counter never passes the two-cycle
    /// warm-up, the CPU stays in ARM state, the saved status words keep
    /// their reset value (no in-scope instruction writes them), and the
    /// bus keeps its own invariant.
    pub closed spec fn wf(&self) -> bool {
        &&& self.pipeline_wait <= 2
        &&& self.state is ARM
        &&& self.bus.inv()
        &&& forall|i: int| 0 <= i < 7 ==> self.spsr@[i].0 == 0xD3u32
    }

    /// The saved-status slot of the current mode.
    closed spec fn spec_spsr_slot(&self) -> int {
        match self.mode {
            CpuMode::System => 6,
            CpuMode::Supervisor => 3,
            CpuMode::FIQ => 1,
        }
    }

    /// The architectural state this CPU is in.
    pub closed spec fn model(&self) -> CoreModel {
        CoreModel {
            gpr: self.gpr@,
            cpsr: self.cpsr.0,
            spsr: self.spsr@[self.spec_spsr_slot()].0,
            wait: self.pipeline_wait as nat,
            mem: self.bus.mem(),
        }
    }

    /// A CPU in reset state around the given bus: registers clear, the
    /// status word at its default, and the two-cycle warm-up armed.
    pub fn new(bus: T) -> (r: ARMv4<T>)
        requires
            bus.inv(),
        ensures
            r.wf(),
            r.model().gpr == Seq::new(16, |i: int| 0u32),
            r.model().cpsr == 0xD3u32,
            r.model().wait == 2,
            r.model().mem == bus.mem(),
            r.model().spsr == 0xD3u32,
    {
        ARMv4 {
            bus,
            pipeline_wait: INITIAL_PIPELINE_WAIT,
            gpr: array_fill_for_copy_types(0u32),
            cpsr: PSR::default(),
            spsr: array_fill_for_copy_types(PSR::default()),
            mode: CpuMode::System,
            state: CpuState::ARM,
            irq_disable: false,
            fiq_disable: false,
            optimise_swi: false,
        }
    }

    /// Return to the reset entry state: the program counter at zero,
    /// the status word at its default (Supervisor mode, interrupts
    /// masked, ARM state) and the pipeline warm-up re-armed.  The other
    /// registers and the bus keep their contents.
    pub fn reset(&mut self)
        requires
            old(self).wf(),
        ensures
            final(self).wf(),
            final(self).model() == (CoreModel {
                gpr: old(self).model().gpr.update(15, 0u32),
                cpsr: 0xD3u32,
                wait: 2,
                ..old(self).model()
            }),
    {
        self.gpr[PC] = 0x00000000;
        self.cpsr = PSR::default();
        self.mode = CpuMode::Supervisor;
        self.state = CpuState::ARM;
        self.irq_disable = true;
        self.fiq_disable = true;
        self.pipeline_wait = INITIAL_PIPELINE_WAIT;
    }

    fn flush_pipeline(&mut self)
        ensures
            *final(self) == (ARMv4 { pipeline_wait: INITIAL_PIPELINE_WAIT, ..*old(self) }),
    {
        self.pipeline_wait = INITIAL_PIPELINE_WAIT;
    }

    fn increment_pc(&mut self)
        requires
            old(self).state is ARM,
        ensures
            *final(self) == (ARMv4 { gpr: final(self).gpr, ..*old(self) }),
            final(self).gpr@ == old(self).gpr@.update(15, wadd(old(self).gpr@[15], 4)),
    {
        let next: u32 = if matches!(self.state, CpuState::ARM) {
            4
        } else {
            2
        };
        self.gpr[PC] = self.gpr[PC].wrapping_add(next);
    }

    /// Run one data-processing opcode through its unit and apply the
    /// pipeline request; these opcodes never fail.
    #[verifier::rlimit(100)]
    fn execute_dp(&mut self, b: &BaseDecoder) -> (r: Result<(), ArmError>)
        requires
            old(self).wf(),
            old(self).pipeline_wait == 0,
            !(b.opcode == Opcode::LDR || b.opcode == Opcode::STR || b.opcode == Opcode::LDRB
                || b.opcode == Opcode::STRB || b.opcode == Opcode::STRH || b.opcode == Opcode::LDRH
                || b.opcode == Opcode::LDRSB || b.opcode == Opcode::LDRSH || b.opcode
                == Opcode::MUL || b.opcode == Opcode::MLA || b.opcode == Opcode::UMULL || b.opcode
                == Opcode::UMLAL || b.opcode == Opcode::SMULL || b.opcode == Opcode::SMLAL
                || b.opcode == Opcode::B || b.opcode == Opcode::BL || b.opcode == Opcode::LDM
                || b.opcode == Opcode::STM || b.opcode == Opcode::Undefined || b.opcode
                == Opcode::NOP),
        ensures
            final(self).wf(),
            r == Ok::<(), ArmError>(()),
            spec_exec(b.opcode, b.raw, old(self).model()) == Ok::<CoreModel, ArmError>(
                final(self).model(),
            ),
    {
        let status = match b.opcode {
            Opcode::AND => exec_and(b, &mut self.gpr, &mut self.cpsr)?,
            Opcode::EOR => exec_eor(b, &mut self.gpr, &mut self.cpsr)?,
            Opcode::SUB => exec_sub(b, &mut self.gpr, &mut self.cpsr)?,
            Opcode::RSB => exec_rsb(b, &mut self.gpr, &mut self.cpsr)?,
            Opcode::ADD => exec_add(b, &mut self.gpr, &mut self.cpsr)?,
            Opcode::ADC => exec_adc(b, &mut self.gpr, &mut self.cpsr)?,
            Opcode::SBC => exec_sbc(b, &mut self.gpr, &mut self.cpsr)?,
            Opcode::RSC => exec_rsc(b, &mut self.gpr, &mut self.cpsr)?,
            Opcode::TST => exec_tst(b, &mut self.gpr, &mut self.cpsr)?,
            Opcode::TEQ => exec_teq(b, &mut self.gpr, &mut self.cpsr)?,
            Opcode::CMP => exec_cmp(b, &mut self.gpr, &mut self.cpsr)?,
            Opcode::CMN => exec_cmn(b, &mut self.gpr, &mut self.cpsr)?,
            Opcode::ORR => exec_orr(b, &mut self.gpr, &mut self.cpsr)?,
            Opcode::MOV => exec_mov(b, &mut self.gpr, &mut self.cpsr)?,
            Opcode::LSL => exec_shift(b, &mut self.gpr, &mut self.cpsr)?,
            Opcode::LSR => exec_shift(b, &mut self.gpr, &mut self.cpsr)?,
            Opcode::ASR => exec_shift(b, &mut self.gpr, &mut self.cpsr)?,
            Opcode::RRX => exec_rrx(b, &mut self.gpr, &mut self.cpsr)?,
            Opcode::ROR => exec_shift(b, &mut self.gpr, &mut self.cpsr)?,
            Opcode::BIC => exec_bic(b, &mut self.gpr, &mut self.cpsr)?,
            _ => exec_mvn(b, &mut self.gpr, &mut self.cpsr)?,
        };
        match status {
            PipelineStatus::Continue => self.increment_pc(),
            PipelineStatus::Flush => self.flush_pipeline(),
        }
        Ok(())
    }

    /// Run one single-transfer opcode through its unit and apply the
    /// pipeline request.
    fn execute_mem(&mut self, b: &BaseDecoder) -> (r: Result<(), ArmError>)
        requires
            old(self).wf(),
            old(self).pipeline_wait == 0,
            b.opcode == Opcode::LDR || b.opcode == Opcode::STR || b.opcode == Opcode::LDRB
                || b.opcode == Opcode::STRB,
        ensures
            final(self).wf(),
            match r {
                Ok(()) => spec_exec(b.opcode, b.raw, old(self).model()) == Ok::<
                    CoreModel,
                    ArmError,
                >(final(self).model()),
                Err(e) => spec_exec(b.opcode, b.raw, old(self).model()) == Err::<
                    CoreModel,
                    ArmError,
                >(e) && final(self).model() == old(self).model(),
            },
    {
        let status = match b.opcode {
            Opcode::LDR => exec_ldr(b, &mut self.gpr, &mut self.bus)?,
            Opcode::STR => exec_str(b, &mut self.gpr, &mut self.bus)?,
            Opcode::LDRB => exec_ldrb(b, &mut self.gpr, &mut self.bus)?,
            _ => exec_strb(b, &mut self.gpr, &mut self.bus)?,
        };
        match status {
            PipelineStatus::Continue => self.increment_pc(),
            PipelineStatus::Flush => self.flush_pipeline(),
        }
        Ok(())
    }

    /// Run a branch through its unit; branches always flush.
    fn execute_branch(&mut self, b: &BaseDecoder) -> (r: Result<(), ArmError>)
        requires
            old(self).wf(),
            old(self).pipeline_wait == 0,
            b.opcode == Opcode::B || b.opcode == Opcode::BL,
        ensures
            final(self).wf(),
            r == Ok::<(), ArmError>(()),
            spec_exec(b.opcode, b.raw, old(self).model()) == Ok::<CoreModel, ArmError>(
                final(self).model(),
            ),
    {
        let status = match b.opcode {
            Opcode::B => exec_b(b, &mut self.gpr)?,
            _ => exec_bl(b, &mut self.gpr)?,
        };
        match status {
            PipelineStatus::Continue => self.increment_pc(),
            PipelineStatus::Flush => self.flush_pipeline(),
        }
        Ok(())
    }

    /// Run a block transfer through its unit and apply the pipeline
    /// request.
    fn execute_block(&mut self, b: &BaseDecoder) -> (r: Result<(), ArmError>)
        requires
            old(self).wf(),
            old(self).pipeline_wait == 0,
            b.opcode == Opcode::LDM || b.opcode == Opcode::STM,
        ensures
            final(self).wf(),
            match r {
                Ok(()) => spec_exec(b.opcode, b.raw, old(self).model()) == Ok::<
                    CoreModel,
                    ArmError,
                >(final(self).model()),
                Err(e) => spec_exec(b.opcode, b.raw, old(self).model()) == Err::<
                    CoreModel,
                    ArmError,
                >(e) && final(self).model() == old(self).model(),
            },
    {
        let spsr = self.spsr[self.spsr_slot()];
        let status = match b.opcode {
            Opcode::LDM => exec_ldm(b, &mut self.gpr, &mut self.bus, &mut self.cpsr, spsr, false)?,
            _ => exec_stm(b, &mut self.gpr, &mut self.bus, &mut self.cpsr, spsr, false)?,
        };
        match status {
            PipelineStatus::Continue => self.increment_pc(),
            PipelineStatus::Flush => self.flush_pipeline(),
        }
        Ok(())
    }

    /// Run a multiply through its unit and apply the pipeline request.
    #[verifier::rlimit(100)]
    fn execute_mul(&mut self, md: &MultipleDecoder) -> (r: Result<(), ArmError>)
        requires
            old(self).wf(),
            old(self).pipeline_wait == 0,
            md.0.opcode == Opcode::MUL || md.0.opcode == Opcode::MLA || md.0.opcode
                == Opcode::UMULL || md.0.opcode == Opcode::UMLAL || md.0.opcode == Opcode::SMULL
                || md.0.opcode == Opcode::SMLAL,
        ensures
            final(self).wf(),
            match r {
                Ok(()) => spec_exec(md.0.opcode, md.0.raw, old(self).model()) == Ok::<
                    CoreModel,
                    ArmError,
                >(final(self).model()),
                Err(e) => spec_exec(md.0.opcode, md.0.raw, old(self).model()) == Err::<
                    CoreModel,
                    ArmError,
                >(e) && final(self).model() == old(self).model(),
            },
    {
        let status = match md.0.opcode {
            Opcode::MUL => exec_mul(md, &mut self.gpr, &mut self.cpsr)?,
            Opcode::MLA => exec_mla(md, &mut self.gpr, &mut self.cpsr)?,
            Opcode::UMULL => exec_umull(md, &mut self.gpr, &mut self.cpsr)?,
            Opcode::UMLAL => exec_umlal(md, &mut self.gpr, &mut self.cpsr)?,
            Opcode::SMULL => exec_smull(md, &mut self.gpr, &mut self.cpsr)?,
            _ => exec_smlal(md, &mut self.gpr, &mut self.cpsr)?,
        };
        match status {
            PipelineStatus::Continue => self.increment_pc(),
            PipelineStatus::Flush => self.flush_pipeline(),
        }
        Ok(())
    }

    /// Run an extra-memory transfer through its unit and apply the
    /// pipeline request.
    fn execute_xmem(&mut self, xd: &ExtraMemoryDecoder) -> (r: Result<(), ArmError>)
        requires
            old(self).wf(),
            old(self).pipeline_wait == 0,
            xd.0.opcode == Opcode::STRH || xd.0.opcode == Opcode::LDRH || xd.0.opcode
                == Opcode::LDRSB || xd.0.opcode == Opcode::LDRSH,
        ensures
            final(self).wf(),
            match r {
                Ok(()) => spec_exec(xd.0.opcode, xd.0.raw, old(self).model()) == Ok::<
                    CoreModel,
                    ArmError,
                >(final(self).model()),
                Err(e) => spec_exec(xd.0.opcode, xd.0.raw, old(self).model()) == Err::<
                    CoreModel,
                    ArmError,
                >(e) && final(self).model() == old(self).model(),
            },
    {
        let status = match xd.0.opcode {
            Opcode::STRH => exec_strh(xd, &mut self.gpr, &mut self.bus)?,
            Opcode::LDRH => exec_ldrh(xd, &mut self.gpr, &mut self.bus)?,
            Opcode::LDRSB => exec_ldrsb(xd, &mut self.gpr, &mut self.bus)?,
            _ => exec_ldrsh(xd, &mut self.gpr, &mut self.bus)?,
        };
        match status {
            PipelineStatus::Continue => self.increment_pc(),
            PipelineStatus::Flush => self.flush_pipeline(),
        }
        Ok(())
    }

    /// Run one decoded instruction through the execute unit its field
    /// layout names.
    fn execute(&mut self, dec: &Decoded) -> (r: Result<(), ArmError>)
        requires
            old(self).wf(),
            old(self).pipeline_wait == 0,
            spec_decode(dec.base().raw) == Some(
                (dec.base().cond, spec_category(dec.base().raw)->Some_0, dec.base().opcode),
            ),
            spec_category(dec.base().raw) is Some,
            (dec is Multiple <==> spec_category(dec.base().raw) == Some(Category::Multiple)),
            (dec is ExtraMemory <==> spec_category(dec.base().raw) == Some(Category::ExtraMemory)),
        ensures
            final(self).wf(),
            match r {
                Ok(()) => spec_exec(dec.base().opcode, dec.base().raw, old(self).model()) == Ok::<
                    CoreModel,
                    ArmError,
                >(final(self).model()),
                Err(e) => spec_exec(dec.base().opcode, dec.base().raw, old(self).model()) == Err::<
                    CoreModel,
                    ArmError,
                >(e) && final(self).model() == old(self).model(),
            },
    {
        proof {
            lemma_opcode_category(dec.base().raw);
        }
        match dec {
            Decoded::Base(b) => {
                match b.opcode {
                    Opcode::LDR | Opcode::STR | Opcode::LDRB | Opcode::STRB => self.execute_mem(b),
                    Opcode::B | Opcode::BL => self.execute_branch(b),
                    Opcode::LDM | Opcode::STM => self.execute_block(b),
                    Opcode::MUL | Opcode::MLA | Opcode::UMULL | Opcode::UMLAL | Opcode::SMULL
                        | Opcode::SMLAL | Opcode::STRH | Opcode::LDRH | Opcode::LDRSB
                        | Opcode::LDRSH | Opcode::Undefined | Opcode::NOP => {
                        proof {
                            assert(false);
                        }
                        Err(ArmError::UnsupportedEncoding)
                    },
                    _ => self.execute_dp(b),
                }
            },
            Decoded::Multiple(md) => {
                match md.0.opcode {
                    Opcode::MUL | Opcode::MLA | Opcode::UMULL | Opcode::UMLAL | Opcode::SMULL
                        | Opcode::SMLAL => self.execute_mul(md),
                    _ => {
                        proof {
                            assert(false);
                        }
                        Err(ArmError::UnsupportedEncoding)
                    },
                }
            },
            Decoded::ExtraMemory(xd) => {
                match xd.0.opcode {
                    Opcode::STRH | Opcode::LDRH | Opcode::LDRSB | Opcode::LDRSH => self.execute_xmem(
                        xd,
                    ),
                    _ => {
                        proof {
                            assert(false);
                        }
                        Err(ArmError::UnsupportedEncoding)
                    },
                }
            },
        }
    }

    /// The saved-status slot of the current mode.
    fn spsr_slot(&self) -> (r: usize)
        ensures
            r == self.spec_spsr_slot(),
    {
        match self.mode {
            CpuMode::System => 6,
            CpuMode::Supervisor => 3,
            CpuMode::FIQ => 1,
        }
    }

    /// One pipeline tick: warm up, or fetch, decode, check the
    /// condition and execute.  An error reports the offending word and
    /// leaves the whole CPU state, the program counter and the pipeline
    /// included, exactly as it was.
    pub fn tick(&mut self) -> (r: Result<(), ArmError>)
        requires
            old(self).wf(),
        ensures
            final(self).wf(),
            match r {
                Ok(()) => spec_step(old(self).model()) == Ok::<CoreModel, ArmError>(
                    final(self).model(),
                ),
                Err(e) => spec_step(old(self).model()) == Err::<CoreModel, ArmError>(e)
                    && final(self).model() == old(self).model(),
            },
    {
        if self.pipeline_wait > 0 {
            self.pipeline_wait = self.pipeline_wait - 1;
            self.increment_pc();
            return Ok(());
        }
        let fetched = self.bus.read_word(self.gpr[PC].wrapping_sub((PC_OFFSET * 4) as u32));
        let decoded = match decode(fetched) {
            Ok(d) => d,
            Err(e) => {
                return Err(e);
            },
        };
        let cond = match &decoded {
            Decoded::Base(b) => b.cond,
            Decoded::Multiple(md) => md.0.cond,
            Decoded::ExtraMemory(xd) => xd.0.cond,
        };
        if !condition_passed(cond, &self.cpsr) {
            self.increment_pc();
            return Ok(());
        }
        self.execute(&decoded)
    }

    /// Read a general-purpose register.
    pub fn get_gpr(&self, n: usize) -> (r: Word)
        requires
            n < 16,
        ensures
            r == self.model().gpr[n as int],
    {
        self.gpr[n]
    }

    /// The current status register.
    pub fn get_cpsr(&self) -> (r: PSR)
        ensures
            r.0 == self.model().cpsr,
    {
        self.cpsr
    }

    /// Write a general-purpose register.
    pub fn set_gpr(&mut self, n: usize, data: u32)
        requires
            n < 16,
            old(self).wf(),
        ensures
            final(self).wf(),
            final(self).model() == (CoreModel {
                gpr: old(self).model().gpr.update(n as int, data),
                ..old(self).model()
            }),
    {
        self.gpr[n] = data;
    }

    /// Overwrite the current status register.
    pub fn set_cpsr(&mut self, v: PSR)
        requires
            old(self).wf(),
        ensures
            final(self).wf(),
            final(self).model() == (CoreModel { cpsr: v.0, ..old(self).model() }),
    {
        self.cpsr = v;
    }

    /// Read a little-endian word from the bus, as the host or a test
    /// inspects memory.
    pub fn bus_word(&self, addr: u32) -> (r: Word)
        requires
            self.wf(),
        ensures
            r == word_at(self.model().mem, addr),
    {
        self.bus.read_word(addr)
    }
}


/// Bit-level facts about the all-zero instruction word and the reset
/// status word that the quiescent-bus law rests on.
proof fn lemma_zero_word_facts()
    by (bit_vector)
    ensures
        crate::types::word_from_bytes(0u8, 0u8, 0u8, 0u8) == 0u32,
        0u32 & 0xF000_0000u32 == 0u32,
        0u32 & 0x0E00_0000u32 == 0u32,
        0u32 & 0x0FC0_00F0u32 == 0u32,
        0u32 & 0x0F80_00F0u32 == 0u32,
        0u32 & 0x0E00_0010u32 == 0u32,
        0u32 & 0x0E40_0F90u32 == 0u32,
        0u32 & 0x0E40_0090u32 == 0u32,
        0u32 & 0x0C00_0000u32 == 0u32,
        (0u32 & 0x01E0_0000u32) >> 21u32 == 0u32,
        !flag_z(0xD3u32),
{
}

/// Wrapping addition is addition modulo 2^32.
proof fn lemma_wadd_mod(a: u32, b: u32)
    ensures
        wadd(a, b) == (a + b) % 0x1_0000_0000,
{
    if a + b > u32::MAX {
        vstd::arithmetic::div_mod::lemma_mod_add_multiples_vanish(
            a + b - 0x1_0000_0000,
            0x1_0000_0000,
        );
        vstd::arithmetic::div_mod::lemma_small_mod((a + b - 0x1_0000_0000) as nat, 0x1_0000_0000nat);
    } else {
        vstd::arithmetic::div_mod::lemma_small_mod((a + b) as nat, 0x1_0000_0000nat);
    }
}

/// On a bus that yields zero everywhere, with the status word at its
/// reset value, one tick only advances the program counter one
/// instruction and lets the warm-up counter fall: the all-zero word
/// decodes to a condition the clear Z flag fails.
pub proof fn lemma_quiescent_step(m: CoreModel)
    requires
        forall|a: u32| m.mem[a] == 0u8,
        m.cpsr == 0xD3u32,
    ensures
        spec_step(m) == Ok::<CoreModel, ArmError>(
            CoreModel {
                gpr: m.gpr.update(15, wadd(m.gpr[15], 4)),
                wait: if m.wait > 0 {
                    (m.wait - 1) as nat
                } else {
                    0
                },
                ..m
            },
        ),
{
    lemma_zero_word_facts();
    if m.wait == 0 {
        assert(word_at(m.mem, wsub(m.gpr[15], 8)) == 0u32);
        assert(spec_decode(0u32) == Some((Condition::EQ, Category::DataProcessing, Opcode::AND)));
        assert(!spec_cond_holds(Condition::EQ, m.cpsr));
    }
}

/// Ticking `n` times over a bus that yields zero everywhere moves the
/// program counter forward `4 * n` bytes (modulo 2^32) and changes no
/// other register, flag or byte of memory.
#[verifier::rlimit(100)]
pub proof fn lemma_quiescent_program(m: CoreModel, n: nat)
    requires
        m.gpr.len() == 16,
        forall|a: u32| m.mem[a] == 0u8,
        m.cpsr == 0xD3u32,
    ensures
        spec_steps(m, n) is Ok,
        ({
            let r = spec_steps(m, n)->Ok_0;
            &&& r.gpr == m.gpr.update(15, (((m.gpr[15] + 4 * n) % 0x1_0000_0000) as u32))
            &&& forall|i: int| 0 <= i < 16 && i != 15 ==> r.gpr[i] == m.gpr[i]
            &&& r.cpsr == m.cpsr
            &&& r.mem == m.mem
            &&& r.spsr == m.spsr
        }),
    decreases n,
{
    if n == 0 {
        vstd::arithmetic::div_mod::lemma_small_mod(m.gpr[15] as nat, 0x1_0000_0000nat);
        assert(m.gpr.update(15, (((m.gpr[15] + 4 * n) % 0x1_0000_0000) as u32)) =~= m.gpr);
    } else {
        lemma_quiescent_step(m);
        let m1 = spec_step(m)->Ok_0;
        assert(m1.gpr == m.gpr.update(15, wadd(m.gpr[15], 4)));
        lemma_quiescent_program(m1, (n - 1) as nat);
        let r = spec_steps(m1, (n - 1) as nat)->Ok_0;
        assert(spec_steps(m, n) == spec_steps(m1, (n - 1) as nat));
        lemma_wadd_mod(m.gpr[15], 4);
        vstd::arithmetic::div_mod::lemma_add_mod_noop_right(
            4 * (n - 1),
            m.gpr[15] + 4,
            0x1_0000_0000,
        );
        assert((m1.gpr[15] + 4 * (n - 1)) % 0x1_0000_0000 == (m.gpr[15] + 4 * n) % 0x1_0000_0000);
        assert(r.gpr =~= m.gpr.update(15, (((m.gpr[15] + 4 * n) % 0x1_0000_0000) as u32)));
    }
}

/// A memory transfer, single or extra, whose Rd is not the program
/// counter leaves a primed pipeline primed: the warm-up counter stays
/// at zero.
pub proof fn lemma_memory_keeps_pipeline(m: CoreModel, op: Opcode, raw: u32)
    requires
        m.wait == 0,
        op == Opcode::LDR || op == Opcode::STR || op == Opcode::LDRB || op == Opcode::STRB || op
            == Opcode::STRH || op == Opcode::LDRH || op == Opcode::LDRSB || op == Opcode::LDRSH,
        crate::decoder::arm::f_rd(raw) != 15,
    ensures
        match spec_exec(op, raw, m) {
            Ok(m1) => m1.wait == 0,
            Err(_) => true,
        },
{
    crate::instructions::arm::memory::lemma_mem_rd_not_pc_continues(op, raw, m.gpr, m.mem);
    crate::instructions::arm::extra_memory::lemma_exmem_rd_not_pc_continues(op, raw, m.gpr, m.mem);
}

} // verus!
