use armv4::constants::PC;
use armv4::cpu::{condition_passed, ARMv4};
use armv4::decoder::arm::{BaseDecoder, Condition, Opcode};
use armv4::instructions::arm::multi_load_and_store::exec_ldm;
use armv4::instructions::ArmError;
use armv4::memory::ram::Ram;
use armv4::memory::writable::WordWritable;
use armv4::registers::psr::PSR;

fn zero_bus() -> Ram {
    Ram::new(vec![0; 1024])
}

fn warmed_up(bus: Ram) -> ARMv4<Ram> {
    let mut arm = ARMv4::new(bus);
    let _ = arm.tick();
    let _ = arm.tick();
    arm
}

#[test]
// A bus that always yields zero drives nothing but the program counter.
fn quiescent_bus_advances_pc_only() {
    let mut arm = ARMv4::new(zero_bus());
    arm.set_gpr(3, 7);
    arm.set_gpr(14, 0xDEAD_BEEF);
    let cpsr_before = arm.get_cpsr();
    for _ in 0..10 {
        assert!(arm.tick().is_ok());
    }
    assert_eq!(arm.get_gpr(PC), 40);
    assert_eq!(arm.get_gpr(3), 7);
    assert_eq!(arm.get_gpr(14), 0xDEAD_BEEF);
    for i in 0..13 {
        if i != 3 {
            assert_eq!(arm.get_gpr(i), 0);
        }
    }
    assert_eq!(arm.get_cpsr(), cpsr_before);
}

#[test]
// add with S clear leaves every flag; adds with S set writes them.
fn s_clear_leaves_flags() {
    let mut bus = zero_bus();
    bus.write_word(0x0, 0xE081_0002); // add r0, r1, r2
    let mut arm = ARMv4::new(bus);
    let mut psr = arm.get_cpsr();
    psr.set_N(true);
    psr.set_Z(true);
    psr.set_C(true);
    psr.set_V(true);
    arm.set_cpsr(psr);
    arm.set_gpr(1, 0xFFFF_FFFF);
    arm.set_gpr(2, 1);
    for _ in 0..3 {
        let _ = arm.tick();
    }
    assert_eq!(arm.get_gpr(0), 0);
    assert_eq!(arm.get_cpsr(), psr);
}

#[test]
fn s_set_writes_flags() {
    let mut bus = zero_bus();
    bus.write_word(0x0, 0xE091_0002); // adds r0, r1, r2
    let mut arm = ARMv4::new(bus);
    arm.set_gpr(1, 0xFFFF_FFFF);
    arm.set_gpr(2, 1);
    for _ in 0..3 {
        let _ = arm.tick();
    }
    assert_eq!(arm.get_gpr(0), 0);
    assert!(arm.get_cpsr().get_Z());
    assert!(arm.get_cpsr().get_C());
    assert!(!arm.get_cpsr().get_N());
    assert!(!arm.get_cpsr().get_V());
}

#[test]
// A load away from the program counter keeps the pipeline primed: the
// following instructions execute back to back.
fn memory_keeps_pipeline_primed() {
    let mut bus = zero_bus();
    bus.write_word(0x0, 0xE5D0_1000); // ldrb r1, [r0]
    bus.write_word(0x4, 0xE3A0_2001); // mov r2, #1
    let mut arm = ARMv4::new(bus);
    arm.set_gpr(0, 0x100);
    for _ in 0..4 {
        assert!(arm.tick().is_ok());
    }
    assert_eq!(arm.get_gpr(PC), 0x10);
    assert_eq!(arm.get_gpr(2), 1);
}

#[test]
// stmdb with write-back moves the base down four bytes per listed
// register and stores the registers in ascending order.
fn stm_write_back_matches_popcount() {
    let mut bus = zero_bus();
    bus.write_word(0x0, 0xE922_000E); // stmdb r2!, {r1, r2, r3}
    let mut arm = ARMv4::new(bus);
    arm.set_gpr(1, 0x11);
    arm.set_gpr(2, 0x120);
    arm.set_gpr(3, 0x33);
    for _ in 0..3 {
        let _ = arm.tick();
    }
    assert_eq!(arm.get_gpr(2), 0x120 - 12);
    assert_eq!(arm.bus_word(0x114), 0x11);
    assert_eq!(arm.bus_word(0x118), 0x120);
    assert_eq!(arm.bus_word(0x11C), 0x33);
}

#[test]
// stm then ldm of the same base and list restores the registers the
// program clobbered in between.
fn stm_ldm_round_trip() {
    let mut bus = zero_bus();
    bus.write_word(0x0, 0xE880_00F0); // stmia r0, {r4-r7}
    bus.write_word(0x4, 0xE3A0_4000); // mov r4, #0
    bus.write_word(0x8, 0xE3A0_5000); // mov r5, #0
    bus.write_word(0xC, 0xE890_00F0); // ldmia r0, {r4-r7}
    let mut arm = ARMv4::new(bus);
    arm.set_gpr(0, 0x100);
    arm.set_gpr(4, 0x4444_4444);
    arm.set_gpr(5, 0x5555_5555);
    arm.set_gpr(6, 0x6666_6666);
    arm.set_gpr(7, 0x7777_7777);
    for _ in 0..6 {
        assert!(arm.tick().is_ok());
    }
    assert_eq!(arm.get_gpr(0), 0x100);
    assert_eq!(arm.get_gpr(4), 0x4444_4444);
    assert_eq!(arm.get_gpr(5), 0x5555_5555);
    assert_eq!(arm.get_gpr(6), 0x6666_6666);
    assert_eq!(arm.get_gpr(7), 0x7777_7777);
}

#[test]
// An unsupported word is reported and leaves the CPU exactly as it was.
fn unsupported_encoding_leaves_state() {
    let mut bus = zero_bus();
    bus.write_word(0x0, 0xE600_0010);
    let mut arm = warmed_up(bus);
    assert_eq!(arm.get_gpr(PC), 8);
    assert_eq!(arm.tick(), Err(ArmError::UnsupportedEncoding));
    assert_eq!(arm.get_gpr(PC), 8);
    assert_eq!(arm.tick(), Err(ArmError::UnsupportedEncoding));
    assert_eq!(arm.get_gpr(PC), 8);
}

#[test]
// Post-indexing with write-back on a single transfer is reserved.
fn unsupported_indexing_mode_is_reported() {
    let mut bus = zero_bus();
    bus.write_word(0x0, 0xE4B1_0000); // ldrt-style P=0 W=1
    let mut arm = warmed_up(bus);
    arm.set_gpr(1, 0x100);
    assert_eq!(arm.tick(), Err(ArmError::UnsupportedIndexingMode));
    assert_eq!(arm.get_gpr(PC), 8);
    assert_eq!(arm.get_gpr(1), 0x100);
}

#[test]
// A multiply that names the program counter as Rd is not a legal
// encoding.
fn multiply_into_pc_is_reported() {
    let mut bus = zero_bus();
    bus.write_word(0x0, 0xE00F_0392); // mul r15, r2, r3
    let mut arm = warmed_up(bus);
    arm.set_gpr(2, 3);
    arm.set_gpr(3, 5);
    assert_eq!(arm.tick(), Err(ArmError::UnsupportedEncoding));
    assert_eq!(arm.get_gpr(PC), 8);
}

#[test]
// An S=1 block transfer is refused in user mode.
fn privileged_access_is_reported() {
    let dec = BaseDecoder { cond: Condition::AL, opcode: Opcode::LDM, raw: 0xE8F0_0FF0 };
    let mut gpr = [0u32; 16];
    let mut bus = zero_bus();
    let mut cpsr = PSR::default();
    let spsr = PSR::default();
    let r = exec_ldm(&dec, &mut gpr, &mut bus, &mut cpsr, spsr, true);
    assert_eq!(r, Err(ArmError::PrivilegedAccess));
    assert_eq!(gpr, [0u32; 16]);
}

#[test]
// A failed condition skips the instruction and advances the program
// counter.
fn failed_condition_skips() {
    let mut bus = zero_bus();
    bus.write_word(0x0, 0x03A0_0001); // moveq r0, #1 with Z clear
    let mut arm = warmed_up(bus);
    assert!(arm.tick().is_ok());
    assert_eq!(arm.get_gpr(0), 0);
    assert_eq!(arm.get_gpr(PC), 12);
}

#[test]
fn condition_table_follows_the_flags() {
    let mut psr = PSR(0);
    assert!(condition_passed(Condition::AL, &psr));
    assert!(!condition_passed(Condition::EQ, &psr));
    assert!(condition_passed(Condition::NE, &psr));
    assert!(condition_passed(Condition::GE, &psr));
    assert!(!condition_passed(Condition::LT, &psr));
    psr.set_Z(true);
    assert!(condition_passed(Condition::EQ, &psr));
    assert!(condition_passed(Condition::LS, &psr));
    assert!(!condition_passed(Condition::GT, &psr));
    psr.set_Z(false);
    psr.set_N(true);
    assert!(condition_passed(Condition::MI, &psr));
    assert!(!condition_passed(Condition::GE, &psr));
    psr.set_V(true);
    assert!(condition_passed(Condition::GE, &psr));
    psr.set_C(true);
    assert!(condition_passed(Condition::CS_HS, &psr));
    assert!(condition_passed(Condition::HI, &psr));
}

#[test]
// reset returns to the entry state and re-arms the warm-up.
fn reset_rearms_the_pipeline() {
    let mut bus = zero_bus();
    bus.write_word(0x0, 0xE3A0_0001);
    let mut arm = ARMv4::new(bus);
    for _ in 0..3 {
        let _ = arm.tick();
    }
    assert_eq!(arm.get_gpr(0), 1);
    arm.reset();
    assert_eq!(arm.get_gpr(PC), 0);
    assert_eq!(arm.get_cpsr().0, 0xD3);
    let _ = arm.tick();
    let _ = arm.tick();
    assert_eq!(arm.get_gpr(PC), 8);
    let _ = arm.tick();
    assert_eq!(arm.get_gpr(0), 1);
}
