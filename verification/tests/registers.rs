use armv4::registers::psr::{Mode, State, PSR};
use armv4::registers::{ARMRegisters, Registers};

#[test]
fn psr_default_is_supervisor_with_interrupts_masked() {
    let psr = PSR::default();
    assert_eq!(psr.0, 0xD3);
    assert!(psr.irq_disabled());
    assert!(psr.fiq_disabled());
    assert_eq!(psr.state(), State::ARM);
    assert_eq!(psr.mode(), Mode::Supervisor);
}

#[test]
fn psr_flag_setters_touch_only_their_bit() {
    let mut psr = PSR(0);
    psr.set_N(true);
    psr.set_C(true);
    assert!(psr.get_N());
    assert!(!psr.get_Z());
    assert!(psr.get_C());
    assert!(!psr.get_V());
    psr.set_N(false);
    assert!(!psr.get_N());
    assert!(psr.get_C());
    assert_eq!(psr.0, 0x2000_0000);
}

#[test]
fn psr_interrupt_bits_toggle() {
    let mut psr = PSR(0);
    psr.disable_irq();
    psr.disable_fiq();
    assert!(psr.irq_disabled());
    assert!(psr.fiq_disabled());
    psr.enable_irq();
    assert!(!psr.irq_disabled());
    assert!(psr.fiq_disabled());
    psr.enable_fiq();
    assert_eq!(psr.0, 0);
}

#[test]
fn psr_mode_round_trips_through_bits() {
    let mut psr = PSR(0);
    for mode in [
        Mode::User,
        Mode::FIQ,
        Mode::IRQ,
        Mode::Supervisor,
        Mode::Abort,
        Mode::Undefined,
        Mode::System,
    ] {
        psr.set_mode(mode);
        assert_eq!(psr.mode(), mode);
        assert_eq!(psr.0 & 0x1F, mode.as_bits());
    }
}

#[test]
fn psr_state_bit_round_trips() {
    let mut psr = PSR(0);
    psr.set_state(State::THUMB);
    assert_eq!(psr.state(), State::THUMB);
    psr.set_state(State::ARM);
    assert_eq!(psr.state(), State::ARM);
    assert_eq!(psr.0, 0);
}

#[test]
fn psr_clear_reserved_bits_masks() {
    let mut psr = PSR(0xFFFF_FFFF);
    psr.clear_reserved_bits();
    assert_eq!(psr.0, 0xF000_00FF);
}

#[test]
fn psr_set_overwrites_the_word() {
    let mut psr = PSR(0x1234_5678);
    psr.set(0xD3);
    assert_eq!(psr.0, 0xD3);
}

#[test]
fn arm_registers_get_and_set() {
    let mut regs = ARMRegisters::new();
    assert_eq!(regs.get(0), 0);
    assert_eq!(regs.get(15), 0);
    regs.set(3, 0xAA55);
    assert_eq!(regs.get(3), 0xAA55);
    assert_eq!(regs.get(4), 0);
}
