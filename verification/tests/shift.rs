use armv4::instructions::arm::shift::{asr, is_carry_over, lsl, lsr, ror, shift};
use armv4::types::Shift;

#[test]
fn test_ror() {
    assert_eq!(ror(0xA5A5_5A5A, 4), 0xAA5A_55A5);
}

#[test]
fn test_asr() {
    assert_eq!(ror(0xA5A5_5A5A, 4), 0xAA5A_55A5);
}

#[test]
fn test_carry_lsl() {
    assert_eq!(is_carry_over(Shift::LSL, 0x8000_0000, 1), Some(true));
}

#[test]
fn test_without_carry_lsl() {
    assert_eq!(is_carry_over(Shift::LSL, 0x8000_0000, 2), Some(false));
}

#[test]
fn test_carry_ror() {
    assert_eq!(is_carry_over(Shift::ROR, 0x0000_0001, 1), Some(true));
}

#[test]
fn test_without_carry_ror() {
    assert_eq!(is_carry_over(Shift::ROR, 0x0000_0001, 2), Some(false));
}

#[test]
fn shift_amount_zero_is_identity() {
    for v in [0u32, 1, 0x8000_0000, 0xFFFF_FFFF, 0xA5A5_5A5A] {
        assert_eq!(shift(Shift::LSL, v, 0), v);
        assert_eq!(shift(Shift::LSR, v, 0), v);
        assert_eq!(shift(Shift::ASR, v, 0), v);
        assert_eq!(shift(Shift::ROR, v, 0), v);
    }
}

#[test]
fn carry_amount_zero_is_none() {
    for kind in [Shift::LSL, Shift::LSR, Shift::ASR, Shift::ROR] {
        assert_eq!(is_carry_over(kind, 0xFFFF_FFFF, 0), None);
    }
}

#[test]
fn asr_replicates_sign_bit() {
    assert_eq!(asr(0x8000_0000, 31), 0xFFFF_FFFF);
    assert_eq!(asr(0x7FFF_FFFF, 31), 0x0000_0000);
    assert_eq!(lsr(0x8000_0000, 31), 0x0000_0001);
    assert_eq!(lsl(0x0000_0003, 30), 0xC000_0000);
}
