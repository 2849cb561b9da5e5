use armv4::constants::{LR, PC};
use armv4::cpu::ARMv4;
use armv4::memory::ram::Ram;
use armv4::memory::writable::WordWritable;

fn mock_bus() -> Ram {
    Ram::new(vec![0; 1024])
}

fn run_immediately(arm: &mut ARMv4<Ram>) {
    for _ in 0..3 {
        let _ = arm.tick();
    }
}

fn set_carry(arm: &mut ARMv4<Ram>, c: bool) {
    let mut psr = arm.get_cpsr();
    psr.set_C(c);
    arm.set_cpsr(psr);
}

#[test]
// tick
fn increment_pc_by_tick() {
    let bus = mock_bus();
    let mut arm = ARMv4::new(bus);
    let _ = arm.tick();
    assert_eq!(arm.get_gpr(PC), 0x0000_0004);
}

#[test]
// mov r0, #1
fn mov_r0_imm1() {
    let mut bus = mock_bus();
    bus.write_word(0x0, 0xE3A0_0001);
    let mut arm = ARMv4::new(bus);
    run_immediately(&mut arm);
    assert_eq!(arm.get_gpr(0), 0x0000_0001);
}

#[test]
// and r3, r1, r2
// r3 <- r1 & r2
fn and_r3_r1_r2() {
    let mut bus = mock_bus();
    bus.write_word(0x0, 0xE001_3002);
    let mut arm = ARMv4::new(bus);
    arm.set_gpr(1, 0xAA55_55AA);
    arm.set_gpr(2, 0xA050_1122);
    run_immediately(&mut arm);
    assert_eq!(arm.get_gpr(3), 0xA050_1122);
}

#[test]
// eor r3, r1, r2
// r3 <- r1 ^ r2
fn eor_r3_r1_r2() {
    let mut bus = mock_bus();
    bus.write_word(0x0, 0xE021_3002);
    let mut arm = ARMv4::new(bus);
    arm.set_gpr(1, 0xAA55_55AA);
    arm.set_gpr(2, 0xA050_1122);
    run_immediately(&mut arm);
    assert_eq!(arm.get_gpr(3), 0x0A05_4488);
}

#[test]
// sub r3, r1, r2
// r3 <- r1 - r2
fn sub_r3_r1_r2() {
    let mut bus = mock_bus();
    bus.write_word(0x0, 0xE041_3002);
    let mut arm = ARMv4::new(bus);
    arm.set_gpr(1, 0xAA55_5588);
    arm.set_gpr(2, 0xA050_1122);
    run_immediately(&mut arm);
    assert_eq!(arm.get_gpr(3), 0x0A05_4466);
}

#[test]
// rsb r3, r1, r2
// r3 <- r2 - r1
fn rsb_r3_r1_r2() {
    let mut bus = mock_bus();
    bus.write_word(0x0, 0xE061_3002);
    let mut arm = ARMv4::new(bus);
    arm.set_gpr(1, 0x1234_5678);
    arm.set_gpr(2, 0x2345_6789);
    run_immediately(&mut arm);
    assert_eq!(arm.get_gpr(3), 0x1111_1111);
}

#[test]
// add r3, r1, r2
// r3 <- r1 + r2
fn add_r3_r1_r2() {
    let mut bus = mock_bus();
    bus.write_word(0x0, 0xE081_3002);
    let mut arm = ARMv4::new(bus);
    arm.set_gpr(1, 0x1234_5678);
    arm.set_gpr(2, 0x2345_6789);
    run_immediately(&mut arm);
    assert_eq!(arm.get_gpr(3), 0x3579_BE01);
}

#[test]
// adc r3, r1, r2
// r3 <- r1 + r2 + C
fn adc_r3_r1_r2() {
    let mut bus = mock_bus();
    bus.write_word(0x0, 0xE0A1_3002);
    let mut arm = ARMv4::new(bus);
    set_carry(&mut arm, true);
    arm.set_gpr(1, 0x1234_5678);
    arm.set_gpr(2, 0x2345_6789);
    run_immediately(&mut arm);
    assert_eq!(arm.get_gpr(3), 0x3579_BE02);
}

#[test]
// rsc r3, r1, r2 (the cmd field of this word is 0b0111)
// r3 <- r2 - r1 - !C
fn sbc_r3_r1_r2_with_set_c() {
    let mut bus = mock_bus();
    bus.write_word(0x0, 0xE0E1_3002);
    let mut arm = ARMv4::new(bus);
    set_carry(&mut arm, true);
    arm.set_gpr(1, 0x2345_6789);
    arm.set_gpr(2, 0x1234_5678);
    run_immediately(&mut arm);
    assert_eq!(arm.get_gpr(3), 0xEEEE_EEEF);
}

#[test]
// rsc r3, r1, r2 (the cmd field of this word is 0b0111)
// r3 <- r2 - r1 - !C
fn sbc_r3_r1_r2_with_cleared_c() {
    let mut bus = mock_bus();
    bus.write_word(0x0, 0xE0E1_3002);
    let mut arm = ARMv4::new(bus);
    set_carry(&mut arm, false);
    arm.set_gpr(1, 0x2345_6789);
    arm.set_gpr(2, 0x1234_5678);
    run_immediately(&mut arm);
    assert_eq!(arm.get_gpr(3), 0xEEEE_EEEE);
}

#[test]
// rsc r3, r1, r2
// r3 <- r2 - r1 -!C
fn rsc_r3_r1_r2() {
    let mut bus = mock_bus();
    bus.write_word(0x0, 0xE061_3002);
    let mut arm = ARMv4::new(bus);
    arm.set_gpr(1, 0x1234_5678);
    arm.set_gpr(2, 0x2345_6789);
    run_immediately(&mut arm);
    assert_eq!(arm.get_gpr(3), 0x1111_1111);
}

#[test]
// tst r0, r1
fn tst_r0_r1() {
    let mut bus = mock_bus();
    bus.write_word(0x0, 0xE110_0001);
    let mut arm = ARMv4::new(bus);
    arm.set_gpr(0, 0x8234_5678);
    arm.set_gpr(1, 0x8345_6789);
    run_immediately(&mut arm);
    assert_eq!(arm.get_cpsr().get_C(), false);
    assert_eq!(arm.get_cpsr().get_N(), true);
    assert_eq!(arm.get_cpsr().get_Z(), false);
}

#[test]
// tst r1, r2, asr #4
fn tst_r1_r2_asr_4_without_zero() {
    let mut bus = mock_bus();
    bus.write_word(0x0, 0xE111_0242);
    let mut arm = ARMv4::new(bus);
    arm.set_gpr(1, 0x8234_5678);
    arm.set_gpr(2, 0x80FF_0008);
    run_immediately(&mut arm);
    assert_eq!(arm.get_cpsr().get_C(), true);
    assert_eq!(arm.get_cpsr().get_N(), true);
    assert_eq!(arm.get_cpsr().get_Z(), false);
}

#[test]
// tst r1, r2, asr #4
fn tst_r1_r2_asr_4_with_zero() {
    let mut bus = mock_bus();
    bus.write_word(0x0, 0xE111_0242);
    let mut arm = ARMv4::new(bus);
    arm.set_gpr(1, 0x8234_5678);
    arm.set_gpr(2, 0x0000_0000);
    run_immediately(&mut arm);
    assert_eq!(arm.get_cpsr().get_C(), false);
    assert_eq!(arm.get_cpsr().get_N(), false);
    assert_eq!(arm.get_cpsr().get_Z(), true);
}

#[test]
// teq r1, r2
fn tst_r1_r2_equal() {
    let mut bus = mock_bus();
    bus.write_word(0x0, 0xE131_0002);
    let mut arm = ARMv4::new(bus);
    arm.set_gpr(1, 0x8234_5678);
    arm.set_gpr(2, 0x8234_5678);
    run_immediately(&mut arm);
    assert_eq!(arm.get_cpsr().get_C(), false);
    assert_eq!(arm.get_cpsr().get_N(), false);
    assert_eq!(arm.get_cpsr().get_Z(), true);
}

#[test]
// teq r1, r2
fn tst_r1_r2_not_equal() {
    let mut bus = mock_bus();
    bus.write_word(0x0, 0xE131_0002);
    let mut arm = ARMv4::new(bus);
    arm.set_gpr(1, 0x8234_5678);
    arm.set_gpr(2, 0x0234_5678);
    run_immediately(&mut arm);
    assert_eq!(arm.get_cpsr().get_C(), false);
    assert_eq!(arm.get_cpsr().get_N(), true);
    assert_eq!(arm.get_cpsr().get_Z(), false);
}

#[test]
// cmp r1, r2
fn cmp_r1_r2_carry() {
    let mut bus = mock_bus();
    bus.write_word(0x0, 0xE151_0002);
    let mut arm = ARMv4::new(bus);
    arm.set_gpr(1, 0x0000_0002);
    arm.set_gpr(2, 0x0000_0001);
    run_immediately(&mut arm);
    assert_eq!(arm.get_cpsr().get_C(), true);
    assert_eq!(arm.get_cpsr().get_N(), false);
    assert_eq!(arm.get_cpsr().get_Z(), false);
    assert_eq!(arm.get_cpsr().get_V(), false);
}

#[test]
// cmp r1, r2
fn cmp_r1_r2_without_carry() {
    let mut bus = mock_bus();
    bus.write_word(0x0, 0xE151_0002);
    let mut arm = ARMv4::new(bus);
    arm.set_gpr(1, 0x0000_0001);
    arm.set_gpr(2, 0x0000_0002);
    run_immediately(&mut arm);
    assert_eq!(arm.get_cpsr().get_C(), false);
    assert_eq!(arm.get_cpsr().get_N(), true);
    assert_eq!(arm.get_cpsr().get_Z(), false);
    assert_eq!(arm.get_cpsr().get_V(), false);
}

#[test]
// cmp r1, r2
fn cmp_r1_r2_with_overflow() {
    let mut bus = mock_bus();
    bus.write_word(0x0, 0xE151_0002);
    let mut arm = ARMv4::new(bus);
    arm.set_gpr(1, 0x8000_0000);
    arm.set_gpr(2, 0x0000_0001);
    run_immediately(&mut arm);
    assert_eq!(arm.get_cpsr().get_C(), true);
    assert_eq!(arm.get_cpsr().get_N(), false);
    assert_eq!(arm.get_cpsr().get_Z(), false);
    assert_eq!(arm.get_cpsr().get_V(), true);
}

#[test]
// cmn r1, r2
fn cmn_r1_r2_with_overflow() {
    let mut bus = mock_bus();
    bus.write_word(0x0, 0xE171_0001);
    let mut arm = ARMv4::new(bus);
    arm.set_gpr(1, 0x7FFF_FFFF);
    arm.set_gpr(2, 0x0000_0001);
    run_immediately(&mut arm);
    assert_eq!(arm.get_cpsr().get_C(), false);
    assert_eq!(arm.get_cpsr().get_N(), true);
    assert_eq!(arm.get_cpsr().get_Z(), false);
    assert_eq!(arm.get_cpsr().get_V(), true);
}

#[test]
// orr r1, r2, r3
fn orr_r1_r2_r3() {
    let mut bus = mock_bus();
    bus.write_word(0x0, 0xE182_1003);
    let mut arm = ARMv4::new(bus);
    arm.set_gpr(2, 0xAA55_55AA);
    arm.set_gpr(3, 0x5500_AA00);
    run_immediately(&mut arm);
    assert_eq!(arm.get_gpr(1), 0xFF55_FFAA);
}

#[test]
// lsl r1, r2, #16
fn lsl_r1_r2_16() {
    let mut bus = mock_bus();
    bus.write_word(0x0, 0xE1A0_1802);
    let mut arm = ARMv4::new(bus);
    arm.set_gpr(2, 0x0000_AA55);
    run_immediately(&mut arm);
    assert_eq!(arm.get_gpr(1), 0xAA55_0000);
}

#[test]
// lsr r1, r2, #16
fn lsr_r1_r2_16() {
    let mut bus = mock_bus();
    bus.write_word(0x0, 0xE1A0_1822);
    let mut arm = ARMv4::new(bus);
    arm.set_gpr(2, 0x00AA_AA55);
    run_immediately(&mut arm);
    assert_eq!(arm.get_gpr(1), 0x0000_00AA);
}

#[test]
// asr r1, r2, #16
fn asr_r1_r2_16() {
    let mut bus = mock_bus();
    bus.write_word(0x0, 0xE1A0_1842);
    let mut arm = ARMv4::new(bus);
    arm.set_gpr(2, 0x80AA_AA55);
    run_immediately(&mut arm);
    assert_eq!(arm.get_gpr(1), 0xFFFF_80AA);
}

#[test]
// rrx r2, r1
fn rrx_r2_r1() {
    let mut bus = mock_bus();
    bus.write_word(0x0, 0xE1A0_2061);
    let mut arm = ARMv4::new(bus);
    arm.set_gpr(1, 0x00AA_AA55);
    set_carry(&mut arm, true);
    run_immediately(&mut arm);
    assert_eq!(arm.get_gpr(2), 0x8055_552A);
}

#[test]
// ror r1, r2, #16
fn ror_r1_r2_16() {
    let mut bus = mock_bus();
    bus.write_word(0x0, 0xE1A0_1862);
    let mut arm = ARMv4::new(bus);
    arm.set_gpr(2, 0x00AA_AA55);
    run_immediately(&mut arm);
    assert_eq!(arm.get_gpr(1), 0xAA55_00AA);
}

#[test]
// bic r1, r2, r3
fn bic_r1_r2_r3() {
    let mut bus = mock_bus();
    bus.write_word(0x0, 0xE1C2_1003);
    let mut arm = ARMv4::new(bus);
    arm.set_gpr(2, 0x00AA_AA55);
    arm.set_gpr(3, 0x00AA_AAAA);
    run_immediately(&mut arm);
    assert_eq!(arm.get_gpr(1), 0x0000_0055);
}

#[test]
// mvn r1, r2
fn mvn_r1_r2() {
    let mut bus = mock_bus();
    bus.write_word(0x0, 0xE1E0_1002);
    let mut arm = ARMv4::new(bus);
    arm.set_gpr(2, 0x00AA_AA55);
    run_immediately(&mut arm);
    assert_eq!(arm.get_gpr(1), 0xFF55_55AA);
}

#[test]
// mul r1, r2, r3
fn mul_r1_r2_r3() {
    let mut bus = mock_bus();
    bus.write_word(0x0, 0xE001_0392);
    let mut arm = ARMv4::new(bus);
    arm.set_gpr(2, 0xF000_0000);
    arm.set_gpr(3, 2);
    run_immediately(&mut arm);
    assert_eq!(arm.get_gpr(1), 0xE000_0000);
}

#[test]
// mla r1, r2, r3, r4
fn mla_r1_r2_r3_r4() {
    let mut bus = mock_bus();
    bus.write_word(0x0, 0xE021_4392);
    let mut arm = ARMv4::new(bus);
    arm.set_gpr(2, 0xF000_0000);
    arm.set_gpr(3, 2);
    arm.set_gpr(4, 0xAA55);
    run_immediately(&mut arm);
    assert_eq!(arm.get_gpr(1), 0xE000_AA55);
}

#[test]
// umull r1, r2, r3, r4
fn umull_r1_r2_r3_r4() {
    let mut bus = mock_bus();
    bus.write_word(0x0, 0xE082_1493);
    let mut arm = ARMv4::new(bus);
    arm.set_gpr(3, 0x7000_0001);
    arm.set_gpr(4, 0x0070_0000);
    run_immediately(&mut arm);
    assert_eq!(arm.get_gpr(1), 0x0070_0000);
    assert_eq!(arm.get_gpr(2), 0x0031_0000);
}

#[test]
// umlal r1, r2, r3, r4
fn umlal_r1_r2_r3_r4() {
    let mut bus = mock_bus();
    bus.write_word(0x0, 0xE0A2_1493);
    let mut arm = ARMv4::new(bus);
    arm.set_gpr(1, 0x0000_0001);
    arm.set_gpr(2, 0x0000_0002);
    arm.set_gpr(3, 0x7000_0001);
    arm.set_gpr(4, 0x0070_0000);
    run_immediately(&mut arm);
    assert_eq!(arm.get_gpr(2), 0x0031_0002);
}

#[test]
// smull r1, r2, r3, r4
fn smull_r1_r2_r3_r4() {
    let mut bus = mock_bus();
    bus.write_word(0x0, 0xE0C2_1493);
    let mut arm = ARMv4::new(bus);
    arm.set_gpr(3, 0xFFFF_FFFE);
    arm.set_gpr(4, 0x7FFF_FFFF);
    run_immediately(&mut arm);
    assert_eq!(arm.get_gpr(1), 0x0000_0002);
    assert_eq!(arm.get_gpr(2), 0xFFFF_FFFF);
}

#[test]
// smlal r1, r2, r3, r4
fn smlal_r1_r2_r3_r4() {
    let mut bus = mock_bus();
    bus.write_word(0x0, 0xE0E2_1493);
    let mut arm = ARMv4::new(bus);
    arm.set_gpr(1, 0xFFFF_FFFF);
    arm.set_gpr(2, 0xFFFF_FFFF);
    arm.set_gpr(3, 0xFFFF_FFFE);
    arm.set_gpr(4, 0x7FFF_FFFF);
    run_immediately(&mut arm);
    assert_eq!(arm.get_gpr(1), 0x0000_0001);
    assert_eq!(arm.get_gpr(2), 0xFFFF_FFFF);
}

#[test]
// ldr pc, =0x8000_0000
fn ldr_pc_eq0x8000_0000() {
    let mut bus = mock_bus();
    bus.write_word(0x0, 0xE51F_F004);
    bus.write_word(0x4, 0x8000_0000);
    let mut arm = ARMv4::new(bus);
    run_immediately(&mut arm);
    assert_eq!(arm.get_gpr(PC), 0x8000_0000);
}

#[test]
// LDR offset addressing
// ldrb r1, [r0]
fn ldrb_r1_r0() {
    let mut bus = mock_bus();
    bus.write_word(0x0, 0xE5D0_1000);
    bus.write_word(0x100, 0xAAAA_5555);
    let mut arm = ARMv4::new(bus);
    arm.set_gpr(0, 0x100);
    run_immediately(&mut arm);
    assert_eq!(arm.get_gpr(1), 0x55);
    assert_eq!(arm.get_gpr(0), 0x0000_0100);
}

#[test]
// LDR post index addressing
// ldr	r0, [r1], #4
fn ldrb_r0_r1_4() {
    let mut bus = mock_bus();
    bus.write_word(0x0, 0xE491_0004);
    bus.write_word(0x100, 0xAAAA_5555);
    let mut arm = ARMv4::new(bus);
    arm.set_gpr(1, 0x100);
    run_immediately(&mut arm);
    assert_eq!(arm.get_gpr(0), 0xAAAA_5555);
    assert_eq!(arm.get_gpr(1), 0x0104);
}

#[test]
// ldr r8, [r9, r2, lsl #2]
// R8 <- mem[r9 + (r2 << 2)]
fn ldr_r8_r9_r2_lsl_2() {
    let mut bus = mock_bus();
    bus.write_word(0x0, 0xE799_8102);
    bus.write_word(0x140, 0xAA55_55AA);
    let mut arm = ARMv4::new(bus);
    arm.set_gpr(2, 0x10);
    arm.set_gpr(9, 0x100);
    run_immediately(&mut arm);
    assert_eq!(arm.get_gpr(8), 0xAA55_55AA);
}

#[test]
// str r4, [r3]
fn str_r4_r3() {
    let mut bus = mock_bus();
    bus.write_word(0x0, 0xE583_4000);
    let mut arm = ARMv4::new(bus);
    arm.set_gpr(3, 0x200);
    arm.set_gpr(4, 0xAA55_55AA);
    run_immediately(&mut arm);
    assert_eq!(arm.bus_word(0x200), 0xAA55_55AA);
}

#[test]
// strb r4, [r3]
fn strb_r4_r3() {
    let mut bus = mock_bus();
    bus.write_word(0x0, 0xE5C3_4000);
    let mut arm = ARMv4::new(bus);
    arm.set_gpr(3, 0x200);
    arm.set_gpr(4, 0x1155_55AA);
    run_immediately(&mut arm);
    assert_eq!(arm.bus_word(0x200), 0x0000_00AA);
}

#[test]
// strh r1, [r2]
fn strh_r1_r2() {
    let mut bus = mock_bus();
    bus.write_word(0x0, 0xE1C2_10B0);
    let mut arm = ARMv4::new(bus);
    arm.set_gpr(2, 0x200);
    arm.set_gpr(1, 0x1155_55AA);
    run_immediately(&mut arm);
    assert_eq!(arm.bus_word(0x200), 0x0000_55AA);
}

#[test]
// strh r1, [r2, 0xff]
fn strh_r1_r2_0xff() {
    let mut bus = mock_bus();
    bus.write_word(0x0, 0xE1C2_1FBF);
    let mut arm = ARMv4::new(bus);
    arm.set_gpr(2, 0x200);
    arm.set_gpr(1, 0x1155_55AA);
    run_immediately(&mut arm);
    assert_eq!(arm.bus_word(0x2FF), 0x0000_55AA);
}

#[test]
// ldrh r1, [r2]
fn ldrh_r1_r2() {
    let mut bus = mock_bus();
    bus.write_word(0x0, 0xE1D2_10B0);
    bus.write_word(0x200, 0xA5A5_5A5A);
    let mut arm = ARMv4::new(bus);
    arm.set_gpr(2, 0x200);
    run_immediately(&mut arm);
    assert_eq!(arm.get_gpr(1), 0x0000_5A5A);
}

#[test]
// ldrsb r1, [r2]
fn ldrsb_r1_r2() {
    let mut bus = mock_bus();
    bus.write_word(0x0, 0xE1D2_10D0);
    bus.write_word(0x200, 0xA5A5_5AFF);
    let mut arm = ARMv4::new(bus);
    arm.set_gpr(2, 0x200);
    run_immediately(&mut arm);
    assert_eq!(arm.get_gpr(1), 0xFFFF_FFFF);
}

#[test]
// ldrsh r1, [r2]
fn ldrsh_r1_r2() {
    let mut bus = mock_bus();
    bus.write_word(0x0, 0xE1D2_10D0);
    bus.write_word(0x200, 0xA5A5_FFFE);
    let mut arm = ARMv4::new(bus);
    arm.set_gpr(2, 0x200);
    run_immediately(&mut arm);
    assert_eq!(arm.get_gpr(1), 0xFFFF_FFFE);
}

#[test]
// b pc-2
fn b_pc_sub_2() {
    let mut bus = mock_bus();
    bus.write_word(0x0000_0000, 0xEAFF_FFFE);
    let mut arm = ARMv4::new(bus);
    run_immediately(&mut arm);
    assert_eq!(arm.get_gpr(PC), 0x0000_0000);
}

#[test]
// bl pc-2
fn bl_pc_sub_2() {
    let mut bus = mock_bus();
    bus.write_word(0x0000_0000, 0xEBFF_FFFE);
    let mut arm = ARMv4::new(bus);
    run_immediately(&mut arm);
    assert_eq!(arm.get_gpr(PC), 0x0000_0000);
    assert_eq!(arm.get_gpr(LR), 0x0000_0004);
}

#[test]
// ldm r0!, {r4-r11}
// Load 8 words from the source
fn ldm_r0_r4_r11() {
    let mut bus = mock_bus();
    bus.write_word(0x0000_0000, 0xE8B0_0FF0);
    for i in 0..0x10 {
        bus.write_word(0x100 + (i * 4), 0xA000_0000 + i);
    }
    let mut arm = ARMv4::new(bus);
    arm.set_gpr(0, 0x100);
    run_immediately(&mut arm);
    assert_eq!(arm.get_gpr(PC), 0x0000_000C);
    assert_eq!(arm.get_gpr(0), 0x0000_0120);
    assert_eq!(arm.get_gpr(4), 0xA000_0000);
    assert_eq!(arm.get_gpr(5), 0xA000_0001);
    assert_eq!(arm.get_gpr(6), 0xA000_0002);
    assert_eq!(arm.get_gpr(7), 0xA000_0003);
    assert_eq!(arm.get_gpr(8), 0xA000_0004);
    assert_eq!(arm.get_gpr(9), 0xA000_0005);
    assert_eq!(arm.get_gpr(10), 0xA000_0006);
    assert_eq!(arm.get_gpr(11), 0xA000_0007);
    assert_eq!(arm.get_gpr(12), 0x0000_0000);
}

#[test]
// stm r0!, {r4-r11}
// Store 8 words from the source
fn stm_r0_r4_r11() {
    let mut bus = mock_bus();
    bus.write_word(0x0000_0000, 0xE8A0_0FF0);
    let mut arm = ARMv4::new(bus);
    arm.set_gpr(0, 0x100);
    for i in 0..8 {
        arm.set_gpr(4 + i, 0xA000_0000 + i as u32);
    }
    run_immediately(&mut arm);
    assert_eq!(arm.get_gpr(PC), 0x0000_000C);
    assert_eq!(arm.get_gpr(0), 0x0000_0120);
    assert_eq!(arm.bus_word(0x0000_0100), 0xA000_0000);
    assert_eq!(arm.bus_word(0x0000_0104), 0xA000_0001);
    assert_eq!(arm.bus_word(0x0000_0108), 0xA000_0002);
    assert_eq!(arm.bus_word(0x0000_010C), 0xA000_0003);
    assert_eq!(arm.bus_word(0x0000_0110), 0xA000_0004);
    assert_eq!(arm.bus_word(0x0000_0114), 0xA000_0005);
    assert_eq!(arm.bus_word(0x0000_0118), 0xA000_0006);
    assert_eq!(arm.bus_word(0x0000_011c), 0xA000_0007);
}
