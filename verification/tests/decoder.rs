use armv4::decoder::arm::{decode, is_load, BaseDecoder, Condition, Decoded, Decoder, IndexMode, Opcode, Raw};
use armv4::instructions::arm::Instruction;
use armv4::instructions::ArmError;

fn opcode_of(raw: u32) -> Opcode {
    match decode(raw).unwrap() {
        Decoded::Base(d) => d.opcode,
        Decoded::Multiple(d) => d.0.opcode,
        Decoded::ExtraMemory(d) => d.0.opcode,
    }
}

#[test]
fn decode_classifies_supported_words() {
    assert_eq!(opcode_of(0xE3A0_0001), Opcode::MOV);
    assert_eq!(opcode_of(0xE001_3002), Opcode::AND);
    assert_eq!(opcode_of(0xE151_0002), Opcode::CMP);
    assert_eq!(opcode_of(0xE5D0_1000), Opcode::LDRB);
    assert_eq!(opcode_of(0xE583_4000), Opcode::STR);
    assert_eq!(opcode_of(0xE1C2_10B0), Opcode::STRH);
    assert_eq!(opcode_of(0xE8B0_0FF0), Opcode::LDM);
    assert_eq!(opcode_of(0xE8A0_0FF0), Opcode::STM);
    assert_eq!(opcode_of(0xEAFF_FFFE), Opcode::B);
    assert_eq!(opcode_of(0xEBFF_FFFE), Opcode::BL);
    assert_eq!(opcode_of(0xE001_0392), Opcode::MUL);
    assert_eq!(opcode_of(0xE082_1493), Opcode::UMULL);
    assert_eq!(opcode_of(0xE1A0_2061), Opcode::RRX);
    assert_eq!(opcode_of(0xE1A0_1862), Opcode::ROR);
}

#[test]
fn decode_keeps_the_condition() {
    match decode(0x03A0_0001).unwrap() {
        Decoded::Base(d) => assert_eq!(d.cond, Condition::EQ),
        _ => panic!("expected a base decoder"),
    }
    match decode(0xE3A0_0001).unwrap() {
        Decoded::Base(d) => assert_eq!(d.cond, Condition::AL),
        _ => panic!("expected a base decoder"),
    }
}

#[test]
fn decode_refuses_the_reserved_condition() {
    assert_eq!(decode(0xF3A0_0001), Err(ArmError::UnsupportedEncoding));
}

#[test]
fn decode_refuses_the_undefined_class() {
    assert_eq!(decode(0xE600_0010), Err(ArmError::UnsupportedEncoding));
}

#[test]
fn decode_refuses_compare_without_s() {
    // cmd = 0b1000 (TST) with the S bit clear is a reserved encoding.
    assert_eq!(decode(0xE100_0000), Err(ArmError::UnsupportedEncoding));
}

#[test]
fn decode_refuses_extra_memory_stores_of_signed_forms() {
    // op2 = 0b00 inside the extra-memory class is reserved.
    assert_eq!(decode(0xE040_0090), Err(ArmError::UnsupportedEncoding));
}

#[test]
fn field_accessors_view_the_raw_word() {
    let d = BaseDecoder { cond: Condition::AL, opcode: Opcode::LDR, raw: 0xE791_8102 };
    assert_eq!(d.get_Rn(), 1);
    assert_eq!(d.get_Rd(), 8);
    assert_eq!(d.get_Rm(), 2);
    assert_eq!(d.get_shamt5(), 2);
    assert_eq!(d.raw(), 0xE791_8102);
    assert!(d.is_pre_indexed());
    assert!(d.is_plus_offset());
    assert!(!d.is_minus_offset());
    assert!(!d.is_write_back());
    assert!(d.is_load());
    assert_eq!(d.get_memory_index_mode(), IndexMode::Offset);
}

#[test]
fn index_mode_follows_p_and_w() {
    let post = BaseDecoder { cond: Condition::AL, opcode: Opcode::LDR, raw: 0xE491_0004 };
    assert_eq!(post.get_memory_index_mode(), IndexMode::PostIndex);
    let unsupported = BaseDecoder { cond: Condition::AL, opcode: Opcode::LDR, raw: 0xE4B1_0000 };
    assert_eq!(unsupported.get_memory_index_mode(), IndexMode::Unsupported);
    let pre = BaseDecoder { cond: Condition::AL, opcode: Opcode::LDR, raw: 0xE5B1_0000 };
    assert_eq!(pre.get_memory_index_mode(), IndexMode::PreIndex);
}

#[test]
fn is_load_reads_bit_twenty() {
    assert!(is_load(0xE491_0004));
    assert!(!is_load(0xE481_0004));
}

#[test]
fn instruction_decode_recognises_mov() {
    let insn = Instruction::decode(0xE3A0_0001);
    assert_eq!(insn.opcode(), armv4::instructions::arm::Opcode::MOV);
    assert_eq!(insn.category, armv4::instructions::arm::Category::DataProcessing);
    assert_eq!(insn.raw, 0xE3A0_0001);
    assert_eq!(insn.get_Rd(), 0);
    assert_eq!(insn.get_src2(), 1);
    assert!(insn.has_I());
}

#[test]
fn instruction_decode_recognises_memory_words() {
    let insn = Instruction::decode(0xE591_2004);
    assert_eq!(insn.category, armv4::instructions::arm::Category::Memory);
    assert_eq!(insn.get_Rn(), 1);
    assert_eq!(insn.get_Rd(), 2);
}
