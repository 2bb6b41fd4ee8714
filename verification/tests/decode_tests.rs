use rustboy::instruction::parse;
use rustboy::instruction::parse_cb;
use rustboy::instruction::CB_Instruction;
use rustboy::instruction::Instruction;

/// The opcodes real hardware leaves undefined.
const UNDEFINED: [u8; 11] = [
    0xD3, 0xDB, 0xDD, 0xE3, 0xE4, 0xEB, 0xEC, 0xED, 0xF4, 0xFC, 0xFD,
];

#[test]
fn test_decode_total() {
    for byte in 0..=255u8 {
        let decoded = parse(byte);
        let undefined = UNDEFINED.contains(&byte);
        assert_eq!(decoded.is_some(), !undefined, "opcode {:#04x}", byte);
    }
}

#[test]
fn test_decode_cb_total() {
    for byte in 0..=255u8 {
        // Every CB-prefixed opcode decodes to some bit operation.
        let _ = parse_cb(byte);
    }
}

#[test]
fn test_decode_spot_checks() {
    assert_eq!(parse(0x00), Some(Instruction::NOP));
    assert_eq!(parse(0x76), Some(Instruction::HALT));
    assert_eq!(parse(0x41), Some(Instruction::LD_r1_r2(0, 1)));
    assert_eq!(parse(0x36), Some(Instruction::LD_r1_n(6)));
    assert_eq!(parse(0x80), Some(Instruction::ADD_n(0)));
    assert_eq!(parse(0x86), Some(Instruction::ADD_n(6)));
    assert_eq!(parse(0xC6), Some(Instruction::ADD_n(8)));
    assert_eq!(parse(0x9F), Some(Instruction::SBC_n(7)));
    assert_eq!(parse(0x34), Some(Instruction::INC_n(6)));
    assert_eq!(parse(0x3D), Some(Instruction::DEC_n(7)));
    assert_eq!(parse(0x39), Some(Instruction::ADD_HL_nn(3)));
    assert_eq!(parse(0xC3), Some(Instruction::JP_nn));
    assert_eq!(parse(0xDA), Some(Instruction::JP_cc_nn(3)));
    assert_eq!(parse(0x38), Some(Instruction::JR_cc_n(3)));
    assert_eq!(parse(0xEF), Some(Instruction::RST_n(0x28)));
    assert_eq!(parse(0xCB), Some(Instruction::CB));
    assert_eq!(parse(0xD9), Some(Instruction::RETI));
}

#[test]
fn test_decode_cb_spot_checks() {
    assert_eq!(parse_cb(0x00), CB_Instruction::RLC_n(0));
    assert_eq!(parse_cb(0x11), CB_Instruction::RL_n(1));
    assert_eq!(parse_cb(0x1A), CB_Instruction::RR_n(2));
    assert_eq!(parse_cb(0x27), CB_Instruction::SLA_n(7));
    assert_eq!(parse_cb(0x2E), CB_Instruction::SRA_n(6));
    assert_eq!(parse_cb(0x37), CB_Instruction::SWAP_n(7));
    assert_eq!(parse_cb(0x3F), CB_Instruction::SRL_n(7));
    assert_eq!(parse_cb(0x40), CB_Instruction::BIT_b_r(0, 0));
    assert_eq!(parse_cb(0x7E), CB_Instruction::BIT_b_r(7, 6));
    assert_eq!(parse_cb(0x87), CB_Instruction::RES_b_r(0, 7));
    assert_eq!(parse_cb(0xFF), CB_Instruction::SET_b_r(7, 7));
}
