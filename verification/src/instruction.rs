//! Instruction decoding: a total map from each of the 256 primary opcodes to
//! a tagged instruction variant (or `None` for the handful of opcodes the
//! hardware leaves undefined), and a second total map for the 256
//! `0xCB`-prefixed bit-operation opcodes.
//!
//! Variants carry only the operand-selector bits extracted from the opcode:
//! a 3-bit register index `r` (`0..=5` for B, C, D, E, H, L, `6` for memory
//! at HL, `7` for A, and `8` for an immediate operand byte), a 2-bit
//! register-pair index, a 2-bit condition-code index, or a 3-bit bit number.

use vstd::prelude::*;

verus! {

#[allow(non_camel_case_types)]
#[derive(Debug, PartialEq, Clone, Copy)]
pub enum Instruction {
    LD_r1_n(u8),
    LD_r1_r2(u8, u8),
    LD_A_nnptr,
    LD_nnptr_A,
    LD_A_Cptr,
    LD_Cptr_A,

    LDD_A_HLptr,
    LDD_HLptr_A,
    LDI_A_HLptr,
    LDI_HLptr_A,

    LDH_nptr_A,
    LDH_A_nptr,

    LD_rr_nn,
    LD_SP_HL,
    LDHL_SPn,
    LD_nn_SP,

    PUSH_nn,
    POP_nn,

    ADD_n(u8),
    ADC_n(u8),
    SUB_n(u8),
    SBC_n(u8),
    AND_n(u8),
    OR_n(u8),
    XOR_n(u8),
    CP_n(u8),
    INC_n(u8),
    DEC_n(u8),

    ADD_HL_nn(u8),
    ADD_SP_n,
    INC_nn(u8),
    DEC_nn(u8),

    DAA,
    CPL,
    CCF,
    SCF,
    NOP,
    HALT,
    STOP,
    DI,
    EI,

    RLCA,
    RLA,
    RRCA,
    RRA,
    CB,

    JP_nn,
    JP_cc_nn(u8),
    JP_HLptr,
    JR_n,
    JR_cc_n(u8),

    CALL_nn,
    CALL_cc_nn(u8),

    RST_n(u8),
    RET,
    RET_cc(u8),
    RETI,
}

#[allow(non_camel_case_types)]
#[derive(Debug, PartialEq, Clone, Copy)]
pub enum CB_Instruction {
    BIT_b_r(u8, u8),
    RES_b_r(u8, u8),
    SET_b_r(u8, u8),

    RL_n(u8),
    RLC_n(u8),
    RR_n(u8),
    RRC_n(u8),
    SLA_n(u8),
    SRA_n(u8),
    SRL_n(u8),

    SWAP_n(u8),
}

/// The opcodes real hardware leaves undefined; `parse` maps exactly these
/// to `None`.
pub open spec fn spec_is_undefined_opcode(byte: u8) -> bool {
    byte == 0xD3 || byte == 0xDB || byte == 0xDD || byte == 0xE3 || byte == 0xE4 || byte == 0xEB
        || byte == 0xEC || byte == 0xED || byte == 0xF4 || byte == 0xFC || byte == 0xFD
}

/// The primary decode table as a mathematical map.
pub open spec fn spec_parse(byte: u8) -> Option<Instruction> {
    if byte == 0x76 {
        Some(Instruction::HALT)
    } else if 0x40 <= byte && byte <= 0x7F {
        Some(Instruction::LD_r1_r2((byte >> 3) & 7, byte & 7))
    } else if byte == 0x06 || byte == 0x0E || byte == 0x16 || byte == 0x1E || byte == 0x26
        || byte == 0x2E || byte == 0x36 || byte == 0x3E {
        Some(Instruction::LD_r1_n(((byte - 0x06) / 8) as u8))
    } else if byte == 0x0A || byte == 0x1A || byte == 0xFA {
        Some(Instruction::LD_A_nnptr)
    } else if byte == 0x02 || byte == 0x12 || byte == 0xEA {
        Some(Instruction::LD_nnptr_A)
    } else if byte == 0xF2 {
        Some(Instruction::LD_A_Cptr)
    } else if byte == 0xE2 {
        Some(Instruction::LD_Cptr_A)
    } else if byte == 0x3A {
        Some(Instruction::LDD_A_HLptr)
    } else if byte == 0x32 {
        Some(Instruction::LDD_HLptr_A)
    } else if byte == 0x2A {
        Some(Instruction::LDI_A_HLptr)
    } else if byte == 0x22 {
        Some(Instruction::LDI_HLptr_A)
    } else if byte == 0xE0 {
        Some(Instruction::LDH_nptr_A)
    } else if byte == 0xF0 {
        Some(Instruction::LDH_A_nptr)
    } else if byte == 0x01 || byte == 0x11 || byte == 0x21 || byte == 0x31 {
        Some(Instruction::LD_rr_nn)
    } else if byte == 0xF9 {
        Some(Instruction::LD_SP_HL)
    } else if byte == 0xF8 {
        Some(Instruction::LDHL_SPn)
    } else if byte == 0x08 {
        Some(Instruction::LD_nn_SP)
    } else if byte == 0xF5 || byte == 0xC5 || byte == 0xD5 || byte == 0xE5 {
        Some(Instruction::PUSH_nn)
    } else if byte == 0xF1 || byte == 0xC1 || byte == 0xD1 || byte == 0xE1 {
        Some(Instruction::POP_nn)
    } else if 0x80 <= byte && byte <= 0x87 {
        Some(Instruction::ADD_n(byte & 7))
    } else if byte == 0xC6 {
        Some(Instruction::ADD_n(8))
    } else if 0x88 <= byte && byte <= 0x8F {
        Some(Instruction::ADC_n(byte & 7))
    } else if byte == 0xCE {
        Some(Instruction::ADC_n(8))
    } else if 0x90 <= byte && byte <= 0x97 {
        Some(Instruction::SUB_n(byte & 7))
    } else if byte == 0xD6 {
        Some(Instruction::SUB_n(8))
    } else if 0x98 <= byte && byte <= 0x9F {
        Some(Instruction::SBC_n(byte & 7))
    } else if byte == 0xDE {
        Some(Instruction::SBC_n(8))
    } else if 0xA0 <= byte && byte <= 0xA7 {
        Some(Instruction::AND_n(byte & 7))
    } else if byte == 0xE6 {
        Some(Instruction::AND_n(8))
    } else if 0xA8 <= byte && byte <= 0xAF {
        Some(Instruction::XOR_n(byte & 7))
    } else if byte == 0xEE {
        Some(Instruction::XOR_n(8))
    } else if 0xB0 <= byte && byte <= 0xB7 {
        Some(Instruction::OR_n(byte & 7))
    } else if byte == 0xF6 {
        Some(Instruction::OR_n(8))
    } else if 0xB8 <= byte && byte <= 0xBF {
        Some(Instruction::CP_n(byte & 7))
    } else if byte == 0xFE {
        Some(Instruction::CP_n(8))
    } else if byte == 0x04 || byte == 0x0C || byte == 0x14 || byte == 0x1C || byte == 0x24
        || byte == 0x2C || byte == 0x34 || byte == 0x3C {
        Some(Instruction::INC_n(((byte - 0x04) / 8) as u8))
    } else if byte == 0x05 || byte == 0x0D || byte == 0x15 || byte == 0x1D || byte == 0x25
        || byte == 0x2D || byte == 0x35 || byte == 0x3D {
        Some(Instruction::DEC_n(((byte - 0x04) / 8) as u8))
    } else if byte == 0x09 || byte == 0x19 || byte == 0x29 || byte == 0x39 {
        Some(Instruction::ADD_HL_nn(((byte - 0x09) / 0x10) as u8))
    } else if byte == 0xE8 {
        Some(Instruction::ADD_SP_n)
    } else if byte == 0x03 || byte == 0x13 || byte == 0x23 || byte == 0x33 {
        Some(Instruction::INC_nn(((byte - 0x03) / 0x10) as u8))
    } else if byte == 0x0B || byte == 0x1B || byte == 0x2B || byte == 0x3B {
        Some(Instruction::DEC_nn(((byte - 0x0B) / 0x10) as u8))
    } else if byte == 0x27 {
        Some(Instruction::DAA)
    } else if byte == 0x2F {
        Some(Instruction::CPL)
    } else if byte == 0x3F {
        Some(Instruction::CCF)
    } else if byte == 0x37 {
        Some(Instruction::SCF)
    } else if byte == 0x00 {
        Some(Instruction::NOP)
    } else if byte == 0x10 {
        Some(Instruction::STOP)
    } else if byte == 0xF3 {
        Some(Instruction::DI)
    } else if byte == 0xFB {
        Some(Instruction::EI)
    } else if byte == 0x07 {
        Some(Instruction::RLCA)
    } else if byte == 0x17 {
        Some(Instruction::RLA)
    } else if byte == 0x0F {
        Some(Instruction::RRCA)
    } else if byte == 0x1F {
        Some(Instruction::RRA)
    } else if byte == 0xCB {
        Some(Instruction::CB)
    } else if byte == 0xC3 {
        Some(Instruction::JP_nn)
    } else if byte == 0xC2 || byte == 0xCA || byte == 0xD2 || byte == 0xDA {
        Some(Instruction::JP_cc_nn(((byte - 0xC2) / 8) as u8))
    } else if byte == 0xE9 {
        Some(Instruction::JP_HLptr)
    } else if byte == 0x18 {
        Some(Instruction::JR_n)
    } else if byte == 0x20 || byte == 0x28 || byte == 0x30 || byte == 0x38 {
        Some(Instruction::JR_cc_n(((byte - 0x20) / 8) as u8))
    } else if byte == 0xCD {
        Some(Instruction::CALL_nn)
    } else if byte == 0xC4 || byte == 0xCC || byte == 0xD4 || byte == 0xDC {
        Some(Instruction::CALL_cc_nn(((byte - 0xC4) / 8) as u8))
    } else if byte == 0xC7 || byte == 0xCF || byte == 0xD7 || byte == 0xDF || byte == 0xE7
        || byte == 0xEF || byte == 0xF7 || byte == 0xFF {
        Some(Instruction::RST_n((byte - 0xC7) as u8))
    } else if byte == 0xC9 {
        Some(Instruction::RET)
    } else if byte == 0xC0 || byte == 0xC8 || byte == 0xD0 || byte == 0xD8 {
        Some(Instruction::RET_cc(((byte - 0xC0) / 8) as u8))
    } else if byte == 0xD9 {
        Some(Instruction::RETI)
    } else {
        None
    }
}

/// The `0xCB`-prefixed decode table as a mathematical map; total over all
/// 256 byte values.
pub open spec fn spec_parse_cb(byte: u8) -> CB_Instruction {
    if byte < 0x08 {
        CB_Instruction::RLC_n(byte)
    } else if byte < 0x10 {
        CB_Instruction::RRC_n((byte - 0x08) as u8)
    } else if byte < 0x18 {
        CB_Instruction::RL_n((byte - 0x10) as u8)
    } else if byte < 0x20 {
        CB_Instruction::RR_n((byte - 0x18) as u8)
    } else if byte < 0x28 {
        CB_Instruction::SLA_n((byte - 0x20) as u8)
    } else if byte < 0x30 {
        CB_Instruction::SRA_n((byte - 0x28) as u8)
    } else if byte < 0x38 {
        CB_Instruction::SWAP_n((byte - 0x30) as u8)
    } else if byte < 0x40 {
        CB_Instruction::SRL_n((byte - 0x38) as u8)
    } else if byte < 0x80 {
        CB_Instruction::BIT_b_r(((byte - 0x40) / 8) as u8, ((byte - 0x40) % 8) as u8)
    } else if byte < 0xC0 {
        CB_Instruction::RES_b_r(((byte - 0x80) / 8) as u8, ((byte - 0x80) % 8) as u8)
    } else {
        CB_Instruction::SET_b_r(((byte - 0xC0) / 8) as u8, ((byte - 0xC0) % 8) as u8)
    }
}

/// Every operand selector a decoded instruction carries is in range: a
/// 3-bit register index (or 8 marking an immediate ALU operand), a 2-bit
/// register-pair or condition-code index, a restart offset.
pub open spec fn spec_instruction_wf(i: Instruction) -> bool {
    match i {
        Instruction::LD_r1_r2(r1, r2) => r1 < 8 && r2 < 8,
        Instruction::LD_r1_n(r1) => r1 < 8,
        Instruction::ADD_n(r) => r <= 8,
        Instruction::ADC_n(r) => r <= 8,
        Instruction::SUB_n(r) => r <= 8,
        Instruction::SBC_n(r) => r <= 8,
        Instruction::AND_n(r) => r <= 8,
        Instruction::OR_n(r) => r <= 8,
        Instruction::XOR_n(r) => r <= 8,
        Instruction::CP_n(r) => r <= 8,
        Instruction::INC_n(r) => r < 8,
        Instruction::DEC_n(r) => r < 8,
        Instruction::ADD_HL_nn(i) => i < 4,
        Instruction::INC_nn(i) => i < 4,
        Instruction::DEC_nn(i) => i < 4,
        Instruction::JP_cc_nn(cc) => cc < 4,
        Instruction::JR_cc_n(cc) => cc < 4,
        Instruction::CALL_cc_nn(cc) => cc < 4,
        Instruction::RET_cc(cc) => cc < 4,
        Instruction::RST_n(n) => n <= 0x38,
        _ => true,
    }
}

/// Every operand selector a decoded bit operation carries is a 3-bit bit
/// number or register index.
pub open spec fn spec_cb_instruction_wf(i: CB_Instruction) -> bool {
    match i {
        CB_Instruction::BIT_b_r(b, r) => b < 8 && r < 8,
        CB_Instruction::RES_b_r(b, r) => b < 8 && r < 8,
        CB_Instruction::SET_b_r(b, r) => b < 8 && r < 8,
        CB_Instruction::RL_n(r) => r < 8,
        CB_Instruction::RLC_n(r) => r < 8,
        CB_Instruction::RR_n(r) => r < 8,
        CB_Instruction::RRC_n(r) => r < 8,
        CB_Instruction::SLA_n(r) => r < 8,
        CB_Instruction::SRA_n(r) => r < 8,
        CB_Instruction::SRL_n(r) => r < 8,
        CB_Instruction::SWAP_n(r) => r < 8,
    }
}

/// Decodes a primary opcode byte.  Total: every byte is mapped either to an
/// instruction variant or, exactly for the opcodes undefined on real
/// hardware, to `None`.
pub fn parse(byte: u8) -> (r: Option<Instruction>)
    ensures
        r == spec_parse(byte),
        r matches Some(i) ==> spec_instruction_wf(i),
{
    proof {
        assert((byte >> 3) & 7 < 8 && byte & 7 < 8) by (bit_vector);
    }
    match byte {
        0x76 => Some(Instruction::HALT),
        0x40..=0x7F => {
            let r1 = (byte >> 3) & 7;
            let r2 = byte & 7;
            Some(Instruction::LD_r1_r2(r1, r2))
        }
        0x06 | 0x0E | 0x16 | 0x1E | 0x26 | 0x2E | 0x36 | 0x3E => {
            Some(Instruction::LD_r1_n((byte - 0x06) / 8))
        }
        0x0A | 0x1A | 0xFA => Some(Instruction::LD_A_nnptr),
        0x02 | 0x12 | 0xEA => Some(Instruction::LD_nnptr_A),
        0xF2 => Some(Instruction::LD_A_Cptr),
        0xE2 => Some(Instruction::LD_Cptr_A),

        0x3A => Some(Instruction::LDD_A_HLptr),
        0x32 => Some(Instruction::LDD_HLptr_A),
        0x2A => Some(Instruction::LDI_A_HLptr),
        0x22 => Some(Instruction::LDI_HLptr_A),

        0xE0 => Some(Instruction::LDH_nptr_A),
        0xF0 => Some(Instruction::LDH_A_nptr),

        0x01 | 0x11 | 0x21 | 0x31 => Some(Instruction::LD_rr_nn),

        0xF9 => Some(Instruction::LD_SP_HL),
        0xF8 => Some(Instruction::LDHL_SPn),
        0x08 => Some(Instruction::LD_nn_SP),

        0xF5 | 0xC5 | 0xD5 | 0xE5 => Some(Instruction::PUSH_nn),
        0xF1 | 0xC1 | 0xD1 | 0xE1 => Some(Instruction::POP_nn),

        0x80..=0x87 => Some(Instruction::ADD_n(byte & 7)),
        0xC6 => Some(Instruction::ADD_n(8)),
        0x88..=0x8F => Some(Instruction::ADC_n(byte & 7)),
        0xCE => Some(Instruction::ADC_n(8)),
        0x90..=0x97 => Some(Instruction::SUB_n(byte & 7)),
        0xD6 => Some(Instruction::SUB_n(8)),
        0x98..=0x9F => Some(Instruction::SBC_n(byte & 7)),
        0xDE => Some(Instruction::SBC_n(8)),
        0xA0..=0xA7 => Some(Instruction::AND_n(byte & 7)),
        0xE6 => Some(Instruction::AND_n(8)),
        0xA8..=0xAF => Some(Instruction::XOR_n(byte & 7)),
        0xEE => Some(Instruction::XOR_n(8)),
        0xB0..=0xB7 => Some(Instruction::OR_n(byte & 7)),
        0xF6 => Some(Instruction::OR_n(8)),
        0xB8..=0xBF => Some(Instruction::CP_n(byte & 7)),
        0xFE => Some(Instruction::CP_n(8)),
        0x04 | 0x0C | 0x14 | 0x1C | 0x24 | 0x2C | 0x34 | 0x3C => {
            Some(Instruction::INC_n((byte - 0x04) / 8))
        }
        0x05 | 0x0D | 0x15 | 0x1D | 0x25 | 0x2D | 0x35 | 0x3D => {
            Some(Instruction::DEC_n((byte - 0x04) / 8))
        }

        0x09 | 0x19 | 0x29 | 0x39 => Some(Instruction::ADD_HL_nn((byte - 0x09) / 0x10)),
        0xE8 => Some(Instruction::ADD_SP_n),
        0x03 | 0x13 | 0x23 | 0x33 => Some(Instruction::INC_nn((byte - 0x03) / 0x10)),
        0x0B | 0x1B | 0x2B | 0x3B => Some(Instruction::DEC_nn((byte - 0x0B) / 0x10)),

        0x27 => Some(Instruction::DAA),
        0x2F => Some(Instruction::CPL),
        0x3F => Some(Instruction::CCF),
        0x37 => Some(Instruction::SCF),
        0x00 => Some(Instruction::NOP),
        0x10 => Some(Instruction::STOP),
        0xF3 => Some(Instruction::DI),
        0xFB => Some(Instruction::EI),

        0x07 => Some(Instruction::RLCA),
        0x17 => Some(Instruction::RLA),
        0x0F => Some(Instruction::RRCA),
        0x1F => Some(Instruction::RRA),

        0xCB => Some(Instruction::CB),

        0xC3 => Some(Instruction::JP_nn),
        0xC2 | 0xCA | 0xD2 | 0xDA => Some(Instruction::JP_cc_nn((byte - 0xC2) / 8)),
        0xE9 => Some(Instruction::JP_HLptr),
        0x18 => Some(Instruction::JR_n),
        0x20 | 0x28 | 0x30 | 0x38 => Some(Instruction::JR_cc_n((byte - 0x20) / 8)),
        0xCD => Some(Instruction::CALL_nn),
        0xC4 | 0xCC | 0xD4 | 0xDC => Some(Instruction::CALL_cc_nn((byte - 0xC4) / 8)),
        0xC7 | 0xCF | 0xD7 | 0xDF | 0xE7 | 0xEF | 0xF7 | 0xFF => {
            Some(Instruction::RST_n(byte - 0xC7))
        }
        0xC9 => Some(Instruction::RET),
        0xC0 | 0xC8 | 0xD0 | 0xD8 => Some(Instruction::RET_cc((byte - 0xC0) / 8)),
        0xD9 => Some(Instruction::RETI),
        _ => None,
    }
}

/// Decodes a `0xCB`-prefixed opcode byte; defined for every byte value.
pub fn parse_cb(byte: u8) -> (r: CB_Instruction)
    ensures
        r == spec_parse_cb(byte),
        spec_cb_instruction_wf(r),
{
    if byte < 0x08 {
        CB_Instruction::RLC_n(byte)
    } else if byte < 0x10 {
        CB_Instruction::RRC_n(byte - 0x08)
    } else if byte < 0x18 {
        CB_Instruction::RL_n(byte - 0x10)
    } else if byte < 0x20 {
        CB_Instruction::RR_n(byte - 0x18)
    } else if byte < 0x28 {
        CB_Instruction::SLA_n(byte - 0x20)
    } else if byte < 0x30 {
        CB_Instruction::SRA_n(byte - 0x28)
    } else if byte < 0x38 {
        CB_Instruction::SWAP_n(byte - 0x30)
    } else if byte < 0x40 {
        CB_Instruction::SRL_n(byte - 0x38)
    } else if byte < 0x80 {
        let offset = byte - 0x40;
        CB_Instruction::BIT_b_r(offset / 8, offset % 8)
    } else if byte < 0xC0 {
        let offset = byte - 0x80;
        CB_Instruction::RES_b_r(offset / 8, offset % 8)
    } else {
        let offset = byte - 0xC0;
        CB_Instruction::SET_b_r(offset / 8, offset % 8)
    }
}

/// The primary decoder is total: it yields an instruction for every opcode
/// except exactly the opcodes real hardware leaves undefined.
pub proof fn lemma_decode_total(byte: u8)
    ensures
        spec_parse(byte) is Some <==> !spec_is_undefined_opcode(byte),
{
}

} // verus!
