//! The CPU's mathematical machine model: the register file, interrupt
//! latches, run state and cycle accounts as a ghost view, and one
//! transition function per instruction family.  `Cpu::step` is proved to
//! implement `spec_step` exactly.
//!
//! Cycle accounting: fetching the opcode costs 4 cycles, every further
//! memory access or immediate operand byte costs 4 more, and instructions
//! with internal work (16-bit arithmetic, jumps, stack pushes, taken
//! branches) charge their documented remainder, so each instruction's
//! total equals its documented cost.

use vstd::prelude::*;

use crate::bits::spec_check_bit;
use crate::bits::spec_high_byte;
use crate::bits::spec_low_byte;
use crate::bits::spec_sign_extend;
use crate::bits::spec_word;
use crate::instruction::CB_Instruction;
use crate::instruction::Instruction;
use crate::instruction::spec_parse;
use crate::instruction::spec_parse_cb;
use crate::bits::lemma_word_bytes;
use crate::interconnect::BusView;
use crate::interconnect::lemma_ram_read_after_write;
use crate::interconnect::lemma_ram_write_frame;
use crate::interconnect::spec_bus_read;
use crate::interconnect::spec_bus_update;
use crate::interconnect::spec_bus_write;
use crate::interconnect::spec_plain_ram;
use crate::interconnect::spec_ram_cell;
use crate::interconnect::spec_interrupt_index;
use crate::interconnect::spec_interrupt_vector;
use crate::interconnect::spec_pending_interrupt;
use crate::ppu::PpuView;
use vstd::wrapping::u16_specs;
use vstd::wrapping::u64_specs;
use vstd::wrapping::u8_specs;

verus! {

/// A fetched opcode (primary or `0xCB`-prefixed) that neither decode table
/// defines, together with the address it was fetched from.  Decoding fails
/// without corrupting CPU or bus state: the program counter still points
/// at the offending opcode.
#[derive(Debug, PartialEq, Eq, Structural, Clone, Copy)]
pub struct DecodeError {
    pub opcode: u8,
    pub pc: u16,
}

/// The CPU state as mathematical values: registers, flags byte, interrupt
/// latches, run state, the bus, and the cycle accounts.  `cycles` is the
/// debt left to burn from the last instruction; `cycle_count` is the total
/// ever charged.
#[verifier::ext_equal]
pub ghost struct CpuView {
    pub a: u8,
    pub b: u8,
    pub c: u8,
    pub d: u8,
    pub e: u8,
    pub f: u8,
    pub h: u8,
    pub l: u8,
    pub sp: u16,
    pub pc: u16,
    pub ime: bool,
    pub di_pending: bool,
    pub ei_pending: bool,
    pub halt: bool,
    pub stop: bool,
    pub bus: BusView,
    pub cycles: u32,
    pub cycle_count: u64,
}

/// The flags byte assembled from the four named flags; its low nibble is
/// always zero.
pub open spec fn spec_flags_byte(z: bool, n: bool, h: bool, c: bool) -> u8 {
    (((if z {
        0x80u8
    } else {
        0u8
    }) | (if n {
        0x40u8
    } else {
        0u8
    })) | (if h {
        0x20u8
    } else {
        0u8
    })) | (if c {
        0x10u8
    } else {
        0u8
    })
}

/// The four flags read back from an assembled flags byte, and its zeroed
/// low nibble.
pub proof fn lemma_flags_byte(z: bool, n: bool, h: bool, c: bool)
    by (bit_vector)
    ensures
        spec_check_bit(spec_flags_byte(z, n, h, c), 7) == z,
        spec_check_bit(spec_flags_byte(z, n, h, c), 6) == n,
        spec_check_bit(spec_flags_byte(z, n, h, c), 5) == h,
        spec_check_bit(spec_flags_byte(z, n, h, c), 4) == c,
        spec_flags_byte(z, n, h, c) & 0x0F == 0,
{
}

impl CpuView {
    pub open spec fn af(self) -> u16 {
        spec_word(self.a, self.f)
    }

    pub open spec fn bc(self) -> u16 {
        spec_word(self.b, self.c)
    }

    pub open spec fn de(self) -> u16 {
        spec_word(self.d, self.e)
    }

    pub open spec fn hl(self) -> u16 {
        spec_word(self.h, self.l)
    }

    pub open spec fn flag_z(self) -> bool {
        spec_check_bit(self.f, 7)
    }

    pub open spec fn flag_n(self) -> bool {
        spec_check_bit(self.f, 6)
    }

    pub open spec fn flag_h(self) -> bool {
        spec_check_bit(self.f, 5)
    }

    pub open spec fn flag_c(self) -> bool {
        spec_check_bit(self.f, 4)
    }

    /// Well-formedness: a consistent bus and a flags byte with zeroed low
    /// nibble.
    pub open spec fn wf(self) -> bool {
        &&& self.bus.wf()
        &&& self.f & 0x0F == 0
    }
}

/// `n` further cycles charged to both accounts.
pub open spec fn spec_charged(c: CpuView, n: u32) -> CpuView {
    CpuView {
        cycles: (c.cycles + n) as u32,
        cycle_count: u64_specs::wrapping_add(c.cycle_count, n as u64),
        ..c
    }
}

/// A bus read performed by the CPU: 4 cycles and the byte.
pub open spec fn spec_mem_read(c: CpuView, addr: u16) -> (CpuView, u8) {
    (spec_charged(c, 4), spec_bus_read(c.bus, addr))
}

/// A bus write performed by the CPU: 4 cycles and the routed store.
pub open spec fn spec_mem_write(c: CpuView, addr: u16, value: u8) -> CpuView {
    CpuView { bus: spec_bus_write(c.bus, addr, value), ..spec_charged(c, 4) }
}

/// One operand byte fetched at the program counter.
pub open spec fn spec_fetch(c: CpuView) -> (CpuView, u8) {
    (
        CpuView { pc: u16_specs::wrapping_add(c.pc, 1), ..spec_charged(c, 4) },
        spec_bus_read(c.bus, c.pc),
    )
}

/// A 16-bit immediate fetched at the program counter, low byte first.
pub open spec fn spec_fetch16(c: CpuView) -> (CpuView, u16) {
    let low = spec_bus_read(c.bus, c.pc);
    let high = spec_bus_read(c.bus, u16_specs::wrapping_add(c.pc, 1));
    (
        CpuView { pc: u16_specs::wrapping_add(c.pc, 2), ..spec_charged(c, 8) },
        spec_word(high, low),
    )
}

/// The register selected by a 3-bit index; index 6 does not name a plain
/// register and is resolved by `spec_read_r`/`spec_write_r` instead.
pub open spec fn spec_reg(c: CpuView, r: u8) -> u8 {
    if r == 0 {
        c.b
    } else if r == 1 {
        c.c
    } else if r == 2 {
        c.d
    } else if r == 3 {
        c.e
    } else if r == 4 {
        c.h
    } else if r == 5 {
        c.l
    } else {
        c.a
    }
}

/// Reading operand register `r`: index 6 reads memory at HL and costs a
/// memory access; the others are free register reads.
pub open spec fn spec_read_r(c: CpuView, r: u8) -> (CpuView, u8) {
    if r == 6 {
        spec_mem_read(c, c.hl())
    } else {
        (c, spec_reg(c, r))
    }
}

/// Writing operand register `r`: index 6 writes memory at HL and costs a
/// memory access.
pub open spec fn spec_write_r(c: CpuView, r: u8, value: u8) -> CpuView {
    if r == 0 {
        CpuView { b: value, ..c }
    } else if r == 1 {
        CpuView { c: value, ..c }
    } else if r == 2 {
        CpuView { d: value, ..c }
    } else if r == 3 {
        CpuView { e: value, ..c }
    } else if r == 4 {
        CpuView { h: value, ..c }
    } else if r == 5 {
        CpuView { l: value, ..c }
    } else if r == 6 {
        spec_mem_write(c, c.hl(), value)
    } else {
        CpuView { a: value, ..c }
    }
}

/// The ALU operand selected by `r`: 8 fetches an immediate byte, the rest
/// read an operand register.
pub open spec fn spec_operand(c: CpuView, r: u8) -> (CpuView, u8) {
    if r == 8 {
        spec_fetch(c)
    } else {
        spec_read_r(c, r)
    }
}

pub open spec fn spec_set_bc(c: CpuView, v: u16) -> CpuView {
    CpuView { b: spec_high_byte(v), c: spec_low_byte(v), ..c }
}

pub open spec fn spec_set_de(c: CpuView, v: u16) -> CpuView {
    CpuView { d: spec_high_byte(v), e: spec_low_byte(v), ..c }
}

pub open spec fn spec_set_hl(c: CpuView, v: u16) -> CpuView {
    CpuView { h: spec_high_byte(v), l: spec_low_byte(v), ..c }
}

/// Setting AF masks the flags byte's low nibble to zero.
pub open spec fn spec_set_af(c: CpuView, v: u16) -> CpuView {
    CpuView { a: spec_high_byte(v), f: spec_low_byte(v) & 0xF0, ..c }
}

/// The register pair selected by a 2-bit index: BC, DE, HL, SP.
pub open spec fn spec_pair(c: CpuView, i: u8) -> u16 {
    if i == 0 {
        c.bc()
    } else if i == 1 {
        c.de()
    } else if i == 2 {
        c.hl()
    } else {
        c.sp
    }
}

pub open spec fn spec_set_pair(c: CpuView, i: u8, v: u16) -> CpuView {
    if i == 0 {
        spec_set_bc(c, v)
    } else if i == 1 {
        spec_set_de(c, v)
    } else if i == 2 {
        spec_set_hl(c, v)
    } else {
        CpuView { sp: v, ..c }
    }
}

/// The condition selected by a 2-bit code: not-zero, zero, no-carry,
/// carry.
pub open spec fn spec_cond(c: CpuView, cc: u8) -> bool {
    if cc == 0 {
        !c.flag_z()
    } else if cc == 1 {
        c.flag_z()
    } else if cc == 2 {
        !c.flag_c()
    } else {
        c.flag_c()
    }
}

/// Pushing a word: the stack pointer is pre-decremented for each byte,
/// high byte first.
pub open spec fn spec_push16(c: CpuView, value: u16) -> CpuView {
    let sp1 = u16_specs::wrapping_sub(c.sp, 1);
    let c1 = spec_mem_write(CpuView { sp: sp1, ..c }, sp1, spec_high_byte(value));
    let sp2 = u16_specs::wrapping_sub(sp1, 1);
    spec_mem_write(CpuView { sp: sp2, ..c1 }, sp2, spec_low_byte(value))
}

/// Popping a word: low byte first, the stack pointer post-incremented for
/// each byte — the exact inverse of `spec_push16`.
pub open spec fn spec_pop16(c: CpuView) -> (CpuView, u16) {
    let low = spec_bus_read(c.bus, c.sp);
    let c1 = spec_charged(CpuView { sp: u16_specs::wrapping_add(c.sp, 1), ..c }, 4);
    let high = spec_bus_read(c1.bus, c1.sp);
    let c2 = spec_charged(CpuView { sp: u16_specs::wrapping_add(c1.sp, 1), ..c1 }, 4);
    (c2, spec_word(high, low))
}

#[verifier::opaque]
pub open spec fn spec_ld_r1_r2(c: CpuView, r1: u8, r2: u8) -> CpuView {
    let (c1, v) = spec_read_r(c, r2);
    spec_write_r(c1, r1, v)
}

#[verifier::opaque]
pub open spec fn spec_ld_r1_n(c: CpuView, r1: u8) -> CpuView {
    let (c1, v) = spec_fetch(c);
    spec_write_r(c1, r1, v)
}

/// `LD A, (BC)` / `LD A, (DE)` / `LD A, (nn)`, told apart by the opcode.
#[verifier::opaque]
pub open spec fn spec_ld_a_nnptr(c: CpuView, opcode: u8) -> CpuView {
    if opcode == 0x0A {
        let (c1, v) = spec_mem_read(c, c.bc());
        CpuView { a: v, ..c1 }
    } else if opcode == 0x1A {
        let (c1, v) = spec_mem_read(c, c.de());
        CpuView { a: v, ..c1 }
    } else {
        let (c1, addr) = spec_fetch16(c);
        let (c2, v) = spec_mem_read(c1, addr);
        CpuView { a: v, ..c2 }
    }
}

/// `LD (BC), A` / `LD (DE), A` / `LD (nn), A`, told apart by the opcode.
#[verifier::opaque]
pub open spec fn spec_ld_nnptr_a(c: CpuView, opcode: u8) -> CpuView {
    if opcode == 0x02 {
        spec_mem_write(c, c.bc(), c.a)
    } else if opcode == 0x12 {
        spec_mem_write(c, c.de(), c.a)
    } else {
        let (c1, addr) = spec_fetch16(c);
        spec_mem_write(c1, addr, c1.a)
    }
}

#[verifier::opaque]
pub open spec fn spec_ld_a_cptr(c: CpuView) -> CpuView {
    let (c1, v) = spec_mem_read(c, (0xFF00 + c.c) as u16);
    CpuView { a: v, ..c1 }
}

#[verifier::opaque]
pub open spec fn spec_ld_cptr_a(c: CpuView) -> CpuView {
    spec_mem_write(c, (0xFF00 + c.c) as u16, c.a)
}

#[verifier::opaque]
pub open spec fn spec_ldd_a_hlptr(c: CpuView) -> CpuView {
    let (c1, v) = spec_mem_read(c, c.hl());
    spec_set_hl(CpuView { a: v, ..c1 }, u16_specs::wrapping_sub(c.hl(), 1))
}

#[verifier::opaque]
pub open spec fn spec_ldd_hlptr_a(c: CpuView) -> CpuView {
    let c1 = spec_mem_write(c, c.hl(), c.a);
    spec_set_hl(c1, u16_specs::wrapping_sub(c.hl(), 1))
}

#[verifier::opaque]
pub open spec fn spec_ldi_a_hlptr(c: CpuView) -> CpuView {
    let (c1, v) = spec_mem_read(c, c.hl());
    spec_set_hl(CpuView { a: v, ..c1 }, u16_specs::wrapping_add(c.hl(), 1))
}

#[verifier::opaque]
pub open spec fn spec_ldi_hlptr_a(c: CpuView) -> CpuView {
    let c1 = spec_mem_write(c, c.hl(), c.a);
    spec_set_hl(c1, u16_specs::wrapping_add(c.hl(), 1))
}

#[verifier::opaque]
pub open spec fn spec_ldh_nptr_a(c: CpuView) -> CpuView {
    let (c1, n) = spec_fetch(c);
    spec_mem_write(c1, (0xFF00 + n) as u16, c1.a)
}

#[verifier::opaque]
pub open spec fn spec_ldh_a_nptr(c: CpuView) -> CpuView {
    let (c1, n) = spec_fetch(c);
    let (c2, v) = spec_mem_read(c1, (0xFF00 + n) as u16);
    CpuView { a: v, ..c2 }
}

/// `LD rr, nn`, the pair told apart by the opcode.
#[verifier::opaque]
pub open spec fn spec_ld_rr_nn(c: CpuView, opcode: u8) -> CpuView {
    let (c1, v) = spec_fetch16(c);
    if opcode == 0x01 {
        spec_set_bc(c1, v)
    } else if opcode == 0x11 {
        spec_set_de(c1, v)
    } else if opcode == 0x21 {
        spec_set_hl(c1, v)
    } else {
        CpuView { sp: v, ..c1 }
    }
}

#[verifier::opaque]
pub open spec fn spec_ld_sp_hl(c: CpuView) -> CpuView {
    spec_charged(CpuView { sp: c.hl(), ..c }, 4)
}

/// `LD HL, SP+n`: the offset byte is sign-extended; the flags come from
/// the low-byte addition, as the hardware documents.
#[verifier::opaque]
pub open spec fn spec_ldhl_spn(c: CpuView) -> CpuView {
    let (c1, nb) = spec_fetch(c);
    let n16 = spec_sign_extend(nb);
    let res = (c1.sp + n16) as u16;
    let f = spec_flags_byte(
        false,
        false,
        (c1.sp & 0xF) + (n16 & 0xF) > 0xF,
        (c1.sp & 0xFF) + (n16 & 0xFF) > 0xFF,
    );
    spec_charged(spec_set_hl(CpuView { f, ..c1 }, res), 4)
}

#[verifier::opaque]
pub open spec fn spec_ld_nn_sp(c: CpuView) -> CpuView {
    let (c1, addr) = spec_fetch16(c);
    let c2 = spec_mem_write(c1, addr, spec_low_byte(c1.sp));
    spec_mem_write(c2, u16_specs::wrapping_add(addr, 1), spec_high_byte(c2.sp))
}

/// `PUSH rr`, the pair told apart by the opcode.
#[verifier::opaque]
pub open spec fn spec_push_op(c: CpuView, opcode: u8) -> CpuView {
    let v = if opcode == 0xF5 {
        c.af()
    } else if opcode == 0xC5 {
        c.bc()
    } else if opcode == 0xD5 {
        c.de()
    } else {
        c.hl()
    };
    spec_charged(spec_push16(c, v), 4)
}

/// `POP rr`, the pair told apart by the opcode; popping into AF masks the
/// flags byte's low nibble.
#[verifier::opaque]
pub open spec fn spec_pop_op(c: CpuView, opcode: u8) -> CpuView {
    let (c1, v) = spec_pop16(c);
    if opcode == 0xF1 {
        spec_set_af(c1, v)
    } else if opcode == 0xC1 {
        spec_set_bc(c1, v)
    } else if opcode == 0xD1 {
        spec_set_de(c1, v)
    } else {
        spec_set_hl(c1, v)
    }
}

#[verifier::opaque]
pub open spec fn spec_add(c: CpuView, r: u8) -> CpuView {
    let (c1, n) = spec_operand(c, r);
    let res = (c1.a + n) as u8;
    CpuView {
        a: res,
        f: spec_flags_byte(
            res == 0,
            false,
            (c1.a & 0xF) + (n & 0xF) > 0xF,
            c1.a + n > 0xFF,
        ),
        ..c1
    }
}

#[verifier::opaque]
pub open spec fn spec_adc(c: CpuView, r: u8) -> CpuView {
    let (c1, n) = spec_operand(c, r);
    let cin: u8 = if c1.flag_c() {
        1
    } else {
        0
    };
    let res = (c1.a + n + cin) as u8;
    CpuView {
        a: res,
        f: spec_flags_byte(
            res == 0,
            false,
            (c1.a & 0xF) + (n & 0xF) + cin > 0xF,
            c1.a + n + cin > 0xFF,
        ),
        ..c1
    }
}

#[verifier::opaque]
pub open spec fn spec_sub(c: CpuView, r: u8) -> CpuView {
    let (c1, n) = spec_operand(c, r);
    let res = u8_specs::wrapping_sub(c1.a, n);
    CpuView {
        a: res,
        f: spec_flags_byte(res == 0, true, (c1.a & 0xF) < (n & 0xF), c1.a < n),
        ..c1
    }
}

#[verifier::opaque]
pub open spec fn spec_sbc(c: CpuView, r: u8) -> CpuView {
    let (c1, n) = spec_operand(c, r);
    let cin: u8 = if c1.flag_c() {
        1
    } else {
        0
    };
    let res = u8_specs::wrapping_sub(u8_specs::wrapping_sub(c1.a, n), cin);
    CpuView {
        a: res,
        f: spec_flags_byte(
            res == 0,
            true,
            (c1.a & 0xF) < (n & 0xF) + cin,
            (c1.a as int) < n + cin,
        ),
        ..c1
    }
}

#[verifier::opaque]
pub open spec fn spec_and(c: CpuView, r: u8) -> CpuView {
    let (c1, n) = spec_operand(c, r);
    let res = c1.a & n;
    CpuView { a: res, f: spec_flags_byte(res == 0, false, true, false), ..c1 }
}

#[verifier::opaque]
pub open spec fn spec_or(c: CpuView, r: u8) -> CpuView {
    let (c1, n) = spec_operand(c, r);
    let res = c1.a | n;
    CpuView { a: res, f: spec_flags_byte(res == 0, false, false, false), ..c1 }
}

#[verifier::opaque]
pub open spec fn spec_xor(c: CpuView, r: u8) -> CpuView {
    let (c1, n) = spec_operand(c, r);
    let res = c1.a ^ n;
    CpuView { a: res, f: spec_flags_byte(res == 0, false, false, false), ..c1 }
}

/// `CP`: the flags of a subtraction, with the accumulator kept.
#[verifier::opaque]
pub open spec fn spec_cp(c: CpuView, r: u8) -> CpuView {
    let (c1, n) = spec_operand(c, r);
    CpuView {
        f: spec_flags_byte(c1.a == n, true, (c1.a & 0xF) < (n & 0xF), c1.a < n),
        ..c1
    }
}

/// `INC r`: the carry flag is untouched.
#[verifier::opaque]
pub open spec fn spec_inc(c: CpuView, r: u8) -> CpuView {
    let (c1, v) = spec_read_r(c, r);
    let res = (v + 1) as u8;
    let c2 = CpuView {
        f: spec_flags_byte(res == 0, false, res & 0xF == 0, c1.flag_c()),
        ..c1
    };
    spec_write_r(c2, r, res)
}

/// `DEC r`: the carry flag is untouched.
#[verifier::opaque]
pub open spec fn spec_dec(c: CpuView, r: u8) -> CpuView {
    let (c1, v) = spec_read_r(c, r);
    let res = u8_specs::wrapping_sub(v, 1);
    let c2 = CpuView {
        f: spec_flags_byte(res == 0, true, res & 0xF == 0xF, c1.flag_c()),
        ..c1
    };
    spec_write_r(c2, r, res)
}

/// `ADD HL, rr`: half-carry tested at bit 11, carry at bit 15; the zero
/// flag is untouched.
#[verifier::opaque]
pub open spec fn spec_add_hl(c: CpuView, i: u8) -> CpuView {
    let v = spec_pair(c, i);
    let res = (c.hl() + v) as u16;
    let c1 = CpuView {
        f: spec_flags_byte(
            c.flag_z(),
            false,
            (c.hl() & 0xFFF) + (v & 0xFFF) > 0xFFF,
            c.hl() + v > 0xFFFF,
        ),
        ..c
    };
    spec_charged(spec_set_hl(c1, res), 4)
}

/// `ADD SP, n`: the offset byte is sign-extended; the flags come from the
/// low-byte addition, as the hardware documents; zero is cleared.
#[verifier::opaque]
pub open spec fn spec_add_sp_n(c: CpuView) -> CpuView {
    let (c1, nb) = spec_fetch(c);
    let n16 = spec_sign_extend(nb);
    let res = (c1.sp + n16) as u16;
    let f = spec_flags_byte(
        false,
        false,
        (c1.sp & 0xF) + (n16 & 0xF) > 0xF,
        (c1.sp & 0xFF) + (n16 & 0xFF) > 0xFF,
    );
    spec_charged(CpuView { sp: res, f, ..c1 }, 8)
}

/// 16-bit `INC`: no flags are touched.
#[verifier::opaque]
pub open spec fn spec_inc_nn(c: CpuView, i: u8) -> CpuView {
    spec_charged(spec_set_pair(c, i, u16_specs::wrapping_add(spec_pair(c, i), 1)), 4)
}

/// 16-bit `DEC`: no flags are touched.
#[verifier::opaque]
pub open spec fn spec_dec_nn(c: CpuView, i: u8) -> CpuView {
    spec_charged(spec_set_pair(c, i, u16_specs::wrapping_sub(spec_pair(c, i), 1)), 4)
}

/// `DAA`, the BCD correction: after an addition (subtract flag clear) the
/// nibbles are pushed back into decimal range by adding `0x06`/`0x60`;
/// after a subtraction the corrections are subtracted.  Zero is
/// recomputed, half-carry cleared, and carry set — never cleared — when a
/// correction carried out of bit 7.
#[verifier::opaque]
pub open spec fn spec_daa(c: CpuView) -> CpuView {
    let a0 = c.a as u16;
    let a2 = if !c.flag_n() {
        let a1 = if c.flag_h() || (a0 & 0xF) > 9 {
            (a0 + 6) as u16
        } else {
            a0
        };
        if c.flag_c() || a1 > 0x9F {
            (a1 + 0x60) as u16
        } else {
            a1
        }
    } else {
        let a1 = if c.flag_h() {
            u16_specs::wrapping_sub(a0, 6) & 0xFF
        } else {
            a0
        };
        if c.flag_c() {
            u16_specs::wrapping_sub(a1, 0x60)
        } else {
            a1
        }
    };
    let carry = if a2 >= 0x100 {
        true
    } else {
        c.flag_c()
    };
    let res = (a2 & 0xFF) as u8;
    CpuView { a: res, f: spec_flags_byte(res == 0, c.flag_n(), false, carry), ..c }
}

/// `CPL`: complement the accumulator; zero and carry are untouched.
#[verifier::opaque]
pub open spec fn spec_cpl(c: CpuView) -> CpuView {
    CpuView { a: !c.a, f: spec_flags_byte(c.flag_z(), true, true, c.flag_c()), ..c }
}

#[verifier::opaque]
pub open spec fn spec_ccf(c: CpuView) -> CpuView {
    CpuView { f: spec_flags_byte(c.flag_z(), false, false, !c.flag_c()), ..c }
}

#[verifier::opaque]
pub open spec fn spec_scf(c: CpuView) -> CpuView {
    CpuView { f: spec_flags_byte(c.flag_z(), false, false, true), ..c }
}

/// `STOP`: consumes the following byte, enters the stopped state and
/// powers the picture unit's display off.
#[verifier::opaque]
pub open spec fn spec_stop(c: CpuView) -> CpuView {
    let (c1, _skipped) = spec_fetch(c);
    CpuView {
        stop: true,
        bus: BusView {
            ppu: PpuView { LCD_control: c1.bus.ppu.LCD_control & 0x7F, ..c1.bus.ppu },
            ..c1.bus
        },
        ..c1
    }
}

#[verifier::opaque]
pub open spec fn spec_rlca(c: CpuView) -> CpuView {
    let bit7 = c.a >> 7;
    CpuView {
        a: (c.a << 1) | bit7,
        f: spec_flags_byte(false, false, false, bit7 == 1),
        ..c
    }
}

#[verifier::opaque]
pub open spec fn spec_rla(c: CpuView) -> CpuView {
    let bit7 = c.a >> 7;
    let cin: u8 = if c.flag_c() {
        1
    } else {
        0
    };
    CpuView {
        a: (c.a << 1) | cin,
        f: spec_flags_byte(false, false, false, bit7 == 1),
        ..c
    }
}

#[verifier::opaque]
pub open spec fn spec_rrca(c: CpuView) -> CpuView {
    let bit0 = c.a & 1;
    CpuView {
        a: (c.a >> 1) | (bit0 << 7),
        f: spec_flags_byte(false, false, false, bit0 == 1),
        ..c
    }
}

#[verifier::opaque]
pub open spec fn spec_rra(c: CpuView) -> CpuView {
    let bit0 = c.a & 1;
    let cin: u8 = if c.flag_c() {
        0x80
    } else {
        0
    };
    CpuView {
        a: (c.a >> 1) | cin,
        f: spec_flags_byte(false, false, false, bit0 == 1),
        ..c
    }
}

#[verifier::opaque]
pub open spec fn spec_jp_nn(c: CpuView) -> CpuView {
    let (c1, addr) = spec_fetch16(c);
    spec_charged(CpuView { pc: addr, ..c1 }, 4)
}

/// Conditional absolute jump: a taken branch costs 4 more cycles.
#[verifier::opaque]
pub open spec fn spec_jp_cc(c: CpuView, cc: u8) -> CpuView {
    let (c1, addr) = spec_fetch16(c);
    if spec_cond(c1, cc) {
        spec_charged(CpuView { pc: addr, ..c1 }, 4)
    } else {
        c1
    }
}

#[verifier::opaque]
pub open spec fn spec_jp_hlptr(c: CpuView) -> CpuView {
    CpuView { pc: c.hl(), ..c }
}

/// Relative jump: the offset is sign-extended and added to the program
/// counter already past the operand.
#[verifier::opaque]
pub open spec fn spec_jr(c: CpuView) -> CpuView {
    let (c1, nb) = spec_fetch(c);
    spec_charged(
        CpuView { pc: u16_specs::wrapping_add(c1.pc, spec_sign_extend(nb)), ..c1 },
        4,
    )
}

/// Conditional relative jump: a taken branch costs 4 more cycles.
#[verifier::opaque]
pub open spec fn spec_jr_cc(c: CpuView, cc: u8) -> CpuView {
    let (c1, nb) = spec_fetch(c);
    if spec_cond(c1, cc) {
        spec_charged(
            CpuView { pc: u16_specs::wrapping_add(c1.pc, spec_sign_extend(nb)), ..c1 },
            4,
        )
    } else {
        c1
    }
}

#[verifier::opaque]
pub open spec fn spec_call(c: CpuView) -> CpuView {
    let (c1, addr) = spec_fetch16(c);
    spec_charged(CpuView { pc: addr, ..spec_push16(c1, c1.pc) }, 4)
}

/// Conditional call: an untaken call costs only the immediate fetch.
#[verifier::opaque]
pub open spec fn spec_call_cc(c: CpuView, cc: u8) -> CpuView {
    let (c1, addr) = spec_fetch16(c);
    if spec_cond(c1, cc) {
        spec_charged(CpuView { pc: addr, ..spec_push16(c1, c1.pc) }, 4)
    } else {
        c1
    }
}

/// `RST`: a call to the fixed low-memory address encoded in the opcode.
#[verifier::opaque]
pub open spec fn spec_rst(c: CpuView, n: u8) -> CpuView {
    spec_charged(CpuView { pc: n as u16, ..spec_push16(c, c.pc) }, 4)
}

#[verifier::opaque]
pub open spec fn spec_ret(c: CpuView) -> CpuView {
    let (c1, addr) = spec_pop16(c);
    spec_charged(CpuView { pc: addr, ..c1 }, 4)
}

/// Conditional return: testing the condition costs 4 cycles even when the
/// return is not taken.
#[verifier::opaque]
pub open spec fn spec_ret_cc(c: CpuView, cc: u8) -> CpuView {
    let c1 = spec_charged(c, 4);
    if spec_cond(c1, cc) {
        let (c2, addr) = spec_pop16(c1);
        spec_charged(CpuView { pc: addr, ..c2 }, 4)
    } else {
        c1
    }
}

/// `RETI`: return and set the master enable at once, with no latency.
#[verifier::opaque]
pub open spec fn spec_reti(c: CpuView) -> CpuView {
    let (c1, addr) = spec_pop16(c);
    spec_charged(CpuView { pc: addr, ime: true, ..c1 }, 4)
}

/// One `0xCB`-prefixed bit operation, after its opcode byte was fetched.
#[verifier::opaque]
pub open spec fn spec_exec_cb(c: CpuView, i: CB_Instruction) -> CpuView {
    match i {
        CB_Instruction::BIT_b_r(b, r) => {
            let (c1, v) = spec_read_r(c, r);
            CpuView {
                f: spec_flags_byte(v & (1u8 << b) == 0, false, true, c1.flag_c()),
                ..c1
            }
        }
        CB_Instruction::SET_b_r(b, r) => {
            let (c1, v) = spec_read_r(c, r);
            spec_write_r(c1, r, v | (1u8 << b))
        }
        CB_Instruction::RES_b_r(b, r) => {
            let (c1, v) = spec_read_r(c, r);
            spec_write_r(c1, r, v & !(1u8 << b))
        }
        CB_Instruction::RL_n(r) => {
            let (c1, v) = spec_read_r(c, r);
            let cin: u8 = if c1.flag_c() {
                1
            } else {
                0
            };
            let res = (v << 1) | cin;
            let c2 = CpuView {
                f: spec_flags_byte(res == 0, false, false, v >> 7 == 1),
                ..c1
            };
            spec_write_r(c2, r, res)
        }
        CB_Instruction::RLC_n(r) => {
            let (c1, v) = spec_read_r(c, r);
            let res = (v << 1) | (v >> 7);
            let c2 = CpuView {
                f: spec_flags_byte(res == 0, false, false, v >> 7 == 1),
                ..c1
            };
            spec_write_r(c2, r, res)
        }
        CB_Instruction::RR_n(r) => {
            let (c1, v) = spec_read_r(c, r);
            let cin: u8 = if c1.flag_c() {
                0x80
            } else {
                0
            };
            let res = (v >> 1) | cin;
            let c2 = CpuView {
                f: spec_flags_byte(res == 0, false, false, v & 1 == 1),
                ..c1
            };
            spec_write_r(c2, r, res)
        }
        CB_Instruction::RRC_n(r) => {
            let (c1, v) = spec_read_r(c, r);
            let res = (v >> 1) | ((v & 1) << 7);
            let c2 = CpuView {
                f: spec_flags_byte(res == 0, false, false, v & 1 == 1),
                ..c1
            };
            spec_write_r(c2, r, res)
        }
        CB_Instruction::SLA_n(r) => {
            let (c1, v) = spec_read_r(c, r);
            let res = v << 1;
            let c2 = CpuView {
                f: spec_flags_byte(res == 0, false, false, v >> 7 == 1),
                ..c1
            };
            spec_write_r(c2, r, res)
        }
        CB_Instruction::SRA_n(r) => {
            let (c1, v) = spec_read_r(c, r);
            let res = (v >> 1) | ((v >> 7) << 7);
            let c2 = CpuView {
                f: spec_flags_byte(res == 0, false, false, v & 1 == 1),
                ..c1
            };
            spec_write_r(c2, r, res)
        }
        CB_Instruction::SRL_n(r) => {
            let (c1, v) = spec_read_r(c, r);
            let res = v >> 1;
            let c2 = CpuView {
                f: spec_flags_byte(res == 0, false, false, v & 1 == 1),
                ..c1
            };
            spec_write_r(c2, r, res)
        }
        CB_Instruction::SWAP_n(r) => {
            let (c1, v) = spec_read_r(c, r);
            let res = ((v & 0xF) << 4) | ((v & 0xF0) >> 4);
            let c2 = CpuView {
                f: spec_flags_byte(res == 0, false, false, false),
                ..c1
            };
            spec_write_r(c2, r, res)
        }
    }
}

/// The `0xCB` prefix: fetch the second opcode byte and run its bit
/// operation; the second decode table is total.
#[verifier::opaque]
pub open spec fn spec_cb(c: CpuView) -> CpuView {
    let (c1, cb_byte) = spec_fetch(c);
    spec_exec_cb(c1, spec_parse_cb(cb_byte))
}

/// The loads, the stack moves between register pairs and memory, and the
/// stack-pointer arithmetic loads.
pub open spec fn spec_is_load_instr(i: Instruction) -> bool {
    match i {
        Instruction::LD_r1_n(..) => true,
        Instruction::LD_r1_r2(..) => true,
        Instruction::LD_A_nnptr => true,
        Instruction::LD_nnptr_A => true,
        Instruction::LD_A_Cptr => true,
        Instruction::LD_Cptr_A => true,
        Instruction::LDD_A_HLptr => true,
        Instruction::LDD_HLptr_A => true,
        Instruction::LDI_A_HLptr => true,
        Instruction::LDI_HLptr_A => true,
        Instruction::LDH_nptr_A => true,
        Instruction::LDH_A_nptr => true,
        Instruction::LD_rr_nn => true,
        Instruction::LD_SP_HL => true,
        Instruction::LDHL_SPn => true,
        Instruction::LD_nn_SP => true,
        Instruction::PUSH_nn => true,
        Instruction::POP_nn => true,
        _ => false,
    }
}

/// The 8- and 16-bit arithmetic/logical instructions and the accumulator
/// rotates.
pub open spec fn spec_is_alu_instr(i: Instruction) -> bool {
    match i {
        Instruction::ADD_n(..) => true,
        Instruction::ADC_n(..) => true,
        Instruction::SUB_n(..) => true,
        Instruction::SBC_n(..) => true,
        Instruction::AND_n(..) => true,
        Instruction::OR_n(..) => true,
        Instruction::XOR_n(..) => true,
        Instruction::CP_n(..) => true,
        Instruction::INC_n(..) => true,
        Instruction::DEC_n(..) => true,
        Instruction::ADD_HL_nn(..) => true,
        Instruction::ADD_SP_n => true,
        Instruction::INC_nn(..) => true,
        Instruction::DEC_nn(..) => true,
        Instruction::DAA => true,
        Instruction::CPL => true,
        Instruction::CCF => true,
        Instruction::SCF => true,
        Instruction::RLCA => true,
        Instruction::RLA => true,
        Instruction::RRCA => true,
        Instruction::RRA => true,
        _ => false,
    }
}

/// Control flow, run state, the interrupt latches, and the `0xCB` prefix.
pub open spec fn spec_is_control_instr(i: Instruction) -> bool {
    match i {
        Instruction::NOP => true,
        Instruction::HALT => true,
        Instruction::STOP => true,
        Instruction::DI => true,
        Instruction::EI => true,
        Instruction::CB => true,
        Instruction::JP_nn => true,
        Instruction::JP_cc_nn(..) => true,
        Instruction::JP_HLptr => true,
        Instruction::JR_n => true,
        Instruction::JR_cc_n(..) => true,
        Instruction::CALL_nn => true,
        Instruction::CALL_cc_nn(..) => true,
        Instruction::RST_n(..) => true,
        Instruction::RET => true,
        Instruction::RET_cc(..) => true,
        Instruction::RETI => true,
        _ => false,
    }
}

/// Executing one decoded instruction, from the state just past the opcode
/// fetch.
#[verifier::opaque]
pub open spec fn spec_exec_instr(c: CpuView, opcode: u8, i: Instruction) -> CpuView {
    match i {
        Instruction::LD_r1_r2(r1, r2) => spec_ld_r1_r2(c, r1, r2),
        Instruction::LD_r1_n(r1) => spec_ld_r1_n(c, r1),
        Instruction::LD_A_nnptr => spec_ld_a_nnptr(c, opcode),
        Instruction::LD_nnptr_A => spec_ld_nnptr_a(c, opcode),
        Instruction::LD_A_Cptr => spec_ld_a_cptr(c),
        Instruction::LD_Cptr_A => spec_ld_cptr_a(c),
        Instruction::LDD_A_HLptr => spec_ldd_a_hlptr(c),
        Instruction::LDD_HLptr_A => spec_ldd_hlptr_a(c),
        Instruction::LDI_A_HLptr => spec_ldi_a_hlptr(c),
        Instruction::LDI_HLptr_A => spec_ldi_hlptr_a(c),
        Instruction::LDH_nptr_A => spec_ldh_nptr_a(c),
        Instruction::LDH_A_nptr => spec_ldh_a_nptr(c),
        Instruction::LD_rr_nn => spec_ld_rr_nn(c, opcode),
        Instruction::LD_SP_HL => spec_ld_sp_hl(c),
        Instruction::LDHL_SPn => spec_ldhl_spn(c),
        Instruction::LD_nn_SP => spec_ld_nn_sp(c),
        Instruction::PUSH_nn => spec_push_op(c, opcode),
        Instruction::POP_nn => spec_pop_op(c, opcode),
        Instruction::ADD_n(r) => spec_add(c, r),
        Instruction::ADC_n(r) => spec_adc(c, r),
        Instruction::SUB_n(r) => spec_sub(c, r),
        Instruction::SBC_n(r) => spec_sbc(c, r),
        Instruction::AND_n(r) => spec_and(c, r),
        Instruction::OR_n(r) => spec_or(c, r),
        Instruction::XOR_n(r) => spec_xor(c, r),
        Instruction::CP_n(r) => spec_cp(c, r),
        Instruction::INC_n(r) => spec_inc(c, r),
        Instruction::DEC_n(r) => spec_dec(c, r),
        Instruction::ADD_HL_nn(i) => spec_add_hl(c, i),
        Instruction::ADD_SP_n => spec_add_sp_n(c),
        Instruction::INC_nn(i) => spec_inc_nn(c, i),
        Instruction::DEC_nn(i) => spec_dec_nn(c, i),
        Instruction::DAA => spec_daa(c),
        Instruction::CPL => spec_cpl(c),
        Instruction::CCF => spec_ccf(c),
        Instruction::SCF => spec_scf(c),
        Instruction::NOP => c,
        Instruction::HALT => CpuView { halt: true, ..c },
        Instruction::STOP => spec_stop(c),
        Instruction::DI => CpuView { di_pending: true, ..c },
        Instruction::EI => CpuView { ei_pending: true, ..c },
        Instruction::RLCA => spec_rlca(c),
        Instruction::RLA => spec_rla(c),
        Instruction::RRCA => spec_rrca(c),
        Instruction::RRA => spec_rra(c),
        Instruction::CB => spec_cb(c),
        Instruction::JP_nn => spec_jp_nn(c),
        Instruction::JP_cc_nn(cc) => spec_jp_cc(c, cc),
        Instruction::JP_HLptr => spec_jp_hlptr(c),
        Instruction::JR_n => spec_jr(c),
        Instruction::JR_cc_n(cc) => spec_jr_cc(c, cc),
        Instruction::CALL_nn => spec_call(c),
        Instruction::CALL_cc_nn(cc) => spec_call_cc(c, cc),
        Instruction::RST_n(n) => spec_rst(c, n),
        Instruction::RET => spec_ret(c),
        Instruction::RET_cc(cc) => spec_ret_cc(c, cc),
        Instruction::RETI => spec_reti(c),
    }
}

/// One fetch-decode-execute round.  The opcode is read (4 cycles) before
/// the program counter moves: on an undefined opcode the error carries the
/// opcode and its address, and no register or bus state has changed.
#[verifier::opaque]
pub open spec fn spec_instr(c: CpuView) -> (CpuView, Result<(), DecodeError>) {
    let opcode = spec_bus_read(c.bus, c.pc);
    match spec_parse(opcode) {
        Some(i) => (
            spec_exec_instr(
                CpuView { pc: u16_specs::wrapping_add(c.pc, 1), ..spec_charged(c, 4) },
                opcode,
                i,
            ),
            Ok(()),
        ),
        None => (spec_charged(c, 4), Err(DecodeError { opcode, pc: c.pc })),
    }
}

/// Interrupt dispatch: the highest-priority pending-and-enabled source has
/// its request bit cleared, the master enable drops, the program counter
/// is pushed and redirected to the source's vector, and 20 cycles are
/// charged.  With nothing pending the state is unchanged.
#[verifier::opaque]
pub open spec fn spec_dispatch(c: CpuView) -> CpuView {
    match spec_pending_interrupt(c.bus.interrupt_flag, c.bus.interrupt_enable) {
        None => c,
        Some(source) => {
            let c1 = CpuView {
                bus: BusView {
                    interrupt_flag: c.bus.interrupt_flag & !(1u8 << spec_interrupt_index(source)),
                    ..c.bus
                },
                ime: false,
                ..c
            };
            let c2 = spec_push16(c1, c1.pc);
            CpuView { pc: spec_interrupt_vector(source), ..spec_charged(c2, 12) }
        }
    }
}

/// Pushing a word and popping it again returns the word and restores the
/// stack pointer, whenever the two stacked bytes land in plain RAM.  (With
/// the stack pointer aimed at ROM, for instance, the pushed bytes are not
/// stored and the law fails, so those targets are excluded.)
pub proof fn lemma_push_pop_roundtrip(c: CpuView, x: u16)
    requires
        c.bus.wf(),
        spec_plain_ram(u16_specs::wrapping_sub(c.sp, 1)),
        spec_plain_ram(u16_specs::wrapping_sub(c.sp, 2)),
    ensures
        spec_pop16(spec_push16(c, x)).1 == x,
        spec_pop16(spec_push16(c, x)).0.sp == c.sp,
        spec_pop16(spec_push16(c, x)).0.pc == c.pc,
{
    let a1 = u16_specs::wrapping_sub(c.sp, 1);
    let a2 = u16_specs::wrapping_sub(c.sp, 2);
    let hi = spec_high_byte(x);
    let lo = spec_low_byte(x);
    let b1 = spec_bus_write(c.bus, a1, hi);
    let b2 = spec_bus_write(b1, a2, lo);
    assert(a2 != a1);
    assert(spec_ram_cell(a1) != spec_ram_cell(a2));
    lemma_ram_read_after_write(c.bus, a1, hi);
    lemma_ram_read_after_write(b1, a2, lo);
    lemma_ram_write_frame(b1, a2, lo, a1);
    assert(spec_bus_read(b2, a2) == lo);
    assert(spec_bus_read(b2, a1) == hi);
    assert(u16_specs::wrapping_add(a2, 1) == a1);
    assert(u16_specs::wrapping_add(a1, 1) == c.sp);
    lemma_word_bytes(hi, lo, x);
}

/// One call of `step`, a nominal 4-cycle quantum.  The peripherals always
/// advance one tick.  While cycle debt remains from the last instruction,
/// the step only burns it.  Otherwise the stopped state clears; a halted
/// CPU with nothing pending waits; else it wakes, one pending interrupt is
/// dispatched if the master enable is set, the enable/disable latches left
/// by a prior `EI`/`DI` take effect — after the dispatch attempt, which
/// gives them their one-instruction latency — and one instruction is
/// fetched and executed, the quantum itself coming off the new debt.
pub open spec fn spec_step(c: CpuView) -> (CpuView, Result<(), DecodeError>) {
    let cb = CpuView { bus: spec_bus_update(c.bus), ..c };
    if cb.cycles > 0 {
        (
            CpuView {
                cycles: if cb.cycles >= 4 {
                    (cb.cycles - 4) as u32
                } else {
                    0u32
                },
                ..cb
            },
            Ok(()),
        )
    } else {
        let c2 = if cb.stop {
            CpuView { stop: false, ..cb }
        } else {
            cb
        };
        if c2.halt && spec_pending_interrupt(c2.bus.interrupt_flag, c2.bus.interrupt_enable)
            is None {
            (c2, Ok(()))
        } else {
            let c3 = if c2.halt {
                CpuView { halt: false, ..c2 }
            } else {
                c2
            };
            let c4 = if c3.ime {
                spec_dispatch(c3)
            } else {
                c3
            };
            let c5 = if c4.di_pending {
                CpuView { di_pending: false, ime: false, ..c4 }
            } else {
                c4
            };
            let c6 = if c5.ei_pending {
                CpuView { ei_pending: false, ime: true, ..c5 }
            } else {
                c5
            };
            let (c7, r) = spec_instr(c6);
            (
                CpuView {
                    cycles: if c7.cycles >= 4 {
                        (c7.cycles - 4) as u32
                    } else {
                        0u32
                    },
                    ..c7
                },
                r,
            )
        }
    }
}

/// EI latency: executing `EI` sets only the enable latch, not the master
/// enable itself, and during the instruction that follows no interrupt is
/// dispatched, however many are pending — that step is exactly the latch
/// taking effect followed by the instruction's own execution.  Only from
/// the step after that can a pending interrupt be serviced.
#[verifier::rlimit(30)]
#[verifier::spinoff_prover]
pub proof fn lemma_ei_latency(c: CpuView)
    requires
        c.cycles == 0,
        !c.halt,
        !c.stop,
        !c.ime,
        !c.di_pending,
        !c.ei_pending,
        spec_bus_read(spec_bus_update(c.bus), c.pc) == 0xFB,
    ensures
        !spec_step(c).0.ime,
        spec_step(c).0.ei_pending,
        ({
            let c1 = spec_step(c).0;
            let latched = CpuView {
                bus: spec_bus_update(c1.bus),
                ime: true,
                ei_pending: false,
                ..c1
            };
            let next = spec_instr(latched);
            spec_step(c1) == (
                CpuView {
                    cycles: if next.0.cycles >= 4 {
                        (next.0.cycles - 4) as u32
                    } else {
                        0u32
                    },
                    ..next.0
                },
                next.1,
            )
        }),
{
    assert(spec_parse(0xFB) == Some(Instruction::EI));
    let c1 = spec_step(c).0;
    // Only the EI arm of the execution table is needed, and only here.
    assert(c1.cycles == 0 && !c1.halt && !c1.stop && !c1.ime && !c1.di_pending
        && c1.ei_pending) by {
        reveal(spec_instr);
        reveal(spec_exec_instr);
    }
}

} // verus!
