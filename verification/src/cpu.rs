//! The CPU core: the register file, the interrupt latches, the run state,
//! and the fetch-decode-execute loop, proved to implement the machine
//! model in `semantics` exactly.

use vstd::prelude::*;

use crate::bits::check_bit;
use crate::bits::u16_as_u8s;
use crate::bits::u8s_as_u16;
use crate::instruction;
use crate::instruction::CB_Instruction;
use crate::instruction::Instruction;
use crate::interconnect::Interconnect;
use crate::interconnect::interrupt_vector;
use crate::semantics::CpuView;
use crate::semantics::DecodeError;
use crate::semantics::lemma_flags_byte;
use crate::semantics::spec_charged;
use crate::semantics::spec_cond;
use crate::semantics::spec_fetch;
use crate::semantics::spec_fetch16;
use crate::semantics::spec_flags_byte;
use crate::semantics::spec_mem_read;
use crate::semantics::spec_mem_write;
use crate::semantics::spec_pop16;
use crate::semantics::spec_push16;
use crate::semantics::spec_read_r;
use crate::semantics::spec_reg;
use crate::semantics::spec_set_af;
use crate::semantics::spec_set_bc;
use crate::semantics::spec_set_de;
use crate::semantics::spec_set_hl;
use crate::semantics::spec_write_r;
use crate::bits::sign_extend;
use crate::semantics::spec_add;
use crate::semantics::spec_adc;
use crate::semantics::spec_sub;
use crate::semantics::spec_sbc;
use crate::semantics::spec_and;
use crate::semantics::spec_or;
use crate::semantics::spec_xor;
use crate::semantics::spec_cp;
use crate::semantics::spec_inc;
use crate::semantics::spec_dec;
use crate::semantics::spec_add_hl;
use crate::semantics::spec_add_sp_n;
use crate::semantics::spec_inc_nn;
use crate::semantics::spec_dec_nn;
use crate::semantics::spec_daa;
use crate::semantics::spec_cpl;
use crate::semantics::spec_ccf;
use crate::semantics::spec_scf;
use crate::semantics::spec_stop;
use crate::semantics::spec_rlca;
use crate::semantics::spec_rla;
use crate::semantics::spec_rrca;
use crate::semantics::spec_rra;
use crate::semantics::spec_ld_r1_r2;
use crate::semantics::spec_ld_r1_n;
use crate::semantics::spec_ld_a_nnptr;
use crate::semantics::spec_ld_nnptr_a;
use crate::semantics::spec_ld_a_cptr;
use crate::semantics::spec_ld_cptr_a;
use crate::semantics::spec_ldd_a_hlptr;
use crate::semantics::spec_ldd_hlptr_a;
use crate::semantics::spec_ldi_a_hlptr;
use crate::semantics::spec_ldi_hlptr_a;
use crate::semantics::spec_ldh_nptr_a;
use crate::semantics::spec_ldh_a_nptr;
use crate::semantics::spec_ld_rr_nn;
use crate::semantics::spec_ld_sp_hl;
use crate::semantics::spec_ldhl_spn;
use crate::semantics::spec_ld_nn_sp;
use crate::semantics::spec_push_op;
use crate::semantics::spec_pop_op;
use crate::semantics::spec_jp_nn;
use crate::semantics::spec_jp_cc;
use crate::semantics::spec_jp_hlptr;
use crate::semantics::spec_jr;
use crate::semantics::spec_jr_cc;
use crate::semantics::spec_call;
use crate::semantics::spec_call_cc;
use crate::semantics::spec_rst;
use crate::semantics::spec_ret;
use crate::semantics::spec_ret_cc;
use crate::semantics::spec_reti;
use crate::semantics::spec_cb;
use crate::semantics::spec_exec_cb;
use crate::semantics::spec_exec_instr;
use crate::semantics::spec_instr;
use crate::semantics::spec_dispatch;
use crate::semantics::spec_step;
use vstd::wrapping::u16_specs;

verus! {

/// The closed register selector enumeration: the eight targets a 3-bit
/// operand index can name, with "memory at HL" a typed branch of its own.
#[derive(Debug, PartialEq, Eq, Structural, Clone, Copy)]
pub enum Reg8 {
    B,
    C,
    D,
    E,
    H,
    L,
    MemHL,
    A,
}

/// The register target named by a 3-bit operand index.
pub open spec fn spec_reg_selector(r: u8) -> Reg8 {
    if r == 0 {
        Reg8::B
    } else if r == 1 {
        Reg8::C
    } else if r == 2 {
        Reg8::D
    } else if r == 3 {
        Reg8::E
    } else if r == 4 {
        Reg8::H
    } else if r == 5 {
        Reg8::L
    } else if r == 6 {
        Reg8::MemHL
    } else {
        Reg8::A
    }
}

/// The register target named by a 3-bit operand index.
pub fn reg_selector(r: u8) -> (sel: Reg8)
    ensures
        sel == spec_reg_selector(r),
{
    if r == 0 {
        Reg8::B
    } else if r == 1 {
        Reg8::C
    } else if r == 2 {
        Reg8::D
    } else if r == 3 {
        Reg8::E
    } else if r == 4 {
        Reg8::H
    } else if r == 5 {
        Reg8::L
    } else if r == 6 {
        Reg8::MemHL
    } else {
        Reg8::A
    }
}

/// Whether the instruction belongs to the load/stack group.
fn is_load_instr(i: Instruction) -> (r: bool)
    ensures
        r == crate::semantics::spec_is_load_instr(i),
{
    match i {
        Instruction::LD_r1_n(..) => true,
        Instruction::LD_r1_r2(..) => true,
        Instruction::LD_A_nnptr => true,
        Instruction::LD_nnptr_A => true,
        Instruction::LD_A_Cptr => true,
        Instruction::LD_Cptr_A => true,
        Instruction::LDD_A_HLptr => true,
        Instruction::LDD_HLptr_A => true,
        Instruction::LDI_A_HLptr => true,
        Instruction::LDI_HLptr_A => true,
        Instruction::LDH_nptr_A => true,
        Instruction::LDH_A_nptr => true,
        Instruction::LD_rr_nn => true,
        Instruction::LD_SP_HL => true,
        Instruction::LDHL_SPn => true,
        Instruction::LD_nn_SP => true,
        Instruction::PUSH_nn => true,
        Instruction::POP_nn => true,
        _ => false,
    }
}

/// Whether the instruction belongs to the arithmetic/logical group.
fn is_alu_instr(i: Instruction) -> (r: bool)
    ensures
        r == crate::semantics::spec_is_alu_instr(i),
{
    match i {
        Instruction::ADD_n(..) => true,
        Instruction::ADC_n(..) => true,
        Instruction::SUB_n(..) => true,
        Instruction::SBC_n(..) => true,
        Instruction::AND_n(..) => true,
        Instruction::OR_n(..) => true,
        Instruction::XOR_n(..) => true,
        Instruction::CP_n(..) => true,
        Instruction::INC_n(..) => true,
        Instruction::DEC_n(..) => true,
        Instruction::ADD_HL_nn(..) => true,
        Instruction::ADD_SP_n => true,
        Instruction::INC_nn(..) => true,
        Instruction::DEC_nn(..) => true,
        Instruction::DAA => true,
        Instruction::CPL => true,
        Instruction::CCF => true,
        Instruction::SCF => true,
        Instruction::RLCA => true,
        Instruction::RLA => true,
        Instruction::RRCA => true,
        Instruction::RRA => true,
        _ => false,
    }
}

pub struct Cpu {
    reg_a: u8,
    reg_b: u8,
    reg_c: u8,
    reg_d: u8,
    reg_e: u8,
    reg_f: u8,
    reg_h: u8,
    reg_l: u8,

    reg_sp: u16,
    reg_pc: u16,

    // Interrupt master enable and the one-instruction-latency latches
    // left behind by DI and EI.
    flag_ime: bool,
    flag_disabling_interrupts: bool,
    flag_enabling_interrupts: bool,

    pub interconnect: Interconnect,
    cycles: u32,
    cycle_count: u64,
    halt: bool,
    stop: bool,
}

impl View for Cpu {
    type V = CpuView;

    closed spec fn view(&self) -> CpuView {
        CpuView {
            a: self.reg_a,
            b: self.reg_b,
            c: self.reg_c,
            d: self.reg_d,
            e: self.reg_e,
            f: self.reg_f,
            h: self.reg_h,
            l: self.reg_l,
            sp: self.reg_sp,
            pc: self.reg_pc,
            ime: self.flag_ime,
            di_pending: self.flag_disabling_interrupts,
            ei_pending: self.flag_enabling_interrupts,
            halt: self.halt,
            stop: self.stop,
            bus: self.interconnect@,
            cycles: self.cycles,
            cycle_count: self.cycle_count,
        }
    }
}

impl Cpu {
    /// A fresh CPU over the given bus: registers and accounts cleared,
    /// interrupts masters off, running at address zero.
    pub fn new(interconnect: Interconnect) -> (r: Self)
        requires
            interconnect@.wf(),
        ensures
            r@ == (CpuView {
                a: 0,
                b: 0,
                c: 0,
                d: 0,
                e: 0,
                f: 0,
                h: 0,
                l: 0,
                sp: 0,
                pc: 0,
                ime: false,
                di_pending: false,
                ei_pending: false,
                halt: false,
                stop: false,
                bus: interconnect@,
                cycles: 0,
                cycle_count: 0,
            }),
            r@.wf(),
    {
        proof {
            assert(0u8 & 0x0F == 0) by (bit_vector);
        }
        Cpu {
            reg_a: 0,
            reg_b: 0,
            reg_c: 0,
            reg_d: 0,
            reg_e: 0,
            reg_f: 0,
            reg_h: 0,
            reg_l: 0,
            reg_sp: 0,
            reg_pc: 0,

            flag_ime: false,
            flag_disabling_interrupts: false,
            flag_enabling_interrupts: false,
            halt: false,
            stop: false,
            interconnect,
            cycles: 0,
            cycle_count: 0,
        }
    }

    pub fn pc(&self) -> (r: u16)
        ensures
            r == self@.pc,
    {
        self.reg_pc
    }

    pub fn sp(&self) -> (r: u16)
        ensures
            r == self@.sp,
    {
        self.reg_sp
    }

    /// The total number of cycles ever charged, wrapping at the counter's
    /// width.
    pub fn cycle_count(&self) -> (r: u64)
        ensures
            r == self@.cycle_count,
    {
        self.cycle_count
    }

    pub fn flag_z(&self) -> (r: bool)
        ensures
            r == self@.flag_z(),
    {
        check_bit(self.reg_f, 7)
    }

    pub fn flag_n(&self) -> (r: bool)
        ensures
            r == self@.flag_n(),
    {
        check_bit(self.reg_f, 6)
    }

    pub fn flag_h(&self) -> (r: bool)
        ensures
            r == self@.flag_h(),
    {
        check_bit(self.reg_f, 5)
    }

    pub fn flag_c(&self) -> (r: bool)
        ensures
            r == self@.flag_c(),
    {
        check_bit(self.reg_f, 4)
    }

    pub fn af(&self) -> (r: u16)
        ensures
            r == self@.af(),
    {
        u8s_as_u16((self.reg_a, self.reg_f))
    }

    pub fn bc(&self) -> (r: u16)
        ensures
            r == self@.bc(),
    {
        u8s_as_u16((self.reg_b, self.reg_c))
    }

    pub fn de(&self) -> (r: u16)
        ensures
            r == self@.de(),
    {
        u8s_as_u16((self.reg_d, self.reg_e))
    }

    pub fn hl(&self) -> (r: u16)
        ensures
            r == self@.hl(),
    {
        u8s_as_u16((self.reg_h, self.reg_l))
    }

    /// Writes all four flags at once; the assembled byte's low nibble is
    /// zero.
    fn set_flags(&mut self, z: bool, n: bool, h: bool, c: bool)
        ensures
            final(self)@ == (CpuView { f: spec_flags_byte(z, n, h, c), ..old(self)@ }),
            final(self)@.f & 0x0F == 0,
    {
        proof {
            lemma_flags_byte(z, n, h, c);
        }
        self.reg_f = (((if z {
            0x80u8
        } else {
            0u8
        }) | (if n {
            0x40u8
        } else {
            0u8
        })) | (if h {
            0x20u8
        } else {
            0u8
        })) | (if c {
            0x10u8
        } else {
            0u8
        });
    }

    fn set_af(&mut self, val: u16)
        ensures
            final(self)@ == spec_set_af(old(self)@, val),
            final(self)@.f & 0x0F == 0,
    {
        let (h, l) = u16_as_u8s(val);
        proof {
            let lv = l;
            assert(lv & 0xF0 & 0x0F == 0) by (bit_vector);
        }
        self.reg_a = h;
        self.reg_f = l & 0xF0;
    }

    fn set_bc(&mut self, val: u16)
        ensures
            final(self)@ == spec_set_bc(old(self)@, val),
    {
        let (h, l) = u16_as_u8s(val);
        self.reg_b = h;
        self.reg_c = l;
    }

    fn set_de(&mut self, val: u16)
        ensures
            final(self)@ == spec_set_de(old(self)@, val),
    {
        let (h, l) = u16_as_u8s(val);
        self.reg_d = h;
        self.reg_e = l;
    }

    fn set_hl(&mut self, val: u16)
        ensures
            final(self)@ == spec_set_hl(old(self)@, val),
    {
        let (h, l) = u16_as_u8s(val);
        self.reg_h = h;
        self.reg_l = l;
    }

    /// The branch condition named by a 2-bit condition code.
    fn check_cc(&self, cc: u8) -> (r: bool)
        ensures
            r == spec_cond(self@, cc),
    {
        if cc == 0 {
            !self.flag_z()
        } else if cc == 1 {
            self.flag_z()
        } else if cc == 2 {
            !self.flag_c()
        } else {
            self.flag_c()
        }
    }

    /// Charges cycles to the debt and the running total.
    fn add_cycles(&mut self, amount: u32)
        requires
            old(self)@.cycles + amount <= u32::MAX,
        ensures
            final(self)@ == spec_charged(old(self)@, amount),
    {
        self.cycles = self.cycles + amount;
        self.cycle_count = self.cycle_count.wrapping_add(amount as u64);
    }

    /// A bus read: 4 cycles and the routed byte.
    fn read_mem(&mut self, address: u16) -> (r: u8)
        requires
            old(self)@.bus.wf(),
            old(self)@.cycles + 4 <= u32::MAX,
        ensures
            (final(self)@, r) == spec_mem_read(old(self)@, address),
    {
        self.add_cycles(4);
        self.interconnect.read_mem(address)
    }

    /// A bus write: 4 cycles and the routed store.
    fn write_mem(&mut self, address: u16, value: u8)
        requires
            old(self)@.bus.wf(),
            old(self)@.cycles + 4 <= u32::MAX,
        ensures
            final(self)@ == spec_mem_write(old(self)@, address, value),
            final(self)@.bus.wf(),
    {
        self.add_cycles(4);
        self.interconnect.write_mem(address, value);
    }

    /// Fetches one operand byte at the program counter.
    fn read_byte(&mut self) -> (r: u8)
        requires
            old(self)@.bus.wf(),
            old(self)@.cycles + 4 <= u32::MAX,
        ensures
            (final(self)@, r) == spec_fetch(old(self)@),
    {
        let ret = self.read_mem(self.reg_pc);
        self.reg_pc = self.reg_pc.wrapping_add(1);
        ret
    }

    /// Fetches a 16-bit immediate, low byte first.
    fn fetch16(&mut self) -> (r: u16)
        requires
            old(self)@.bus.wf(),
            old(self)@.cycles + 8 <= u32::MAX,
        ensures
            (final(self)@, r) == spec_fetch16(old(self)@),
    {
        let low = self.read_byte();
        let high = self.read_byte();
        u8s_as_u16((high, low))
    }

    fn push_stack(&mut self, value: u8)
        requires
            old(self)@.bus.wf(),
            old(self)@.cycles + 4 <= u32::MAX,
        ensures
            final(self)@ == spec_mem_write(
                CpuView { sp: u16_specs::wrapping_sub(old(self)@.sp, 1), ..old(self)@ },
                u16_specs::wrapping_sub(old(self)@.sp, 1),
                value,
            ),
            final(self)@.bus.wf(),
    {
        self.reg_sp = self.reg_sp.wrapping_sub(1);
        self.write_mem(self.reg_sp, value);
    }

    /// Pushes a word, high byte first, the stack pointer pre-decremented
    /// for each byte.
    fn push_stack_u16(&mut self, value: u16)
        requires
            old(self)@.bus.wf(),
            old(self)@.cycles + 8 <= u32::MAX,
        ensures
            final(self)@ == spec_push16(old(self)@, value),
            final(self)@.bus.wf(),
    {
        let (high, low) = u16_as_u8s(value);
        self.push_stack(high);
        self.push_stack(low);
    }

    fn pop_stack(&mut self) -> (r: u8)
        requires
            old(self)@.bus.wf(),
            old(self)@.cycles + 4 <= u32::MAX,
        ensures
            r == crate::interconnect::spec_bus_read(old(self)@.bus, old(self)@.sp),
            final(self)@ == spec_charged(
                CpuView { sp: u16_specs::wrapping_add(old(self)@.sp, 1), ..old(self)@ },
                4,
            ),
    {
        // Reading before the increment returns the byte the stack pointer
        // still points at.
        let ret = self.read_mem(self.reg_sp);
        self.reg_sp = self.reg_sp.wrapping_add(1);
        ret
    }

    /// Pops a word, low byte first — the exact inverse of the push.
    fn pop_stack_u16(&mut self) -> (r: u16)
        requires
            old(self)@.bus.wf(),
            old(self)@.cycles + 8 <= u32::MAX,
        ensures
            (final(self)@, r) == spec_pop16(old(self)@),
    {
        let low = self.pop_stack();
        let high = self.pop_stack();
        u8s_as_u16((high, low))
    }

    /// Reads the operand register named by a 3-bit index; index 6 reads
    /// memory at HL.
    fn read_reg_r(&mut self, r: u8) -> (ret: u8)
        requires
            old(self)@.bus.wf(),
            old(self)@.cycles + 4 <= u32::MAX,
        ensures
            (final(self)@, ret) == spec_read_r(old(self)@, r),
    {
        match reg_selector(r) {
            Reg8::B => self.reg_b,
            Reg8::C => self.reg_c,
            Reg8::D => self.reg_d,
            Reg8::E => self.reg_e,
            Reg8::H => self.reg_h,
            Reg8::L => self.reg_l,
            Reg8::MemHL => {
                let addr = self.hl();
                self.read_mem(addr)
            }
            Reg8::A => self.reg_a,
        }
    }

    /// The register pair named by a 2-bit index: BC, DE, HL, SP.
    fn get_pair(&self, i: u8) -> (r: u16)
        ensures
            r == crate::semantics::spec_pair(self@, i),
    {
        if i == 0 {
            self.bc()
        } else if i == 1 {
            self.de()
        } else if i == 2 {
            self.hl()
        } else {
            self.reg_sp
        }
    }

    fn set_pair(&mut self, i: u8, v: u16)
        ensures
            final(self)@ == crate::semantics::spec_set_pair(old(self)@, i, v),
    {
        if i == 0 {
            self.set_bc(v);
        } else if i == 1 {
            self.set_de(v);
        } else if i == 2 {
            self.set_hl(v);
        } else {
            self.reg_sp = v;
        }
    }

    /// The ALU operand named by `r`: 8 fetches an immediate byte, the rest
    /// read an operand register.
    fn operand(&mut self, r: u8) -> (ret: u8)
        requires
            old(self)@.bus.wf(),
            old(self)@.cycles + 4 <= u32::MAX,
        ensures
            (final(self)@, ret) == crate::semantics::spec_operand(old(self)@, r),
    {
        if r == 8 {
            self.read_byte()
        } else {
            self.read_reg_r(r)
        }
    }

    /// Writes the operand register named by a 3-bit index; index 6 writes
    /// memory at HL.
    fn write_reg_r(&mut self, r: u8, value: u8)
        requires
            old(self)@.bus.wf(),
            old(self)@.cycles + 4 <= u32::MAX,
        ensures
            final(self)@ == spec_write_r(old(self)@, r, value),
            final(self)@.bus.wf(),
    {
        match reg_selector(r) {
            Reg8::B => self.reg_b = value,
            Reg8::C => self.reg_c = value,
            Reg8::D => self.reg_d = value,
            Reg8::E => self.reg_e = value,
            Reg8::H => self.reg_h = value,
            Reg8::L => self.reg_l = value,
            Reg8::MemHL => {
                let addr = self.hl();
                self.write_mem(addr, value);
            }
            Reg8::A => self.reg_a = value,
        }
    }

    fn op_ld_r1_r2(&mut self, r1: u8, r2: u8)
        requires
            old(self)@.bus.wf(),
            old(self)@.cycles + 64 <= u32::MAX,
        ensures
            final(self)@ == spec_ld_r1_r2(old(self)@, r1, r2),
            final(self)@.bus.wf(),
            final(self)@.f == old(self)@.f,
    {
        proof {
            reveal(crate::semantics::spec_ld_r1_r2);
        }
        let value = self.read_reg_r(r2);
        self.write_reg_r(r1, value);
    }

    fn op_ld_r1_n(&mut self, r1: u8)
        requires
            old(self)@.bus.wf(),
            old(self)@.cycles + 64 <= u32::MAX,
        ensures
            final(self)@ == spec_ld_r1_n(old(self)@, r1),
            final(self)@.bus.wf(),
            final(self)@.f == old(self)@.f,
    {
        proof {
            reveal(crate::semantics::spec_ld_r1_n);
        }
        let value = self.read_byte();
        self.write_reg_r(r1, value);
    }

    fn op_ld_a_nnptr(&mut self, opcode: u8)
        requires
            old(self)@.bus.wf(),
            old(self)@.cycles + 64 <= u32::MAX,
        ensures
            final(self)@ == spec_ld_a_nnptr(old(self)@, opcode),
            final(self)@.bus.wf(),
            final(self)@.f == old(self)@.f,
    {
        proof {
            reveal(crate::semantics::spec_ld_a_nnptr);
        }
        if opcode == 0x0A {
            let addr = self.bc();
            self.reg_a = self.read_mem(addr);
        } else if opcode == 0x1A {
            let addr = self.de();
            self.reg_a = self.read_mem(addr);
        } else {
            let addr = self.fetch16();
            self.reg_a = self.read_mem(addr);
        }
    }

    fn op_ld_nnptr_a(&mut self, opcode: u8)
        requires
            old(self)@.bus.wf(),
            old(self)@.cycles + 64 <= u32::MAX,
        ensures
            final(self)@ == spec_ld_nnptr_a(old(self)@, opcode),
            final(self)@.bus.wf(),
            final(self)@.f == old(self)@.f,
    {
        proof {
            reveal(crate::semantics::spec_ld_nnptr_a);
        }
        if opcode == 0x02 {
            let addr = self.bc();
            self.write_mem(addr, self.reg_a);
        } else if opcode == 0x12 {
            let addr = self.de();
            self.write_mem(addr, self.reg_a);
        } else {
            let addr = self.fetch16();
            self.write_mem(addr, self.reg_a);
        }
    }

    fn op_ld_a_cptr(&mut self)
        requires
            old(self)@.bus.wf(),
            old(self)@.cycles + 64 <= u32::MAX,
        ensures
            final(self)@ == spec_ld_a_cptr(old(self)@),
            final(self)@.bus.wf(),
            final(self)@.f == old(self)@.f,
    {
        proof {
            reveal(crate::semantics::spec_ld_a_cptr);
        }
        let address = 0xFF00 + self.reg_c as u16;
        self.reg_a = self.read_mem(address);
    }

    fn op_ld_cptr_a(&mut self)
        requires
            old(self)@.bus.wf(),
            old(self)@.cycles + 64 <= u32::MAX,
        ensures
            final(self)@ == spec_ld_cptr_a(old(self)@),
            final(self)@.bus.wf(),
            final(self)@.f == old(self)@.f,
    {
        proof {
            reveal(crate::semantics::spec_ld_cptr_a);
        }
        let address = 0xFF00 + self.reg_c as u16;
        self.write_mem(address, self.reg_a);
    }

    fn op_ldd_a_hlptr(&mut self)
        requires
            old(self)@.bus.wf(),
            old(self)@.cycles + 64 <= u32::MAX,
        ensures
            final(self)@ == spec_ldd_a_hlptr(old(self)@),
            final(self)@.bus.wf(),
            final(self)@.f == old(self)@.f,
    {
        proof {
            reveal(crate::semantics::spec_ldd_a_hlptr);
        }
        let address = self.hl();
        self.reg_a = self.read_mem(address);
        self.set_hl(address.wrapping_sub(1));
    }

    fn op_ldd_hlptr_a(&mut self)
        requires
            old(self)@.bus.wf(),
            old(self)@.cycles + 64 <= u32::MAX,
        ensures
            final(self)@ == spec_ldd_hlptr_a(old(self)@),
            final(self)@.bus.wf(),
            final(self)@.f == old(self)@.f,
    {
        proof {
            reveal(crate::semantics::spec_ldd_hlptr_a);
        }
        let address = self.hl();
        self.write_mem(address, self.reg_a);
        self.set_hl(address.wrapping_sub(1));
    }

    fn op_ldi_a_hlptr(&mut self)
        requires
            old(self)@.bus.wf(),
            old(self)@.cycles + 64 <= u32::MAX,
        ensures
            final(self)@ == spec_ldi_a_hlptr(old(self)@),
            final(self)@.bus.wf(),
            final(self)@.f == old(self)@.f,
    {
        proof {
            reveal(crate::semantics::spec_ldi_a_hlptr);
        }
        let address = self.hl();
        self.reg_a = self.read_mem(address);
        self.set_hl(address.wrapping_add(1));
    }

    fn op_ldi_hlptr_a(&mut self)
        requires
            old(self)@.bus.wf(),
            old(self)@.cycles + 64 <= u32::MAX,
        ensures
            final(self)@ == spec_ldi_hlptr_a(old(self)@),
            final(self)@.bus.wf(),
            final(self)@.f == old(self)@.f,
    {
        proof {
            reveal(crate::semantics::spec_ldi_hlptr_a);
        }
        let address = self.hl();
        self.write_mem(address, self.reg_a);
        self.set_hl(address.wrapping_add(1));
    }

    fn op_ldh_nptr_a(&mut self)
        requires
            old(self)@.bus.wf(),
            old(self)@.cycles + 64 <= u32::MAX,
        ensures
            final(self)@ == spec_ldh_nptr_a(old(self)@),
            final(self)@.bus.wf(),
            final(self)@.f == old(self)@.f,
    {
        proof {
            reveal(crate::semantics::spec_ldh_nptr_a);
        }
        let n = self.read_byte();
        self.write_mem(0xFF00 + n as u16, self.reg_a);
    }

    fn op_ldh_a_nptr(&mut self)
        requires
            old(self)@.bus.wf(),
            old(self)@.cycles + 64 <= u32::MAX,
        ensures
            final(self)@ == spec_ldh_a_nptr(old(self)@),
            final(self)@.bus.wf(),
            final(self)@.f == old(self)@.f,
    {
        proof {
            reveal(crate::semantics::spec_ldh_a_nptr);
        }
        let n = self.read_byte();
        self.reg_a = self.read_mem(0xFF00 + n as u16);
    }

    fn op_ld_rr_nn(&mut self, opcode: u8)
        requires
            old(self)@.bus.wf(),
            old(self)@.cycles + 64 <= u32::MAX,
        ensures
            final(self)@ == spec_ld_rr_nn(old(self)@, opcode),
            final(self)@.bus.wf(),
            final(self)@.f == old(self)@.f,
    {
        proof {
            reveal(crate::semantics::spec_ld_rr_nn);
        }
        let value = self.fetch16();
        if opcode == 0x01 {
            self.set_bc(value);
        } else if opcode == 0x11 {
            self.set_de(value);
        } else if opcode == 0x21 {
            self.set_hl(value);
        } else {
            self.reg_sp = value;
        }
    }

    fn op_ld_sp_hl(&mut self)
        requires
            old(self)@.cycles + 64 <= u32::MAX,
        ensures
            final(self)@ == spec_ld_sp_hl(old(self)@),
            final(self)@.f == old(self)@.f,
            final(self)@.bus == old(self)@.bus,
    {
        proof {
            reveal(crate::semantics::spec_ld_sp_hl);
        }
        self.reg_sp = self.hl();
        self.add_cycles(4);
    }

    fn op_ldhl_spn(&mut self)
        requires
            old(self)@.bus.wf(),
            old(self)@.cycles + 64 <= u32::MAX,
        ensures
            final(self)@ == spec_ldhl_spn(old(self)@),
            final(self)@.bus.wf(),
            final(self)@.f & 0x0F == 0,
    {
        proof {
            reveal(crate::semantics::spec_ldhl_spn);
        }
        let nb = self.read_byte();
        let n16 = sign_extend(nb);
        let sp = self.reg_sp;
        let half = ((sp & 0xF) as u32) + ((n16 & 0xF) as u32) > 0xF;
        let carry = ((sp & 0xFF) as u32) + ((n16 & 0xFF) as u32) > 0xFF;
        let result = ((sp as u32) + (n16 as u32)) as u16;
        self.set_flags(false, false, half, carry);
        self.set_hl(result);
        self.add_cycles(4);
    }

    fn op_ld_nn_sp(&mut self)
        requires
            old(self)@.bus.wf(),
            old(self)@.cycles + 64 <= u32::MAX,
        ensures
            final(self)@ == spec_ld_nn_sp(old(self)@),
            final(self)@.bus.wf(),
            final(self)@.f == old(self)@.f,
    {
        proof {
            reveal(crate::semantics::spec_ld_nn_sp);
        }
        let nn = self.fetch16();
        let (high, low) = u16_as_u8s(self.reg_sp);
        self.write_mem(nn, low);
        self.write_mem(nn.wrapping_add(1), high);
    }

    fn op_push(&mut self, opcode: u8)
        requires
            old(self)@.bus.wf(),
            old(self)@.cycles + 64 <= u32::MAX,
        ensures
            final(self)@ == spec_push_op(old(self)@, opcode),
            final(self)@.bus.wf(),
            final(self)@.f == old(self)@.f,
    {
        proof {
            reveal(crate::semantics::spec_push_op);
        }
        let value = if opcode == 0xF5 {
            self.af()
        } else if opcode == 0xC5 {
            self.bc()
        } else if opcode == 0xD5 {
            self.de()
        } else {
            self.hl()
        };
        self.push_stack_u16(value);
        self.add_cycles(4);
    }

    fn op_pop(&mut self, opcode: u8)
        requires
            old(self)@.bus.wf(),
            old(self)@.cycles + 64 <= u32::MAX,
        ensures
            final(self)@ == spec_pop_op(old(self)@, opcode),
            final(self)@.bus.wf(),
            old(self)@.f & 0x0F == 0 ==> final(self)@.f & 0x0F == 0,
    {
        proof {
            reveal(crate::semantics::spec_pop_op);
        }
        let value = self.pop_stack_u16();
        if opcode == 0xF1 {
            self.set_af(value);
        } else if opcode == 0xC1 {
            self.set_bc(value);
        } else if opcode == 0xD1 {
            self.set_de(value);
        } else {
            self.set_hl(value);
        }
    }

    fn op_add(&mut self, r: u8)
        requires
            old(self)@.bus.wf(),
            old(self)@.cycles + 64 <= u32::MAX,
        ensures
            final(self)@ == spec_add(old(self)@, r),
            final(self)@.bus.wf(),
            final(self)@.f & 0x0F == 0,
    {
        proof {
            reveal(crate::semantics::spec_add);
        }
        let n = self.operand(r);
        let a = self.reg_a;
        let sum: u16 = a as u16 + n as u16;
        let half = ((a & 0xF) as u16) + ((n & 0xF) as u16) > 0xF;
        self.reg_a = sum as u8;
        self.set_flags(sum as u8 == 0, false, half, sum > 0xFF);
    }

    fn op_adc(&mut self, r: u8)
        requires
            old(self)@.bus.wf(),
            old(self)@.cycles + 64 <= u32::MAX,
        ensures
            final(self)@ == spec_adc(old(self)@, r),
            final(self)@.bus.wf(),
            final(self)@.f & 0x0F == 0,
    {
        proof {
            reveal(crate::semantics::spec_adc);
        }
        let n = self.operand(r);
        let a = self.reg_a;
        let cin: u8 = if self.flag_c() {
            1
        } else {
            0
        };
        let sum: u16 = a as u16 + n as u16 + cin as u16;
        let half = ((a & 0xF) as u16) + ((n & 0xF) as u16) + cin as u16 > 0xF;
        self.reg_a = sum as u8;
        self.set_flags(sum as u8 == 0, false, half, sum > 0xFF);
    }

    fn op_sub(&mut self, r: u8)
        requires
            old(self)@.bus.wf(),
            old(self)@.cycles + 64 <= u32::MAX,
        ensures
            final(self)@ == spec_sub(old(self)@, r),
            final(self)@.bus.wf(),
            final(self)@.f & 0x0F == 0,
    {
        proof {
            reveal(crate::semantics::spec_sub);
        }
        let n = self.operand(r);
        let a = self.reg_a;
        let res = a.wrapping_sub(n);
        self.reg_a = res;
        self.set_flags(res == 0, true, (a & 0xF) < (n & 0xF), a < n);
    }

    fn op_sbc(&mut self, r: u8)
        requires
            old(self)@.bus.wf(),
            old(self)@.cycles + 64 <= u32::MAX,
        ensures
            final(self)@ == spec_sbc(old(self)@, r),
            final(self)@.bus.wf(),
            final(self)@.f & 0x0F == 0,
    {
        proof {
            reveal(crate::semantics::spec_sbc);
        }
        let n = self.operand(r);
        let a = self.reg_a;
        let cin: u8 = if self.flag_c() {
            1
        } else {
            0
        };
        let res = a.wrapping_sub(n).wrapping_sub(cin);
        let half = ((a & 0xF) as u16) < ((n & 0xF) as u16) + cin as u16;
        let borrow = (a as u16) < n as u16 + cin as u16;
        self.reg_a = res;
        self.set_flags(res == 0, true, half, borrow);
    }

    fn op_and(&mut self, r: u8)
        requires
            old(self)@.bus.wf(),
            old(self)@.cycles + 64 <= u32::MAX,
        ensures
            final(self)@ == spec_and(old(self)@, r),
            final(self)@.bus.wf(),
            final(self)@.f & 0x0F == 0,
    {
        proof {
            reveal(crate::semantics::spec_and);
        }
        let n = self.operand(r);
        let res = self.reg_a & n;
        self.reg_a = res;
        self.set_flags(res == 0, false, true, false);
    }

    fn op_or(&mut self, r: u8)
        requires
            old(self)@.bus.wf(),
            old(self)@.cycles + 64 <= u32::MAX,
        ensures
            final(self)@ == spec_or(old(self)@, r),
            final(self)@.bus.wf(),
            final(self)@.f & 0x0F == 0,
    {
        proof {
            reveal(crate::semantics::spec_or);
        }
        let n = self.operand(r);
        let res = self.reg_a | n;
        self.reg_a = res;
        self.set_flags(res == 0, false, false, false);
    }

    fn op_xor(&mut self, r: u8)
        requires
            old(self)@.bus.wf(),
            old(self)@.cycles + 64 <= u32::MAX,
        ensures
            final(self)@ == spec_xor(old(self)@, r),
            final(self)@.bus.wf(),
            final(self)@.f & 0x0F == 0,
    {
        proof {
            reveal(crate::semantics::spec_xor);
        }
        let n = self.operand(r);
        let res = self.reg_a ^ n;
        self.reg_a = res;
        self.set_flags(res == 0, false, false, false);
    }

    fn op_cp(&mut self, r: u8)
        requires
            old(self)@.bus.wf(),
            old(self)@.cycles + 64 <= u32::MAX,
        ensures
            final(self)@ == spec_cp(old(self)@, r),
            final(self)@.bus.wf(),
            final(self)@.f & 0x0F == 0,
    {
        proof {
            reveal(crate::semantics::spec_cp);
        }
        let n = self.operand(r);
        let a = self.reg_a;
        self.set_flags(a == n, true, (a & 0xF) < (n & 0xF), a < n);
    }

    fn op_inc(&mut self, r: u8)
        requires
            old(self)@.bus.wf(),
            old(self)@.cycles + 64 <= u32::MAX,
        ensures
            final(self)@ == spec_inc(old(self)@, r),
            final(self)@.bus.wf(),
            final(self)@.f & 0x0F == 0,
    {
        proof {
            reveal(crate::semantics::spec_inc);
        }
        let v = self.read_reg_r(r);
        let res = ((v as u16) + 1) as u8;
        let carry = self.flag_c();
        self.set_flags(res == 0, false, res & 0xF == 0, carry);
        self.write_reg_r(r, res);
    }

    fn op_dec(&mut self, r: u8)
        requires
            old(self)@.bus.wf(),
            old(self)@.cycles + 64 <= u32::MAX,
        ensures
            final(self)@ == spec_dec(old(self)@, r),
            final(self)@.bus.wf(),
            final(self)@.f & 0x0F == 0,
    {
        proof {
            reveal(crate::semantics::spec_dec);
        }
        let v = self.read_reg_r(r);
        let res = v.wrapping_sub(1);
        let carry = self.flag_c();
        self.set_flags(res == 0, true, res & 0xF == 0xF, carry);
        self.write_reg_r(r, res);
    }

    fn op_add_hl(&mut self, i: u8)
        requires
            old(self)@.cycles + 64 <= u32::MAX,
        ensures
            final(self)@ == spec_add_hl(old(self)@, i),
            final(self)@.f & 0x0F == 0,
            final(self)@.bus == old(self)@.bus,
    {
        proof {
            reveal(crate::semantics::spec_add_hl);
        }
        let v = self.get_pair(i);
        let hl = self.hl();
        let half = ((hl & 0xFFF) as u32) + ((v & 0xFFF) as u32) > 0xFFF;
        let carry = (hl as u32) + (v as u32) > 0xFFFF;
        let zero = self.flag_z();
        let result = ((hl as u32) + (v as u32)) as u16;
        self.set_flags(zero, false, half, carry);
        self.set_hl(result);
        self.add_cycles(4);
    }

    fn op_add_sp_n(&mut self)
        requires
            old(self)@.bus.wf(),
            old(self)@.cycles + 64 <= u32::MAX,
        ensures
            final(self)@ == spec_add_sp_n(old(self)@),
            final(self)@.bus.wf(),
            final(self)@.f & 0x0F == 0,
    {
        proof {
            reveal(crate::semantics::spec_add_sp_n);
        }
        let nb = self.read_byte();
        let n16 = sign_extend(nb);
        let sp = self.reg_sp;
        let half = ((sp & 0xF) as u32) + ((n16 & 0xF) as u32) > 0xF;
        let carry = ((sp & 0xFF) as u32) + ((n16 & 0xFF) as u32) > 0xFF;
        let result = ((sp as u32) + (n16 as u32)) as u16;
        self.set_flags(false, false, half, carry);
        self.reg_sp = result;
        self.add_cycles(8);
    }

    fn op_inc_nn(&mut self, i: u8)
        requires
            old(self)@.cycles + 64 <= u32::MAX,
        ensures
            final(self)@ == spec_inc_nn(old(self)@, i),
            final(self)@.f == old(self)@.f,
            final(self)@.bus == old(self)@.bus,
    {
        proof {
            reveal(crate::semantics::spec_inc_nn);
        }
        let value = self.get_pair(i);
        self.set_pair(i, value.wrapping_add(1));
        self.add_cycles(4);
    }

    fn op_dec_nn(&mut self, i: u8)
        requires
            old(self)@.cycles + 64 <= u32::MAX,
        ensures
            final(self)@ == spec_dec_nn(old(self)@, i),
            final(self)@.f == old(self)@.f,
            final(self)@.bus == old(self)@.bus,
    {
        proof {
            reveal(crate::semantics::spec_dec_nn);
        }
        let value = self.get_pair(i);
        self.set_pair(i, value.wrapping_sub(1));
        self.add_cycles(4);
    }

    fn op_daa(&mut self)
        ensures
            final(self)@ == spec_daa(old(self)@),
            final(self)@.f & 0x0F == 0,
            final(self)@.bus == old(self)@.bus,
    {
        proof {
            reveal(crate::semantics::spec_daa);
        }
        let mut a: u16 = self.reg_a as u16;
        if !self.flag_n() {
            // After an addition: push each nibble back into decimal range.
            if self.flag_h() || ((a & 0xF) > 9) {
                a = a + 0x06;
            }
            if self.flag_c() || (a > 0x9F) {
                a = a + 0x60;
            }
        } else {
            // After a subtraction: the corrections are subtracted instead.
            if self.flag_h() {
                a = a.wrapping_sub(0x06) & 0xFF;
            }
            if self.flag_c() {
                a = a.wrapping_sub(0x60);
            }
        }
        let carry = if a >= 0x100 {
            true
        } else {
            self.flag_c()
        };
        let res = (a & 0xFF) as u8;
        let subtract = self.flag_n();
        self.reg_a = res;
        self.set_flags(res == 0, subtract, false, carry);
    }

    fn op_cpl(&mut self)
        ensures
            final(self)@ == spec_cpl(old(self)@),
            final(self)@.f & 0x0F == 0,
            final(self)@.bus == old(self)@.bus,
    {
        proof {
            reveal(crate::semantics::spec_cpl);
        }
        self.reg_a = !self.reg_a;
        let zero = self.flag_z();
        let carry = self.flag_c();
        self.set_flags(zero, true, true, carry);
    }

    fn op_ccf(&mut self)
        ensures
            final(self)@ == spec_ccf(old(self)@),
            final(self)@.f & 0x0F == 0,
            final(self)@.bus == old(self)@.bus,
    {
        proof {
            reveal(crate::semantics::spec_ccf);
        }
        let zero = self.flag_z();
        let carry = self.flag_c();
        self.set_flags(zero, false, false, !carry);
    }

    fn op_scf(&mut self)
        ensures
            final(self)@ == spec_scf(old(self)@),
            final(self)@.f & 0x0F == 0,
            final(self)@.bus == old(self)@.bus,
    {
        proof {
            reveal(crate::semantics::spec_scf);
        }
        let zero = self.flag_z();
        self.set_flags(zero, false, false, true);
    }

    fn op_stop(&mut self)
        requires
            old(self)@.bus.wf(),
            old(self)@.cycles + 64 <= u32::MAX,
        ensures
            final(self)@ == spec_stop(old(self)@),
            final(self)@.bus.wf(),
            final(self)@.f == old(self)@.f,
    {
        proof {
            reveal(crate::semantics::spec_stop);
        }
        // The STOP opcode is followed by a byte the CPU skips.
        let _skipped = self.read_byte();
        self.stop = true;
        self.interconnect.turn_lcd_off();
    }

    fn op_rlca(&mut self)
        ensures
            final(self)@ == spec_rlca(old(self)@),
            final(self)@.f & 0x0F == 0,
            final(self)@.bus == old(self)@.bus,
    {
        proof {
            reveal(crate::semantics::spec_rlca);
        }
        let bit7 = self.reg_a >> 7;
        self.reg_a = (self.reg_a << 1) | bit7;
        self.set_flags(false, false, false, bit7 == 1);
    }

    fn op_rla(&mut self)
        ensures
            final(self)@ == spec_rla(old(self)@),
            final(self)@.f & 0x0F == 0,
            final(self)@.bus == old(self)@.bus,
    {
        proof {
            reveal(crate::semantics::spec_rla);
        }
        let bit7 = self.reg_a >> 7;
        let cin: u8 = if self.flag_c() {
            1
        } else {
            0
        };
        self.reg_a = (self.reg_a << 1) | cin;
        self.set_flags(false, false, false, bit7 == 1);
    }

    fn op_rrca(&mut self)
        ensures
            final(self)@ == spec_rrca(old(self)@),
            final(self)@.f & 0x0F == 0,
            final(self)@.bus == old(self)@.bus,
    {
        proof {
            reveal(crate::semantics::spec_rrca);
        }
        let bit0 = self.reg_a & 1;
        self.reg_a = (self.reg_a >> 1) | (bit0 << 7);
        self.set_flags(false, false, false, bit0 == 1);
    }

    fn op_rra(&mut self)
        ensures
            final(self)@ == spec_rra(old(self)@),
            final(self)@.f & 0x0F == 0,
            final(self)@.bus == old(self)@.bus,
    {
        proof {
            reveal(crate::semantics::spec_rra);
        }
        let bit0 = self.reg_a & 1;
        let cin: u8 = if self.flag_c() {
            0x80
        } else {
            0
        };
        self.reg_a = (self.reg_a >> 1) | cin;
        self.set_flags(false, false, false, bit0 == 1);
    }

    fn op_jp_nn(&mut self)
        requires
            old(self)@.bus.wf(),
            old(self)@.cycles + 64 <= u32::MAX,
        ensures
            final(self)@ == spec_jp_nn(old(self)@),
            final(self)@.bus.wf(),
            final(self)@.f == old(self)@.f,
    {
        proof {
            reveal(crate::semantics::spec_jp_nn);
        }
        let address = self.fetch16();
        self.reg_pc = address;
        self.add_cycles(4);
    }

    fn op_jp_cc(&mut self, cc: u8)
        requires
            old(self)@.bus.wf(),
            old(self)@.cycles + 64 <= u32::MAX,
        ensures
            final(self)@ == spec_jp_cc(old(self)@, cc),
            final(self)@.bus.wf(),
            final(self)@.f == old(self)@.f,
    {
        proof {
            reveal(crate::semantics::spec_jp_cc);
        }
        let address = self.fetch16();
        if self.check_cc(cc) {
            self.reg_pc = address;
            self.add_cycles(4);
        }
    }

    fn op_jr(&mut self)
        requires
            old(self)@.bus.wf(),
            old(self)@.cycles + 64 <= u32::MAX,
        ensures
            final(self)@ == spec_jr(old(self)@),
            final(self)@.bus.wf(),
            final(self)@.f == old(self)@.f,
    {
        proof {
            reveal(crate::semantics::spec_jr);
        }
        let nb = self.read_byte();
        let n16 = sign_extend(nb);
        self.reg_pc = self.reg_pc.wrapping_add(n16);
        self.add_cycles(4);
    }

    fn op_jr_cc(&mut self, cc: u8)
        requires
            old(self)@.bus.wf(),
            old(self)@.cycles + 64 <= u32::MAX,
        ensures
            final(self)@ == spec_jr_cc(old(self)@, cc),
            final(self)@.bus.wf(),
            final(self)@.f == old(self)@.f,
    {
        proof {
            reveal(crate::semantics::spec_jr_cc);
        }
        let nb = self.read_byte();
        let n16 = sign_extend(nb);
        if self.check_cc(cc) {
            self.reg_pc = self.reg_pc.wrapping_add(n16);
            self.add_cycles(4);
        }
    }

    fn op_call(&mut self)
        requires
            old(self)@.bus.wf(),
            old(self)@.cycles + 64 <= u32::MAX,
        ensures
            final(self)@ == spec_call(old(self)@),
            final(self)@.bus.wf(),
            final(self)@.f == old(self)@.f,
    {
        proof {
            reveal(crate::semantics::spec_call);
        }
        let nn = self.fetch16();
        let pc = self.reg_pc;
        self.push_stack_u16(pc);
        self.reg_pc = nn;
        self.add_cycles(4);
    }

    fn op_call_cc(&mut self, cc: u8)
        requires
            old(self)@.bus.wf(),
            old(self)@.cycles + 64 <= u32::MAX,
        ensures
            final(self)@ == spec_call_cc(old(self)@, cc),
            final(self)@.bus.wf(),
            final(self)@.f == old(self)@.f,
    {
        proof {
            reveal(crate::semantics::spec_call_cc);
        }
        let nn = self.fetch16();
        if self.check_cc(cc) {
            let pc = self.reg_pc;
            self.push_stack_u16(pc);
            self.reg_pc = nn;
            self.add_cycles(4);
        }
    }

    fn op_rst(&mut self, n: u8)
        requires
            old(self)@.bus.wf(),
            old(self)@.cycles + 64 <= u32::MAX,
        ensures
            final(self)@ == spec_rst(old(self)@, n),
            final(self)@.bus.wf(),
            final(self)@.f == old(self)@.f,
    {
        proof {
            reveal(crate::semantics::spec_rst);
        }
        let pc = self.reg_pc;
        self.push_stack_u16(pc);
        self.reg_pc = n as u16;
        self.add_cycles(4);
    }

    fn op_ret(&mut self)
        requires
            old(self)@.bus.wf(),
            old(self)@.cycles + 64 <= u32::MAX,
        ensures
            final(self)@ == spec_ret(old(self)@),
            final(self)@.bus.wf(),
            final(self)@.f == old(self)@.f,
    {
        proof {
            reveal(crate::semantics::spec_ret);
        }
        let address = self.pop_stack_u16();
        self.reg_pc = address;
        self.add_cycles(4);
    }

    fn op_ret_cc(&mut self, cc: u8)
        requires
            old(self)@.bus.wf(),
            old(self)@.cycles + 64 <= u32::MAX,
        ensures
            final(self)@ == spec_ret_cc(old(self)@, cc),
            final(self)@.bus.wf(),
            final(self)@.f == old(self)@.f,
    {
        proof {
            reveal(crate::semantics::spec_ret_cc);
        }
        self.add_cycles(4);
        if self.check_cc(cc) {
            let address = self.pop_stack_u16();
            self.reg_pc = address;
            self.add_cycles(4);
        }
    }

    fn op_reti(&mut self)
        requires
            old(self)@.bus.wf(),
            old(self)@.cycles + 64 <= u32::MAX,
        ensures
            final(self)@ == spec_reti(old(self)@),
            final(self)@.bus.wf(),
            final(self)@.f == old(self)@.f,
    {
        proof {
            reveal(crate::semantics::spec_reti);
        }
        let address = self.pop_stack_u16();
        self.reg_pc = address;
        self.flag_ime = true;
        self.add_cycles(4);
    }

    fn cb_bit(&mut self, b: u8, r: u8)
        requires
            b < 8,
            old(self)@.bus.wf(),
            old(self)@.cycles + 64 <= u32::MAX,
        ensures
            final(self)@ == spec_exec_cb(old(self)@, CB_Instruction::BIT_b_r(b, r)),
            final(self)@.bus.wf(),
            final(self)@.f & 0x0F == 0,
    {
        proof {
            reveal(crate::semantics::spec_exec_cb);
        }
        let value = self.read_reg_r(r);
        let carry = self.flag_c();
        self.set_flags(value & (1u8 << b) == 0, false, true, carry);
    }

    fn cb_set(&mut self, b: u8, r: u8)
        requires
            b < 8,
            old(self)@.bus.wf(),
            old(self)@.cycles + 64 <= u32::MAX,
        ensures
            final(self)@ == spec_exec_cb(old(self)@, CB_Instruction::SET_b_r(b, r)),
            final(self)@.bus.wf(),
            final(self)@.f == old(self)@.f,
    {
        proof {
            reveal(crate::semantics::spec_exec_cb);
        }
        let value = self.read_reg_r(r);
        self.write_reg_r(r, value | (1u8 << b));
    }

    fn cb_res(&mut self, b: u8, r: u8)
        requires
            b < 8,
            old(self)@.bus.wf(),
            old(self)@.cycles + 64 <= u32::MAX,
        ensures
            final(self)@ == spec_exec_cb(old(self)@, CB_Instruction::RES_b_r(b, r)),
            final(self)@.bus.wf(),
            final(self)@.f == old(self)@.f,
    {
        proof {
            reveal(crate::semantics::spec_exec_cb);
        }
        let value = self.read_reg_r(r);
        self.write_reg_r(r, value & !(1u8 << b));
    }

    fn cb_rl(&mut self, r: u8)
        requires
            old(self)@.bus.wf(),
            old(self)@.cycles + 64 <= u32::MAX,
        ensures
            final(self)@ == spec_exec_cb(old(self)@, CB_Instruction::RL_n(r)),
            final(self)@.bus.wf(),
            final(self)@.f & 0x0F == 0,
    {
        proof {
            reveal(crate::semantics::spec_exec_cb);
        }
        let value = self.read_reg_r(r);
        let cin: u8 = if self.flag_c() {
            1
        } else {
            0
        };
        let res = (value << 1) | cin;
        self.set_flags(res == 0, false, false, value >> 7 == 1);
        self.write_reg_r(r, res);
    }

    fn cb_rlc(&mut self, r: u8)
        requires
            old(self)@.bus.wf(),
            old(self)@.cycles + 64 <= u32::MAX,
        ensures
            final(self)@ == spec_exec_cb(old(self)@, CB_Instruction::RLC_n(r)),
            final(self)@.bus.wf(),
            final(self)@.f & 0x0F == 0,
    {
        proof {
            reveal(crate::semantics::spec_exec_cb);
        }
        let value = self.read_reg_r(r);
        let res = (value << 1) | (value >> 7);
        self.set_flags(res == 0, false, false, value >> 7 == 1);
        self.write_reg_r(r, res);
    }

    fn cb_rr(&mut self, r: u8)
        requires
            old(self)@.bus.wf(),
            old(self)@.cycles + 64 <= u32::MAX,
        ensures
            final(self)@ == spec_exec_cb(old(self)@, CB_Instruction::RR_n(r)),
            final(self)@.bus.wf(),
            final(self)@.f & 0x0F == 0,
    {
        proof {
            reveal(crate::semantics::spec_exec_cb);
        }
        let value = self.read_reg_r(r);
        let cin: u8 = if self.flag_c() {
            0x80
        } else {
            0
        };
        let res = (value >> 1) | cin;
        self.set_flags(res == 0, false, false, value & 1 == 1);
        self.write_reg_r(r, res);
    }

    fn cb_rrc(&mut self, r: u8)
        requires
            old(self)@.bus.wf(),
            old(self)@.cycles + 64 <= u32::MAX,
        ensures
            final(self)@ == spec_exec_cb(old(self)@, CB_Instruction::RRC_n(r)),
            final(self)@.bus.wf(),
            final(self)@.f & 0x0F == 0,
    {
        proof {
            reveal(crate::semantics::spec_exec_cb);
        }
        let value = self.read_reg_r(r);
        let res = (value >> 1) | ((value & 1) << 7);
        self.set_flags(res == 0, false, false, value & 1 == 1);
        self.write_reg_r(r, res);
    }

    fn cb_sla(&mut self, r: u8)
        requires
            old(self)@.bus.wf(),
            old(self)@.cycles + 64 <= u32::MAX,
        ensures
            final(self)@ == spec_exec_cb(old(self)@, CB_Instruction::SLA_n(r)),
            final(self)@.bus.wf(),
            final(self)@.f & 0x0F == 0,
    {
        proof {
            reveal(crate::semantics::spec_exec_cb);
        }
        let value = self.read_reg_r(r);
        let res = value << 1;
        self.set_flags(res == 0, false, false, value >> 7 == 1);
        self.write_reg_r(r, res);
    }

    fn cb_sra(&mut self, r: u8)
        requires
            old(self)@.bus.wf(),
            old(self)@.cycles + 64 <= u32::MAX,
        ensures
            final(self)@ == spec_exec_cb(old(self)@, CB_Instruction::SRA_n(r)),
            final(self)@.bus.wf(),
            final(self)@.f & 0x0F == 0,
    {
        proof {
            reveal(crate::semantics::spec_exec_cb);
        }
        let value = self.read_reg_r(r);
        // Bit 7 stays where it was.
        let res = (value >> 1) | ((value >> 7) << 7);
        self.set_flags(res == 0, false, false, value & 1 == 1);
        self.write_reg_r(r, res);
    }

    fn cb_srl(&mut self, r: u8)
        requires
            old(self)@.bus.wf(),
            old(self)@.cycles + 64 <= u32::MAX,
        ensures
            final(self)@ == spec_exec_cb(old(self)@, CB_Instruction::SRL_n(r)),
            final(self)@.bus.wf(),
            final(self)@.f & 0x0F == 0,
    {
        proof {
            reveal(crate::semantics::spec_exec_cb);
        }
        let value = self.read_reg_r(r);
        let res = value >> 1;
        self.set_flags(res == 0, false, false, value & 1 == 1);
        self.write_reg_r(r, res);
    }

    fn cb_swap(&mut self, r: u8)
        requires
            old(self)@.bus.wf(),
            old(self)@.cycles + 64 <= u32::MAX,
        ensures
            final(self)@ == spec_exec_cb(old(self)@, CB_Instruction::SWAP_n(r)),
            final(self)@.bus.wf(),
            final(self)@.f & 0x0F == 0,
    {
        proof {
            reveal(crate::semantics::spec_exec_cb);
        }
        let value = self.read_reg_r(r);
        let res = ((value & 0xF) << 4) | ((value & 0xF0) >> 4);
        self.set_flags(res == 0, false, false, false);
        self.write_reg_r(r, res);
    }

    /// The `0xCB` prefix: fetches the second opcode byte and runs the bit
    /// operation it selects.
    fn handle_cb_opcode(&mut self)
        requires
            old(self)@.bus.wf(),
            old(self)@.cycles + 96 <= u32::MAX,
        ensures
            final(self)@ == spec_cb(old(self)@),
            final(self)@.bus.wf(),
            old(self)@.f & 0x0F == 0 ==> final(self)@.f & 0x0F == 0,
    {
        proof {
            reveal(crate::semantics::spec_cb);
        }
        let opcode = self.read_byte();
        let inst = instruction::parse_cb(opcode);

        match inst {
            CB_Instruction::BIT_b_r(b, r) => self.cb_bit(b, r),
            CB_Instruction::SET_b_r(b, r) => self.cb_set(b, r),
            CB_Instruction::RES_b_r(b, r) => self.cb_res(b, r),
            CB_Instruction::RL_n(r) => self.cb_rl(r),
            CB_Instruction::RLC_n(r) => self.cb_rlc(r),
            CB_Instruction::SLA_n(r) => self.cb_sla(r),
            CB_Instruction::RRC_n(r) => self.cb_rrc(r),
            CB_Instruction::SRA_n(r) => self.cb_sra(r),
            CB_Instruction::SRL_n(r) => self.cb_srl(r),
            CB_Instruction::RR_n(r) => self.cb_rr(r),
            CB_Instruction::SWAP_n(r) => self.cb_swap(r),
        }
    }

    /// One fetch-decode-execute round.  The opcode is read before the
    /// program counter moves, so an undefined opcode is reported with the
    /// address still pointing at it and nothing else changed.
    fn do_next_instruction(&mut self) -> (r: Result<(), DecodeError>)
        requires
            old(self)@.bus.wf(),
            old(self)@.cycles + 128 <= u32::MAX,
        ensures
            (final(self)@, r) == spec_instr(old(self)@),
            final(self)@.bus.wf(),
            old(self)@.f & 0x0F == 0 ==> final(self)@.f & 0x0F == 0,
    {
        proof {
            reveal(crate::semantics::spec_instr);
        }
        let opcode = self.read_mem(self.reg_pc);
        let instr = match instruction::parse(opcode) {
            Some(o) => o,
            None => {
                return Err(DecodeError { opcode, pc: self.reg_pc });
            }
        };
        self.reg_pc = self.reg_pc.wrapping_add(1);
        self.execute_instruction(opcode, instr);
        Ok(())
    }

    /// Runs one decoded instruction, the opcode byte already consumed.
    #[verifier::rlimit(30)]
    fn execute_instruction(&mut self, opcode: u8, instr: Instruction)
        requires
            old(self)@.bus.wf(),
            old(self)@.cycles + 96 <= u32::MAX,
        ensures
            final(self)@ == spec_exec_instr(old(self)@, opcode, instr),
            final(self)@.bus.wf(),
            old(self)@.f & 0x0F == 0 ==> final(self)@.f & 0x0F == 0,
    {
        if is_load_instr(instr) {
            self.execute_load_instr(opcode, instr);
        } else if is_alu_instr(instr) {
            self.execute_alu_instr(opcode, instr);
        } else {
            proof {
                assert(crate::semantics::spec_is_control_instr(instr));
            }
            self.execute_control_instr(opcode, instr);
        }
    }

    /// Runs one decoded load, stack or pair-transfer instruction.
    #[verifier::rlimit(60)]
    #[verifier::spinoff_prover]
    fn execute_load_instr(&mut self, opcode: u8, instr: Instruction)
        requires
            old(self)@.bus.wf(),
            old(self)@.cycles + 96 <= u32::MAX,
            crate::semantics::spec_is_load_instr(instr),
        ensures
            final(self)@ == spec_exec_instr(old(self)@, opcode, instr),
            final(self)@.bus.wf(),
            old(self)@.f & 0x0F == 0 ==> final(self)@.f & 0x0F == 0,
    {
        proof {
            reveal(crate::semantics::spec_exec_instr);
        }
        match instr {
            Instruction::LD_r1_r2(r1, r2) => self.op_ld_r1_r2(r1, r2),
            Instruction::LD_r1_n(r1) => self.op_ld_r1_n(r1),
            Instruction::LD_A_nnptr => self.op_ld_a_nnptr(opcode),
            Instruction::LD_nnptr_A => self.op_ld_nnptr_a(opcode),
            Instruction::LD_A_Cptr => self.op_ld_a_cptr(),
            Instruction::LD_Cptr_A => self.op_ld_cptr_a(),
            Instruction::LDD_A_HLptr => self.op_ldd_a_hlptr(),
            Instruction::LDD_HLptr_A => self.op_ldd_hlptr_a(),
            Instruction::LDI_A_HLptr => self.op_ldi_a_hlptr(),
            Instruction::LDI_HLptr_A => self.op_ldi_hlptr_a(),
            Instruction::LDH_nptr_A => self.op_ldh_nptr_a(),
            Instruction::LDH_A_nptr => self.op_ldh_a_nptr(),
            Instruction::LD_rr_nn => self.op_ld_rr_nn(opcode),
            Instruction::LD_SP_HL => self.op_ld_sp_hl(),
            Instruction::LDHL_SPn => self.op_ldhl_spn(),
            Instruction::LD_nn_SP => self.op_ld_nn_sp(),
            Instruction::PUSH_nn => self.op_push(opcode),
            Instruction::POP_nn => self.op_pop(opcode),
            _ => {}
        }
    }

    /// Runs one decoded arithmetic, logical or rotate instruction.
    #[verifier::rlimit(60)]
    #[verifier::spinoff_prover]
    fn execute_alu_instr(&mut self, opcode: u8, instr: Instruction)
        requires
            old(self)@.bus.wf(),
            old(self)@.cycles + 96 <= u32::MAX,
            crate::semantics::spec_is_alu_instr(instr),
        ensures
            final(self)@ == spec_exec_instr(old(self)@, opcode, instr),
            final(self)@.bus.wf(),
            old(self)@.f & 0x0F == 0 ==> final(self)@.f & 0x0F == 0,
    {
        proof {
            reveal(crate::semantics::spec_exec_instr);
        }
        match instr {
            Instruction::ADD_n(r) => self.op_add(r),
            Instruction::ADC_n(r) => self.op_adc(r),
            Instruction::SUB_n(r) => self.op_sub(r),
            Instruction::SBC_n(r) => self.op_sbc(r),
            Instruction::AND_n(r) => self.op_and(r),
            Instruction::OR_n(r) => self.op_or(r),
            Instruction::XOR_n(r) => self.op_xor(r),
            Instruction::CP_n(r) => self.op_cp(r),
            Instruction::INC_n(r) => self.op_inc(r),
            Instruction::DEC_n(r) => self.op_dec(r),
            Instruction::ADD_HL_nn(i) => self.op_add_hl(i),
            Instruction::ADD_SP_n => self.op_add_sp_n(),
            Instruction::INC_nn(i) => self.op_inc_nn(i),
            Instruction::DEC_nn(i) => self.op_dec_nn(i),
            Instruction::DAA => self.op_daa(),
            Instruction::CPL => self.op_cpl(),
            Instruction::CCF => self.op_ccf(),
            Instruction::SCF => self.op_scf(),
            Instruction::RLCA => self.op_rlca(),
            Instruction::RLA => self.op_rla(),
            Instruction::RRCA => self.op_rrca(),
            Instruction::RRA => self.op_rra(),
            _ => {}
        }
    }

    /// Runs one decoded control-flow, run-state or `0xCB`-prefixed
    /// instruction.
    #[verifier::rlimit(60)]
    #[verifier::spinoff_prover]
    fn execute_control_instr(&mut self, opcode: u8, instr: Instruction)
        requires
            old(self)@.bus.wf(),
            old(self)@.cycles + 96 <= u32::MAX,
            crate::semantics::spec_is_control_instr(instr),
        ensures
            final(self)@ == spec_exec_instr(old(self)@, opcode, instr),
            final(self)@.bus.wf(),
            old(self)@.f & 0x0F == 0 ==> final(self)@.f & 0x0F == 0,
    {
        proof {
            reveal(crate::semantics::spec_exec_instr);
            reveal(crate::semantics::spec_jp_hlptr);
        }
        match instr {
            Instruction::NOP => {}
            Instruction::HALT => {
                self.halt = true;
            }
            Instruction::STOP => self.op_stop(),
            Instruction::DI => {
                self.flag_disabling_interrupts = true;
            }
            Instruction::EI => {
                self.flag_enabling_interrupts = true;
            }
            Instruction::CB => self.handle_cb_opcode(),
            Instruction::JP_nn => self.op_jp_nn(),
            Instruction::JP_cc_nn(cc) => self.op_jp_cc(cc),
            Instruction::JP_HLptr => {
                self.reg_pc = self.hl();
            }
            Instruction::JR_n => self.op_jr(),
            Instruction::JR_cc_n(cc) => self.op_jr_cc(cc),
            Instruction::CALL_nn => self.op_call(),
            Instruction::CALL_cc_nn(cc) => self.op_call_cc(cc),
            Instruction::RST_n(n) => self.op_rst(n),
            Instruction::RET => self.op_ret(),
            Instruction::RET_cc(cc) => self.op_ret_cc(cc),
            Instruction::RETI => self.op_reti(),
            _ => {}
        }
    }

    /// Services one pending-and-enabled interrupt, if any: clears its
    /// request bit, drops the master enable, pushes the program counter
    /// and jumps to the source's vector, charging the documented 20
    /// cycles.
    fn handle_interrupts(&mut self)
        requires
            old(self)@.bus.wf(),
            old(self)@.cycles + 32 <= u32::MAX,
        ensures
            final(self)@ == spec_dispatch(old(self)@),
            final(self)@.bus.wf(),
            final(self)@.f == old(self)@.f,
            final(self)@.cycles <= old(self)@.cycles + 20,
    {
        proof {
            reveal(crate::semantics::spec_dispatch);
        }
        let interrupt = match self.interconnect.take_interrupt() {
            Some(i) => i,
            None => {
                return;
            }
        };

        // Servicing disables further interrupts until the handler returns
        // or re-enables them.
        self.flag_ime = false;

        let pc = self.reg_pc;
        self.push_stack_u16(pc);
        self.reg_pc = interrupt_vector(interrupt);
        self.add_cycles(12);
    }

    /// One nominal 4-cycle quantum: advances the peripherals, burns cycle
    /// debt if any remains, otherwise wakes or waits per the run state,
    /// dispatches one pending interrupt when the master enable is set,
    /// applies the EI/DI latches, and executes one instruction.  An
    /// undefined opcode is returned as a `DecodeError` carrying the opcode
    /// and its address, with CPU and bus state intact.
    #[verifier::rlimit(100)]
    #[verifier::spinoff_prover]
    pub fn step(&mut self) -> (r: Result<(), DecodeError>)
        requires
            old(self)@.wf(),
        ensures
            final(self)@.wf(),
            (final(self)@, r) == spec_step(old(self)@),
    {
        self.interconnect.update();

        // While cycle debt remains from the last instruction, only burn it.
        if self.cycles > 0 {
            if self.cycles >= 4 {
                self.cycles = self.cycles - 4;
            } else {
                self.cycles = 0;
            }
            return Ok(());
        }
        if self.stop {
            self.stop = false;
        }
        if self.halt {
            if self.interconnect.pending_interrupt().is_none() {
                return Ok(());
            }
            self.halt = false;
        }
        if self.flag_ime {
            self.handle_interrupts();
        }

        // The latches left by DI/EI take effect only now, after the
        // dispatch attempt: that gives EI its one-instruction latency.
        if self.flag_disabling_interrupts {
            self.flag_disabling_interrupts = false;
            self.flag_ime = false;
        }
        if self.flag_enabling_interrupts {
            self.flag_enabling_interrupts = false;
            self.flag_ime = true;
        }

        let r = self.do_next_instruction();
        // The quantum this very call stands for comes off the new debt.
        if self.cycles >= 4 {
            self.cycles = self.cycles - 4;
        } else {
            self.cycles = 0;
        }
        r
    }
}

} // verus!
