use rustboy::cartridge::Cartridge;
use rustboy::cpu::Cpu;
use rustboy::interconnect::Interconnect;

/// A CPU over a ROM starting with `program`, padded with NOPs, the boot
/// overlay disabled so execution starts at the ROM's first byte.
fn cpu_with_program(program: &[u8]) -> Cpu {
    let mut rom = program.to_vec();
    rom.resize(0x4000, 0x00);
    let mut cpu = Cpu::new(Interconnect::new(Vec::new(), Cartridge::new(rom)));
    cpu.interconnect.write_mem(0xFF50, 1);
    cpu
}

fn step_n(cpu: &mut Cpu, n: usize) {
    for _ in 0..n {
        cpu.step().expect("undefined opcode");
    }
}

fn reg_a(cpu: &Cpu) -> u8 {
    (cpu.af() >> 8) as u8
}

#[test]
fn test_scenario_nop_jp() {
    // NOP; JP 0x0150 — after two steps the program counter has followed
    // the jump and exactly the documented 4 + 16 cycles were charged.
    let mut cpu = cpu_with_program(&[0x00, 0xC3, 0x50, 0x01]);
    step_n(&mut cpu, 2);
    assert_eq!(cpu.pc(), 0x0150);
    assert_eq!(cpu.cycle_count(), 20);
}

#[test]
fn test_undefined_opcode_reported() {
    let mut cpu = cpu_with_program(&[0x00, 0xD3]);
    step_n(&mut cpu, 1);
    let err = cpu.step().expect_err("0xD3 is undefined");
    assert_eq!(err.opcode, 0xD3);
    assert_eq!(err.pc, 0x0001);
    // The failing fetch charged its 4 cycles but moved nothing else.
    assert_eq!(cpu.pc(), 0x0001);
}

#[test]
fn test_add_flags() {
    // ADD A, B with A = 0x0F, B = 0x01: half-carry only.
    let mut cpu = cpu_with_program(&[0x3E, 0x0F, 0x06, 0x01, 0x80]);
    step_n(&mut cpu, 5);
    assert_eq!(reg_a(&cpu), 0x10);
    assert!(!cpu.flag_z());
    assert!(!cpu.flag_n());
    assert!(cpu.flag_h());
    assert!(!cpu.flag_c());
}

#[test]
fn test_add_carry_and_zero() {
    // ADD A, B with A = 0x80, B = 0x80: carry out of bit 7, result zero.
    let mut cpu = cpu_with_program(&[0x3E, 0x80, 0x06, 0x80, 0x80]);
    step_n(&mut cpu, 5);
    assert_eq!(reg_a(&cpu), 0x00);
    assert!(cpu.flag_z());
    assert!(!cpu.flag_n());
    assert!(!cpu.flag_h());
    assert!(cpu.flag_c());
}

#[test]
fn test_sub_flags_zero() {
    // SUB B with both 0x3E: zero result, subtract flag set.
    let mut cpu = cpu_with_program(&[0x3E, 0x3E, 0x06, 0x3E, 0x90]);
    step_n(&mut cpu, 5);
    assert_eq!(reg_a(&cpu), 0x00);
    assert!(cpu.flag_z());
    assert!(cpu.flag_n());
    assert!(!cpu.flag_h());
    assert!(!cpu.flag_c());
}

#[test]
fn test_sub_borrow() {
    // SUB 0x01 from 0x00: full and half borrow.
    let mut cpu = cpu_with_program(&[0x3E, 0x00, 0xD6, 0x01]);
    step_n(&mut cpu, 4);
    assert_eq!(reg_a(&cpu), 0xFF);
    assert!(!cpu.flag_z());
    assert!(cpu.flag_n());
    assert!(cpu.flag_h());
    assert!(cpu.flag_c());
}

#[test]
fn test_adc_uses_carry() {
    // SCF; ADC A, 0x00 with A = 0x0F: the carry-in tips the half-carry.
    let mut cpu = cpu_with_program(&[0x3E, 0x0F, 0x37, 0xCE, 0x00]);
    step_n(&mut cpu, 5);
    assert_eq!(reg_a(&cpu), 0x10);
    assert!(!cpu.flag_z());
    assert!(!cpu.flag_n());
    assert!(cpu.flag_h());
    assert!(!cpu.flag_c());
}

#[test]
fn test_and_sets_half_carry() {
    let mut cpu = cpu_with_program(&[0x3E, 0x5A, 0xE6, 0x0F]);
    step_n(&mut cpu, 4);
    assert_eq!(reg_a(&cpu), 0x0A);
    assert!(!cpu.flag_z());
    assert!(!cpu.flag_n());
    assert!(cpu.flag_h());
    assert!(!cpu.flag_c());
}

#[test]
fn test_xor_a_clears() {
    // XOR A always zeroes the accumulator and every flag but Zero.
    let mut cpu = cpu_with_program(&[0x3E, 0x77, 0xAF]);
    step_n(&mut cpu, 3);
    assert_eq!(reg_a(&cpu), 0x00);
    assert!(cpu.flag_z());
    assert!(!cpu.flag_n());
    assert!(!cpu.flag_h());
    assert!(!cpu.flag_c());
}

#[test]
fn test_cp_borrow() {
    // CP 0x20 against A = 0x10: borrow, no half borrow, A kept.
    let mut cpu = cpu_with_program(&[0x3E, 0x10, 0xFE, 0x20]);
    step_n(&mut cpu, 4);
    assert_eq!(reg_a(&cpu), 0x10);
    assert!(!cpu.flag_z());
    assert!(cpu.flag_n());
    assert!(!cpu.flag_h());
    assert!(cpu.flag_c());
}

#[test]
fn test_inc_wraps_and_keeps_carry() {
    // SCF; INC A from 0xFF: wraps to zero, the carry flag untouched.
    let mut cpu = cpu_with_program(&[0x3E, 0xFF, 0x37, 0x3C]);
    step_n(&mut cpu, 4);
    assert_eq!(reg_a(&cpu), 0x00);
    assert!(cpu.flag_z());
    assert!(!cpu.flag_n());
    assert!(cpu.flag_h());
    assert!(cpu.flag_c());
}

#[test]
fn test_dec_to_zero() {
    let mut cpu = cpu_with_program(&[0x06, 0x01, 0x05]);
    step_n(&mut cpu, 3);
    assert!(cpu.flag_z());
    assert!(cpu.flag_n());
    assert!(!cpu.flag_h());
    assert_eq!(cpu.bc(), 0x0000);
}

#[test]
fn test_add_hl_half_carry_at_bit_11() {
    // ADD HL, BC with HL = 0x0FFF, BC = 0x0001.
    let mut cpu = cpu_with_program(&[0x21, 0xFF, 0x0F, 0x01, 0x01, 0x00, 0x09]);
    step_n(&mut cpu, 8);
    assert_eq!(cpu.hl(), 0x1000);
    assert!(!cpu.flag_n());
    assert!(cpu.flag_h());
    assert!(!cpu.flag_c());
}

#[test]
fn test_rlca() {
    let mut cpu = cpu_with_program(&[0x3E, 0x85, 0x07]);
    step_n(&mut cpu, 3);
    assert_eq!(reg_a(&cpu), 0x0B);
    assert!(!cpu.flag_z());
    assert!(cpu.flag_c());
}

#[test]
fn test_cb_bit_and_swap() {
    // LD B, 0x80; BIT 7, B (clear Zero); BIT 0, B (set Zero); SWAP B.
    let mut cpu = cpu_with_program(&[0x06, 0x80, 0xCB, 0x78, 0xCB, 0x40, 0xCB, 0x30]);
    step_n(&mut cpu, 4);
    assert!(!cpu.flag_z());
    assert!(cpu.flag_h());
    assert!(!cpu.flag_n());
    step_n(&mut cpu, 2);
    assert!(cpu.flag_z());
    step_n(&mut cpu, 2);
    assert_eq!(cpu.bc() >> 8, 0x08);
}

#[test]
fn test_daa_after_addition() {
    // A = 0x0F + 0x8B = 0x9A with HalfCarry set; DAA corrects to 0x00
    // with Carry set and Zero recomputed.
    let mut cpu = cpu_with_program(&[0x3E, 0x0F, 0x06, 0x8B, 0x80, 0x27]);
    step_n(&mut cpu, 5);
    assert_eq!(reg_a(&cpu), 0x9A);
    assert!(cpu.flag_h());
    assert!(!cpu.flag_c());
    step_n(&mut cpu, 1);
    assert_eq!(reg_a(&cpu), 0x00);
    assert!(cpu.flag_z());
    assert!(cpu.flag_c());
    assert!(!cpu.flag_h());
}

#[test]
fn test_push_pop_round_trip() {
    // LD SP, 0xFFF0; LD BC, 0x1234; PUSH BC; POP DE: the popped word is
    // the pushed word and the stack pointer is back where it was.
    let mut cpu = cpu_with_program(&[0x31, 0xF0, 0xFF, 0x01, 0x34, 0x12, 0xC5, 0xD1]);
    step_n(&mut cpu, 6);
    assert_eq!(cpu.sp(), 0xFFF0);
    step_n(&mut cpu, 4);
    assert_eq!(cpu.sp(), 0xFFEE);
    step_n(&mut cpu, 3);
    assert_eq!(cpu.de(), 0x1234);
    assert_eq!(cpu.sp(), 0xFFF0);
}

#[test]
fn test_push_pop_spanning_values() {
    for value in [0x0000u16, 0x0001, 0x00FF, 0x0100, 0x7FFF, 0x8000, 0xABCD, 0xFFFF] {
        let low = (value & 0xFF) as u8;
        let high = (value >> 8) as u8;
        let mut cpu = cpu_with_program(&[0x31, 0xF0, 0xFF, 0x01, low, high, 0xC5, 0xD1]);
        step_n(&mut cpu, 13);
        assert_eq!(cpu.de(), value);
        assert_eq!(cpu.sp(), 0xFFF0);
    }
}

#[test]
fn test_ei_latency() {
    // LD SP, 0xFFF0; EI; LD A, 0x01; LDH (0x0F), A — the store raises the
    // vertical-blank request itself.  The interrupt is serviced only after
    // that following instruction completes.
    let mut cpu = cpu_with_program(&[0x31, 0xF0, 0xFF, 0xFB, 0x3E, 0x01, 0xE0, 0x0F]);
    cpu.interconnect.write_mem(0xFFFF, 0x01);
    step_n(&mut cpu, 7);
    // The store just finished; the CPU is still past it, not at the vector.
    assert_eq!(cpu.pc(), 0x0008);
    assert_eq!(cpu.interconnect.read_mem(0xFF0F), 0x01);
    step_n(&mut cpu, 3);
    // Dispatch: the request bit cleared, the return address stacked, and
    // the NOP at the vector already executed.
    assert_eq!(cpu.pc(), 0x0041);
    assert_eq!(cpu.interconnect.read_mem(0xFF0F), 0x00);
    assert_eq!(cpu.sp(), 0xFFEE);
    assert_eq!(cpu.interconnect.read_mem(0xFFEE), 0x08);
    assert_eq!(cpu.interconnect.read_mem(0xFFEF), 0x00);
}

#[test]
fn test_halt_until_interrupt() {
    // LD SP, 0xFFF0; HALT.  The CPU waits until a request is pending,
    // with the master enable off it then resumes without servicing it.
    let mut cpu = cpu_with_program(&[0x31, 0xF0, 0xFF, 0x76]);
    cpu.interconnect.write_mem(0xFFFF, 0x04);
    step_n(&mut cpu, 4);
    assert_eq!(cpu.pc(), 0x0004);
    for _ in 0..8 {
        step_n(&mut cpu, 1);
        assert_eq!(cpu.pc(), 0x0004);
    }
    // A timer-overflow request wakes it; the next step runs the next NOP.
    cpu.interconnect.write_mem(0xFF0F, 0x04);
    step_n(&mut cpu, 1);
    assert_eq!(cpu.pc(), 0x0005);
}

#[test]
fn test_jr_backwards() {
    // NOP; NOP; JR -3 jumps back to address 0x0001.
    let mut cpu = cpu_with_program(&[0x00, 0x00, 0x18, 0xFD]);
    step_n(&mut cpu, 2);
    assert_eq!(cpu.pc(), 0x0002);
    step_n(&mut cpu, 3);
    assert_eq!(cpu.pc(), 0x0001);
}

#[test]
fn test_call_and_ret() {
    // LD SP, 0xFFF0; CALL 0x0150; the routine at 0x0150 is RET.
    let mut program = vec![0x31, 0xF0, 0xFF, 0xCD, 0x50, 0x01];
    program.resize(0x150, 0x00);
    program.push(0xC9);
    let mut cpu = cpu_with_program(&program);
    step_n(&mut cpu, 9);
    assert_eq!(cpu.pc(), 0x0150);
    assert_eq!(cpu.sp(), 0xFFEE);
    step_n(&mut cpu, 4);
    assert_eq!(cpu.pc(), 0x0006);
    assert_eq!(cpu.sp(), 0xFFF0);
}

#[test]
fn test_ld_hl_memory_round_trip() {
    // LD HL, 0xC123; LD (HL), 0x5A; LD A, (HL).
    let mut cpu = cpu_with_program(&[0x21, 0x23, 0xC1, 0x36, 0x5A, 0x7E]);
    step_n(&mut cpu, 8);
    assert_eq!(reg_a(&cpu), 0x5A);
    assert_eq!(cpu.interconnect.read_mem(0xC123), 0x5A);
}
