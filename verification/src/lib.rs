//! Instruction-level model of a classic 8-bit handheld game console:
//! a Z80-like CPU core, a memory-mapped bus with bank-switched cartridge,
//! work/high RAM, picture-unit, timer, sound and joypad registers, and the
//! interrupt-dispatch protocol, with machine-checked contracts.

pub mod bits;
pub mod memory_map;
pub mod instruction;
pub mod cartridge;
pub mod sound_subsystem;
pub mod timer;
pub mod joypad;
pub mod ppu;
pub mod interconnect;
pub mod semantics;
pub mod cpu;
