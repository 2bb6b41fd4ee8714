//! The fixed partition of the 16-bit address space, and the cartridge's
//! bank-control register ranges.  All ranges are half-open `[start, end)`.

use vstd::prelude::*;

verus! {

pub const ROM_BANK0_START: u16 = 0x0000;
pub const ROM_BANK0_END: u16 = 0x4000;
pub const ROM_BANK0_LENGTH: u16 = 0x4000;

pub const SWITCH_ROM_BANK_START: u16 = 0x4000;
pub const SWITCH_ROM_BANK_END: u16 = 0x8000;
pub const SWITCH_ROM_BANK_LENGTH: u16 = 0x4000;

pub const VRAM_START: u16 = 0x8000;
pub const VRAM_END: u16 = 0xA000;
pub const VRAM_LENGTH: u16 = 0x2000;

pub const SWITCH_RAM_BANK_START: u16 = 0xA000;
pub const SWITCH_RAM_BANK_END: u16 = 0xC000;
pub const SWITCH_RAM_BANK_LENGTH: u16 = 0x2000;

pub const INTERNAL_RAM_START: u16 = 0xC000;
pub const INTERNAL_RAM_END: u16 = 0xE000;
pub const INTERNAL_RAM_LENGTH: u16 = 0x2000;

/// Echo RAM aliases work RAM: a byte written at `INTERNAL_RAM_START + i`
/// is visible at `ECHO_RAM_START + i` and the other way round.
pub const ECHO_RAM_START: u16 = 0xE000;
pub const ECHO_RAM_END: u16 = 0xFE00;

pub const SPRITE_MEM_START: u16 = 0xFE00;
pub const SPRITE_MEM_END: u16 = 0xFEA0;
pub const SPRITE_MEM_LENGTH: u16 = 0xA0;

pub const IO_PORTS_START: u16 = 0xFF00;
pub const IO_PORTS_END: u16 = 0xFF4C;

pub const INTERNAL_RAM2_START: u16 = 0xFF80;
pub const INTERNAL_RAM2_END: u16 = 0xFFFF;
pub const INTERNAL_RAM2_LENGTH: u16 = 0x7F;

pub const INTERRUPT_REGISTER: u16 = 0xFFFF;

/// Writing any value here while the boot overlay is active disables it for
/// the remainder of the run.
pub const BOOT_DISABLE_REGISTER: u16 = 0xFF50;

/// Writing here triggers a synchronous 160-byte copy into sprite memory.
pub const DMA_REGISTER: u16 = 0xFF46;

/// Cartridge bank-control register ranges, claimed by writes into the
/// (otherwise read-only) ROM address space.
pub const ENABLE_RAM_BANK_START: u16 = 0x0000;
pub const ENABLE_RAM_BANK_END: u16 = 0x2000;

pub const CHOOSE_ROM_BANK_START: u16 = 0x2000;
pub const CHOOSE_ROM_BANK_END: u16 = 0x4000;

pub const CHOOSE_RAM_BANK_START: u16 = 0x4000;
pub const CHOOSE_RAM_BANK_END: u16 = 0x6000;

pub const CHOOSE_MEMORY_MODE_START: u16 = 0x6000;
pub const CHOOSE_MEMORY_MODE_END: u16 = 0x8000;

} // verus!
