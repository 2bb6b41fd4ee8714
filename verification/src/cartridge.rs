//! The cartridge: ROM bytes, a bank-switched RAM area, and the bank-control
//! registers reached through writes into the ROM address space.
//!
//! The cartridge claims reads in `0x0000..0x8000` (ROM, with the switchable
//! bank selected by the ROM-bank register) and `0xA000..0xC000` (the
//! selected RAM bank); it claims writes in the four bank-control register
//! ranges and in the RAM bank.  Reads beyond the end of the ROM image are
//! reported as `0xFF` rather than stopping execution.

use vstd::prelude::*;

use crate::bits::zero_vec;

verus! {

/// Which of the two fixed ROM/RAM size configurations the memory-model
/// select register has chosen.
#[allow(non_camel_case_types)]
#[derive(Debug, PartialEq, Eq, Structural, Clone, Copy)]
pub enum MemoryModel {
    ROM16M_RAM8K,
    ROM4M_RAM32K,
}

pub struct Cartridge {
    rom: Vec<u8>,
    ram_bank: Vec<u8>,

    rom_bank_nr: u8,
    ram_bank_nr: u8,
    memory_model: MemoryModel,
    ram_bank_write_enable: bool,
}

/// The cartridge state as mathematical values.
#[verifier::ext_equal]
pub ghost struct CartridgeView {
    pub rom: Seq<u8>,
    pub ram: Seq<u8>,
    pub rom_bank_nr: u8,
    pub ram_bank_nr: u8,
    pub memory_model: MemoryModel,
    pub ram_bank_write_enable: bool,
}

impl View for Cartridge {
    type V = CartridgeView;

    closed spec fn view(&self) -> CartridgeView {
        CartridgeView {
            rom: self.rom@,
            ram: self.ram_bank@,
            rom_bank_nr: self.rom_bank_nr,
            ram_bank_nr: self.ram_bank_nr,
            memory_model: self.memory_model,
            ram_bank_write_enable: self.ram_bank_write_enable,
        }
    }
}

impl CartridgeView {
    /// Internal consistency: the RAM area holds all 16 banks and the
    /// RAM-bank register stays within its 2 bits.
    pub open spec fn wf(self) -> bool {
        &&& self.ram.len() == 0x20000
        &&& self.ram_bank_nr < 4
    }

    /// The ROM bank visible in the switchable window; bank number 0 selects
    /// bank 1.
    pub open spec fn effective_rom_bank(self) -> int {
        if self.rom_bank_nr == 0 {
            1
        } else {
            self.rom_bank_nr as int
        }
    }

    /// The index into the RAM area backing `addr` in `0xA000..0xC000`.
    pub open spec fn ram_index(self, addr: u16) -> int {
        self.ram_bank_nr * 0x2000 + (addr - 0xA000)
    }
}

/// Whether the cartridge claims a read of `addr`.
pub open spec fn spec_cart_claims_read(addr: u16) -> bool {
    addr < 0x8000 || (0xA000 <= addr && addr < 0xC000)
}

/// Whether the cartridge claims a write to `addr` (the four bank-control
/// register ranges, or the RAM bank).
pub open spec fn spec_cart_claims_write(addr: u16) -> bool {
    addr < 0x8000 || (0xA000 <= addr && addr < 0xC000)
}

/// What a cartridge read returns: `None` for an unclaimed address, the ROM
/// or RAM byte otherwise, with `0xFF` for reads past the end of the ROM
/// image.
pub open spec fn spec_cart_read(c: CartridgeView, addr: u16) -> Option<u8> {
    if addr < 0x4000 {
        Some(
            if (addr as int) < c.rom.len() {
                c.rom[addr as int]
            } else {
                0xFFu8
            },
        )
    } else if addr < 0x8000 {
        let idx = c.effective_rom_bank() * 0x4000 + (addr - 0x4000);
        Some(
            if idx < c.rom.len() {
                c.rom[idx]
            } else {
                0xFFu8
            },
        )
    } else if 0xA000 <= addr && addr < 0xC000 {
        Some(c.ram[c.ram_index(addr)])
    } else {
        None
    }
}

/// The cartridge state after a write: bank-control registers update the
/// corresponding field, RAM-bank writes store the byte, anything unclaimed
/// leaves the cartridge unchanged.
pub open spec fn spec_cart_write(c: CartridgeView, addr: u16, value: u8) -> CartridgeView {
    if addr < 0x2000 {
        CartridgeView { ram_bank_write_enable: value == 0x0A, ..c }
    } else if addr < 0x4000 {
        let chosen = if value == 0 {
            1u8
        } else {
            value
        };
        CartridgeView { rom_bank_nr: chosen & 0x1F, ..c }
    } else if addr < 0x6000 {
        CartridgeView { ram_bank_nr: value & 0b11, ..c }
    } else if addr < 0x8000 {
        let model = if value & 1 == 1 {
            MemoryModel::ROM4M_RAM32K
        } else {
            MemoryModel::ROM16M_RAM8K
        };
        CartridgeView { memory_model: model, ..c }
    } else if 0xA000 <= addr && addr < 0xC000 {
        CartridgeView { ram: c.ram.update(c.ram_index(addr), value), ..c }
    } else {
        c
    }
}

impl Cartridge {
    /// A fresh cartridge over the given ROM image: all 16 RAM banks zeroed,
    /// bank registers cleared, the 16M-ROM/8K-RAM model selected, RAM
    /// writes disabled.
    pub fn new(rom: Vec<u8>) -> (r: Self)
        ensures
            r@.wf(),
            r@.rom == rom@,
            r@.ram =~= Seq::new(0x20000, |i: int| 0u8),
            r@.rom_bank_nr == 0,
            r@.ram_bank_nr == 0,
            r@.memory_model == MemoryModel::ROM16M_RAM8K,
            !r@.ram_bank_write_enable,
    {
        let ram = zero_vec(0x20000);
        proof {
            assert(ram@ =~= Seq::new(0x20000, |i: int| 0u8));
        }
        Cartridge {
            rom,
            ram_bank: ram,
            rom_bank_nr: 0,
            ram_bank_nr: 0,
            memory_model: MemoryModel::ROM16M_RAM8K,
            ram_bank_write_enable: false,
        }
    }

    /// Reads the byte the cartridge backs at `address`, or `None` when the
    /// address belongs to no cartridge region.
    pub fn read_mem(&self, address: u16) -> (r: Option<u8>)
        requires
            self@.wf(),
        ensures
            r == spec_cart_read(self@, address),
    {
        if address < 0x4000 {
            let idx = address as usize;
            if idx < self.rom.len() {
                Some(self.rom[idx])
            } else {
                Some(0xFF)
            }
        } else if address < 0x8000 {
            let bank_nr: usize = if self.rom_bank_nr == 0 {
                1
            } else {
                self.rom_bank_nr as usize
            };
            let idx = bank_nr * 0x4000 + (address as usize - 0x4000);
            if idx < self.rom.len() {
                Some(self.rom[idx])
            } else {
                Some(0xFF)
            }
        } else if 0xA000 <= address && address < 0xC000 {
            let idx = self.ram_bank_nr as usize * 0x2000 + (address as usize - 0xA000);
            Some(self.ram_bank[idx])
        } else {
            None
        }
    }

    /// Handles a write when the cartridge claims `address`; the result says
    /// whether it did.
    pub fn write_mem(&mut self, address: u16, value: u8) -> (r: bool)
        requires
            old(self)@.wf(),
        ensures
            final(self)@.wf(),
            r == spec_cart_claims_write(address),
            final(self)@ =~= spec_cart_write(old(self)@, address, value),
    {
        if address < 0x2000 {
            self.ram_bank_write_enable = value == 0x0A;
            true
        } else if address < 0x4000 {
            // Bank number 0 selects bank 1.
            let chosen = if value == 0 {
                1
            } else {
                value
            };
            self.rom_bank_nr = chosen & 0x1F;
            true
        } else if address < 0x6000 {
            proof {
                assert(value & 0b11 < 4) by (bit_vector);
            }
            self.ram_bank_nr = value & 0b11;
            true
        } else if address < 0x8000 {
            self.memory_model = if value & 1 == 1 {
                MemoryModel::ROM4M_RAM32K
            } else {
                MemoryModel::ROM16M_RAM8K
            };
            true
        } else if 0xA000 <= address && address < 0xC000 {
            let idx = self.ram_bank_nr as usize * 0x2000 + (address as usize - 0xA000);
            self.ram_bank[idx] = value;
            true
        } else {
            false
        }
    }
}

} // verus!
