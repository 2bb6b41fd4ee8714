//! The picture unit, modelled through its bus-visible surface: the control
//! and status registers, video RAM, sprite attribute memory, and the
//! scanline state machine that raises the vertical-blank interrupt the CPU
//! schedules against.  Pixel composition itself is host-side work and is
//! not modelled here.

use vstd::prelude::*;

verus! {

/// The scanline state machine's mode.
#[derive(Debug, PartialEq, Eq, Structural, Clone, Copy)]
pub enum PpuMode {
    OAMSearch,
    PixelTransfer,
    HBlank,
    VBlank,
}

#[allow(non_snake_case)]
pub struct Ppu {
    LCD_control: u8,  // FF40
    LCDC_status: u8,  // FF41
    scy: u8,          // FF42
    scx: u8,          // FF43
    ly: u8,           // FF44
    lyc: u8,          // FF45
    bgp: u8,          // FF47
    obp0: u8,         // FF48
    obp1: u8,         // FF49
    wy: u8,           // FF4A
    wx: u8,           // FF4B

    sprite_memory: Vec<u8>,
    vram: Vec<u8>,

    cycles: u32,
    state: PpuMode,
}

/// The picture unit's state as plain values.
#[allow(non_snake_case)]
#[verifier::ext_equal]
pub ghost struct PpuView {
    pub LCD_control: u8,
    pub LCDC_status: u8,
    pub scy: u8,
    pub scx: u8,
    pub ly: u8,
    pub lyc: u8,
    pub bgp: u8,
    pub obp0: u8,
    pub obp1: u8,
    pub wy: u8,
    pub wx: u8,
    pub oam: Seq<u8>,
    pub vram: Seq<u8>,
    pub cycles: u32,
    pub state: PpuMode,
}

impl View for Ppu {
    type V = PpuView;

    closed spec fn view(&self) -> PpuView {
        PpuView {
            LCD_control: self.LCD_control,
            LCDC_status: self.LCDC_status,
            scy: self.scy,
            scx: self.scx,
            ly: self.ly,
            lyc: self.lyc,
            bgp: self.bgp,
            obp0: self.obp0,
            obp1: self.obp1,
            wy: self.wy,
            wx: self.wx,
            oam: self.sprite_memory@,
            vram: self.vram@,
            cycles: self.cycles,
            state: self.state,
        }
    }
}

impl PpuView {
    /// The memories hold their full regions and the scanline counter stays
    /// inside the frame: below 144 outside the vertical blank, between 144
    /// and 153 within it.
    pub open spec fn wf(self) -> bool {
        &&& self.vram.len() == 0x2000
        &&& self.oam.len() == 0xA0
        &&& (self.state is VBlank ==> 144 <= self.ly <= 153)
        &&& (!(self.state is VBlank) ==> self.ly <= 143)
    }
}

/// Whether the picture unit claims I/O port `addr` (the data registers;
/// the DMA trigger at `0xFF46` belongs to the bus).
pub open spec fn spec_ppu_claims_port(addr: u16) -> bool {
    (0xFF40 <= addr && addr <= 0xFF45) || (0xFF47 <= addr && addr <= 0xFF4B)
}

/// The register byte a picture-unit port read returns, `None` for
/// unclaimed ports.
pub open spec fn spec_ppu_read_port(p: PpuView, addr: u16) -> Option<u8> {
    if addr == 0xFF40 {
        Some(p.LCD_control)
    } else if addr == 0xFF41 {
        Some(p.LCDC_status)
    } else if addr == 0xFF42 {
        Some(p.scy)
    } else if addr == 0xFF43 {
        Some(p.scx)
    } else if addr == 0xFF44 {
        Some(p.ly)
    } else if addr == 0xFF45 {
        Some(p.lyc)
    } else if addr == 0xFF47 {
        Some(p.bgp)
    } else if addr == 0xFF48 {
        Some(p.obp0)
    } else if addr == 0xFF49 {
        Some(p.obp1)
    } else if addr == 0xFF4A {
        Some(p.wy)
    } else if addr == 0xFF4B {
        Some(p.wx)
    } else {
        None
    }
}

/// The picture unit after a port write.  Writing the scanline counter
/// resets it: the counter is placed at the last vertical-blank line, so
/// the next tick wraps to the top of the frame.
pub open spec fn spec_ppu_write_port(p: PpuView, addr: u16, value: u8) -> PpuView {
    if addr == 0xFF40 {
        PpuView { LCD_control: value, ..p }
    } else if addr == 0xFF41 {
        PpuView { LCDC_status: value, ..p }
    } else if addr == 0xFF42 {
        PpuView { scy: value, ..p }
    } else if addr == 0xFF43 {
        PpuView { scx: value, ..p }
    } else if addr == 0xFF44 {
        PpuView { ly: 153, state: PpuMode::VBlank, ..p }
    } else if addr == 0xFF45 {
        PpuView { lyc: value, ..p }
    } else if addr == 0xFF47 {
        PpuView { bgp: value, ..p }
    } else if addr == 0xFF48 {
        PpuView { obp0: value, ..p }
    } else if addr == 0xFF49 {
        PpuView { obp1: value, ..p }
    } else if addr == 0xFF4A {
        PpuView { wy: value, ..p }
    } else if addr == 0xFF4B {
        PpuView { wx: value, ..p }
    } else {
        p
    }
}

/// One machine-cycle tick of the scanline state machine: the state after,
/// and whether this tick entered the line on which the vertical-blank
/// interrupt is raised.  While the mode's cooldown runs, only the cooldown
/// counter moves.
pub open spec fn spec_ppu_update(p: PpuView) -> (PpuView, bool) {
    if p.cycles > 0 {
        (PpuView { cycles: (p.cycles - 1) as u32, ..p }, false)
    } else if p.state is OAMSearch {
        (
            PpuView {
                cycles: 20,
                state: PpuMode::PixelTransfer,
                LCDC_status: p.LCDC_status | 0b11,
                ..p
            },
            false,
        )
    } else if p.state is PixelTransfer {
        (
            PpuView { cycles: 43, state: PpuMode::HBlank, LCDC_status: p.LCDC_status & !0b11, ..p },
            false,
        )
    } else if p.state is HBlank {
        if p.ly + 1 == 144 {
            (
                PpuView {
                    cycles: 51,
                    ly: (p.ly + 1) as u8,
                    state: PpuMode::VBlank,
                    LCDC_status: (p.LCDC_status & !0b11) | 0b01,
                    ..p
                },
                false,
            )
        } else {
            (
                PpuView {
                    cycles: 51,
                    ly: (p.ly + 1) as u8,
                    state: PpuMode::OAMSearch,
                    LCDC_status: (p.LCDC_status & !0b11) | 0b10,
                    ..p
                },
                false,
            )
        }
    } else {
        if p.ly + 1 == 154 {
            (
                PpuView {
                    cycles: 114,
                    ly: 0,
                    state: PpuMode::OAMSearch,
                    LCDC_status: (p.LCDC_status & !0b11) | 0b10,
                    ..p
                },
                false,
            )
        } else {
            (
                PpuView { cycles: 114, ly: (p.ly + 1) as u8, ..p },
                p.ly + 1 == 145,
            )
        }
    }
}

impl Ppu {
    /// A fresh picture unit: display enabled (control `0x91`), memories
    /// zeroed, at the top of the frame.
    pub fn new() -> (r: Self)
        ensures
            r@.wf(),
            r@.LCD_control == 0x91,
            r@.LCDC_status == 0,
            r@.scy == 0 && r@.scx == 0 && r@.ly == 0 && r@.lyc == 0,
            r@.bgp == 0 && r@.obp0 == 0 && r@.obp1 == 0 && r@.wy == 0 && r@.wx == 0,
            r@.oam =~= Seq::new(0xA0, |i: int| 0u8),
            r@.vram =~= Seq::new(0x2000, |i: int| 0u8),
            r@.cycles == 0,
            r@.state == PpuMode::OAMSearch,
    {
        let oam = crate::bits::zero_vec(0xA0);
        let vram = crate::bits::zero_vec(0x2000);
        proof {
            assert(oam@ =~= Seq::new(0xA0, |i: int| 0u8));
            assert(vram@ =~= Seq::new(0x2000, |i: int| 0u8));
        }
        Ppu {
            LCD_control: 0x91,
            LCDC_status: 0,
            ly: 0,
            lyc: 0,
            scy: 0,
            bgp: 0,
            obp0: 0,
            obp1: 0,
            wy: 0,
            wx: 0,
            scx: 0,

            sprite_memory: oam,
            vram,

            cycles: 0,
            state: PpuMode::OAMSearch,
        }
    }

    /// Advances the scanline machine one machine cycle; true exactly when
    /// the tick entered the vertical-blank interrupt line.
    pub fn update(&mut self) -> (r: bool)
        requires
            old(self)@.wf(),
        ensures
            final(self)@.wf(),
            (final(self)@, r) == spec_ppu_update(old(self)@),
    {
        // While on cooldown, only burn a cycle.
        if self.cycles > 0 {
            self.cycles = self.cycles - 1;
            return false;
        }
        match self.state {
            PpuMode::OAMSearch => {
                self.cycles = 20;
                self.state = PpuMode::PixelTransfer;
                self.LCDC_status = self.LCDC_status | 0b11;
            }
            PpuMode::PixelTransfer => {
                self.cycles = 43;
                self.state = PpuMode::HBlank;
                self.LCDC_status = self.LCDC_status & !0b11;
            }
            PpuMode::HBlank => {
                self.cycles = 51;
                self.ly = self.ly + 1;
                self.state = if self.ly == 144 {
                    self.LCDC_status = (self.LCDC_status & !0b11) | 0b01;
                    PpuMode::VBlank
                } else {
                    self.LCDC_status = (self.LCDC_status & !0b11) | 0b10;
                    PpuMode::OAMSearch
                };
            }
            PpuMode::VBlank => {
                self.ly = self.ly + 1;
                self.cycles = 114;

                if self.ly == 154 {
                    self.ly = 0;
                    self.LCDC_status = (self.LCDC_status & !0b11) | 0b10;
                    self.state = PpuMode::OAMSearch;
                }
                if self.ly == 145 {
                    return true;
                }
            }
        }
        false
    }

    /// Clears the display-enable bit, as the STOP instruction requires.
    pub fn turn_lcd_off(&mut self)
        ensures
            final(self)@ =~= (PpuView {
                LCD_control: old(self)@.LCD_control & 0x7F,
                ..old(self)@
            }),
    {
        self.LCD_control = self.LCD_control & 0x7F;
    }

    /// Reads a picture-unit data register, or `None` for a port the unit
    /// does not claim.
    pub fn read(&self, address: u16) -> (r: Option<u8>)
        ensures
            r == spec_ppu_read_port(self@, address),
    {
        match address {
            0xFF40 => Some(self.LCD_control),
            0xFF41 => Some(self.LCDC_status),
            0xFF42 => Some(self.scy),
            0xFF43 => Some(self.scx),
            0xFF44 => Some(self.ly),
            0xFF45 => Some(self.lyc),
            0xFF47 => Some(self.bgp),
            0xFF48 => Some(self.obp0),
            0xFF49 => Some(self.obp1),
            0xFF4A => Some(self.wy),
            0xFF4B => Some(self.wx),
            _ => None,
        }
    }

    /// Reads a video-RAM byte; `address` must lie in the video-RAM window.
    pub fn read_vram(&self, address: u16) -> (r: u8)
        requires
            self@.wf(),
            0x8000 <= address < 0xA000,
        ensures
            r == self@.vram[address - 0x8000],
    {
        let idx = (address - 0x8000) as usize;
        self.vram[idx]
    }

    /// Writes a video-RAM byte; `address` must lie in the video-RAM window.
    pub fn write_vram(&mut self, address: u16, value: u8)
        requires
            old(self)@.wf(),
            0x8000 <= address < 0xA000,
        ensures
            final(self)@.wf(),
            final(self)@ =~= (PpuView {
                vram: old(self)@.vram.update(address - 0x8000, value),
                ..old(self)@
            }),
    {
        let idx = (address - 0x8000) as usize;
        self.vram[idx] = value;
    }

    /// Reads a sprite-attribute byte; `address` must lie in sprite memory.
    pub fn read_sprite_mem(&self, address: u16) -> (r: u8)
        requires
            self@.wf(),
            0xFE00 <= address < 0xFEA0,
        ensures
            r == self@.oam[address - 0xFE00],
    {
        let idx = (address - 0xFE00) as usize;
        self.sprite_memory[idx]
    }

    /// Writes a sprite-attribute byte; `address` must lie in sprite memory.
    pub fn write_sprite_mem(&mut self, address: u16, value: u8)
        requires
            old(self)@.wf(),
            0xFE00 <= address < 0xFEA0,
        ensures
            final(self)@.wf(),
            final(self)@ =~= (PpuView {
                oam: old(self)@.oam.update(address - 0xFE00, value),
                ..old(self)@
            }),
    {
        let idx = (address - 0xFE00) as usize;
        self.sprite_memory[idx] = value;
    }

    /// Handles a port write when the picture unit claims `address`; the
    /// result says whether it did.
    pub fn write(&mut self, address: u16, value: u8) -> (r: bool)
        requires
            old(self)@.wf(),
        ensures
            final(self)@.wf(),
            r == spec_ppu_claims_port(address),
            final(self)@ =~= spec_ppu_write_port(old(self)@, address, value),
    {
        match address {
            0xFF40 => self.LCD_control = value,
            0xFF41 => self.LCDC_status = value,
            0xFF42 => self.scy = value,
            0xFF43 => self.scx = value,
            0xFF44 => {
                // The scanline counter is reset on write; parking it on the
                // last vertical-blank line makes the next tick wrap to the
                // top of the frame.
                self.ly = 153;
                self.state = PpuMode::VBlank;
            }
            0xFF45 => self.lyc = value,
            0xFF47 => self.bgp = value,
            0xFF48 => self.obp0 = value,
            0xFF49 => self.obp1 = value,
            0xFF4A => self.wy = value,
            0xFF4B => self.wx = value,

            _ => {
                return false;
            }
        }
        true
    }

    /// Charges picture-unit cycles (the DMA transfer's fixed cost),
    /// saturating at the counter's maximum.
    pub fn add_cycles(&mut self, c: u32)
        ensures
            final(self)@ =~= (PpuView {
                cycles: if old(self)@.cycles + c <= u32::MAX {
                    (old(self)@.cycles + c) as u32
                } else {
                    u32::MAX
                },
                ..old(self)@
            }),
    {
        if self.cycles <= u32::MAX - c {
            self.cycles = self.cycles + c;
        } else {
            self.cycles = u32::MAX;
        }
    }
}

} // verus!
