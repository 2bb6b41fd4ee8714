//! The address-space router: owns work RAM, high RAM, the two interrupt
//! registers and the boot overlay, holds the cartridge and the peripherals,
//! and routes every 16-bit address to its backing store.
//!
//! Routing order for both reads and writes: the boot overlay (reads of the
//! low 256 bytes while booting), then the cartridge, then fixed address
//! ranges — video RAM, the I/O-port sub-router, work RAM, its echo mirror,
//! sprite memory, high RAM, and the interrupt-enable register.  Reads of
//! the unusable gaps return `0xFF`; writes there are ignored rather than
//! stopping execution.

use vstd::prelude::*;

use crate::bits::check_bit;
use crate::bits::spec_check_bit;
use crate::cartridge::Cartridge;
use crate::cartridge::CartridgeView;
use crate::cartridge::spec_cart_claims_write;
use crate::cartridge::spec_cart_read;
use crate::cartridge::spec_cart_write;
use crate::joypad::Button;
use crate::joypad::Joypad;
use crate::joypad::JoypadView;
use crate::joypad::spec_button_bit;
use crate::joypad::spec_joypad_write;
use crate::joypad::spec_keys_after;
use crate::ppu::Ppu;
use crate::ppu::PpuView;
use crate::ppu::spec_ppu_claims_port;
use crate::ppu::spec_ppu_read_port;
use crate::ppu::spec_ppu_update;
use crate::ppu::spec_ppu_write_port;
use crate::sound_subsystem::SoundSubsystem;
use crate::sound_subsystem::SoundView;
use crate::sound_subsystem::spec_sound_claims;
use crate::sound_subsystem::spec_sound_read;
use crate::sound_subsystem::spec_sound_write;
use crate::timer::Timer;
use crate::timer::TimerView;
use crate::timer::spec_timer_claims;
use crate::timer::spec_timer_read;
use crate::timer::spec_timer_update;
use crate::timer::spec_timer_write;

verus! {

/// The five interrupt sources, in priority order, highest first.
#[derive(Debug, PartialEq, Eq, Structural, PartialOrd, Clone, Copy)]
pub enum Interrupt {
    VBLANK,
    LCDStatus,
    TimerOverflow,
    SerialTransfer,
    Joypad,
}

/// The request/enable bit position of an interrupt source, which is also
/// its priority index.
pub open spec fn spec_interrupt_index(i: Interrupt) -> u8 {
    match i {
        Interrupt::VBLANK => 0,
        Interrupt::LCDStatus => 1,
        Interrupt::TimerOverflow => 2,
        Interrupt::SerialTransfer => 3,
        Interrupt::Joypad => 4,
    }
}

/// The fixed dispatch vector of an interrupt source.
pub open spec fn spec_interrupt_vector(i: Interrupt) -> u16 {
    match i {
        Interrupt::VBLANK => 0x0040,
        Interrupt::LCDStatus => 0x0048,
        Interrupt::TimerOverflow => 0x0050,
        Interrupt::SerialTransfer => 0x0058,
        Interrupt::Joypad => 0x0060,
    }
}

/// The highest-priority interrupt source that is both requested in `iflag`
/// and enabled in `ienable`, if any.
pub open spec fn spec_pending_interrupt(iflag: u8, ienable: u8) -> Option<Interrupt> {
    if spec_check_bit(iflag, 0) && spec_check_bit(ienable, 0) {
        Some(Interrupt::VBLANK)
    } else if spec_check_bit(iflag, 1) && spec_check_bit(ienable, 1) {
        Some(Interrupt::LCDStatus)
    } else if spec_check_bit(iflag, 2) && spec_check_bit(ienable, 2) {
        Some(Interrupt::TimerOverflow)
    } else if spec_check_bit(iflag, 3) && spec_check_bit(ienable, 3) {
        Some(Interrupt::SerialTransfer)
    } else if spec_check_bit(iflag, 4) && spec_check_bit(ienable, 4) {
        Some(Interrupt::Joypad)
    } else {
        None
    }
}

pub struct Interconnect {
    boot: Vec<u8>,
    cartridge: Cartridge,

    internal_ram2: Vec<u8>,
    internal_ram: Vec<u8>,

    ppu: Ppu,
    sound: SoundSubsystem,
    timer: Timer,
    joypad: Joypad,

    interrupt_flag: u8,
    interrupt_enable: u8,

    booting: bool,
}

/// The whole bus state as mathematical values.
#[verifier::ext_equal]
pub ghost struct BusView {
    pub boot: Seq<u8>,
    pub cartridge: CartridgeView,
    pub hram: Seq<u8>,
    pub wram: Seq<u8>,
    pub ppu: PpuView,
    pub sound: SoundView,
    pub timer: TimerView,
    pub joypad: JoypadView,
    pub interrupt_flag: u8,
    pub interrupt_enable: u8,
    pub booting: bool,
}

impl View for Interconnect {
    type V = BusView;

    closed spec fn view(&self) -> BusView {
        BusView {
            boot: self.boot@,
            cartridge: self.cartridge@,
            hram: self.internal_ram2@,
            wram: self.internal_ram@,
            ppu: self.ppu@,
            sound: self.sound@,
            timer: self.timer@,
            joypad: self.joypad@,
            interrupt_flag: self.interrupt_flag,
            interrupt_enable: self.interrupt_enable,
            booting: self.booting,
        }
    }
}

impl BusView {
    pub open spec fn wf(self) -> bool {
        &&& self.cartridge.wf()
        &&& self.ppu.wf()
        &&& self.timer.wf()
        &&& self.wram.len() == 0x2000
        &&& self.hram.len() == 0x7F
    }
}

/// What a read of I/O port `addr` (in `0xFF00..0xFF4C`) returns: the DMA
/// trigger reads as `0xFF`, then the picture unit, sound, timer and joypad
/// are offered the port in that order, then the interrupt-request register;
/// unclaimed ports read as `0xFF`.
pub open spec fn spec_io_port_read(b: BusView, addr: u16) -> u8 {
    if addr == 0xFF46 {
        0xFF
    } else if spec_ppu_read_port(b.ppu, addr) is Some {
        spec_ppu_read_port(b.ppu, addr)->Some_0
    } else if spec_sound_read(b.sound, addr) is Some {
        spec_sound_read(b.sound, addr)->Some_0
    } else if spec_timer_read(b.timer, addr) is Some {
        spec_timer_read(b.timer, addr)->Some_0
    } else if addr == 0xFF00 {
        b.joypad.register
    } else if addr == 0xFF0F {
        b.interrupt_flag
    } else {
        0xFF
    }
}

/// What a bus read of `addr` returns.
pub open spec fn spec_bus_read(b: BusView, addr: u16) -> u8 {
    if b.booting && addr <= 0xFF {
        if (addr as int) < b.boot.len() {
            b.boot[addr as int]
        } else {
            0xFF
        }
    } else if addr < 0x8000 || (0xA000 <= addr && addr < 0xC000) {
        spec_cart_read(b.cartridge, addr)->Some_0
    } else if 0x8000 <= addr && addr < 0xA000 {
        b.ppu.vram[addr - 0x8000]
    } else if 0xFF00 <= addr && addr < 0xFF4C {
        spec_io_port_read(b, addr)
    } else if 0xC000 <= addr && addr < 0xE000 {
        b.wram[addr - 0xC000]
    } else if 0xE000 <= addr && addr < 0xFE00 {
        b.wram[addr - 0xE000]
    } else if 0xFE00 <= addr && addr < 0xFEA0 {
        b.ppu.oam[addr - 0xFE00]
    } else if 0xFF80 <= addr && addr < 0xFFFF {
        b.hram[addr - 0xFF80]
    } else if addr == 0xFFFF {
        b.interrupt_enable
    } else {
        // The unusable gaps below sprite memory and above the I/O ports.
        0xFF
    }
}

/// The bus after the synchronous DMA transfer triggered by writing `value`
/// to `0xFF46`: the 160 bytes starting at `value * 0x100` are copied into
/// sprite memory, and the picture unit is charged a fixed cycle cost.
pub open spec fn spec_dma(b: BusView, value: u8) -> BusView {
    BusView {
        ppu: PpuView {
            oam: Seq::new(0xA0, |j: int| spec_bus_read(b, (value * 0x100 + j) as u16)),
            cycles: if b.ppu.cycles + 200 <= u32::MAX {
                (b.ppu.cycles + 200) as u32
            } else {
                u32::MAX
            },
            ..b.ppu
        },
        ..b
    }
}

/// The bus after a write to I/O port `addr` (in `0xFF00..0xFF4C`): the DMA
/// trigger starts a transfer; otherwise the picture unit, sound, timer and
/// joypad are offered the port in that order, then the interrupt-request
/// register; writes to unclaimed ports (the serial port among them) are
/// ignored.
pub open spec fn spec_io_port_write(b: BusView, addr: u16, value: u8) -> BusView {
    if addr == 0xFF46 {
        spec_dma(b, value)
    } else if spec_ppu_claims_port(addr) {
        BusView { ppu: spec_ppu_write_port(b.ppu, addr, value), ..b }
    } else if spec_sound_claims(addr) {
        BusView { sound: spec_sound_write(b.sound, addr, value), ..b }
    } else if spec_timer_claims(addr) {
        BusView { timer: spec_timer_write(b.timer, addr, value), ..b }
    } else if addr == 0xFF00 {
        BusView { joypad: spec_joypad_write(b.joypad, value), ..b }
    } else if addr == 0xFF0F {
        BusView { interrupt_flag: value, ..b }
    } else {
        b
    }
}

/// The bus after a write of `value` to `addr`.
pub open spec fn spec_bus_write(b: BusView, addr: u16, value: u8) -> BusView {
    if spec_cart_claims_write(addr) {
        BusView { cartridge: spec_cart_write(b.cartridge, addr, value), ..b }
    } else if addr == 0xFF50 {
        // Any write here permanently disables the boot overlay.
        BusView { booting: false, ..b }
    } else if 0x8000 <= addr && addr < 0xA000 {
        BusView { ppu: PpuView { vram: b.ppu.vram.update(addr - 0x8000, value), ..b.ppu }, ..b }
    } else if 0xFF00 <= addr && addr < 0xFF4C {
        spec_io_port_write(b, addr, value)
    } else if 0xC000 <= addr && addr < 0xE000 {
        BusView { wram: b.wram.update(addr - 0xC000, value), ..b }
    } else if 0xE000 <= addr && addr < 0xFE00 {
        BusView { wram: b.wram.update(addr - 0xE000, value), ..b }
    } else if 0xFE00 <= addr && addr < 0xFEA0 {
        BusView { ppu: PpuView { oam: b.ppu.oam.update(addr - 0xFE00, value), ..b.ppu }, ..b }
    } else if 0xFF80 <= addr && addr < 0xFFFF {
        BusView { hram: b.hram.update(addr - 0xFF80, value), ..b }
    } else if addr == 0xFFFF {
        BusView { interrupt_enable: value, ..b }
    } else {
        b
    }
}

/// The bus after one machine-cycle tick: both peripherals advance, and the
/// interrupt-request bits for vertical blank and timer overflow are set
/// when the tick raises them.
#[verifier::opaque]
pub open spec fn spec_bus_update(b: BusView) -> BusView {
    let vblank = spec_ppu_update(b.ppu).1;
    let overflow = spec_timer_update(b.timer).1;
    BusView {
        ppu: spec_ppu_update(b.ppu).0,
        timer: spec_timer_update(b.timer).0,
        interrupt_flag: (b.interrupt_flag | (if vblank {
            0x01u8
        } else {
            0u8
        })) | (if overflow {
            0x04u8
        } else {
            0u8
        }),
        ..b
    }
}

impl Interconnect {
    /// A fresh bus over a boot image and a cartridge: RAM zeroed,
    /// peripherals reset, no interrupt requested or enabled, boot overlay
    /// active.
    pub fn new(boot: Vec<u8>, cartridge: Cartridge) -> (r: Self)
        requires
            cartridge@.wf(),
        ensures
            r@.wf(),
            r@.boot == boot@,
            r@.cartridge == cartridge@,
            r@.hram =~= Seq::new(0x7F, |i: int| 0u8),
            r@.wram =~= Seq::new(0x2000, |i: int| 0u8),
            r@.interrupt_flag == 0,
            r@.interrupt_enable == 0,
            r@.booting,
            r@.ppu.LCD_control == 0x91,
            r@.ppu.state is OAMSearch,
            r@.ppu.cycles == 0,
            r@.timer == (TimerView {
                main: 0,
                sub: 0,
                cl_div: 0,
                div: 0,
                tima: 0,
                tma: 0,
                tac: 0,
            }),
            r@.joypad == (JoypadView { register: 0, keys: 0 }),
    {
        let hram = crate::bits::zero_vec(0x7F);
        let wram = crate::bits::zero_vec(0x2000);
        proof {
            assert(hram@ =~= Seq::new(0x7F, |i: int| 0u8));
            assert(wram@ =~= Seq::new(0x2000, |i: int| 0u8));
        }
        Interconnect {
            cartridge,
            boot,
            internal_ram2: hram,
            internal_ram: wram,
            ppu: Ppu::new(),
            sound: SoundSubsystem::new(),
            timer: Timer::new(),
            joypad: Joypad::new(),
            interrupt_flag: 0,
            interrupt_enable: 0,
            booting: true,
        }
    }

    /// Routes a write of `value` to `address`.
    pub fn write_mem(&mut self, address: u16, value: u8)
        requires
            old(self)@.wf(),
        ensures
            final(self)@.wf(),
            final(self)@ =~= spec_bus_write(old(self)@, address, value),
    {
        if self.cartridge.write_mem(address, value) {
            return;
        }
        if address == 0xFF50 {
            // Leaving boot mode is permanent for the rest of the run.
            self.booting = false;
        } else if 0x8000 <= address && address < 0xA000 {
            self.ppu.write_vram(address, value);
        } else if 0xFF00 <= address && address < 0xFF4C {
            self.io_port_write(address, value);
        } else if 0xC000 <= address && address < 0xE000 {
            let idx = (address - 0xC000) as usize;
            self.internal_ram[idx] = value;
        } else if 0xE000 <= address && address < 0xFE00 {
            let idx = (address - 0xE000) as usize;
            self.internal_ram[idx] = value;
        } else if 0xFE00 <= address && address < 0xFEA0 {
            self.ppu.write_sprite_mem(address, value);
        } else if 0xFF80 <= address && address < 0xFFFF {
            let idx = (address - 0xFF80) as usize;
            self.internal_ram2[idx] = value;
        } else if address == 0xFFFF {
            self.interrupt_enable = value;
        }
        // Writes into the unusable gaps are anomalies real programs probe;
        // they are ignored rather than fatal.
    }

    /// Routes a read of `address`.
    pub fn read_mem(&self, address: u16) -> (r: u8)
        requires
            self@.wf(),
        ensures
            r == spec_bus_read(self@, address),
    {
        if self.booting && address <= 0xFF {
            let idx = address as usize;
            if idx < self.boot.len() {
                return self.boot[idx];
            }
            return 0xFF;
        }
        if let Some(value) = self.cartridge.read_mem(address) {
            return value;
        }
        if 0x8000 <= address && address < 0xA000 {
            self.ppu.read_vram(address)
        } else if 0xFF00 <= address && address < 0xFF4C {
            self.io_port_read(address)
        } else if 0xC000 <= address && address < 0xE000 {
            let idx = (address - 0xC000) as usize;
            self.internal_ram[idx]
        } else if 0xE000 <= address && address < 0xFE00 {
            let idx = (address - 0xE000) as usize;
            self.internal_ram[idx]
        } else if 0xFE00 <= address && address < 0xFEA0 {
            self.ppu.read_sprite_mem(address)
        } else if 0xFF80 <= address && address < 0xFFFF {
            let idx = (address - 0xFF80) as usize;
            self.internal_ram2[idx]
        } else if address == 0xFFFF {
            self.interrupt_enable
        } else {
            0xFF
        }
    }

    fn io_port_read(&self, address: u16) -> (r: u8)
        requires
            self@.wf(),
            0xFF00 <= address < 0xFF4C,
        ensures
            r == spec_io_port_read(self@, address),
    {
        if address == 0xFF46 {
            // The DMA trigger is write-only.
            return 0xFF;
        }
        if let Some(ret) = self.ppu.read(address) {
            return ret;
        }
        if let Some(ret) = self.sound.read(address) {
            return ret;
        }
        if let Some(ret) = self.timer.read(address) {
            return ret;
        }
        if let Some(ret) = self.joypad.read(address) {
            return ret;
        }
        match address {
            0xFF0F => self.interrupt_flag,
            _ => 0xFF,
        }
    }

    fn io_port_write(&mut self, address: u16, value: u8)
        requires
            old(self)@.wf(),
            0xFF00 <= address < 0xFF4C,
        ensures
            final(self)@.wf(),
            final(self)@ =~= spec_io_port_write(old(self)@, address, value),
    {
        if address == 0xFF46 {
            self.run_dma(value);
            return;
        }
        if self.ppu.write(address, value) {
            return;
        }
        if self.sound.write(address, value) {
            return;
        }
        if self.timer.write(address, value) {
            return;
        }
        if self.joypad.write(address, value) {
            return;
        }
        match address {
            0xFF0F => self.interrupt_flag = value,
            _ => {
                // Unclaimed ports, the serial port among them: ignored.
            }
        }
    }

    /// The synchronous DMA transfer: copies the 160 bytes starting at
    /// `value * 0x100` into sprite memory and charges the picture unit its
    /// fixed cost.
    fn run_dma(&mut self, value: u8)
        requires
            old(self)@.wf(),
        ensures
            final(self)@.wf(),
            final(self)@ =~= spec_dma(old(self)@, value),
    {
        let ghost b0 = old(self)@;
        let start_add: u16 = (value as u16) << 8;
        proof {
            assert((value as u16) << 8 == value as u16 * 0x100) by (bit_vector);
        }
        let mut i: u16 = 0;
        while i < 0xA0
            invariant
                i <= 0xA0,
                b0.wf(),
                start_add == value as u16 * 0x100,
                self@.boot == b0.boot,
                self@.cartridge == b0.cartridge,
                self@.hram == b0.hram,
                self@.wram == b0.wram,
                self@.sound == b0.sound,
                self@.timer == b0.timer,
                self@.joypad == b0.joypad,
                self@.interrupt_flag == b0.interrupt_flag,
                self@.interrupt_enable == b0.interrupt_enable,
                self@.booting == b0.booting,
                self@.ppu =~= (PpuView { oam: self@.ppu.oam, ..b0.ppu }),
                self@.ppu.oam.len() == 0xA0,
                forall|j: int|
                    0 <= j < i ==> self@.ppu.oam[j] == spec_bus_read(
                        b0,
                        (value * 0x100 + j) as u16,
                    ),
                forall|j: int| i <= j < 0xA0 ==> self@.ppu.oam[j] == b0.ppu.oam[j],
            decreases 0xA0 - i,
        {
            let addr = start_add + i;
            let val = self.read_mem(addr);
            proof {
                if 0xFE00 <= addr && addr < 0xFEA0 {
                    // The source overlaps sprite memory itself: the bytes
                    // already copied equal what was there before, so the
                    // read still sees the original contents.
                    assert(addr - 0xFE00 == i);
                    assert(self@.ppu.oam[i as int] == b0.ppu.oam[i as int]);
                    assert(spec_bus_read(self@, addr) == spec_bus_read(b0, addr));
                } else {
                    assert(spec_bus_read(self@, addr) == spec_bus_read(b0, addr));
                }
            }
            self.ppu.write_sprite_mem(0xFE00 + i, val);
            i = i + 1;
        }
        self.ppu.add_cycles(200);
        proof {
            assert(self@.ppu.oam =~= Seq::new(
                0xA0,
                |j: int| spec_bus_read(b0, (value * 0x100 + j) as u16),
            ));
            assert(self@ =~= spec_dma(b0, value));
        }
    }

    /// The highest-priority pending-and-enabled interrupt source, without
    /// clearing its request bit.
    pub fn pending_interrupt(&self) -> (r: Option<Interrupt>)
        ensures
            r == spec_pending_interrupt(self@.interrupt_flag, self@.interrupt_enable),
    {
        if check_bit(self.interrupt_flag, 0) && check_bit(self.interrupt_enable, 0) {
            Some(Interrupt::VBLANK)
        } else if check_bit(self.interrupt_flag, 1) && check_bit(self.interrupt_enable, 1) {
            Some(Interrupt::LCDStatus)
        } else if check_bit(self.interrupt_flag, 2) && check_bit(self.interrupt_enable, 2) {
            Some(Interrupt::TimerOverflow)
        } else if check_bit(self.interrupt_flag, 3) && check_bit(self.interrupt_enable, 3) {
            Some(Interrupt::SerialTransfer)
        } else if check_bit(self.interrupt_flag, 4) && check_bit(self.interrupt_enable, 4) {
            Some(Interrupt::Joypad)
        } else {
            None
        }
    }

    /// Takes the highest-priority pending-and-enabled interrupt source:
    /// clears exactly its request bit and returns it; the bus is unchanged
    /// when none is pending.
    pub fn take_interrupt(&mut self) -> (r: Option<Interrupt>)
        ensures
            r == spec_pending_interrupt(old(self)@.interrupt_flag, old(self)@.interrupt_enable),
            final(self)@ =~= match r {
                Some(source) => BusView {
                    interrupt_flag: old(self)@.interrupt_flag & !(1u8 << spec_interrupt_index(
                        source,
                    )),
                    ..old(self)@
                },
                None => old(self)@,
            },
    {
        let r = self.pending_interrupt();
        match r {
            Some(source) => {
                // The caller will service the interrupt, so the request bit
                // is cleared here.
                let bit = interrupt_index(source);
                self.interrupt_flag = self.interrupt_flag & !(1u8 << bit);
                Some(source)
            }
            None => None,
        }
    }

    /// Takes a pending joypad interrupt request, enabled or not: clears its
    /// request bit and reports it.
    pub fn get_button_interrupt(&mut self) -> (r: Option<Interrupt>)
        ensures
            r == if spec_check_bit(old(self)@.interrupt_flag, 4) {
                Some(Interrupt::Joypad)
            } else {
                None::<Interrupt>
            },
            final(self)@ =~= (BusView {
                interrupt_flag: old(self)@.interrupt_flag & !(1u8 << 4u8),
                ..old(self)@
            }),
    {
        if check_bit(self.interrupt_flag, 4) {
            self.interrupt_flag = self.interrupt_flag & !(1u8 << 4u8);
            Some(Interrupt::Joypad)
        } else {
            proof {
                let flag = self@.interrupt_flag;
                assert(flag & !(1u8 << 4u8) == flag) by (bit_vector)
                    requires
                        flag & (1u8 << 4u8) == 0,
                ;
            }
            None
        }
    }

    /// Advances both peripherals by one machine cycle and raises the
    /// interrupt requests their ticks signal.
    pub fn update(&mut self)
        requires
            old(self)@.wf(),
        ensures
            final(self)@.wf(),
            final(self)@ =~= spec_bus_update(old(self)@),
    {
        proof {
            reveal(spec_bus_update);
            assert(forall|x: u8| #[trigger] (x | 0u8) == x) by (bit_vector);
        }
        if self.ppu.update() {
            // The vertical-blank interrupt request.
            self.interrupt_flag = self.interrupt_flag | 0x01;
        }
        if self.timer.update() {
            // The timer-overflow interrupt request.
            self.interrupt_flag = self.interrupt_flag | 0x04;
        }
    }

    /// Records a host button press or release and raises the joypad
    /// interrupt request when the press reports one.
    pub fn update_button(&mut self, btn: Button, pressed: bool)
        ensures
            final(self)@ =~= (BusView {
                joypad: JoypadView {
                    keys: spec_keys_after(old(self)@.joypad.keys, btn, pressed),
                    ..old(self)@.joypad
                },
                interrupt_flag: if pressed && spec_check_bit(
                    old(self)@.joypad.keys,
                    spec_button_bit(btn),
                ) {
                    old(self)@.interrupt_flag | 0x10u8
                } else {
                    old(self)@.interrupt_flag
                },
                ..old(self)@
            }),
    {
        if self.joypad.update_button(btn, pressed) {
            self.interrupt_flag = self.interrupt_flag | 0x10;
        }
    }

    /// Clears the picture unit's display-enable bit, as the STOP
    /// instruction requires.
    pub fn turn_lcd_off(&mut self)
        ensures
            final(self)@ =~= (BusView {
                ppu: PpuView {
                    LCD_control: old(self)@.ppu.LCD_control & 0x7F,
                    ..old(self)@.ppu
                },
                ..old(self)@
            }),
    {
        self.ppu.turn_lcd_off();
    }

    /// The boot image the overlay serves.
    pub fn boot(&self) -> (r: &Vec<u8>)
        ensures
            r@ == self@.boot,
    {
        &self.boot
    }
}

/// The request/enable bit position of an interrupt source.
pub fn interrupt_index(i: Interrupt) -> (r: u8)
    ensures
        r == spec_interrupt_index(i),
{
    match i {
        Interrupt::VBLANK => 0,
        Interrupt::LCDStatus => 1,
        Interrupt::TimerOverflow => 2,
        Interrupt::SerialTransfer => 3,
        Interrupt::Joypad => 4,
    }
}

/// The fixed dispatch vector of an interrupt source.
pub fn interrupt_vector(i: Interrupt) -> (r: u16)
    ensures
        r == spec_interrupt_vector(i),
{
    match i {
        Interrupt::VBLANK => 0x0040,
        Interrupt::LCDStatus => 0x0048,
        Interrupt::TimerOverflow => 0x0050,
        Interrupt::SerialTransfer => 0x0058,
        Interrupt::Joypad => 0x0060,
    }
}

/// The addresses backed by plain RAM the bus itself owns — work RAM, its
/// echo mirror, and high RAM — where a write is stored as given and read
/// back unchanged.
pub open spec fn spec_plain_ram(addr: u16) -> bool {
    (0xC000 <= addr && addr < 0xFE00) || (0xFF80 <= addr && addr < 0xFFFF)
}

/// The storage cell a plain-RAM address is backed by; echo addresses share
/// the cell of the work-RAM address `0x2000` below them.
pub open spec fn spec_ram_cell(addr: u16) -> int {
    if 0xC000 <= addr && addr < 0xE000 {
        addr - 0xC000
    } else if 0xE000 <= addr && addr < 0xFE00 {
        addr - 0xE000
    } else {
        0x10000 + (addr - 0xFF80)
    }
}

/// A plain-RAM write is read back unchanged at the same address.
pub proof fn lemma_ram_read_after_write(b: BusView, addr: u16, value: u8)
    requires
        b.wf(),
        spec_plain_ram(addr),
    ensures
        spec_bus_read(spec_bus_write(b, addr, value), addr) == value,
{
}

/// A plain-RAM write leaves every plain-RAM address backed by another cell
/// unchanged.
pub proof fn lemma_ram_write_frame(b: BusView, addr: u16, value: u8, other: u16)
    requires
        b.wf(),
        spec_plain_ram(addr),
        spec_plain_ram(other),
        spec_ram_cell(addr) != spec_ram_cell(other),
    ensures
        spec_bus_read(spec_bus_write(b, addr, value), other) == spec_bus_read(b, other),
{
}

/// Echo mirroring: a byte written to work RAM is read back through the
/// echo window `0x2000` above it, and a byte written through the echo
/// window is read back at the mirrored work-RAM address.  The echo window
/// is `0x1E00` bytes long, so only work-RAM addresses below `0xDE00` have
/// a mirror.
pub proof fn lemma_echo_mirror(b: BusView, addr: u16, value: u8)
    requires
        b.wf(),
        0xC000 <= addr < 0xDE00,
    ensures
        spec_bus_read(spec_bus_write(b, addr, value), (addr + 0x2000) as u16) == value,
        spec_bus_read(spec_bus_write(b, (addr + 0x2000) as u16, value), addr) == value,
{
    let echo = (addr + 0x2000) as u16;
    assert(0xE000 <= echo < 0xFE00);
    let b1 = spec_bus_write(b, addr, value);
    assert(spec_bus_read(b1, echo) == b1.wram[echo - 0xE000]);
    let b2 = spec_bus_write(b, echo, value);
    assert(spec_bus_read(b2, addr) == b2.wram[addr - 0xC000]);
}

} // verus!
