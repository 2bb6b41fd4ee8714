use rustboy::cartridge::Cartridge;
use rustboy::joypad::Button;
use rustboy::interconnect::interrupt_index;
use rustboy::interconnect::interrupt_vector;
use rustboy::interconnect::Interconnect;
use rustboy::interconnect::Interrupt;

fn empty_bus() -> Interconnect {
    Interconnect::new(Vec::new(), Cartridge::new(Vec::new()))
}

#[test]
fn test_echo_ram_mirrors_work_ram() {
    let mut bus = empty_bus();
    bus.write_mem(0xC010, 0xAB);
    assert_eq!(bus.read_mem(0xE010), 0xAB);
    assert_eq!(bus.read_mem(0xC010), 0xAB);
    // Writing through the echo window is visible at the work-RAM address.
    bus.write_mem(0xE777, 0x5C);
    assert_eq!(bus.read_mem(0xC777), 0x5C);
    assert_eq!(bus.read_mem(0xE777), 0x5C);
}

#[test]
fn test_high_ram_and_interrupt_enable() {
    let mut bus = empty_bus();
    bus.write_mem(0xFF80, 0x11);
    bus.write_mem(0xFFFE, 0x22);
    bus.write_mem(0xFFFF, 0x1F);
    assert_eq!(bus.read_mem(0xFF80), 0x11);
    assert_eq!(bus.read_mem(0xFFFE), 0x22);
    assert_eq!(bus.read_mem(0xFFFF), 0x1F);
}

#[test]
fn test_unusable_areas_read_ff() {
    let mut bus = empty_bus();
    bus.write_mem(0xFF50, 1);
    assert_eq!(bus.read_mem(0xFEA0), 0xFF);
    assert_eq!(bus.read_mem(0xFEFF), 0xFF);
    assert_eq!(bus.read_mem(0xFF4C), 0xFF);
    assert_eq!(bus.read_mem(0xFF7F), 0xFF);
    // The DMA trigger is write-only.
    assert_eq!(bus.read_mem(0xFF46), 0xFF);
}

#[test]
fn test_boot_overlay() {
    let boot = vec![0xAA, 0xBB, 0xCC];
    let mut rom = vec![0x11, 0x22, 0x33];
    rom.resize(0x200, 0x00);
    let mut bus = Interconnect::new(boot, Cartridge::new(rom));
    // While booting, the low bytes come from the boot image.
    assert_eq!(bus.read_mem(0x0000), 0xAA);
    assert_eq!(bus.read_mem(0x0002), 0xCC);
    assert_eq!(bus.boot().len(), 3);
    // Writing the control register disables the overlay for good.
    bus.write_mem(0xFF50, 0x01);
    assert_eq!(bus.read_mem(0x0000), 0x11);
    assert_eq!(bus.read_mem(0x0002), 0x33);
}

#[test]
fn test_interrupt_priority() {
    let mut bus = empty_bus();
    // VBlank and Timer both requested and enabled: VBlank wins, then
    // Timer on the next take.
    bus.write_mem(0xFF0F, 0b0000_0101);
    bus.write_mem(0xFFFF, 0b0000_0101);
    assert_eq!(bus.pending_interrupt(), Some(Interrupt::VBLANK));
    assert_eq!(bus.take_interrupt(), Some(Interrupt::VBLANK));
    assert_eq!(bus.take_interrupt(), Some(Interrupt::TimerOverflow));
    assert_eq!(bus.take_interrupt(), None);
}

#[test]
fn test_interrupt_masking() {
    let mut bus = empty_bus();
    // A request without its enable bit stays pending and untaken.
    bus.write_mem(0xFF0F, 0b0000_0001);
    bus.write_mem(0xFFFF, 0b0000_0100);
    assert_eq!(bus.take_interrupt(), None);
    assert_eq!(bus.read_mem(0xFF0F), 0b0000_0001);
}

#[test]
fn test_interrupt_vectors() {
    assert_eq!(interrupt_vector(Interrupt::VBLANK), 0x0040);
    assert_eq!(interrupt_vector(Interrupt::LCDStatus), 0x0048);
    assert_eq!(interrupt_vector(Interrupt::TimerOverflow), 0x0050);
    assert_eq!(interrupt_vector(Interrupt::SerialTransfer), 0x0058);
    assert_eq!(interrupt_vector(Interrupt::Joypad), 0x0060);
    assert_eq!(interrupt_index(Interrupt::VBLANK), 0);
    assert_eq!(interrupt_index(Interrupt::Joypad), 4);
}

#[test]
fn test_button_interrupt() {
    let mut bus = empty_bus();
    assert_eq!(bus.get_button_interrupt(), None);
    bus.write_mem(0xFF0F, 0b0001_0000);
    assert_eq!(bus.get_button_interrupt(), Some(Interrupt::Joypad));
    assert_eq!(bus.read_mem(0xFF0F), 0);
}

#[test]
fn test_dma_copies_into_sprite_memory() {
    let mut bus = empty_bus();
    for i in 0..0xA0u16 {
        bus.write_mem(0xC000 + i, (i as u8) ^ 0x5A);
    }
    bus.write_mem(0xFF46, 0xC0);
    for i in 0..0xA0u16 {
        assert_eq!(bus.read_mem(0xFE00 + i), (i as u8) ^ 0x5A);
    }
}

#[test]
fn test_cartridge_rom_banking() {
    // Two 16 KiB banks with distinct markers; bank 1 is visible in the
    // switchable window whether the bank register holds 0 or 1.
    let mut rom = vec![0u8; 0x4000 * 4];
    rom[0x0000] = 0x10;
    rom[0x4000] = 0x41;
    rom[0x8000] = 0x42;
    rom[0xC000] = 0x43;
    let mut cart = Cartridge::new(rom);
    assert_eq!(cart.read_mem(0x0000), Some(0x10));
    assert_eq!(cart.read_mem(0x4000), Some(0x41));
    assert!(cart.write_mem(0x2000, 0x00));
    assert_eq!(cart.read_mem(0x4000), Some(0x41));
    assert!(cart.write_mem(0x2000, 0x02));
    assert_eq!(cart.read_mem(0x4000), Some(0x42));
    assert!(cart.write_mem(0x2000, 0x03));
    assert_eq!(cart.read_mem(0x4000), Some(0x43));
    // Reads past the end of the image are reported as 0xFF.
    assert!(cart.write_mem(0x2000, 0x1F));
    assert_eq!(cart.read_mem(0x4000), Some(0xFF));
    // Addresses outside every cartridge region are unclaimed.
    assert_eq!(cart.read_mem(0xC000), None);
    assert!(!cart.write_mem(0xC000, 0x00));
}

#[test]
fn test_cartridge_ram_banking() {
    let mut cart = Cartridge::new(vec![0u8; 0x4000]);
    assert!(cart.write_mem(0x0000, 0x0A));
    assert!(cart.write_mem(0xA123, 0x77));
    assert_eq!(cart.read_mem(0xA123), Some(0x77));
    // Another RAM bank holds its own bytes.
    assert!(cart.write_mem(0x4000, 0x01));
    assert_eq!(cart.read_mem(0xA123), Some(0x00));
    assert!(cart.write_mem(0xA123, 0x88));
    assert_eq!(cart.read_mem(0xA123), Some(0x88));
    assert!(cart.write_mem(0x4000, 0x00));
    assert_eq!(cart.read_mem(0xA123), Some(0x77));
}

#[test]
fn test_joypad_interrupt_through_bus() {
    let mut bus = empty_bus();
    // A press of a button whose key bit was already set raises the
    // joypad request.
    bus.update_button(Button::A, true);
    assert_eq!(bus.read_mem(0xFF0F), 0);
    bus.update_button(Button::A, true);
    assert_eq!(bus.read_mem(0xFF0F), 0b0001_0000);
}
