use rustboy::joypad::Button;
use rustboy::joypad::get_button_bit;
use rustboy::joypad::Joypad;
use rustboy::ppu::Ppu;
use rustboy::sound_subsystem::SoundSubsystem;
use rustboy::timer::Timer;

#[test]
fn test_timer_registers() {
    let mut timer = Timer::new();
    assert!(timer.write(0xFF05, 0x12));
    assert!(timer.write(0xFF06, 0x34));
    assert!(timer.write(0xFF07, 0x05));
    assert_eq!(timer.read(0xFF05), Some(0x12));
    assert_eq!(timer.read(0xFF06), Some(0x34));
    assert_eq!(timer.read(0xFF07), Some(0x05));
    assert_eq!(timer.read(0xFF08), None);
    assert!(!timer.write(0xFF08, 0x00));
    // Writing the divider clears it, whatever the byte says.
    assert!(timer.write(0xFF04, 0x7F));
    assert_eq!(timer.read(0xFF04), Some(0x00));
}

#[test]
fn test_timer_overflow_reloads_and_signals() {
    let mut timer = Timer::new();
    // Fastest clock, enabled, counter at the brink, reload value 0xAB.
    assert!(timer.write(0xFF07, 0b101));
    assert!(timer.write(0xFF05, 0xFF));
    assert!(timer.write(0xFF06, 0xAB));
    let mut overflowed = false;
    for _ in 0..16 {
        if timer.update() {
            overflowed = true;
        }
    }
    assert!(overflowed);
    assert_eq!(timer.read(0xFF05), Some(0xAB));
}

#[test]
fn test_timer_disabled_does_not_signal() {
    let mut timer = Timer::new();
    assert!(timer.write(0xFF05, 0xFF));
    for _ in 0..4096 {
        assert!(!timer.update());
    }
    assert_eq!(timer.read(0xFF05), Some(0xFF));
}

#[test]
fn test_timer_divider_advances() {
    let mut timer = Timer::new();
    // The divider moves once per 256 machine-cycle ticks.
    for _ in 0..256 {
        timer.update();
    }
    assert_eq!(timer.read(0xFF04), Some(0x01));
}

#[test]
fn test_sound_register_round_trip() {
    let mut sound = SoundSubsystem::new();
    for (addr, value) in [
        (0xFF11u16, 0x81u8),
        (0xFF12, 0xF3),
        (0xFF13, 0xC1),
        (0xFF14, 0x87),
        (0xFF24, 0x77),
        (0xFF25, 0xF3),
        (0xFF26, 0x80),
    ] {
        assert!(sound.write(addr, value));
        assert_eq!(sound.read(addr), Some(value));
    }
    assert_eq!(sound.read(0xFF15), None);
    assert!(!sound.write(0xFF15, 0x00));
}

#[test]
fn test_joypad_direction_keys() {
    let mut joypad = Joypad::new();
    joypad.update_button(Button::Down, true);
    // Select the direction group (bit 4 low, bit 5 high): the pressed key
    // reads back active-low in the register's low nibble.
    assert!(joypad.write(0xFF00, 0x20));
    assert_eq!(joypad.read(0xFF00), Some(0x2E));
    // Releasing the key and rewriting the select restores the idle nibble.
    joypad.update_button(Button::Down, false);
    assert!(joypad.write(0xFF00, 0x20));
    assert_eq!(joypad.read(0xFF00), Some(0x2F));
    assert_eq!(joypad.read(0xFF01), None);
}

#[test]
fn test_joypad_button_keys() {
    let mut joypad = Joypad::new();
    joypad.update_button(Button::A, true);
    joypad.update_button(Button::Start, true);
    // Select the button group (bit 5 low): A is bit 3, Start is bit 0.
    assert!(joypad.write(0xFF00, 0x10));
    assert_eq!(joypad.read(0xFF00), Some(0x16));
}

#[test]
fn test_button_bits() {
    assert_eq!(get_button_bit(Button::Down), 0);
    assert_eq!(get_button_bit(Button::Up), 1);
    assert_eq!(get_button_bit(Button::Left), 2);
    assert_eq!(get_button_bit(Button::Right), 3);
    assert_eq!(get_button_bit(Button::Start), 4);
    assert_eq!(get_button_bit(Button::Select), 5);
    assert_eq!(get_button_bit(Button::B), 6);
    assert_eq!(get_button_bit(Button::A), 7);
}

#[test]
fn test_ppu_registers_and_memories() {
    let mut ppu = Ppu::new();
    assert_eq!(ppu.read(0xFF40), Some(0x91));
    assert!(ppu.write(0xFF42, 0x17));
    assert_eq!(ppu.read(0xFF42), Some(0x17));
    assert_eq!(ppu.read(0xFF46), None);
    ppu.write_vram(0x8123, 0x42);
    assert_eq!(ppu.read_vram(0x8123), 0x42);
    ppu.write_sprite_mem(0xFE10, 0x24);
    assert_eq!(ppu.read_sprite_mem(0xFE10), 0x24);
    ppu.turn_lcd_off();
    assert_eq!(ppu.read(0xFF40), Some(0x11));
}

#[test]
fn test_ppu_scanline_progression() {
    let mut ppu = Ppu::new();
    // One full line is 114 ticks; after it the line counter has moved.
    assert_eq!(ppu.read(0xFF44), Some(0));
    let mut vblank = false;
    for _ in 0..114 {
        vblank = vblank || ppu.update();
    }
    assert_eq!(ppu.read(0xFF44), Some(1));
    assert!(!vblank);
    // After 144 lines the vertical blank begins and is signalled once the
    // interrupt line is entered.  A line is 114 mode cycles plus the three
    // transition ticks.
    for _ in 0..117 * 150 {
        vblank = vblank || ppu.update();
    }
    assert!(vblank);
}
