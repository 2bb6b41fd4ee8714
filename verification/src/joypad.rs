//! The joypad: one bus-visible register at `0xFF00` and an internal
//! pressed-key byte.  Key polling belongs to the host; it injects button
//! state through `update_button`.
//!
//! Key byte layout: bits 0..=3 hold Down, Up, Left, Right; bits 4..=7 hold
//! Start, Select, B, A.  The register's bit 4 selects the direction group
//! and bit 5 the button group, both active-low; the selected group is
//! mirrored, inverted, into the register's low nibble.

use vstd::prelude::*;

use crate::bits::check_bit;
use crate::bits::spec_check_bit;

verus! {

#[derive(Debug, Clone, Copy)]
pub enum Button {
    Down,
    Up,
    Left,
    Right,
    Start,
    Select,
    B,
    A,
}

pub struct Joypad {
    register: u8,
    keys: u8,
}

/// The joypad state as plain values.
#[verifier::ext_equal]
pub ghost struct JoypadView {
    pub register: u8,
    pub keys: u8,
}

impl View for Joypad {
    type V = JoypadView;

    closed spec fn view(&self) -> JoypadView {
        JoypadView { register: self.register, keys: self.keys }
    }
}

/// The key-byte bit that carries `btn`.
pub open spec fn spec_button_bit(btn: Button) -> u8 {
    match btn {
        Button::Down => 0,
        Button::Up => 1,
        Button::Left => 2,
        Button::Right => 3,
        Button::Start => 4,
        Button::Select => 5,
        Button::B => 6,
        Button::A => 7,
    }
}

/// The register byte after refreshing its low nibble from the pressed-key
/// byte: the group selected active-low by bits 5 (buttons) or 4
/// (directions) appears inverted in bits 0..=3; with neither group
/// selected the register keeps its value.
pub open spec fn spec_register_refresh(register: u8, keys: u8) -> u8 {
    if !spec_check_bit(register, 5) {
        (register & 0xF0) | (!(keys >> 4) & 0x0F)
    } else if !spec_check_bit(register, 4) {
        (register & 0xF0) | (!keys & 0x0F)
    } else {
        register
    }
}

/// The joypad state after a bus write to `0xFF00`: the byte's high nibble
/// replaces the register's, and the low nibble is refreshed from the keys.
pub open spec fn spec_joypad_write(j: JoypadView, value: u8) -> JoypadView {
    JoypadView {
        register: spec_register_refresh((j.register & 0x0F) | (value & 0xF0), j.keys),
        ..j
    }
}

/// The key byte after a button changes state.
pub open spec fn spec_keys_after(keys: u8, btn: Button, pressed: bool) -> u8 {
    if pressed {
        keys | (1u8 << spec_button_bit(btn))
    } else {
        keys & !(1u8 << spec_button_bit(btn))
    }
}

impl Joypad {
    pub fn new() -> (r: Self)
        ensures
            r@ == (JoypadView { register: 0, keys: 0 }),
    {
        Joypad { register: 0, keys: 0 }
    }

    /// Reads the joypad register, or `None` for any port but `0xFF00`.
    pub fn read(&self, address: u16) -> (r: Option<u8>)
        ensures
            r == if address == 0xFF00 {
                Some(self@.register)
            } else {
                None::<u8>
            },
    {
        match address {
            0xFF00 => Some(self.register),
            _ => None,
        }
    }

    /// Handles a write when the joypad claims `address` (only `0xFF00`);
    /// the result says whether it did.
    pub fn write(&mut self, address: u16, value: u8) -> (r: bool)
        ensures
            r == (address == 0xFF00),
            final(self)@ =~= if address == 0xFF00 {
                spec_joypad_write(old(self)@, value)
            } else {
                old(self)@
            },
    {
        match address {
            0xFF00 => {
                // Only the group-select high nibble is writable.
                self.register = (self.register & 0x0F) | (value & 0xF0);
                self.update_register();
            }
            _ => {
                return false;
            }
        }
        true
    }

    /// Records a button press or release injected by the host.  The result
    /// reports the press of a button whose key bit was already set, which
    /// the bus turns into a joypad interrupt request.
    pub fn update_button(&mut self, btn: Button, pressed: bool) -> (r: bool)
        ensures
            final(self)@.keys == spec_keys_after(old(self)@.keys, btn, pressed),
            final(self)@.register == old(self)@.register,
            r == (pressed && spec_check_bit(old(self)@.keys, spec_button_bit(btn))),
    {
        let bit = get_button_bit(btn);
        if pressed {
            let old_value = self.keys;
            // Change the bit for the down button to 1.
            self.keys = self.keys | (1u8 << bit);
            // Check for an interrupt.
            if check_bit(old_value, bit) {
                return true;
            }
        } else {
            // The button is up, so change the bit to 0.
            self.keys = self.keys & !(1u8 << bit);
        }
        false
    }

    /// Refreshes the register's low nibble from the pressed keys according
    /// to the selected group.
    fn update_register(&mut self)
        ensures
            final(self)@.keys == old(self)@.keys,
            final(self)@.register == spec_register_refresh(old(self)@.register, old(self)@.keys),
    {
        if !check_bit(self.register, 5) {
            self.register = (self.register & 0xF0) | (!(self.keys >> 4) & 0x0F);
        } else if !check_bit(self.register, 4) {
            self.register = (self.register & 0xF0) | (!self.keys & 0x0F);
        }
    }
}

/// The key-byte bit position carrying each button.
pub fn get_button_bit(btn: Button) -> (r: u8)
    ensures
        r == spec_button_bit(btn),
        r < 8,
{
    match btn {
        Button::Down => 0,
        Button::Up => 1,
        Button::Left => 2,
        Button::Right => 3,

        Button::Start => 4,
        Button::Select => 5,
        Button::B => 6,
        Button::A => 7,
    }
}

} // verus!
