//! Sound register storage.  Sample synthesis is out of scope: the
//! subsystem only stores and returns the bus-visible register bytes.

use vstd::prelude::*;

verus! {

#[allow(non_snake_case)]
#[derive(Debug)]
pub struct SoundSubsystem {
    NR11: u8,
    NR12: u8,
    NR13: u8,
    NR14: u8,

    NR50: u8,
    NR51: u8,
    NR52: u8,
}

/// The sound registers as plain values.
#[allow(non_snake_case)]
#[verifier::ext_equal]
pub ghost struct SoundView {
    pub NR11: u8,
    pub NR12: u8,
    pub NR13: u8,
    pub NR14: u8,
    pub NR50: u8,
    pub NR51: u8,
    pub NR52: u8,
}

impl View for SoundSubsystem {
    type V = SoundView;

    closed spec fn view(&self) -> SoundView {
        SoundView {
            NR11: self.NR11,
            NR12: self.NR12,
            NR13: self.NR13,
            NR14: self.NR14,
            NR50: self.NR50,
            NR51: self.NR51,
            NR52: self.NR52,
        }
    }
}

/// Whether the sound subsystem claims port `addr`.
pub open spec fn spec_sound_claims(addr: u16) -> bool {
    addr == 0xFF11 || addr == 0xFF12 || addr == 0xFF13 || addr == 0xFF14 || addr == 0xFF24
        || addr == 0xFF25 || addr == 0xFF26
}

/// The register byte a sound read returns, `None` for unclaimed ports.
pub open spec fn spec_sound_read(s: SoundView, addr: u16) -> Option<u8> {
    if addr == 0xFF11 {
        Some(s.NR11)
    } else if addr == 0xFF12 {
        Some(s.NR12)
    } else if addr == 0xFF13 {
        Some(s.NR13)
    } else if addr == 0xFF14 {
        Some(s.NR14)
    } else if addr == 0xFF24 {
        Some(s.NR50)
    } else if addr == 0xFF25 {
        Some(s.NR51)
    } else if addr == 0xFF26 {
        Some(s.NR52)
    } else {
        None
    }
}

/// The sound registers after a write; unclaimed ports leave them unchanged.
pub open spec fn spec_sound_write(s: SoundView, addr: u16, value: u8) -> SoundView {
    if addr == 0xFF11 {
        SoundView { NR11: value, ..s }
    } else if addr == 0xFF12 {
        SoundView { NR12: value, ..s }
    } else if addr == 0xFF13 {
        SoundView { NR13: value, ..s }
    } else if addr == 0xFF14 {
        SoundView { NR14: value, ..s }
    } else if addr == 0xFF24 {
        SoundView { NR50: value, ..s }
    } else if addr == 0xFF25 {
        SoundView { NR51: value, ..s }
    } else if addr == 0xFF26 {
        SoundView { NR52: value, ..s }
    } else {
        s
    }
}

impl SoundSubsystem {
    pub fn new() -> (r: Self)
        ensures
            r@ == (SoundView { NR11: 0, NR12: 0, NR13: 0, NR14: 0, NR50: 0, NR51: 0, NR52: 0 }),
    {
        SoundSubsystem { NR11: 0, NR12: 0, NR13: 0, NR14: 0, NR50: 0, NR51: 0, NR52: 0 }
    }

    /// Handles a write when the subsystem claims `address`; the result says
    /// whether it did.
    pub fn write(&mut self, address: u16, value: u8) -> (r: bool)
        ensures
            r == spec_sound_claims(address),
            final(self)@ =~= spec_sound_write(old(self)@, address, value),
    {
        match address {
            0xFF11 => {
                self.NR11 = value;
            }
            0xFF12 => {
                self.NR12 = value;
            }
            0xFF13 => {
                self.NR13 = value;
            }
            0xFF14 => {
                self.NR14 = value;
            }
            0xFF24 => {
                self.NR50 = value;
            }
            0xFF25 => {
                self.NR51 = value;
            }
            0xFF26 => {
                self.NR52 = value;
            }
            _ => {
                return false;
            }
        }
        true
    }

    /// Reads a sound register, or `None` for a port the subsystem does not
    /// claim.
    pub fn read(&self, address: u16) -> (r: Option<u8>)
        ensures
            r == spec_sound_read(self@, address),
    {
        match address {
            0xFF11 => Some(self.NR11),
            0xFF12 => Some(self.NR12),
            0xFF13 => Some(self.NR13),
            0xFF14 => Some(self.NR14),

            0xFF24 => Some(self.NR50),
            0xFF25 => Some(self.NR51),
            0xFF26 => Some(self.NR52),
            _ => None,
        }
    }
}

} // verus!
