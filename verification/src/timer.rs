//! The timer/divider subsystem, specified through its register read/write
//! contract and its overflow-interrupt signal.
//!
//! `update` is called once per machine cycle.  An internal prescaler
//! (`sub`) advances the main counter every 16 calls; a second prescaler
//! (`cl_div`) advances the divider register `DIV` every 16 main ticks.
//! When the timer is enabled and the main counter reaches the clock rate
//! selected in `TAC`, the counter `TIMA` increments; on overflow it reloads
//! from `TMA` and the update signals an overflow interrupt.

use vstd::prelude::*;

use crate::bits::check_bit;
use crate::bits::spec_check_bit;
use vstd::wrapping::u64_specs;
use vstd::wrapping::u8_specs;

verus! {

pub struct Timer {
    main: u64,
    sub: u64,
    cl_div: u64,

    div: u8,
    tima: u8,
    tma: u8,
    tac: u8,
}

/// The timer state as plain values.
#[verifier::ext_equal]
pub ghost struct TimerView {
    pub main: u64,
    pub sub: u64,
    pub cl_div: u64,
    pub div: u8,
    pub tima: u8,
    pub tma: u8,
    pub tac: u8,
}

impl View for Timer {
    type V = TimerView;

    closed spec fn view(&self) -> TimerView {
        TimerView {
            main: self.main,
            sub: self.sub,
            cl_div: self.cl_div,
            div: self.div,
            tima: self.tima,
            tma: self.tma,
            tac: self.tac,
        }
    }
}

impl TimerView {
    /// The two prescalers stay below their wrap points.
    pub open spec fn wf(self) -> bool {
        &&& self.sub < 16
        &&& self.cl_div < 16
    }
}

/// Bit 2 of `TAC` gates the timer.
pub open spec fn spec_timer_enabled(tac: u8) -> bool {
    spec_check_bit(tac, 2)
}

/// The number of main-counter ticks per `TIMA` increment selected by the
/// low two bits of `TAC`.
pub open spec fn spec_timer_clock(tac: u8) -> u64 {
    if tac & 0b11 == 0 {
        64u64
    } else if tac & 0b11 == 1 {
        1u64
    } else if tac & 0b11 == 2 {
        4u64
    } else {
        16u64
    }
}

/// Whether the timer claims port `addr`.
pub open spec fn spec_timer_claims(addr: u16) -> bool {
    addr == 0xFF04 || addr == 0xFF05 || addr == 0xFF06 || addr == 0xFF07
}

/// The register byte a timer read returns, `None` for unclaimed ports.
pub open spec fn spec_timer_read(t: TimerView, addr: u16) -> Option<u8> {
    if addr == 0xFF04 {
        Some(t.div)
    } else if addr == 0xFF05 {
        Some(t.tima)
    } else if addr == 0xFF06 {
        Some(t.tma)
    } else if addr == 0xFF07 {
        Some(t.tac)
    } else {
        None
    }
}

/// The timer state after a register write: writing `DIV` clears it, the
/// other three registers store the byte, anything else is unclaimed.
pub open spec fn spec_timer_write(t: TimerView, addr: u16, value: u8) -> TimerView {
    if addr == 0xFF04 {
        TimerView { div: 0, ..t }
    } else if addr == 0xFF05 {
        TimerView { tima: value, ..t }
    } else if addr == 0xFF06 {
        TimerView { tma: value, ..t }
    } else if addr == 0xFF07 {
        TimerView { tac: value, ..t }
    } else {
        t
    }
}

/// One machine-cycle tick of the timer: the state after, and whether the
/// tick overflowed `TIMA` (which raises the overflow interrupt).
pub open spec fn spec_timer_update(t: TimerView) -> (TimerView, bool) {
    let ticked = t.sub + 1 >= 16;
    let carried = ticked && t.cl_div + 1 == 16;
    let t1 = TimerView {
        main: if ticked {
            u64_specs::wrapping_add(t.main, 1)
        } else {
            t.main
        },
        sub: if ticked {
            (t.sub + 1 - 16) as u64
        } else {
            (t.sub + 1) as u64
        },
        cl_div: if carried {
            0u64
        } else if ticked {
            (t.cl_div + 1) as u64
        } else {
            t.cl_div
        },
        div: if carried {
            u8_specs::wrapping_add(t.div, 1)
        } else {
            t.div
        },
        ..t
    };
    if !spec_timer_enabled(t1.tac) {
        (t1, false)
    } else if t1.main >= spec_timer_clock(t1.tac) {
        if t1.tima == 0xFF {
            (TimerView { main: 0, tima: t1.tma, ..t1 }, true)
        } else {
            (TimerView { main: 0, tima: (t1.tima + 1) as u8, ..t1 }, false)
        }
    } else {
        (t1, false)
    }
}

impl Timer {
    pub fn new() -> (r: Self)
        ensures
            r@ == (TimerView { main: 0, sub: 0, cl_div: 0, div: 0, tima: 0, tma: 0, tac: 0 }),
            r@.wf(),
    {
        Timer { main: 0, sub: 0, cl_div: 0, div: 0, tima: 0, tma: 0, tac: 0 }
    }

    /// Handles a register write when the timer claims `address`; the result
    /// says whether it did.
    pub fn write(&mut self, address: u16, value: u8) -> (r: bool)
        requires
            old(self)@.wf(),
        ensures
            final(self)@.wf(),
            r == spec_timer_claims(address),
            final(self)@ =~= spec_timer_write(old(self)@, address, value),
    {
        match address {
            0xFF04 => {
                // Writing the divider clears it, whatever the byte.
                self.div = 0;
            }
            0xFF05 => {
                self.tima = value;
            }
            0xFF06 => {
                self.tma = value;
            }
            0xFF07 => {
                self.tac = value;
            }
            _ => {
                return false;
            }
        }
        true
    }

    /// Reads a timer register, or `None` for a port the timer does not
    /// claim.
    pub fn read(&self, address: u16) -> (r: Option<u8>)
        ensures
            r == spec_timer_read(self@, address),
    {
        match address {
            0xFF04 => Some(self.div),
            0xFF05 => Some(self.tima),
            0xFF06 => Some(self.tma),
            0xFF07 => Some(self.tac),
            _ => None,
        }
    }

    /// Advances the timer by one machine cycle; true exactly when this tick
    /// overflowed `TIMA`.
    pub fn update(&mut self) -> (r: bool)
        requires
            old(self)@.wf(),
        ensures
            final(self)@.wf(),
            (final(self)@, r) == spec_timer_update(old(self)@),
    {
        self.sub = self.sub + 1;

        if self.sub >= 16 {
            self.main = self.main.wrapping_add(1);
            self.sub = self.sub - 16;

            self.cl_div = self.cl_div + 1;
            if self.cl_div == 16 {
                self.cl_div = 0;
                self.div = self.div.wrapping_add(1);
            }
        }
        if !self.timer_enabled() {
            proof {
                assert((self@, false) =~= spec_timer_update(old(self)@));
            }
            return false;
        }
        if self.main >= self.timer_clock() {
            self.main = 0;
            if self.tima == 0xFF {
                self.tima = self.tma;
                proof {
                    assert((self@, true) =~= spec_timer_update(old(self)@));
                }
                return true;
            }
            self.tima = self.tima + 1;
        }
        proof {
            assert((self@, false) =~= spec_timer_update(old(self)@));
        }
        false
    }

    fn timer_enabled(&self) -> (r: bool)
        ensures
            r == spec_timer_enabled(self@.tac),
    {
        check_bit(self.tac, 2)
    }

    fn timer_clock(&self) -> (r: u64)
        ensures
            r == spec_timer_clock(self@.tac),
    {
        let sel = self.tac & 0b11;
        if sel == 0 {
            64
        } else if sel == 1 {
            1
        } else if sel == 2 {
            4
        } else {
            16
        }
    }
}

} // verus!
