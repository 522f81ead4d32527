//! The cycle-driven timer: free-running divider plus the configurable
//! counter that raises the timer interrupt on overflow.

use vstd::prelude::*;

use crate::io::Io;

verus! {

/// Sub-clocks per TIMA step for each TAC selector value.
pub const TAC00_DIV: u16 = 1024;
pub const TAC01_DIV: u16 = 16;
pub const TAC10_DIV: u16 = 64;
pub const TAC11_DIV: u16 = 256;

/// Sub-clocks per DIV step.
pub const DIV_PERIOD: u16 = 256;

/// Mathematical state of the timer.
#[verifier::ext_equal]
pub struct TimerView {
    pub div: u8,
    pub tima: u8,
    pub tma: u8,
    pub tac: u8,
    pub count: u16,
}

impl TimerView {
    /// Sub-clocks per TIMA step selected by TAC bits 0-1, in selector
    /// order: 1024, 16, 64, 256.
    pub open spec fn tima_period(self) -> u16 {
        if self.tac & 0x03 == 0x00 {
            TAC00_DIV
        } else if self.tac & 0x03 == 0x01 {
            TAC01_DIV
        } else if self.tac & 0x03 == 0x02 {
            TAC10_DIV
        } else {
            TAC11_DIV
        }
    }

    /// Is the counter enabled by TAC bit 2?
    pub open spec fn enabled(self) -> bool {
        self.tac & 0x04 != 0
    }

    /// State after one sub-clock, with the overflow signal.
    pub open spec fn ticked(self) -> (TimerView, bool) {
        let count = ((self.count + 1) % 0x10000) as u16;
        let stepped = self.enabled() && count as int % self.tima_period() as int == 0;
        let tima_raw = ((self.tima + 1) % 0x100) as u8;
        let overflow = stepped && tima_raw == 0;
        let tima = if !stepped {
            self.tima
        } else if tima_raw == 0 {
            self.tma
        } else {
            tima_raw
        };
        let div = if count as int % DIV_PERIOD as int == 0 {
            ((self.div + 1) % 0x100) as u8
        } else {
            self.div
        };
        (TimerView { div, tima, count, ..self }, overflow)
    }
}

/// The timer.
pub struct Timer {
    div: u8,
    tima: u8,
    tma: u8,
    tac: u8,
    count: u16,
}

impl View for Timer {
    type V = TimerView;

    closed spec fn view(&self) -> TimerView {
        TimerView { div: self.div, tima: self.tima, tma: self.tma, tac: self.tac, count: self.count }
    }
}

impl Timer {
    pub fn new() -> (r: Timer)
        ensures
            r@ == (TimerView { div: 0u8, tima: 0u8, tma: 0u8, tac: 0u8, count: 0u16 }),
    {
        Timer { div: 0, tima: 0, tma: 0, tac: 0, count: 0 }
    }

    /// Advance one sub-clock; the result tells the caller to raise the
    /// timer interrupt.
    pub fn tick(&mut self) -> (overflow: bool)
        ensures
            final(self)@ == old(self)@.ticked().0,
            overflow == old(self)@.ticked().1,
    {
        let mut overflow = false;
        self.count = self.count.wrapping_add(1);
        let period: u16 = if self.tac & 0x03 == 0x00 {
            TAC00_DIV
        } else if self.tac & 0x03 == 0x01 {
            TAC01_DIV
        } else if self.tac & 0x03 == 0x02 {
            TAC10_DIV
        } else {
            TAC11_DIV
        };
        if self.tac & 0x04 != 0 && self.count % period == 0 {
            self.tima = self.tima.wrapping_add(1);
            if self.tima == 0 {
                self.tima = self.tma;
                overflow = true;
            }
        }
        if self.count % DIV_PERIOD == 0 {
            self.div = self.div.wrapping_add(1);
        }
        overflow
    }
}

impl Io for Timer {
    open spec fn io_inv(&self) -> bool {
        true
    }

    open spec fn io_ok(&self, addr: usize) -> bool {
        0xFF04 <= addr <= 0xFF07
    }

    open spec fn io_read(&self, addr: usize) -> u8 {
        if addr == 0xFF04 {
            self@.div
        } else if addr == 0xFF05 {
            self@.tima
        } else if addr == 0xFF06 {
            self@.tma
        } else {
            self@.tac
        }
    }

    open spec fn io_write(&self, addr: usize, data: u8) -> TimerView {
        if addr == 0xFF04 {
            TimerView { div: 0u8, ..self@ }
        } else if addr == 0xFF05 {
            TimerView { tima: data, ..self@ }
        } else if addr == 0xFF06 {
            TimerView { tma: data, ..self@ }
        } else {
            TimerView { tac: data & 0x07, ..self@ }
        }
    }

    fn read8(&self, addr: usize) -> u8 {
        if addr == 0xFF04 {
            self.div
        } else if addr == 0xFF05 {
            self.tima
        } else if addr == 0xFF06 {
            self.tma
        } else {
            self.tac
        }
    }

    fn write8(&mut self, addr: usize, data: u8) {
        if addr == 0xFF04 {
            self.div = 0;
        } else if addr == 0xFF05 {
            self.tima = data;
        } else if addr == 0xFF06 {
            self.tma = data;
        } else {
            self.tac = data & 0x07;
        }
    }
}

} // verus!
