//! The byte-wide register interface that every memory-mapped component obeys.

use vstd::prelude::*;

verus! {

/// A device on the bus: an 8-bit register surface addressed by `usize`.
///
/// `io_ok` names the addresses the device accepts, `io_read` says what a
/// read returns there, and `io_write` says what state a write leaves behind,
/// all at the level of the device's mathematical view.
pub trait Io: View + Sized {
    /// The device's internal invariant.
    spec fn io_inv(&self) -> bool;

    /// The addresses this device accepts.
    spec fn io_ok(&self, addr: usize) -> bool;

    /// What a read at `addr` returns.
    spec fn io_read(&self, addr: usize) -> u8;

    /// The view after a write of `data` at `addr`.
    spec fn io_write(&self, addr: usize, data: u8) -> Self::V;

    fn read8(&self, addr: usize) -> (r: u8)
        requires
            self.io_inv(),
            self.io_ok(addr),
        ensures
            r == self.io_read(addr),
    ;

    fn write8(&mut self, addr: usize, data: u8)
        requires
            old(self).io_inv(),
            old(self).io_ok(addr),
        ensures
            final(self).io_inv(),
            final(self)@ == old(self).io_write(addr, data),
    ;
}

} // verus!
