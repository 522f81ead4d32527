//! Flat byte stores: the 8 KiB work-RAM and video-RAM banks.

use vstd::prelude::*;

use crate::io::Io;

verus! {

/// Number of bytes in a work-RAM or video-RAM bank.
pub const RAM_SIZE: usize = 8192;

/// Number of bytes of high RAM (the zero page at 0xFF80-0xFFFE).
pub const HRAM_SIZE: usize = 128;

/// An 8 KiB flat byte store, zeroed at reset.
pub struct Ram {
    ram: Vec<u8>,
}

impl View for Ram {
    type V = Seq<u8>;

    closed spec fn view(&self) -> Seq<u8> {
        self.ram@
    }
}

impl Ram {
    pub open spec fn wf(&self) -> bool {
        self@.len() == RAM_SIZE
    }

    pub fn new() -> (r: Ram)
        ensures
            r.wf(),
            r@ == Seq::new(RAM_SIZE as nat, |i: int| 0u8),
    {
        let mut v: Vec<u8> = Vec::new();
        let mut i: usize = 0;
        while i < RAM_SIZE
            invariant
                i <= RAM_SIZE,
                v@.len() == i,
                forall|j: int| 0 <= j < i ==> v@[j] == 0u8,
            decreases RAM_SIZE - i,
        {
            v.push(0u8);
            i += 1;
        }
        proof {
            assert(v@ =~= Seq::new(RAM_SIZE as nat, |i: int| 0u8));
        }
        Ram { ram: v }
    }
}

impl Io for Ram {
    open spec fn io_inv(&self) -> bool {
        self.wf()
    }

    open spec fn io_ok(&self, addr: usize) -> bool {
        addr < RAM_SIZE
    }

    open spec fn io_read(&self, addr: usize) -> u8 {
        self@[addr as int]
    }

    open spec fn io_write(&self, addr: usize, data: u8) -> Seq<u8> {
        self@.update(addr as int, data)
    }

    fn read8(&self, addr: usize) -> u8 {
        self.ram[addr]
    }

    fn write8(&mut self, addr: usize, data: u8) {
        self.ram.set(addr, data);
    }
}

} // verus!
