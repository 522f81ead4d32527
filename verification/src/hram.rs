//! High RAM: the 127-byte zero page at 0xFF80-0xFFFE.

use vstd::prelude::*;

use crate::io::Io;
use crate::ram::HRAM_SIZE;

verus! {

/// The zero-page byte store, zeroed at reset.
pub struct HRam {
    ram: Vec<u8>,
}

impl View for HRam {
    type V = Seq<u8>;

    closed spec fn view(&self) -> Seq<u8> {
        self.ram@
    }
}

impl HRam {
    pub open spec fn wf(&self) -> bool {
        self@.len() == HRAM_SIZE
    }

    pub fn new() -> (r: HRam)
        ensures
            r.wf(),
            r@ == Seq::new(HRAM_SIZE as nat, |i: int| 0u8),
    {
        let mut v: Vec<u8> = Vec::new();
        let mut i: usize = 0;
        while i < HRAM_SIZE
            invariant
                i <= HRAM_SIZE,
                v@.len() == i,
                forall|j: int| 0 <= j < i ==> v@[j] == 0u8,
            decreases HRAM_SIZE - i,
        {
            v.push(0u8);
            i += 1;
        }
        proof {
            assert(v@ =~= Seq::new(HRAM_SIZE as nat, |i: int| 0u8));
        }
        HRam { ram: v }
    }
}

impl Io for HRam {
    open spec fn io_inv(&self) -> bool {
        self.wf()
    }

    open spec fn io_ok(&self, addr: usize) -> bool {
        addr < HRAM_SIZE
    }

    open spec fn io_read(&self, addr: usize) -> u8 {
        self@[addr as int]
    }

    open spec fn io_write(&self, addr: usize, data: u8) -> Seq<u8> {
        self@.update(addr as int, data)
    }

    fn read8(&self, addr: usize) -> u8 {
        self.ram[addr]
    }

    fn write8(&mut self, addr: usize, data: u8) {
        self.ram.set(addr, data);
    }
}

} // verus!
