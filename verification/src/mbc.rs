//! A bank-controller stub holding only the external-RAM window.

use vstd::prelude::*;

use crate::io::Io;
use crate::ram::RAM_SIZE;

verus! {

/// A memory-bank controller reduced to its external-RAM bank.
pub enum Mbc {
    NoMbc { rom: Vec<u8> },
}

/// A controller with a zeroed 8 KiB bank.
pub fn new_nombc() -> (r: Mbc)
    ensures
        r@.wf(),
        r@ == (MbcView::NoMbc { rom: Seq::new(RAM_SIZE as nat, |i: int| 0u8) }),
{
    let mut v: Vec<u8> = Vec::new();
    let mut i: usize = 0;
    while i < RAM_SIZE
        invariant
            i <= RAM_SIZE,
            v@.len() == i,
            forall|j: int| 0 <= j < i ==> v@[j] == 0u8,
        decreases RAM_SIZE - i,
    {
        v.push(0u8);
        i += 1;
    }
    proof {
        assert(v@ =~= Seq::new(RAM_SIZE as nat, |i: int| 0u8));
    }
    Mbc::NoMbc { rom: v }
}

/// Mathematical state of the controller stub.
#[verifier::ext_equal]
pub enum MbcView {
    NoMbc { rom: Seq<u8> },
}

impl MbcView {
    pub open spec fn wf(self) -> bool {
        match self {
            MbcView::NoMbc { rom } => rom.len() == RAM_SIZE,
        }
    }
}

impl View for Mbc {
    type V = MbcView;

    closed spec fn view(&self) -> MbcView {
        match self {
            Mbc::NoMbc { rom } => MbcView::NoMbc { rom: rom@ },
        }
    }
}

impl Io for Mbc {
    open spec fn io_inv(&self) -> bool {
        self@.wf()
    }

    open spec fn io_ok(&self, addr: usize) -> bool {
        0xA000 <= addr < 0xA000 + RAM_SIZE
    }

    open spec fn io_read(&self, addr: usize) -> u8 {
        match self@ {
            MbcView::NoMbc { rom } => rom[addr - 0xA000],
        }
    }

    open spec fn io_write(&self, addr: usize, data: u8) -> MbcView {
        match self@ {
            MbcView::NoMbc { rom } => MbcView::NoMbc { rom: rom.update(addr - 0xA000, data) },
        }
    }

    fn read8(&self, addr: usize) -> u8 {
        match self {
            Mbc::NoMbc { rom } => rom[addr - 0xA000],
        }
    }

    fn write8(&mut self, addr: usize, data: u8) {
        match self {
            Mbc::NoMbc { rom } => rom.set(addr - 0xA000, data),
        }
    }
}

} // verus!
