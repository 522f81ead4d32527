//! A reduced memory map: a cartridge ROM and work RAM behind a 16-bit-wide
//! register interface.

use vstd::prelude::*;

verus! {

/// Bytes in the reduced map's ROM.
pub const MMU_ROM_SIZE: usize = 32768;

/// Bytes in the reduced map's work RAM.
pub const MMU_RAM_SIZE: usize = 8192;

/// A byte store with 8-bit and 16-bit access.
pub trait Io: View<V = Seq<u8>> + Sized {
    /// The store's internal invariant.
    spec fn io_inv(&self) -> bool;

    /// The offsets an 8-bit access accepts.
    spec fn io_ok(&self, addr: usize) -> bool;

    /// The offset a bus address maps to.
    spec fn io_at(&self, addr: usize) -> int;

    /// Is this store's 16-bit order high-byte-first?
    spec fn io_big_endian(&self) -> bool;

    fn read8(&self, addr: usize) -> (r: u8)
        requires
            self.io_inv(),
            self.io_ok(addr),
        ensures
            r == self@[self.io_at(addr)],
    ;

    fn write8(&mut self, addr: usize, data: u8)
        requires
            old(self).io_inv(),
            old(self).io_ok(addr),
        ensures
            final(self).io_inv(),
            final(self)@ == old(self)@.update(old(self).io_at(addr), data),
    ;

    fn read16(&self, addr: usize) -> (r: u16)
        requires
            self.io_inv(),
            self.io_ok(addr),
            self.io_ok((addr + 1) as usize),
        ensures
            self.io_big_endian() ==> r == self@[self.io_at(addr)] * 0x100 + self@[self.io_at(
                (addr + 1) as usize,
            )],
            !self.io_big_endian() ==> r == self@[self.io_at((addr + 1) as usize)] * 0x100 + self@[self.io_at(
                addr,
            )],
    ;

    fn write16(&mut self, addr: usize, data: u16)
        requires
            old(self).io_inv(),
            old(self).io_ok(addr),
            old(self).io_ok((addr + 1) as usize),
        ensures
            final(self).io_inv(),
            old(self).io_big_endian() ==> final(self)@ == old(self)@.update(
                old(self).io_at(addr),
                (data / 0x100) as u8,
            ).update(old(self).io_at((addr + 1) as usize), (data % 0x100) as u8),
            !old(self).io_big_endian() ==> final(self)@ == old(self)@.update(
                old(self).io_at((addr + 1) as usize),
                (data / 0x100) as u8,
            ).update(old(self).io_at(addr), (data % 0x100) as u8),
    ;
}

/// The reduced map's work RAM, zeroed at reset, little-endian 16-bit
/// access by flat offset.
pub struct Ram {
    ram: Vec<u8>,
}

impl View for Ram {
    type V = Seq<u8>;

    closed spec fn view(&self) -> Seq<u8> {
        self.ram@
    }
}

impl Ram {
    pub fn new() -> (r: Ram)
        ensures
            r.io_inv(),
            r@ == Seq::new(MMU_RAM_SIZE as nat, |i: int| 0u8),
    {
        let mut v: Vec<u8> = Vec::new();
        let mut i: usize = 0;
        while i < MMU_RAM_SIZE
            invariant
                i <= MMU_RAM_SIZE,
                v@.len() == i,
                forall|j: int| 0 <= j < i ==> v@[j] == 0u8,
            decreases MMU_RAM_SIZE - i,
        {
            v.push(0u8);
            i += 1;
        }
        proof {
            assert(v@ =~= Seq::new(MMU_RAM_SIZE as nat, |i: int| 0u8));
        }
        Ram { ram: v }
    }
}

impl Io for Ram {
    open spec fn io_inv(&self) -> bool {
        self@.len() == MMU_RAM_SIZE
    }

    open spec fn io_ok(&self, addr: usize) -> bool {
        addr < MMU_RAM_SIZE
    }

    open spec fn io_at(&self, addr: usize) -> int {
        addr as int
    }

    open spec fn io_big_endian(&self) -> bool {
        false
    }

    fn read8(&self, addr: usize) -> u8 {
        self.ram[addr]
    }

    fn write8(&mut self, addr: usize, data: u8) {
        self.ram.set(addr, data);
    }

    fn read16(&self, addr: usize) -> u16 {
        (self.ram[addr + 1] as u16) * 0x100 + (self.ram[addr] as u16)
    }

    fn write16(&mut self, addr: usize, data: u16) {
        self.ram.set(addr + 1, (data / 0x100) as u8);
        self.ram.set(addr, (data % 0x100) as u8);
    }
}

/// The reduced map's cartridge: a writable 32 KiB ROM with big-endian
/// 16-bit access.
pub struct Cartridge {
    rom: Vec<u8>,
}

impl View for Cartridge {
    type V = Seq<u8>;

    closed spec fn view(&self) -> Seq<u8> {
        self.rom@
    }
}

impl Cartridge {
    pub fn new() -> (r: Cartridge)
        ensures
            r.io_inv(),
            r@ == Seq::new(MMU_ROM_SIZE as nat, |i: int| 0u8),
    {
        let mut v: Vec<u8> = Vec::new();
        let mut i: usize = 0;
        while i < MMU_ROM_SIZE
            invariant
                i <= MMU_ROM_SIZE,
                v@.len() == i,
                forall|j: int| 0 <= j < i ==> v@[j] == 0u8,
            decreases MMU_ROM_SIZE - i,
        {
            v.push(0u8);
            i += 1;
        }
        proof {
            assert(v@ =~= Seq::new(MMU_ROM_SIZE as nat, |i: int| 0u8));
        }
        Cartridge { rom: v }
    }
}

impl Io for Cartridge {
    open spec fn io_inv(&self) -> bool {
        self@.len() == MMU_ROM_SIZE
    }

    open spec fn io_ok(&self, addr: usize) -> bool {
        addr < MMU_ROM_SIZE
    }

    open spec fn io_at(&self, addr: usize) -> int {
        addr as int
    }

    open spec fn io_big_endian(&self) -> bool {
        true
    }

    fn read8(&self, addr: usize) -> u8 {
        self.rom[addr]
    }

    fn write8(&mut self, addr: usize, data: u8) {
        self.rom.set(addr, data);
    }

    fn read16(&self, addr: usize) -> u16 {
        (self.rom[addr] as u16) * 0x100 + (self.rom[addr + 1] as u16)
    }

    fn write16(&mut self, addr: usize, data: u16) {
        self.rom.set(addr, (data / 0x100) as u8);
        self.rom.set(addr + 1, (data % 0x100) as u8);
    }
}

/// The reduced map joined up: cartridge below 0x8000 and at the external
/// window, work RAM at 0xC000 with its echo.
pub struct Mmu {
    cartridge: Cartridge,
    ram: Ram,
}

/// Which store serves a reduced-map address.
pub open spec fn mmu_routed(addr: usize) -> bool {
    addr < 0x8000 || (0xC000 <= addr < 0xE000)
}

impl Mmu {
    pub closed spec fn wf(&self) -> bool {
        self.cartridge.io_inv() && self.ram.io_inv()
    }

    pub closed spec fn cart_bytes(&self) -> Seq<u8> {
        self.cartridge@
    }

    pub closed spec fn ram_bytes(&self) -> Seq<u8> {
        self.ram@
    }

    pub fn from_cartridge(cartridge: Cartridge) -> (r: Mmu)
        requires
            cartridge.io_inv(),
        ensures
            r.wf(),
            r.cart_bytes() == cartridge@,
            r.ram_bytes() == Seq::new(MMU_RAM_SIZE as nat, |i: int| 0u8),
    {
        Mmu { cartridge, ram: Ram::new() }
    }

    /// Read one byte; ROM serves both its own range and the external
    /// window, RAM serves its range and would serve the echo.
    pub fn read8(&self, addr: usize) -> (r: u8)
        requires
            self.wf(),
            mmu_routed(addr),
        ensures
            addr < 0x8000 ==> r == self.cart_bytes()[addr as int],
            0xC000 <= addr < 0xE000 ==> r == self.ram_bytes()[addr - 0xC000],
    {
        if addr < 0x8000 {
            self.cartridge.read8(addr)
        } else {
            self.ram.read8(addr - 0xC000)
        }
    }

    /// Write one byte by the same routing.
    pub fn write8(&mut self, addr: usize, data: u8)
        requires
            old(self).wf(),
            mmu_routed(addr),
        ensures
            final(self).wf(),
            addr < 0xC000 ==> final(self).cart_bytes() == old(self).cart_bytes().update(
                addr as int,
                data,
            ) && final(self).ram_bytes() == old(self).ram_bytes(),
            0xC000 <= addr ==> final(self).ram_bytes() == old(self).ram_bytes().update(
                addr - 0xC000,
                data,
            ) && final(self).cart_bytes() == old(self).cart_bytes(),
    {
        if addr < 0x8000 {
            self.cartridge.write8(addr, data);
        } else {
            self.ram.write8(addr - 0xC000, data);
        }
    }
}

} // verus!
