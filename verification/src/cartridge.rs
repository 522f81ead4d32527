//! The cartridge: fixed and switchable ROM banks, optional external RAM,
//! and the bank-switching logic of the basic memory-bank controller.

use vstd::prelude::*;

use crate::io::Io;
use crate::CoreError;

verus! {

/// Header offsets in the ROM image.
pub const TITLE_START: usize = 0x134;
pub const TITLE_END: usize = 0x142;
pub const CARTRIDGE_TYPE: usize = 0x147;
pub const RAM_SIZE_ADDR: usize = 0x149;

/// Smallest ROM image the bus can be served from: two 16 KiB banks.
pub const MIN_ROM_SIZE: usize = 0x8000;

/// What the 0x4000-0x5FFF register selects while it lasts.
#[derive(Clone, Copy, PartialEq, Eq, Structural, Debug)]
pub enum BankMode {
    RamBank,
    RomBank,
}

/// Mathematical state of a cartridge.
#[verifier::ext_equal]
pub enum CartView {
    NoMbc { rom: Seq<u8> },
    Mbc1 {
        rom: Seq<u8>,
        rombank: u8,
        ram: Seq<u8>,
        rambank: u8,
        ram_enabled: bool,
        mode: BankMode,
    },
}

impl CartView {
    pub open spec fn wf(self) -> bool {
        match self {
            CartView::NoMbc { rom } => rom.len() >= MIN_ROM_SIZE,
            CartView::Mbc1 { rom, .. } => rom.len() >= MIN_ROM_SIZE,
        }
    }

    /// What a read at `addr` returns; unmapped or out-of-image reads yield 0.
    pub open spec fn read(self, addr: usize) -> u8 {
        match self {
            CartView::NoMbc { rom } => if addr < MIN_ROM_SIZE {
                rom[addr as int]
            } else {
                0u8
            },
            CartView::Mbc1 { rom, rombank, ram, rambank, .. } => {
                if addr < 0x4000 {
                    rom[addr as int]
                } else if addr < 0x8000 {
                    let idx = addr + 0x4000 * (rombank as int - 1);
                    if idx < rom.len() {
                        rom[idx]
                    } else {
                        0u8
                    }
                } else {
                    let idx = addr - 0xA000 + 0x2000 * rambank as int;
                    if 0 <= idx < ram.len() {
                        ram[idx]
                    } else {
                        0u8
                    }
                }
            },
        }
    }

    /// The state a write of `data` at `addr` leaves behind.
    pub open spec fn written(self, addr: usize, data: u8) -> CartView {
        match self {
            CartView::NoMbc { rom } => if addr < MIN_ROM_SIZE {
                CartView::NoMbc { rom: rom.update(addr as int, data) }
            } else {
                self
            },
            CartView::Mbc1 { rom, rombank, ram, rambank, ram_enabled, mode } => {
                if addr < 0x2000 {
                    CartView::Mbc1 { ram_enabled: data & 0x0F == 0x0A, rom, rombank, ram, rambank, mode }
                } else if addr < 0x4000 {
                    CartView::Mbc1 {
                        rombank: (rombank & 0x60) | (data & 0x1F),
                        rom,
                        ram,
                        rambank,
                        ram_enabled,
                        mode,
                    }
                } else if addr < 0x6000 {
                    match mode {
                        BankMode::RamBank => CartView::Mbc1 {
                            rambank: data & 0x03,
                            rom,
                            rombank,
                            ram,
                            ram_enabled,
                            mode,
                        },
                        BankMode::RomBank => CartView::Mbc1 {
                            rombank: rombank | ((data & 0x03) << 5),
                            rom,
                            ram,
                            rambank,
                            ram_enabled,
                            mode,
                        },
                    }
                } else if addr < 0x8000 {
                    let newmode = if data & 0x01 == 0 {
                        BankMode::RomBank
                    } else {
                        BankMode::RamBank
                    };
                    CartView::Mbc1 { mode: newmode, rom, rombank, ram, rambank, ram_enabled }
                } else if ram_enabled {
                    let idx = match mode {
                        BankMode::RamBank => addr - 0xA000 + 0x2000 * rambank as int,
                        BankMode::RomBank => addr - 0xA000,
                    };
                    if 0 <= idx < ram.len() {
                        CartView::Mbc1 { ram: ram.update(idx, data), rom, rombank, rambank, ram_enabled, mode }
                    } else {
                        self
                    }
                } else {
                    self
                }
            },
        }
    }
}

/// A cartridge: a plain 32 KiB ROM, or a ROM with the basic bank controller.
pub enum Cartridge {
    NoMbc { rom: Vec<u8>, title: Vec<u8> },
    Mbc1 {
        rom: Vec<u8>,
        rombank: u8,
        title: Vec<u8>,
        ram: Vec<u8>,
        rambank: u8,
        ram_enabled: bool,
        mode: BankMode,
    },
}

impl View for Cartridge {
    type V = CartView;

    closed spec fn view(&self) -> CartView {
        match self {
            Cartridge::NoMbc { rom, .. } => CartView::NoMbc { rom: rom@ },
            Cartridge::Mbc1 { rom, rombank, ram, rambank, ram_enabled, mode, .. } => CartView::Mbc1 {
                rom: rom@,
                rombank: *rombank,
                ram: ram@,
                rambank: *rambank,
                ram_enabled: *ram_enabled,
                mode: *mode,
            },
        }
    }
}

/// The cartridge state a fresh ROM image loads as: the plain ROM for
/// type 0, or the bank controller at its initial bank and zeroed RAM for
/// type 1.
pub open spec fn initial_cart(bin: Seq<u8>) -> CartView {
    if bin[CARTRIDGE_TYPE as int] == 0 {
        CartView::NoMbc { rom: bin }
    } else {
        CartView::Mbc1 {
            rom: bin,
            rombank: 1u8,
            ram: Seq::new(spec_ram_size(bin[RAM_SIZE_ADDR as int]) as nat, |i: int| 0u8),
            rambank: 0u8,
            ram_enabled: false,
            mode: BankMode::RomBank,
        }
    }
}

/// External-RAM bytes granted by the header size code.
pub open spec fn spec_ram_size(code: u8) -> int {
    if code == 0 {
        0int
    } else if code == 1 {
        16int * 1024
    } else if code == 2 {
        64int * 1024
    } else if code == 3 {
        256int * 1024
    } else {
        1024int * 1024
    }
}

impl Cartridge {
    /// A blank 32 KiB ROM standing in for a missing cartridge.
    pub fn no_cartridge() -> (r: Cartridge)
        ensures
            r@.wf(),
            r@ == (CartView::NoMbc { rom: Seq::new(MIN_ROM_SIZE as nat, |i: int| 0u8) }),
    {
        let mut v: Vec<u8> = Vec::new();
        let mut i: usize = 0;
        while i < MIN_ROM_SIZE
            invariant
                i <= MIN_ROM_SIZE,
                v@.len() == i,
                forall|j: int| 0 <= j < i ==> v@[j] == 0u8,
            decreases MIN_ROM_SIZE - i,
        {
            v.push(0u8);
            i += 1;
        }
        proof {
            assert(v@ =~= Seq::new(MIN_ROM_SIZE as nat, |i: int| 0u8));
        }
        Cartridge::NoMbc { rom: v, title: Vec::new() }
    }

    /// Build a cartridge from a raw ROM image. Rejected images are exactly
    /// those too short for two banks, with an unknown RAM size code, or
    /// with a cartridge type other than 0x00 or 0x01.
    pub fn from_bytes(bin: Vec<u8>) -> (r: Result<Cartridge, CoreError>)
        ensures
            match r {
                Ok(cart) => {
                    &&& bin@.len() >= MIN_ROM_SIZE
                    &&& bin@[CARTRIDGE_TYPE as int] == 0 || bin@[CARTRIDGE_TYPE as int] == 1
                    &&& bin@[RAM_SIZE_ADDR as int] <= 4
                    &&& cart@.wf()
                    &&& cart@ == initial_cart(bin@)
                },
                Err(e) => {
                    &&& e == CoreError::UnsupportedCartridge
                    &&& (bin@.len() < MIN_ROM_SIZE || bin@[RAM_SIZE_ADDR as int] > 4 || (
                    bin@[CARTRIDGE_TYPE as int] != 0 && bin@[CARTRIDGE_TYPE as int] != 1))
                },
            },
    {
        if bin.len() < MIN_ROM_SIZE {
            return Err(CoreError::UnsupportedCartridge);
        }
        let ram_code = bin[RAM_SIZE_ADDR];
        if ram_code > 4 {
            return Err(CoreError::UnsupportedCartridge);
        }
        let ramsize: usize = if ram_code == 0 {
            0
        } else if ram_code == 1 {
            16 * 1024
        } else if ram_code == 2 {
            64 * 1024
        } else if ram_code == 3 {
            256 * 1024
        } else {
            1024 * 1024
        };
        let mut title: Vec<u8> = Vec::new();
        let mut i: usize = TITLE_START;
        while i < TITLE_END
            invariant
                TITLE_START <= i <= TITLE_END,
                bin@.len() >= MIN_ROM_SIZE,
                title@.len() == i - TITLE_START,
            decreases TITLE_END - i,
        {
            title.push(bin[i]);
            i += 1;
        }
        let kind = bin[CARTRIDGE_TYPE];
        if kind == 0x00 {
            Ok(Cartridge::NoMbc { rom: bin, title })
        } else if kind == 0x01 {
            let mut ram: Vec<u8> = Vec::new();
            let mut j: usize = 0;
            while j < ramsize
                invariant
                    j <= ramsize,
                    ram@.len() == j,
                    forall|k: int| 0 <= k < j ==> ram@[k] == 0u8,
                decreases ramsize - j,
            {
                ram.push(0u8);
                j += 1;
            }
            proof {
                assert(ram@ =~= Seq::new(ramsize as nat, |i: int| 0u8));
            }
            Ok(Cartridge::Mbc1 {
                rom: bin,
                rombank: 1,
                title,
                ram,
                rambank: 0,
                ram_enabled: false,
                mode: BankMode::RomBank,
            })
        } else {
            Err(CoreError::UnsupportedCartridge)
        }
    }
}

impl Io for Cartridge {
    open spec fn io_inv(&self) -> bool {
        self@.wf()
    }

    open spec fn io_ok(&self, addr: usize) -> bool {
        addr < 0x8000 || (0xA000 <= addr < 0xC000)
    }

    open spec fn io_read(&self, addr: usize) -> u8 {
        self@.read(addr)
    }

    open spec fn io_write(&self, addr: usize, data: u8) -> CartView {
        self@.written(addr, data)
    }

    fn read8(&self, addr: usize) -> u8 {
        match self {
            Cartridge::NoMbc { rom, .. } => if addr < MIN_ROM_SIZE {
                rom[addr]
            } else {
                0
            },
            Cartridge::Mbc1 { rom, rombank, ram, rambank, .. } => {
                if addr < 0x4000 {
                    rom[addr]
                } else if addr < 0x8000 {
                    let idx = addr - 0x4000 + 0x4000 * (*rombank as usize);
                    proof {
                        assert(idx == addr + 0x4000 * (*rombank as int - 1));
                    }
                    if idx < rom.len() {
                        rom[idx]
                    } else {
                        0
                    }
                } else {
                    let idx = addr - 0xA000 + 0x2000 * (*rambank as usize);
                    if idx < ram.len() {
                        ram[idx]
                    } else {
                        0
                    }
                }
            },
        }
    }

    fn write8(&mut self, addr: usize, data: u8) {
        match self {
            Cartridge::NoMbc { rom, .. } => if addr < MIN_ROM_SIZE {
                rom.set(addr, data);
            },
            Cartridge::Mbc1 { ram, rombank, rambank, ram_enabled, mode, .. } => {
                if addr < 0x2000 {
                    *ram_enabled = data & 0x0F == 0x0A;
                } else if addr < 0x4000 {
                    *rombank = (*rombank & 0x60) | (data & 0x1F);
                } else if addr < 0x6000 {
                    match mode {
                        BankMode::RamBank => *rambank = data & 0x03,
                        BankMode::RomBank => *rombank = *rombank | ((data & 0x03) << 5),
                    }
                } else if addr < 0x8000 {
                    if data & 0x01 == 0 {
                        *mode = BankMode::RomBank;
                    } else {
                        *mode = BankMode::RamBank;
                    }
                } else if *ram_enabled {
                    let idx = match mode {
                        BankMode::RamBank => addr - 0xA000 + 0x2000 * (*rambank as usize),
                        BankMode::RomBank => addr - 0xA000,
                    };
                    if idx < ram.len() {
                        ram.set(idx, data);
                    }
                }
            },
        }
    }
}

} // verus!
