//! The bus: dispatches 8-bit reads and writes across the address map,
//! services OAM DMA, and forwards the per-step advancement of the pixel
//! pipeline and the timer, collecting their interrupts.

use vstd::prelude::*;

use crate::apu::{audio_reg_ok, Apu};
use crate::cartridge::{CartView, Cartridge};
use crate::hram::HRam;
use crate::interrupt::{Interrupt, InterruptKind, IntrView};
use crate::io::Io;
use crate::pad::{Key, Pad};
use crate::ppu::{Oam, Ppu, PpuView, SCREEN_HEIGHT, SCREEN_WIDTH};
use crate::ram::Ram;
use crate::timer::{Timer, TimerView};
use crate::CoreError;

verus! {

/// First OAM address, and the DMA source register.
pub const OAM_START_ADDR: usize = 0xFE00;
pub const DMA_START_ADDR: usize = 0xFF46;

/// Mathematical state of the whole bus.
#[verifier::ext_equal]
pub struct BusView {
    pub cart: CartView,
    pub wram: Seq<u8>,
    pub hram: Seq<u8>,
    pub ppu: PpuView,
    pub apu: Seq<u8>,
    pub intr: IntrView,
    pub pad: crate::pad::PadView,
    pub timer: TimerView,
}

impl BusView {
    pub open spec fn wf(self) -> bool {
        &&& self.cart.wf()
        &&& self.wram.len() == crate::ram::RAM_SIZE
        &&& self.hram.len() == crate::ram::HRAM_SIZE
        &&& self.ppu.wf()
        &&& self.apu.len() == crate::apu::AUDIO_REGS
    }

    /// What a read at `addr` returns: the address map of the system.
    /// Unmapped holes read as 0, and the echo region and the zero page
    /// fold onto work RAM and high RAM.
    #[verifier::opaque]
    pub open spec fn read8(self, addr: usize) -> u8 {
        if addr < 0x8000 {
            self.cart.read(addr)
        } else if addr < 0xA000 {
            self.ppu.vram[addr - 0x8000]
        } else if addr < 0xC000 {
            self.cart.read(addr)
        } else if addr < 0xFE00 {
            self.wram[(addr % 0x2000) as int]
        } else if addr < 0xFEA0 {
            self.ppu.oam[((addr - 0xFE00) / 4) as int].spec_byte((addr - 0xFE00) % 4)
        } else if addr < 0xFF00 {
            0u8
        } else if addr == 0xFF00 {
            self.pad.register_byte()
        } else if 0xFF04 <= addr <= 0xFF07 {
            if addr == 0xFF04 {
                self.timer.div
            } else if addr == 0xFF05 {
                self.timer.tima
            } else if addr == 0xFF06 {
                self.timer.tma
            } else {
                self.timer.tac
            }
        } else if addr == 0xFF0F {
            self.intr.irqf
        } else if 0xFF40 <= addr <= 0xFF4B {
            if addr == 0xFF40 {
                self.ppu.lcdc
            } else if addr == 0xFF41 {
                self.ppu.stat
            } else if addr == 0xFF42 {
                self.ppu.scy
            } else if addr == 0xFF43 {
                self.ppu.scx
            } else if addr == 0xFF44 {
                self.ppu.ly
            } else if addr == 0xFF45 {
                self.ppu.lyc
            } else if addr == 0xFF46 {
                self.ppu.dma
            } else if addr == 0xFF47 {
                self.ppu.bgp
            } else if addr == 0xFF48 {
                self.ppu.obp0
            } else if addr == 0xFF49 {
                self.ppu.obp1
            } else if addr == 0xFF4A {
                self.ppu.wy
            } else {
                self.ppu.wx
            }
        } else if 0xFF80 <= addr <= 0xFFFE {
            self.hram[(addr % 0x80) as int]
        } else if addr == 0xFFFF {
            self.intr.irqe
        } else {
            0u8
        }
    }

    /// The state a write of `data` at `addr` leaves behind; writes into
    /// the unmapped holes are discarded.
    #[verifier::opaque]
    pub open spec fn written8(self, addr: usize, data: u8) -> BusView {
        if addr < 0x8000 {
            BusView { cart: self.cart.written(addr, data), ..self }
        } else if addr < 0xA000 {
            BusView {
                ppu: PpuView { vram: self.ppu.vram.update(addr - 0x8000, data), ..self.ppu },
                ..self
            }
        } else if addr < 0xC000 {
            BusView { cart: self.cart.written(addr, data), ..self }
        } else if addr < 0xFE00 {
            BusView { wram: self.wram.update((addr % 0x2000) as int, data), ..self }
        } else if addr < 0xFEA0 {
            let idx = ((addr - 0xFE00) / 4) as int;
            BusView {
                ppu: PpuView {
                    oam: self.ppu.oam.update(
                        idx,
                        self.ppu.oam[idx].spec_written((addr - 0xFE00) % 4, data),
                    ),
                    ..self.ppu
                },
                ..self
            }
        } else if addr < 0xFF00 {
            self
        } else if addr == 0xFF00 {
            BusView { pad: crate::pad::PadView { register: data & 0x3F, ..self.pad }, ..self }
        } else if 0xFF04 <= addr <= 0xFF07 {
            let t = if addr == 0xFF04 {
                TimerView { div: 0u8, ..self.timer }
            } else if addr == 0xFF05 {
                TimerView { tima: data, ..self.timer }
            } else if addr == 0xFF06 {
                TimerView { tma: data, ..self.timer }
            } else {
                TimerView { tac: data & 0x07, ..self.timer }
            };
            BusView { timer: t, ..self }
        } else if addr == 0xFF0F {
            BusView { intr: IntrView { irqf: data & 0x1F, ..self.intr }, ..self }
        } else if audio_reg_ok(addr) {
            BusView { apu: self.apu.update(addr - 0xFF10, data), ..self }
        } else if 0xFF40 <= addr <= 0xFF4B {
            let p = if addr == 0xFF40 {
                PpuView { lcdc: data, ..self.ppu }
            } else if addr == 0xFF41 {
                PpuView { stat: data & 0x7F, ..self.ppu }
            } else if addr == 0xFF42 {
                PpuView { scy: data, ..self.ppu }
            } else if addr == 0xFF43 {
                PpuView { scx: data, ..self.ppu }
            } else if addr == 0xFF44 {
                PpuView { ly: data, ..self.ppu }
            } else if addr == 0xFF45 {
                PpuView { lyc: data, ..self.ppu }
            } else if addr == 0xFF46 {
                PpuView { dma: data, dma_started: true, ..self.ppu }
            } else if addr == 0xFF47 {
                PpuView { bgp: data, ..self.ppu }
            } else if addr == 0xFF48 {
                PpuView { obp0: data, ..self.ppu }
            } else if addr == 0xFF49 {
                PpuView { obp1: data, ..self.ppu }
            } else if addr == 0xFF4A {
                PpuView { wy: data, ..self.ppu }
            } else {
                PpuView { wx: data, ..self.ppu }
            };
            BusView { ppu: p, ..self }
        } else if 0xFF80 <= addr <= 0xFFFE {
            BusView { hram: self.hram.update((addr % 0x80) as int, data), ..self }
        } else if addr == 0xFFFF {
            BusView { intr: IntrView { irqe: data, ..self.intr }, ..self }
        } else {
            self
        }
    }

    /// The byte OAM record `j / 4` holds at field `j % 4`.
    pub open spec fn oam_byte(self, j: int) -> u8 {
        self.ppu.oam[j / 4].spec_byte(j % 4)
    }

    /// The bus after a pending OAM transfer is serviced: the sprite table
    /// rebuilt from the 160 bytes at the latched source page, the latch
    /// dropped.
    pub open spec fn dma_serviced(self) -> BusView {
        BusView {
            ppu: PpuView {
                oam: Seq::new(
                    crate::ppu::OAM_SPRITES as nat,
                    |s: int| Oam {
                        y: self.read8((self.ppu.dma as usize * 0x100 + 4 * s) as usize),
                        x: self.read8((self.ppu.dma as usize * 0x100 + 4 * s + 1) as usize),
                        tile: self.read8((self.ppu.dma as usize * 0x100 + 4 * s + 2) as usize),
                        flags: self.read8((self.ppu.dma as usize * 0x100 + 4 * s + 3) as usize),
                    },
                ),
                dma_started: false,
                ..self.ppu
            },
            ..self
        }
    }

    /// One step of bus time: pipeline and timer each advance once, and
    /// the interrupts they raise land in IF.
    pub open spec fn bus_ticked(self) -> BusView {
        let (pv, vblank, lcdc) = self.ppu.ticked();
        let i1 = if vblank {
            self.intr.with_irq(InterruptKind::Vblank)
        } else {
            self.intr
        };
        let i2 = if lcdc {
            i1.with_irq(InterruptKind::LcdcStatus)
        } else {
            i1
        };
        let (tv, overflow) = self.timer.ticked();
        let i3 = if overflow {
            i2.with_irq(InterruptKind::Timer)
        } else {
            i2
        };
        BusView { ppu: pv, timer: tv, intr: i3, ..self }
    }
}

/// The bus at power-on around a given cartridge: every other leaf at its
/// reset state, all byte stores zeroed.
pub open spec fn reset_bus(cart: CartView) -> BusView {
    BusView {
        cart,
        wram: Seq::new(crate::ram::RAM_SIZE as nat, |i: int| 0u8),
        hram: Seq::new(crate::ram::HRAM_SIZE as nat, |i: int| 0u8),
        ppu: crate::ppu::reset_ppu(),
        apu: Seq::new(crate::apu::AUDIO_REGS as nat, |i: int| crate::apu::audio_reset_byte(i)),
        intr: IntrView { ime: false, irqf: 0u8, irqe: 0u8 },
        pad: crate::pad::PadView { register: 0x0Fu8, state: 0xFFu8 },
        timer: TimerView { div: 0u8, tima: 0u8, tma: 0u8, tac: 0u8, count: 0u16 },
    }
}

/// The low-bit masks used by the mirror regions agree with the modulus
/// the address map folds by.
proof fn lemma_fold_masks(addr: usize)
    by (bit_vector)
    ensures
        (addr & 0x1FFF) == addr % 0x2000,
        (addr & 0x7F) == addr % 0x80,
{
}

/// The bus and every leaf behind it.
pub struct Bus {
    cartridge: Cartridge,
    ram: Ram,
    hram: HRam,
    ppu: Ppu,
    apu: Apu,
    interrupt: Interrupt,
    pad: Pad,
    pub timer: Timer,
}

impl View for Bus {
    type V = BusView;

    closed spec fn view(&self) -> BusView {
        BusView {
            cart: self.cartridge@,
            wram: self.ram@,
            hram: self.hram@,
            ppu: self.ppu@,
            apu: self.apu@,
            intr: self.interrupt@,
            pad: self.pad@,
            timer: self.timer@,
        }
    }
}

impl Bus {
    pub open spec fn wf(&self) -> bool {
        self@.wf()
    }

    /// A bus with a blank cartridge and every leaf at reset.
    pub fn no_cartridge() -> (r: Bus)
        ensures
            r.wf(),
            r@ == reset_bus(CartView::NoMbc { rom: Seq::new(0x8000nat, |i: int| 0u8) }),
    {
        let r = Bus {
            cartridge: Cartridge::no_cartridge(),
            ram: Ram::new(),
            hram: HRam::new(),
            ppu: Ppu::new(),
            apu: Apu::new(),
            interrupt: Interrupt::new(),
            pad: Pad::new(),
            timer: Timer::new(),
        };
        proof {
            assert(r@ =~= reset_bus(CartView::NoMbc { rom: Seq::new(0x8000nat, |i: int| 0u8) }));
        }
        r
    }

    /// A bus serving a ROM image: rejected exactly where the cartridge
    /// rejects it, and on success the image's cartridge sits on a bus
    /// whose every other leaf is at reset.
    pub fn from_bytes(bin: Vec<u8>) -> (r: Result<Bus, CoreError>)
        ensures
            r is Ok <==> bin@.len() >= crate::cartridge::MIN_ROM_SIZE && bin@[crate::cartridge::RAM_SIZE_ADDR as int]
                <= 4 && (bin@[crate::cartridge::CARTRIDGE_TYPE as int] == 0 || bin@[crate::cartridge::CARTRIDGE_TYPE as int]
                == 1),
            r is Ok ==> r->Ok_0.wf() && r->Ok_0@ == reset_bus(crate::cartridge::initial_cart(bin@)),
            r is Err ==> r->Err_0 == CoreError::UnsupportedCartridge,
    {
        let cartridge = Cartridge::from_bytes(bin)?;
        let r = Bus {
            cartridge,
            ram: Ram::new(),
            hram: HRam::new(),
            ppu: Ppu::new(),
            apu: Apu::new(),
            interrupt: Interrupt::new(),
            pad: Pad::new(),
            timer: Timer::new(),
        };
        proof {
            assert(r@ =~= reset_bus(r@.cart));
        }
        Ok(r)
    }

    pub fn enable_irq(&mut self)
        ensures
            final(self)@ == (BusView { intr: IntrView { ime: true, ..old(self)@.intr }, ..old(self)@ }),
    {
        self.interrupt.enable();
    }

    pub fn disable_irq(&mut self)
        ensures
            final(self)@ == (BusView {
                intr: IntrView { ime: false, ..old(self)@.intr },
                ..old(self)@
            }),
    {
        self.interrupt.disable();
    }

    pub fn is_enabled_irq(&self) -> (r: bool)
        ensures
            r == self@.intr.ime,
    {
        self.interrupt.is_enabled_irq()
    }

    /// The service vector owed right now, if any.
    pub fn isr_addr(&mut self) -> (r: Option<usize>)
        ensures
            *final(self) == *old(self),
            r == old(self)@.intr.isr(),
    {
        self.interrupt.isr_addr()
    }

    pub fn has_irq(&self) -> (r: bool)
        ensures
            r == (self@.intr.irqf != 0),
    {
        self.interrupt.has_irq()
    }

    /// Mark an interrupt pending.
    pub fn set_irq(&mut self, kind: InterruptKind)
        ensures
            final(self)@ == (BusView { intr: old(self)@.intr.with_irq(kind), ..old(self)@ }),
    {
        self.interrupt.set_irq(kind);
    }

    /// Withdraw a pending interrupt.
    pub fn remove_irq(&mut self, kind: InterruptKind)
        ensures
            final(self)@ == (BusView { intr: old(self)@.intr.without_irq(kind), ..old(self)@ }),
    {
        self.interrupt.remove_irq(kind);
    }

    /// A key went down: update the matrix and raise the joypad interrupt.
    pub fn push_key(&mut self, key: Key)
        ensures
            final(self)@ == (BusView {
                pad: old(self)@.pad.pressed(key),
                intr: old(self)@.intr.with_irq(InterruptKind::Joypad),
                ..old(self)@
            }),
    {
        self.pad.push_key(key);
        self.interrupt.set_irq(InterruptKind::Joypad);
    }

    /// A key came up.
    pub fn release_key(&mut self, key: Key)
        ensures
            final(self)@ == (BusView { pad: old(self)@.pad.released(key), ..old(self)@ }),
    {
        self.pad.release_key(key);
    }

    /// A copy of the pipeline's shade buffer.
    pub fn get_pixels(&self) -> (r: Vec<u8>)
        requires
            self.wf(),
        ensures
            r@ == self@.ppu.pixels,
    {
        self.ppu.get_pixels()
    }

    /// The latched audio register bytes, for the sound collaborator.
    pub fn audio_regs(&self) -> (r: Vec<u8>)
        requires
            self.wf(),
        ensures
            r@ == self@.apu,
    {
        let mut out: Vec<u8> = Vec::new();
        let mut i: usize = 0;
        while i < crate::apu::AUDIO_REGS
            invariant
                self.wf(),
                i <= crate::apu::AUDIO_REGS,
                out@.len() == i,
                forall|j: int| 0 <= j < i ==> out@[j] == self@.apu[j],
            decreases crate::apu::AUDIO_REGS - i,
        {
            out.push(self.apu.read8(0xFF10 + i));
            i += 1;
        }
        proof {
            assert(out@ =~= self@.apu);
        }
        out
    }

    /// Service a pending OAM transfer: copy the 160 bytes starting at the
    /// latched source page into the sprite attribute table, then clear the
    /// latch. Returns whether a transfer took place.
    pub fn transfer(&mut self) -> (r: bool)
        requires
            old(self).wf(),
        ensures
            final(self).wf(),
            r == old(self)@.ppu.dma_started,
            !r ==> *final(self) == *old(self),
            r ==> final(self)@ == old(self)@.dma_serviced(),
    {
        proof {
            reveal(BusView::read8);
            reveal(BusView::written8);
        }
        if !self.ppu.dma_started() {
            return false;
        }
        let page = self.read8(DMA_START_ADDR) as usize;
        let mut buf: Vec<u8> = Vec::new();
        let mut i: usize = 0;
        while i < 0xA0
            invariant
                old(self).wf(),
                *self == *old(self),
                page == old(self)@.ppu.dma,
                i <= 0xA0,
                buf@.len() == i,
                forall|j: int| 0 <= j < i ==> buf@[j] == old(self)@.read8((page * 0x100 + j) as usize),
            decreases 0xA0 - i,
        {
            proof {
                reveal(BusView::read8);
            }
            let data = self.read8(page * 0x100 + i);
            buf.push(data);
            i += 1;
        }
        let mut k: usize = 0;
        while k < 0xA0
            invariant
                old(self).wf(),
                self.wf(),
                page == old(self)@.ppu.dma,
                k <= 0xA0,
                buf@.len() == 0xA0,
                forall|j: int| 0 <= j < 0xA0 ==> buf@[j] == old(self)@.read8((page * 0x100 + j) as usize),
                self@ == (BusView {
                    ppu: PpuView { oam: self@.ppu.oam, ..old(self)@.ppu },
                    ..old(self)@
                }),
                self@.ppu.oam.len() == crate::ppu::OAM_SPRITES,
                forall|j: int| 0 <= j < k ==> self@.oam_byte(j) == buf@[j],
                forall|j: int| k <= j < 160 ==> self@.oam_byte(j) == old(self)@.oam_byte(j),
            decreases 0xA0 - k,
        {
            proof {
                reveal(BusView::read8);
                reveal(BusView::written8);
            }
            self.write8(OAM_START_ADDR + k, buf[k]);
            k += 1;
        }
        self.ppu.stop_dma();
        proof {
            let target = Seq::new(
                crate::ppu::OAM_SPRITES as nat,
                |s: int| Oam {
                    y: old(self)@.read8((page * 0x100 + 4 * s) as usize),
                    x: old(self)@.read8((page * 0x100 + 4 * s + 1) as usize),
                    tile: old(self)@.read8((page * 0x100 + 4 * s + 2) as usize),
                    flags: old(self)@.read8((page * 0x100 + 4 * s + 3) as usize),
                },
            );
            assert forall|s: int| 0 <= s < crate::ppu::OAM_SPRITES implies self@.ppu.oam[s]
                == target[s] by {
                assert(self@.oam_byte(4 * s) == buf@[4 * s]);
                assert(self@.oam_byte(4 * s + 1) == buf@[4 * s + 1]);
                assert(self@.oam_byte(4 * s + 2) == buf@[4 * s + 2]);
                assert(self@.oam_byte(4 * s + 3) == buf@[4 * s + 3]);
                assert((4 * s) / 4 == s && (4 * s + 1) / 4 == s && (4 * s + 2) / 4 == s && (4 * s
                    + 3) / 4 == s);
                assert((4 * s) % 4 == 0 && (4 * s + 1) % 4 == 1 && (4 * s + 2) % 4 == 2 && (4 * s
                    + 3) % 4 == 3);
            }
            assert(self@.ppu.oam =~= target);
        }
        true
    }

    /// One step of bus time: advance the pipeline and the timer, and post
    /// their interrupts.
    pub fn tick(&mut self)
        requires
            old(self).wf(),
        ensures
            final(self).wf(),
            final(self)@ == old(self)@.bus_ticked(),
    {
        let (vblank, lcdc) = self.ppu.tick();
        match vblank {
            Some(kind) => self.interrupt.set_irq(kind),
            None => {},
        }
        match lcdc {
            Some(kind) => self.interrupt.set_irq(kind),
            None => {},
        }
        if self.timer.tick() {
            self.interrupt.set_irq(InterruptKind::Timer);
        }
    }
}

impl Io for Bus {
    open spec fn io_inv(&self) -> bool {
        self.wf()
    }

    open spec fn io_ok(&self, addr: usize) -> bool {
        addr < 0x10000
    }

    open spec fn io_read(&self, addr: usize) -> u8 {
        self@.read8(addr)
    }

    open spec fn io_write(&self, addr: usize, data: u8) -> BusView {
        self@.written8(addr, data)
    }

    fn read8(&self, addr: usize) -> u8 {
        proof {
            reveal(BusView::read8);
        }
        if addr < 0x8000 {
            self.cartridge.read8(addr)
        } else if addr < 0xA000 {
            self.ppu.read8(addr)
        } else if addr < 0xC000 {
            self.cartridge.read8(addr)
        } else if addr < 0xFE00 {
            proof {
                lemma_fold_masks(addr);
            }
            self.ram.read8(addr & 0x1FFF)
        } else if addr < 0xFEA0 {
            self.ppu.read8(addr)
        } else if addr < 0xFF00 {
            0
        } else if addr == 0xFF00 {
            self.pad.read8()
        } else if 0xFF04 <= addr && addr <= 0xFF07 {
            self.timer.read8(addr)
        } else if addr == 0xFF0F {
            self.interrupt.read8(addr)
        } else if 0xFF40 <= addr && addr <= 0xFF4B {
            self.ppu.read8(addr)
        } else if 0xFF80 <= addr && addr <= 0xFFFE {
            proof {
                lemma_fold_masks(addr);
            }
            self.hram.read8(addr & 0x7F)
        } else if addr == 0xFFFF {
            self.interrupt.read8(addr)
        } else {
            0
        }
    }

    fn write8(&mut self, addr: usize, data: u8) {
        proof {
            reveal(BusView::written8);
        }
        if addr < 0x8000 {
            self.cartridge.write8(addr, data);
        } else if addr < 0xA000 {
            self.ppu.write8(addr, data);
        } else if addr < 0xC000 {
            self.cartridge.write8(addr, data);
        } else if addr < 0xFE00 {
            proof {
                lemma_fold_masks(addr);
            }
            self.ram.write8(addr & 0x1FFF, data);
        } else if addr < 0xFEA0 {
            self.ppu.write8(addr, data);
        } else if addr < 0xFF00 {
        } else if addr == 0xFF00 {
            self.pad.write8(data);
        } else if 0xFF04 <= addr && addr <= 0xFF07 {
            self.timer.write8(addr, data);
        } else if addr == 0xFF0F {
            self.interrupt.write8(addr, data);
        } else if (0xFF10 <= addr && addr <= 0xFF14) || (0xFF16 <= addr && addr <= 0xFF19) || (
        0xFF1A <= addr && addr <= 0xFF1E) || (0xFF20 <= addr && addr <= 0xFF26) || (0xFF30 <= addr
            && addr <= 0xFF3F) {
            self.apu.write8(addr, data);
        } else if 0xFF40 <= addr && addr <= 0xFF4B {
            self.ppu.write8(addr, data);
        } else if 0xFF80 <= addr && addr <= 0xFFFE {
            proof {
                lemma_fold_masks(addr);
            }
            self.hram.write8(addr & 0x7F, data);
        } else if addr == 0xFFFF {
            self.interrupt.write8(addr, data);
        }
    }
}

} // verus!

verus! {

/// Is `addr` a cell of one of the four plain byte stores: video RAM, work
/// RAM (with its echo), the sprite table, or high RAM?
pub open spec fn ram_cell(addr: usize) -> bool {
    (0x8000 <= addr < 0xA000) || (0xC000 <= addr < 0xFE00) || (0xFE00 <= addr < 0xFEA0) || (0xFF80
        <= addr < 0xFFFF)
}

/// Do two such addresses reach the same stored byte, echo and zero-page
/// folding included?
pub open spec fn same_cell(a1: usize, a2: usize) -> bool {
    (0x8000 <= a1 < 0xA000 && a1 == a2) || (0xC000 <= a1 < 0xFE00 && 0xC000 <= a2 < 0xFE00 && a1
        % 0x2000 == a2 % 0x2000) || (0xFE00 <= a1 < 0xFEA0 && a1 == a2) || (0xFF80 <= a1 < 0xFFFF
        && 0xFF80 <= a2 < 0xFFFF && a1 % 0x80 == a2 % 0x80)
}

/// A write leaves the bus well-formed.
pub proof fn lemma_written8_wf(bv: BusView, addr: usize, data: u8)
    requires
        bv.wf(),
        addr < 0x10000,
    ensures
        bv.written8(addr, data).wf(),
{
    reveal(BusView::written8);
}

/// In the four byte stores, a read observes the most recent write: a read
/// of the same cell (through either mirror) returns the byte written, and
/// a read of any other cell returns what it held before.
pub proof fn lemma_read_after_write(bv: BusView, a1: usize, a2: usize, data: u8)
    requires
        bv.wf(),
        ram_cell(a1),
        ram_cell(a2),
    ensures
        same_cell(a1, a2) ==> bv.written8(a1, data).read8(a2) == data,
        !same_cell(a1, a2) ==> bv.written8(a1, data).read8(a2) == bv.read8(a2),
{
    reveal(BusView::read8);
    reveal(BusView::written8);
    if 0xFE00 <= a1 < 0xFEA0 && 0xFE00 <= a2 < 0xFEA0 {
        let j1 = (a1 - 0xFE00) as int;
        let j2 = (a2 - 0xFE00) as int;
        if j1 != j2 && j1 / 4 == j2 / 4 {
            assert(j1 % 4 != j2 % 4) by (nonlinear_arith)
                requires
                    j1 != j2 && j1 / 4 == j2 / 4 && 0 <= j1 < 160 && 0 <= j2 < 160,
            ;
        }
    }
}

} // verus!
