//! The CPU: fetch, decode, and execute over the bus, with full flag
//! semantics, the CB-prefixed bit-manipulation subpage, and interrupt
//! dispatch, one bus step per instruction.

use vstd::prelude::*;

use crate::bus::{Bus, BusView};
use crate::interrupt::{spec_irq_bit, spec_irq_vector, InterruptKind, IntrView};
use crate::io::Io;
use crate::pad::Key;
use crate::CoreError;

verus! {

/// Mathematical state of the CPU and everything behind its bus.
#[verifier::ext_equal]
pub struct CpuView {
    pub a: u8,
    pub b: u8,
    pub c: u8,
    pub d: u8,
    pub e: u8,
    pub h: u8,
    pub l: u8,
    pub f: u8,
    pub sp: u16,
    pub pc: u16,
    pub bus: BusView,
}

/// The flag byte's high nibble assembled from the four flags
/// Z (bit 7), N (bit 6), H (bit 5), C (bit 4).
pub open spec fn flags_of(z: bool, n: bool, h: bool, c: bool) -> u8 {
    (if z {
        0x80u8
    } else {
        0u8
    }) | (if n {
        0x40u8
    } else {
        0u8
    }) | (if h {
        0x20u8
    } else {
        0u8
    }) | (if c {
        0x10u8
    } else {
        0u8
    })
}

impl CpuView {
    pub open spec fn wf(self) -> bool {
        self.bus.wf()
    }

    pub open spec fn af(self) -> u16 {
        (self.a * 0x100 + self.f) as u16
    }

    pub open spec fn bc(self) -> u16 {
        (self.b * 0x100 + self.c) as u16
    }

    pub open spec fn de(self) -> u16 {
        (self.d * 0x100 + self.e) as u16
    }

    pub open spec fn hl(self) -> u16 {
        (self.h * 0x100 + self.l) as u16
    }

    pub open spec fn with_af(self, v: u16) -> CpuView {
        CpuView { a: (v / 0x100) as u8, f: (v % 0x100) as u8, ..self }
    }

    pub open spec fn with_bc(self, v: u16) -> CpuView {
        CpuView { b: (v / 0x100) as u8, c: (v % 0x100) as u8, ..self }
    }

    pub open spec fn with_de(self, v: u16) -> CpuView {
        CpuView { d: (v / 0x100) as u8, e: (v % 0x100) as u8, ..self }
    }

    pub open spec fn with_hl(self, v: u16) -> CpuView {
        CpuView { h: (v / 0x100) as u8, l: (v % 0x100) as u8, ..self }
    }

    /// Carry flag as 0 or 1.
    pub open spec fn carry_in(self) -> u8 {
        if self.f & 0x10 != 0 {
            1u8
        } else {
            0u8
        }
    }

    /// One byte fetched at PC, PC advanced.
    pub open spec fn fetched(self) -> (CpuView, u8) {
        (
            CpuView { pc: ((self.pc + 1) % 0x10000) as u16, ..self },
            self.bus.read8(self.pc as usize),
        )
    }

    /// Two bytes fetched little-endian at PC, PC advanced twice.
    pub open spec fn fetched16(self) -> (CpuView, u16) {
        let (v1, lo) = self.fetched();
        let (v2, hi) = v1.fetched();
        (v2, (hi * 0x100 + lo) as u16)
    }

    /// One byte pushed: SP pre-decremented, byte stored there.
    pub open spec fn pushed(self, data: u8) -> CpuView {
        let sp = ((self.sp - 1) % 0x10000) as u16;
        CpuView { sp, bus: self.bus.written8(sp as usize, data), ..self }
    }

    /// One byte popped: read at SP, SP post-incremented.
    pub open spec fn popped(self) -> (CpuView, u8) {
        (
            CpuView { sp: ((self.sp + 1) % 0x10000) as u16, ..self },
            self.bus.read8(self.sp as usize),
        )
    }

    /// A 16-bit push: high byte first, as call, interrupt dispatch, and
    /// RST all do.
    pub open spec fn pushed16(self, v: u16) -> CpuView {
        self.pushed((v / 0x100) as u8).pushed((v % 0x100) as u8)
    }

    /// A 16-bit pop: low byte first.
    pub open spec fn popped16(self) -> (CpuView, u16) {
        let (v1, lo) = self.popped();
        let (v2, hi) = v1.popped();
        (v2, (hi * 0x100 + lo) as u16)
    }
}

/// ADD: result and flag byte (low nibble of F preserved).
pub open spec fn alu_add(a: u8, n: u8, f: u8) -> (u8, u8) {
    let r = ((a + n) % 0x100) as u8;
    (r, (f & 0x0F) | flags_of(r == 0, false, (r ^ a ^ n) & 0x10 == 0x10, r < a))
}

/// ADC: the carry joins the operand before the add, so the half-carry and
/// carry are judged against the widened operand.
pub open spec fn alu_adc(a: u8, n: u8, f: u8) -> (u8, u8) {
    let m = ((n + (if f & 0x10 != 0 {
        1u8
    } else {
        0u8
    })) % 0x100) as u8;
    alu_add(a, m, f)
}

/// SUB: result and flag byte.
pub open spec fn alu_sub(a: u8, n: u8, f: u8) -> (u8, u8) {
    let r = ((a - n) % 0x100) as u8;
    (r, (f & 0x0F) | flags_of(r == 0, true, (a & 0x0F) < (n & 0x0F), a < n))
}

/// SBC: the carry joins the operand before the subtract.
pub open spec fn alu_sbc(a: u8, n: u8, f: u8) -> (u8, u8) {
    let m = ((n + (if f & 0x10 != 0 {
        1u8
    } else {
        0u8
    })) % 0x100) as u8;
    alu_sub(a, m, f)
}

/// AND: sets H, clears C.
pub open spec fn alu_and(a: u8, n: u8, f: u8) -> (u8, u8) {
    let r = a & n;
    (r, (f & 0x0F) | flags_of(r == 0, false, true, false))
}

/// XOR: clears H and C.
pub open spec fn alu_xor(a: u8, n: u8, f: u8) -> (u8, u8) {
    let r = a ^ n;
    (r, (f & 0x0F) | flags_of(r == 0, false, false, false))
}

/// OR: clears H and C.
pub open spec fn alu_or(a: u8, n: u8, f: u8) -> (u8, u8) {
    let r = a | n;
    (r, (f & 0x0F) | flags_of(r == 0, false, false, false))
}

/// CP: the flags of a subtract, accumulator kept.
pub open spec fn alu_cp(a: u8, n: u8, f: u8) -> u8 {
    (f & 0x0F) | flags_of(a == n, true, (a & 0x0F) < (n & 0x0F), a < n)
}

/// INC: carry flag untouched.
pub open spec fn alu_inc(v: u8, f: u8) -> (u8, u8) {
    let r = ((v + 1) % 0x100) as u8;
    (r, (f & 0x1F) | flags_of(r == 0, false, (r ^ v ^ 1) & 0x10 == 0x10, false))
}

/// DEC: carry flag untouched, N set.
pub open spec fn alu_dec(v: u8, f: u8) -> (u8, u8) {
    let r = ((v - 1) % 0x100) as u8;
    (r, (f & 0x1F) | flags_of(r == 0, true, (r ^ v ^ 1) & 0x10 == 0x10, false))
}

/// ADD HL,rr: Z untouched, half-carry judged at bit 12, carry at bit 16.
pub open spec fn alu_add16(hl: u16, n: u16, f: u8) -> (u16, u8) {
    let r = ((hl + n) % 0x10000) as u16;
    (r, (f & 0x8F) | flags_of(false, false, (r ^ hl ^ n) & 0x1000 == 0x1000, r < hl))
}

/// The eight rotate/shift forms of the CB page (and the accumulator
/// rotates), selected by index: RLC, RRC, RL, RR, SLA, SRA, SWAP, SRL.
/// Z comes from the result, N and H clear, C takes the ejected bit.
pub open spec fn alu_rot(idx: u8, v: u8, f: u8) -> (u8, u8) {
    let carry_in: u8 = if f & 0x10 != 0 {
        1u8
    } else {
        0u8
    };
    let r: u8 = if idx == 0 {
        (v << 1) | (v >> 7)
    } else if idx == 1 {
        (v >> 1) | (v << 7)
    } else if idx == 2 {
        (v << 1) | carry_in
    } else if idx == 3 {
        (v >> 1) | (carry_in << 7)
    } else if idx == 4 {
        v << 1
    } else if idx == 5 {
        (v >> 1) | (v & 0x80)
    } else if idx == 6 {
        (v >> 4) | (v << 4)
    } else {
        v >> 1
    };
    let c: bool = if idx == 0 || idx == 2 || idx == 4 {
        v & 0x80 != 0
    } else if idx == 6 {
        false
    } else {
        v & 0x01 != 0
    };
    (r, (f & 0x0F) | flags_of(r == 0, false, false, c))
}

} // verus!

verus! {

/// The CPU; it owns the bus.
pub struct Cpu {
    pub a: u8,
    pub b: u8,
    pub c: u8,
    pub d: u8,
    pub e: u8,
    pub h: u8,
    pub l: u8,
    pub f: u8,
    pub sp: u16,
    pub pc: u16,
    pub bus: Bus,
}

impl View for Cpu {
    type V = CpuView;

    closed spec fn view(&self) -> CpuView {
        CpuView {
            a: self.a,
            b: self.b,
            c: self.c,
            d: self.d,
            e: self.e,
            h: self.h,
            l: self.l,
            f: self.f,
            sp: self.sp,
            pc: self.pc,
            bus: self.bus@,
        }
    }
}

impl Cpu {
    pub open spec fn wf(&self) -> bool {
        self@.wf()
    }

    /// A CPU over a blank cartridge, registers cleared, SP at the top of
    /// high RAM, PC at the cartridge entry point.
    pub fn new() -> (r: Cpu)
        ensures
            r.wf(),
            r@.a == 0 && r@.b == 0 && r@.c == 0 && r@.d == 0 && r@.e == 0 && r@.h == 0 && r@.l
                == 0 && r@.f == 0,
            r@.sp == 0xFFFE,
            r@.pc == 0x0100,
            r@.bus == crate::bus::reset_bus(
                crate::cartridge::CartView::NoMbc { rom: Seq::new(0x8000nat, |i: int| 0u8) },
            ),
    {
        Cpu {
            a: 0,
            b: 0,
            c: 0,
            d: 0,
            e: 0,
            h: 0,
            l: 0,
            f: 0,
            sp: 0xFFFE,
            pc: 0x0100,
            bus: Bus::no_cartridge(),
        }
    }

    /// A CPU over a ROM image; rejected exactly where the cartridge
    /// rejects it, registers cleared, SP at the top of high RAM, PC at
    /// the cartridge entry point.
    pub fn from_bytes(bin: Vec<u8>) -> (r: Result<Cpu, CoreError>)
        ensures
            r is Ok <==> bin@.len() >= crate::cartridge::MIN_ROM_SIZE && bin@[crate::cartridge::RAM_SIZE_ADDR as int]
                <= 4 && (bin@[crate::cartridge::CARTRIDGE_TYPE as int] == 0 || bin@[crate::cartridge::CARTRIDGE_TYPE as int]
                == 1),
            r is Ok ==> r->Ok_0.wf() && r->Ok_0@.pc == 0x0100 && r->Ok_0@.sp == 0xFFFE && r->Ok_0@.a == 0
                && r->Ok_0@.b == 0 && r->Ok_0@.c == 0 && r->Ok_0@.d == 0 && r->Ok_0@.e == 0
                && r->Ok_0@.h == 0 && r->Ok_0@.l == 0 && r->Ok_0@.f == 0 && r->Ok_0@.bus
                == crate::bus::reset_bus(crate::cartridge::initial_cart(bin@)),
            r is Err ==> r->Err_0 == CoreError::UnsupportedCartridge,
    {
        let bus = Bus::from_bytes(bin)?;
        Ok(Cpu { a: 0, b: 0, c: 0, d: 0, e: 0, h: 0, l: 0, f: 0, sp: 0xFFFE, pc: 0x0100, bus })
    }

    pub fn key_push(&mut self, key: Key)
        requires
            old(self).wf(),
        ensures
            final(self).wf(),
            final(self)@ == (CpuView {
                bus: BusView {
                    pad: old(self)@.bus.pad.pressed(key),
                    intr: old(self)@.bus.intr.with_irq(InterruptKind::Joypad),
                    ..old(self)@.bus
                },
                ..old(self)@
            }),
    {
        self.bus.push_key(key);
    }

    pub fn key_release(&mut self, key: Key)
        requires
            old(self).wf(),
        ensures
            final(self).wf(),
            final(self)@ == (CpuView {
                bus: BusView { pad: old(self)@.bus.pad.released(key), ..old(self)@.bus },
                ..old(self)@
            }),
    {
        self.bus.release_key(key);
    }

    /// A copy of the shade buffer.
    pub fn get_pixels(&self) -> (r: Vec<u8>)
        requires
            self.wf(),
        ensures
            r@ == self@.bus.ppu.pixels,
    {
        self.bus.get_pixels()
    }

    pub fn read_af(&self) -> (r: u16)
        ensures
            r == self@.af(),
    {
        (self.a as u16) * 0x100 + (self.f as u16)
    }

    pub fn write_af(&mut self, data: u16)
        ensures
            final(self)@ == old(self)@.with_af(data),
    {
        self.a = (data / 0x100) as u8;
        self.f = (data % 0x100) as u8;
    }

    pub fn read_bc(&self) -> (r: u16)
        ensures
            r == self@.bc(),
    {
        (self.b as u16) * 0x100 + (self.c as u16)
    }

    pub fn write_bc(&mut self, data: u16)
        ensures
            final(self)@ == old(self)@.with_bc(data),
    {
        self.b = (data / 0x100) as u8;
        self.c = (data % 0x100) as u8;
    }

    pub fn read_de(&self) -> (r: u16)
        ensures
            r == self@.de(),
    {
        (self.d as u16) * 0x100 + (self.e as u16)
    }

    pub fn write_de(&mut self, data: u16)
        ensures
            final(self)@ == old(self)@.with_de(data),
    {
        self.d = (data / 0x100) as u8;
        self.e = (data % 0x100) as u8;
    }

    pub fn read_hl(&self) -> (r: u16)
        ensures
            r == self@.hl(),
    {
        (self.h as u16) * 0x100 + (self.l as u16)
    }

    pub fn write_hl(&mut self, data: u16)
        ensures
            final(self)@ == old(self)@.with_hl(data),
    {
        self.h = (data / 0x100) as u8;
        self.l = (data % 0x100) as u8;
    }

    /// Fetch one byte at PC and advance PC.
    fn fetch(&mut self) -> (r: u8)
        requires
            old(self).wf(),
        ensures
            final(self).wf(),
            final(self)@ == old(self)@.fetched().0,
            r == old(self)@.fetched().1,
    {
        let value = self.bus.read8(self.pc as usize);
        self.pc = self.pc.wrapping_add(1);
        value
    }

    /// Fetch a little-endian 16-bit value.
    fn fetch16(&mut self) -> (r: u16)
        requires
            old(self).wf(),
        ensures
            final(self).wf(),
            final(self)@ == old(self)@.fetched16().0,
            r == old(self)@.fetched16().1,
    {
        let lo = self.fetch();
        let hi = self.fetch();
        (hi as u16) * 0x100 + (lo as u16)
    }

    /// Push one byte: pre-decrement SP, then store.
    fn push(&mut self, data: u8)
        requires
            old(self).wf(),
        ensures
            final(self).wf(),
            final(self)@ == old(self)@.pushed(data),
    {
        self.sp = self.sp.wrapping_sub(1);
        self.bus.write8(self.sp as usize, data);
    }

    /// Pop one byte: read at SP, then post-increment.
    fn pop(&mut self) -> (r: u8)
        requires
            old(self).wf(),
        ensures
            final(self).wf(),
            final(self)@ == old(self)@.popped().0,
            r == old(self)@.popped().1,
    {
        let addr = self.sp;
        self.sp = addr.wrapping_add(1);
        self.bus.read8(addr as usize)
    }

    /// Push a 16-bit value, high byte first.
    fn push16(&mut self, v: u16)
        requires
            old(self).wf(),
        ensures
            final(self).wf(),
            final(self)@ == old(self)@.pushed16(v),
    {
        self.push((v / 0x100) as u8);
        self.push((v % 0x100) as u8);
    }

    /// Pop a 16-bit value, low byte first.
    fn pop16(&mut self) -> (r: u16)
        requires
            old(self).wf(),
        ensures
            final(self).wf(),
            final(self)@ == old(self)@.popped16().0,
            r == old(self)@.popped16().1,
    {
        let lo = self.pop();
        let hi = self.pop();
        (hi as u16) * 0x100 + (lo as u16)
    }
}

} // verus!

verus! {

/// The displacement byte of a relative jump, sign-extended.
pub open spec fn sext(e: u8) -> u16 {
    if e < 0x80 {
        e as u16
    } else {
        (e as u16) | 0xFF00
    }
}

impl CpuView {
    /// The 8-bit operand an opcode's low bits select: B, C, D, E, H, L,
    /// the byte at (HL), A.
    pub open spec fn operand(self, idx: u8) -> u8 {
        if idx == 0 {
            self.b
        } else if idx == 1 {
            self.c
        } else if idx == 2 {
            self.d
        } else if idx == 3 {
            self.e
        } else if idx == 4 {
            self.h
        } else if idx == 5 {
            self.l
        } else if idx == 6 {
            self.bus.read8(self.hl() as usize)
        } else {
            self.a
        }
    }

    /// The state after writing that operand back.
    pub open spec fn with_operand(self, idx: u8, v: u8) -> CpuView {
        if idx == 0 {
            CpuView { b: v, ..self }
        } else if idx == 1 {
            CpuView { c: v, ..self }
        } else if idx == 2 {
            CpuView { d: v, ..self }
        } else if idx == 3 {
            CpuView { e: v, ..self }
        } else if idx == 4 {
            CpuView { h: v, ..self }
        } else if idx == 5 {
            CpuView { l: v, ..self }
        } else if idx == 6 {
            CpuView { bus: self.bus.written8(self.hl() as usize, v), ..self }
        } else {
            CpuView { a: v, ..self }
        }
    }

    /// The jump conditions NZ, Z, NC, C.
    pub open spec fn cond(self, cc: u8) -> bool {
        if cc == 0 {
            self.f & 0x80 == 0
        } else if cc == 1 {
            self.f & 0x80 != 0
        } else if cc == 2 {
            self.f & 0x10 == 0
        } else {
            self.f & 0x10 != 0
        }
    }

    /// PC moved by a signed displacement.
    pub open spec fn jumped_rel(self, e: u8) -> CpuView {
        CpuView { pc: ((self.pc + sext(e)) % 0x10000) as u16, ..self }
    }

    /// The accumulator combined with an operand by ALU row `k`:
    /// ADD, ADC, SUB, SBC, AND, XOR, OR, CP.
    pub open spec fn alu_applied(self, k: u8, n: u8) -> CpuView {
        if k == 0 {
            let (r, f) = alu_add(self.a, n, self.f);
            CpuView { a: r, f, ..self }
        } else if k == 1 {
            let (r, f) = alu_adc(self.a, n, self.f);
            CpuView { a: r, f, ..self }
        } else if k == 2 {
            let (r, f) = alu_sub(self.a, n, self.f);
            CpuView { a: r, f, ..self }
        } else if k == 3 {
            let (r, f) = alu_sbc(self.a, n, self.f);
            CpuView { a: r, f, ..self }
        } else if k == 4 {
            let (r, f) = alu_and(self.a, n, self.f);
            CpuView { a: r, f, ..self }
        } else if k == 5 {
            let (r, f) = alu_xor(self.a, n, self.f);
            CpuView { a: r, f, ..self }
        } else if k == 6 {
            let (r, f) = alu_or(self.a, n, self.f);
            CpuView { a: r, f, ..self }
        } else {
            CpuView { f: alu_cp(self.a, n, self.f), ..self }
        }
    }

    /// One CB-page operation: a rotate/shift row, or BIT, RES, SET.
    pub open spec fn cb_stepped(self, cb: u8) -> CpuView {
        let idx = cb & 0x07;
        let bit = (cb >> 3) & 0x07;
        if cb < 0x40 {
            let (r, f) = alu_rot(bit, self.operand(idx), self.f);
            CpuView { f, ..self }.with_operand(idx, r)
        } else if cb < 0x80 {
            let z = self.operand(idx) & ((1u8 << bit)) == 0;
            CpuView { f: (self.f & 0x1F) | flags_of(z, false, true, false), ..self }
        } else if cb < 0xC0 {
            self.with_operand(idx, self.operand(idx) & !(1u8 << bit))
        } else {
            self.with_operand(idx, self.operand(idx) | (1u8 << bit))
        }
    }

    /// The register-to-register load page 0x40-0x7F (0x76 is HALT).
    pub open spec fn ld_stepped(self, op: u8) -> CpuView {
        self.with_operand((op >> 3) & 0x07, self.operand(op & 0x07))
    }

    /// The arithmetic page 0x80-0xBF.
    pub open spec fn arith_stepped(self, op: u8) -> CpuView {
        self.alu_applied((op >> 3) & 0x07, self.operand(op & 0x07))
    }

    /// The BCD adjustment of the accumulator, exactly as this machine
    /// performs it: each correction applies to the pre-adjustment value,
    /// the 0x60 step taking precedence, and N is kept.
    pub open spec fn daa_stepped(self) -> CpuView {
        let a0 = self.a;
        let a1: u8 = if self.f & 0x40 != 0 {
            if a0 > 0x9F {
                ((a0 + 0x60) % 0x100) as u8
            } else if self.f & 0x20 != 0 || a0 & 0x0F > 0x09 {
                ((a0 + 0x06) % 0x100) as u8
            } else {
                a0
            }
        } else {
            if self.f & 0x10 != 0 {
                ((a0 - 0x60) % 0x100) as u8
            } else if self.f & 0x20 != 0 {
                ((a0 - 0x06) % 0x100) as u8
            } else {
                a0
            }
        };
        CpuView { a: a1, f: (self.f & 0x4F) | flags_of(a1 == 0, false, false, a1 < a0), ..self }
    }

    /// Opcodes 0x00-0x0F, first half.
    #[verifier::opaque]
    pub open spec fn lo_stepped0a(self, op: u8) -> Option<CpuView> {
        if op == 0x00 {
            Some(self)
        } else if op == 0x01 {
            let (v, nn) = self.fetched16();
            Some(v.with_bc(nn))
        } else if op == 0x02 {
            Some(CpuView { bus: self.bus.written8(self.bc() as usize, self.a), ..self })
        } else if op == 0x03 {
            Some(self.with_bc(((self.bc() + 1) % 0x10000) as u16))
        } else if op == 0x04 {
            let (r, f) = alu_inc(self.b, self.f);
            Some(CpuView { b: r, f, ..self })
        } else if op == 0x05 {
            let (r, f) = alu_dec(self.b, self.f);
            Some(CpuView { b: r, f, ..self })
        } else if op == 0x06 {
            let (v, n) = self.fetched();
            Some(CpuView { b: n, ..v })
        } else if op == 0x07 {
            let (r, f) = alu_rot(0, self.a, self.f);
            Some(CpuView { a: r, f, ..self })
        } else {
            None
        }
    }

    /// Opcodes 0x00-0x0F, second half.
    #[verifier::opaque]
    pub open spec fn lo_stepped0b(self, op: u8) -> Option<CpuView> {
        if op == 0x08 {
            let (v, nn) = self.fetched16();
            let b1 = v.bus.written8(nn as usize, (v.sp % 0x100) as u8);
            let b2 = if nn as int + 1 < 0x10000 {
                b1.written8((nn + 1) as usize, (v.sp / 0x100) as u8)
            } else {
                b1
            };
            Some(CpuView { bus: b2, ..v })
        } else if op == 0x09 {
            let (r, f) = alu_add16(self.hl(), self.bc(), self.f);
            Some(CpuView { f, ..self }.with_hl(r))
        } else if op == 0x0A {
            Some(CpuView { a: self.bus.read8(self.bc() as usize), ..self })
        } else if op == 0x0B {
            Some(self.with_bc(((self.bc() - 1) % 0x10000) as u16))
        } else if op == 0x0C {
            let (r, f) = alu_inc(self.c, self.f);
            Some(CpuView { c: r, f, ..self })
        } else if op == 0x0D {
            let (r, f) = alu_dec(self.c, self.f);
            Some(CpuView { c: r, f, ..self })
        } else if op == 0x0E {
            let (v, n) = self.fetched();
            Some(CpuView { c: n, ..v })
        } else if op == 0x0F {
            let r = (self.a >> 1) | (self.a << 7);
            Some(
                CpuView {
                    a: r,
                    f: (self.f & 0x0F) | flags_of(r == 0, false, false, self.a & 0x01 != 0),
                    ..self
                },
            )
        } else {
            None
        }
    }

    pub open spec fn lo_stepped0(self, op: u8) -> Option<CpuView> {
        if op % 0x10 < 8 {
            self.lo_stepped0a(op)
        } else {
            self.lo_stepped0b(op)
        }
    }

    /// Opcodes 0x10-0x1F, first half.
    #[verifier::opaque]
    pub open spec fn lo_stepped1a(self, op: u8) -> Option<CpuView> {
        if op == 0x10 {
            Some(self)
        } else if op == 0x11 {
            let (v, nn) = self.fetched16();
            Some(v.with_de(nn))
        } else if op == 0x12 {
            Some(CpuView { bus: self.bus.written8(self.de() as usize, self.a), ..self })
        } else if op == 0x13 {
            Some(self.with_de(((self.de() + 1) % 0x10000) as u16))
        } else if op == 0x14 {
            let (r, f) = alu_inc(self.d, self.f);
            Some(CpuView { d: r, f, ..self })
        } else if op == 0x15 {
            let (r, f) = alu_dec(self.d, self.f);
            Some(CpuView { d: r, f, ..self })
        } else if op == 0x16 {
            let (v, n) = self.fetched();
            Some(CpuView { d: n, ..v })
        } else if op == 0x17 {
            let (r, f) = alu_rot(2, self.a, self.f);
            Some(CpuView { a: r, f, ..self })
        } else {
            None
        }
    }

    /// Opcodes 0x10-0x1F, second half.
    #[verifier::opaque]
    pub open spec fn lo_stepped1b(self, op: u8) -> Option<CpuView> {
        if op == 0x18 {
            let (v, e) = self.fetched();
            Some(v.jumped_rel(e))
        } else if op == 0x19 {
            let (r, f) = alu_add16(self.hl(), self.de(), self.f);
            Some(CpuView { f, ..self }.with_hl(r))
        } else if op == 0x1A {
            Some(CpuView { a: self.bus.read8(self.de() as usize), ..self })
        } else if op == 0x1B {
            Some(self.with_de(((self.de() - 1) % 0x10000) as u16))
        } else if op == 0x1C {
            let (r, f) = alu_inc(self.e, self.f);
            Some(CpuView { e: r, f, ..self })
        } else if op == 0x1D {
            let (r, f) = alu_dec(self.e, self.f);
            Some(CpuView { e: r, f, ..self })
        } else if op == 0x1E {
            let (v, n) = self.fetched();
            Some(CpuView { e: n, ..v })
        } else if op == 0x1F {
            let (r, f) = alu_rot(3, self.a, self.f);
            Some(CpuView { a: r, f, ..self })
        } else {
            None
        }
    }

    pub open spec fn lo_stepped1(self, op: u8) -> Option<CpuView> {
        if op % 0x10 < 8 {
            self.lo_stepped1a(op)
        } else {
            self.lo_stepped1b(op)
        }
    }

    /// Opcodes 0x20-0x2F, first half.
    #[verifier::opaque]
    pub open spec fn lo_stepped2a(self, op: u8) -> Option<CpuView> {
        if op == 0x20 {
            let (v, e) = self.fetched();
            Some(
                if v.cond(0) {
                    v.jumped_rel(e)
                } else {
                    v
                },
            )
        } else if op == 0x21 {
            let (v, nn) = self.fetched16();
            Some(v.with_hl(nn))
        } else if op == 0x22 {
            let addr = self.hl();
            let v = self.with_hl(((addr + 1) % 0x10000) as u16);
            Some(CpuView { bus: v.bus.written8(addr as usize, v.a), ..v })
        } else if op == 0x23 {
            Some(self.with_hl(((self.hl() + 1) % 0x10000) as u16))
        } else if op == 0x24 {
            let (r, f) = alu_inc(self.h, self.f);
            Some(CpuView { h: r, f, ..self })
        } else if op == 0x25 {
            let (r, f) = alu_dec(self.h, self.f);
            Some(CpuView { h: r, f, ..self })
        } else if op == 0x26 {
            let (v, n) = self.fetched();
            Some(CpuView { h: n, ..v })
        } else if op == 0x27 {
            Some(self.daa_stepped())
        } else {
            None
        }
    }

    /// Opcodes 0x20-0x2F, second half.
    #[verifier::opaque]
    pub open spec fn lo_stepped2b(self, op: u8) -> Option<CpuView> {
        if op == 0x28 {
            let (v, e) = self.fetched();
            Some(
                if v.cond(1) {
                    v.jumped_rel(e)
                } else {
                    v
                },
            )
        } else if op == 0x29 {
            let (r, f) = alu_add16(self.hl(), self.hl(), self.f);
            Some(CpuView { f, ..self }.with_hl(r))
        } else if op == 0x2A {
            let addr = self.hl();
            let v = self.with_hl(((addr + 1) % 0x10000) as u16);
            Some(CpuView { a: v.bus.read8(addr as usize), ..v })
        } else if op == 0x2B {
            Some(self.with_hl(((self.hl() - 1) % 0x10000) as u16))
        } else if op == 0x2C {
            let (r, f) = alu_inc(self.l, self.f);
            Some(CpuView { l: r, f, ..self })
        } else if op == 0x2D {
            let (r, f) = alu_dec(self.l, self.f);
            Some(CpuView { l: r, f, ..self })
        } else if op == 0x2E {
            let (v, n) = self.fetched();
            Some(CpuView { l: n, ..v })
        } else if op == 0x2F {
            Some(CpuView { a: !self.a, f: self.f | 0x60, ..self })
        } else {
            None
        }
    }

    pub open spec fn lo_stepped2(self, op: u8) -> Option<CpuView> {
        if op % 0x10 < 8 {
            self.lo_stepped2a(op)
        } else {
            self.lo_stepped2b(op)
        }
    }

    /// Opcodes 0x30-0x3F, first half.
    #[verifier::opaque]
    pub open spec fn lo_stepped3a(self, op: u8) -> Option<CpuView> {
        if op == 0x30 {
            let (v, e) = self.fetched();
            Some(
                if v.cond(2) {
                    v.jumped_rel(e)
                } else {
                    v
                },
            )
        } else if op == 0x31 {
            let (v, nn) = self.fetched16();
            Some(CpuView { sp: nn, ..v })
        } else if op == 0x32 {
            let addr = self.hl();
            let v = self.with_hl(((addr - 1) % 0x10000) as u16);
            Some(CpuView { bus: v.bus.written8(addr as usize, v.a), ..v })
        } else if op == 0x33 {
            Some(CpuView { sp: ((self.sp + 1) % 0x10000) as u16, ..self })
        } else if op == 0x34 {
            let (r, f) = alu_inc(self.operand(6), self.f);
            Some(CpuView { f, ..self }.with_operand(6, r))
        } else if op == 0x35 {
            let (r, f) = alu_dec(self.operand(6), self.f);
            Some(CpuView { f, ..self }.with_operand(6, r))
        } else if op == 0x36 {
            let (v, n) = self.fetched();
            Some(CpuView { bus: v.bus.written8(v.hl() as usize, n), ..v })
        } else if op == 0x37 {
            Some(CpuView { f: (self.f & 0x8F) | 0x10, ..self })
        } else {
            None
        }
    }

    /// Opcodes 0x30-0x3F, second half.
    #[verifier::opaque]
    pub open spec fn lo_stepped3b(self, op: u8) -> Option<CpuView> {
        if op == 0x38 {
            let (v, e) = self.fetched();
            Some(
                if v.cond(3) {
                    v.jumped_rel(e)
                } else {
                    v
                },
            )
        } else if op == 0x39 {
            let (r, f) = alu_add16(self.hl(), self.sp, self.f);
            Some(CpuView { f, ..self }.with_hl(r))
        } else if op == 0x3A {
            let addr = self.hl();
            let v = self.with_hl(((addr - 1) % 0x10000) as u16);
            Some(CpuView { a: v.bus.read8(addr as usize), ..v })
        } else if op == 0x3B {
            Some(CpuView { sp: ((self.sp - 1) % 0x10000) as u16, ..self })
        } else if op == 0x3C {
            let (r, f) = alu_inc(self.a, self.f);
            Some(CpuView { a: r, f, ..self })
        } else if op == 0x3D {
            let (r, f) = alu_dec(self.a, self.f);
            Some(CpuView { a: r, f, ..self })
        } else if op == 0x3E {
            let (v, n) = self.fetched();
            Some(CpuView { a: n, ..v })
        } else if op == 0x3F {
            Some(
                CpuView {
                    f: (self.f & 0x8F) | (if self.f & 0x10 != 0 {
                        0u8
                    } else {
                        0x10u8
                    }),
                    ..self
                },
            )
        } else {
            None
        }

    }

    pub open spec fn lo_stepped3(self, op: u8) -> Option<CpuView> {
        if op % 0x10 < 8 {
            self.lo_stepped3a(op)
        } else {
            self.lo_stepped3b(op)
        }
    }

    /// The 0x00-0x3F opcode block.
    pub open spec fn lo_stepped(self, op: u8) -> Option<CpuView> {
        if op < 0x10 {
            self.lo_stepped0(op)
        } else if op < 0x20 {
            self.lo_stepped1(op)
        } else if op < 0x30 {
            self.lo_stepped2(op)
        } else {
            self.lo_stepped3(op)
        }
    }

    /// Opcodes 0xC0-0xCF, first half.
    #[verifier::opaque]
    pub open spec fn hi_stepped_ca(self, op: u8) -> Option<CpuView> {
        if op == 0xC0 {
            Some(
                if self.cond(0) {
                    let (v, nn) = self.popped16();
                    CpuView { pc: nn, ..v }
                } else {
                    self
                },
            )
        } else if op == 0xC1 {
            let (v, nn) = self.popped16();
            Some(v.with_bc(nn))
        } else if op == 0xC2 {
            Some(
                if self.cond(0) {
                    let (v, nn) = self.fetched16();
                    CpuView { pc: nn, ..v }
                } else {
                    self
                },
            )
        } else if op == 0xC3 {
            let (v, nn) = self.fetched16();
            Some(CpuView { pc: nn, ..v })
        } else if op == 0xC4 {
            let (v, nn) = self.fetched16();
            Some(
                if v.cond(0) {
                    CpuView { pc: nn, ..v.pushed16(v.pc) }
                } else {
                    v
                },
            )
        } else if op == 0xC5 {
            Some(self.pushed16(self.bc()))
        } else if op == 0xC6 {
            let (v, n) = self.fetched();
            Some(v.alu_applied(0, n))
        } else if op == 0xC7 {
            Some(CpuView { pc: 0x0000, ..self.pushed16(self.pc) })
        } else {
            None
        }
    }

    /// Opcodes 0xC0-0xCF, second half.
    #[verifier::opaque]
    pub open spec fn hi_stepped_cb(self, op: u8) -> Option<CpuView> {
        if op == 0xC8 {
            Some(
                if self.cond(1) {
                    let (v, nn) = self.popped16();
                    CpuView { pc: nn, ..v }
                } else {
                    self
                },
            )
        } else if op == 0xC9 {
            let (v, nn) = self.popped16();
            Some(CpuView { pc: nn, ..v })
        } else if op == 0xCA {
            Some(
                if self.cond(1) {
                    let (v, nn) = self.fetched16();
                    CpuView { pc: nn, ..v }
                } else {
                    self
                },
            )
        } else if op == 0xCB {
            let (v, cb) = self.fetched();
            Some(v.cb_stepped(cb))
        } else if op == 0xCC {
            let (v, nn) = self.fetched16();
            Some(
                if v.cond(1) {
                    CpuView { pc: nn, ..v.pushed16(v.pc) }
                } else {
                    v
                },
            )
        } else if op == 0xCD {
            let (v, nn) = self.fetched16();
            Some(CpuView { pc: nn, ..v.pushed16(v.pc) })
        } else if op == 0xCE {
            let (v, n) = self.fetched();
            Some(v.alu_applied(1, n))
        } else if op == 0xCF {
            Some(CpuView { pc: 0x0008, ..self.pushed16(self.pc) })
        } else {
            None
        }
    }

    pub open spec fn hi_stepped_c(self, op: u8) -> Option<CpuView> {
        if op % 0x10 < 8 {
            self.hi_stepped_ca(op)
        } else {
            self.hi_stepped_cb(op)
        }
    }

    /// Opcodes 0xD0-0xDF, first half.
    #[verifier::opaque]
    pub open spec fn hi_stepped_da(self, op: u8) -> Option<CpuView> {
        if op == 0xD0 {
            Some(
                if self.cond(2) {
                    let (v, nn) = self.popped16();
                    CpuView { pc: nn, ..v }
                } else {
                    self
                },
            )
        } else if op == 0xD1 {
            let (v, nn) = self.popped16();
            Some(v.with_de(nn))
        } else if op == 0xD2 {
            Some(
                if self.cond(2) {
                    let (v, nn) = self.fetched16();
                    CpuView { pc: nn, ..v }
                } else {
                    self
                },
            )
        } else if op == 0xD4 {
            let (v, nn) = self.fetched16();
            Some(
                if v.cond(2) {
                    CpuView { pc: nn, ..v.pushed16(v.pc) }
                } else {
                    v
                },
            )
        } else if op == 0xD5 {
            Some(self.pushed16(self.de()))
        } else if op == 0xD6 {
            let (v, n) = self.fetched();
            Some(v.alu_applied(2, n))
        } else if op == 0xD7 {
            Some(CpuView { pc: 0x0010, ..self.pushed16(self.pc) })
        } else {
            None
        }
    }

    /// Opcodes 0xD0-0xDF, second half.
    #[verifier::opaque]
    pub open spec fn hi_stepped_db(self, op: u8) -> Option<CpuView> {
        if op == 0xD8 {
            Some(
                if self.cond(3) {
                    let (v, nn) = self.popped16();
                    CpuView { pc: nn, ..v }
                } else {
                    self
                },
            )
        } else if op == 0xD9 {
            let (v, nn) = self.popped16();
            Some(
                CpuView {
                    pc: nn,
                    bus: BusView { intr: IntrView { ime: true, ..v.bus.intr }, ..v.bus },
                    ..v
                },
            )
        } else if op == 0xDA {
            Some(
                if self.cond(3) {
                    let (v, nn) = self.fetched16();
                    CpuView { pc: nn, ..v }
                } else {
                    self
                },
            )
        } else if op == 0xDC {
            let (v, nn) = self.fetched16();
            Some(
                if v.cond(3) {
                    CpuView { pc: nn, ..v.pushed16(v.pc) }
                } else {
                    v
                },
            )
        } else if op == 0xDE {
            let (v, n) = self.fetched();
            Some(v.alu_applied(3, n))
        } else if op == 0xDF {
            Some(CpuView { pc: 0x0018, ..self.pushed16(self.pc) })
        } else {
            None
        }
    }

    pub open spec fn hi_stepped_d(self, op: u8) -> Option<CpuView> {
        if op % 0x10 < 8 {
            self.hi_stepped_da(op)
        } else {
            self.hi_stepped_db(op)
        }
    }

    /// Opcodes 0xE0-0xEF, first half.
    #[verifier::opaque]
    pub open spec fn hi_stepped_ea(self, op: u8) -> Option<CpuView> {
        if op == 0xE0 {
            let (v, n) = self.fetched();
            Some(CpuView { bus: v.bus.written8((0xFF00 + n) as usize, v.a), ..v })
        } else if op == 0xE1 {
            let (v, nn) = self.popped16();
            Some(v.with_hl(nn))
        } else if op == 0xE2 {
            Some(CpuView { bus: self.bus.written8((0xFF00 + self.c) as usize, self.a), ..self })
        } else if op == 0xE5 {
            Some(self.pushed16(self.hl()))
        } else if op == 0xE6 {
            let (v, n) = self.fetched();
            Some(v.alu_applied(4, n))
        } else if op == 0xE7 {
            Some(CpuView { pc: 0x0020, ..self.pushed16(self.pc) })
        } else {
            None
        }
    }

    /// Opcodes 0xE8-0xE9.
    #[verifier::opaque]
    pub open spec fn hi_stepped_eb1(self, op: u8) -> Option<CpuView> {
        if op == 0xE8 {
            let (v, e) = self.fetched();
            let d = sext(e);
            let r = ((v.sp + d) % 0x10000) as u16;
            let x = (v.sp ^ d) ^ r;
            Some(
                CpuView {
                    sp: r,
                    f: (v.f & 0x0F) | flags_of(
                        false,
                        false,
                        x & 0x10 == 0x10,
                        x & 0x100 == 0x100,
                    ),
                    ..v
                },
            )
        } else if op == 0xE9 {
            Some(CpuView { pc: self.hl(), ..self })
        } else {
            None
        }
    }

    /// Opcodes 0xEA-0xEF.
    #[verifier::opaque]
    pub open spec fn hi_stepped_eb2(self, op: u8) -> Option<CpuView> {
        if op == 0xEA {
            let (v, nn) = self.fetched16();
            Some(CpuView { bus: v.bus.written8(nn as usize, v.a), ..v })
        } else if op == 0xEE {
            let (v, n) = self.fetched();
            Some(v.alu_applied(5, n))
        } else if op == 0xEF {
            Some(CpuView { pc: 0x0028, ..self.pushed16(self.pc) })
        } else {
            None
        }
    }

    pub open spec fn hi_stepped_eb(self, op: u8) -> Option<CpuView> {
        if op < 0xEA {
            self.hi_stepped_eb1(op)
        } else {
            self.hi_stepped_eb2(op)
        }
    }

    pub open spec fn hi_stepped_e(self, op: u8) -> Option<CpuView> {
        if op % 0x10 < 8 {
            self.hi_stepped_ea(op)
        } else {
            self.hi_stepped_eb(op)
        }
    }

    /// Opcodes 0xF0-0xFF, first half.
    #[verifier::opaque]
    pub open spec fn hi_stepped_fa(self, op: u8) -> Option<CpuView> {
        if op == 0xF0 {
            let (v, n) = self.fetched();
            Some(CpuView { a: v.bus.read8((0xFF00 + n) as usize), ..v })
        } else if op == 0xF1 {
            let (v, nn) = self.popped16();
            Some(v.with_af(nn))
        } else if op == 0xF2 {
            Some(CpuView { a: self.bus.read8((0xFF00 + self.c) as usize), ..self })
        } else if op == 0xF3 {
            Some(
                CpuView {
                    bus: BusView { intr: IntrView { ime: false, ..self.bus.intr }, ..self.bus },
                    ..self
                },
            )
        } else if op == 0xF5 {
            Some(self.pushed16(self.af()))
        } else if op == 0xF6 {
            let (v, n) = self.fetched();
            Some(v.alu_applied(6, n))
        } else if op == 0xF7 {
            Some(CpuView { pc: 0x0030, ..self.pushed16(self.pc) })
        } else {
            None
        }
    }

    /// Opcodes 0xF8-0xFA.
    #[verifier::opaque]
    pub open spec fn hi_stepped_fb1(self, op: u8) -> Option<CpuView> {
        if op == 0xF8 {
            let (v, e) = self.fetched();
            let r = ((v.sp + sext(e)) % 0x10000) as u16;
            let h = (v.sp % 0x10) + (e % 0x10) > 0x0F;
            let c = (v.sp % 0x100) + (e as int) > 0xFF;
            Some(
                CpuView { f: (v.f & 0x0F) | flags_of(false, false, h, c), ..v }.with_hl(r),
            )
        } else if op == 0xF9 {
            Some(CpuView { sp: self.hl(), ..self })
        } else if op == 0xFA {
            let (v, nn) = self.fetched16();
            Some(CpuView { a: v.bus.read8(nn as usize), ..v })
        } else {
            None
        }
    }

    /// Opcodes 0xFB-0xFF.
    #[verifier::opaque]
    pub open spec fn hi_stepped_fb2(self, op: u8) -> Option<CpuView> {
        if op == 0xFB {
            Some(
                CpuView {
                    bus: BusView { intr: IntrView { ime: true, ..self.bus.intr }, ..self.bus },
                    ..self
                },
            )
        } else if op == 0xFE {
            let (v, n) = self.fetched();
            Some(v.alu_applied(7, n))
        } else if op == 0xFF {
            Some(CpuView { pc: 0x0038, ..self.pushed16(self.pc) })
        } else {
            None
        }

    }

    pub open spec fn hi_stepped_fb(self, op: u8) -> Option<CpuView> {
        if op < 0xFB {
            self.hi_stepped_fb1(op)
        } else {
            self.hi_stepped_fb2(op)
        }
    }

    pub open spec fn hi_stepped_f(self, op: u8) -> Option<CpuView> {
        if op % 0x10 < 8 {
            self.hi_stepped_fa(op)
        } else {
            self.hi_stepped_fb(op)
        }
    }

    /// The 0xC0-0xFF opcode block.
    pub open spec fn hi_stepped(self, op: u8) -> Option<CpuView> {
        if op < 0xD0 {
            self.hi_stepped_c(op)
        } else if op < 0xE0 {
            self.hi_stepped_d(op)
        } else if op < 0xF0 {
            self.hi_stepped_e(op)
        } else {
            self.hi_stepped_f(op)
        }
    }

    /// One decoded instruction applied to the machine: `None` for the
    /// eleven holes in the opcode map.
    pub open spec fn op_stepped(self, op: u8) -> Option<CpuView> {
        if 0x40 <= op < 0x80 {
            if op == 0x76 {
                Some(self)
            } else {
                Some(self.ld_stepped(op))
            }
        } else if 0x80 <= op < 0xC0 {
            Some(self.arith_stepped(op))
        } else if op < 0x40 {
            self.lo_stepped(op)
        } else {
            self.hi_stepped(op)
        }
    }
}

} // verus!

verus! {

/// The flag byte's high nibble from the four flags.
fn flags_val(z: bool, n: bool, h: bool, c: bool) -> (r: u8)
    ensures
        r == flags_of(z, n, h, c),
{
    (if z {
        0x80u8
    } else {
        0u8
    }) | (if n {
        0x40u8
    } else {
        0u8
    }) | (if h {
        0x20u8
    } else {
        0u8
    }) | (if c {
        0x10u8
    } else {
        0u8
    })
}

/// One rotate/shift row applied to a value, with the flag byte it leaves.
fn rot8(idx: u8, v: u8, f: u8) -> (r: (u8, u8))
    requires
        idx < 8,
    ensures
        r == alu_rot(idx, v, f),
{
    let carry_in: u8 = if f & 0x10 != 0 {
        1
    } else {
        0
    };
    let out: u8 = if idx == 0 {
        (v << 1) | (v >> 7)
    } else if idx == 1 {
        (v >> 1) | (v << 7)
    } else if idx == 2 {
        (v << 1) | carry_in
    } else if idx == 3 {
        (v >> 1) | (carry_in << 7)
    } else if idx == 4 {
        v << 1
    } else if idx == 5 {
        (v >> 1) | (v & 0x80)
    } else if idx == 6 {
        (v >> 4) | (v << 4)
    } else {
        v >> 1
    };
    let c: bool = if idx == 0 || idx == 2 || idx == 4 {
        v & 0x80 != 0
    } else if idx == 6 {
        false
    } else {
        v & 0x01 != 0
    };
    (out, (f & 0x0F) | flags_val(out == 0, false, false, c))
}

impl Cpu {
    /// Read the operand an opcode's low bits select.
    fn get_operand(&self, idx: u8) -> (r: u8)
        requires
            self.wf(),
            idx < 8,
        ensures
            r == self@.operand(idx),
    {
        if idx == 0 {
            self.b
        } else if idx == 1 {
            self.c
        } else if idx == 2 {
            self.d
        } else if idx == 3 {
            self.e
        } else if idx == 4 {
            self.h
        } else if idx == 5 {
            self.l
        } else if idx == 6 {
            self.bus.read8(self.read_hl() as usize)
        } else {
            self.a
        }
    }

    /// Write that operand back.
    fn set_operand(&mut self, idx: u8, v: u8)
        requires
            old(self).wf(),
            idx < 8,
        ensures
            final(self).wf(),
            final(self)@ == old(self)@.with_operand(idx, v),
    {
        if idx == 0 {
            self.b = v;
        } else if idx == 1 {
            self.c = v;
        } else if idx == 2 {
            self.d = v;
        } else if idx == 3 {
            self.e = v;
        } else if idx == 4 {
            self.h = v;
        } else if idx == 5 {
            self.l = v;
        } else if idx == 6 {
            let addr = self.read_hl();
            self.bus.write8(addr as usize, v);
        } else {
            self.a = v;
        }
    }

    /// Test one of the four jump conditions.
    fn check_cond(&self, cc: u8) -> (r: bool)
        requires
            cc < 4,
        ensures
            r == self@.cond(cc),
    {
        if cc == 0 {
            self.f & 0x80 == 0
        } else if cc == 1 {
            self.f & 0x80 != 0
        } else if cc == 2 {
            self.f & 0x10 == 0
        } else {
            self.f & 0x10 != 0
        }
    }

    /// Move PC by a signed displacement byte.
    fn jump_rel(&mut self, e: u8)
        ensures
            final(self)@ == old(self)@.jumped_rel(e),
    {
        let d: u16 = if e < 0x80 {
            e as u16
        } else {
            (e as u16) | 0xFF00
        };
        self.pc = self.pc.wrapping_add(d);
    }

    /// Combine the accumulator with an operand by ALU row `k`.
    #[verifier::rlimit(100)]
    #[verifier::spinoff_prover]
    fn alu_apply(&mut self, k: u8, n: u8)
        requires
            k < 8,
        ensures
            final(self)@ == old(self)@.alu_applied(k, n),
    {
        let a = self.a;
        let f = self.f;
        if k == 0 {
            let r = a.wrapping_add(n);
            proof {
                assert(r == ((a + n) % 0x100) as u8);
            }
            self.a = r;
            self.f = (f & 0x0F) | flags_val(r == 0, false, (r ^ a ^ n) & 0x10 == 0x10, r < a);
        } else if k == 1 {
            let m = n.wrapping_add(
                if f & 0x10 != 0 {
                    1
                } else {
                    0
                },
            );
            let r = a.wrapping_add(m);
            proof {
                assert(m == ((n + old(self)@.carry_in()) % 0x100) as u8);
                assert(r == ((a + m) % 0x100) as u8);
            }
            self.a = r;
            self.f = (f & 0x0F) | flags_val(r == 0, false, (r ^ a ^ m) & 0x10 == 0x10, r < a);
        } else if k == 2 {
            let r = a.wrapping_sub(n);
            proof {
                assert(r == ((a - n) % 0x100) as u8);
            }
            self.a = r;
            self.f = (f & 0x0F) | flags_val(r == 0, true, (a & 0x0F) < (n & 0x0F), a < n);
        } else if k == 3 {
            let m = n.wrapping_add(
                if f & 0x10 != 0 {
                    1
                } else {
                    0
                },
            );
            let r = a.wrapping_sub(m);
            proof {
                assert(m == ((n + old(self)@.carry_in()) % 0x100) as u8);
                assert(r == ((a - m) % 0x100) as u8);
            }
            self.a = r;
            self.f = (f & 0x0F) | flags_val(r == 0, true, (a & 0x0F) < (m & 0x0F), a < m);
        } else if k == 4 {
            let r = a & n;
            self.a = r;
            self.f = (f & 0x0F) | flags_val(r == 0, false, true, false);
        } else if k == 5 {
            let r = a ^ n;
            self.a = r;
            self.f = (f & 0x0F) | flags_val(r == 0, false, false, false);
        } else if k == 6 {
            let r = a | n;
            self.a = r;
            self.f = (f & 0x0F) | flags_val(r == 0, false, false, false);
        } else {
            self.f = (f & 0x0F) | flags_val(a == n, true, (a & 0x0F) < (n & 0x0F), a < n);
        }
    }

    /// INC of an 8-bit value against the current flag byte.
    fn inc8_val(&self, v: u8) -> (r: (u8, u8))
        ensures
            r == alu_inc(v, self@.f),
    {
        let out = v.wrapping_add(1);
        (
            out,
            (self.f & 0x1F) | flags_val(out == 0, false, (out ^ v ^ 1) & 0x10 == 0x10, false),
        )
    }

    /// DEC of an 8-bit value against the current flag byte.
    fn dec8_val(&self, v: u8) -> (r: (u8, u8))
        ensures
            r == alu_dec(v, self@.f),
    {
        let out = v.wrapping_sub(1);
        (
            out,
            (self.f & 0x1F) | flags_val(out == 0, true, (out ^ v ^ 1) & 0x10 == 0x10, false),
        )
    }

    /// ADD HL,rr.
    fn add16_hl(&mut self, n: u16)
        ensures
            final(self)@ == ({
                let (r, f) = alu_add16(old(self)@.hl(), n, old(self)@.f);
                CpuView { f, ..old(self)@ }.with_hl(r)
            }),
    {
        let hl = self.read_hl();
        let r = hl.wrapping_add(n);
        self.f = (self.f & 0x8F) | flags_val(
            false,
            false,
            (r ^ hl ^ n) & 0x1000 == 0x1000,
            r < hl,
        );
        self.write_hl(r);
    }

    /// Execute one register-to-register load (0x40-0x7F, not HALT).
    fn exec_ld(&mut self, op: u8)
        requires
            old(self).wf(),
            0x40 <= op < 0x80,
            op != 0x76,
        ensures
            final(self).wf(),
            final(self)@ == old(self)@.ld_stepped(op),
    {
        proof {
            assert((op >> 3) & 0x07 < 8 && op & 0x07 < 8) by (bit_vector);
        }
        let v = self.get_operand(op & 0x07);
        self.set_operand((op >> 3) & 0x07, v);
    }

    /// Execute one arithmetic-page instruction (0x80-0xBF).
    fn exec_arith(&mut self, op: u8)
        requires
            old(self).wf(),
            0x80 <= op < 0xC0,
        ensures
            final(self).wf(),
            final(self)@ == old(self)@.arith_stepped(op),
    {
        proof {
            assert((op >> 3) & 0x07 < 8 && op & 0x07 < 8) by (bit_vector);
        }
        let n = self.get_operand(op & 0x07);
        self.alu_apply((op >> 3) & 0x07, n);
    }

    /// Execute one CB-page instruction.
    fn execute_cb(&mut self, cb: u8)
        requires
            old(self).wf(),
        ensures
            final(self).wf(),
            final(self)@ == old(self)@.cb_stepped(cb),
    {
        proof {
            assert((cb >> 3) & 0x07 < 8 && cb & 0x07 < 8) by (bit_vector);
        }
        let idx = cb & 0x07;
        let bit = (cb >> 3) & 0x07;
        if cb < 0x40 {
            let v = self.get_operand(idx);
            let (r, f) = rot8(bit, v, self.f);
            self.f = f;
            self.set_operand(idx, r);
        } else if cb < 0x80 {
            let z = self.get_operand(idx) & (1u8 << bit) == 0;
            self.f = (self.f & 0x1F) | flags_val(z, false, true, false);
        } else if cb < 0xC0 {
            let v = self.get_operand(idx);
            self.set_operand(idx, v & !(1u8 << bit));
        } else {
            let v = self.get_operand(idx);
            self.set_operand(idx, v | (1u8 << bit));
        }
    }
}

} // verus!

verus! {

impl Cpu {
    /// Execute opcodes 0x00-0x07.
    #[verifier::rlimit(100)]
    #[verifier::spinoff_prover]
    fn exec_lo0a(&mut self, op: u8)
        requires
            old(self).wf(),
            0x0 <= op < 0x8,
        ensures
            final(self).wf(),
            Some(final(self)@) == old(self)@.lo_stepped0a(op),
    {
        proof {
            reveal(CpuView::lo_stepped0a);
        }
        if op == 0x00 {
        } else if op == 0x01 {
            let nn = self.fetch16();
            self.write_bc(nn);
        } else if op == 0x02 {
            let addr = self.read_bc();
            self.bus.write8(addr as usize, self.a);
        } else if op == 0x03 {
            let bc = self.read_bc();
            self.write_bc(bc.wrapping_add(1));
        } else if op == 0x04 {
            let (r, f) = self.inc8_val(self.b);
            self.b = r;
            self.f = f;
        } else if op == 0x05 {
            let (r, f) = self.dec8_val(self.b);
            self.b = r;
            self.f = f;
        } else if op == 0x06 {
            let n = self.fetch();
            self.b = n;
        } else if op == 0x07 {
            let (r, f) = rot8(0, self.a, self.f);
            self.a = r;
            self.f = f;
        }
    }

    /// Execute opcodes 0x08-0x0F.
    #[verifier::rlimit(100)]
    #[verifier::spinoff_prover]
    fn exec_lo0b(&mut self, op: u8)
        requires
            old(self).wf(),
            0x8 <= op < 0x10,
        ensures
            final(self).wf(),
            Some(final(self)@) == old(self)@.lo_stepped0b(op),
    {
        proof {
            reveal(CpuView::lo_stepped0b);
        }
        if op == 0x08 {
            let nn = self.fetch16();
            self.bus.write8(nn as usize, (self.sp % 0x100) as u8);
            if nn < 0xFFFF {
                self.bus.write8(nn as usize + 1, (self.sp / 0x100) as u8);
            }
        } else if op == 0x09 {
            let n = self.read_bc();
            self.add16_hl(n);
        } else if op == 0x0A {
            let addr = self.read_bc();
            self.a = self.bus.read8(addr as usize);
        } else if op == 0x0B {
            let bc = self.read_bc();
            self.write_bc(bc.wrapping_sub(1));
        } else if op == 0x0C {
            let (r, f) = self.inc8_val(self.c);
            self.c = r;
            self.f = f;
        } else if op == 0x0D {
            let (r, f) = self.dec8_val(self.c);
            self.c = r;
            self.f = f;
        } else if op == 0x0E {
            let n = self.fetch();
            self.c = n;
        } else if op == 0x0F {
            let a = self.a;
            let r = (a >> 1) | (a << 7);
            self.a = r;
            self.f = (self.f & 0x0F) | flags_val(r == 0, false, false, a & 0x01 != 0);
        }
    }

    /// Execute opcodes 0x00-0x0F.
    fn exec_lo0(&mut self, op: u8)
        requires
            old(self).wf(),
            0x0 <= op < 0x10,
        ensures
            final(self).wf(),
            Some(final(self)@) == old(self)@.lo_stepped0(op),
    {
        if op % 0x10 < 8 {
            self.exec_lo0a(op);
        } else {
            self.exec_lo0b(op);
        }
    }

    /// Execute opcodes 0x10-0x17.
    #[verifier::rlimit(100)]
    #[verifier::spinoff_prover]
    fn exec_lo1a(&mut self, op: u8)
        requires
            old(self).wf(),
            0x10 <= op < 0x18,
        ensures
            final(self).wf(),
            Some(final(self)@) == old(self)@.lo_stepped1a(op),
    {
        proof {
            reveal(CpuView::lo_stepped1a);
        }
        if op == 0x10 {
        } else if op == 0x11 {
            let nn = self.fetch16();
            self.write_de(nn);
        } else if op == 0x12 {
            let addr = self.read_de();
            self.bus.write8(addr as usize, self.a);
        } else if op == 0x13 {
            let de = self.read_de();
            self.write_de(de.wrapping_add(1));
        } else if op == 0x14 {
            let (r, f) = self.inc8_val(self.d);
            self.d = r;
            self.f = f;
        } else if op == 0x15 {
            let (r, f) = self.dec8_val(self.d);
            self.d = r;
            self.f = f;
        } else if op == 0x16 {
            let n = self.fetch();
            self.d = n;
        } else if op == 0x17 {
            let (r, f) = rot8(2, self.a, self.f);
            self.a = r;
            self.f = f;
        }
    }

    /// Execute opcodes 0x18-0x1F.
    #[verifier::rlimit(100)]
    #[verifier::spinoff_prover]
    fn exec_lo1b(&mut self, op: u8)
        requires
            old(self).wf(),
            0x18 <= op < 0x20,
        ensures
            final(self).wf(),
            Some(final(self)@) == old(self)@.lo_stepped1b(op),
    {
        proof {
            reveal(CpuView::lo_stepped1b);
        }
        if op == 0x18 {
            let e = self.fetch();
            self.jump_rel(e);
        } else if op == 0x19 {
            let n = self.read_de();
            self.add16_hl(n);
        } else if op == 0x1A {
            let addr = self.read_de();
            self.a = self.bus.read8(addr as usize);
        } else if op == 0x1B {
            let de = self.read_de();
            self.write_de(de.wrapping_sub(1));
        } else if op == 0x1C {
            let (r, f) = self.inc8_val(self.e);
            self.e = r;
            self.f = f;
        } else if op == 0x1D {
            let (r, f) = self.dec8_val(self.e);
            self.e = r;
            self.f = f;
        } else if op == 0x1E {
            let n = self.fetch();
            self.e = n;
        } else if op == 0x1F {
            let (r, f) = rot8(3, self.a, self.f);
            self.a = r;
            self.f = f;
        }
    }

    /// Execute opcodes 0x10-0x1F.
    fn exec_lo1(&mut self, op: u8)
        requires
            old(self).wf(),
            0x10 <= op < 0x20,
        ensures
            final(self).wf(),
            Some(final(self)@) == old(self)@.lo_stepped1(op),
    {
        if op % 0x10 < 8 {
            self.exec_lo1a(op);
        } else {
            self.exec_lo1b(op);
        }
    }

    /// Execute opcodes 0x20-0x27.
    #[verifier::rlimit(100)]
    #[verifier::spinoff_prover]
    fn exec_lo2a(&mut self, op: u8)
        requires
            old(self).wf(),
            0x20 <= op < 0x28,
        ensures
            final(self).wf(),
            Some(final(self)@) == old(self)@.lo_stepped2a(op),
    {
        proof {
            reveal(CpuView::lo_stepped2a);
        }
        if op == 0x20 {
            let e = self.fetch();
            if self.check_cond(0) {
                self.jump_rel(e);
            }
        } else if op == 0x21 {
            let nn = self.fetch16();
            self.write_hl(nn);
        } else if op == 0x22 {
            let addr = self.read_hl();
            self.write_hl(addr.wrapping_add(1));
            self.bus.write8(addr as usize, self.a);
        } else if op == 0x23 {
            let hl = self.read_hl();
            self.write_hl(hl.wrapping_add(1));
        } else if op == 0x24 {
            let (r, f) = self.inc8_val(self.h);
            self.h = r;
            self.f = f;
        } else if op == 0x25 {
            let (r, f) = self.dec8_val(self.h);
            self.h = r;
            self.f = f;
        } else if op == 0x26 {
            let n = self.fetch();
            self.h = n;
        } else if op == 0x27 {
            let a0 = self.a;
            let f = self.f;
            let a1 = if f & 0x40 != 0 {
                if a0 > 0x9F {
                    a0.wrapping_add(0x60)
                } else if f & 0x20 != 0 || a0 & 0x0F > 0x09 {
                    a0.wrapping_add(0x06)
                } else {
                    a0
                }
            } else {
                if f & 0x10 != 0 {
                    a0.wrapping_sub(0x60)
                } else if f & 0x20 != 0 {
                    a0.wrapping_sub(0x06)
                } else {
                    a0
                }
            };
            self.a = a1;
            self.f = (f & 0x4F) | flags_val(a1 == 0, false, false, a1 < a0);
        }
    }

    /// Execute opcodes 0x28-0x2F.
    #[verifier::rlimit(100)]
    #[verifier::spinoff_prover]
    fn exec_lo2b(&mut self, op: u8)
        requires
            old(self).wf(),
            0x28 <= op < 0x30,
        ensures
            final(self).wf(),
            Some(final(self)@) == old(self)@.lo_stepped2b(op),
    {
        proof {
            reveal(CpuView::lo_stepped2b);
        }
        if op == 0x28 {
            let e = self.fetch();
            if self.check_cond(1) {
                self.jump_rel(e);
            }
        } else if op == 0x29 {
            let n = self.read_hl();
            self.add16_hl(n);
        } else if op == 0x2A {
            let addr = self.read_hl();
            self.write_hl(addr.wrapping_add(1));
            self.a = self.bus.read8(addr as usize);
        } else if op == 0x2B {
            let hl = self.read_hl();
            self.write_hl(hl.wrapping_sub(1));
        } else if op == 0x2C {
            let (r, f) = self.inc8_val(self.l);
            self.l = r;
            self.f = f;
        } else if op == 0x2D {
            let (r, f) = self.dec8_val(self.l);
            self.l = r;
            self.f = f;
        } else if op == 0x2E {
            let n = self.fetch();
            self.l = n;
        } else if op == 0x2F {
            self.a = !self.a;
            self.f = self.f | 0x60;
        }
    }

    /// Execute opcodes 0x20-0x2F.
    fn exec_lo2(&mut self, op: u8)
        requires
            old(self).wf(),
            0x20 <= op < 0x30,
        ensures
            final(self).wf(),
            Some(final(self)@) == old(self)@.lo_stepped2(op),
    {
        if op % 0x10 < 8 {
            self.exec_lo2a(op);
        } else {
            self.exec_lo2b(op);
        }
    }

    /// Execute opcodes 0x30-0x37.
    #[verifier::rlimit(100)]
    #[verifier::spinoff_prover]
    fn exec_lo3a(&mut self, op: u8)
        requires
            old(self).wf(),
            0x30 <= op < 0x38,
        ensures
            final(self).wf(),
            Some(final(self)@) == old(self)@.lo_stepped3a(op),
    {
        proof {
            reveal(CpuView::lo_stepped3a);
        }
        if op == 0x30 {
            let e = self.fetch();
            if self.check_cond(2) {
                self.jump_rel(e);
            }
        } else if op == 0x31 {
            let nn = self.fetch16();
            self.sp = nn;
        } else if op == 0x32 {
            let addr = self.read_hl();
            self.write_hl(addr.wrapping_sub(1));
            self.bus.write8(addr as usize, self.a);
        } else if op == 0x33 {
            self.sp = self.sp.wrapping_add(1);
        } else if op == 0x34 {
            let v = self.get_operand(6);
            let (r, f) = self.inc8_val(v);
            self.f = f;
            self.set_operand(6, r);
        } else if op == 0x35 {
            let v = self.get_operand(6);
            let (r, f) = self.dec8_val(v);
            self.f = f;
            self.set_operand(6, r);
        } else if op == 0x36 {
            let n = self.fetch();
            let addr = self.read_hl();
            self.bus.write8(addr as usize, n);
        } else if op == 0x37 {
            self.f = (self.f & 0x8F) | 0x10;
        }
    }

    /// Execute opcodes 0x38-0x3F.
    #[verifier::rlimit(100)]
    #[verifier::spinoff_prover]
    fn exec_lo3b(&mut self, op: u8)
        requires
            old(self).wf(),
            0x38 <= op < 0x40,
        ensures
            final(self).wf(),
            Some(final(self)@) == old(self)@.lo_stepped3b(op),
    {
        proof {
            reveal(CpuView::lo_stepped3b);
        }
        if op == 0x38 {
            let e = self.fetch();
            if self.check_cond(3) {
                self.jump_rel(e);
            }
        } else if op == 0x39 {
            let n = self.sp;
            self.add16_hl(n);
        } else if op == 0x3A {
            let addr = self.read_hl();
            self.write_hl(addr.wrapping_sub(1));
            self.a = self.bus.read8(addr as usize);
        } else if op == 0x3B {
            self.sp = self.sp.wrapping_sub(1);
        } else if op == 0x3C {
            let (r, f) = self.inc8_val(self.a);
            self.a = r;
            self.f = f;
        } else if op == 0x3D {
            let (r, f) = self.dec8_val(self.a);
            self.a = r;
            self.f = f;
        } else if op == 0x3E {
            let n = self.fetch();
            self.a = n;
        } else {
            self.f = (self.f & 0x8F) | (if self.f & 0x10 != 0 {
                0
            } else {
                0x10
            });
        }

    }

    /// Execute opcodes 0x30-0x3F.
    fn exec_lo3(&mut self, op: u8)
        requires
            old(self).wf(),
            0x30 <= op < 0x40,
        ensures
            final(self).wf(),
            Some(final(self)@) == old(self)@.lo_stepped3(op),
    {
        if op % 0x10 < 8 {
            self.exec_lo3a(op);
        } else {
            self.exec_lo3b(op);
        }
    }

    /// Execute one instruction from the 0x00-0x3F block.
    fn exec_lo(&mut self, op: u8)
        requires
            old(self).wf(),
            op < 0x40,
        ensures
            final(self).wf(),
            Some(final(self)@) == old(self)@.lo_stepped(op),
    {
        if op < 0x10 {
            self.exec_lo0(op);
        } else if op < 0x20 {
            self.exec_lo1(op);
        } else if op < 0x30 {
            self.exec_lo2(op);
        } else {
            self.exec_lo3(op);
        }
    }

    /// Execute opcodes 0xC0-0xC7; reports whether the opcode exists.
    #[verifier::rlimit(100)]
    #[verifier::spinoff_prover]
    fn exec_hi_ca(&mut self, op: u8) -> (valid: bool)
        requires
            old(self).wf(),
            0xc0 <= op < 0xc8,
        ensures
            final(self).wf(),
            match old(self)@.hi_stepped_ca(op) {
                Some(v) => valid && final(self)@ == v,
                None => !valid && *final(self) == *old(self),
            },
    {
        proof {
            reveal(CpuView::hi_stepped_ca);
        }
        if op == 0xC0 {
            if self.check_cond(0) {
                let nn = self.pop16();
                self.pc = nn;
            }
        } else if op == 0xC1 {
            let nn = self.pop16();
            self.write_bc(nn);
        } else if op == 0xC2 {
            if self.check_cond(0) {
                let nn = self.fetch16();
                self.pc = nn;
            }
        } else if op == 0xC3 {
            let nn = self.fetch16();
            self.pc = nn;
        } else if op == 0xC4 {
            let nn = self.fetch16();
            if self.check_cond(0) {
                let pc = self.pc;
                self.push16(pc);
                self.pc = nn;
            }
        } else if op == 0xC5 {
            let v = self.read_bc();
            self.push16(v);
        } else if op == 0xC6 {
            let n = self.fetch();
            self.alu_apply(0, n);
        } else if op == 0xC7 {
            let pc = self.pc;
            self.push16(pc);
            self.pc = 0x0000;
        } else {
            return false;
        }
        true
    }

    /// Execute opcodes 0xC8-0xCF; reports whether the opcode exists.
    #[verifier::rlimit(100)]
    #[verifier::spinoff_prover]
    fn exec_hi_cb(&mut self, op: u8) -> (valid: bool)
        requires
            old(self).wf(),
            0xc8 <= op < 0xd0,
        ensures
            final(self).wf(),
            match old(self)@.hi_stepped_cb(op) {
                Some(v) => valid && final(self)@ == v,
                None => !valid && *final(self) == *old(self),
            },
    {
        proof {
            reveal(CpuView::hi_stepped_cb);
        }
        if op == 0xC8 {
            if self.check_cond(1) {
                let nn = self.pop16();
                self.pc = nn;
            }
        } else if op == 0xC9 {
            let nn = self.pop16();
            self.pc = nn;
        } else if op == 0xCA {
            if self.check_cond(1) {
                let nn = self.fetch16();
                self.pc = nn;
            }
        } else if op == 0xCB {
            let cb = self.fetch();
            self.execute_cb(cb);
        } else if op == 0xCC {
            let nn = self.fetch16();
            if self.check_cond(1) {
                let pc = self.pc;
                self.push16(pc);
                self.pc = nn;
            }
        } else if op == 0xCD {
            let nn = self.fetch16();
            let pc = self.pc;
            self.push16(pc);
            self.pc = nn;
        } else if op == 0xCE {
            let n = self.fetch();
            self.alu_apply(1, n);
        } else if op == 0xCF {
            let pc = self.pc;
            self.push16(pc);
            self.pc = 0x0008;
        } else {
            return false;
        }
        true
    }

    /// Execute opcodes 0xC0-0xCF; reports whether the opcode exists.
    fn exec_hi_c(&mut self, op: u8) -> (valid: bool)
        requires
            old(self).wf(),
            0xc0 <= op < 0xd0,
        ensures
            final(self).wf(),
            match old(self)@.hi_stepped_c(op) {
                Some(v) => valid && final(self)@ == v,
                None => !valid && *final(self) == *old(self),
            },
    {
        if op % 0x10 < 8 {
            self.exec_hi_ca(op)
        } else {
            self.exec_hi_cb(op)
        }
    }

    /// Execute opcodes 0xD0-0xD7; reports whether the opcode exists.
    #[verifier::rlimit(100)]
    #[verifier::spinoff_prover]
    fn exec_hi_da(&mut self, op: u8) -> (valid: bool)
        requires
            old(self).wf(),
            0xd0 <= op < 0xd8,
        ensures
            final(self).wf(),
            match old(self)@.hi_stepped_da(op) {
                Some(v) => valid && final(self)@ == v,
                None => !valid && *final(self) == *old(self),
            },
    {
        proof {
            reveal(CpuView::hi_stepped_da);
        }
        if op == 0xD0 {
            if self.check_cond(2) {
                let nn = self.pop16();
                self.pc = nn;
            }
        } else if op == 0xD1 {
            let nn = self.pop16();
            self.write_de(nn);
        } else if op == 0xD2 {
            if self.check_cond(2) {
                let nn = self.fetch16();
                self.pc = nn;
            }
        } else if op == 0xD4 {
            let nn = self.fetch16();
            if self.check_cond(2) {
                let pc = self.pc;
                self.push16(pc);
                self.pc = nn;
            }
        } else if op == 0xD5 {
            let v = self.read_de();
            self.push16(v);
        } else if op == 0xD6 {
            let n = self.fetch();
            self.alu_apply(2, n);
        } else if op == 0xD7 {
            let pc = self.pc;
            self.push16(pc);
            self.pc = 0x0010;
        } else {
            return false;
        }
        true
    }

    /// Execute opcodes 0xD8-0xDF; reports whether the opcode exists.
    #[verifier::rlimit(100)]
    #[verifier::spinoff_prover]
    fn exec_hi_db(&mut self, op: u8) -> (valid: bool)
        requires
            old(self).wf(),
            0xd8 <= op < 0xe0,
        ensures
            final(self).wf(),
            match old(self)@.hi_stepped_db(op) {
                Some(v) => valid && final(self)@ == v,
                None => !valid && *final(self) == *old(self),
            },
    {
        proof {
            reveal(CpuView::hi_stepped_db);
        }
        if op == 0xD8 {
            if self.check_cond(3) {
                let nn = self.pop16();
                self.pc = nn;
            }
        } else if op == 0xD9 {
            let nn = self.pop16();
            self.pc = nn;
            self.bus.enable_irq();
        } else if op == 0xDA {
            if self.check_cond(3) {
                let nn = self.fetch16();
                self.pc = nn;
            }
        } else if op == 0xDC {
            let nn = self.fetch16();
            if self.check_cond(3) {
                let pc = self.pc;
                self.push16(pc);
                self.pc = nn;
            }
        } else if op == 0xDE {
            let n = self.fetch();
            self.alu_apply(3, n);
        } else if op == 0xDF {
            let pc = self.pc;
            self.push16(pc);
            self.pc = 0x0018;
        } else {
            return false;
        }
        true
    }

    /// Execute opcodes 0xD0-0xDF; reports whether the opcode exists.
    fn exec_hi_d(&mut self, op: u8) -> (valid: bool)
        requires
            old(self).wf(),
            0xd0 <= op < 0xe0,
        ensures
            final(self).wf(),
            match old(self)@.hi_stepped_d(op) {
                Some(v) => valid && final(self)@ == v,
                None => !valid && *final(self) == *old(self),
            },
    {
        if op % 0x10 < 8 {
            self.exec_hi_da(op)
        } else {
            self.exec_hi_db(op)
        }
    }

    /// Execute opcodes 0xE0-0xE7; reports whether the opcode exists.
    #[verifier::rlimit(100)]
    #[verifier::spinoff_prover]
    fn exec_hi_ea(&mut self, op: u8) -> (valid: bool)
        requires
            old(self).wf(),
            0xe0 <= op < 0xe8,
        ensures
            final(self).wf(),
            match old(self)@.hi_stepped_ea(op) {
                Some(v) => valid && final(self)@ == v,
                None => !valid && *final(self) == *old(self),
            },
    {
        proof {
            reveal(CpuView::hi_stepped_ea);
        }
        if op == 0xE0 {
            let n = self.fetch();
            self.bus.write8(0xFF00 + n as usize, self.a);
        } else if op == 0xE1 {
            let nn = self.pop16();
            self.write_hl(nn);
        } else if op == 0xE2 {
            self.bus.write8(0xFF00 + self.c as usize, self.a);
        } else if op == 0xE5 {
            let v = self.read_hl();
            self.push16(v);
        } else if op == 0xE6 {
            let n = self.fetch();
            self.alu_apply(4, n);
        } else if op == 0xE7 {
            let pc = self.pc;
            self.push16(pc);
            self.pc = 0x0020;
        } else {
            return false;
        }
        true
    }

    /// Execute opcodes 0xE8-0xE9; reports whether the opcode exists.
    #[verifier::rlimit(100)]
    #[verifier::spinoff_prover]
    fn exec_hi_eb1(&mut self, op: u8) -> (valid: bool)
        requires
            old(self).wf(),
            0xE8 <= op < 0xEA,
        ensures
            final(self).wf(),
            match old(self)@.hi_stepped_eb1(op) {
                Some(v) => valid && final(self)@ == v,
                None => !valid && *final(self) == *old(self),
            },
    {
        proof {
            reveal(CpuView::hi_stepped_eb1);
        }
        if op == 0xE8 {
            let sp = self.sp;
            let e = self.fetch();
            let d: u16 = if e < 0x80 {
                e as u16
            } else {
                (e as u16) | 0xFF00
            };
            let r = sp.wrapping_add(d);
            let x = (sp ^ d) ^ r;
            self.sp = r;
            self.f = (self.f & 0x0F) | flags_val(
                false,
                false,
                x & 0x10 == 0x10,
                x & 0x100 == 0x100,
            );
        } else if op == 0xE9 {
            self.pc = self.read_hl();
        } else {
            return false;
        }
        true
    }

    /// Execute opcodes 0xEA-0xEF; reports whether the opcode exists.
    #[verifier::rlimit(100)]
    #[verifier::spinoff_prover]
    fn exec_hi_eb2(&mut self, op: u8) -> (valid: bool)
        requires
            old(self).wf(),
            0xEA <= op < 0xF0,
        ensures
            final(self).wf(),
            match old(self)@.hi_stepped_eb2(op) {
                Some(v) => valid && final(self)@ == v,
                None => !valid && *final(self) == *old(self),
            },
    {
        proof {
            reveal(CpuView::hi_stepped_eb2);
        }
        if op == 0xEA {
            let nn = self.fetch16();
            self.bus.write8(nn as usize, self.a);
        } else if op == 0xEE {
            let n = self.fetch();
            self.alu_apply(5, n);
        } else if op == 0xEF {
            let pc = self.pc;
            self.push16(pc);
            self.pc = 0x0028;
        } else {
            return false;
        }
        true
    }

    /// Execute opcodes 0xE8-0xEF; reports whether the opcode exists.
    fn exec_hi_eb(&mut self, op: u8) -> (valid: bool)
        requires
            old(self).wf(),
            0xE8 <= op < 0xF0,
        ensures
            final(self).wf(),
            match old(self)@.hi_stepped_eb(op) {
                Some(v) => valid && final(self)@ == v,
                None => !valid && *final(self) == *old(self),
            },
    {
        if op < 0xEA {
            self.exec_hi_eb1(op)
        } else {
            self.exec_hi_eb2(op)
        }
    }

    /// Execute opcodes 0xE0-0xEF; reports whether the opcode exists.
    fn exec_hi_e(&mut self, op: u8) -> (valid: bool)
        requires
            old(self).wf(),
            0xe0 <= op < 0xf0,
        ensures
            final(self).wf(),
            match old(self)@.hi_stepped_e(op) {
                Some(v) => valid && final(self)@ == v,
                None => !valid && *final(self) == *old(self),
            },
    {
        if op % 0x10 < 8 {
            self.exec_hi_ea(op)
        } else {
            self.exec_hi_eb(op)
        }
    }

    /// Execute opcodes 0xF0-0xF7; reports whether the opcode exists.
    #[verifier::rlimit(100)]
    #[verifier::spinoff_prover]
    fn exec_hi_fa(&mut self, op: u8) -> (valid: bool)
        requires
            old(self).wf(),
            0xf0 <= op < 0xf8,
        ensures
            final(self).wf(),
            match old(self)@.hi_stepped_fa(op) {
                Some(v) => valid && final(self)@ == v,
                None => !valid && *final(self) == *old(self),
            },
    {
        proof {
            reveal(CpuView::hi_stepped_fa);
        }
        if op == 0xF0 {
            let n = self.fetch();
            self.a = self.bus.read8(0xFF00 + n as usize);
        } else if op == 0xF1 {
            let nn = self.pop16();
            self.write_af(nn);
        } else if op == 0xF2 {
            self.a = self.bus.read8(0xFF00 + self.c as usize);
        } else if op == 0xF3 {
            self.bus.disable_irq();
        } else if op == 0xF5 {
            let v = self.read_af();
            self.push16(v);
        } else if op == 0xF6 {
            let n = self.fetch();
            self.alu_apply(6, n);
        } else if op == 0xF7 {
            let pc = self.pc;
            self.push16(pc);
            self.pc = 0x0030;
        } else {
            return false;
        }
        true
    }

    /// Execute opcodes 0xF8-0xFA; reports whether the opcode exists.
    #[verifier::rlimit(100)]
    #[verifier::spinoff_prover]
    fn exec_hi_fb1(&mut self, op: u8) -> (valid: bool)
        requires
            old(self).wf(),
            0xF8 <= op < 0xFB,
        ensures
            final(self).wf(),
            match old(self)@.hi_stepped_fb1(op) {
                Some(v) => valid && final(self)@ == v,
                None => !valid && *final(self) == *old(self),
            },
    {
        proof {
            reveal(CpuView::hi_stepped_fb1);
        }
        if op == 0xF8 {
            let sp = self.sp;
            let e = self.fetch();
            let d: u16 = if e < 0x80 {
                e as u16
            } else {
                (e as u16) | 0xFF00
            };
            let r = sp.wrapping_add(d);
            let h = (sp % 0x10) + ((e as u16) % 0x10) > 0x0F;
            let c = (sp % 0x100) + (e as u16) > 0xFF;
            self.f = (self.f & 0x0F) | flags_val(false, false, h, c);
            self.write_hl(r);
        } else if op == 0xF9 {
            self.sp = self.read_hl();
        } else if op == 0xFA {
            let nn = self.fetch16();
            self.a = self.bus.read8(nn as usize);
        } else {
            return false;
        }
        true
    }

    /// Execute opcodes 0xFB-0xFF; reports whether the opcode exists.
    #[verifier::rlimit(100)]
    #[verifier::spinoff_prover]
    fn exec_hi_fb2(&mut self, op: u8) -> (valid: bool)
        requires
            old(self).wf(),
            0xFB <= op,
        ensures
            final(self).wf(),
            match old(self)@.hi_stepped_fb2(op) {
                Some(v) => valid && final(self)@ == v,
                None => !valid && *final(self) == *old(self),
            },
    {
        proof {
            reveal(CpuView::hi_stepped_fb2);
        }
        if op == 0xFB {
            self.bus.enable_irq();
        } else if op == 0xFE {
            let n = self.fetch();
            self.alu_apply(7, n);
        } else if op == 0xFF {
            let pc = self.pc;
            self.push16(pc);
            self.pc = 0x0038;
        } else {
            return false;
        }
        true
    }

    /// Execute opcodes 0xF8-0xFF; reports whether the opcode exists.
    fn exec_hi_fb(&mut self, op: u8) -> (valid: bool)
        requires
            old(self).wf(),
            0xF8 <= op,
        ensures
            final(self).wf(),
            match old(self)@.hi_stepped_fb(op) {
                Some(v) => valid && final(self)@ == v,
                None => !valid && *final(self) == *old(self),
            },
    {
        if op < 0xFB {
            self.exec_hi_fb1(op)
        } else {
            self.exec_hi_fb2(op)
        }
    }

    /// Execute opcodes 0xF0-0xFF; reports whether the opcode exists.
    fn exec_hi_f(&mut self, op: u8) -> (valid: bool)
        requires
            old(self).wf(),
            0xf0 <= op < 0x100,
        ensures
            final(self).wf(),
            match old(self)@.hi_stepped_f(op) {
                Some(v) => valid && final(self)@ == v,
                None => !valid && *final(self) == *old(self),
            },
    {
        if op % 0x10 < 8 {
            self.exec_hi_fa(op)
        } else {
            self.exec_hi_fb(op)
        }
    }

    /// Execute one instruction from the 0xC0-0xFF block; reports whether
    /// the opcode is part of the instruction set.
    fn exec_hi(&mut self, op: u8) -> (valid: bool)
        requires
            old(self).wf(),
            0xC0 <= op,
        ensures
            final(self).wf(),
            match old(self)@.hi_stepped(op) {
                Some(v) => valid && final(self)@ == v,
                None => !valid && *final(self) == *old(self),
            },
    {
        if op < 0xD0 {
            self.exec_hi_c(op)
        } else if op < 0xE0 {
            self.exec_hi_d(op)
        } else if op < 0xF0 {
            self.exec_hi_e(op)
        } else {
            self.exec_hi_f(op)
        }
    }

    /// Execute one decoded instruction; the eleven holes in the opcode
    /// map are the only failures.
    fn execute(&mut self, op: u8) -> (r: Result<(), CoreError>)
        requires
            old(self).wf(),
        ensures
            final(self).wf(),
            match old(self)@.op_stepped(op) {
                Some(v) => final(self)@ == v && r is Ok,
                None => *final(self) == *old(self) && r == Err::<(), CoreError>(
                    CoreError::UnknownOpcode(op),
                ),
            },
    {
        if 0x40 <= op && op < 0x80 {
            if op != 0x76 {
                self.exec_ld(op);
            }
            Ok(())
        } else if 0x80 <= op && op < 0xC0 {
            self.exec_arith(op);
            Ok(())
        } else if op < 0x40 {
            self.exec_lo(op);
            Ok(())
        } else {
            if self.exec_hi(op) {
                Ok(())
            } else {
                Err(CoreError::UnknownOpcode(op))
            }
        }
    }
}

} // verus!


verus! {

impl CpuView {
    /// One full operation cycle of the machine. If an OAM transfer is
    /// pending, the bus services it and the step is consumed. Otherwise,
    /// if the master enable is on and some interrupt is both pending and
    /// enabled, the highest-priority one is dispatched: its IF bit falls,
    /// IME falls, PC is pushed high byte first, and PC takes the vector.
    /// Otherwise one instruction is fetched and executed; an opcode
    /// outside the instruction set stops the step after the fetch. In
    /// every other case the bus then advances once.
    pub open spec fn stepped(self) -> (CpuView, Option<CoreError>) {
        if self.bus.ppu.dma_started {
            (CpuView { bus: self.bus.dma_serviced().bus_ticked(), ..self }, None)
        } else if self.bus.intr.isr_kind() is Some {
            let kind = self.bus.intr.isr_kind()->Some_0;
            let v1 = CpuView {
                bus: BusView {
                    intr: IntrView { ime: false, ..self.bus.intr.without_irq(kind) },
                    ..self.bus
                },
                ..self
            };
            let v2 = v1.pushed16(v1.pc);
            let v3 = CpuView { pc: spec_irq_vector(kind) as u16, ..v2 };
            (CpuView { bus: v3.bus.bus_ticked(), ..v3 }, None)
        } else {
            let (v1, op) = self.fetched();
            match v1.op_stepped(op) {
                Some(v2) => (CpuView { bus: v2.bus.bus_ticked(), ..v2 }, None),
                None => (v1, Some(CoreError::UnknownOpcode(op))),
            }
        }
    }
}

impl Cpu {
    /// One operation cycle: service DMA, or dispatch an interrupt, or
    /// fetch and execute one instruction; then advance the bus. The only
    /// failure is an opcode outside the instruction set, which leaves the
    /// machine at the state right after its fetch.
    pub fn tick(&mut self) -> (r: Result<(), CoreError>)
        requires
            old(self).wf(),
        ensures
            final(self).wf(),
            final(self)@ == old(self)@.stepped().0,
            r == (match old(self)@.stepped().1 {
                Some(e) => Err::<(), CoreError>(e),
                None => Ok::<(), CoreError>(()),
            }),
    {
        if self.bus.transfer() {
            self.bus.tick();
            return Ok(());
        }
        match self.bus.isr_addr() {
            Some(addr) => {
                let kind = if addr == crate::interrupt::VBLANK_ISR_ADDR {
                    InterruptKind::Vblank
                } else if addr == crate::interrupt::LCDC_STAT_ISR_ADDR {
                    InterruptKind::LcdcStatus
                } else if addr == crate::interrupt::TIMER_ISR_ADDR {
                    InterruptKind::Timer
                } else if addr == crate::interrupt::SERIAL_ISR_ADDR {
                    InterruptKind::Serial
                } else {
                    InterruptKind::Joypad
                };
                proof {
                    assert(old(self)@.bus.intr.isr_kind() == Some(kind));
                    assert(spec_irq_vector(kind) == addr);
                }
                self.bus.remove_irq(kind);
                self.bus.disable_irq();
                let pc = self.pc;
                self.push16(pc);
                self.pc = addr as u16;
                self.bus.tick();
                Ok(())
            },
            None => {
                let op = self.fetch();
                match self.execute(op) {
                    Ok(()) => {
                        self.bus.tick();
                        Ok(())
                    },
                    Err(e) => Err(e),
                }
            },
        }
    }
}

} // verus!

verus! {

/// Is `op` one of the 245 assigned primary opcodes (0xCB counts: it
/// introduces the fully-assigned second page)?
pub open spec fn known_opcode(op: u8) -> bool {
    !(op == 0xD3 || op == 0xDB || op == 0xDD || op == 0xE3 || op == 0xE4 || op == 0xEB || op
        == 0xEC || op == 0xED || op == 0xF4 || op == 0xFC || op == 0xFD)
}

/// What the decoder says about an instruction: its mnemonic, its opcode
/// byte, and its machine-cycle cost.
pub struct Instruction {
    pub name: &'static str,
    pub opcode: u8,
    pub cycles: u8,
}

impl Cpu {

    /// Metadata of one primary-page opcode.
    fn decode_table(opcode: u8) -> (r: Option<Instruction>)
        ensures
            r is Some <==> known_opcode(opcode) && opcode != 0xCB,
            r is Some ==> r->Some_0.opcode == opcode && r->Some_0.cycles == spec_cycles(opcode)
                && r->Some_0.name@ == spec_mnemonic(opcode),
    {
        if opcode == 0x00 {
            Some(Instruction { name: "NOP", opcode: 0x00, cycles: 4 })
        } else if opcode == 0x01 {
            Some(Instruction { name: "LD BC, nn", opcode: 0x01, cycles: 12 })
        } else if opcode == 0x02 {
            Some(Instruction { name: "LD (BC), A", opcode: 0x02, cycles: 8 })
        } else if opcode == 0x03 {
            Some(Instruction { name: "INC BC", opcode: 0x03, cycles: 8 })
        } else if opcode == 0x04 {
            Some(Instruction { name: "INC B", opcode: 0x04, cycles: 4 })
        } else if opcode == 0x05 {
            Some(Instruction { name: "DEC B", opcode: 0x05, cycles: 4 })
        } else if opcode == 0x06 {
            Some(Instruction { name: "LD B, n", opcode: 0x06, cycles: 8 })
        } else if opcode == 0x07 {
            Some(Instruction { name: "RLCA", opcode: 0x07, cycles: 4 })
        } else if opcode == 0x08 {
            Some(Instruction { name: "LD (nn), SP", opcode: 0x08, cycles: 20 })
        } else if opcode == 0x09 {
            Some(Instruction { name: "ADD HL, BC", opcode: 0x09, cycles: 8 })
        } else if opcode == 0x0A {
            Some(Instruction { name: "LD A, (BC)", opcode: 0x0A, cycles: 8 })
        } else if opcode == 0x0B {
            Some(Instruction { name: "DEC BC", opcode: 0x0B, cycles: 8 })
        } else if opcode == 0x0C {
            Some(Instruction { name: "INC C", opcode: 0x0C, cycles: 4 })
        } else if opcode == 0x0D {
            Some(Instruction { name: "DEC C", opcode: 0x0D, cycles: 4 })
        } else if opcode == 0x0E {
            Some(Instruction { name: "LD C, n", opcode: 0x0E, cycles: 8 })
        } else if opcode == 0x0F {
            Some(Instruction { name: "RRCA", opcode: 0x0F, cycles: 4 })
        } else if opcode == 0x10 {
            Some(Instruction { name: "STOP", opcode: 0x10, cycles: 4 })
        } else if opcode == 0x11 {
            Some(Instruction { name: "LD DE, nn", opcode: 0x11, cycles: 12 })
        } else if opcode == 0x12 {
            Some(Instruction { name: "LD (DE), A", opcode: 0x12, cycles: 8 })
        } else if opcode == 0x13 {
            Some(Instruction { name: "INC DE", opcode: 0x13, cycles: 8 })
        } else if opcode == 0x14 {
            Some(Instruction { name: "INC D", opcode: 0x14, cycles: 4 })
        } else if opcode == 0x15 {
            Some(Instruction { name: "DEC D", opcode: 0x15, cycles: 4 })
        } else if opcode == 0x16 {
            Some(Instruction { name: "LD D, n", opcode: 0x16, cycles: 8 })
        } else if opcode == 0x17 {
            Some(Instruction { name: "RLA", opcode: 0x17, cycles: 4 })
        } else if opcode == 0x18 {
            Some(Instruction { name: "JR e", opcode: 0x18, cycles: 8 })
        } else if opcode == 0x19 {
            Some(Instruction { name: "ADD HL, DE", opcode: 0x19, cycles: 8 })
        } else if opcode == 0x1A {
            Some(Instruction { name: "LD A, (DE)", opcode: 0x1A, cycles: 8 })
        } else if opcode == 0x1B {
            Some(Instruction { name: "DEC DE", opcode: 0x1B, cycles: 8 })
        } else if opcode == 0x1C {
            Some(Instruction { name: "INC E", opcode: 0x1C, cycles: 4 })
        } else if opcode == 0x1D {
            Some(Instruction { name: "DEC E", opcode: 0x1D, cycles: 4 })
        } else if opcode == 0x1E {
            Some(Instruction { name: "LD E, n", opcode: 0x1E, cycles: 8 })
        } else if opcode == 0x1F {
            Some(Instruction { name: "RRA", opcode: 0x1F, cycles: 4 })
        } else if opcode == 0x20 {
            Some(Instruction { name: "JR NZ, e", opcode: 0x20, cycles: 8 })
        } else if opcode == 0x21 {
            Some(Instruction { name: "LD HL, nn", opcode: 0x21, cycles: 12 })
        } else if opcode == 0x22 {
            Some(Instruction { name: "LDI (HL), A", opcode: 0x22, cycles: 8 })
        } else if opcode == 0x23 {
            Some(Instruction { name: "INC HL", opcode: 0x23, cycles: 8 })
        } else if opcode == 0x24 {
            Some(Instruction { name: "INC H", opcode: 0x24, cycles: 4 })
        } else if opcode == 0x25 {
            Some(Instruction { name: "DEC H", opcode: 0x25, cycles: 4 })
        } else if opcode == 0x26 {
            Some(Instruction { name: "LD H, n", opcode: 0x26, cycles: 8 })
        } else if opcode == 0x27 {
            Some(Instruction { name: "DAA", opcode: 0x27, cycles: 4 })
        } else if opcode == 0x28 {
            Some(Instruction { name: "JR Z, e", opcode: 0x28, cycles: 8 })
        } else if opcode == 0x29 {
            Some(Instruction { name: "ADD HL, HL", opcode: 0x29, cycles: 8 })
        } else if opcode == 0x2A {
            Some(Instruction { name: "LDI A, (HL)", opcode: 0x2A, cycles: 8 })
        } else if opcode == 0x2B {
            Some(Instruction { name: "DEC HL", opcode: 0x2B, cycles: 8 })
        } else if opcode == 0x2C {
            Some(Instruction { name: "INC L", opcode: 0x2C, cycles: 4 })
        } else if opcode == 0x2D {
            Some(Instruction { name: "DEC L", opcode: 0x2D, cycles: 4 })
        } else if opcode == 0x2E {
            Some(Instruction { name: "LD L, n", opcode: 0x2E, cycles: 8 })
        } else if opcode == 0x2F {
            Some(Instruction { name: "CPL", opcode: 0x2F, cycles: 4 })
        } else if opcode == 0x30 {
            Some(Instruction { name: "JR NC, e", opcode: 0x30, cycles: 8 })
        } else if opcode == 0x31 {
            Some(Instruction { name: "LD SP, nn", opcode: 0x31, cycles: 12 })
        } else if opcode == 0x32 {
            Some(Instruction { name: "LDD (HL), A", opcode: 0x32, cycles: 8 })
        } else if opcode == 0x33 {
            Some(Instruction { name: "INC SP", opcode: 0x33, cycles: 8 })
        } else if opcode == 0x34 {
            Some(Instruction { name: "INC (HL)", opcode: 0x34, cycles: 12 })
        } else if opcode == 0x35 {
            Some(Instruction { name: "DEC (HL)", opcode: 0x35, cycles: 12 })
        } else if opcode == 0x36 {
            Some(Instruction { name: "LD (HL), n", opcode: 0x36, cycles: 12 })
        } else if opcode == 0x37 {
            Some(Instruction { name: "SCF", opcode: 0x37, cycles: 4 })
        } else if opcode == 0x38 {
            Some(Instruction { name: "JR C, e", opcode: 0x38, cycles: 8 })
        } else if opcode == 0x39 {
            Some(Instruction { name: "ADD HL, SP", opcode: 0x39, cycles: 8 })
        } else if opcode == 0x3A {
            Some(Instruction { name: "LDD A, (HL)", opcode: 0x3A, cycles: 8 })
        } else if opcode == 0x3B {
            Some(Instruction { name: "DEC SP", opcode: 0x3B, cycles: 8 })
        } else if opcode == 0x3C {
            Some(Instruction { name: "INC A", opcode: 0x3C, cycles: 4 })
        } else if opcode == 0x3D {
            Some(Instruction { name: "DEC A", opcode: 0x3D, cycles: 4 })
        } else if opcode == 0x3E {
            Some(Instruction { name: "LD A, #", opcode: 0x3E, cycles: 8 })
        } else if opcode == 0x3F {
            Some(Instruction { name: "CCF", opcode: 0x3F, cycles: 4 })
        } else if opcode == 0x40 {
            Some(Instruction { name: "LD B, B", opcode: 0x40, cycles: 4 })
        } else if opcode == 0x41 {
            Some(Instruction { name: "LD B, C", opcode: 0x41, cycles: 4 })
        } else if opcode == 0x42 {
            Some(Instruction { name: "LD B, D", opcode: 0x42, cycles: 4 })
        } else if opcode == 0x43 {
            Some(Instruction { name: "LD B, E", opcode: 0x43, cycles: 4 })
        } else if opcode == 0x44 {
            Some(Instruction { name: "LD B, H", opcode: 0x44, cycles: 4 })
        } else if opcode == 0x45 {
            Some(Instruction { name: "LD B, L", opcode: 0x45, cycles: 4 })
        } else if opcode == 0x46 {
            Some(Instruction { name: "LD B, (HL)", opcode: 0x46, cycles: 8 })
        } else if opcode == 0x47 {
            Some(Instruction { name: "LD B, A", opcode: 0x47, cycles: 4 })
        } else if opcode == 0x48 {
            Some(Instruction { name: "LD C, B", opcode: 0x48, cycles: 4 })
        } else if opcode == 0x49 {
            Some(Instruction { name: "LD C, C", opcode: 0x49, cycles: 4 })
        } else if opcode == 0x4A {
            Some(Instruction { name: "LD C, D", opcode: 0x4A, cycles: 4 })
        } else if opcode == 0x4B {
            Some(Instruction { name: "LD C, E", opcode: 0x4B, cycles: 4 })
        } else if opcode == 0x4C {
            Some(Instruction { name: "LD C, H", opcode: 0x4C, cycles: 4 })
        } else if opcode == 0x4D {
            Some(Instruction { name: "LD C, L", opcode: 0x4D, cycles: 4 })
        } else if opcode == 0x4E {
            Some(Instruction { name: "LD C, (HL)", opcode: 0x4E, cycles: 8 })
        } else if opcode == 0x4F {
            Some(Instruction { name: "LD C, A", opcode: 0x4F, cycles: 4 })
        } else if opcode == 0x50 {
            Some(Instruction { name: "LD D, B", opcode: 0x50, cycles: 4 })
        } else if opcode == 0x51 {
            Some(Instruction { name: "LD D, C", opcode: 0x51, cycles: 4 })
        } else if opcode == 0x52 {
            Some(Instruction { name: "LD D, D", opcode: 0x52, cycles: 4 })
        } else if opcode == 0x53 {
            Some(Instruction { name: "LD D, E", opcode: 0x53, cycles: 4 })
        } else if opcode == 0x54 {
            Some(Instruction { name: "LD D, H", opcode: 0x54, cycles: 4 })
        } else if opcode == 0x55 {
            Some(Instruction { name: "LD D, L", opcode: 0x55, cycles: 4 })
        } else if opcode == 0x56 {
            Some(Instruction { name: "LD D, (HL)", opcode: 0x56, cycles: 8 })
        } else if opcode == 0x57 {
            Some(Instruction { name: "LD D, A", opcode: 0x57, cycles: 4 })
        } else if opcode == 0x58 {
            Some(Instruction { name: "LD E, B", opcode: 0x58, cycles: 4 })
        } else if opcode == 0x59 {
            Some(Instruction { name: "LD E, C", opcode: 0x59, cycles: 4 })
        } else if opcode == 0x5A {
            Some(Instruction { name: "LD E, D", opcode: 0x5A, cycles: 4 })
        } else if opcode == 0x5B {
            Some(Instruction { name: "LD E, E", opcode: 0x5B, cycles: 4 })
        } else if opcode == 0x5C {
            Some(Instruction { name: "LD E, H", opcode: 0x5C, cycles: 4 })
        } else if opcode == 0x5D {
            Some(Instruction { name: "LD E, L", opcode: 0x5D, cycles: 4 })
        } else if opcode == 0x5E {
            Some(Instruction { name: "LD E, (HL)", opcode: 0x5E, cycles: 8 })
        } else if opcode == 0x5F {
            Some(Instruction { name: "LD E, A", opcode: 0x5F, cycles: 4 })
        } else if opcode == 0x60 {
            Some(Instruction { name: "LD H, B", opcode: 0x60, cycles: 4 })
        } else if opcode == 0x61 {
            Some(Instruction { name: "LD H, C", opcode: 0x61, cycles: 4 })
        } else if opcode == 0x62 {
            Some(Instruction { name: "LD H, D", opcode: 0x62, cycles: 4 })
        } else if opcode == 0x63 {
            Some(Instruction { name: "LD H, E", opcode: 0x63, cycles: 4 })
        } else if opcode == 0x64 {
            Some(Instruction { name: "LD H, H", opcode: 0x64, cycles: 4 })
        } else if opcode == 0x65 {
            Some(Instruction { name: "LD H, L", opcode: 0x65, cycles: 4 })
        } else if opcode == 0x66 {
            Some(Instruction { name: "LD H, (HL)", opcode: 0x66, cycles: 8 })
        } else if opcode == 0x67 {
            Some(Instruction { name: "LD H, A", opcode: 0x67, cycles: 4 })
        } else if opcode == 0x68 {
            Some(Instruction { name: "LD L, B", opcode: 0x68, cycles: 4 })
        } else if opcode == 0x69 {
            Some(Instruction { name: "LD L, C", opcode: 0x69, cycles: 4 })
        } else if opcode == 0x6A {
            Some(Instruction { name: "LD L, D", opcode: 0x6A, cycles: 4 })
        } else if opcode == 0x6B {
            Some(Instruction { name: "LD L, E", opcode: 0x6B, cycles: 4 })
        } else if opcode == 0x6C {
            Some(Instruction { name: "LD L, H", opcode: 0x6C, cycles: 4 })
        } else if opcode == 0x6D {
            Some(Instruction { name: "LD L, L", opcode: 0x6D, cycles: 4 })
        } else if opcode == 0x6E {
            Some(Instruction { name: "LD L, (HL)", opcode: 0x6E, cycles: 8 })
        } else if opcode == 0x6F {
            Some(Instruction { name: "LD L, A", opcode: 0x6F, cycles: 4 })
        } else if opcode == 0x70 {
            Some(Instruction { name: "LD (HL), B", opcode: 0x70, cycles: 4 })
        } else if opcode == 0x71 {
            Some(Instruction { name: "LD (HL), C", opcode: 0x71, cycles: 4 })
        } else if opcode == 0x72 {
            Some(Instruction { name: "LD (HL), D", opcode: 0x72, cycles: 4 })
        } else if opcode == 0x73 {
            Some(Instruction { name: "LD (HL), E", opcode: 0x73, cycles: 4 })
        } else if opcode == 0x74 {
            Some(Instruction { name: "LD (HL), H", opcode: 0x74, cycles: 4 })
        } else if opcode == 0x75 {
            Some(Instruction { name: "LD (HL), L", opcode: 0x75, cycles: 4 })
        } else if opcode == 0x76 {
            Some(Instruction { name: "HALT", opcode: 0x76, cycles: 4 })
        } else if opcode == 0x77 {
            Some(Instruction { name: "LD (HL), A", opcode: 0x77, cycles: 8 })
        } else if opcode == 0x78 {
            Some(Instruction { name: "LD A, B", opcode: 0x78, cycles: 4 })
        } else if opcode == 0x79 {
            Some(Instruction { name: "LD A, C", opcode: 0x79, cycles: 4 })
        } else if opcode == 0x7A {
            Some(Instruction { name: "LD A, D", opcode: 0x7A, cycles: 4 })
        } else if opcode == 0x7B {
            Some(Instruction { name: "LD A, E", opcode: 0x7B, cycles: 4 })
        } else if opcode == 0x7C {
            Some(Instruction { name: "LD A, H", opcode: 0x7C, cycles: 4 })
        } else if opcode == 0x7D {
            Some(Instruction { name: "LD A, L", opcode: 0x7D, cycles: 4 })
        } else if opcode == 0x7E {
            Some(Instruction { name: "LD A, (HL)", opcode: 0x7E, cycles: 8 })
        } else if opcode == 0x7F {
            Some(Instruction { name: "LD A, A", opcode: 0x7F, cycles: 4 })
        } else if opcode == 0x80 {
            Some(Instruction { name: "ADD A, B", opcode: 0x80, cycles: 4 })
        } else if opcode == 0x81 {
            Some(Instruction { name: "ADD A, C", opcode: 0x81, cycles: 4 })
        } else if opcode == 0x82 {
            Some(Instruction { name: "ADD A, D", opcode: 0x82, cycles: 4 })
        } else if opcode == 0x83 {
            Some(Instruction { name: "ADD A, E", opcode: 0x83, cycles: 4 })
        } else if opcode == 0x84 {
            Some(Instruction { name: "ADD A, H", opcode: 0x84, cycles: 4 })
        } else if opcode == 0x85 {
            Some(Instruction { name: "ADD A, L", opcode: 0x85, cycles: 4 })
        } else if opcode == 0x86 {
            Some(Instruction { name: "ADD A, (HL)", opcode: 0x86, cycles: 8 })
        } else if opcode == 0x87 {
            Some(Instruction { name: "ADD A, A", opcode: 0x87, cycles: 4 })
        } else if opcode == 0x88 {
            Some(Instruction { name: "ADC A, B", opcode: 0x88, cycles: 4 })
        } else if opcode == 0x89 {
            Some(Instruction { name: "ADC A, C", opcode: 0x89, cycles: 4 })
        } else if opcode == 0x8A {
            Some(Instruction { name: "ADC A, D", opcode: 0x8A, cycles: 4 })
        } else if opcode == 0x8B {
            Some(Instruction { name: "ADC A, E", opcode: 0x8B, cycles: 4 })
        } else if opcode == 0x8C {
            Some(Instruction { name: "ADC A, H", opcode: 0x8C, cycles: 4 })
        } else if opcode == 0x8D {
            Some(Instruction { name: "ADC A, L", opcode: 0x8D, cycles: 4 })
        } else if opcode == 0x8E {
            Some(Instruction { name: "ADC A, (HL)", opcode: 0x8E, cycles: 4 })
        } else if opcode == 0x8F {
            Some(Instruction { name: "ADC A, A", opcode: 0x8F, cycles: 4 })
        } else if opcode == 0x90 {
            Some(Instruction { name: "SUB A, B", opcode: 0x90, cycles: 4 })
        } else if opcode == 0x91 {
            Some(Instruction { name: "SUB A, C", opcode: 0x91, cycles: 4 })
        } else if opcode == 0x92 {
            Some(Instruction { name: "SUB A, D", opcode: 0x92, cycles: 4 })
        } else if opcode == 0x93 {
            Some(Instruction { name: "SUB A, E", opcode: 0x93, cycles: 4 })
        } else if opcode == 0x94 {
            Some(Instruction { name: "SUB A, H", opcode: 0x94, cycles: 4 })
        } else if opcode == 0x95 {
            Some(Instruction { name: "SUB A, L", opcode: 0x95, cycles: 4 })
        } else if opcode == 0x96 {
            Some(Instruction { name: "SUB A, (HL)", opcode: 0x96, cycles: 8 })
        } else if opcode == 0x97 {
            Some(Instruction { name: "SUB A, A", opcode: 0x97, cycles: 4 })
        } else if opcode == 0x98 {
            Some(Instruction { name: "SBC A, B", opcode: 0x98, cycles: 4 })
        } else if opcode == 0x99 {
            Some(Instruction { name: "SBC A, C", opcode: 0x99, cycles: 4 })
        } else if opcode == 0x9A {
            Some(Instruction { name: "SBC A, D", opcode: 0x9A, cycles: 4 })
        } else if opcode == 0x9B {
            Some(Instruction { name: "SBC A, E", opcode: 0x9B, cycles: 4 })
        } else if opcode == 0x9C {
            Some(Instruction { name: "SBC A, H", opcode: 0x9C, cycles: 4 })
        } else if opcode == 0x9D {
            Some(Instruction { name: "SBC A, L", opcode: 0x9D, cycles: 4 })
        } else if opcode == 0x9E {
            Some(Instruction { name: "SBC A, (HL)", opcode: 0x9E, cycles: 8 })
        } else if opcode == 0x9F {
            Some(Instruction { name: "SBC A, A", opcode: 0x9F, cycles: 4 })
        } else if opcode == 0xA0 {
            Some(Instruction { name: "AND A, B", opcode: 0xA0, cycles: 4 })
        } else if opcode == 0xA1 {
            Some(Instruction { name: "AND A, C", opcode: 0xA1, cycles: 4 })
        } else if opcode == 0xA2 {
            Some(Instruction { name: "AND A, D", opcode: 0xA2, cycles: 4 })
        } else if opcode == 0xA3 {
            Some(Instruction { name: "AND A, E", opcode: 0xA3, cycles: 4 })
        } else if opcode == 0xA4 {
            Some(Instruction { name: "AND A, H", opcode: 0xA4, cycles: 4 })
        } else if opcode == 0xA5 {
            Some(Instruction { name: "AND A, L", opcode: 0xA5, cycles: 4 })
        } else if opcode == 0xA6 {
            Some(Instruction { name: "AND A, (HL)", opcode: 0xA6, cycles: 8 })
        } else if opcode == 0xA7 {
            Some(Instruction { name: "AND A, A", opcode: 0xA7, cycles: 4 })
        } else if opcode == 0xA8 {
            Some(Instruction { name: "XOR A, B", opcode: 0xA8, cycles: 4 })
        } else if opcode == 0xA9 {
            Some(Instruction { name: "XOR A, C", opcode: 0xA9, cycles: 4 })
        } else if opcode == 0xAA {
            Some(Instruction { name: "XOR A, D", opcode: 0xAA, cycles: 4 })
        } else if opcode == 0xAB {
            Some(Instruction { name: "XOR A, E", opcode: 0xAB, cycles: 4 })
        } else if opcode == 0xAC {
            Some(Instruction { name: "XOR A, H", opcode: 0xAC, cycles: 4 })
        } else if opcode == 0xAD {
            Some(Instruction { name: "XOR A, L", opcode: 0xAD, cycles: 4 })
        } else if opcode == 0xAE {
            Some(Instruction { name: "XOR A, (HL)", opcode: 0xAE, cycles: 8 })
        } else if opcode == 0xAF {
            Some(Instruction { name: "XOR A, A", opcode: 0xAF, cycles: 4 })
        } else if opcode == 0xB0 {
            Some(Instruction { name: "OR A, B", opcode: 0xB0, cycles: 4 })
        } else if opcode == 0xB1 {
            Some(Instruction { name: "OR A, C", opcode: 0xB1, cycles: 4 })
        } else if opcode == 0xB2 {
            Some(Instruction { name: "OR A, D", opcode: 0xB2, cycles: 4 })
        } else if opcode == 0xB3 {
            Some(Instruction { name: "OR A, E", opcode: 0xB3, cycles: 4 })
        } else if opcode == 0xB4 {
            Some(Instruction { name: "OR A, H", opcode: 0xB4, cycles: 4 })
        } else if opcode == 0xB5 {
            Some(Instruction { name: "OR A, L", opcode: 0xB5, cycles: 4 })
        } else if opcode == 0xB6 {
            Some(Instruction { name: "OR A, (HL)", opcode: 0xB6, cycles: 8 })
        } else if opcode == 0xB7 {
            Some(Instruction { name: "OR A, A", opcode: 0xB7, cycles: 4 })
        } else if opcode == 0xB8 {
            Some(Instruction { name: "CP A, B", opcode: 0xB8, cycles: 4 })
        } else if opcode == 0xB9 {
            Some(Instruction { name: "CP A, C", opcode: 0xB9, cycles: 4 })
        } else if opcode == 0xBA {
            Some(Instruction { name: "CP A, D", opcode: 0xBA, cycles: 4 })
        } else if opcode == 0xBB {
            Some(Instruction { name: "CP A, E", opcode: 0xBB, cycles: 4 })
        } else if opcode == 0xBC {
            Some(Instruction { name: "CP A, H", opcode: 0xBC, cycles: 4 })
        } else if opcode == 0xBD {
            Some(Instruction { name: "CP A, L", opcode: 0xBD, cycles: 4 })
        } else if opcode == 0xBE {
            Some(Instruction { name: "CP A, (HL)", opcode: 0xBE, cycles: 8 })
        } else if opcode == 0xBF {
            Some(Instruction { name: "CP A, A", opcode: 0xBF, cycles: 4 })
        } else if opcode == 0xC0 {
            Some(Instruction { name: "RET NZ", opcode: 0xC0, cycles: 8 })
        } else if opcode == 0xC1 {
            Some(Instruction { name: "POP BC", opcode: 0xC1, cycles: 12 })
        } else if opcode == 0xC2 {
            Some(Instruction { name: "JP NZ, nn", opcode: 0xC2, cycles: 12 })
        } else if opcode == 0xC3 {
            Some(Instruction { name: "JP nn", opcode: 0xC3, cycles: 12 })
        } else if opcode == 0xC4 {
            Some(Instruction { name: "CALL NZ, nn", opcode: 0xC4, cycles: 12 })
        } else if opcode == 0xC5 {
            Some(Instruction { name: "PUSH BC", opcode: 0xC5, cycles: 16 })
        } else if opcode == 0xC6 {
            Some(Instruction { name: "ADD A, #", opcode: 0xC6, cycles: 8 })
        } else if opcode == 0xC7 {
            Some(Instruction { name: "RST 0x00", opcode: 0xC7, cycles: 32 })
        } else if opcode == 0xC8 {
            Some(Instruction { name: "RET Z", opcode: 0xC8, cycles: 8 })
        } else if opcode == 0xC9 {
            Some(Instruction { name: "RET", opcode: 0xC9, cycles: 8 })
        } else if opcode == 0xCA {
            Some(Instruction { name: "JP Z, nn", opcode: 0xCA, cycles: 12 })
        } else if opcode == 0xCC {
            Some(Instruction { name: "CALL Z, nn", opcode: 0xCC, cycles: 12 })
        } else if opcode == 0xCD {
            Some(Instruction { name: "CALL nn", opcode: 0xCD, cycles: 12 })
        } else if opcode == 0xCE {
            Some(Instruction { name: "ADC A, #", opcode: 0xCE, cycles: 8 })
        } else if opcode == 0xCF {
            Some(Instruction { name: "RST 0x08", opcode: 0xCF, cycles: 32 })
        } else if opcode == 0xD0 {
            Some(Instruction { name: "RET NC", opcode: 0xD0, cycles: 8 })
        } else if opcode == 0xD1 {
            Some(Instruction { name: "POP DE", opcode: 0xD1, cycles: 12 })
        } else if opcode == 0xD2 {
            Some(Instruction { name: "JP NC, nn", opcode: 0xD2, cycles: 12 })
        } else if opcode == 0xD4 {
            Some(Instruction { name: "CALL NC, nn", opcode: 0xD4, cycles: 12 })
        } else if opcode == 0xD5 {
            Some(Instruction { name: "PUSH DE", opcode: 0xD5, cycles: 16 })
        } else if opcode == 0xD6 {
            Some(Instruction { name: "SUB A, #", opcode: 0xD6, cycles: 8 })
        } else if opcode == 0xD7 {
            Some(Instruction { name: "RST 0x10", opcode: 0xD7, cycles: 32 })
        } else if opcode == 0xD8 {
            Some(Instruction { name: "RET C", opcode: 0xD8, cycles: 8 })
        } else if opcode == 0xD9 {
            Some(Instruction { name: "RETI", opcode: 0xD9, cycles: 8 })
        } else if opcode == 0xDA {
            Some(Instruction { name: "JP C, nn", opcode: 0xDA, cycles: 12 })
        } else if opcode == 0xDC {
            Some(Instruction { name: "CALL C, nn", opcode: 0xDC, cycles: 12 })
        } else if opcode == 0xDE {
            Some(Instruction { name: "SBC A, #", opcode: 0xDE, cycles: 8 })
        } else if opcode == 0xDF {
            Some(Instruction { name: "RST 0x18", opcode: 0xDF, cycles: 32 })
        } else if opcode == 0xE0 {
            Some(Instruction { name: "LDH (n), A", opcode: 0xE0, cycles: 12 })
        } else if opcode == 0xE1 {
            Some(Instruction { name: "POP HL", opcode: 0xE1, cycles: 12 })
        } else if opcode == 0xE2 {
            Some(Instruction { name: "LD (C), A", opcode: 0xE2, cycles: 8 })
        } else if opcode == 0xE5 {
            Some(Instruction { name: "PUSH HL", opcode: 0xE5, cycles: 16 })
        } else if opcode == 0xE6 {
            Some(Instruction { name: "AND A, #", opcode: 0xE6, cycles: 8 })
        } else if opcode == 0xE7 {
            Some(Instruction { name: "RST 0x20", opcode: 0xE7, cycles: 32 })
        } else if opcode == 0xE8 {
            Some(Instruction { name: "ADD SP, #", opcode: 0xE8, cycles: 16 })
        } else if opcode == 0xE9 {
            Some(Instruction { name: "JP (HL)", opcode: 0xE9, cycles: 4 })
        } else if opcode == 0xEA {
            Some(Instruction { name: "LD (nn), A", opcode: 0xEA, cycles: 16 })
        } else if opcode == 0xEE {
            Some(Instruction { name: "XOR A, #", opcode: 0xEE, cycles: 8 })
        } else if opcode == 0xEF {
            Some(Instruction { name: "RST 0x28", opcode: 0xEF, cycles: 32 })
        } else if opcode == 0xF0 {
            Some(Instruction { name: "LDH A, (n)", opcode: 0xF0, cycles: 12 })
        } else if opcode == 0xF1 {
            Some(Instruction { name: "POP AF", opcode: 0xF1, cycles: 12 })
        } else if opcode == 0xF2 {
            Some(Instruction { name: "LD A, (C)", opcode: 0xF2, cycles: 8 })
        } else if opcode == 0xF3 {
            Some(Instruction { name: "DI", opcode: 0xF3, cycles: 4 })
        } else if opcode == 0xF5 {
            Some(Instruction { name: "PUSH AF", opcode: 0xF5, cycles: 16 })
        } else if opcode == 0xF6 {
            Some(Instruction { name: "OR A, #", opcode: 0xF6, cycles: 8 })
        } else if opcode == 0xF7 {
            Some(Instruction { name: "RST 0x30", opcode: 0xF7, cycles: 32 })
        } else if opcode == 0xF8 {
            Some(Instruction { name: "LDHL SP, n", opcode: 0xF8, cycles: 12 })
        } else if opcode == 0xF9 {
            Some(Instruction { name: "LD SP, HL", opcode: 0xF9, cycles: 8 })
        } else if opcode == 0xFA {
            Some(Instruction { name: "LD A, (nn)", opcode: 0xFA, cycles: 16 })
        } else if opcode == 0xFB {
            Some(Instruction { name: "EI", opcode: 0xFB, cycles: 4 })
        } else if opcode == 0xFE {
            Some(Instruction { name: "CP A, #", opcode: 0xFE, cycles: 8 })
        } else if opcode == 0xFF {
            Some(Instruction { name: "RST 0x38", opcode: 0xFF, cycles: 32 })
        } else {
            None
        }
    }

    /// Metadata of one CB-page opcode.
    fn decode_cb(opcode: u8) -> (r: Option<Instruction>)
        ensures
            r is Some,
            r is Some ==> r->Some_0.opcode == opcode && r->Some_0.cycles == spec_cb_cycles(opcode)
                && r->Some_0.name@ == spec_cb_mnemonic(opcode),
    {
        if opcode == 0x00 {
            Some(Instruction { name: "RLC B", opcode: 0x00, cycles: 8 })
        } else if opcode == 0x01 {
            Some(Instruction { name: "RLC C", opcode: 0x01, cycles: 8 })
        } else if opcode == 0x02 {
            Some(Instruction { name: "RLC D", opcode: 0x02, cycles: 8 })
        } else if opcode == 0x03 {
            Some(Instruction { name: "RLC E", opcode: 0x03, cycles: 8 })
        } else if opcode == 0x04 {
            Some(Instruction { name: "RLC H", opcode: 0x04, cycles: 8 })
        } else if opcode == 0x05 {
            Some(Instruction { name: "RLC L", opcode: 0x05, cycles: 8 })
        } else if opcode == 0x06 {
            Some(Instruction { name: "RLC (HL)", opcode: 0x06, cycles: 16 })
        } else if opcode == 0x07 {
            Some(Instruction { name: "RLC A", opcode: 0x07, cycles: 8 })
        } else if opcode == 0x08 {
            Some(Instruction { name: "RRC B", opcode: 0x08, cycles: 8 })
        } else if opcode == 0x09 {
            Some(Instruction { name: "RRC C", opcode: 0x09, cycles: 8 })
        } else if opcode == 0x0A {
            Some(Instruction { name: "RRC D", opcode: 0x0A, cycles: 8 })
        } else if opcode == 0x0B {
            Some(Instruction { name: "RRC E", opcode: 0x0B, cycles: 8 })
        } else if opcode == 0x0C {
            Some(Instruction { name: "RRC H", opcode: 0x0C, cycles: 8 })
        } else if opcode == 0x0D {
            Some(Instruction { name: "RRC L", opcode: 0x0D, cycles: 8 })
        } else if opcode == 0x0E {
            Some(Instruction { name: "RRC (HL)", opcode: 0x0E, cycles: 16 })
        } else if opcode == 0x0F {
            Some(Instruction { name: "RRC A", opcode: 0x0F, cycles: 8 })
        } else if opcode == 0x10 {
            Some(Instruction { name: "RL B", opcode: 0x10, cycles: 8 })
        } else if opcode == 0x11 {
            Some(Instruction { name: "RL C", opcode: 0x11, cycles: 8 })
        } else if opcode == 0x12 {
            Some(Instruction { name: "RL D", opcode: 0x12, cycles: 8 })
        } else if opcode == 0x13 {
            Some(Instruction { name: "RL E", opcode: 0x13, cycles: 8 })
        } else if opcode == 0x14 {
            Some(Instruction { name: "RL H", opcode: 0x14, cycles: 8 })
        } else if opcode == 0x15 {
            Some(Instruction { name: "RL L", opcode: 0x15, cycles: 8 })
        } else if opcode == 0x16 {
            Some(Instruction { name: "RL (HL)", opcode: 0x16, cycles: 8 })
        } else if opcode == 0x17 {
            Some(Instruction { name: "RL A", opcode: 0x17, cycles: 8 })
        } else if opcode == 0x18 {
            Some(Instruction { name: "RR B", opcode: 0x18, cycles: 8 })
        } else if opcode == 0x19 {
            Some(Instruction { name: "RR C", opcode: 0x19, cycles: 8 })
        } else if opcode == 0x1A {
            Some(Instruction { name: "RR D", opcode: 0x1A, cycles: 8 })
        } else if opcode == 0x1B {
            Some(Instruction { name: "RR E", opcode: 0x1B, cycles: 8 })
        } else if opcode == 0x1C {
            Some(Instruction { name: "RR H", opcode: 0x1C, cycles: 8 })
        } else if opcode == 0x1D {
            Some(Instruction { name: "RR L", opcode: 0x1D, cycles: 8 })
        } else if opcode == 0x1E {
            Some(Instruction { name: "RR (HL)", opcode: 0x1E, cycles: 16 })
        } else if opcode == 0x1F {
            Some(Instruction { name: "RR A", opcode: 0x1F, cycles: 8 })
        } else if opcode == 0x20 {
            Some(Instruction { name: "SLA B", opcode: 0x20, cycles: 8 })
        } else if opcode == 0x21 {
            Some(Instruction { name: "SLA C", opcode: 0x21, cycles: 8 })
        } else if opcode == 0x22 {
            Some(Instruction { name: "SLA D", opcode: 0x22, cycles: 8 })
        } else if opcode == 0x23 {
            Some(Instruction { name: "SLA E", opcode: 0x23, cycles: 8 })
        } else if opcode == 0x24 {
            Some(Instruction { name: "SLA H", opcode: 0x24, cycles: 8 })
        } else if opcode == 0x25 {
            Some(Instruction { name: "SLA L", opcode: 0x25, cycles: 8 })
        } else if opcode == 0x26 {
            Some(Instruction { name: "SLA (HL)", opcode: 0x26, cycles: 16 })
        } else if opcode == 0x27 {
            Some(Instruction { name: "SLA A", opcode: 0x27, cycles: 8 })
        } else if opcode == 0x28 {
            Some(Instruction { name: "SRA B", opcode: 0x28, cycles: 8 })
        } else if opcode == 0x29 {
            Some(Instruction { name: "SRA C", opcode: 0x29, cycles: 8 })
        } else if opcode == 0x2A {
            Some(Instruction { name: "SRA D", opcode: 0x2A, cycles: 8 })
        } else if opcode == 0x2B {
            Some(Instruction { name: "SRA E", opcode: 0x2B, cycles: 8 })
        } else if opcode == 0x2C {
            Some(Instruction { name: "SRA H", opcode: 0x2C, cycles: 8 })
        } else if opcode == 0x2D {
            Some(Instruction { name: "SRA L", opcode: 0x2D, cycles: 8 })
        } else if opcode == 0x2E {
            Some(Instruction { name: "SRA (HL)", opcode: 0x2E, cycles: 16 })
        } else if opcode == 0x2F {
            Some(Instruction { name: "SRA A", opcode: 0x2F, cycles: 8 })
        } else if opcode == 0x30 {
            Some(Instruction { name: "SWAP B", opcode: 0x30, cycles: 8 })
        } else if opcode == 0x31 {
            Some(Instruction { name: "SWAP C", opcode: 0x31, cycles: 8 })
        } else if opcode == 0x32 {
            Some(Instruction { name: "SWAP D", opcode: 0x32, cycles: 8 })
        } else if opcode == 0x33 {
            Some(Instruction { name: "SWAP E", opcode: 0x33, cycles: 8 })
        } else if opcode == 0x34 {
            Some(Instruction { name: "SWAP H", opcode: 0x34, cycles: 8 })
        } else if opcode == 0x35 {
            Some(Instruction { name: "SWAP L", opcode: 0x35, cycles: 8 })
        } else if opcode == 0x36 {
            Some(Instruction { name: "SWAP (HL)", opcode: 0x36, cycles: 16 })
        } else if opcode == 0x37 {
            Some(Instruction { name: "SWAP A", opcode: 0x37, cycles: 8 })
        } else if opcode == 0x38 {
            Some(Instruction { name: "SRL B", opcode: 0x38, cycles: 8 })
        } else if opcode == 0x39 {
            Some(Instruction { name: "SRL C", opcode: 0x39, cycles: 8 })
        } else if opcode == 0x3A {
            Some(Instruction { name: "SRL D", opcode: 0x3A, cycles: 8 })
        } else if opcode == 0x3B {
            Some(Instruction { name: "SRL E", opcode: 0x3B, cycles: 8 })
        } else if opcode == 0x3C {
            Some(Instruction { name: "SRL H", opcode: 0x3C, cycles: 8 })
        } else if opcode == 0x3D {
            Some(Instruction { name: "SRL L", opcode: 0x3D, cycles: 8 })
        } else if opcode == 0x3E {
            Some(Instruction { name: "SRL (HL)", opcode: 0x3E, cycles: 16 })
        } else if opcode == 0x3F {
            Some(Instruction { name: "SRL A", opcode: 0x3F, cycles: 8 })
        } else if opcode == 0x40 {
            Some(Instruction { name: "BIT 0, B", opcode: 0x40, cycles: 8 })
        } else if opcode == 0x41 {
            Some(Instruction { name: "BIT 0, C", opcode: 0x41, cycles: 8 })
        } else if opcode == 0x42 {
            Some(Instruction { name: "BIT 0, D", opcode: 0x42, cycles: 8 })
        } else if opcode == 0x43 {
            Some(Instruction { name: "BIT 0, E", opcode: 0x43, cycles: 8 })
        } else if opcode == 0x44 {
            Some(Instruction { name: "BIT 0, H", opcode: 0x44, cycles: 8 })
        } else if opcode == 0x45 {
            Some(Instruction { name: "BIT 0, L", opcode: 0x45, cycles: 8 })
        } else if opcode == 0x46 {
            Some(Instruction { name: "BIT 0, (HL)", opcode: 0x46, cycles: 16 })
        } else if opcode == 0x47 {
            Some(Instruction { name: "BIT 0, A", opcode: 0x47, cycles: 8 })
        } else if opcode == 0x48 {
            Some(Instruction { name: "BIT 1, B", opcode: 0x48, cycles: 8 })
        } else if opcode == 0x49 {
            Some(Instruction { name: "BIT 1, C", opcode: 0x49, cycles: 8 })
        } else if opcode == 0x4A {
            Some(Instruction { name: "BIT 1, D", opcode: 0x4A, cycles: 8 })
        } else if opcode == 0x4B {
            Some(Instruction { name: "BIT 1, E", opcode: 0x4B, cycles: 8 })
        } else if opcode == 0x4C {
            Some(Instruction { name: "BIT 1, H", opcode: 0x4C, cycles: 8 })
        } else if opcode == 0x4D {
            Some(Instruction { name: "BIT 1, L", opcode: 0x4D, cycles: 8 })
        } else if opcode == 0x4E {
            Some(Instruction { name: "BIT 1, (HL)", opcode: 0x4E, cycles: 8 })
        } else if opcode == 0x4F {
            Some(Instruction { name: "BIT 1, A", opcode: 0x4F, cycles: 8 })
        } else if opcode == 0x50 {
            Some(Instruction { name: "BIT 2, B", opcode: 0x50, cycles: 8 })
        } else if opcode == 0x51 {
            Some(Instruction { name: "BIT 2, C", opcode: 0x51, cycles: 8 })
        } else if opcode == 0x52 {
            Some(Instruction { name: "BIT 2, D", opcode: 0x52, cycles: 8 })
        } else if opcode == 0x53 {
            Some(Instruction { name: "BIT 2, E", opcode: 0x53, cycles: 8 })
        } else if opcode == 0x54 {
            Some(Instruction { name: "BIT 2, H", opcode: 0x54, cycles: 8 })
        } else if opcode == 0x55 {
            Some(Instruction { name: "BIT 2, L", opcode: 0x55, cycles: 8 })
        } else if opcode == 0x56 {
            Some(Instruction { name: "BIT 2, (HL)", opcode: 0x56, cycles: 16 })
        } else if opcode == 0x57 {
            Some(Instruction { name: "BIT 2, A", opcode: 0x57, cycles: 8 })
        } else if opcode == 0x58 {
            Some(Instruction { name: "BIT 3, B", opcode: 0x58, cycles: 8 })
        } else if opcode == 0x59 {
            Some(Instruction { name: "BIT 3, C", opcode: 0x59, cycles: 8 })
        } else if opcode == 0x5A {
            Some(Instruction { name: "BIT 3, D", opcode: 0x5A, cycles: 8 })
        } else if opcode == 0x5B {
            Some(Instruction { name: "BIT 3, E", opcode: 0x5B, cycles: 8 })
        } else if opcode == 0x5C {
            Some(Instruction { name: "BIT 3, H", opcode: 0x5C, cycles: 8 })
        } else if opcode == 0x5D {
            Some(Instruction { name: "BIT 3, L", opcode: 0x5D, cycles: 8 })
        } else if opcode == 0x5E {
            Some(Instruction { name: "BIT 3, (HL)", opcode: 0x5E, cycles: 8 })
        } else if opcode == 0x5F {
            Some(Instruction { name: "BIT 3, A", opcode: 0x5F, cycles: 8 })
        } else if opcode == 0x60 {
            Some(Instruction { name: "BIT 4, B", opcode: 0x60, cycles: 8 })
        } else if opcode == 0x61 {
            Some(Instruction { name: "BIT 4, C", opcode: 0x61, cycles: 8 })
        } else if opcode == 0x62 {
            Some(Instruction { name: "BIT 4, D", opcode: 0x62, cycles: 8 })
        } else if opcode == 0x63 {
            Some(Instruction { name: "BIT 4, E", opcode: 0x63, cycles: 8 })
        } else if opcode == 0x64 {
            Some(Instruction { name: "BIT 4, H", opcode: 0x64, cycles: 8 })
        } else if opcode == 0x65 {
            Some(Instruction { name: "BIT 4, L", opcode: 0x65, cycles: 8 })
        } else if opcode == 0x66 {
            Some(Instruction { name: "BIT 4, (HL)", opcode: 0x66, cycles: 16 })
        } else if opcode == 0x67 {
            Some(Instruction { name: "BIT 4, A", opcode: 0x67, cycles: 8 })
        } else if opcode == 0x68 {
            Some(Instruction { name: "BIT 5, B", opcode: 0x68, cycles: 8 })
        } else if opcode == 0x69 {
            Some(Instruction { name: "BIT 5, C", opcode: 0x69, cycles: 8 })
        } else if opcode == 0x6A {
            Some(Instruction { name: "BIT 5, D", opcode: 0x6A, cycles: 8 })
        } else if opcode == 0x6B {
            Some(Instruction { name: "BIT 5, E", opcode: 0x6B, cycles: 8 })
        } else if opcode == 0x6C {
            Some(Instruction { name: "BIT 5, H", opcode: 0x6C, cycles: 8 })
        } else if opcode == 0x6D {
            Some(Instruction { name: "BIT 5, L", opcode: 0x6D, cycles: 8 })
        } else if opcode == 0x6E {
            Some(Instruction { name: "BIT 5, (HL)", opcode: 0x6E, cycles: 8 })
        } else if opcode == 0x6F {
            Some(Instruction { name: "BIT 5, A", opcode: 0x6F, cycles: 8 })
        } else if opcode == 0x70 {
            Some(Instruction { name: "BIT 6, B", opcode: 0x70, cycles: 8 })
        } else if opcode == 0x71 {
            Some(Instruction { name: "BIT 6, C", opcode: 0x71, cycles: 8 })
        } else if opcode == 0x72 {
            Some(Instruction { name: "BIT 6, D", opcode: 0x72, cycles: 8 })
        } else if opcode == 0x73 {
            Some(Instruction { name: "BIT 6, E", opcode: 0x73, cycles: 8 })
        } else if opcode == 0x74 {
            Some(Instruction { name: "BIT 6, H", opcode: 0x74, cycles: 8 })
        } else if opcode == 0x75 {
            Some(Instruction { name: "BIT 6, L", opcode: 0x75, cycles: 8 })
        } else if opcode == 0x76 {
            Some(Instruction { name: "BIT 6, (HL)", opcode: 0x76, cycles: 16 })
        } else if opcode == 0x77 {
            Some(Instruction { name: "BIT 6, A", opcode: 0x77, cycles: 8 })
        } else if opcode == 0x78 {
            Some(Instruction { name: "BIT 7, B", opcode: 0x78, cycles: 8 })
        } else if opcode == 0x79 {
            Some(Instruction { name: "BIT 7, C", opcode: 0x79, cycles: 8 })
        } else if opcode == 0x7A {
            Some(Instruction { name: "BIT 7, D", opcode: 0x7A, cycles: 8 })
        } else if opcode == 0x7B {
            Some(Instruction { name: "BIT 7, E", opcode: 0x7B, cycles: 8 })
        } else if opcode == 0x7C {
            Some(Instruction { name: "BIT 7, H", opcode: 0x7C, cycles: 8 })
        } else if opcode == 0x7D {
            Some(Instruction { name: "BIT 7, L", opcode: 0x7D, cycles: 8 })
        } else if opcode == 0x7E {
            Some(Instruction { name: "BIT 7, (HL)", opcode: 0x7E, cycles: 8 })
        } else if opcode == 0x7F {
            Some(Instruction { name: "BIT 7, A", opcode: 0x7F, cycles: 8 })
        } else if opcode == 0x80 {
            Some(Instruction { name: "RES 0, B", opcode: 0x80, cycles: 8 })
        } else if opcode == 0x81 {
            Some(Instruction { name: "RES 0, C", opcode: 0x81, cycles: 8 })
        } else if opcode == 0x82 {
            Some(Instruction { name: "RES 0, D", opcode: 0x82, cycles: 8 })
        } else if opcode == 0x83 {
            Some(Instruction { name: "RES 0, E", opcode: 0x83, cycles: 8 })
        } else if opcode == 0x84 {
            Some(Instruction { name: "RES 0, H", opcode: 0x84, cycles: 8 })
        } else if opcode == 0x85 {
            Some(Instruction { name: "RES 0, L", opcode: 0x85, cycles: 8 })
        } else if opcode == 0x86 {
            Some(Instruction { name: "RES 0, (HL)", opcode: 0x86, cycles: 16 })
        } else if opcode == 0x87 {
            Some(Instruction { name: "RES 0, A", opcode: 0x87, cycles: 8 })
        } else if opcode == 0x88 {
            Some(Instruction { name: "RES 1, B", opcode: 0x88, cycles: 8 })
        } else if opcode == 0x89 {
            Some(Instruction { name: "RES 1, C", opcode: 0x89, cycles: 8 })
        } else if opcode == 0x8A {
            Some(Instruction { name: "RES 1, D", opcode: 0x8A, cycles: 8 })
        } else if opcode == 0x8B {
            Some(Instruction { name: "RES 1, E", opcode: 0x8B, cycles: 8 })
        } else if opcode == 0x8C {
            Some(Instruction { name: "RES 1, H", opcode: 0x8C, cycles: 8 })
        } else if opcode == 0x8D {
            Some(Instruction { name: "RES 1, L", opcode: 0x8D, cycles: 8 })
        } else if opcode == 0x8E {
            Some(Instruction { name: "RES 1, (HL)", opcode: 0x8E, cycles: 16 })
        } else if opcode == 0x8F {
            Some(Instruction { name: "RES 1, A", opcode: 0x8F, cycles: 8 })
        } else if opcode == 0x90 {
            Some(Instruction { name: "RES 2, B", opcode: 0x90, cycles: 8 })
        } else if opcode == 0x91 {
            Some(Instruction { name: "RES 2, C", opcode: 0x91, cycles: 8 })
        } else if opcode == 0x92 {
            Some(Instruction { name: "RES 2, D", opcode: 0x92, cycles: 8 })
        } else if opcode == 0x93 {
            Some(Instruction { name: "RES 2, E", opcode: 0x93, cycles: 8 })
        } else if opcode == 0x94 {
            Some(Instruction { name: "RES 2, H", opcode: 0x94, cycles: 8 })
        } else if opcode == 0x95 {
            Some(Instruction { name: "RES 2, L", opcode: 0x95, cycles: 8 })
        } else if opcode == 0x96 {
            Some(Instruction { name: "RES 2, (HL)", opcode: 0x96, cycles: 16 })
        } else if opcode == 0x97 {
            Some(Instruction { name: "RES 2, A", opcode: 0x97, cycles: 8 })
        } else if opcode == 0x98 {
            Some(Instruction { name: "RES 3, B", opcode: 0x98, cycles: 8 })
        } else if opcode == 0x99 {
            Some(Instruction { name: "RES 3, C", opcode: 0x99, cycles: 8 })
        } else if opcode == 0x9A {
            Some(Instruction { name: "RES 3, D", opcode: 0x9A, cycles: 8 })
        } else if opcode == 0x9B {
            Some(Instruction { name: "RES 3, E", opcode: 0x9B, cycles: 8 })
        } else if opcode == 0x9C {
            Some(Instruction { name: "RES 3, H", opcode: 0x9C, cycles: 8 })
        } else if opcode == 0x9D {
            Some(Instruction { name: "RES 3, L", opcode: 0x9D, cycles: 8 })
        } else if opcode == 0x9E {
            Some(Instruction { name: "RES 3, (HL)", opcode: 0x9E, cycles: 16 })
        } else if opcode == 0x9F {
            Some(Instruction { name: "RES 3, A", opcode: 0x9F, cycles: 8 })
        } else if opcode == 0xA0 {
            Some(Instruction { name: "RES 4, B", opcode: 0xA0, cycles: 8 })
        } else if opcode == 0xA1 {
            Some(Instruction { name: "RES 4, C", opcode: 0xA1, cycles: 8 })
        } else if opcode == 0xA2 {
            Some(Instruction { name: "RES 4, D", opcode: 0xA2, cycles: 8 })
        } else if opcode == 0xA3 {
            Some(Instruction { name: "RES 4, E", opcode: 0xA3, cycles: 8 })
        } else if opcode == 0xA4 {
            Some(Instruction { name: "RES 4, H", opcode: 0xA4, cycles: 8 })
        } else if opcode == 0xA5 {
            Some(Instruction { name: "RES 4, L", opcode: 0xA5, cycles: 8 })
        } else if opcode == 0xA6 {
            Some(Instruction { name: "RES 4, (HL)", opcode: 0xA6, cycles: 16 })
        } else if opcode == 0xA7 {
            Some(Instruction { name: "RES 4, A", opcode: 0xA7, cycles: 8 })
        } else if opcode == 0xA8 {
            Some(Instruction { name: "RES 5, B", opcode: 0xA8, cycles: 8 })
        } else if opcode == 0xA9 {
            Some(Instruction { name: "RES 5, C", opcode: 0xA9, cycles: 8 })
        } else if opcode == 0xAA {
            Some(Instruction { name: "RES 5, D", opcode: 0xAA, cycles: 8 })
        } else if opcode == 0xAB {
            Some(Instruction { name: "RES 5, E", opcode: 0xAB, cycles: 8 })
        } else if opcode == 0xAC {
            Some(Instruction { name: "RES 5, H", opcode: 0xAC, cycles: 8 })
        } else if opcode == 0xAD {
            Some(Instruction { name: "RES 5, L", opcode: 0xAD, cycles: 8 })
        } else if opcode == 0xAE {
            Some(Instruction { name: "RES 5, (HL)", opcode: 0xAE, cycles: 16 })
        } else if opcode == 0xAF {
            Some(Instruction { name: "RES 5, A", opcode: 0xAF, cycles: 8 })
        } else if opcode == 0xB0 {
            Some(Instruction { name: "RES 6, B", opcode: 0xB0, cycles: 8 })
        } else if opcode == 0xB1 {
            Some(Instruction { name: "RES 6, C", opcode: 0xB1, cycles: 8 })
        } else if opcode == 0xB2 {
            Some(Instruction { name: "RES 6, D", opcode: 0xB2, cycles: 8 })
        } else if opcode == 0xB3 {
            Some(Instruction { name: "RES 6, E", opcode: 0xB3, cycles: 8 })
        } else if opcode == 0xB4 {
            Some(Instruction { name: "RES 6, H", opcode: 0xB4, cycles: 8 })
        } else if opcode == 0xB5 {
            Some(Instruction { name: "RES 6, L", opcode: 0xB5, cycles: 8 })
        } else if opcode == 0xB6 {
            Some(Instruction { name: "RES 6, (HL)", opcode: 0xB6, cycles: 16 })
        } else if opcode == 0xB7 {
            Some(Instruction { name: "RES 6, A", opcode: 0xB7, cycles: 8 })
        } else if opcode == 0xB8 {
            Some(Instruction { name: "RES 7, B", opcode: 0xB8, cycles: 8 })
        } else if opcode == 0xB9 {
            Some(Instruction { name: "RES 7, C", opcode: 0xB9, cycles: 8 })
        } else if opcode == 0xBA {
            Some(Instruction { name: "RES 7, D", opcode: 0xBA, cycles: 8 })
        } else if opcode == 0xBB {
            Some(Instruction { name: "RES 7, E", opcode: 0xBB, cycles: 8 })
        } else if opcode == 0xBC {
            Some(Instruction { name: "RES 7, H", opcode: 0xBC, cycles: 8 })
        } else if opcode == 0xBD {
            Some(Instruction { name: "RES 7, L", opcode: 0xBD, cycles: 8 })
        } else if opcode == 0xBE {
            Some(Instruction { name: "RES 7, (HL)", opcode: 0xBE, cycles: 16 })
        } else if opcode == 0xBF {
            Some(Instruction { name: "RES 7, A", opcode: 0xBF, cycles: 8 })
        } else if opcode == 0xC0 {
            Some(Instruction { name: "SET 0, B", opcode: 0xC0, cycles: 8 })
        } else if opcode == 0xC1 {
            Some(Instruction { name: "SET 0, C", opcode: 0xC1, cycles: 8 })
        } else if opcode == 0xC2 {
            Some(Instruction { name: "SET 0, D", opcode: 0xC2, cycles: 8 })
        } else if opcode == 0xC3 {
            Some(Instruction { name: "SET 0, E", opcode: 0xC3, cycles: 8 })
        } else if opcode == 0xC4 {
            Some(Instruction { name: "SET 0, H", opcode: 0xC4, cycles: 8 })
        } else if opcode == 0xC5 {
            Some(Instruction { name: "SET 0, L", opcode: 0xC5, cycles: 8 })
        } else if opcode == 0xC6 {
            Some(Instruction { name: "SET 0, (HL)", opcode: 0xC6, cycles: 16 })
        } else if opcode == 0xC7 {
            Some(Instruction { name: "SET 0, A", opcode: 0xC7, cycles: 8 })
        } else if opcode == 0xC8 {
            Some(Instruction { name: "SET 1, B", opcode: 0xC8, cycles: 8 })
        } else if opcode == 0xC9 {
            Some(Instruction { name: "SET 1, C", opcode: 0xC9, cycles: 8 })
        } else if opcode == 0xCA {
            Some(Instruction { name: "SET 1, D", opcode: 0xCA, cycles: 8 })
        } else if opcode == 0xCB {
            Some(Instruction { name: "SET 1, E", opcode: 0xCB, cycles: 8 })
        } else if opcode == 0xCC {
            Some(Instruction { name: "SET 1, H", opcode: 0xCC, cycles: 8 })
        } else if opcode == 0xCD {
            Some(Instruction { name: "SET 1, L", opcode: 0xCD, cycles: 8 })
        } else if opcode == 0xCE {
            Some(Instruction { name: "SET 1, (HL)", opcode: 0xCE, cycles: 16 })
        } else if opcode == 0xCF {
            Some(Instruction { name: "SET 1, A", opcode: 0xCF, cycles: 8 })
        } else if opcode == 0xD0 {
            Some(Instruction { name: "SET 2, B", opcode: 0xD0, cycles: 8 })
        } else if opcode == 0xD1 {
            Some(Instruction { name: "SET 2, C", opcode: 0xD1, cycles: 8 })
        } else if opcode == 0xD2 {
            Some(Instruction { name: "SET 2, D", opcode: 0xD2, cycles: 8 })
        } else if opcode == 0xD3 {
            Some(Instruction { name: "SET 2, E", opcode: 0xD3, cycles: 8 })
        } else if opcode == 0xD4 {
            Some(Instruction { name: "SET 2, H", opcode: 0xD4, cycles: 8 })
        } else if opcode == 0xD5 {
            Some(Instruction { name: "SET 2, L", opcode: 0xD5, cycles: 8 })
        } else if opcode == 0xD6 {
            Some(Instruction { name: "SET 2, (HL)", opcode: 0xD6, cycles: 16 })
        } else if opcode == 0xD7 {
            Some(Instruction { name: "SET 2, A", opcode: 0xD7, cycles: 8 })
        } else if opcode == 0xD8 {
            Some(Instruction { name: "SET 3, B", opcode: 0xD8, cycles: 8 })
        } else if opcode == 0xD9 {
            Some(Instruction { name: "SET 3, C", opcode: 0xD9, cycles: 8 })
        } else if opcode == 0xDA {
            Some(Instruction { name: "SET 3, D", opcode: 0xDA, cycles: 8 })
        } else if opcode == 0xDB {
            Some(Instruction { name: "SET 3, E", opcode: 0xDB, cycles: 8 })
        } else if opcode == 0xDC {
            Some(Instruction { name: "SET 3, H", opcode: 0xDC, cycles: 8 })
        } else if opcode == 0xDD {
            Some(Instruction { name: "SET 3, L", opcode: 0xDD, cycles: 8 })
        } else if opcode == 0xDE {
            Some(Instruction { name: "SET 3, (HL)", opcode: 0xDE, cycles: 16 })
        } else if opcode == 0xDF {
            Some(Instruction { name: "SET 3, A", opcode: 0xDF, cycles: 8 })
        } else if opcode == 0xE0 {
            Some(Instruction { name: "SET 4, B", opcode: 0xE0, cycles: 8 })
        } else if opcode == 0xE1 {
            Some(Instruction { name: "SET 4, C", opcode: 0xE1, cycles: 8 })
        } else if opcode == 0xE2 {
            Some(Instruction { name: "SET 4, D", opcode: 0xE2, cycles: 8 })
        } else if opcode == 0xE3 {
            Some(Instruction { name: "SET 4, E", opcode: 0xE3, cycles: 8 })
        } else if opcode == 0xE4 {
            Some(Instruction { name: "SET 4, H", opcode: 0xE4, cycles: 8 })
        } else if opcode == 0xE5 {
            Some(Instruction { name: "SET 4, L", opcode: 0xE5, cycles: 8 })
        } else if opcode == 0xE6 {
            Some(Instruction { name: "SET 4, (HL)", opcode: 0xE6, cycles: 16 })
        } else if opcode == 0xE7 {
            Some(Instruction { name: "SET 4, A", opcode: 0xE7, cycles: 8 })
        } else if opcode == 0xE8 {
            Some(Instruction { name: "SET 5, B", opcode: 0xE8, cycles: 8 })
        } else if opcode == 0xE9 {
            Some(Instruction { name: "SET 5, C", opcode: 0xE9, cycles: 8 })
        } else if opcode == 0xEA {
            Some(Instruction { name: "SET 5, D", opcode: 0xEA, cycles: 8 })
        } else if opcode == 0xEB {
            Some(Instruction { name: "SET 5, E", opcode: 0xEB, cycles: 8 })
        } else if opcode == 0xEC {
            Some(Instruction { name: "SET 5, H", opcode: 0xEC, cycles: 8 })
        } else if opcode == 0xED {
            Some(Instruction { name: "SET 5, L", opcode: 0xED, cycles: 8 })
        } else if opcode == 0xEE {
            Some(Instruction { name: "SET 5, (HL)", opcode: 0xEE, cycles: 16 })
        } else if opcode == 0xEF {
            Some(Instruction { name: "SET 5, A", opcode: 0xEF, cycles: 8 })
        } else if opcode == 0xF0 {
            Some(Instruction { name: "SET 6, B", opcode: 0xF0, cycles: 8 })
        } else if opcode == 0xF1 {
            Some(Instruction { name: "SET 6, C", opcode: 0xF1, cycles: 8 })
        } else if opcode == 0xF2 {
            Some(Instruction { name: "SET 6, D", opcode: 0xF2, cycles: 8 })
        } else if opcode == 0xF3 {
            Some(Instruction { name: "SET 6, E", opcode: 0xF3, cycles: 8 })
        } else if opcode == 0xF4 {
            Some(Instruction { name: "SET 6, H", opcode: 0xF4, cycles: 8 })
        } else if opcode == 0xF5 {
            Some(Instruction { name: "SET 6, L", opcode: 0xF5, cycles: 8 })
        } else if opcode == 0xF6 {
            Some(Instruction { name: "SET 6, (HL)", opcode: 0xF6, cycles: 16 })
        } else if opcode == 0xF7 {
            Some(Instruction { name: "SET 6, A", opcode: 0xF7, cycles: 8 })
        } else if opcode == 0xF8 {
            Some(Instruction { name: "SET 7, B", opcode: 0xF8, cycles: 8 })
        } else if opcode == 0xF9 {
            Some(Instruction { name: "SET 7, C", opcode: 0xF9, cycles: 8 })
        } else if opcode == 0xFA {
            Some(Instruction { name: "SET 7, D", opcode: 0xFA, cycles: 8 })
        } else if opcode == 0xFB {
            Some(Instruction { name: "SET 7, E", opcode: 0xFB, cycles: 8 })
        } else if opcode == 0xFC {
            Some(Instruction { name: "SET 7, H", opcode: 0xFC, cycles: 8 })
        } else if opcode == 0xFD {
            Some(Instruction { name: "SET 7, L", opcode: 0xFD, cycles: 8 })
        } else if opcode == 0xFE {
            Some(Instruction { name: "SET 7, (HL)", opcode: 0xFE, cycles: 16 })
        } else if opcode == 0xFF {
            Some(Instruction { name: "SET 7, A", opcode: 0xFF, cycles: 8 })
        } else {
            None
        }
    }

    /// Metadata of the instruction `opcode` begins; for the 0xCB prefix
    /// the second byte is fetched and the CB page consulted.
    pub fn decode(&mut self, opcode: u8) -> (r: Option<Instruction>)
        requires
            old(self).wf(),
        ensures
            final(self).wf(),
            opcode != 0xCB ==> *final(self) == *old(self),
            opcode == 0xCB ==> final(self)@ == old(self)@.fetched().0,
            r is Some <==> known_opcode(opcode),
            opcode != 0xCB && r is Some ==> r->Some_0.opcode == opcode && r->Some_0.cycles
                == spec_cycles(opcode) && r->Some_0.name@ == spec_mnemonic(opcode),
            opcode == 0xCB ==> r is Some && r->Some_0.opcode == old(self)@.fetched().1
                && r->Some_0.cycles == spec_cb_cycles(old(self)@.fetched().1) && r->Some_0.name@
                == spec_cb_mnemonic(old(self)@.fetched().1),
    {
        if opcode == 0xCB {
            let opcode_cb = self.fetch();
            Cpu::decode_cb(opcode_cb)
        } else {
            Cpu::decode_table(opcode)
        }
    }
}

} // verus!

verus! {

/// The character of a decimal digit.
pub open spec fn spec_dec_char(d: u8) -> char {
    if d == 0 {
        '0'
    } else if d == 1 {
        '1'
    } else if d == 2 {
        '2'
    } else if d == 3 {
        '3'
    } else if d == 4 {
        '4'
    } else if d == 5 {
        '5'
    } else if d == 6 {
        '6'
    } else if d == 7 {
        '7'
    } else if d == 8 {
        '8'
    } else {
        '9'
    }
}

/// The lowercase character of a hex digit.
pub open spec fn spec_hex_char(d: u8) -> char {
    if d < 10 {
        spec_dec_char(d)
    } else if d == 10 {
        'a'
    } else if d == 11 {
        'b'
    } else if d == 12 {
        'c'
    } else if d == 13 {
        'd'
    } else if d == 14 {
        'e'
    } else {
        'f'
    }
}

/// A byte's decimal digits, no leading zeros.
pub open spec fn spec_dec_of(v: u8) -> Seq<char> {
    if v >= 100 {
        seq![spec_dec_char(v / 100), spec_dec_char((v / 10) % 10), spec_dec_char(v % 10)]
    } else if v >= 10 {
        seq![spec_dec_char(v / 10), spec_dec_char(v % 10)]
    } else {
        seq![spec_dec_char(v)]
    }
}

/// A byte's two lowercase hex digits.
pub open spec fn spec_hex_of(v: u8) -> Seq<char> {
    seq![spec_hex_char(v >> 4), spec_hex_char(v & 0x0F)]
}

/// A decimal digit rendered as text.
fn dec_str(d: u8) -> (r: &'static str)
    requires
        d < 10,
    ensures
        r@ =~= seq![spec_dec_char(d)],
{
    proof {
        reveal_strlit("0");
        reveal_strlit("1");
        reveal_strlit("2");
        reveal_strlit("3");
        reveal_strlit("4");
        reveal_strlit("5");
        reveal_strlit("6");
        reveal_strlit("7");
        reveal_strlit("8");
        reveal_strlit("9");
    }
    if d == 0 {
        "0"
    } else if d == 1 {
        "1"
    } else if d == 2 {
        "2"
    } else if d == 3 {
        "3"
    } else if d == 4 {
        "4"
    } else if d == 5 {
        "5"
    } else if d == 6 {
        "6"
    } else if d == 7 {
        "7"
    } else if d == 8 {
        "8"
    } else {
        "9"
    }
}

/// A hex digit rendered as lowercase text.
fn hex_str(d: u8) -> (r: &'static str)
    requires
        d < 16,
    ensures
        r@ =~= seq![spec_hex_char(d)],
{
    proof {
        reveal_strlit("a");
        reveal_strlit("b");
        reveal_strlit("c");
        reveal_strlit("d");
        reveal_strlit("e");
        reveal_strlit("f");
    }
    if d < 10 {
        dec_str(d)
    } else if d == 10 {
        "a"
    } else if d == 11 {
        "b"
    } else if d == 12 {
        "c"
    } else if d == 13 {
        "d"
    } else if d == 14 {
        "e"
    } else {
        "f"
    }
}

impl Instruction {
    /// The line this instruction prints as.
    pub open spec fn describe(self) -> Seq<char> {
        "Instruction { name='"@ + self.name@ + "', cycles="@ + spec_dec_of(self.cycles)
            + ", opcode=0x"@ + spec_hex_of(self.opcode) + " }"@
    }

    /// Render the instruction exactly as `describe` states.
    pub fn to_string(&self) -> (r: String)
        ensures
            r@ == self.describe(),
    {
        let mut s = String::from_str("Instruction { name='");
        s.append(self.name);
        s.append("', cycles=");
        if self.cycles >= 100 {
            s.append(dec_str(self.cycles / 100));
            s.append(dec_str((self.cycles / 10) % 10));
            s.append(dec_str(self.cycles % 10));
        } else if self.cycles >= 10 {
            s.append(dec_str(self.cycles / 10));
            s.append(dec_str(self.cycles % 10));
        } else {
            s.append(dec_str(self.cycles));
        }
        s.append(", opcode=0x");
        let op = self.opcode;
        proof {
            assert((op >> 4) < 16 && (op & 0x0F) < 16) by (bit_vector);
        }
        s.append(hex_str(op >> 4));
        s.append(hex_str(op & 0x0F));
        s.append(" }");
        proof {
            assert(s@ =~= self.describe());
        }
        s
    }
}

} // verus!

verus! {

/// Assembling a flag byte keeps the low nibble of `f`, and each of the
/// four flag bits reads back exactly as assembled.
proof fn lemma_flag_bits(f: u8, zz: u8, nn: u8, hh: u8, cc: u8)
    by (bit_vector)
    requires
        zz == 0 || zz == 0x80,
        nn == 0 || nn == 0x40,
        hh == 0 || hh == 0x20,
        cc == 0 || cc == 0x10,
    ensures
        ((f & 0x0F) | (zz | nn | hh | cc)) & 0x80 == zz,
        ((f & 0x0F) | (zz | nn | hh | cc)) & 0x40 == nn,
        ((f & 0x0F) | (zz | nn | hh | cc)) & 0x20 == hh,
        ((f & 0x0F) | (zz | nn | hh | cc)) & 0x10 == cc,
{
}

/// The flag byte `flags_of` builds, read back bit by bit.
proof fn lemma_flags_of_bits(f: u8, z: bool, n: bool, h: bool, c: bool)
    ensures
        ((f & 0x0F) | flags_of(z, n, h, c)) & 0x80 == (if z {
            0x80u8
        } else {
            0u8
        }),
        ((f & 0x0F) | flags_of(z, n, h, c)) & 0x40 == (if n {
            0x40u8
        } else {
            0u8
        }),
        ((f & 0x0F) | flags_of(z, n, h, c)) & 0x20 == (if h {
            0x20u8
        } else {
            0u8
        }),
        ((f & 0x0F) | flags_of(z, n, h, c)) & 0x10 == (if c {
            0x10u8
        } else {
            0u8
        }),
{
    lemma_flag_bits(
        f,
        if z {
            0x80
        } else {
            0
        },
        if n {
            0x40
        } else {
            0
        },
        if h {
            0x20
        } else {
            0
        },
        if c {
            0x10
        } else {
            0
        },
    );
}

/// XOR A,A clears the accumulator and every flag but Z: executing opcode
/// 0xAF from any state zeroes A, sets Z, and clears N, H and C.
#[verifier::rlimit(100)]
#[verifier::spinoff_prover]
pub proof fn lemma_xor_a_clears(cv: CpuView)
    ensures
        ({
            let v = cv.op_stepped(0xAF)->Some_0;
            v.a == 0 && v.f & 0x80 == 0x80 && v.f & 0x40 == 0 && v.f & 0x20 == 0 && v.f & 0x10
                == 0
        }),
{
    assert((0xAFu8 >> 3) & 0x07 == 5 && 0xAFu8 & 0x07 == 7) by (bit_vector);
    // the arithmetic page handles 0xAF directly
    assert(cv.a ^ cv.a == 0) by (bit_vector);
    assert(cv.op_stepped(0xAF)->Some_0 == cv.alu_applied(5, cv.a));
    lemma_flags_of_bits(cv.f, true, false, false, false);
}

/// ADD into the accumulator followed by CP against the value it now
/// holds keeps the accumulator and sets Z and N: from a cleared
/// accumulator, the ALU rows 0xC6 and 0xFE execute leave A holding the
/// immediate and the comparison equal, for every immediate and flag
/// state.
pub proof fn lemma_add_then_cp(cv: CpuView, n: u8)
    requires
        cv.a == 0,
    ensures
        ({
            let v1 = cv.alu_applied(0, n);
            let v2 = v1.alu_applied(7, n);
            v1.a == n && v2.a == n && v2.f & 0x80 == 0x80 && v2.f & 0x40 == 0x40
        }),
{
    let v1 = cv.alu_applied(0, n);
    assert(v1.a == n);
    let v2 = v1.alu_applied(7, n);
    assert(v2.f == alu_cp(n, n, v1.f));
    lemma_flags_of_bits(v1.f, true, true, (n & 0x0F) < (n & 0x0F), n < n);
}

/// The two cells a 16-bit push touches are distinct stored bytes.
proof fn lemma_stack_cells_distinct(a1: usize, a2: usize)
    requires
        crate::bus::ram_cell(a1),
        crate::bus::ram_cell(a2),
        a2 + 1 == a1,
    ensures
        !crate::bus::same_cell(a2, a1),
{
}

/// Pushing a 16-bit value and popping it back returns the value and
/// leaves SP where it began, provided the two stack cells live in the
/// plain byte stores.
pub proof fn lemma_push_pop_roundtrip(cv: CpuView, v: u16)
    requires
        cv.wf(),
        crate::bus::ram_cell((((cv.sp - 1) % 0x10000) as u16) as usize),
        crate::bus::ram_cell((((cv.sp - 2) % 0x10000) as u16) as usize),
    ensures
        ({
            let (w, r) = cv.pushed16(v).popped16();
            r == v && w.sp == cv.sp
        }),
{
    let hi = (v / 0x100) as u8;
    let lo = (v % 0x100) as u8;
    let s1 = (((cv.sp - 1) % 0x10000) as u16) as usize;
    let s2 = (((cv.sp - 2) % 0x10000) as u16) as usize;
    let p1 = cv.pushed(hi);
    let p2 = p1.pushed(lo);
    assert(p1.sp == s1 as u16 && p2.sp == s2 as u16);
    assert(s2 + 1 == s1);
    lemma_stack_cells_distinct(s1, s2);
    crate::bus::lemma_written8_wf(cv.bus, s1, hi);
    crate::bus::lemma_read_after_write(cv.bus, s1, s1, hi);
    crate::bus::lemma_read_after_write(p1.bus, s2, s2, lo);
    crate::bus::lemma_read_after_write(p1.bus, s2, s1, lo);
    let (q1, rlo) = p2.popped();
    let (q2, rhi) = q1.popped();
    assert(rlo == lo);
    assert(rhi == hi);
    assert(rhi * 0x100 + rlo == v);
}

/// PUSH rr then POP rr restores the pair and SP: executing opcode 0xC5
/// (PUSH BC) and then 0xC1 (POP BC) leaves BC and SP as they were,
/// provided the two stack cells live in the plain byte stores.
pub proof fn lemma_push_then_pop(cv: CpuView)
    requires
        cv.wf(),
        crate::bus::ram_cell((((cv.sp - 1) % 0x10000) as u16) as usize),
        crate::bus::ram_cell((((cv.sp - 2) % 0x10000) as u16) as usize),
    ensures
        ({
            let v2 = cv.op_stepped(0xC5)->Some_0.op_stepped(0xC1)->Some_0;
            v2.bc() == cv.bc() && v2.sp == cv.sp
        }),
{
    reveal(CpuView::hi_stepped_ca);
    lemma_push_pop_roundtrip(cv, cv.bc());
    let v1 = cv.op_stepped(0xC5)->Some_0;
    let (w, r) = v1.popped16();
    assert(r == cv.bc() && w.sp == cv.sp);
    let v2 = v1.op_stepped(0xC1)->Some_0;
    assert(v2 == w.with_bc(r));
    assert(cv.b * 0x100 + cv.c < 0x10000);
    assert(v2.b == cv.b && v2.c == cv.c);
}

/// What executing opcode 0xCD (CALL nn) is, by definition.
proof fn lemma_step_call(cv: CpuView)
    ensures
        cv.op_stepped(0xCD) == Some(
            CpuView { pc: cv.fetched16().1, ..cv.fetched16().0.pushed16(cv.fetched16().0.pc) },
        ),
{
    reveal(CpuView::hi_stepped_cb);
}

/// What executing opcode 0xC9 (RET) is, by definition.
proof fn lemma_step_ret(cv: CpuView)
    ensures
        cv.op_stepped(0xC9) == Some(CpuView { pc: cv.popped16().1, ..cv.popped16().0 }),
{
    reveal(CpuView::hi_stepped_cb);
}

/// After RET following a matching CALL, SP and PC are back where they
/// were: executing opcode 0xCD (CALL nn) from the state just after its
/// opcode fetch, then opcode 0xC9 (RET), restores SP and resumes at the
/// instruction after the operand, provided the two stack cells live in
/// the plain byte stores.
#[verifier::rlimit(100)]
#[verifier::spinoff_prover]
pub proof fn lemma_call_then_ret(cv: CpuView)
    requires
        cv.wf(),
        crate::bus::ram_cell((((cv.sp - 1) % 0x10000) as u16) as usize),
        crate::bus::ram_cell((((cv.sp - 2) % 0x10000) as u16) as usize),
    ensures
        ({
            let v2 = cv.op_stepped(0xCD)->Some_0.op_stepped(0xC9)->Some_0;
            v2.sp == cv.sp && v2.pc == ((cv.pc + 2) % 0x10000) as u16
        }),
{
    let (v1, nn) = cv.fetched16();
    assert(v1.sp == cv.sp && v1.bus == cv.bus);
    lemma_push_pop_roundtrip(v1, v1.pc);
    let pushed = v1.pushed16(v1.pc);
    lemma_step_call(cv);
    let called = cv.op_stepped(0xCD)->Some_0;
    assert(called.sp == pushed.sp && called.bus == pushed.bus);
    let (w, r) = pushed.popped16();
    lemma_step_ret(called);
    let v2 = called.op_stepped(0xC9)->Some_0;
    assert(v2.sp == called.popped16().0.sp && v2.pc == called.popped16().1);
    assert(called.popped16().1 == r && called.popped16().0.sp == w.sp);
    assert(v1.pc == ((cv.pc + 2) % 0x10000) as u16);
}

} // verus!


verus! {

/// Machine cycles of each primary-page opcode.
pub open spec fn spec_cycles(op: u8) -> u8 {
    if op == 0x00 {
        4u8
    } else if op == 0x01 {
        12u8
    } else if op == 0x02 {
        8u8
    } else if op == 0x03 {
        8u8
    } else if op == 0x04 {
        4u8
    } else if op == 0x05 {
        4u8
    } else if op == 0x06 {
        8u8
    } else if op == 0x07 {
        4u8
    } else if op == 0x08 {
        20u8
    } else if op == 0x09 {
        8u8
    } else if op == 0x0A {
        8u8
    } else if op == 0x0B {
        8u8
    } else if op == 0x0C {
        4u8
    } else if op == 0x0D {
        4u8
    } else if op == 0x0E {
        8u8
    } else if op == 0x0F {
        4u8
    } else if op == 0x10 {
        4u8
    } else if op == 0x11 {
        12u8
    } else if op == 0x12 {
        8u8
    } else if op == 0x13 {
        8u8
    } else if op == 0x14 {
        4u8
    } else if op == 0x15 {
        4u8
    } else if op == 0x16 {
        8u8
    } else if op == 0x17 {
        4u8
    } else if op == 0x18 {
        8u8
    } else if op == 0x19 {
        8u8
    } else if op == 0x1A {
        8u8
    } else if op == 0x1B {
        8u8
    } else if op == 0x1C {
        4u8
    } else if op == 0x1D {
        4u8
    } else if op == 0x1E {
        8u8
    } else if op == 0x1F {
        4u8
    } else if op == 0x20 {
        8u8
    } else if op == 0x21 {
        12u8
    } else if op == 0x22 {
        8u8
    } else if op == 0x23 {
        8u8
    } else if op == 0x24 {
        4u8
    } else if op == 0x25 {
        4u8
    } else if op == 0x26 {
        8u8
    } else if op == 0x27 {
        4u8
    } else if op == 0x28 {
        8u8
    } else if op == 0x29 {
        8u8
    } else if op == 0x2A {
        8u8
    } else if op == 0x2B {
        8u8
    } else if op == 0x2C {
        4u8
    } else if op == 0x2D {
        4u8
    } else if op == 0x2E {
        8u8
    } else if op == 0x2F {
        4u8
    } else if op == 0x30 {
        8u8
    } else if op == 0x31 {
        12u8
    } else if op == 0x32 {
        8u8
    } else if op == 0x33 {
        8u8
    } else if op == 0x34 {
        12u8
    } else if op == 0x35 {
        12u8
    } else if op == 0x36 {
        12u8
    } else if op == 0x37 {
        4u8
    } else if op == 0x38 {
        8u8
    } else if op == 0x39 {
        8u8
    } else if op == 0x3A {
        8u8
    } else if op == 0x3B {
        8u8
    } else if op == 0x3C {
        4u8
    } else if op == 0x3D {
        4u8
    } else if op == 0x3E {
        8u8
    } else if op == 0x3F {
        4u8
    } else if op == 0x40 {
        4u8
    } else if op == 0x41 {
        4u8
    } else if op == 0x42 {
        4u8
    } else if op == 0x43 {
        4u8
    } else if op == 0x44 {
        4u8
    } else if op == 0x45 {
        4u8
    } else if op == 0x46 {
        8u8
    } else if op == 0x47 {
        4u8
    } else if op == 0x48 {
        4u8
    } else if op == 0x49 {
        4u8
    } else if op == 0x4A {
        4u8
    } else if op == 0x4B {
        4u8
    } else if op == 0x4C {
        4u8
    } else if op == 0x4D {
        4u8
    } else if op == 0x4E {
        8u8
    } else if op == 0x4F {
        4u8
    } else if op == 0x50 {
        4u8
    } else if op == 0x51 {
        4u8
    } else if op == 0x52 {
        4u8
    } else if op == 0x53 {
        4u8
    } else if op == 0x54 {
        4u8
    } else if op == 0x55 {
        4u8
    } else if op == 0x56 {
        8u8
    } else if op == 0x57 {
        4u8
    } else if op == 0x58 {
        4u8
    } else if op == 0x59 {
        4u8
    } else if op == 0x5A {
        4u8
    } else if op == 0x5B {
        4u8
    } else if op == 0x5C {
        4u8
    } else if op == 0x5D {
        4u8
    } else if op == 0x5E {
        8u8
    } else if op == 0x5F {
        4u8
    } else if op == 0x60 {
        4u8
    } else if op == 0x61 {
        4u8
    } else if op == 0x62 {
        4u8
    } else if op == 0x63 {
        4u8
    } else if op == 0x64 {
        4u8
    } else if op == 0x65 {
        4u8
    } else if op == 0x66 {
        8u8
    } else if op == 0x67 {
        4u8
    } else if op == 0x68 {
        4u8
    } else if op == 0x69 {
        4u8
    } else if op == 0x6A {
        4u8
    } else if op == 0x6B {
        4u8
    } else if op == 0x6C {
        4u8
    } else if op == 0x6D {
        4u8
    } else if op == 0x6E {
        8u8
    } else if op == 0x6F {
        4u8
    } else if op == 0x70 {
        4u8
    } else if op == 0x71 {
        4u8
    } else if op == 0x72 {
        4u8
    } else if op == 0x73 {
        4u8
    } else if op == 0x74 {
        4u8
    } else if op == 0x75 {
        4u8
    } else if op == 0x76 {
        4u8
    } else if op == 0x77 {
        8u8
    } else if op == 0x78 {
        4u8
    } else if op == 0x79 {
        4u8
    } else if op == 0x7A {
        4u8
    } else if op == 0x7B {
        4u8
    } else if op == 0x7C {
        4u8
    } else if op == 0x7D {
        4u8
    } else if op == 0x7E {
        8u8
    } else if op == 0x7F {
        4u8
    } else if op == 0x80 {
        4u8
    } else if op == 0x81 {
        4u8
    } else if op == 0x82 {
        4u8
    } else if op == 0x83 {
        4u8
    } else if op == 0x84 {
        4u8
    } else if op == 0x85 {
        4u8
    } else if op == 0x86 {
        8u8
    } else if op == 0x87 {
        4u8
    } else if op == 0x88 {
        4u8
    } else if op == 0x89 {
        4u8
    } else if op == 0x8A {
        4u8
    } else if op == 0x8B {
        4u8
    } else if op == 0x8C {
        4u8
    } else if op == 0x8D {
        4u8
    } else if op == 0x8E {
        4u8
    } else if op == 0x8F {
        4u8
    } else if op == 0x90 {
        4u8
    } else if op == 0x91 {
        4u8
    } else if op == 0x92 {
        4u8
    } else if op == 0x93 {
        4u8
    } else if op == 0x94 {
        4u8
    } else if op == 0x95 {
        4u8
    } else if op == 0x96 {
        8u8
    } else if op == 0x97 {
        4u8
    } else if op == 0x98 {
        4u8
    } else if op == 0x99 {
        4u8
    } else if op == 0x9A {
        4u8
    } else if op == 0x9B {
        4u8
    } else if op == 0x9C {
        4u8
    } else if op == 0x9D {
        4u8
    } else if op == 0x9E {
        8u8
    } else if op == 0x9F {
        4u8
    } else if op == 0xA0 {
        4u8
    } else if op == 0xA1 {
        4u8
    } else if op == 0xA2 {
        4u8
    } else if op == 0xA3 {
        4u8
    } else if op == 0xA4 {
        4u8
    } else if op == 0xA5 {
        4u8
    } else if op == 0xA6 {
        8u8
    } else if op == 0xA7 {
        4u8
    } else if op == 0xA8 {
        4u8
    } else if op == 0xA9 {
        4u8
    } else if op == 0xAA {
        4u8
    } else if op == 0xAB {
        4u8
    } else if op == 0xAC {
        4u8
    } else if op == 0xAD {
        4u8
    } else if op == 0xAE {
        8u8
    } else if op == 0xAF {
        4u8
    } else if op == 0xB0 {
        4u8
    } else if op == 0xB1 {
        4u8
    } else if op == 0xB2 {
        4u8
    } else if op == 0xB3 {
        4u8
    } else if op == 0xB4 {
        4u8
    } else if op == 0xB5 {
        4u8
    } else if op == 0xB6 {
        8u8
    } else if op == 0xB7 {
        4u8
    } else if op == 0xB8 {
        4u8
    } else if op == 0xB9 {
        4u8
    } else if op == 0xBA {
        4u8
    } else if op == 0xBB {
        4u8
    } else if op == 0xBC {
        4u8
    } else if op == 0xBD {
        4u8
    } else if op == 0xBE {
        8u8
    } else if op == 0xBF {
        4u8
    } else if op == 0xC0 {
        8u8
    } else if op == 0xC1 {
        12u8
    } else if op == 0xC2 {
        12u8
    } else if op == 0xC3 {
        12u8
    } else if op == 0xC4 {
        12u8
    } else if op == 0xC5 {
        16u8
    } else if op == 0xC6 {
        8u8
    } else if op == 0xC7 {
        32u8
    } else if op == 0xC8 {
        8u8
    } else if op == 0xC9 {
        8u8
    } else if op == 0xCA {
        12u8
    } else if op == 0xCC {
        12u8
    } else if op == 0xCD {
        12u8
    } else if op == 0xCE {
        8u8
    } else if op == 0xCF {
        32u8
    } else if op == 0xD0 {
        8u8
    } else if op == 0xD1 {
        12u8
    } else if op == 0xD2 {
        12u8
    } else if op == 0xD4 {
        12u8
    } else if op == 0xD5 {
        16u8
    } else if op == 0xD6 {
        8u8
    } else if op == 0xD7 {
        32u8
    } else if op == 0xD8 {
        8u8
    } else if op == 0xD9 {
        8u8
    } else if op == 0xDA {
        12u8
    } else if op == 0xDC {
        12u8
    } else if op == 0xDE {
        8u8
    } else if op == 0xDF {
        32u8
    } else if op == 0xE0 {
        12u8
    } else if op == 0xE1 {
        12u8
    } else if op == 0xE2 {
        8u8
    } else if op == 0xE5 {
        16u8
    } else if op == 0xE6 {
        8u8
    } else if op == 0xE7 {
        32u8
    } else if op == 0xE8 {
        16u8
    } else if op == 0xE9 {
        4u8
    } else if op == 0xEA {
        16u8
    } else if op == 0xEE {
        8u8
    } else if op == 0xEF {
        32u8
    } else if op == 0xF0 {
        12u8
    } else if op == 0xF1 {
        12u8
    } else if op == 0xF2 {
        8u8
    } else if op == 0xF3 {
        4u8
    } else if op == 0xF5 {
        16u8
    } else if op == 0xF6 {
        8u8
    } else if op == 0xF7 {
        32u8
    } else if op == 0xF8 {
        12u8
    } else if op == 0xF9 {
        8u8
    } else if op == 0xFA {
        16u8
    } else if op == 0xFB {
        4u8
    } else if op == 0xFE {
        8u8
    } else if op == 0xFF {
        32u8
    } else {
        0u8
    }
}

/// Mnemonic of each primary-page opcode.
pub open spec fn spec_mnemonic(op: u8) -> Seq<char> {
    if op == 0x00 {
        "NOP"@
    } else if op == 0x01 {
        "LD BC, nn"@
    } else if op == 0x02 {
        "LD (BC), A"@
    } else if op == 0x03 {
        "INC BC"@
    } else if op == 0x04 {
        "INC B"@
    } else if op == 0x05 {
        "DEC B"@
    } else if op == 0x06 {
        "LD B, n"@
    } else if op == 0x07 {
        "RLCA"@
    } else if op == 0x08 {
        "LD (nn), SP"@
    } else if op == 0x09 {
        "ADD HL, BC"@
    } else if op == 0x0A {
        "LD A, (BC)"@
    } else if op == 0x0B {
        "DEC BC"@
    } else if op == 0x0C {
        "INC C"@
    } else if op == 0x0D {
        "DEC C"@
    } else if op == 0x0E {
        "LD C, n"@
    } else if op == 0x0F {
        "RRCA"@
    } else if op == 0x10 {
        "STOP"@
    } else if op == 0x11 {
        "LD DE, nn"@
    } else if op == 0x12 {
        "LD (DE), A"@
    } else if op == 0x13 {
        "INC DE"@
    } else if op == 0x14 {
        "INC D"@
    } else if op == 0x15 {
        "DEC D"@
    } else if op == 0x16 {
        "LD D, n"@
    } else if op == 0x17 {
        "RLA"@
    } else if op == 0x18 {
        "JR e"@
    } else if op == 0x19 {
        "ADD HL, DE"@
    } else if op == 0x1A {
        "LD A, (DE)"@
    } else if op == 0x1B {
        "DEC DE"@
    } else if op == 0x1C {
        "INC E"@
    } else if op == 0x1D {
        "DEC E"@
    } else if op == 0x1E {
        "LD E, n"@
    } else if op == 0x1F {
        "RRA"@
    } else if op == 0x20 {
        "JR NZ, e"@
    } else if op == 0x21 {
        "LD HL, nn"@
    } else if op == 0x22 {
        "LDI (HL), A"@
    } else if op == 0x23 {
        "INC HL"@
    } else if op == 0x24 {
        "INC H"@
    } else if op == 0x25 {
        "DEC H"@
    } else if op == 0x26 {
        "LD H, n"@
    } else if op == 0x27 {
        "DAA"@
    } else if op == 0x28 {
        "JR Z, e"@
    } else if op == 0x29 {
        "ADD HL, HL"@
    } else if op == 0x2A {
        "LDI A, (HL)"@
    } else if op == 0x2B {
        "DEC HL"@
    } else if op == 0x2C {
        "INC L"@
    } else if op == 0x2D {
        "DEC L"@
    } else if op == 0x2E {
        "LD L, n"@
    } else if op == 0x2F {
        "CPL"@
    } else if op == 0x30 {
        "JR NC, e"@
    } else if op == 0x31 {
        "LD SP, nn"@
    } else if op == 0x32 {
        "LDD (HL), A"@
    } else if op == 0x33 {
        "INC SP"@
    } else if op == 0x34 {
        "INC (HL)"@
    } else if op == 0x35 {
        "DEC (HL)"@
    } else if op == 0x36 {
        "LD (HL), n"@
    } else if op == 0x37 {
        "SCF"@
    } else if op == 0x38 {
        "JR C, e"@
    } else if op == 0x39 {
        "ADD HL, SP"@
    } else if op == 0x3A {
        "LDD A, (HL)"@
    } else if op == 0x3B {
        "DEC SP"@
    } else if op == 0x3C {
        "INC A"@
    } else if op == 0x3D {
        "DEC A"@
    } else if op == 0x3E {
        "LD A, #"@
    } else if op == 0x3F {
        "CCF"@
    } else if op == 0x40 {
        "LD B, B"@
    } else if op == 0x41 {
        "LD B, C"@
    } else if op == 0x42 {
        "LD B, D"@
    } else if op == 0x43 {
        "LD B, E"@
    } else if op == 0x44 {
        "LD B, H"@
    } else if op == 0x45 {
        "LD B, L"@
    } else if op == 0x46 {
        "LD B, (HL)"@
    } else if op == 0x47 {
        "LD B, A"@
    } else if op == 0x48 {
        "LD C, B"@
    } else if op == 0x49 {
        "LD C, C"@
    } else if op == 0x4A {
        "LD C, D"@
    } else if op == 0x4B {
        "LD C, E"@
    } else if op == 0x4C {
        "LD C, H"@
    } else if op == 0x4D {
        "LD C, L"@
    } else if op == 0x4E {
        "LD C, (HL)"@
    } else if op == 0x4F {
        "LD C, A"@
    } else if op == 0x50 {
        "LD D, B"@
    } else if op == 0x51 {
        "LD D, C"@
    } else if op == 0x52 {
        "LD D, D"@
    } else if op == 0x53 {
        "LD D, E"@
    } else if op == 0x54 {
        "LD D, H"@
    } else if op == 0x55 {
        "LD D, L"@
    } else if op == 0x56 {
        "LD D, (HL)"@
    } else if op == 0x57 {
        "LD D, A"@
    } else if op == 0x58 {
        "LD E, B"@
    } else if op == 0x59 {
        "LD E, C"@
    } else if op == 0x5A {
        "LD E, D"@
    } else if op == 0x5B {
        "LD E, E"@
    } else if op == 0x5C {
        "LD E, H"@
    } else if op == 0x5D {
        "LD E, L"@
    } else if op == 0x5E {
        "LD E, (HL)"@
    } else if op == 0x5F {
        "LD E, A"@
    } else if op == 0x60 {
        "LD H, B"@
    } else if op == 0x61 {
        "LD H, C"@
    } else if op == 0x62 {
        "LD H, D"@
    } else if op == 0x63 {
        "LD H, E"@
    } else if op == 0x64 {
        "LD H, H"@
    } else if op == 0x65 {
        "LD H, L"@
    } else if op == 0x66 {
        "LD H, (HL)"@
    } else if op == 0x67 {
        "LD H, A"@
    } else if op == 0x68 {
        "LD L, B"@
    } else if op == 0x69 {
        "LD L, C"@
    } else if op == 0x6A {
        "LD L, D"@
    } else if op == 0x6B {
        "LD L, E"@
    } else if op == 0x6C {
        "LD L, H"@
    } else if op == 0x6D {
        "LD L, L"@
    } else if op == 0x6E {
        "LD L, (HL)"@
    } else if op == 0x6F {
        "LD L, A"@
    } else if op == 0x70 {
        "LD (HL), B"@
    } else if op == 0x71 {
        "LD (HL), C"@
    } else if op == 0x72 {
        "LD (HL), D"@
    } else if op == 0x73 {
        "LD (HL), E"@
    } else if op == 0x74 {
        "LD (HL), H"@
    } else if op == 0x75 {
        "LD (HL), L"@
    } else if op == 0x76 {
        "HALT"@
    } else if op == 0x77 {
        "LD (HL), A"@
    } else if op == 0x78 {
        "LD A, B"@
    } else if op == 0x79 {
        "LD A, C"@
    } else if op == 0x7A {
        "LD A, D"@
    } else if op == 0x7B {
        "LD A, E"@
    } else if op == 0x7C {
        "LD A, H"@
    } else if op == 0x7D {
        "LD A, L"@
    } else if op == 0x7E {
        "LD A, (HL)"@
    } else if op == 0x7F {
        "LD A, A"@
    } else if op == 0x80 {
        "ADD A, B"@
    } else if op == 0x81 {
        "ADD A, C"@
    } else if op == 0x82 {
        "ADD A, D"@
    } else if op == 0x83 {
        "ADD A, E"@
    } else if op == 0x84 {
        "ADD A, H"@
    } else if op == 0x85 {
        "ADD A, L"@
    } else if op == 0x86 {
        "ADD A, (HL)"@
    } else if op == 0x87 {
        "ADD A, A"@
    } else if op == 0x88 {
        "ADC A, B"@
    } else if op == 0x89 {
        "ADC A, C"@
    } else if op == 0x8A {
        "ADC A, D"@
    } else if op == 0x8B {
        "ADC A, E"@
    } else if op == 0x8C {
        "ADC A, H"@
    } else if op == 0x8D {
        "ADC A, L"@
    } else if op == 0x8E {
        "ADC A, (HL)"@
    } else if op == 0x8F {
        "ADC A, A"@
    } else if op == 0x90 {
        "SUB A, B"@
    } else if op == 0x91 {
        "SUB A, C"@
    } else if op == 0x92 {
        "SUB A, D"@
    } else if op == 0x93 {
        "SUB A, E"@
    } else if op == 0x94 {
        "SUB A, H"@
    } else if op == 0x95 {
        "SUB A, L"@
    } else if op == 0x96 {
        "SUB A, (HL)"@
    } else if op == 0x97 {
        "SUB A, A"@
    } else if op == 0x98 {
        "SBC A, B"@
    } else if op == 0x99 {
        "SBC A, C"@
    } else if op == 0x9A {
        "SBC A, D"@
    } else if op == 0x9B {
        "SBC A, E"@
    } else if op == 0x9C {
        "SBC A, H"@
    } else if op == 0x9D {
        "SBC A, L"@
    } else if op == 0x9E {
        "SBC A, (HL)"@
    } else if op == 0x9F {
        "SBC A, A"@
    } else if op == 0xA0 {
        "AND A, B"@
    } else if op == 0xA1 {
        "AND A, C"@
    } else if op == 0xA2 {
        "AND A, D"@
    } else if op == 0xA3 {
        "AND A, E"@
    } else if op == 0xA4 {
        "AND A, H"@
    } else if op == 0xA5 {
        "AND A, L"@
    } else if op == 0xA6 {
        "AND A, (HL)"@
    } else if op == 0xA7 {
        "AND A, A"@
    } else if op == 0xA8 {
        "XOR A, B"@
    } else if op == 0xA9 {
        "XOR A, C"@
    } else if op == 0xAA {
        "XOR A, D"@
    } else if op == 0xAB {
        "XOR A, E"@
    } else if op == 0xAC {
        "XOR A, H"@
    } else if op == 0xAD {
        "XOR A, L"@
    } else if op == 0xAE {
        "XOR A, (HL)"@
    } else if op == 0xAF {
        "XOR A, A"@
    } else if op == 0xB0 {
        "OR A, B"@
    } else if op == 0xB1 {
        "OR A, C"@
    } else if op == 0xB2 {
        "OR A, D"@
    } else if op == 0xB3 {
        "OR A, E"@
    } else if op == 0xB4 {
        "OR A, H"@
    } else if op == 0xB5 {
        "OR A, L"@
    } else if op == 0xB6 {
        "OR A, (HL)"@
    } else if op == 0xB7 {
        "OR A, A"@
    } else if op == 0xB8 {
        "CP A, B"@
    } else if op == 0xB9 {
        "CP A, C"@
    } else if op == 0xBA {
        "CP A, D"@
    } else if op == 0xBB {
        "CP A, E"@
    } else if op == 0xBC {
        "CP A, H"@
    } else if op == 0xBD {
        "CP A, L"@
    } else if op == 0xBE {
        "CP A, (HL)"@
    } else if op == 0xBF {
        "CP A, A"@
    } else if op == 0xC0 {
        "RET NZ"@
    } else if op == 0xC1 {
        "POP BC"@
    } else if op == 0xC2 {
        "JP NZ, nn"@
    } else if op == 0xC3 {
        "JP nn"@
    } else if op == 0xC4 {
        "CALL NZ, nn"@
    } else if op == 0xC5 {
        "PUSH BC"@
    } else if op == 0xC6 {
        "ADD A, #"@
    } else if op == 0xC7 {
        "RST 0x00"@
    } else if op == 0xC8 {
        "RET Z"@
    } else if op == 0xC9 {
        "RET"@
    } else if op == 0xCA {
        "JP Z, nn"@
    } else if op == 0xCC {
        "CALL Z, nn"@
    } else if op == 0xCD {
        "CALL nn"@
    } else if op == 0xCE {
        "ADC A, #"@
    } else if op == 0xCF {
        "RST 0x08"@
    } else if op == 0xD0 {
        "RET NC"@
    } else if op == 0xD1 {
        "POP DE"@
    } else if op == 0xD2 {
        "JP NC, nn"@
    } else if op == 0xD4 {
        "CALL NC, nn"@
    } else if op == 0xD5 {
        "PUSH DE"@
    } else if op == 0xD6 {
        "SUB A, #"@
    } else if op == 0xD7 {
        "RST 0x10"@
    } else if op == 0xD8 {
        "RET C"@
    } else if op == 0xD9 {
        "RETI"@
    } else if op == 0xDA {
        "JP C, nn"@
    } else if op == 0xDC {
        "CALL C, nn"@
    } else if op == 0xDE {
        "SBC A, #"@
    } else if op == 0xDF {
        "RST 0x18"@
    } else if op == 0xE0 {
        "LDH (n), A"@
    } else if op == 0xE1 {
        "POP HL"@
    } else if op == 0xE2 {
        "LD (C), A"@
    } else if op == 0xE5 {
        "PUSH HL"@
    } else if op == 0xE6 {
        "AND A, #"@
    } else if op == 0xE7 {
        "RST 0x20"@
    } else if op == 0xE8 {
        "ADD SP, #"@
    } else if op == 0xE9 {
        "JP (HL)"@
    } else if op == 0xEA {
        "LD (nn), A"@
    } else if op == 0xEE {
        "XOR A, #"@
    } else if op == 0xEF {
        "RST 0x28"@
    } else if op == 0xF0 {
        "LDH A, (n)"@
    } else if op == 0xF1 {
        "POP AF"@
    } else if op == 0xF2 {
        "LD A, (C)"@
    } else if op == 0xF3 {
        "DI"@
    } else if op == 0xF5 {
        "PUSH AF"@
    } else if op == 0xF6 {
        "OR A, #"@
    } else if op == 0xF7 {
        "RST 0x30"@
    } else if op == 0xF8 {
        "LDHL SP, n"@
    } else if op == 0xF9 {
        "LD SP, HL"@
    } else if op == 0xFA {
        "LD A, (nn)"@
    } else if op == 0xFB {
        "EI"@
    } else if op == 0xFE {
        "CP A, #"@
    } else if op == 0xFF {
        "RST 0x38"@
    } else {
        Seq::empty()
    }
}

/// Machine cycles of each CB-page opcode.
pub open spec fn spec_cb_cycles(op: u8) -> u8 {
    if op == 0x00 {
        8u8
    } else if op == 0x01 {
        8u8
    } else if op == 0x02 {
        8u8
    } else if op == 0x03 {
        8u8
    } else if op == 0x04 {
        8u8
    } else if op == 0x05 {
        8u8
    } else if op == 0x06 {
        16u8
    } else if op == 0x07 {
        8u8
    } else if op == 0x08 {
        8u8
    } else if op == 0x09 {
        8u8
    } else if op == 0x0A {
        8u8
    } else if op == 0x0B {
        8u8
    } else if op == 0x0C {
        8u8
    } else if op == 0x0D {
        8u8
    } else if op == 0x0E {
        16u8
    } else if op == 0x0F {
        8u8
    } else if op == 0x10 {
        8u8
    } else if op == 0x11 {
        8u8
    } else if op == 0x12 {
        8u8
    } else if op == 0x13 {
        8u8
    } else if op == 0x14 {
        8u8
    } else if op == 0x15 {
        8u8
    } else if op == 0x16 {
        8u8
    } else if op == 0x17 {
        8u8
    } else if op == 0x18 {
        8u8
    } else if op == 0x19 {
        8u8
    } else if op == 0x1A {
        8u8
    } else if op == 0x1B {
        8u8
    } else if op == 0x1C {
        8u8
    } else if op == 0x1D {
        8u8
    } else if op == 0x1E {
        16u8
    } else if op == 0x1F {
        8u8
    } else if op == 0x20 {
        8u8
    } else if op == 0x21 {
        8u8
    } else if op == 0x22 {
        8u8
    } else if op == 0x23 {
        8u8
    } else if op == 0x24 {
        8u8
    } else if op == 0x25 {
        8u8
    } else if op == 0x26 {
        16u8
    } else if op == 0x27 {
        8u8
    } else if op == 0x28 {
        8u8
    } else if op == 0x29 {
        8u8
    } else if op == 0x2A {
        8u8
    } else if op == 0x2B {
        8u8
    } else if op == 0x2C {
        8u8
    } else if op == 0x2D {
        8u8
    } else if op == 0x2E {
        16u8
    } else if op == 0x2F {
        8u8
    } else if op == 0x30 {
        8u8
    } else if op == 0x31 {
        8u8
    } else if op == 0x32 {
        8u8
    } else if op == 0x33 {
        8u8
    } else if op == 0x34 {
        8u8
    } else if op == 0x35 {
        8u8
    } else if op == 0x36 {
        16u8
    } else if op == 0x37 {
        8u8
    } else if op == 0x38 {
        8u8
    } else if op == 0x39 {
        8u8
    } else if op == 0x3A {
        8u8
    } else if op == 0x3B {
        8u8
    } else if op == 0x3C {
        8u8
    } else if op == 0x3D {
        8u8
    } else if op == 0x3E {
        16u8
    } else if op == 0x3F {
        8u8
    } else if op == 0x40 {
        8u8
    } else if op == 0x41 {
        8u8
    } else if op == 0x42 {
        8u8
    } else if op == 0x43 {
        8u8
    } else if op == 0x44 {
        8u8
    } else if op == 0x45 {
        8u8
    } else if op == 0x46 {
        16u8
    } else if op == 0x47 {
        8u8
    } else if op == 0x48 {
        8u8
    } else if op == 0x49 {
        8u8
    } else if op == 0x4A {
        8u8
    } else if op == 0x4B {
        8u8
    } else if op == 0x4C {
        8u8
    } else if op == 0x4D {
        8u8
    } else if op == 0x4E {
        8u8
    } else if op == 0x4F {
        8u8
    } else if op == 0x50 {
        8u8
    } else if op == 0x51 {
        8u8
    } else if op == 0x52 {
        8u8
    } else if op == 0x53 {
        8u8
    } else if op == 0x54 {
        8u8
    } else if op == 0x55 {
        8u8
    } else if op == 0x56 {
        16u8
    } else if op == 0x57 {
        8u8
    } else if op == 0x58 {
        8u8
    } else if op == 0x59 {
        8u8
    } else if op == 0x5A {
        8u8
    } else if op == 0x5B {
        8u8
    } else if op == 0x5C {
        8u8
    } else if op == 0x5D {
        8u8
    } else if op == 0x5E {
        8u8
    } else if op == 0x5F {
        8u8
    } else if op == 0x60 {
        8u8
    } else if op == 0x61 {
        8u8
    } else if op == 0x62 {
        8u8
    } else if op == 0x63 {
        8u8
    } else if op == 0x64 {
        8u8
    } else if op == 0x65 {
        8u8
    } else if op == 0x66 {
        16u8
    } else if op == 0x67 {
        8u8
    } else if op == 0x68 {
        8u8
    } else if op == 0x69 {
        8u8
    } else if op == 0x6A {
        8u8
    } else if op == 0x6B {
        8u8
    } else if op == 0x6C {
        8u8
    } else if op == 0x6D {
        8u8
    } else if op == 0x6E {
        8u8
    } else if op == 0x6F {
        8u8
    } else if op == 0x70 {
        8u8
    } else if op == 0x71 {
        8u8
    } else if op == 0x72 {
        8u8
    } else if op == 0x73 {
        8u8
    } else if op == 0x74 {
        8u8
    } else if op == 0x75 {
        8u8
    } else if op == 0x76 {
        16u8
    } else if op == 0x77 {
        8u8
    } else if op == 0x78 {
        8u8
    } else if op == 0x79 {
        8u8
    } else if op == 0x7A {
        8u8
    } else if op == 0x7B {
        8u8
    } else if op == 0x7C {
        8u8
    } else if op == 0x7D {
        8u8
    } else if op == 0x7E {
        8u8
    } else if op == 0x7F {
        8u8
    } else if op == 0x80 {
        8u8
    } else if op == 0x81 {
        8u8
    } else if op == 0x82 {
        8u8
    } else if op == 0x83 {
        8u8
    } else if op == 0x84 {
        8u8
    } else if op == 0x85 {
        8u8
    } else if op == 0x86 {
        16u8
    } else if op == 0x87 {
        8u8
    } else if op == 0x88 {
        8u8
    } else if op == 0x89 {
        8u8
    } else if op == 0x8A {
        8u8
    } else if op == 0x8B {
        8u8
    } else if op == 0x8C {
        8u8
    } else if op == 0x8D {
        8u8
    } else if op == 0x8E {
        16u8
    } else if op == 0x8F {
        8u8
    } else if op == 0x90 {
        8u8
    } else if op == 0x91 {
        8u8
    } else if op == 0x92 {
        8u8
    } else if op == 0x93 {
        8u8
    } else if op == 0x94 {
        8u8
    } else if op == 0x95 {
        8u8
    } else if op == 0x96 {
        16u8
    } else if op == 0x97 {
        8u8
    } else if op == 0x98 {
        8u8
    } else if op == 0x99 {
        8u8
    } else if op == 0x9A {
        8u8
    } else if op == 0x9B {
        8u8
    } else if op == 0x9C {
        8u8
    } else if op == 0x9D {
        8u8
    } else if op == 0x9E {
        16u8
    } else if op == 0x9F {
        8u8
    } else if op == 0xA0 {
        8u8
    } else if op == 0xA1 {
        8u8
    } else if op == 0xA2 {
        8u8
    } else if op == 0xA3 {
        8u8
    } else if op == 0xA4 {
        8u8
    } else if op == 0xA5 {
        8u8
    } else if op == 0xA6 {
        16u8
    } else if op == 0xA7 {
        8u8
    } else if op == 0xA8 {
        8u8
    } else if op == 0xA9 {
        8u8
    } else if op == 0xAA {
        8u8
    } else if op == 0xAB {
        8u8
    } else if op == 0xAC {
        8u8
    } else if op == 0xAD {
        8u8
    } else if op == 0xAE {
        16u8
    } else if op == 0xAF {
        8u8
    } else if op == 0xB0 {
        8u8
    } else if op == 0xB1 {
        8u8
    } else if op == 0xB2 {
        8u8
    } else if op == 0xB3 {
        8u8
    } else if op == 0xB4 {
        8u8
    } else if op == 0xB5 {
        8u8
    } else if op == 0xB6 {
        16u8
    } else if op == 0xB7 {
        8u8
    } else if op == 0xB8 {
        8u8
    } else if op == 0xB9 {
        8u8
    } else if op == 0xBA {
        8u8
    } else if op == 0xBB {
        8u8
    } else if op == 0xBC {
        8u8
    } else if op == 0xBD {
        8u8
    } else if op == 0xBE {
        16u8
    } else if op == 0xBF {
        8u8
    } else if op == 0xC0 {
        8u8
    } else if op == 0xC1 {
        8u8
    } else if op == 0xC2 {
        8u8
    } else if op == 0xC3 {
        8u8
    } else if op == 0xC4 {
        8u8
    } else if op == 0xC5 {
        8u8
    } else if op == 0xC6 {
        16u8
    } else if op == 0xC7 {
        8u8
    } else if op == 0xC8 {
        8u8
    } else if op == 0xC9 {
        8u8
    } else if op == 0xCA {
        8u8
    } else if op == 0xCB {
        8u8
    } else if op == 0xCC {
        8u8
    } else if op == 0xCD {
        8u8
    } else if op == 0xCE {
        16u8
    } else if op == 0xCF {
        8u8
    } else if op == 0xD0 {
        8u8
    } else if op == 0xD1 {
        8u8
    } else if op == 0xD2 {
        8u8
    } else if op == 0xD3 {
        8u8
    } else if op == 0xD4 {
        8u8
    } else if op == 0xD5 {
        8u8
    } else if op == 0xD6 {
        16u8
    } else if op == 0xD7 {
        8u8
    } else if op == 0xD8 {
        8u8
    } else if op == 0xD9 {
        8u8
    } else if op == 0xDA {
        8u8
    } else if op == 0xDB {
        8u8
    } else if op == 0xDC {
        8u8
    } else if op == 0xDD {
        8u8
    } else if op == 0xDE {
        16u8
    } else if op == 0xDF {
        8u8
    } else if op == 0xE0 {
        8u8
    } else if op == 0xE1 {
        8u8
    } else if op == 0xE2 {
        8u8
    } else if op == 0xE3 {
        8u8
    } else if op == 0xE4 {
        8u8
    } else if op == 0xE5 {
        8u8
    } else if op == 0xE6 {
        16u8
    } else if op == 0xE7 {
        8u8
    } else if op == 0xE8 {
        8u8
    } else if op == 0xE9 {
        8u8
    } else if op == 0xEA {
        8u8
    } else if op == 0xEB {
        8u8
    } else if op == 0xEC {
        8u8
    } else if op == 0xED {
        8u8
    } else if op == 0xEE {
        16u8
    } else if op == 0xEF {
        8u8
    } else if op == 0xF0 {
        8u8
    } else if op == 0xF1 {
        8u8
    } else if op == 0xF2 {
        8u8
    } else if op == 0xF3 {
        8u8
    } else if op == 0xF4 {
        8u8
    } else if op == 0xF5 {
        8u8
    } else if op == 0xF6 {
        16u8
    } else if op == 0xF7 {
        8u8
    } else if op == 0xF8 {
        8u8
    } else if op == 0xF9 {
        8u8
    } else if op == 0xFA {
        8u8
    } else if op == 0xFB {
        8u8
    } else if op == 0xFC {
        8u8
    } else if op == 0xFD {
        8u8
    } else if op == 0xFE {
        16u8
    } else if op == 0xFF {
        8u8
    } else {
        0u8
    }
}

/// Mnemonic of each CB-page opcode.
pub open spec fn spec_cb_mnemonic(op: u8) -> Seq<char> {
    if op == 0x00 {
        "RLC B"@
    } else if op == 0x01 {
        "RLC C"@
    } else if op == 0x02 {
        "RLC D"@
    } else if op == 0x03 {
        "RLC E"@
    } else if op == 0x04 {
        "RLC H"@
    } else if op == 0x05 {
        "RLC L"@
    } else if op == 0x06 {
        "RLC (HL)"@
    } else if op == 0x07 {
        "RLC A"@
    } else if op == 0x08 {
        "RRC B"@
    } else if op == 0x09 {
        "RRC C"@
    } else if op == 0x0A {
        "RRC D"@
    } else if op == 0x0B {
        "RRC E"@
    } else if op == 0x0C {
        "RRC H"@
    } else if op == 0x0D {
        "RRC L"@
    } else if op == 0x0E {
        "RRC (HL)"@
    } else if op == 0x0F {
        "RRC A"@
    } else if op == 0x10 {
        "RL B"@
    } else if op == 0x11 {
        "RL C"@
    } else if op == 0x12 {
        "RL D"@
    } else if op == 0x13 {
        "RL E"@
    } else if op == 0x14 {
        "RL H"@
    } else if op == 0x15 {
        "RL L"@
    } else if op == 0x16 {
        "RL (HL)"@
    } else if op == 0x17 {
        "RL A"@
    } else if op == 0x18 {
        "RR B"@
    } else if op == 0x19 {
        "RR C"@
    } else if op == 0x1A {
        "RR D"@
    } else if op == 0x1B {
        "RR E"@
    } else if op == 0x1C {
        "RR H"@
    } else if op == 0x1D {
        "RR L"@
    } else if op == 0x1E {
        "RR (HL)"@
    } else if op == 0x1F {
        "RR A"@
    } else if op == 0x20 {
        "SLA B"@
    } else if op == 0x21 {
        "SLA C"@
    } else if op == 0x22 {
        "SLA D"@
    } else if op == 0x23 {
        "SLA E"@
    } else if op == 0x24 {
        "SLA H"@
    } else if op == 0x25 {
        "SLA L"@
    } else if op == 0x26 {
        "SLA (HL)"@
    } else if op == 0x27 {
        "SLA A"@
    } else if op == 0x28 {
        "SRA B"@
    } else if op == 0x29 {
        "SRA C"@
    } else if op == 0x2A {
        "SRA D"@
    } else if op == 0x2B {
        "SRA E"@
    } else if op == 0x2C {
        "SRA H"@
    } else if op == 0x2D {
        "SRA L"@
    } else if op == 0x2E {
        "SRA (HL)"@
    } else if op == 0x2F {
        "SRA A"@
    } else if op == 0x30 {
        "SWAP B"@
    } else if op == 0x31 {
        "SWAP C"@
    } else if op == 0x32 {
        "SWAP D"@
    } else if op == 0x33 {
        "SWAP E"@
    } else if op == 0x34 {
        "SWAP H"@
    } else if op == 0x35 {
        "SWAP L"@
    } else if op == 0x36 {
        "SWAP (HL)"@
    } else if op == 0x37 {
        "SWAP A"@
    } else if op == 0x38 {
        "SRL B"@
    } else if op == 0x39 {
        "SRL C"@
    } else if op == 0x3A {
        "SRL D"@
    } else if op == 0x3B {
        "SRL E"@
    } else if op == 0x3C {
        "SRL H"@
    } else if op == 0x3D {
        "SRL L"@
    } else if op == 0x3E {
        "SRL (HL)"@
    } else if op == 0x3F {
        "SRL A"@
    } else if op == 0x40 {
        "BIT 0, B"@
    } else if op == 0x41 {
        "BIT 0, C"@
    } else if op == 0x42 {
        "BIT 0, D"@
    } else if op == 0x43 {
        "BIT 0, E"@
    } else if op == 0x44 {
        "BIT 0, H"@
    } else if op == 0x45 {
        "BIT 0, L"@
    } else if op == 0x46 {
        "BIT 0, (HL)"@
    } else if op == 0x47 {
        "BIT 0, A"@
    } else if op == 0x48 {
        "BIT 1, B"@
    } else if op == 0x49 {
        "BIT 1, C"@
    } else if op == 0x4A {
        "BIT 1, D"@
    } else if op == 0x4B {
        "BIT 1, E"@
    } else if op == 0x4C {
        "BIT 1, H"@
    } else if op == 0x4D {
        "BIT 1, L"@
    } else if op == 0x4E {
        "BIT 1, (HL)"@
    } else if op == 0x4F {
        "BIT 1, A"@
    } else if op == 0x50 {
        "BIT 2, B"@
    } else if op == 0x51 {
        "BIT 2, C"@
    } else if op == 0x52 {
        "BIT 2, D"@
    } else if op == 0x53 {
        "BIT 2, E"@
    } else if op == 0x54 {
        "BIT 2, H"@
    } else if op == 0x55 {
        "BIT 2, L"@
    } else if op == 0x56 {
        "BIT 2, (HL)"@
    } else if op == 0x57 {
        "BIT 2, A"@
    } else if op == 0x58 {
        "BIT 3, B"@
    } else if op == 0x59 {
        "BIT 3, C"@
    } else if op == 0x5A {
        "BIT 3, D"@
    } else if op == 0x5B {
        "BIT 3, E"@
    } else if op == 0x5C {
        "BIT 3, H"@
    } else if op == 0x5D {
        "BIT 3, L"@
    } else if op == 0x5E {
        "BIT 3, (HL)"@
    } else if op == 0x5F {
        "BIT 3, A"@
    } else if op == 0x60 {
        "BIT 4, B"@
    } else if op == 0x61 {
        "BIT 4, C"@
    } else if op == 0x62 {
        "BIT 4, D"@
    } else if op == 0x63 {
        "BIT 4, E"@
    } else if op == 0x64 {
        "BIT 4, H"@
    } else if op == 0x65 {
        "BIT 4, L"@
    } else if op == 0x66 {
        "BIT 4, (HL)"@
    } else if op == 0x67 {
        "BIT 4, A"@
    } else if op == 0x68 {
        "BIT 5, B"@
    } else if op == 0x69 {
        "BIT 5, C"@
    } else if op == 0x6A {
        "BIT 5, D"@
    } else if op == 0x6B {
        "BIT 5, E"@
    } else if op == 0x6C {
        "BIT 5, H"@
    } else if op == 0x6D {
        "BIT 5, L"@
    } else if op == 0x6E {
        "BIT 5, (HL)"@
    } else if op == 0x6F {
        "BIT 5, A"@
    } else if op == 0x70 {
        "BIT 6, B"@
    } else if op == 0x71 {
        "BIT 6, C"@
    } else if op == 0x72 {
        "BIT 6, D"@
    } else if op == 0x73 {
        "BIT 6, E"@
    } else if op == 0x74 {
        "BIT 6, H"@
    } else if op == 0x75 {
        "BIT 6, L"@
    } else if op == 0x76 {
        "BIT 6, (HL)"@
    } else if op == 0x77 {
        "BIT 6, A"@
    } else if op == 0x78 {
        "BIT 7, B"@
    } else if op == 0x79 {
        "BIT 7, C"@
    } else if op == 0x7A {
        "BIT 7, D"@
    } else if op == 0x7B {
        "BIT 7, E"@
    } else if op == 0x7C {
        "BIT 7, H"@
    } else if op == 0x7D {
        "BIT 7, L"@
    } else if op == 0x7E {
        "BIT 7, (HL)"@
    } else if op == 0x7F {
        "BIT 7, A"@
    } else if op == 0x80 {
        "RES 0, B"@
    } else if op == 0x81 {
        "RES 0, C"@
    } else if op == 0x82 {
        "RES 0, D"@
    } else if op == 0x83 {
        "RES 0, E"@
    } else if op == 0x84 {
        "RES 0, H"@
    } else if op == 0x85 {
        "RES 0, L"@
    } else if op == 0x86 {
        "RES 0, (HL)"@
    } else if op == 0x87 {
        "RES 0, A"@
    } else if op == 0x88 {
        "RES 1, B"@
    } else if op == 0x89 {
        "RES 1, C"@
    } else if op == 0x8A {
        "RES 1, D"@
    } else if op == 0x8B {
        "RES 1, E"@
    } else if op == 0x8C {
        "RES 1, H"@
    } else if op == 0x8D {
        "RES 1, L"@
    } else if op == 0x8E {
        "RES 1, (HL)"@
    } else if op == 0x8F {
        "RES 1, A"@
    } else if op == 0x90 {
        "RES 2, B"@
    } else if op == 0x91 {
        "RES 2, C"@
    } else if op == 0x92 {
        "RES 2, D"@
    } else if op == 0x93 {
        "RES 2, E"@
    } else if op == 0x94 {
        "RES 2, H"@
    } else if op == 0x95 {
        "RES 2, L"@
    } else if op == 0x96 {
        "RES 2, (HL)"@
    } else if op == 0x97 {
        "RES 2, A"@
    } else if op == 0x98 {
        "RES 3, B"@
    } else if op == 0x99 {
        "RES 3, C"@
    } else if op == 0x9A {
        "RES 3, D"@
    } else if op == 0x9B {
        "RES 3, E"@
    } else if op == 0x9C {
        "RES 3, H"@
    } else if op == 0x9D {
        "RES 3, L"@
    } else if op == 0x9E {
        "RES 3, (HL)"@
    } else if op == 0x9F {
        "RES 3, A"@
    } else if op == 0xA0 {
        "RES 4, B"@
    } else if op == 0xA1 {
        "RES 4, C"@
    } else if op == 0xA2 {
        "RES 4, D"@
    } else if op == 0xA3 {
        "RES 4, E"@
    } else if op == 0xA4 {
        "RES 4, H"@
    } else if op == 0xA5 {
        "RES 4, L"@
    } else if op == 0xA6 {
        "RES 4, (HL)"@
    } else if op == 0xA7 {
        "RES 4, A"@
    } else if op == 0xA8 {
        "RES 5, B"@
    } else if op == 0xA9 {
        "RES 5, C"@
    } else if op == 0xAA {
        "RES 5, D"@
    } else if op == 0xAB {
        "RES 5, E"@
    } else if op == 0xAC {
        "RES 5, H"@
    } else if op == 0xAD {
        "RES 5, L"@
    } else if op == 0xAE {
        "RES 5, (HL)"@
    } else if op == 0xAF {
        "RES 5, A"@
    } else if op == 0xB0 {
        "RES 6, B"@
    } else if op == 0xB1 {
        "RES 6, C"@
    } else if op == 0xB2 {
        "RES 6, D"@
    } else if op == 0xB3 {
        "RES 6, E"@
    } else if op == 0xB4 {
        "RES 6, H"@
    } else if op == 0xB5 {
        "RES 6, L"@
    } else if op == 0xB6 {
        "RES 6, (HL)"@
    } else if op == 0xB7 {
        "RES 6, A"@
    } else if op == 0xB8 {
        "RES 7, B"@
    } else if op == 0xB9 {
        "RES 7, C"@
    } else if op == 0xBA {
        "RES 7, D"@
    } else if op == 0xBB {
        "RES 7, E"@
    } else if op == 0xBC {
        "RES 7, H"@
    } else if op == 0xBD {
        "RES 7, L"@
    } else if op == 0xBE {
        "RES 7, (HL)"@
    } else if op == 0xBF {
        "RES 7, A"@
    } else if op == 0xC0 {
        "SET 0, B"@
    } else if op == 0xC1 {
        "SET 0, C"@
    } else if op == 0xC2 {
        "SET 0, D"@
    } else if op == 0xC3 {
        "SET 0, E"@
    } else if op == 0xC4 {
        "SET 0, H"@
    } else if op == 0xC5 {
        "SET 0, L"@
    } else if op == 0xC6 {
        "SET 0, (HL)"@
    } else if op == 0xC7 {
        "SET 0, A"@
    } else if op == 0xC8 {
        "SET 1, B"@
    } else if op == 0xC9 {
        "SET 1, C"@
    } else if op == 0xCA {
        "SET 1, D"@
    } else if op == 0xCB {
        "SET 1, E"@
    } else if op == 0xCC {
        "SET 1, H"@
    } else if op == 0xCD {
        "SET 1, L"@
    } else if op == 0xCE {
        "SET 1, (HL)"@
    } else if op == 0xCF {
        "SET 1, A"@
    } else if op == 0xD0 {
        "SET 2, B"@
    } else if op == 0xD1 {
        "SET 2, C"@
    } else if op == 0xD2 {
        "SET 2, D"@
    } else if op == 0xD3 {
        "SET 2, E"@
    } else if op == 0xD4 {
        "SET 2, H"@
    } else if op == 0xD5 {
        "SET 2, L"@
    } else if op == 0xD6 {
        "SET 2, (HL)"@
    } else if op == 0xD7 {
        "SET 2, A"@
    } else if op == 0xD8 {
        "SET 3, B"@
    } else if op == 0xD9 {
        "SET 3, C"@
    } else if op == 0xDA {
        "SET 3, D"@
    } else if op == 0xDB {
        "SET 3, E"@
    } else if op == 0xDC {
        "SET 3, H"@
    } else if op == 0xDD {
        "SET 3, L"@
    } else if op == 0xDE {
        "SET 3, (HL)"@
    } else if op == 0xDF {
        "SET 3, A"@
    } else if op == 0xE0 {
        "SET 4, B"@
    } else if op == 0xE1 {
        "SET 4, C"@
    } else if op == 0xE2 {
        "SET 4, D"@
    } else if op == 0xE3 {
        "SET 4, E"@
    } else if op == 0xE4 {
        "SET 4, H"@
    } else if op == 0xE5 {
        "SET 4, L"@
    } else if op == 0xE6 {
        "SET 4, (HL)"@
    } else if op == 0xE7 {
        "SET 4, A"@
    } else if op == 0xE8 {
        "SET 5, B"@
    } else if op == 0xE9 {
        "SET 5, C"@
    } else if op == 0xEA {
        "SET 5, D"@
    } else if op == 0xEB {
        "SET 5, E"@
    } else if op == 0xEC {
        "SET 5, H"@
    } else if op == 0xED {
        "SET 5, L"@
    } else if op == 0xEE {
        "SET 5, (HL)"@
    } else if op == 0xEF {
        "SET 5, A"@
    } else if op == 0xF0 {
        "SET 6, B"@
    } else if op == 0xF1 {
        "SET 6, C"@
    } else if op == 0xF2 {
        "SET 6, D"@
    } else if op == 0xF3 {
        "SET 6, E"@
    } else if op == 0xF4 {
        "SET 6, H"@
    } else if op == 0xF5 {
        "SET 6, L"@
    } else if op == 0xF6 {
        "SET 6, (HL)"@
    } else if op == 0xF7 {
        "SET 6, A"@
    } else if op == 0xF8 {
        "SET 7, B"@
    } else if op == 0xF9 {
        "SET 7, C"@
    } else if op == 0xFA {
        "SET 7, D"@
    } else if op == 0xFB {
        "SET 7, E"@
    } else if op == 0xFC {
        "SET 7, H"@
    } else if op == 0xFD {
        "SET 7, L"@
    } else if op == 0xFE {
        "SET 7, (HL)"@
    } else if op == 0xFF {
        "SET 7, A"@
    } else {
        Seq::empty()
    }
}

} // verus!
