//! The interrupt controller: enable mask (IE), pending flags (IF), and the
//! master enable (IME), with priority selection of the next service vector.

use vstd::prelude::*;

use crate::io::Io;

verus! {

/// Service-routine entry point for each interrupt source.
pub const VBLANK_ISR_ADDR: usize = 0x0040;
pub const LCDC_STAT_ISR_ADDR: usize = 0x0048;
pub const TIMER_ISR_ADDR: usize = 0x0050;
pub const SERIAL_ISR_ADDR: usize = 0x0058;
pub const JOYPAD_ISR_ADDR: usize = 0x0060;

/// The five interrupt sources, in priority order (VBlank highest).
#[derive(Clone, Copy, PartialEq, Eq, Structural, Debug)]
pub enum InterruptKind {
    Vblank,
    LcdcStatus,
    Timer,
    Serial,
    Joypad,
}

/// The IF/IE bit assigned to an interrupt source.
pub open spec fn spec_irq_bit(kind: InterruptKind) -> u8 {
    match kind {
        InterruptKind::Vblank => 0x01,
        InterruptKind::LcdcStatus => 0x02,
        InterruptKind::Timer => 0x04,
        InterruptKind::Serial => 0x08,
        InterruptKind::Joypad => 0x10,
    }
}

/// The service vector assigned to an interrupt source.
pub open spec fn spec_irq_vector(kind: InterruptKind) -> usize {
    match kind {
        InterruptKind::Vblank => VBLANK_ISR_ADDR,
        InterruptKind::LcdcStatus => LCDC_STAT_ISR_ADDR,
        InterruptKind::Timer => TIMER_ISR_ADDR,
        InterruptKind::Serial => SERIAL_ISR_ADDR,
        InterruptKind::Joypad => JOYPAD_ISR_ADDR,
    }
}

/// Mathematical state of the controller.
#[verifier::ext_equal]
pub struct IntrView {
    pub ime: bool,
    pub irqf: u8,
    pub irqe: u8,
}

impl IntrView {
    /// Is the IF bit of `kind` set?
    pub open spec fn is_set(self, kind: InterruptKind) -> bool {
        self.irqf & spec_irq_bit(kind) != 0
    }

    /// Is `kind` both pending and enabled?
    pub open spec fn pending(self, kind: InterruptKind) -> bool {
        self.irqf & spec_irq_bit(kind) != 0 && self.irqe & spec_irq_bit(kind) != 0
    }

    /// The vector of the highest-priority pending and enabled source, when
    /// the master enable is on.
    pub open spec fn isr(self) -> Option<usize> {
        if !self.ime {
            None
        } else if self.pending(InterruptKind::Vblank) {
            Some(VBLANK_ISR_ADDR)
        } else if self.pending(InterruptKind::LcdcStatus) {
            Some(LCDC_STAT_ISR_ADDR)
        } else if self.pending(InterruptKind::Timer) {
            Some(TIMER_ISR_ADDR)
        } else if self.pending(InterruptKind::Serial) {
            Some(SERIAL_ISR_ADDR)
        } else if self.pending(InterruptKind::Joypad) {
            Some(JOYPAD_ISR_ADDR)
        } else {
            None
        }
    }

    /// The source whose vector `isr` owes, if any.
    pub open spec fn isr_kind(self) -> Option<InterruptKind> {
        if !self.ime {
            None
        } else if self.pending(InterruptKind::Vblank) {
            Some(InterruptKind::Vblank)
        } else if self.pending(InterruptKind::LcdcStatus) {
            Some(InterruptKind::LcdcStatus)
        } else if self.pending(InterruptKind::Timer) {
            Some(InterruptKind::Timer)
        } else if self.pending(InterruptKind::Serial) {
            Some(InterruptKind::Serial)
        } else if self.pending(InterruptKind::Joypad) {
            Some(InterruptKind::Joypad)
        } else {
            None
        }
    }

    /// State after `set_irq(kind)`.
    pub open spec fn with_irq(self, kind: InterruptKind) -> IntrView {
        IntrView { irqf: self.irqf | spec_irq_bit(kind), ..self }
    }

    /// State after `remove_irq(kind)`.
    pub open spec fn without_irq(self, kind: InterruptKind) -> IntrView {
        IntrView { irqf: self.irqf & !spec_irq_bit(kind), ..self }
    }
}

/// The interrupt controller.
pub struct Interrupt {
    ime: bool,
    irqf: u8,
    irqe: u8,
}

impl View for Interrupt {
    type V = IntrView;

    closed spec fn view(&self) -> IntrView {
        IntrView { ime: self.ime, irqf: self.irqf, irqe: self.irqe }
    }
}

impl Interrupt {
    pub fn new() -> (r: Interrupt)
        ensures
            r@ == (IntrView { ime: false, irqf: 0u8, irqe: 0u8 }),
    {
        Interrupt { ime: false, irqf: 0, irqe: 0 }
    }

    /// Set the master enable.
    pub fn enable(&mut self)
        ensures
            final(self)@ == (IntrView { ime: true, ..old(self)@ }),
    {
        self.ime = true;
    }

    /// Clear the master enable.
    pub fn disable(&mut self)
        ensures
            final(self)@ == (IntrView { ime: false, ..old(self)@ }),
    {
        self.ime = false;
    }

    /// Is any interrupt pending?
    pub fn has_irq(&self) -> (r: bool)
        ensures
            r == (self@.irqf != 0),
    {
        self.irqf != 0x00
    }

    /// Is the master enable on?
    pub fn is_enabled_irq(&self) -> (r: bool)
        ensures
            r == self@.ime,
    {
        self.ime
    }

    /// The highest-priority pending and enabled source, if the master
    /// enable is on.
    fn interrupt_kind(&self) -> (r: Option<InterruptKind>)
        ensures
            match r {
                Some(kind) => self@.isr() == Some(spec_irq_vector(kind)),
                None => self@.isr() is None,
            },
    {
        if !self.ime {
            return None;
        }
        if self.irqe & 0x01 != 0 && self.irqf & 0x01 != 0 {
            return Some(InterruptKind::Vblank);
        }
        if self.irqe & 0x02 != 0 && self.irqf & 0x02 != 0 {
            return Some(InterruptKind::LcdcStatus);
        }
        if self.irqe & 0x04 != 0 && self.irqf & 0x04 != 0 {
            return Some(InterruptKind::Timer);
        }
        if self.irqe & 0x08 != 0 && self.irqf & 0x08 != 0 {
            return Some(InterruptKind::Serial);
        }
        if self.irqe & 0x10 != 0 && self.irqf & 0x10 != 0 {
            return Some(InterruptKind::Joypad);
        }
        None
    }

    /// The service vector owed right now: `Some` exactly when the master
    /// enable is on and some source is both pending and enabled.
    pub fn isr_addr(&self) -> (r: Option<usize>)
        ensures
            r == self@.isr(),
    {
        match self.interrupt_kind() {
            None => None,
            Some(kind) => match kind {
                InterruptKind::Vblank => Some(VBLANK_ISR_ADDR),
                InterruptKind::LcdcStatus => Some(LCDC_STAT_ISR_ADDR),
                InterruptKind::Timer => Some(TIMER_ISR_ADDR),
                InterruptKind::Serial => Some(SERIAL_ISR_ADDR),
                InterruptKind::Joypad => Some(JOYPAD_ISR_ADDR),
            },
        }
    }

    /// Mark `kind` pending in IF.
    pub fn set_irq(&mut self, kind: InterruptKind)
        ensures
            final(self)@ == old(self)@.with_irq(kind),
    {
        match kind {
            InterruptKind::Vblank => self.irqf = self.irqf | 0x01,
            InterruptKind::LcdcStatus => self.irqf = self.irqf | 0x02,
            InterruptKind::Timer => self.irqf = self.irqf | 0x04,
            InterruptKind::Serial => self.irqf = self.irqf | 0x08,
            InterruptKind::Joypad => self.irqf = self.irqf | 0x10,
        }
    }

    /// Clear `kind` from IF.
    pub fn remove_irq(&mut self, kind: InterruptKind)
        ensures
            final(self)@ == old(self)@.without_irq(kind),
    {
        match kind {
            InterruptKind::Vblank => self.irqf = self.irqf & !0x01,
            InterruptKind::LcdcStatus => self.irqf = self.irqf & !0x02,
            InterruptKind::Timer => self.irqf = self.irqf & !0x04,
            InterruptKind::Serial => self.irqf = self.irqf & !0x08,
            InterruptKind::Joypad => self.irqf = self.irqf & !0x10,
        }
    }

    /// Is the IF bit of `kind` set?
    pub fn is_set(&self, kind: InterruptKind) -> (r: bool)
        ensures
            r == self@.is_set(kind),
    {
        match kind {
            InterruptKind::Vblank => self.irqf & 0x01 != 0,
            InterruptKind::LcdcStatus => self.irqf & 0x02 != 0,
            InterruptKind::Timer => self.irqf & 0x04 != 0,
            InterruptKind::Serial => self.irqf & 0x08 != 0,
            InterruptKind::Joypad => self.irqf & 0x10 != 0,
        }
    }
}

impl Io for Interrupt {
    open spec fn io_inv(&self) -> bool {
        true
    }

    open spec fn io_ok(&self, addr: usize) -> bool {
        addr == 0xFF0F || addr == 0xFFFF
    }

    open spec fn io_read(&self, addr: usize) -> u8 {
        if addr == 0xFF0F {
            self@.irqf
        } else {
            self@.irqe
        }
    }

    open spec fn io_write(&self, addr: usize, data: u8) -> IntrView {
        if addr == 0xFF0F {
            IntrView { irqf: data & 0x1F, ..self@ }
        } else {
            IntrView { irqe: data, ..self@ }
        }
    }

    fn read8(&self, addr: usize) -> u8 {
        if addr == 0xFF0F {
            self.irqf
        } else {
            self.irqe
        }
    }

    fn write8(&mut self, addr: usize, data: u8) {
        if addr == 0xFF0F {
            self.irqf = data & 0x1F;
        } else {
            self.irqe = data;
        }
    }
}

/// How setting then clearing one source's IF bit moves the flag byte,
/// seen through any one source's mask.
proof fn lemma_irq_bits(f: u8, bk: u8, bo: u8)
    by (bit_vector)
    requires
        bk == 0x01 || bk == 0x02 || bk == 0x04 || bk == 0x08 || bk == 0x10,
        bo == 0x01 || bo == 0x02 || bo == 0x04 || bo == 0x08 || bo == 0x10,
    ensures
        (f | bk) & bk != 0,
        ((f | bk) & !bk) & bk == 0,
        bo != bk ==> (f | bk) & bo == f & bo,
        bo != bk ==> ((f | bk) & !bk) & bo == f & bo,
{
}

/// Raising an interrupt makes its vector visible: with IE covering `kind`,
/// IME on, and no other source both pending and enabled, `set_irq(kind)`
/// leaves the controller owing exactly the vector of `kind`, and a
/// subsequent `remove_irq(kind)` withdraws it.
pub proof fn lemma_irq_set_then_isr(v: IntrView, kind: InterruptKind)
    requires
        v.ime,
        v.irqe & spec_irq_bit(kind) != 0,
        forall|other: InterruptKind| other != kind ==> !v.pending(other),
    ensures
        v.with_irq(kind).isr() == Some(spec_irq_vector(kind)),
        v.with_irq(kind).without_irq(kind).isr() is None,
{
    let w = v.with_irq(kind);
    let u = w.without_irq(kind);
    assert forall|other: InterruptKind| #[trigger] spec_irq_bit(other) != 0 implies {
        &&& w.pending(other) == (if other == kind { true } else { v.pending(other) })
        &&& !u.pending(other)
    } by {
        lemma_irq_bits(v.irqf, spec_irq_bit(kind), spec_irq_bit(other));
    }
    assert(spec_irq_bit(InterruptKind::Vblank) != 0);
    assert(spec_irq_bit(InterruptKind::LcdcStatus) != 0);
    assert(spec_irq_bit(InterruptKind::Timer) != 0);
    assert(spec_irq_bit(InterruptKind::Serial) != 0);
    assert(spec_irq_bit(InterruptKind::Joypad) != 0);
}

} // verus!
