//! The input matrix: logical key state plus the 2-bit row selector that
//! decodes the joypad register byte.

use vstd::prelude::*;

verus! {

/// The eight keys of the pad.
#[derive(Clone, Copy, PartialEq, Eq, Structural, Debug)]
pub enum Key {
    Right,
    Left,
    Up,
    Down,
    A,
    B,
    Select,
    Start,
}

/// The active-low bit each key holds in the state byte: direction keys in
/// the low nibble, action keys in the high nibble.
pub open spec fn spec_key_bit(key: Key) -> u8 {
    match key {
        Key::Right => 0x01,
        Key::Left => 0x02,
        Key::Up => 0x04,
        Key::Down => 0x08,
        Key::A => 0x10,
        Key::B => 0x20,
        Key::Select => 0x40,
        Key::Start => 0x80,
    }
}

/// Mathematical state of the pad: the 6-bit register and the active-low
/// key byte.
#[verifier::ext_equal]
pub struct PadView {
    pub register: u8,
    pub state: u8,
}

impl PadView {
    /// The byte the joypad register reads as: with P15 low the action
    /// nibble, with P14 low the direction nibble, else the selector alone.
    pub open spec fn register_byte(self) -> u8 {
        if self.register & 0x20 == 0 {
            self.register & 0xF0 | (self.state >> 4) & 0x0F
        } else if self.register & 0x10 == 0 {
            self.register & 0xF0 | self.state & 0x0F
        } else {
            self.register & 0x0F
        }
    }

    /// State after pressing `key` (its bit goes low).
    pub open spec fn pressed(self, key: Key) -> PadView {
        PadView { state: self.state & !spec_key_bit(key), ..self }
    }

    /// State after releasing `key` (its bit goes high).
    pub open spec fn released(self, key: Key) -> PadView {
        PadView { state: self.state | spec_key_bit(key), ..self }
    }
}

/// The pad.
pub struct Pad {
    register: u8,
    state: u8,
}

impl View for Pad {
    type V = PadView;

    closed spec fn view(&self) -> PadView {
        PadView { register: self.register, state: self.state }
    }
}

impl Pad {
    /// All keys released, both rows deselected.
    pub fn new() -> (r: Pad)
        ensures
            r@ == (PadView { register: 0x0Fu8, state: 0xFFu8 }),
    {
        Pad { register: 0x0F, state: 0xFF }
    }

    /// Decode the joypad register byte from the selected row.
    pub fn read8(&self) -> (r: u8)
        ensures
            r == self@.register_byte(),
    {
        if self.register & 0x20 == 0 {
            return self.register & 0xF0 | (self.state >> 4) & 0x0F;
        }
        if self.register & 0x10 == 0 {
            return self.register & 0xF0 | self.state & 0x0F;
        }
        self.register & 0x0F
    }

    /// Latch the row selector; only the low six bits exist.
    pub fn write8(&mut self, data: u8)
        ensures
            final(self)@ == (PadView { register: data & 0x3F, ..old(self)@ }),
    {
        self.register = data & 0x3F;
    }

    pub fn push_key(&mut self, key: Key)
        ensures
            final(self)@ == old(self)@.pressed(key),
    {
        match key {
            Key::Right => self.state = self.state & !0x01,
            Key::Left => self.state = self.state & !0x02,
            Key::Up => self.state = self.state & !0x04,
            Key::Down => self.state = self.state & !0x08,
            Key::A => self.state = self.state & !0x10,
            Key::B => self.state = self.state & !0x20,
            Key::Select => self.state = self.state & !0x40,
            Key::Start => self.state = self.state & !0x80,
        }
    }

    pub fn release_key(&mut self, key: Key)
        ensures
            final(self)@ == old(self)@.released(key),
    {
        match key {
            Key::Right => self.state = self.state | 0x01,
            Key::Left => self.state = self.state | 0x02,
            Key::Up => self.state = self.state | 0x04,
            Key::Down => self.state = self.state | 0x08,
            Key::A => self.state = self.state | 0x10,
            Key::B => self.state = self.state | 0x20,
            Key::Select => self.state = self.state | 0x40,
            Key::Start => self.state = self.state | 0x80,
        }
    }
}

} // verus!
