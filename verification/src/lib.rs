//! Core of an emulator for an 8-bit handheld game console built around a
//! Sharp LR35902-like CPU: a memory-mapped bus, a pixel pipeline, a timer,
//! an interrupt controller, an input matrix, and the instruction engine
//! that drives them all in lockstep.

use vstd::prelude::*;

pub mod apu;
pub mod bus;
pub mod cartridge;
pub mod cpu;
pub mod hram;
pub mod interrupt;
pub mod io;
pub mod mbc;
pub mod mmu;
pub mod pad;
pub mod ppu;
pub mod ram;
pub mod timer;

pub use apu::Apu;
pub use bus::Bus;
pub use cartridge::{BankMode, Cartridge};
pub use cpu::Cpu;
pub use hram::HRam;
pub use interrupt::{Interrupt, InterruptKind};
pub use io::Io;
pub use mbc::{new_nombc, Mbc};
pub use mmu::Mmu;
pub use pad::{Key, Pad};
pub use ppu::{Color, Oam, Palette, Ppu};
pub use ram::Ram;
pub use timer::Timer;

verus! {

/// The faults the core can report to its collaborator: a ROM image it
/// cannot serve, or an opcode outside the instruction set.
#[derive(Clone, Copy, PartialEq, Eq, Structural, Debug)]
pub enum CoreError {
    UnsupportedCartridge,
    UnknownOpcode(u8),
}

} // verus!
