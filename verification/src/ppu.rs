//! The pixel pipeline: LCD control and status, scroll and window position,
//! palettes, tile memory, the sprite attribute table, the line/mode state
//! machine, and the 160x144 shade buffer it produces.

use vstd::prelude::*;

use crate::interrupt::InterruptKind;
use crate::io::Io;
use crate::ram::{Ram, RAM_SIZE};

verus! {

pub const SCREEN_WIDTH: usize = 160;
pub const SCREEN_HEIGHT: usize = 144;

/// Lines of vertical blank after the visible field.
pub const LCD_BLANK_HEIGHT: u8 = 10;

/// Sub-clocks in one scan line.
pub const CLOCKS_PER_LINE: u16 = 456;

/// The two tile maps and the two tile-data bases.
pub const TILEMAP0_OFFSET: usize = 0x9800;
pub const TILEMAP1_OFFSET: usize = 0x9C00;
pub const TILEDATA0_OFFSET: usize = 0x8800;
pub const TILEDATA1_OFFSET: usize = 0x8000;

/// Number of sprite records in the attribute table.
pub const OAM_SPRITES: usize = 40;

/// The four on-screen shades.
#[derive(Clone, Copy, PartialEq, Eq, Structural, Debug)]
pub enum Color {
    Darkest,
    Dark,
    Light,
    Lightest,
}

impl Color {
    /// The 2-bit index a shade encodes to.
    pub open spec fn spec_u8(self) -> u8 {
        match self {
            Color::Darkest => 3,
            Color::Dark => 2,
            Color::Light => 1,
            Color::Lightest => 0,
        }
    }

    pub fn to_u8(&self) -> (r: u8)
        ensures
            r == self.spec_u8(),
    {
        match self {
            Color::Darkest => 3,
            Color::Dark => 2,
            Color::Light => 1,
            Color::Lightest => 0,
        }
    }

    /// The shade a 2-bit index decodes to.
    pub fn from_u8(item: u8) -> (r: Color)
        requires
            item <= 3,
        ensures
            r.spec_u8() == item,
    {
        if item == 3 {
            Color::Darkest
        } else if item == 2 {
            Color::Dark
        } else if item == 1 {
            Color::Light
        } else {
            Color::Lightest
        }
    }
}

/// One palette byte unpacked: four 2-bit shades, highest bit-pair first.
#[derive(Clone, Copy, PartialEq, Eq, Structural, Debug)]
pub struct Palette {
    pub dot_11: Color,
    pub dot_10: Color,
    pub dot_01: Color,
    pub dot_00: Color,
}

impl Palette {
    /// The byte this palette packs back into.
    pub open spec fn spec_byte(self) -> u8 {
        (self.dot_11.spec_u8() << 6) | (self.dot_10.spec_u8() << 4) | (self.dot_01.spec_u8() << 2)
            | self.dot_00.spec_u8()
    }

    /// The shade stored for a 2-bit color index.
    pub open spec fn spec_shade(self, color: u8) -> u8 {
        if color == 0 {
            self.dot_00.spec_u8()
        } else if color == 1 {
            self.dot_01.spec_u8()
        } else if color == 2 {
            self.dot_10.spec_u8()
        } else {
            self.dot_11.spec_u8()
        }
    }

    /// Unpack a palette byte; packing it again restores the byte exactly.
    pub fn from_u8(item: u8) -> (r: Palette)
        ensures
            r.spec_byte() == item,
            forall|c: u8| c <= 3 ==> r.spec_shade(c) == (item >> (2 * c)) & 0x03,
    {
        proof {
            assert(((item >> 6) & 0x03) <= 3 && ((item >> 4) & 0x03) <= 3 && ((item >> 2) & 0x03)
                <= 3 && (item & 0x03) <= 3) by (bit_vector);
        }
        let r = Palette {
            dot_11: Color::from_u8((item >> 6) & 0x03),
            dot_10: Color::from_u8((item >> 4) & 0x03),
            dot_01: Color::from_u8((item >> 2) & 0x03),
            dot_00: Color::from_u8(item & 0x03),
        };
        proof {
            lemma_palette_roundtrip(item);
            assert forall|c: u8| c <= 3 implies r.spec_shade(c) == (item >> (2 * c)) & 0x03 by {
                lemma_palette_shades(item);
            }
        }
        r
    }

    pub fn to_u8(&self) -> (r: u8)
        ensures
            r == self.spec_byte(),
    {
        (self.dot_11.to_u8() << 6) | (self.dot_10.to_u8() << 4) | (self.dot_01.to_u8() << 2)
            | self.dot_00.to_u8()
    }
}

/// Splitting a byte into four 2-bit fields and packing them again is the
/// identity.
proof fn lemma_palette_roundtrip(b: u8)
    by (bit_vector)
    ensures
        ((((b >> 6) & 0x03) << 6) | (((b >> 4) & 0x03) << 4) | (((b >> 2) & 0x03) << 2) | (b
            & 0x03)) == b,
{
}

/// Each unpacked field reads back as the matching bit-pair of the byte.
proof fn lemma_palette_shades(b: u8)
    by (bit_vector)
    ensures
        (b >> (2 * 0u8)) & 0x03 == b & 0x03,
        (b >> (2 * 1u8)) & 0x03 == (b >> 2) & 0x03,
        (b >> (2 * 2u8)) & 0x03 == (b >> 4) & 0x03,
        (b >> (2 * 3u8)) & 0x03 == (b >> 6) & 0x03,
{
}

/// One sprite record: position, tile, and attribute flags.
#[derive(Clone, Copy, PartialEq, Eq, Structural, Debug)]
pub struct Oam {
    pub y: u8,
    pub x: u8,
    pub tile: u8,
    pub flags: u8,
}

impl Oam {
    pub fn new() -> (r: Oam)
        ensures
            r == (Oam { y: 0u8, x: 0u8, tile: 0u8, flags: 0u8 }),
    {
        Oam { y: 0, x: 0, tile: 0, flags: 0 }
    }

    pub open spec fn spec_xflip(self) -> bool {
        self.flags & 0x20 != 0
    }

    pub open spec fn spec_yflip(self) -> bool {
        self.flags & 0x40 != 0
    }

    pub fn is_xflip(&self) -> (r: bool)
        ensures
            r == self.spec_xflip(),
    {
        self.flags & 0x20 != 0
    }

    pub fn is_yflip(&self) -> (r: bool)
        ensures
            r == self.spec_yflip(),
    {
        self.flags & 0x40 != 0
    }

    pub fn tileid(&self) -> (r: u8)
        ensures
            r == self.tile,
    {
        self.tile
    }

    /// Screen column of the sprite's left edge (stored X minus 8).
    pub open spec fn spec_offsetx(self) -> u8 {
        ((self.x - 8) % 0x100) as u8
    }

    /// Screen row of the sprite's top edge (stored Y minus 16).
    pub open spec fn spec_offsety(self) -> u8 {
        ((self.y - 16) % 0x100) as u8
    }

    pub fn offsetx(&self) -> (r: u8)
        ensures
            r == self.spec_offsetx(),
    {
        self.x.wrapping_sub(8)
    }

    pub fn offsety(&self) -> (r: u8)
        ensures
            r == self.spec_offsety(),
    {
        self.y.wrapping_sub(16)
    }

    /// The record's byte at offset `addr` in 0..4.
    pub open spec fn spec_byte(self, addr: int) -> u8 {
        if addr == 0 {
            self.y
        } else if addr == 1 {
            self.x
        } else if addr == 2 {
            self.tile
        } else {
            self.flags
        }
    }

    /// The record after writing its byte at offset `addr` in 0..4.
    pub open spec fn spec_written(self, addr: int, data: u8) -> Oam {
        if addr == 0 {
            Oam { y: data, ..self }
        } else if addr == 1 {
            Oam { x: data, ..self }
        } else if addr == 2 {
            Oam { tile: data, ..self }
        } else {
            Oam { flags: data, ..self }
        }
    }

    pub fn read8(&self, addr: usize) -> (r: u8)
        requires
            addr < 4,
        ensures
            r == self.spec_byte(addr as int),
    {
        if addr == 0 {
            self.y
        } else if addr == 1 {
            self.x
        } else if addr == 2 {
            self.tile
        } else {
            self.flags
        }
    }

    pub fn write8(&mut self, addr: usize, data: u8)
        requires
            addr < 4,
        ensures
            *final(self) == old(self).spec_written(addr as int, data),
    {
        if addr == 0 {
            self.y = data;
        } else if addr == 1 {
            self.x = data;
        } else if addr == 2 {
            self.tile = data;
        } else {
            self.flags = data;
        }
    }
}

} // verus!

verus! {

/// Mathematical state of the pipeline.
#[verifier::ext_equal]
pub struct PpuView {
    pub clock: u16,
    pub pixels: Seq<u8>,
    pub lcdc: u8,
    pub stat: u8,
    pub scy: u8,
    pub scx: u8,
    pub ly: u8,
    pub lyc: u8,
    pub dma: u8,
    pub bgp: u8,
    pub obp0: u8,
    pub obp1: u8,
    pub wy: u8,
    pub wx: u8,
    pub vram: Seq<u8>,
    pub oam: Seq<Oam>,
    pub dma_started: bool,
}

/// The pipeline's power-on state: registers at their reset values, the
/// tile memory, sprite table and shade buffer zeroed.
pub open spec fn reset_ppu() -> PpuView {
    PpuView {
        clock: 0u16,
        pixels: Seq::new((SCREEN_WIDTH * SCREEN_HEIGHT) as nat, |i: int| 0u8),
        lcdc: 0x91u8,
        stat: 0u8,
        scy: 0u8,
        scx: 0u8,
        ly: 0u8,
        lyc: 0u8,
        dma: 0u8,
        bgp: 0xFCu8,
        obp0: 0xFFu8,
        obp1: 0xFFu8,
        wy: 0u8,
        wx: 0u8,
        vram: Seq::new(RAM_SIZE as nat, |i: int| 0u8),
        oam: Seq::new(OAM_SPRITES as nat, |i: int| Oam { y: 0u8, x: 0u8, tile: 0u8, flags: 0u8 }),
        dma_started: false,
    }
}

/// The shade a palette byte maps a 2-bit color index to.
pub open spec fn pal_shade(palette: u8, color: u8) -> u8 {
    (palette >> ((2 * color) as u8)) & 0x03
}

impl PpuView {
    pub open spec fn wf(self) -> bool {
        &&& self.pixels.len() == SCREEN_WIDTH * SCREEN_HEIGHT
    &&& self.vram.len() == RAM_SIZE
    &&& self.oam.len() == OAM_SPRITES
    }

    /// Base of the background tile map chosen by LCDC bit 3.
    pub open spec fn bg_tilemap_base(self) -> int {
        if self.lcdc & 0x08 != 0 {
            TILEMAP1_OFFSET as int
        } else {
            TILEMAP0_OFFSET as int
        }
    }

    /// Base of the window tile map chosen by LCDC bit 6.
    pub open spec fn window_tilemap_base(self) -> int {
        if self.lcdc & 0x40 != 0 {
            TILEMAP1_OFFSET as int
        } else {
            TILEMAP0_OFFSET as int
        }
    }

    /// Address of a tile's 16 bytes under the tile-data base chosen by
    /// LCDC bit 4; the 0x8800 base indexes signed.
    pub open spec fn tile_addr(self, tileid: u8) -> int {
        if self.lcdc & 0x10 != 0 {
            TILEDATA1_OFFSET + tileid * 16
        } else {
            TILEDATA0_OFFSET + ((tileid + 0x80) % 0x100) * 16
        }
    }

    /// The 2-bit color of pixel column `x` in row `y` of the tile at
    /// `addr`: the high plane supplies the high bit.
    pub open spec fn tile_color(self, addr: int, x: u8, y: int) -> u8 {
        let line1 = self.vram[addr + 2 * y - 0x8000];
        let line2 = self.vram[addr + 2 * y + 1 - 0x8000];
        (((line2 >> ((7 - x) as u8)) & 1) << 1) | ((line1 >> ((7 - x) as u8)) & 1)
    }

    /// The 2-bit background color of screen column `x` on line `ly`.
    pub open spec fn bg_color(self, x: u8) -> u8 {
        let sx = ((x + self.scx) % 0x100) as u8;
        let sy = ((self.ly + self.scy) % 0x100) as u8;
        let index = (sx / 8) as int + (sy / 8) as int * 32;
        let tileid = self.vram[self.bg_tilemap_base() + index - 0x8000];
        self.tile_color(self.tile_addr(tileid), sx % 8, (sy % 8) as int)
    }

    /// Screen column of the window's left edge (WX minus 7).
    pub open spec fn window_posx(self) -> u8 {
        ((self.wx - 7) % 0x100) as u8
    }

    /// Is the window dropped on this line altogether?
    pub open spec fn window_skip(self) -> bool {
        self.wx >= 167 || self.wy >= 144 || self.ly < self.wy
    }

    /// The 2-bit window color of screen column `x` on line `ly`, for
    /// columns at or right of the window edge on a line the window reaches.
    pub open spec fn window_color(self, x: u8) -> u8 {
        let dx = ((x - self.window_posx()) % 0x100) as u8;
        let dy = ((self.ly - self.wy) % 0x100) as u8;
        let index = (dx / 8) as int % 32 + (dy / 8) as int * 32;
        let tileid = self.vram[self.window_tilemap_base() + index - 0x8000];
        self.tile_color(self.tile_addr(tileid), dx % 8, (dy % 8) as int)
    }

    /// Does the window overlay column `x` of the current line?
    pub open spec fn window_covers(self, x: u8) -> bool {
        self.lcdc & 0x20 != 0 && !self.window_skip() && x >= self.window_posx()
    }

    /// The pixel buffer after the background pass paints the current line.
    pub open spec fn bg_painted(self) -> Seq<u8> {
        Seq::new(
            self.pixels.len(),
            |i: int|
                if i / SCREEN_WIDTH as int == self.ly as int {
                    pal_shade(self.bgp, self.bg_color((i % SCREEN_WIDTH as int) as u8))
                } else {
                    self.pixels[i]
                },
        )
    }

    /// The pixel buffer after the window pass overlays the current line.
    pub open spec fn window_painted(self) -> Seq<u8> {
        Seq::new(
            self.pixels.len(),
            |i: int|
                if i / SCREEN_WIDTH as int == self.ly as int && !self.window_skip() && (i
                    % SCREEN_WIDTH as int) as u8 >= self.window_posx() {
                    pal_shade(self.bgp, self.window_color((i % SCREEN_WIDTH as int) as u8))
                } else {
                    self.pixels[i]
                },
        )
    }

    /// Sprite height per LCDC bit 2.
    pub open spec fn sprite_height(self) -> u8 {
        if self.lcdc & 0x04 != 0 {
            16
        } else {
            8
        }
    }

    /// The 2-bit color of pixel `(x, y)` of the sprite tile `tileid`
    /// (always fetched from the 0x8000 tile-data base).
    pub open spec fn sprite_tile_color(self, tileid: u8, x: u8, y: int) -> u8 {
        self.tile_color(TILEDATA1_OFFSET + tileid * 16, x, y)
    }

    /// What one sprite record contributes to screen cell `(cx, cy)`:
    /// `None` off the sprite, for a hidden record (X of 0), or for the
    /// transparent color 0; else the palette-mapped shade.
    pub open spec fn sprite_layer(self, attr: Oam, cx: int, cy: int) -> Option<u8> {
        if attr.x == 0 {
            None
        } else {
            let posx = (cx - attr.spec_offsetx()) % 0x100;
            let posy = (cy - attr.spec_offsety()) % 0x100;
            let x = if attr.spec_xflip() {
                (7 - posx) % 0x100
            } else {
                posx
            };
            let y = if attr.spec_yflip() {
                (self.sprite_height() - 1 - posy) % 0x100
            } else {
                posy
            };
            if posx < 8 && y < self.sprite_height() {
                let color = self.sprite_tile_color(attr.tile, x as u8, y);
                if color != 0 {
                    let palette = if attr.flags & 0x10 != 0 {
                        self.obp1
                    } else {
                        self.obp0
                    };
                    Some(pal_shade(palette, color))
                } else {
                    None
                }
            } else {
                None
            }
        }
    }

    /// The shade of cell `(cx, cy)` after the first `n` sprite records
    /// have been painted in table order; a later record paints over an
    /// earlier one.
    pub open spec fn sprites_upto(self, n: int, cx: int, cy: int) -> u8
        decreases n,
    {
        if n <= 0 {
            self.pixels[cy * SCREEN_WIDTH as int + cx]
        } else {
            match self.sprite_layer(self.oam[n - 1], cx, cy) {
                Some(s) => s,
                None => self.sprites_upto(n - 1, cx, cy),
            }
        }
    }

    /// The pixel buffer after the whole sprite pass.
    pub open spec fn sprite_pixels(self) -> Seq<u8> {
        Seq::new(
            self.pixels.len(),
            |i: int| self.sprites_upto(
                OAM_SPRITES as int,
                i % SCREEN_WIDTH as int,
                i / SCREEN_WIDTH as int,
            ),
        )
    }
}

} // verus!

verus! {

/// The four pipeline modes that STAT bits 0-1 encode.
enum PpuMode {
    VBlank,
    HBlank,
    SearchingOAM,
    TransferPixels,
}

/// The pixel pipeline.
pub struct Ppu {
    clock: u16,
    pixels: Vec<u8>,
    lcdc: u8,
    stat: u8,
    scy: u8,
    scx: u8,
    ly: u8,
    lyc: u8,
    dma: u8,
    bgp: Palette,
    obp0: Palette,
    obp1: Palette,
    wy: u8,
    wx: u8,
    vram: Ram,
    oam: Vec<Oam>,
    oam_dma_started: bool,
}

impl View for Ppu {
    type V = PpuView;

    closed spec fn view(&self) -> PpuView {
        PpuView {
            clock: self.clock,
            pixels: self.pixels@,
            lcdc: self.lcdc,
            stat: self.stat,
            scy: self.scy,
            scx: self.scx,
            ly: self.ly,
            lyc: self.lyc,
            dma: self.dma,
            bgp: self.bgp.spec_byte(),
            obp0: self.obp0.spec_byte(),
            obp1: self.obp1.spec_byte(),
            wy: self.wy,
            wx: self.wx,
            vram: self.vram@,
            oam: self.oam@,
            dma_started: self.oam_dma_started,
        }
    }
}

impl Ppu {
    pub open spec fn wf(&self) -> bool {
        self@.wf()
    }

    pub fn new() -> (r: Ppu)
        ensures
            r.wf(),
            r@ == reset_ppu(),
    {
        let mut pixels: Vec<u8> = Vec::new();
        let mut i: usize = 0;
        while i < SCREEN_WIDTH * SCREEN_HEIGHT
            invariant
                i <= SCREEN_WIDTH * SCREEN_HEIGHT,
                pixels@.len() == i,
                forall|j: int| 0 <= j < i ==> pixels@[j] == 0u8,
            decreases SCREEN_WIDTH * SCREEN_HEIGHT - i,
        {
            pixels.push(0u8);
            i += 1;
        }
        let mut oam: Vec<Oam> = Vec::new();
        let mut k: usize = 0;
        while k < OAM_SPRITES
            invariant
                k <= OAM_SPRITES,
                oam@.len() == k,
                forall|j: int| 0 <= j < k ==> oam@[j] == (Oam { y: 0u8, x: 0u8, tile: 0u8, flags: 0u8 }),
            decreases OAM_SPRITES - k,
        {
            oam.push(Oam::new());
            k += 1;
        }
        proof {
            assert(pixels@ =~= Seq::new((SCREEN_WIDTH * SCREEN_HEIGHT) as nat, |i: int| 0u8));
            assert(oam@ =~= Seq::new(
                OAM_SPRITES as nat,
                |i: int| Oam { y: 0u8, x: 0u8, tile: 0u8, flags: 0u8 },
            ));
        }
        Ppu {
            clock: 0,
            pixels,
            lcdc: 0x91,
            stat: 0,
            scy: 0,
            scx: 0,
            ly: 0,
            lyc: 0,
            dma: 0,
            bgp: Palette::from_u8(0xFC),
            obp0: Palette::from_u8(0xFF),
            obp1: Palette::from_u8(0xFF),
            wy: 0,
            wx: 0,
            vram: Ram::new(),
            oam,
            oam_dma_started: false,
        }
    }

    /// A copy of the shade buffer, row-major from the top-left corner.
    pub fn get_pixels(&self) -> (r: Vec<u8>)
        requires
            self.wf(),
        ensures
            r@ == self@.pixels,
    {
        let mut out: Vec<u8> = Vec::new();
        let mut i: usize = 0;
        while i < self.pixels.len()
            invariant
                i <= self.pixels@.len(),
                out@ == self.pixels@.subrange(0, i as int),
            decreases self.pixels@.len() - i,
        {
            out.push(self.pixels[i]);
            proof {
                assert(out@ =~= self.pixels@.subrange(0, i + 1));
            }
            i += 1;
        }
        proof {
            assert(out@ =~= self.pixels@);
        }
        out
    }

    /// Is an OAM transfer latched and waiting for the bus?
    pub fn dma_started(&self) -> (r: bool)
        ensures
            r == self@.dma_started,
    {
        self.oam_dma_started
    }

    /// The bus has finished the copy; drop the latch.
    pub fn stop_dma(&mut self)
        ensures
            final(self)@ == (PpuView { dma_started: false, ..old(self)@ }),
    {
        self.oam_dma_started = false;
    }
}

impl Io for Ppu {
    open spec fn io_inv(&self) -> bool {
        self.wf()
    }

    open spec fn io_ok(&self, addr: usize) -> bool {
        (0x8000 <= addr < 0xA000) || (0xFE00 <= addr < 0xFEA0) || (0xFF40 <= addr <= 0xFF4B)
    }

    open spec fn io_read(&self, addr: usize) -> u8 {
        if 0x8000 <= addr < 0xA000 {
            self@.vram[(addr - 0x8000) as int]
        } else if 0xFE00 <= addr < 0xFEA0 {
            self@.oam[((addr - 0xFE00) / 4) as int].spec_byte((addr - 0xFE00) % 4)
        } else if addr == 0xFF40 {
            self@.lcdc
        } else if addr == 0xFF41 {
            self@.stat
        } else if addr == 0xFF42 {
            self@.scy
        } else if addr == 0xFF43 {
            self@.scx
        } else if addr == 0xFF44 {
            self@.ly
        } else if addr == 0xFF45 {
            self@.lyc
        } else if addr == 0xFF46 {
            self@.dma
        } else if addr == 0xFF47 {
            self@.bgp
        } else if addr == 0xFF48 {
            self@.obp0
        } else if addr == 0xFF49 {
            self@.obp1
        } else if addr == 0xFF4A {
            self@.wy
        } else {
            self@.wx
        }
    }

    open spec fn io_write(&self, addr: usize, data: u8) -> PpuView {
        if 0x8000 <= addr < 0xA000 {
            PpuView { vram: self@.vram.update((addr - 0x8000) as int, data), ..self@ }
        } else if 0xFE00 <= addr < 0xFEA0 {
            let idx = ((addr - 0xFE00) / 4) as int;
            PpuView {
                oam: self@.oam.update(idx, self@.oam[idx].spec_written((addr - 0xFE00) % 4, data)),
                ..self@
            }
        } else if addr == 0xFF40 {
            PpuView { lcdc: data, ..self@ }
        } else if addr == 0xFF41 {
            PpuView { stat: data & 0x7F, ..self@ }
        } else if addr == 0xFF42 {
            PpuView { scy: data, ..self@ }
        } else if addr == 0xFF43 {
            PpuView { scx: data, ..self@ }
        } else if addr == 0xFF44 {
            PpuView { ly: data, ..self@ }
        } else if addr == 0xFF45 {
            PpuView { lyc: data, ..self@ }
        } else if addr == 0xFF46 {
            PpuView { dma: data, dma_started: true, ..self@ }
        } else if addr == 0xFF47 {
            PpuView { bgp: data, ..self@ }
        } else if addr == 0xFF48 {
            PpuView { obp0: data, ..self@ }
        } else if addr == 0xFF49 {
            PpuView { obp1: data, ..self@ }
        } else if addr == 0xFF4A {
            PpuView { wy: data, ..self@ }
        } else {
            PpuView { wx: data, ..self@ }
        }
    }

    fn read8(&self, addr: usize) -> u8 {
        if 0x8000 <= addr && addr < 0xA000 {
            proof {
                assert((addr & 0x1FFF) == addr - 0x8000) by (bit_vector)
                    requires
                        0x8000 <= addr < 0xA000,
                ;
            }
            self.vram.read8(addr & 0x1FFF)
        } else if 0xFE00 <= addr && addr < 0xFEA0 {
            proof {
                assert((addr & 0xFF) == (addr - 0xFE00) as usize) by (bit_vector)
                    requires
                        0xFE00 <= addr < 0xFEA0,
                ;
            }
            self.oam[(addr & 0xFF) / 4].read8(addr % 4)
        } else if addr == 0xFF40 {
            self.lcdc
        } else if addr == 0xFF41 {
            self.stat
        } else if addr == 0xFF42 {
            self.scy
        } else if addr == 0xFF43 {
            self.scx
        } else if addr == 0xFF44 {
            self.ly
        } else if addr == 0xFF45 {
            self.lyc
        } else if addr == 0xFF46 {
            self.dma
        } else if addr == 0xFF47 {
            self.bgp.to_u8()
        } else if addr == 0xFF48 {
            self.obp0.to_u8()
        } else if addr == 0xFF49 {
            self.obp1.to_u8()
        } else if addr == 0xFF4A {
            self.wy
        } else {
            self.wx
        }
    }

    fn write8(&mut self, addr: usize, data: u8) {
        if 0x8000 <= addr && addr < 0xA000 {
            proof {
                assert((addr & 0x1FFF) == addr - 0x8000) by (bit_vector)
                    requires
                        0x8000 <= addr < 0xA000,
                ;
            }
            self.vram.write8(addr & 0x1FFF, data);
        } else if 0xFE00 <= addr && addr < 0xFEA0 {
            proof {
                assert((addr & 0xFF) == (addr - 0xFE00) as usize) by (bit_vector)
                    requires
                        0xFE00 <= addr < 0xFEA0,
                ;
            }
            let idx = (addr & 0xFF) / 4;
            let mut entry = self.oam[idx];
            entry.write8(addr % 4, data);
            self.oam.set(idx, entry);
        } else if addr == 0xFF40 {
            self.lcdc = data;
        } else if addr == 0xFF41 {
            self.stat = data & 0x7F;
        } else if addr == 0xFF42 {
            self.scy = data;
        } else if addr == 0xFF43 {
            self.scx = data;
        } else if addr == 0xFF44 {
            self.ly = data;
        } else if addr == 0xFF45 {
            self.lyc = data;
        } else if addr == 0xFF46 {
            self.dma = data;
            self.oam_dma_started = true;
        } else if addr == 0xFF47 {
            self.bgp = Palette::from_u8(data);
        } else if addr == 0xFF48 {
            self.obp0 = Palette::from_u8(data);
        } else if addr == 0xFF49 {
            self.obp1 = Palette::from_u8(data);
        } else if addr == 0xFF4A {
            self.wy = data;
        } else {
            self.wx = data;
        }
    }
}

} // verus!

verus! {

impl PpuView {
    /// STAT after the mode table is applied, with the HBlank-entry
    /// interrupt signal.
    #[verifier::opaque]
    pub open spec fn mode_updated(self) -> (PpuView, bool) {
        if self.ly > 143 {
            (PpuView { stat: (self.stat & !0x02) | 0x01, ..self }, false)
        } else if self.clock <= 80 {
            (PpuView { stat: (self.stat & !0x01) | 0x02, ..self }, false)
        } else if 167 <= self.clock <= 291 {
            (PpuView { stat: self.stat | 0x03, ..self }, false)
        } else {
            (PpuView { stat: self.stat & !0x03, ..self }, self.stat & 0x08 != 0)
        }
    }

    /// The finished visible line drawn into the pixel buffer: the
    /// background where it is enabled, the window overlay where that is.
    #[verifier::opaque]
    pub open spec fn line_rendered(self) -> PpuView {
        if self.ly < 144 {
            let va = if self.lcdc & 0x01 != 0 {
                PpuView { pixels: self.bg_painted(), ..self }
            } else {
                self
            };
            if va.lcdc & 0x20 != 0 {
                PpuView { pixels: va.window_painted(), ..va }
            } else {
                va
            }
        } else {
            self
        }
    }

    /// The sprite pass applied where sprites are enabled.
    #[verifier::opaque]
    pub open spec fn sprites_passed(self) -> PpuView {
        if self.lcdc & 0x02 != 0 {
            PpuView { pixels: self.sprite_pixels(), ..self }
        } else {
            self
        }
    }

    /// LY wrapped back to 0 once it passes 153, with the line-0
    /// background redrawn where it is enabled.
    #[verifier::opaque]
    pub open spec fn frame_wrapped(self) -> PpuView {
        if self.ly >= 154 {
            let vz = PpuView { ly: 0u8, ..self };
            if vz.lcdc & 0x01 != 0 {
                PpuView { pixels: vz.bg_painted(), ..vz }
            } else {
                vz
            }
        } else {
            self
        }
    }

    /// One machine step of the pipeline: the next state, the VBlank
    /// interrupt signal, and the LCDC-status interrupt signal. At a line
    /// boundary the finished visible line is drawn, LY advances, VBlank
    /// onset (the new LY reaching 144) raises its interrupt and runs the
    /// sprite pass, LY wraps to 0 after line 153 with the line-0
    /// background redrawn, and the coincidence bit follows the resulting
    /// LY.
    pub open spec fn ticked(self) -> (PpuView, bool, bool) {
        let (v1, irq0) = self.mode_updated();
        let v2 = PpuView { clock: ((v1.clock + 4) % 0x10000) as u16, ..v1 };
        if v2.clock >= CLOCKS_PER_LINE {
            let v3 = v2.line_rendered();
            let v4 = PpuView { ly: ((v3.ly + 1) % 0x100) as u8, ..v3 };
            let vblank = v4.ly == 144;
            let v5 = if vblank {
                v4.sprites_passed()
            } else {
                v4
            };
            let lcdc1 = irq0 || (vblank && v4.stat & 0x10 != 0);
            let v6 = v5.frame_wrapped();
            let (v7, lcdc2) = if v6.ly == v6.lyc {
                (PpuView { stat: v6.stat | 0x04, ..v6 }, lcdc1 || (v6.stat & 0x40 != 0))
            } else {
                (PpuView { stat: v6.stat & !0x03, ..v6 }, lcdc1)
            };
            let v8 = PpuView { clock: (v7.clock - CLOCKS_PER_LINE) as u16, ..v7 };
            (v8, vblank, lcdc2)
        } else {
            (v2, false, irq0)
        }
    }
}

/// In a byte packed from four 2-bit fields, each field reads back intact.
proof fn lemma_pal_pack(a: u8, b: u8, c: u8, d: u8)
    by (bit_vector)
    requires
        a <= 3,
        b <= 3,
        c <= 3,
        d <= 3,
    ensures
        (((a << 6) | (b << 4) | (c << 2) | d) >> (2 * 0u8)) & 0x03 == d,
        (((a << 6) | (b << 4) | (c << 2) | d) >> (2 * 1u8)) & 0x03 == c,
        (((a << 6) | (b << 4) | (c << 2) | d) >> (2 * 2u8)) & 0x03 == b,
        (((a << 6) | (b << 4) | (c << 2) | d) >> (2 * 3u8)) & 0x03 == a,
{
}

/// Two single-bit planes combine to a 2-bit color.
proof fn lemma_two_planes_bound(hi: u8, lo: u8, s: u8)
    by (bit_vector)
    ensures
        ((((hi >> s) & 1) << 1) | ((lo >> s) & 1)) <= 3,
{
}

impl Ppu {
    /// The shade a palette assigns to a 2-bit color index.
    fn shade_of(palette: &Palette, color: u8) -> (r: u8)
        requires
            color <= 3,
        ensures
            r == pal_shade(palette.spec_byte(), color),
    {
        proof {
            lemma_pal_pack(
                palette.dot_11.spec_u8(),
                palette.dot_10.spec_u8(),
                palette.dot_01.spec_u8(),
                palette.dot_00.spec_u8(),
            );
        }
        if color == 0 {
            palette.dot_00.to_u8()
        } else if color == 1 {
            palette.dot_01.to_u8()
        } else if color == 2 {
            palette.dot_10.to_u8()
        } else {
            palette.dot_11.to_u8()
        }
    }

    /// The 2-bit color of pixel `(x, y)` of the tile at `addr`.
    #[verifier::rlimit(100)]
    #[verifier::spinoff_prover]
    fn tile_color_at(&self, addr: usize, x: u8, y: usize) -> (r: u8)
        requires
            self.wf(),
            x < 8,
            0x8000 <= addr,
            addr + 2 * y + 1 < 0xA000,
        ensures
            r == self@.tile_color(addr as int, x, y as int),
            r <= 3,
    {
        let off = addr - 0x8000 + 2 * y;
        let line1 = self.vram.read8(off);
        let line2 = self.vram.read8(off + 1);
        let lsb = (line1 >> (7 - x)) & 1;
        let msb = (line2 >> (7 - x)) & 1;
        let r = (msb << 1) | lsb;
        proof {
            lemma_two_planes_bound(line2, line1, (7 - x) as u8);
        }
        r
    }

    /// Address of a tile's data under the selected tile-data base.
    fn get_tile_addr(&self, tileid: u8) -> (r: usize)
        ensures
            r == self@.tile_addr(tileid),
            0x8000 <= r,
            r + 16 <= 0xA000,
    {
        if self.lcdc & 0x10 != 0 {
            TILEDATA1_OFFSET + (tileid as usize) * 0x10
        } else {
            TILEDATA0_OFFSET + (tileid.wrapping_add(0x80) as usize) * 0x10
        }
    }

    /// The background shade of screen column `x` on the current line.
    #[verifier::rlimit(100)]
    #[verifier::spinoff_prover]
    fn bg_shade_at(&self, x: u8) -> (r: u8)
        requires
            self.wf(),
            x < 160,
        ensures
            r == pal_shade(self@.bgp, self@.bg_color(x)),
    {
        let sx = x.wrapping_add(self.scx);
        let sy = self.ly.wrapping_add(self.scy);
        let index = (sx / 8) as usize + (sy / 8) as usize * 32;
        let base = if self.lcdc & 0x08 != 0 {
            TILEMAP1_OFFSET
        } else {
            TILEMAP0_OFFSET
        };
        let tileid = self.vram.read8(base - 0x8000 + index);
        let color = self.tile_color_at(self.get_tile_addr(tileid), sx % 8, (sy % 8) as usize);
        Ppu::shade_of(&self.bgp, color)
    }

    /// The window shade of screen column `x` on the current line, for a
    /// column the window covers.
    #[verifier::rlimit(100)]
    #[verifier::spinoff_prover]
    fn window_shade_at(&self, x: u8) -> (r: u8)
        requires
            self.wf(),
            x < 160,
        ensures
            r == pal_shade(self@.bgp, self@.window_color(x)),
    {
        let posx = self.wx.wrapping_sub(7);
        let dx = x.wrapping_sub(posx);
        let dy = self.ly.wrapping_sub(self.wy);
        proof {
            assert(posx == self@.window_posx());
            assert(dx == ((x - self@.window_posx()) % 0x100) as u8);
            assert(dy == ((self@.ly - self@.wy) % 0x100) as u8);
        }
        let index = ((dx / 8) as usize) % 32 + (dy / 8) as usize * 32;
        let base = if self.lcdc & 0x40 != 0 {
            TILEMAP1_OFFSET
        } else {
            TILEMAP0_OFFSET
        };
        proof {
            assert(dx / 8 < 32 && dy / 8 < 32);
            assert(index == (dx / 8) as int % 32 + (dy / 8) as int * 32);
            assert(index < 1024);
            assert(base == self@.window_tilemap_base());
        }
        let tileid = self.vram.read8(base - 0x8000 + index);
        proof {
            assert(tileid == self@.vram[self@.window_tilemap_base() + index - 0x8000]);
        }
        let color = self.tile_color_at(self.get_tile_addr(tileid), dx % 8, (dy % 8) as usize);
        proof {
            assert(color == self@.tile_color(self@.tile_addr(tileid), dx % 8, (dy % 8) as int));
            assert(color == self@.window_color(x));
        }
        Ppu::shade_of(&self.bgp, color)
    }

    /// Paint the background of the current line into the pixel buffer.
    fn build_bg(&mut self)
        requires
            old(self).wf(),
            old(self)@.ly < 144,
        ensures
            final(self).wf(),
            final(self)@ == (PpuView { pixels: old(self)@.bg_painted(), ..old(self)@ }),
    {
        let ly = self.ly as usize;
        let mut x: usize = 0;
        while x < SCREEN_WIDTH
            invariant
                old(self).wf(),
                old(self)@.ly < 144,
                x <= SCREEN_WIDTH,
                self@ == (PpuView { pixels: self@.pixels, ..old(self)@ }),
                ly == old(self)@.ly,
                self@.pixels.len() == old(self)@.pixels.len(),
                forall|i: int|
                    ly * SCREEN_WIDTH <= i < ly * SCREEN_WIDTH + x ==> self@.pixels[i]
                        == old(self)@.bg_painted()[i],
                forall|i: int|
                    0 <= i < self@.pixels.len() && !(ly * SCREEN_WIDTH <= i < ly * SCREEN_WIDTH + x)
                        ==> self@.pixels[i] == old(self)@.pixels[i],
            decreases SCREEN_WIDTH - x,
        {
            let shade = self.bg_shade_at(x as u8);
            self.pixels.set(ly * SCREEN_WIDTH + x, shade);
            x += 1;
        }
        proof {
            assert(self@.pixels =~= old(self)@.bg_painted());
            assert(self@ =~= (PpuView { pixels: old(self)@.bg_painted(), ..old(self)@ }));
        }
    }

    /// Overlay the window on the current line where it reaches.
    fn build_window(&mut self)
        requires
            old(self).wf(),
            old(self)@.ly < 144,
        ensures
            final(self).wf(),
            final(self)@ == (PpuView { pixels: old(self)@.window_painted(), ..old(self)@ }),
    {
        if self.wx >= 167 || self.wy >= 144 {
            proof {
                assert(self@.pixels =~= old(self)@.window_painted());
                assert(self@ =~= (PpuView { pixels: old(self)@.window_painted(), ..old(self)@ }));
            }
            return ;
        }
        if self.ly < self.wy {
            proof {
                assert(self@.pixels =~= old(self)@.window_painted());
                assert(self@ =~= (PpuView { pixels: old(self)@.window_painted(), ..old(self)@ }));
            }
            return ;
        }
        let ly = self.ly as usize;
        let posx = self.wx.wrapping_sub(7);
        let mut x: usize = 0;
        while x < SCREEN_WIDTH
            invariant
                old(self).wf(),
                old(self)@.ly < 144,
                !old(self)@.window_skip(),
                x <= SCREEN_WIDTH,
                self@ == (PpuView { pixels: self@.pixels, ..old(self)@ }),
                ly == old(self)@.ly,
                posx == old(self)@.window_posx(),
                self@.pixels.len() == old(self)@.pixels.len(),
                forall|i: int|
                    ly * SCREEN_WIDTH <= i < ly * SCREEN_WIDTH + x ==> self@.pixels[i]
                        == old(self)@.window_painted()[i],
                forall|i: int|
                    0 <= i < self@.pixels.len() && !(ly * SCREEN_WIDTH <= i < ly * SCREEN_WIDTH + x)
                        ==> self@.pixels[i] == old(self)@.pixels[i],
            decreases SCREEN_WIDTH - x,
        {
            if (x as u8) >= posx {
                let shade = self.window_shade_at(x as u8);
                self.pixels.set(ly * SCREEN_WIDTH + x, shade);
            }
            x += 1;
        }
        proof {
            assert(self@.pixels =~= old(self)@.window_painted());
            assert(self@ =~= (PpuView { pixels: old(self)@.window_painted(), ..old(self)@ }));
        }
    }
}

} // verus!

verus! {

impl Ppu {
    /// Sprite height per LCDC bit 2.
    fn sprite_size(&self) -> (r: u8)
        ensures
            r == self@.sprite_height(),
    {
        if self.lcdc & 0x04 != 0 {
            16
        } else {
            8
        }
    }

    /// What one sprite record contributes to screen cell `(cx, cy)`.
    #[verifier::rlimit(100)]
    #[verifier::spinoff_prover]
    fn sprite_layer_at(&self, attr: Oam, cx: usize, cy: usize) -> (r: Option<u8>)
        requires
            self.wf(),
            cx < SCREEN_WIDTH,
            cy < SCREEN_HEIGHT,
        ensures
            r == self@.sprite_layer(attr, cx as int, cy as int),
    {
        if attr.x == 0 {
            return None;
        }
        let posx = (cx as u8).wrapping_sub(attr.offsetx());
        let posy = (cy as u8).wrapping_sub(attr.offsety());
        let x = if attr.is_xflip() {
            7u8.wrapping_sub(posx)
        } else {
            posx
        };
        let height = self.sprite_size();
        let y = if attr.is_yflip() {
            (height - 1).wrapping_sub(posy)
        } else {
            posy
        };
        proof {
            assert(posx == (cx - attr.spec_offsetx()) % 0x100);
            assert(posy == (cy - attr.spec_offsety()) % 0x100);
            assert(x == (if attr.spec_xflip() {
                (7 - (cx - attr.spec_offsetx()) % 0x100) % 0x100
            } else {
                (cx - attr.spec_offsetx()) % 0x100
            }));
            assert(y == (if attr.spec_yflip() {
                (self@.sprite_height() - 1 - (cy - attr.spec_offsety()) % 0x100) % 0x100
            } else {
                (cy - attr.spec_offsety()) % 0x100
            }));
        }
        if posx < 8 && y < height {
            let addr = TILEDATA1_OFFSET + (attr.tile as usize) * 0x10;
            proof {
                assert(addr == TILEDATA1_OFFSET + attr.tile * 16);
                assert(addr + 2 * (y as usize) + 1 < 0xA000);
            }
            let color = self.tile_color_at(addr, x, y as usize);
            proof {
                assert(color == self@.sprite_tile_color(attr.tile, x, y as int));
            }
            if color != 0 {
                let palette = if attr.flags & 0x10 != 0 {
                    &self.obp1
                } else {
                    &self.obp0
                };
                let shade = Ppu::shade_of(palette, color);
                proof {
                    assert(Some(shade) == self@.sprite_layer(attr, cx as int, cy as int));
                }
                Some(shade)
            } else {
                proof {
                    assert(self@.sprite_layer(attr, cx as int, cy as int) is None);
                }
                None
            }
        } else {
            proof {
                assert(self@.sprite_layer(attr, cx as int, cy as int) is None);
            }
            None
        }
    }

    /// Paint all forty sprite records over the pixel buffer, a later
    /// record over an earlier one, color 0 transparent.
    fn build_sprite(&mut self)
        requires
            old(self).wf(),
        ensures
            final(self).wf(),
            final(self)@ == (PpuView { pixels: old(self)@.sprite_pixels(), ..old(self)@ }),
    {
        let mut cy: usize = 0;
        while cy < SCREEN_HEIGHT
            invariant
                old(self).wf(),
                cy <= SCREEN_HEIGHT,
                self@ == (PpuView { pixels: self@.pixels, ..old(self)@ }),
                self@.pixels.len() == old(self)@.pixels.len(),
                forall|i: int|
                    0 <= i < cy * SCREEN_WIDTH ==> self@.pixels[i] == old(self)@.sprite_pixels()[i],
                forall|i: int|
                    cy * SCREEN_WIDTH <= i < self@.pixels.len() ==> self@.pixels[i] == old(
                        self,
                    )@.pixels[i],
            decreases SCREEN_HEIGHT - cy,
        {
            let mut cx: usize = 0;
            while cx < SCREEN_WIDTH
                invariant
                    old(self).wf(),
                    cy < SCREEN_HEIGHT,
                    cx <= SCREEN_WIDTH,
                    self@ == (PpuView { pixels: self@.pixels, ..old(self)@ }),
                    self@.pixels.len() == old(self)@.pixels.len(),
                    forall|i: int|
                        0 <= i < cy * SCREEN_WIDTH + cx ==> self@.pixels[i] == old(
                            self,
                        )@.sprite_pixels()[i],
                    forall|i: int|
                        cy * SCREEN_WIDTH + cx <= i < self@.pixels.len() ==> self@.pixels[i] == old(
                            self,
                        )@.pixels[i],
                decreases SCREEN_WIDTH - cx,
            {
                let cell = cy * SCREEN_WIDTH + cx;
                let mut val = self.pixels[cell];
                let mut i: usize = 0;
                while i < OAM_SPRITES
                    invariant
                        old(self).wf(),
                        cy < SCREEN_HEIGHT,
                        cx < SCREEN_WIDTH,
                        i <= OAM_SPRITES,
                        cell == cy * SCREEN_WIDTH + cx,
                        self@ == (PpuView { pixels: self@.pixels, ..old(self)@ }),
                        self@.pixels.len() == old(self)@.pixels.len(),
                        self@.pixels[cell as int] == old(self)@.pixels[cell as int],
                        val == old(self)@.sprites_upto(i as int, cx as int, cy as int),
                        forall|j: int|
                            0 <= j < cy * SCREEN_WIDTH + cx ==> self@.pixels[j] == old(
                                self,
                            )@.sprite_pixels()[j],
                        forall|j: int|
                            cy * SCREEN_WIDTH + cx <= j < self@.pixels.len() ==> self@.pixels[j]
                                == old(self)@.pixels[j],
                    decreases OAM_SPRITES - i,
                {
                    let attr = self.oam[i];
                    match self.sprite_layer_at(attr, cx, cy) {
                        Some(s) => {
                            val = s;
                        },
                        None => {},
                    }
                    i += 1;
                }
                self.pixels.set(cell, val);
                cx += 1;
            }
            proof {
                assert(cy * SCREEN_WIDTH + SCREEN_WIDTH == (cy + 1) * SCREEN_WIDTH);
            }
            cy += 1;
        }
        proof {
            assert forall|i: int| 0 <= i < self@.pixels.len() implies self@.pixels[i] == old(
                self,
            )@.sprite_pixels()[i] by {
                assert(i < SCREEN_HEIGHT * SCREEN_WIDTH);
            }
            assert(self@.pixels =~= old(self)@.sprite_pixels());
            assert(self@ =~= (PpuView { pixels: old(self)@.sprite_pixels(), ..old(self)@ }));
        }
    }

    /// Draw the finished visible line: background, then window overlay.
    fn render_line(&mut self)
        requires
            old(self).wf(),
        ensures
            final(self).wf(),
            final(self)@ == old(self)@.line_rendered(),
            final(self)@.clock == old(self)@.clock,
            final(self)@.ly == old(self)@.ly,
            final(self)@.stat == old(self)@.stat,
            final(self)@.lyc == old(self)@.lyc,
            final(self)@.lcdc == old(self)@.lcdc,
    {
        proof {
            reveal(PpuView::line_rendered);
        }
        if self.ly < 144 {
            if self.lcdc & 0x01 != 0 {
                self.build_bg();
            }
            if self.lcdc & 0x20 != 0 {
                self.build_window();
            }
        }
    }

    /// Run the sprite pass where sprites are enabled.
    fn sprites_pass(&mut self)
        requires
            old(self).wf(),
        ensures
            final(self).wf(),
            final(self)@ == old(self)@.sprites_passed(),
            final(self)@.clock == old(self)@.clock,
            final(self)@.ly == old(self)@.ly,
            final(self)@.stat == old(self)@.stat,
            final(self)@.lyc == old(self)@.lyc,
            final(self)@.lcdc == old(self)@.lcdc,
    {
        proof {
            reveal(PpuView::sprites_passed);
        }
        if self.lcdc & 0x02 != 0 {
            self.build_sprite();
        }
    }

    /// Wrap LY to 0 once it passes 153 and redraw the line-0 background.
    fn wrap_frame(&mut self)
        requires
            old(self).wf(),
        ensures
            final(self).wf(),
            final(self)@ == old(self)@.frame_wrapped(),
            final(self)@.clock == old(self)@.clock,
            final(self)@.stat == old(self)@.stat,
            final(self)@.lyc == old(self)@.lyc,
            final(self)@.ly == (if old(self)@.ly >= 154 {
                0u8
            } else {
                old(self)@.ly
            }),
    {
        proof {
            reveal(PpuView::frame_wrapped);
        }
        if self.ly >= 144 + LCD_BLANK_HEIGHT {
            self.ly = 0;
            if self.lcdc & 0x01 != 0 {
                self.build_bg();
            }
        }
    }

    /// Write a mode into STAT bits 0-1.
    fn switch_mode(&mut self, mode: PpuMode)
        ensures
            final(self)@ == (PpuView {
                stat: match mode {
                    PpuMode::HBlank => old(self)@.stat & !0x03,
                    PpuMode::VBlank => (old(self)@.stat & !0x02) | 0x01,
                    PpuMode::SearchingOAM => (old(self)@.stat & !0x01) | 0x02,
                    PpuMode::TransferPixels => old(self)@.stat | 0x03,
                },
                ..old(self)@
            }),
    {
        match mode {
            PpuMode::HBlank => {
                self.stat = self.stat & !0x03;
            },
            PpuMode::VBlank => {
                self.stat = (self.stat & !0x02) | 0x01;
            },
            PpuMode::SearchingOAM => {
                self.stat = (self.stat & !0x01) | 0x02;
            },
            PpuMode::TransferPixels => {
                self.stat = self.stat | 0x03;
            },
        }
    }

    /// Apply the mode table for the current line position; the result asks
    /// for the LCDC-status interrupt on HBlank entry.
    fn update_mode(&mut self) -> (r: bool)
        ensures
            final(self)@ == old(self)@.mode_updated().0,
            r == old(self)@.mode_updated().1,
            old(self).wf() ==> final(self).wf(),
            final(self)@.clock == old(self)@.clock,
            final(self)@.ly == old(self)@.ly,
            final(self)@.lyc == old(self)@.lyc,
    {
        proof {
            reveal(PpuView::mode_updated);
        }
        if self.ly > 143 {
            self.switch_mode(PpuMode::VBlank);
            false
        } else if self.clock <= 80 {
            self.switch_mode(PpuMode::SearchingOAM);
            false
        } else if 167 <= self.clock && self.clock <= 291 {
            self.switch_mode(PpuMode::TransferPixels);
            false
        } else {
            let r = self.stat & 0x08 != 0;
            self.switch_mode(PpuMode::HBlank);
            r
        }
    }

    /// One machine step: advance the line clock, drive the mode state
    /// machine, render at line boundaries, and report the VBlank and
    /// LCDC-status interrupts this step raises.
    #[verifier::rlimit(100)]
    pub fn tick(&mut self) -> (r: (Option<InterruptKind>, Option<InterruptKind>))
        requires
            old(self).wf(),
        ensures
            final(self).wf(),
            final(self)@ == old(self)@.ticked().0,
            r.0 == (if old(self)@.ticked().1 {
                Some(InterruptKind::Vblank)
            } else {
                None::<InterruptKind>
            }),
            r.1 == (if old(self)@.ticked().2 {
                Some(InterruptKind::LcdcStatus)
            } else {
                None::<InterruptKind>
            }),
    {
        let mut vblank_irq = false;
        let mut lcdc_irq = self.update_mode();
        self.clock = self.clock.wrapping_add(4);
        let ghost v2 = self@;
        proof {
            assert(v2 == (PpuView {
                clock: ((old(self)@.mode_updated().0.clock + 4) % 0x10000) as u16,
                ..old(self)@.mode_updated().0
            }));
        }
        if self.clock >= CLOCKS_PER_LINE {
            self.render_line();
            self.ly = self.ly.wrapping_add(1);
            let ghost v4 = self@;
            proof {
                assert(v4 == (PpuView {
                    ly: ((v2.line_rendered().ly + 1) % 0x100) as u8,
                    ..v2.line_rendered()
                }));
            }
            if self.ly == 144 {
                vblank_irq = true;
                if self.stat & 0x10 != 0 {
                    lcdc_irq = true;
                }
                self.sprites_pass();
            }
            let ghost v5 = self@;
            proof {
                assert(v5 == (if v4.ly == 144 {
                    v4.sprites_passed()
                } else {
                    v4
                }));
            }
            self.wrap_frame();
            let ghost v6 = self@;
            proof {
                assert(v6 == v5.frame_wrapped());
            }
            if self.ly == self.lyc {
                if self.stat & 0x40 != 0 {
                    lcdc_irq = true;
                }
                self.stat = self.stat | 0x04;
            } else {
                self.switch_mode(PpuMode::HBlank);
            }
            let ghost v7 = self@;
            proof {
                assert(v7 == (if v6.ly == v6.lyc {
                    PpuView { stat: v6.stat | 0x04, ..v6 }
                } else {
                    PpuView { stat: v6.stat & !0x03, ..v6 }
                }));
            }
            self.clock = self.clock - CLOCKS_PER_LINE;
            proof {
                assert(self@ == (PpuView { clock: (v7.clock - CLOCKS_PER_LINE) as u16, ..v7 }));
                assert(self@ == old(self)@.ticked().0);
            }
        }
        let vb = if vblank_irq {
            Some(InterruptKind::Vblank)
        } else {
            None
        };
        let st = if lcdc_irq {
            Some(InterruptKind::LcdcStatus)
        } else {
            None
        };
        (vb, st)
    }
}

} // verus!
