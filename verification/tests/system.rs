use gbr::cartridge::Cartridge;
use gbr::interrupt::{Interrupt, InterruptKind};
use gbr::mmu::{Cartridge as MapCartridge, Io as MapIo, Mmu};
use gbr::pad::{Key, Pad};
use gbr::ppu::Ppu;
use gbr::timer::Timer;
use gbr::CoreError;
use gbr::Cpu;
use gbr::Io;

// Every byte store returns the most recent write, with the echo region
// and the zero page folding onto work RAM and high RAM.
#[test]
fn ram_read_back_with_mirrors() {
    let mut cpu = Cpu::new();
    cpu.bus.write8(0xC123, 0xAB);
    assert_eq!(cpu.bus.read8(0xC123), 0xAB);
    assert_eq!(cpu.bus.read8(0xE123), 0xAB);
    cpu.bus.write8(0xE500, 0x77);
    assert_eq!(cpu.bus.read8(0xC500), 0x77);
    cpu.bus.write8(0xFF85, 0x12);
    assert_eq!(cpu.bus.read8(0xFF85), 0x12);
    cpu.bus.write8(0x8010, 0x34);
    assert_eq!(cpu.bus.read8(0x8010), 0x34);
    cpu.bus.write8(0xFE04, 0x56);
    assert_eq!(cpu.bus.read8(0xFE04), 0x56);
    // the unusable holes read as zero and drop writes
    cpu.bus.write8(0xFEA5, 0x99);
    assert_eq!(cpu.bus.read8(0xFEA5), 0);
    assert_eq!(cpu.bus.read8(0xFF60), 0);
}

// Writing any byte to a palette register reads back bit-exactly.
#[test]
fn palette_round_trip() {
    let mut ppu = Ppu::new();
    let samples = [0x00u8, 0xE4, 0x1B, 0xFF, 0x5A, 0xC3];
    for &b in samples.iter() {
        ppu.write8(0xFF47, b);
        assert_eq!(ppu.read8(0xFF47), b);
        ppu.write8(0xFF48, b);
        assert_eq!(ppu.read8(0xFF48), b);
        ppu.write8(0xFF49, b);
        assert_eq!(ppu.read8(0xFF49), b);
    }
}

// Raising an interrupt with its enable bit on yields its vector; clearing
// it withdraws the vector.
#[test]
fn irq_set_then_remove() {
    let kinds = [
        (InterruptKind::Vblank, 0x01u8, 0x0040usize),
        (InterruptKind::LcdcStatus, 0x02, 0x0048),
        (InterruptKind::Timer, 0x04, 0x0050),
        (InterruptKind::Serial, 0x08, 0x0058),
        (InterruptKind::Joypad, 0x10, 0x0060),
    ];
    for &(kind, bit, vector) in kinds.iter() {
        let mut intr = Interrupt::new();
        intr.enable();
        intr.write8(0xFFFF, bit);
        intr.set_irq(kind);
        assert!(intr.is_set(kind));
        assert_eq!(intr.isr_addr(), Some(vector));
        intr.remove_irq(kind);
        assert_eq!(intr.isr_addr(), None);
    }
}

// Writing a source page to the DMA register and servicing the transfer
// copies 160 consecutive bytes into the sprite table.
#[test]
fn dma_copies_oam() {
    let mut cpu = Cpu::new();
    for i in 0..160usize {
        cpu.bus.write8(0xC000 + i, (i as u8).wrapping_mul(3).wrapping_add(7));
    }
    cpu.bus.write8(0xFF46, 0xC0);
    assert!(cpu.bus.transfer());
    for i in 0..160usize {
        assert_eq!(
            cpu.bus.read8(0xFE00 + i),
            (i as u8).wrapping_mul(3).wrapping_add(7)
        );
    }
    assert!(!cpu.bus.transfer());
}

// XOR A,A clears the accumulator and every flag but Z.
#[test]
fn xor_a_clears_flags() {
    let mut cpu = Cpu::new();
    cpu.pc = 0;
   
    cpu.a = 0x5F;
    cpu.f = 0x70;
    cpu.bus.write8(0x00, 0xAF); // XOR A, A
    let _ = cpu.tick();
    assert_eq!(cpu.a, 0);
    assert_eq!(cpu.f & 0x80, 0x80);
    assert_eq!(cpu.f & 0x40, 0);
    assert_eq!(cpu.f & 0x20, 0);
    assert_eq!(cpu.f & 0x10, 0);
}

// With the screen scrolled to origin, tiles zeroed, and the identity
// palette, a full frame ending in the line-0 redraw leaves the first
// line all lightest.
#[test]
fn bg_render_blank_line() {
    let mut ppu = Ppu::new();
    ppu.write8(0xFF40, 0x11); // BG enable + 0x8000 tile data
    ppu.write8(0xFF47, 0xE4); // identity palette
    ppu.write8(0xFF42, 0x00);
    ppu.write8(0xFF43, 0x00);
    for _ in 0..(155 * 114) {
        let _ = ppu.tick();
    }
    let pixels = ppu.get_pixels();
    for x in 0..160usize {
        assert_eq!(pixels[x], 0);
    }
}

// The timer counter reloads from its modulo and signals overflow when it
// wraps, at the rate its selector picks.
#[test]
fn timer_overflow_reloads_tma() {
    let mut timer = Timer::new();
    timer.write8(0xFF05, 0xFF); // TIMA
    timer.write8(0xFF06, 0x05); // TMA
    timer.write8(0xFF07, 0x06); // enable, 64 sub-clocks per step
    for _ in 0..63 {
        assert!(!timer.tick());
    }
    assert!(timer.tick());
    assert_eq!(timer.read8(0xFF05), 0x05);
    assert_eq!(timer.read8(0xFF04), 0x00);
}

// A write to DIV clears it.
#[test]
fn timer_div_write_resets() {
    let mut timer = Timer::new();
    for _ in 0..256 {
        timer.tick();
    }
    assert_eq!(timer.read8(0xFF04), 1);
    timer.write8(0xFF04, 0xAB);
    assert_eq!(timer.read8(0xFF04), 0);
}

// The joypad register decodes the selected row from the active-low key
// state.
#[test]
fn pad_rows_decode() {
    let mut pad = Pad::new();
    pad.push_key(Key::A);
    pad.write8(0x10); // P15 low: action row
    assert_eq!(pad.read8(), 0x1E);
    pad.release_key(Key::A);
    pad.push_key(Key::Right);
    pad.write8(0x20); // P14 low: direction row
    assert_eq!(pad.read8(), 0x2E);
    pad.write8(0x30); // both rows deselected
    assert_eq!(pad.read8(), 0x00);
}

// Pressing a key through the bus raises the joypad interrupt.
#[test]
fn key_press_raises_irq() {
    let mut cpu = Cpu::new();
    cpu.key_push(Key::Start);
    assert_eq!(cpu.bus.read8(0xFF0F) & 0x10, 0x10);
    cpu.key_release(Key::Start);
    assert_eq!(cpu.bus.read8(0xFF0F) & 0x10, 0x10);
}

// A ROM image is rejected exactly when it is too short, names an unknown
// RAM size, or names a controller the core does not carry.
#[test]
fn cartridge_rejects_bad_images() {
    assert_eq!(
        Cartridge::from_bytes(vec![0u8; 0x150]).err(),
        Some(CoreError::UnsupportedCartridge)
    );
    let mut with_bad_type = vec![0u8; 0x8000];
    with_bad_type[0x147] = 0x02;
    assert_eq!(
        Cartridge::from_bytes(with_bad_type).err(),
        Some(CoreError::UnsupportedCartridge)
    );
    let mut with_bad_ram = vec![0u8; 0x8000];
    with_bad_ram[0x149] = 0x05;
    assert_eq!(
        Cartridge::from_bytes(with_bad_ram).err(),
        Some(CoreError::UnsupportedCartridge)
    );
    let plain = vec![0u8; 0x8000];
    assert!(Cartridge::from_bytes(plain).is_ok());
}

// The basic controller switches ROM banks on register writes.
#[test]
fn mbc1_switches_rom_banks() {
    let mut image = vec![0u8; 0x4000 * 4];
    image[0x147] = 0x01;
    image[0x149] = 0x01;
    image[0x4000] = 0x11; // bank 1
    image[0x8000] = 0x22; // bank 2
    image[0xC000] = 0x33; // bank 3
    let mut cart = Cartridge::from_bytes(image).unwrap();
    assert_eq!(cart.read8(0x4000), 0x11);
    cart.write8(0x2000, 0x02);
    assert_eq!(cart.read8(0x4000), 0x22);
    cart.write8(0x2000, 0x03);
    assert_eq!(cart.read8(0x4000), 0x33);
}

// External RAM stores only while the enable latch is open.
#[test]
fn mbc1_ram_enable_latch() {
    let mut image = vec![0u8; 0x8000];
    image[0x147] = 0x01;
    image[0x149] = 0x01;
    let mut cart = Cartridge::from_bytes(image).unwrap();
    cart.write8(0xA010, 0x42);
    assert_eq!(cart.read8(0xA010), 0x00);
    cart.write8(0x0000, 0x0A);
    cart.write8(0xA010, 0x42);
    assert_eq!(cart.read8(0xA010), 0x42);
}

// An opcode outside the instruction set surfaces as an error and decodes
// to nothing.
#[test]
fn unknown_opcode_reported() {
    let mut cpu = Cpu::new();
    cpu.pc = 0;
   
    cpu.bus.write8(0x00, 0xD3);
    assert_eq!(cpu.tick(), Err(CoreError::UnknownOpcode(0xD3)));
    assert!(cpu.decode(0xD3).is_none());
    assert_eq!(
        cpu.decode(0x00).unwrap().to_string(),
        "Instruction { name='NOP', cycles=4, opcode=0x00 }"
    );
}

// With IME on and a timer interrupt pending and enabled, a step vectors
// to the timer service routine, clears IME, and drops the IF bit.
#[test]
fn interrupt_dispatch_vectors() {
    let mut cpu = Cpu::new();
    cpu.pc = 0;
   
    cpu.bus.write8(0x00, 0xFB); // EI
    cpu.bus.write8(0xFFFF, 0x04);
    cpu.bus.write8(0xFF0F, 0x04);
    let _ = cpu.tick(); // EI
    assert!(cpu.bus.is_enabled_irq());
    let _ = cpu.tick(); // dispatch
    assert_eq!(cpu.pc, 0x0050);
    assert!(!cpu.bus.is_enabled_irq());
    assert_eq!(cpu.bus.read8(0xFF0F) & 0x04, 0);
    assert_eq!(cpu.bus.read8(0xFFFC), 0x01);
    assert_eq!(cpu.bus.read8(0xFFFD), 0x00);
}

// The reduced memory map routes ROM and work RAM and reads back writes.
#[test]
fn mmu_routes_and_reads_back() {
    let mut cart = MapCartridge::new();
    cart.write8(0x0100, 0x7E);
    assert_eq!(cart.read16(0x0100), 0x7E00);
    let mut mmu = Mmu::from_cartridge(cart);
    assert_eq!(mmu.read8(0x0100), 0x7E);
    mmu.write8(0xC001, 0x55);
    assert_eq!(mmu.read8(0xC001), 0x55);
}

// The reduced map's RAM orders 16-bit values low byte first.
#[test]
fn mmu_ram_is_little_endian() {
    let mut ram = gbr::mmu::Ram::new();
    ram.write16(0x10, 0xAABB);
    assert_eq!(ram.read8(0x10), 0xBB);
    assert_eq!(ram.read8(0x11), 0xAA);
    assert_eq!(ram.read16(0x10), 0xAABB);
}

// The audio register latch keeps the last byte written for the sound
// collaborator to read.
#[test]
fn audio_registers_latch() {
    let mut cpu = Cpu::new();
    cpu.bus.write8(0xFF11, 0x9D);
    cpu.bus.write8(0xFF26, 0x80);
    let regs = cpu.bus.audio_regs();
    assert_eq!(regs[0x01], 0x9D);
    assert_eq!(regs[0x16], 0x80);
}
