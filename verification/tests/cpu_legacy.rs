use gbr::Cpu;
use gbr::Io;

const FLAG_Z: u8 = 0x80;
const FLAG_N: u8 = 0x40;
const FLAG_H: u8 = 0x20;
const FLAG_C: u8 = 0x10;

#[test]
fn cpu_test_ldbn() {
    let mut cpu = Cpu::new();
    cpu.pc = 0;
    let opcode = 0x06;

    cpu.bus.write8(0x00, opcode);
    cpu.bus.write8(0x01, 42);
    let _ = cpu.tick();

    assert_eq!(cpu.b, 42);
    assert_eq!(
        cpu.decode(opcode).unwrap().to_string(),
        "Instruction { name='LD B, n', cycles=8, opcode=0x06 }"
    )
}

#[test]
fn cpu_test_ldr1r2() {
    let mut cpu = Cpu::new();
    cpu.pc = 0;
    let opcode = 0x7E;
    let addr = 0xFF;

    cpu.write_hl(addr);

    cpu.bus.write8(0x00, opcode);
    cpu.bus.write8(addr as usize, 42);
    let _ = cpu.tick();

    assert_eq!(cpu.a, 42);
    assert_eq!(
        cpu.decode(opcode).unwrap().to_string(),
        "Instruction { name='LD A, (HL)', cycles=8, opcode=0x7e }"
    )
}

#[test]
fn cpu_test_push() {
    let mut cpu = Cpu::new();
    cpu.pc = 0;
    let opcode = 0xF5; // PUSH AF

    cpu.write_af(0xaadd);
    cpu.sp = 0xFF;

    cpu.bus.write8(0x00, opcode);
    let _ = cpu.tick();

    assert_eq!(cpu.bus.read8((cpu.sp + 1) as usize), 0xaa);
    assert_eq!(cpu.bus.read8(cpu.sp as usize), 0xdd);
    assert_eq!(
        cpu.decode(opcode).unwrap().to_string(),
        "Instruction { name='PUSH AF', cycles=16, opcode=0xf5 }"
    )
}

#[test]
fn cpu_test_pop() {
    let mut cpu = Cpu::new();
    cpu.pc = 0;
    let op_push = 0xC5; // PUSH BC
    let op_pop = 0xE1; // POP HL

    cpu.sp = 0xFF;
    cpu.write_bc(0xaadd);

    cpu.bus.write8(0x00, op_push);
    cpu.bus.write8(0x01, op_pop);
    let _ = cpu.tick();
    let _ = cpu.tick();

    assert_eq!(cpu.h, 0xaa);
    assert_eq!(cpu.l, 0xdd);
    assert_eq!(
        cpu.decode(op_pop).unwrap().to_string(),
        "Instruction { name='POP HL', cycles=12, opcode=0xe1 }"
    )
}

#[test]
fn cpu_test_ldhl_sp_n() {
    let mut cpu = Cpu::new();
    cpu.pc = 0;
    let opcode = 0xF8; // LDHL SP, n
    let n = 0xFA; // n = -6

    cpu.sp = 0x30; // sp = 48

    cpu.bus.write8(0x00, opcode); // hl = sp + n = 48 + (-6)
    cpu.bus.write8(0x01, n as u8);
    let _ = cpu.tick();

    assert_eq!(cpu.l, 0x2A);
    assert_eq!(
        cpu.decode(opcode).unwrap().to_string(),
        "Instruction { name='LDHL SP, n', cycles=12, opcode=0xf8 }"
    )
}

#[test]
fn cpu_test_addan() {
    let mut cpu = Cpu::new();
    cpu.pc = 0;
    let opcode = 0x80; // ADD A, B
    cpu.a = 32;
    cpu.b = 10;

    cpu.bus.write8(0x00, opcode); // a = a + b
    let _ = cpu.tick();

    assert_eq!(cpu.a, 42);
    assert_eq!(cpu.f & FLAG_Z == FLAG_Z, false);
    assert_eq!(cpu.f & FLAG_N == FLAG_N, false);
    assert_eq!(cpu.f & FLAG_H == FLAG_H, false);
    assert_eq!(cpu.f & FLAG_C == FLAG_C, false);

    cpu.pc = 0;
    cpu.a = 0x08;
    cpu.b = 0x08;

    cpu.bus.write8(0x00, opcode);
    let _ = cpu.tick();

    assert_eq!(cpu.a, 0x10);
    assert_eq!(cpu.f & FLAG_Z == FLAG_Z, false);
    assert_eq!(cpu.f & FLAG_N == FLAG_N, false);
    assert_eq!(cpu.f & FLAG_H == FLAG_H, true);
    assert_eq!(cpu.f & FLAG_C == FLAG_C, false);

    cpu.pc = 0;
    cpu.a = 0x80;
    cpu.b = 0x80;

    cpu.bus.write8(0x00, opcode);
    let _ = cpu.tick();

    assert_eq!(cpu.a, 0);
    assert_eq!(cpu.f & FLAG_Z == FLAG_Z, true);
    assert_eq!(cpu.f & FLAG_N == FLAG_N, false);
    assert_eq!(cpu.f & FLAG_H == FLAG_H, false);
    assert_eq!(cpu.f & FLAG_C == FLAG_C, true);
}

#[test]
fn cpu_test_adcan() {
    let mut cpu = Cpu::new();
    cpu.pc = 0;
    let opcode = 0x88; // ADC A, B
    cpu.a = 32;
    cpu.b = 9;
    cpu.f |= FLAG_C;

    cpu.bus.write8(0x00, opcode); // a = a + b + carry flag
    let _ = cpu.tick();

    assert_eq!(cpu.a, 42);
    assert_eq!(cpu.f & FLAG_Z == FLAG_Z, false);
    assert_eq!(cpu.f & FLAG_N == FLAG_N, false);
    assert_eq!(cpu.f & FLAG_H == FLAG_H, false);
    assert_eq!(cpu.f & FLAG_C == FLAG_C, false);

    cpu.pc = 0;
    cpu.a = 0x08;
    cpu.b = 0x07;
    cpu.f |= FLAG_C;

    cpu.bus.write8(0x00, opcode);
    let _ = cpu.tick();

    assert_eq!(cpu.a, 0x10);
    assert_eq!(cpu.f & FLAG_Z == FLAG_Z, false);
    assert_eq!(cpu.f & FLAG_N == FLAG_N, false);
    assert_eq!(cpu.f & FLAG_H == FLAG_H, true);
    assert_eq!(cpu.f & FLAG_C == FLAG_C, false);

    cpu.pc = 0;
    cpu.a = 0x80;
    cpu.b = 0x7F;
    cpu.f |= FLAG_C;

    cpu.bus.write8(0x00, opcode);
    let _ = cpu.tick();

    assert_eq!(cpu.a, 0);
    assert_eq!(cpu.f & FLAG_Z == FLAG_Z, true);
    assert_eq!(cpu.f & FLAG_N == FLAG_N, false);
    assert_eq!(cpu.f & FLAG_H == FLAG_H, false);
    assert_eq!(cpu.f & FLAG_C == FLAG_C, true);
}

#[test]
fn cpu_test_suban() {
    let mut cpu = Cpu::new();
    cpu.pc = 0;
    let opcode = 0x90; // SUB A, B
    cpu.a = 0x0F;
    cpu.b = 0x0F;

    cpu.bus.write8(0x00, opcode); // a = a - b
    let _ = cpu.tick();

    assert_eq!(cpu.a, 0x00);
    assert_eq!(cpu.f & FLAG_Z == FLAG_Z, true);
    assert_eq!(cpu.f & FLAG_N == FLAG_N, true);
    assert_eq!(cpu.f & FLAG_H == FLAG_H, false);
    assert_eq!(cpu.f & FLAG_C == FLAG_C, false);

    cpu.pc = 0;
    cpu.a = 0x20;
    cpu.b = 0x12;

    cpu.bus.write8(0x00, opcode);
    let _ = cpu.tick();

    assert_eq!(cpu.a, 0x0E);
    assert_eq!(cpu.f & FLAG_Z == FLAG_Z, false);
    assert_eq!(cpu.f & FLAG_N == FLAG_N, true);
    assert_eq!(cpu.f & FLAG_H == FLAG_H, true);
    assert_eq!(cpu.f & FLAG_C == FLAG_C, false);

    cpu.pc = 0;
    cpu.a = 0xE0;
    cpu.b = 0xF0;

    cpu.bus.write8(0x00, opcode);
    let _ = cpu.tick();

    assert_eq!(cpu.a, 0xF0);
    assert_eq!(cpu.f & FLAG_Z == FLAG_Z, false);
    assert_eq!(cpu.f & FLAG_N == FLAG_N, true);
    assert_eq!(cpu.f & FLAG_H == FLAG_H, false);
    assert_eq!(cpu.f & FLAG_C == FLAG_C, true);
}

#[test]
fn cpu_test_sbcan() {
    let mut cpu = Cpu::new();
    cpu.pc = 0;
    let opcode = 0x98; // SBC A, B
    cpu.a = 0x0F;
    cpu.b = 0x0E;
    cpu.f |= FLAG_C;

    cpu.bus.write8(0x00, opcode); // a = a - b - carry flag
    let _ = cpu.tick();

    assert_eq!(cpu.a, 0x00);
    assert_eq!(cpu.f & FLAG_Z == FLAG_Z, true);
    assert_eq!(cpu.f & FLAG_N == FLAG_N, true);
    assert_eq!(cpu.f & FLAG_H == FLAG_H, false);
    assert_eq!(cpu.f & FLAG_C == FLAG_C, false);

    cpu.pc = 0;
    cpu.a = 0x20;
    cpu.b = 0x11;
    cpu.f |= FLAG_C;

    cpu.bus.write8(0x00, opcode);
    let _ = cpu.tick();

    assert_eq!(cpu.a, 0x0E);
    assert_eq!(cpu.f & FLAG_Z == FLAG_Z, false);
    assert_eq!(cpu.f & FLAG_N == FLAG_N, true);
    assert_eq!(cpu.f & FLAG_H == FLAG_H, true);
    assert_eq!(cpu.f & FLAG_C == FLAG_C, false);

    cpu.pc = 0;
    cpu.a = 0xE0;
    cpu.b = 0xEF;
    cpu.f |= FLAG_C;

    cpu.bus.write8(0x00, opcode);
    let _ = cpu.tick();

    assert_eq!(cpu.a, 0xF0);
    assert_eq!(cpu.f & FLAG_Z == FLAG_Z, false);
    assert_eq!(cpu.f & FLAG_N == FLAG_N, true);
    assert_eq!(cpu.f & FLAG_H == FLAG_H, false);
    assert_eq!(cpu.f & FLAG_C == FLAG_C, true);
}

#[test]
fn cpu_test_and() {
    let mut cpu = Cpu::new();
    cpu.pc = 0;
    let opcode = 0xA0; // AND A, B
    cpu.a = 0b1111_1010;
    cpu.b = 0b0000_1111;

    cpu.bus.write8(0x00, opcode); // a = a & b
    let _ = cpu.tick();

    assert_eq!(cpu.a, 0b0000_1010);
}

#[test]
fn cpu_test_or() {
    let mut cpu = Cpu::new();
    cpu.pc = 0;
    let opcode = 0xB0; // OR A, B
    cpu.a = 0b1011_0000;
    cpu.b = 0b0000_1101;

    cpu.bus.write8(0x00, opcode); // a = a | b
    let _ = cpu.tick();

    assert_eq!(cpu.a, 0b1011_1101);
}

#[test]
fn cpu_test_xor() {
    let mut cpu = Cpu::new();
    cpu.pc = 0;
    let opcode = 0xA8; // XOR A, B
    cpu.a = 0b1010_0000;
    cpu.b = 0b0000_0011;

    cpu.bus.write8(0x00, opcode); // a = a ^ b
    let _ = cpu.tick();

    assert_eq!(cpu.a, 0b1010_0011);
}

#[test]
fn cpu_test_cp() {
    let mut cpu = Cpu::new();
    cpu.pc = 0;
    let opcode = 0xB8; // CP A, B
    cpu.a = 0b0000_1111;
    cpu.b = 0b0000_1111;

    cpu.bus.write8(0x00, opcode); // a == b
    let _ = cpu.tick();

    assert_eq!(cpu.a, 0b0000_1111);
    assert_eq!(cpu.f & FLAG_Z == FLAG_Z, true);
    assert_eq!(cpu.f & FLAG_N == FLAG_N, true);
    assert_eq!(cpu.f & FLAG_H == FLAG_H, false);
    assert_eq!(cpu.f & FLAG_C == FLAG_C, false);
}

#[test]
fn cpu_test_inc() {
    let mut cpu = Cpu::new();
    cpu.pc = 0;
    let opcode = 0x3C; // INC A
    cpu.a = 0;

    cpu.bus.write8(0x00, opcode); // a += 1
    let _ = cpu.tick();

    assert_eq!(cpu.a, 1);
}

#[test]
fn cpu_test_dec() {
    let mut cpu = Cpu::new();
    cpu.pc = 0;
    let opcode = 0x3D; // DEC A
    cpu.a = 0;

    cpu.bus.write8(0x00, opcode); // a -= 1
    let _ = cpu.tick();

    assert_eq!(cpu.a, 0xFF);
}
