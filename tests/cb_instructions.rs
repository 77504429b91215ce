use rust_gameboy::cb_instructions::execute_cb;
use rust_gameboy::emulator::Emulator;
use rust_gameboy::registers::{CARRY_FLAG, HALFCARRY_FLAG, ZERO_FLAG};

#[test]
fn test_bit() {
    let mut emu = Emulator::new();
    emu.regs.set_a(100);
    assert_eq!(emu.regs.a(), 100);
    assert_eq!(emu.regs.f(), 0);
    execute_cb(&mut emu, 0x7F);
    assert_eq!(emu.regs.a(), 100);
    assert_eq!(emu.regs.f(), HALFCARRY_FLAG | ZERO_FLAG);
    execute_cb(&mut emu, 0x6F);
    assert_eq!(emu.regs.a(), 100);
    assert_eq!(emu.regs.f(), HALFCARRY_FLAG);
}

#[test]
fn test_set() {
    let mut emu = Emulator::new();
    emu.regs.set_hl(0xFFB5);
    assert_eq!(emu.regs.hl(), 0xFFB5);
    assert_eq!(emu.regs.h(), 0xFF);
    assert_eq!(emu.regs.l(), 0xB5);
    let orig = emu.mem.rb(0xFFB5);
    execute_cb(&mut emu, 0xDE);
    assert_eq!(emu.mem.rb(0xFFB5), orig | 8);
}

#[test]
fn test_rl() {
    let mut emu = Emulator::new();
    emu.regs.set_a(23);
    emu.regs.set_f(CARRY_FLAG);
    execute_cb(&mut emu, 0x17);
    assert_eq!(emu.regs.a(), 47);
    assert_eq!(emu.regs.f(), 0);
    emu.regs.set_a(0x80);
    execute_cb(&mut emu, 0x17);
    assert_eq!(emu.regs.a(), 0);
    assert_eq!(emu.regs.f(), ZERO_FLAG | CARRY_FLAG);
}

#[test]
fn test_res() {
    let mut emu = Emulator::new();
    emu.regs.set_c(0x18);
    execute_cb(&mut emu, 0xA1);
    assert_eq!(emu.regs.c(), 0x08);
}

#[test]
fn test_swap() {
    let mut emu = Emulator::new();
    emu.regs.set_l(0xFA);
    execute_cb(&mut emu, 0x35);
    assert_eq!(emu.regs.l(), 0xAF);
}

#[test]
fn test_sla() {
    let mut emu = Emulator::new();
    emu.regs.set_e(0xC3);
    execute_cb(&mut emu, 0x23);
    assert_eq!(emu.regs.e(), 0x86);
    assert_eq!(emu.regs.f(), CARRY_FLAG);
}

#[test]
fn test_srl() {
    let mut emu = Emulator::new();
    emu.regs.set_a(0x10);
    execute_cb(&mut emu, 0x3F);
    assert_eq!(emu.regs.a(), 0x08);
    assert_eq!(emu.regs.f(), 0);
}

#[test]
fn test_rlc() {
    let mut emu = Emulator::new();
    emu.regs.set_hl(0xFF1A);
    emu.mem.wb(0xFF1A, 0x7A);
    let cycles = execute_cb(&mut emu, 0x06);
    assert_eq!(emu.regs.hl(), 0xFF1A);
    assert_eq!(emu.mem.rb(0xFF1A), 0xF4);
    assert_eq!(emu.regs.f(), 0);
    assert_eq!(cycles, 16);
}

#[test]
fn test_rrc() {
    let mut emu = Emulator::new();
    emu.regs.set_d(0x8F);
    execute_cb(&mut emu, 0x0A);
    assert_eq!(emu.regs.d(), 0xC7);
    assert_eq!(emu.regs.f(), CARRY_FLAG);
}

#[test]
fn test_rr() {
    let mut emu = Emulator::new();
    emu.regs.set_b(0x01);
    execute_cb(&mut emu, 0x18);
    assert_eq!(emu.regs.b(), 0);
    assert_eq!(emu.regs.f(), ZERO_FLAG | CARRY_FLAG);
}

#[test]
fn sra_keeps_sign_bit() {
    let mut emu = Emulator::new();
    emu.regs.set_b(0x81);
    let cycles = execute_cb(&mut emu, 0x28);
    assert_eq!(emu.regs.b(), 0xC0);
    assert_eq!(emu.regs.f(), CARRY_FLAG);
    assert_eq!(cycles, 8);
}

#[test]
fn bit_leaves_carry() {
    let mut emu = Emulator::new();
    emu.regs.set_f(CARRY_FLAG);
    emu.regs.set_h(0x01);
    execute_cb(&mut emu, 0x44);
    assert_eq!(emu.regs.f(), HALFCARRY_FLAG | CARRY_FLAG);
}
