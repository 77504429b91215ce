use rust_gameboy::cartridge::Cartridge;
use rust_gameboy::emulator::Emulator;
use rust_gameboy::mbc::Mbc;
use rust_gameboy::opcodes::{cb_instruction, instruction};
use rust_gameboy::registers::{CARRY_FLAG, HALFCARRY_FLAG, NEGATIVE_FLAG, ZERO_FLAG};

#[test]
fn test_xor() {
    let mut emu = Emulator::new();
    assert_eq!(emu.regs.a(), 0);
    assert_eq!(emu.regs.get_flag(ZERO_FLAG), false);
    emu.execute(0xAF, 0);
    assert_eq!(emu.regs.a(), 0);
    assert_eq!(emu.regs.get_flag(ZERO_FLAG), true);
}

#[test]
fn xor_a_a_from_nonzero() {
    let mut emu = Emulator::new();
    emu.regs.set_a(0x5A);
    emu.regs.set_f(NEGATIVE_FLAG | HALFCARRY_FLAG | CARRY_FLAG);
    assert_eq!(emu.execute(0xAF, 0), Some(4));
    assert_eq!(emu.regs.a(), 0);
    assert_eq!(emu.regs.f(), ZERO_FLAG);
}

#[test]
fn test_ld_hld_a() {
    let mut emu = Emulator::new();
    emu.regs.set_l(1);
    emu.regs.set_h(255);
    emu.regs.set_a(18);
    assert_eq!(emu.regs.hl(), 65281);
    emu.execute(0x32, 0);
    assert_eq!(emu.regs.hl(), 65280);
    assert_eq!(emu.mem.rb(65281), 18);
}

#[test]
fn test_jr_nz() {
    let mut emu = Emulator::new();
    emu.regs.set_pc(1000);
    emu.execute(0x20, 0xEC);
    assert_eq!(emu.regs.pc(), 980);
    emu.execute(0x20, 0x64);
    assert_eq!(emu.regs.pc(), 1080);
}

#[test]
fn jr_nz_not_taken_costs_less() {
    let mut emu = Emulator::new();
    emu.regs.set_pc(1000);
    emu.regs.set_f(ZERO_FLAG);
    assert_eq!(emu.execute(0x20, 0xEC), Some(8));
    assert_eq!(emu.regs.pc(), 1000);
    emu.regs.set_f(0);
    assert_eq!(emu.execute(0x20, 0xEC), Some(12));
}

#[test]
fn test_rrca() {
    let mut emu = Emulator::new();
    emu.regs.set_a(50);
    emu.execute(0x0F, 0);
    assert_eq!(emu.regs.a(), 25);
    assert_eq!(emu.regs.f(), 0);
    emu.execute(0x0F, 0);
    assert_eq!(emu.regs.a(), 140);
    assert_eq!(emu.regs.f(), CARRY_FLAG);
}

#[test]
fn test_rst() {
    let mut emu = Emulator::new();
    emu.mem.set_cart(Mbc::NONE(Cartridge::new()));

    emu.regs.set_sp(3);
    emu.regs.set_pc(0xDEAD);
    emu.execute(0xE7, 0);
    assert_eq!(emu.regs.sp(), 1);
    assert_eq!(emu.mem.rb(2), 0xDE);
    assert_eq!(emu.mem.rb(1), 0xAD);
    assert_eq!(emu.regs.pc(), 0x20);
}

#[test]
fn test_inc_dec() {
    let mut emu = Emulator::new();
    emu.regs.set_a(15);
    emu.regs.set_b(15);
    emu.execute(0x3C, 0);
    assert_eq!(emu.regs.a(), 16);
    assert_eq!(emu.regs.f(), HALFCARRY_FLAG);
    emu.execute(0x05, 0);
    assert_eq!(emu.regs.b(), 14);
    assert_eq!(emu.regs.f(), NEGATIVE_FLAG);
}

#[test]
fn inc_keeps_carry() {
    let mut emu = Emulator::new();
    emu.regs.set_f(CARRY_FLAG);
    emu.regs.set_c(0xFF);
    emu.execute(0x0C, 0);
    assert_eq!(emu.regs.c(), 0);
    assert_eq!(emu.regs.f(), ZERO_FLAG | HALFCARRY_FLAG | CARRY_FLAG);
}

#[test]
fn test_ld_hl_spr8() {
    let mut emu = Emulator::new();
    emu.regs.set_sp(100);
    emu.execute(0xF8, 20);
    assert_eq!(emu.regs.hl(), 120);
    assert_eq!(emu.regs.f(), 0);
    emu.execute(0xF8, 0xFF);
    assert_eq!(emu.regs.hl(), 99);
    assert_eq!(emu.regs.f(), HALFCARRY_FLAG);
}

#[test]
fn test_call() {
    let mut emu = Emulator::new();
    emu.mem.set_cart(Mbc::NONE(Cartridge::new()));

    emu.regs.set_sp(100);
    emu.regs.set_pc(0xBEEF);
    emu.execute(0xCD, 50);
    assert_eq!(emu.regs.sp(), 98);
    assert_eq!(emu.mem.rb(98), 0xEF);
    assert_eq!(emu.mem.rb(99), 0xBE);
    assert_eq!(emu.regs.pc(), 50);
}

#[test]
fn test_push_pop() {
    let mut emu = Emulator::new();
    emu.mem.set_cart(Mbc::NONE(Cartridge::new()));

    emu.regs.set_sp(100);
    emu.regs.set_a(2);
    emu.execute(0xF5, 0);
    assert_eq!(emu.regs.sp(), 98);
    assert_eq!(emu.regs.af(), 512);
    emu.execute(0xE1, 0);
    assert_eq!(emu.regs.sp(), 100);
    assert_eq!(emu.regs.hl(), 512);
}

#[test]
fn pop_af_drops_low_nibble() {
    let mut emu = Emulator::new();
    emu.regs.set_sp(0xC000);
    emu.mem.wb(0xC000, 0xFF);
    emu.mem.wb(0xC001, 0x12);
    emu.execute(0xF1, 0);
    assert_eq!(emu.regs.af(), 0x12F0);
    assert_eq!(emu.regs.sp(), 0xC002);
}

#[test]
fn test_implemented_all_instructions() {
    for i in 0..256 {
        let instruction = instruction(i as u8);
        assert!(instruction.implemented || (instruction.name == "NO_INSTRUCTION"));
    }
    for i in 0..256 {
        let instruction = cb_instruction(i as u8);
        assert!(instruction.implemented);
    }
}

#[test]
fn descriptor_flags() {
    assert!(instruction(0xC9).is_ret());
    assert!(instruction(0xD8).is_ret());
    assert!(!instruction(0xC3).is_ret());
    assert!(instruction(0xCD).is_call());
    assert!(instruction(0xC3).is_jump());
    assert!(instruction(0xE9).is_jump());
    assert!(!instruction(0x18).is_jump());
    assert_eq!(instruction(0x01).operand_length, 2);
    assert_eq!(instruction(0x3E).operand_length, 1);
    assert_eq!(instruction(0x00).operand_length, 0);
    assert_eq!(instruction(0xAF).name, "XOR A");
    assert_eq!(cb_instruction(0x7F).name, "BIT 7,A");
}

#[test]
fn undefined_opcode_is_refused() {
    let mut emu = Emulator::new();
    emu.regs.set_a(7);
    assert_eq!(emu.execute(0xD3, 0), None);
    assert_eq!(emu.regs.a(), 7);
}

#[test]
fn test_cpl() {
    let mut emu = Emulator::new();
    emu.regs.set_a(0x0F);
    emu.execute(0x2F, 0);
    assert_eq!(emu.regs.a(), 0xF0);
}

#[test]
fn test_ret() {
    let mut emu = Emulator::new();
    emu.mem.set_cart(Mbc::NONE(Cartridge::new()));

    emu.regs.set_pc(0x1000);
    emu.regs.set_sp(100);
    emu.execute(0xCD, 0x20F0);
    assert_eq!(emu.regs.pc(), 0x20F0);
    emu.execute(0xC9, 0);
    assert_eq!(emu.regs.pc(), 0x1000);
}

#[test]
fn test_rla() {
    let mut emu = Emulator::new();
    emu.regs.set_a(0x7F);
    emu.execute(0x17, 0);
    assert_eq!(emu.regs.a(), 0xFE);
    assert_eq!(emu.regs.f(), 0);
    emu.execute(0x17, 0);
    assert_eq!(emu.regs.a(), 0xFC);
    assert_eq!(emu.regs.f(), CARRY_FLAG);
}

#[test]
fn rla_with_carry_in() {
    let mut emu = Emulator::new();
    emu.regs.set_a(0x7F);
    emu.regs.set_f(CARRY_FLAG);
    emu.execute(0x17, 0);
    assert_eq!(emu.regs.a(), 0xFF);
    assert_eq!(emu.regs.f(), 0);
}

#[test]
fn test_add_hl_sp() {
    let mut emu = Emulator::new();
    emu.regs.set_hl(0x1001);
    emu.regs.set_sp(0xFF00);
    emu.execute(0x39, 0);
    assert_eq!(emu.regs.hl(), 0x0F01);
    assert_eq!(emu.regs.f(), CARRY_FLAG);
}

#[test]
fn test_daa() {
    let mut emu = Emulator::new();
    emu.regs.set_a(0x15);
    emu.regs.set_b(0x27);
    emu.execute(0x80, 0);
    assert_eq!(emu.regs.a(), 0x3C);
    assert_eq!(emu.regs.f(), 0);
    emu.execute(0x27, 0);
    assert_eq!(emu.regs.a(), 0x42);
    assert_eq!(emu.regs.f(), 0);
}

#[test]
fn test_sbc() {
    let mut emu = Emulator::new();
    emu.regs.set_a(23);
    emu.regs.set_f(CARRY_FLAG);
    emu.regs.set_c(23);
    emu.execute(0x99, 0);
    assert_eq!(emu.regs.a(), 0xFF);
    assert_eq!(emu.regs.f(), NEGATIVE_FLAG | HALFCARRY_FLAG | CARRY_FLAG);
}

#[test]
fn test_cp() {
    let mut emu = Emulator::new();
    emu.regs.set_a(127);
    emu.regs.set_hl(0x8000);
    let hl = emu.regs.hl();
    emu.mem.wb(hl, 125);

    emu.execute(0xBE, 0);
    assert_eq!(emu.regs.a(), 127);
    assert_eq!(emu.mem.rb(emu.regs.hl()), 125);
    assert_eq!(emu.regs.f(), NEGATIVE_FLAG);

    emu.mem.wb(hl, 127);
    emu.execute(0xBE, 0);
    assert_eq!(emu.regs.a(), 127);
    assert_eq!(emu.mem.rb(emu.regs.hl()), 127);
    assert_eq!(emu.regs.f(), ZERO_FLAG | NEGATIVE_FLAG);
}

#[test]
fn adc_counts_carry_in_half_carry() {
    let mut emu = Emulator::new();
    emu.regs.set_a(0x0F);
    emu.regs.set_f(CARRY_FLAG);
    assert_eq!(emu.execute(0xCE, 0x00), Some(8));
    assert_eq!(emu.regs.a(), 0x10);
    assert_eq!(emu.regs.f(), HALFCARRY_FLAG);
}

#[test]
fn and_or_flags() {
    let mut emu = Emulator::new();
    emu.regs.set_a(0xF0);
    emu.regs.set_f(CARRY_FLAG);
    emu.execute(0xE6, 0x0F);
    assert_eq!(emu.regs.a(), 0);
    assert_eq!(emu.regs.f(), ZERO_FLAG | HALFCARRY_FLAG);
    emu.execute(0xF6, 0x81);
    assert_eq!(emu.regs.a(), 0x81);
    assert_eq!(emu.regs.f(), 0);
}

#[test]
fn halt_ei_di() {
    let mut emu = Emulator::new();
    emu.execute(0xF3, 0);
    assert!(!emu.interrupts.ime);
    emu.execute(0xFB, 0);
    assert!(emu.interrupts.ime);
    assert_eq!(emu.execute(0x76, 0), Some(4));
    assert!(emu.halted);
}
