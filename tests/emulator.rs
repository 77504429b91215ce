use rust_gameboy::alu::{add8, daa, sub8};
use rust_gameboy::emulator::{Emulator, LoadError, StepError};
use rust_gameboy::interrupts::InterruptManager;
use rust_gameboy::memory::Memory;
use rust_gameboy::registers::Registers;
use rust_gameboy::timers::Timers;
use rust_gameboy::utils::{max, min, string_to_u16, ParseError};

fn blank_rom() -> Vec<u8> {
    vec![0u8; 0x8000]
}

#[test]
fn boot_without_bios() {
    let mut emu = Emulator::new();
    emu.init_without_bios();
    assert_eq!(emu.load_cartridge(&blank_rom()), Ok(()));
    assert_eq!(emu.regs.af(), 0x01B0);
    assert_eq!(emu.regs.bc(), 0x0013);
    assert_eq!(emu.regs.de(), 0x00D8);
    assert_eq!(emu.regs.hl(), 0x014D);
    assert_eq!(emu.regs.sp(), 0xFFFE);
    assert_eq!(emu.regs.pc(), 0x0100);
    assert!(!emu.cgb_mode);
    assert_eq!(emu.step(), Ok(4));
    assert_eq!(emu.regs.pc(), 0x0101);
}

#[test]
fn boot_without_bios_cgb() {
    let mut emu = Emulator::new();
    emu.init_without_bios();
    let mut rom = blank_rom();
    rom[0x143] = 0x80;
    assert_eq!(emu.load_cartridge(&rom), Ok(()));
    assert_eq!(emu.regs.af(), 0x11B0);
    assert!(emu.cgb_mode);
}

#[test]
fn load_errors() {
    let mut emu = Emulator::new();
    assert_eq!(emu.load_cartridge(&vec![0u8; 0x100]), Err(LoadError::HeaderTooShort { len: 0x100 }));
    let mut rom = blank_rom();
    rom[0x147] = 0x22;
    assert_eq!(emu.load_cartridge(&rom), Err(LoadError::UnknownCartridgeType(0x22)));
    let mut rom = blank_rom();
    rom[0x148] = 9;
    assert_eq!(emu.load_cartridge(&rom), Err(LoadError::UnknownRomSize(9)));
    let mut rom = blank_rom();
    rom[0x149] = 7;
    assert_eq!(emu.load_cartridge(&rom), Err(LoadError::UnknownRamSize(7)));
}

#[test]
fn unimplemented_opcode_is_reported() {
    let mut emu = Emulator::new();
    emu.init_without_bios();
    let mut rom = blank_rom();
    rom[0x100] = 0xD3;
    emu.load_cartridge(&rom).unwrap();
    assert_eq!(emu.step(), Err(StepError::UnimplementedOpcode { address: 0x100, opcode: 0xD3 }));
    assert_eq!(emu.regs.pc(), 0x101);
}

#[test]
fn boot_rom_is_left_at_entry_point() {
    let mut emu = Emulator::new();
    let mut bios = vec![0u8; 0x100];
    bios[0] = 0xC3;
    bios[1] = 0x00;
    bios[2] = 0x01;
    emu.load_bios(bios);
    let mut rom = blank_rom();
    rom[0] = 0x76;
    emu.load_cartridge(&rom).unwrap();
    assert_eq!(emu.rb(0x0000), 0xC3);
    assert_eq!(emu.step(), Ok(16));
    assert_eq!(emu.regs.pc(), 0x100);
    assert_eq!(emu.rb(0x0000), 0x76);
}

#[test]
fn interrupts_served_in_priority_order() {
    let mut mem = Memory::new();
    let mut regs = Registers::new();
    let mut im = InterruptManager::new();
    regs.set_sp(0xFFFE);
    regs.set_pc(0x1234);
    mem.wb(0xFFFF, 0x05);
    mem.wb(0xFF0F, 0x05);
    assert!(im.step(&mut mem, &mut regs));
    assert_eq!(regs.pc(), 0x40);
    assert_eq!(regs.sp(), 0xFFFC);
    assert_eq!(mem.rw(0xFFFC), 0x1234);
    assert_eq!(mem.rb(0xFF0F), 0x04);
    assert!(!im.step(&mut mem, &mut regs));
    im.ime = true;
    assert!(im.step(&mut mem, &mut regs));
    assert_eq!(regs.pc(), 0x50);
    assert_eq!(mem.rw(0xFFFA), 0x40);
    assert_eq!(mem.rb(0xFF0F), 0x00);
}

#[test]
fn request_interrupt_sets_bit() {
    let mut mem = Memory::new();
    let im = InterruptManager::new();
    im.request_interrupt(&mut mem, 4);
    assert_eq!(mem.rb(0xFF0F), 0x10);
}

#[test]
fn timer_counts_one_period() {
    let mut mem = Memory::new();
    let im = InterruptManager::new();
    let mut timers = Timers::new();
    mem.wb(0xFF07, 0b101);
    mem.wb(0xFF06, 0x33);
    mem.wb(0xFF05, 0x10);
    timers.step(&mut mem, &im, 15);
    assert_eq!(mem.rb(0xFF05), 0x10);
    timers.step(&mut mem, &im, 1);
    assert_eq!(mem.rb(0xFF05), 0x11);
    mem.wb(0xFF05, 0xFF);
    timers.step(&mut mem, &im, 16);
    assert_eq!(mem.rb(0xFF05), 0x33);
    assert_eq!(mem.rb(0xFF0F) & 0x04, 0x04);
}

#[test]
fn div_counts_every_256_cycles() {
    let mut mem = Memory::new();
    let im = InterruptManager::new();
    let mut timers = Timers::new();
    timers.step(&mut mem, &im, 255);
    assert_eq!(mem.rb(0xFF04), 0);
    timers.step(&mut mem, &im, 1);
    assert_eq!(mem.rb(0xFF04), 1);
    timers.step(&mut mem, &im, 512);
    assert_eq!(mem.rb(0xFF04), 3);
}

#[test]
fn halted_cpu_wakes_on_interrupt() {
    let mut emu = Emulator::new();
    emu.init_without_bios();
    emu.load_cartridge(&blank_rom()).unwrap();
    emu.halted = true;
    assert_eq!(emu.step(), Ok(40));
    assert_eq!(emu.regs.pc(), 0x100);
    emu.mem.wb(0xFFFF, 0x01);
    emu.mem.wb(0xFF0F, 0x01);
    assert_eq!(emu.step(), Ok(60));
    assert!(!emu.halted);
    assert_eq!(emu.regs.pc(), 0x40);
}

#[test]
fn keys_request_joypad_interrupt() {
    let mut emu = Emulator::new();
    emu.set_controls(vec![10, 11, 12, 13, 14, 15, 16, 17]);
    emu.mem.wb(0xFF00, 0x20);
    emu.stopped = true;
    emu.update_keys(11, true);
    assert_eq!(emu.mem.rb(0xFF00), 0x2D);
    assert_eq!(emu.mem.rb(0xFF0F) & 0x10, 0x10);
    assert!(!emu.stopped);
    emu.update_keys(11, false);
    assert_eq!(emu.mem.rb(0xFF00), 0x2F);
}

#[test]
fn alu_exact_values() {
    assert_eq!(add8(0x15, 0x27, false), (0x3C, 0x00));
    assert_eq!(add8(0xFF, 0x01, false), (0x00, 0xB0));
    assert_eq!(sub8(0x10, 0x01, false), (0x0F, 0x60));
    assert_eq!(daa(0x3C, 0x00), (0x42, 0x00));
    assert_eq!(daa(0x0F, 0x60), (0x09, 0x40));
}

#[test]
fn max_min() {
    assert_eq!(max(3, 9), 9);
    assert_eq!(min(3, 9), 3);
    assert_eq!(max(4, 4), 4);
}

#[test]
fn parse_numbers() {
    assert_eq!(string_to_u16(""), Ok(0));
    assert_eq!(string_to_u16("1234"), Ok(1234));
    assert_eq!(string_to_u16("0x1F"), Ok(31));
    assert_eq!(string_to_u16("0XfF"), Ok(255));
    assert_eq!(string_to_u16("+5"), Ok(5));
    assert_eq!(string_to_u16("65535"), Ok(65535));
    assert_eq!(string_to_u16("65536"), Err(ParseError::Overflow));
    assert_eq!(string_to_u16("0x"), Err(ParseError::Empty));
    assert_eq!(string_to_u16("+"), Err(ParseError::InvalidDigit));
    assert_eq!(string_to_u16("12a"), Err(ParseError::InvalidDigit));
    assert_eq!(string_to_u16("99999x"), Err(ParseError::Overflow));
}
