use rust_gameboy::cartridge::Cartridge;
use rust_gameboy::mbc::{CartridgeType, Mbc, SaveError};
use rust_gameboy::mbc1::Mbc1;
use rust_gameboy::mbc2::Mbc2;
use rust_gameboy::mbc3::Mbc3;
use rust_gameboy::mbc5::Mbc5;
use rust_gameboy::rom_info::{get_ram_size, get_rom_size};

fn banked_rom(size: usize) -> Vec<u8> {
    (0..size).map(|i| (i / 0x4000) as u8).collect()
}

#[test]
fn rom_only_reads_and_unmapped() {
    let mut cart = Cartridge::new();
    let rom: Vec<u8> = (0..0x9000).map(|i| i as u8).collect();
    assert_eq!(cart.load_rom(&rom), 0x8000);
    assert_eq!(cart.rb(0x1234), 0x34);
    assert_eq!(cart.rb(0xA000), 0xFF);
}

#[test]
fn mbc1_bank_zero_is_bank_one() {
    let mut cart = Mbc1::new();
    cart.load_rom(&banked_rom(0x200000));
    cart.wb(0x2000, 0);
    assert_eq!(cart.rb(0x4000), 1);
    cart.wb(0x2000, 1);
    assert_eq!(cart.rb(0x4000), 1);
    cart.wb(0x2000, 5);
    assert_eq!(cart.rb(0x4000), 5);
    cart.wb(0x4000, 1);
    assert_eq!(cart.rb(0x4000), 0x25);
    cart.wb(0x2000, 0x20);
    assert_eq!(cart.rb(0x4000), 0x21);
}

#[test]
fn mbc1_ram_round_trip() {
    let mut cart = Mbc1::new();
    cart.wb(0xA000, 0x42);
    assert_eq!(cart.rb(0xA000), 0x00);
    cart.wb(0x0000, 0x0A);
    cart.wb(0xA000, 0x42);
    assert_eq!(cart.rb(0xA000), 0x42);
    cart.wb(0x6000, 1);
    cart.wb(0x4000, 2);
    assert_eq!(cart.rb(0xA000), 0x00);
    cart.wb(0xA000, 0x24);
    cart.wb(0x4000, 0);
    assert_eq!(cart.rb(0xA000), 0x42);
    assert_eq!(cart.rb(0xC000), 0xFF);
}

#[test]
fn mbc1_save_round_trip() {
    let mut cart = Mbc1::new();
    cart.wb(0x0000, 0x0A);
    cart.wb(0xA010, 0x77);
    let saved = cart.save_ram();
    assert_eq!(saved.len(), 0x8000);
    let mut other = Mbc1::new();
    assert_eq!(other.load_ram(&saved), Ok(()));
    other.wb(0x0000, 0x0A);
    assert_eq!(other.rb(0xA010), 0x77);
    assert_eq!(
        other.load_ram(&vec![1, 2, 3]),
        Err(SaveError::WrongLength { expected: 0x8000, found: 3 })
    );
    assert_eq!(other.rb(0xA010), 0);
}

#[test]
fn mbc2_nibble_ram() {
    let mut cart = Mbc2::new();
    cart.wb(0x0000, 0x0A);
    cart.wb(0xA005, 0x3C);
    cart.wb(0xA105, 0x07);
    assert_eq!(cart.rb(0xA005), 0xFC);
    assert_eq!(cart.rb(0xA105), 0xF7);
    cart.wb(0x0100, 0x00);
    assert_eq!(cart.rb(0xA005), 0xFC);
    cart.wb(0x0000, 0x00);
    assert_eq!(cart.rb(0xA005), 0x00);
}

#[test]
fn mbc2_bank_select_needs_bit8() {
    let mut cart = Mbc2::new();
    cart.load_rom(&banked_rom(0x40000));
    cart.wb(0x2000, 3);
    assert_eq!(cart.rb(0x4000), 1);
    cart.wb(0x2100, 3);
    assert_eq!(cart.rb(0x4000), 3);
    cart.wb(0x2100, 0);
    assert_eq!(cart.rb(0x4000), 1);
}

#[test]
fn mbc3_clock_latch_and_tick() {
    let mut cart = Mbc3::new();
    cart.wb(0x0000, 0x0A);
    cart.wb(0x4000, 0x08);
    cart.wb(0xA000, 59);
    cart.wb(0x4000, 0x09);
    cart.wb(0xA000, 59);
    for _ in 0..64 {
        cart.step(65535);
    }
    cart.step(64);
    cart.wb(0x6000, 0);
    cart.wb(0x6000, 1);
    cart.wb(0x4000, 0x08);
    assert_eq!(cart.rb(0xA000), 0);
    cart.wb(0x4000, 0x09);
    assert_eq!(cart.rb(0xA000), 0);
    cart.wb(0x4000, 0x0A);
    assert_eq!(cart.rb(0xA000), 1);
}

#[test]
fn mbc3_halt_bit_stops_clock() {
    let mut cart = Mbc3::new();
    cart.wb(0x0000, 0x0A);
    cart.wb(0x4000, 0x0C);
    cart.wb(0xA000, 0x40);
    for _ in 0..70 {
        cart.step(65535);
    }
    cart.wb(0x6000, 0);
    cart.wb(0x6000, 1);
    cart.wb(0x4000, 0x08);
    assert_eq!(cart.rb(0xA000), 0);
}

#[test]
fn mbc3_save_has_clock() {
    let mut cart = Mbc3::new();
    let saved = cart.save_ram();
    assert_eq!(saved.len(), 0x8000 + 5);
    let mut image = vec![0u8; 0x8000 + 5];
    image[0x8000] = 12;
    assert_eq!(cart.load_ram(&image), Ok(()));
    cart.wb(0x0000, 0x0A);
    cart.wb(0x4000, 0x08);
    assert_eq!(cart.rb(0xA000), 12);
}

#[test]
fn mbc5_nine_bit_bank() {
    let mut cart = Mbc5::new();
    let rom: Vec<u8> = (0..0x800000usize).map(|i| ((i / 0x4000) % 251) as u8).collect();
    cart.load_rom(&rom);
    cart.wb(0x2000, 0x00);
    assert_eq!(cart.rb(0x4000), 0);
    cart.wb(0x2000, 0x05);
    cart.wb(0x3000, 0x01);
    assert_eq!(cart.rb(0x4000), ((0x105usize) % 251) as u8);
    cart.wb(0x0000, 0x0A);
    cart.wb(0x4000, 0x0F);
    cart.wb(0xBFFF, 0x99);
    assert_eq!(cart.rb(0xBFFF), 0x99);
    assert_eq!(cart.save_game().len(), 0x20000);
}

#[test]
fn cartridge_kinds() {
    assert_eq!(CartridgeType::from_code(0), Some(CartridgeType::ROM_ONLY));
    assert_eq!(CartridgeType::from_code(3), Some(CartridgeType::MBC1));
    assert_eq!(CartridgeType::from_code(6), Some(CartridgeType::MBC2));
    assert_eq!(CartridgeType::from_code(0x13), Some(CartridgeType::MBC3));
    assert_eq!(CartridgeType::from_code(0x1B), Some(CartridgeType::MBC5));
    assert_eq!(CartridgeType::from_code(4), None);
    assert!(Mbc::new(CartridgeType::HUC3).is_none());
    let mut empty = Mbc::EMPTY;
    empty.wb(0x0000, 1);
    assert_eq!(empty.rb(0x0000), 0xFF);
}

#[test]
fn header_sizes() {
    assert_eq!(get_rom_size(0), Some(32));
    assert_eq!(get_rom_size(7), Some(4096));
    assert_eq!(get_rom_size(8), None);
    assert_eq!(get_ram_size(3), Some(32));
    assert_eq!(get_ram_size(5), Some(64));
    assert_eq!(get_ram_size(6), None);
}

#[test]
fn mbc3_day_counter_overflow_sets_carry() {
    let mut cart = Mbc3::new();
    cart.wb(0x0000, 0x0A);
    let regs: [(u8, u8); 5] = [(0x08, 59), (0x09, 59), (0x0A, 23), (0x0B, 0xFF), (0x0C, 0x01)];
    for (sel, val) in regs.iter() {
        cart.wb(0x4000, *sel);
        cart.wb(0xA000, *val);
    }
    for _ in 0..64 {
        cart.step(65535);
    }
    cart.step(64);
    cart.wb(0x6000, 0);
    cart.wb(0x6000, 1);
    cart.wb(0x4000, 0x0B);
    assert_eq!(cart.rb(0xA000), 0);
    cart.wb(0x4000, 0x0C);
    assert_eq!(cart.rb(0xA000), 0x80);
    cart.wb(0x4000, 0x0A);
    assert_eq!(cart.rb(0xA000), 0);
}
