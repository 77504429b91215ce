use rust_gameboy::gpu::{Color, Gpu};
use rust_gameboy::interrupts::InterruptManager;
use rust_gameboy::memory::Memory;

#[test]
fn gb_palette_lookup() {
    assert_eq!(Color::from_gb_palette(0, 0xE4), Color::WHITE);
    assert_eq!(Color::from_gb_palette(1, 0xE4), Color::LIGHT_GRAY);
    assert_eq!(Color::from_gb_palette(2, 0xE4), Color::DARK_GRAY);
    assert_eq!(Color::from_gb_palette(3, 0xE4), Color::BLACK);
    assert_eq!(Color::from_gb_palette(0, 0x03), Color::BLACK);
}

#[test]
fn cgb_palette_lookup() {
    let mut mem = Memory::new();
    mem.wb(0xFF68, 0x80 | 10);
    mem.wb(0xFF69, 0x1F);
    mem.wb(0xFF69, 0x7C);
    assert_eq!(Color::from_cgb_palette_bgp(1, 1, &mem), Color::CGB(255, 0, 255));
    mem.wb(0xFF6A, 0x80);
    mem.wb(0xFF6B, 0xE0);
    mem.wb(0xFF6B, 0x03);
    assert_eq!(Color::from_cgb_palette_sp(0, 0, &mem), Color::CGB(0, 255, 0));
}

#[test]
fn vblank_after_144_lines() {
    let mut mem = Memory::new();
    let im = InterruptManager::new();
    let mut gpu = Gpu::new();
    mem.wb(0xFF40, 0x91);
    mem.wb(0xFF47, 0xE4);
    assert_eq!(gpu.get_screen().len(), 160 * 144);
    let mut steps = 0;
    while mem.rb(0xFF0F) & 1 == 0 && steps < 100000 {
        gpu.step(&mut mem, &im, 4, false);
        steps += 1;
    }
    assert_eq!(mem.rb(0xFF44), 144);
    assert_eq!(gpu.get_screen()[160], Color::WHITE);
    assert_eq!(gpu.get_screen()[0], Color::CGB(0, 0, 0));
    assert!(gpu.get_scanline_count() > 0);
}

#[test]
fn background_tile_is_drawn() {
    let mut mem = Memory::new();
    let im = InterruptManager::new();
    let mut gpu = Gpu::new();
    mem.wb(0xFF40, 0x91);
    mem.wb(0xFF47, 0xE4);
    mem.wb(0x9800, 1);
    mem.wb(0x8010, 0xFF);
    mem.wb(0x8011, 0xFF);
    mem.wl(153);
    gpu.step(&mut mem, &im, 456, false);
    assert_eq!(mem.rb(0xFF44), 0);
    assert_eq!(gpu.get_screen()[0], Color::BLACK);
    assert_eq!(gpu.get_screen()[8], Color::WHITE);
}
