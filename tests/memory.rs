use rust_gameboy::memory::Memory;

#[test]
fn echo_mirrors_both_ways() {
    let mut mem = Memory::new();
    mem.wb(0xC123, 0x42);
    assert_eq!(mem.rb(0xE123), 0x42);
    mem.wb(0xFDFF, 0x99);
    assert_eq!(mem.rb(0xDDFF), 0x99);
    mem.wb(0xD000, 0x11);
    assert_eq!(mem.rb(0xF000), 0x11);
}

#[test]
fn unusable_area_ignores_writes() {
    let mut mem = Memory::new();
    mem.wb(0xFEA0, 0x55);
    assert_eq!(mem.rb(0xFEA0), 0x00);
}

#[test]
fn div_resets_and_scanline_ignores_writes() {
    let mut mem = Memory::new();
    mem.write_div(0x33);
    assert_eq!(mem.rb(0xFF04), 0x33);
    mem.wb(0xFF04, 0x77);
    assert_eq!(mem.rb(0xFF04), 0);
    mem.wl(0x10);
    mem.wb(0xFF44, 0x20);
    assert_eq!(mem.rb(0xFF44), 0x10);
}

#[test]
fn words_are_little_endian() {
    let mut mem = Memory::new();
    mem.ww(0xC000, 0xBEEF);
    assert_eq!(mem.rb(0xC000), 0xEF);
    assert_eq!(mem.rb(0xC001), 0xBE);
    assert_eq!(mem.rw(0xC000), 0xBEEF);
}

#[test]
fn oam_dma_copies_a0_bytes() {
    let mut mem = Memory::new();
    for i in 0..0xA0u16 {
        mem.wb(0xC100 + i, i as u8 ^ 0x5A);
    }
    mem.wb(0xFF46, 0xC1);
    for i in 0..0xA0u16 {
        assert_eq!(mem.rb(0xFE00 + i), i as u8 ^ 0x5A);
    }
}

#[test]
fn wram_bank_zero_selects_one() {
    let mut mem = Memory::new();
    mem.set_cgb_mode(true);
    mem.wb(0xFF70, 2);
    mem.wb(0xD000, 0x22);
    mem.wb(0xFF70, 0);
    assert_eq!(mem.rb(0xD000), 0x00);
    mem.wb(0xD000, 0x11);
    mem.wb(0xFF70, 2);
    assert_eq!(mem.rb(0xD000), 0x22);
    mem.wb(0xFF70, 1);
    assert_eq!(mem.rb(0xD000), 0x11);
}

#[test]
fn palette_port_steps_index() {
    let mut mem = Memory::new();
    mem.wb(0xFF68, 0x80);
    mem.wb(0xFF69, 0x12);
    mem.wb(0xFF69, 0x34);
    assert_eq!(mem.read_bgp(0), 0x12);
    assert_eq!(mem.read_bgp(1), 0x34);
    assert_eq!(mem.rb(0xFF68), 0x82);
}

#[test]
fn vram_dma_general_purpose() {
    let mut mem = Memory::new();
    mem.set_cgb_mode(true);
    for i in 0..0x20u16 {
        mem.wb(0xC000 + i, 0xA0 + i as u8);
    }
    mem.wb(0xFF51, 0xC0);
    mem.wb(0xFF52, 0x00);
    mem.wb(0xFF53, 0x01);
    mem.wb(0xFF54, 0x00);
    mem.wb(0xFF55, 0x01);
    for i in 0..0x20u16 {
        assert_eq!(mem.rb(0x8100 + i), 0xA0 + i as u8);
    }
    assert_eq!(mem.rb(0xFF55), 0xFF);
}

#[test]
fn joypad_lines() {
    let mut mem = Memory::new();
    mem.wb(0xFF00, 0x20);
    mem.wk(0, true);
    assert_eq!(mem.rb(0xFF00), 0x20 | 0x0E);
    mem.wk(0, false);
    assert_eq!(mem.rb(0xFF00), 0x2F);
}
