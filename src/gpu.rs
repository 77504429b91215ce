//! The picture unit as the core drives it: LCD status and scanline timing, and drawing
//! each visible line of background, window and sprites into a 160x144 frame.
use vstd::prelude::*;
use crate::interrupts::{InterruptManager, VBLANK, LCD_STAT};
use crate::memory::{Memory, wrap_add, addr_add, lemma_read_io, lemma_write_io};
use crate::registers::pair;

verus! {

broadcast use crate::memory::lemma_write_wf, crate::memory::lemma_write_keeps_lcd_regs;

pub const SCREEN_WIDTH: usize = 160;
pub const SCREEN_HEIGHT: usize = 144;
pub const SCANLINE_TOTAL_TIME: i16 = 456;
pub const SCANLINE_MODE2_OVER: i16 = 456 - 80;
pub const SCANLINE_MODE3_OVER: i16 = 456 - 80 - 172;

#[allow(non_camel_case_types)]
#[derive(Debug, Clone, Copy, PartialEq, Eq, Structural)]
pub enum Color {
    WHITE,
    LIGHT_GRAY,
    DARK_GRAY,
    BLACK,
    CGB(u8, u8, u8),
}

/// The DMG shade of a 2-bit color number.
pub open spec fn shade(c: u8) -> Color {
    if c == 0 {
        Color::WHITE
    } else if c == 1 {
        Color::LIGHT_GRAY
    } else if c == 2 {
        Color::DARK_GRAY
    } else {
        Color::BLACK
    }
}

/// A 5-bit channel stretched to 8 bits.
pub open spec fn scale5(v: u16) -> u8 {
    (v * 255 / 31) as u8
}

/// The color of a 15-bit CGB palette entry (red in the low bits).
pub open spec fn cgb_color(data: u16) -> Color {
    Color::CGB(scale5(data % 32), scale5((data / 32) % 32), scale5((data / 1024) % 32))
}

fn channel(v: u16) -> (r: u8)
    requires
        v < 32,
    ensures
        r == scale5(v),
{
    (v * 255 / 31) as u8
}

fn cgb_entry(lo: u8, hi: u8) -> (r: Color)
    ensures
        r == cgb_color((lo as u16 + hi as u16 * 256) as u16),
{
    let data: u16 = lo as u16 + hi as u16 * 256;
    Color::CGB(channel(data % 32), channel((data / 32) % 32), channel((data / 1024) % 32))
}

impl Color {
    /// Color number `id` (0 to 3) looked up in a DMG palette register.
    pub fn from_gb_palette(id: u8, palette: u8) -> (r: Color)
        requires
            id < 4,
        ensures
            r == shade((palette >> (2 * id)) & 3),
    {
        let color = (palette >> (2 * id)) & 3;
        if color == 0 {
            Color::WHITE
        } else if color == 1 {
            Color::LIGHT_GRAY
        } else if color == 2 {
            Color::DARK_GRAY
        } else {
            Color::BLACK
        }
    }

    /// Color number `id` of background palette `number` in CGB palette memory.
    pub fn from_cgb_palette_bgp(id: u8, number: u8, mem: &Memory) -> (r: Color)
        requires
            id < 4,
            number < 8,
            mem@.wf(),
        ensures
            r == cgb_color(
                (mem@.bgp[8 * number + 2 * id] as u16 + mem@.bgp[8 * number + 2 * id + 1] as u16
                    * 256) as u16,
            ),
    {
        let index = (8 * number + 2 * id) as usize;
        cgb_entry(mem.read_bgp(index), mem.read_bgp(index + 1))
    }

    /// Color number `id` of sprite palette `number` in CGB palette memory.
    pub fn from_cgb_palette_sp(id: u8, number: u8, mem: &Memory) -> (r: Color)
        requires
            id < 4,
            number < 8,
            mem@.wf(),
        ensures
            r == cgb_color(
                (mem@.spp[8 * number + 2 * id] as u16 + mem@.spp[8 * number + 2 * id + 1] as u16
                    * 256) as u16,
            ),
    {
        let index = (8 * number + 2 * id) as usize;
        cgb_entry(mem.read_sp(index), mem.read_sp(index + 1))
    }
}

/// The 2-bit color number of pixel `bit` (7 is leftmost) of a tile row.
fn color_number(lo: u8, hi: u8, bit: u8) -> (r: u8)
    requires
        bit < 8,
    ensures
        r == (((hi >> bit) & 1) << 1u8) | ((lo >> bit) & 1),
        r < 4,
{
    let r = (((hi >> bit) & 1) << 1u8) | ((lo >> bit) & 1);
    proof {
        assert((((hi >> bit) & 1) << 1u8) | ((lo >> bit) & 1) < 4) by (bit_vector);
    }
    r
}

pub struct Gpu {
    /// Row by row, 160 pixels each.
    screen_data: Vec<Color>,
    /// Per pixel: color number in bits 2-1, CGB background priority in bit 0.
    bg_priority: Vec<u8>,
    sl_count: i16,
}

pub open spec fn pixel_index(line: int, pixel: int) -> int {
    line * SCREEN_WIDTH + pixel
}

impl Gpu {
    pub closed spec fn wf(&self) -> bool {
        &&& self.screen_data@.len() == SCREEN_WIDTH * SCREEN_HEIGHT
        &&& self.bg_priority@.len() == SCREEN_WIDTH * SCREEN_HEIGHT
        &&& 0 < self.sl_count <= SCANLINE_TOTAL_TIME || self.sl_count == 0
    }

    pub closed spec fn screen(&self) -> Seq<Color> {
        self.screen_data@
    }

    pub closed spec fn scanline_count(&self) -> i16 {
        self.sl_count
    }

    pub fn new() -> (r: Gpu)
        ensures
            r.wf(),
            r.screen() == Seq::new((SCREEN_WIDTH * SCREEN_HEIGHT) as nat, |i: int| Color::CGB(0, 0, 0)),
            r.scanline_count() == 0,
    {
        let mut screen_data: Vec<Color> = Vec::with_capacity(SCREEN_WIDTH * SCREEN_HEIGHT);
        let mut bg_priority: Vec<u8> = Vec::with_capacity(SCREEN_WIDTH * SCREEN_HEIGHT);
        let mut i: usize = 0;
        while i < SCREEN_WIDTH * SCREEN_HEIGHT
            invariant
                i <= SCREEN_WIDTH * SCREEN_HEIGHT,
                screen_data@ == Seq::new(i as nat, |k: int| Color::CGB(0, 0, 0)),
                bg_priority@.len() == i,
            decreases SCREEN_WIDTH * SCREEN_HEIGHT - i,
        {
            screen_data.push(Color::CGB(0, 0, 0));
            bg_priority.push(0);
            i += 1;
            proof {
                assert(screen_data@ =~= Seq::new(i as nat, |k: int| Color::CGB(0, 0, 0)));
            }
        }
        Gpu { screen_data, bg_priority, sl_count: 0 }
    }

    /// The frame, row by row: pixel (x, y) at y * 160 + x.
    pub fn get_screen(&self) -> (r: &Vec<Color>)
        ensures
            r@ == self.screen(),
    {
        &self.screen_data
    }

    pub fn get_scanline_count(&self) -> (r: i16)
        ensures
            r == self.scanline_count(),
    {
        self.sl_count
    }

    fn is_lcd_enabled(&self, mem: &Memory) -> (r: bool)
        requires
            mem@.wf(),
        ensures
            r == (mem@.read(0xFF40) & 0x80 != 0),
    {
        (mem.rb(0xFF40) & 0x80) != 0
    }

    /// Advances the scanline counter; at its end moves LY on (mod 154), requests VBlank
    /// on entering line 144 and draws each visible line. With the LCD off, LY stays 0.
    pub fn step(&mut self, mem: &mut Memory, im: &InterruptManager, cycles: i16, cgb_mode: bool)
        requires
            old(self).wf(),
            old(mem)@.wf(),
            0 <= cycles <= 456,
        ensures
            final(self).wf(),
            final(mem)@.wf(),
            final(mem)@.io[0xFF40] == old(mem)@.io[0xFF40],
            old(mem)@.io[0xFF40] & 0x80 == 0 ==> final(mem)@.io[0xFF44] == 0
                && final(self).scanline_count() == SCANLINE_TOTAL_TIME,
            old(mem)@.io[0xFF40] & 0x80 != 0 && old(self).scanline_count() - cycles > 0
                ==> final(mem)@.io[0xFF44] == old(mem)@.io[0xFF44] && final(self).scanline_count()
                == old(self).scanline_count() - cycles,
            old(mem)@.io[0xFF40] & 0x80 != 0 && old(self).scanline_count() - cycles <= 0
                ==> final(mem)@.io[0xFF44] == (old(mem)@.io[0xFF44] + 1) % 154
                && final(self).scanline_count() == SCANLINE_TOTAL_TIME,
            old(mem)@.io[0xFF40] & 0x80 != 0 && old(self).scanline_count() - cycles <= 0 && (old(
                mem,
            )@.io[0xFF44] + 1) % 154 == 144 ==> final(mem)@.read(0xFF0F) & 1 != 0,
    {
        self.set_lcd_status(mem, im, cgb_mode);
        proof {
            lemma_read_io(mem@, 0xFF40);
            lemma_read_io(mem@, 0xFF44);
        }
        if self.is_lcd_enabled(mem) {
            self.sl_count = self.sl_count - cycles;
            if self.sl_count <= 0 {
                let line = ((mem.rb(0xFF44) as u16 + 1) % 154) as u8;
                mem.wl(line);
                proof {
                    lemma_read_io(mem@, 0xFF44);
                }
                self.sl_count = SCANLINE_TOTAL_TIME;
                if line == 144 {
                    let ghost before = mem@;
                    im.request_interrupt(mem, VBLANK);
                    proof {
                        lemma_read_io(before, 0xFF0F);
                        let r = before.read(0xFF0F);
                        let v = r | (1u8 << 0u8);
                        lemma_write_io(before, 0xFF0F, v);
                        lemma_read_io(mem@, 0xFF0F);
                        assert((r | (1u8 << 0u8)) & 1 != 0) by (bit_vector);
                    }
                } else if line < 144 {
                    self.draw_line(mem, cgb_mode);
                }
            }
        }
    }

    /// Sets the mode bits and coincidence flag of STAT (0xFF41), requests LCD-STAT
    /// interrupts on entering an enabled mode or on LY = LYC, and runs one block of an
    /// armed H-Blank VRAM copy.
    fn set_lcd_status(&mut self, mem: &mut Memory, im: &InterruptManager, cgb_mode: bool)
        requires
            old(self).wf(),
            old(mem)@.wf(),
        ensures
            final(self).wf(),
            final(mem)@.wf(),
            final(self).screen() == old(self).screen(),
            final(mem)@.io[0xFF40] == old(mem)@.io[0xFF40],
            old(mem)@.io[0xFF40] & 0x80 != 0 ==> final(mem)@.io[0xFF44] == old(mem)@.io[0xFF44]
                && final(self).scanline_count() == old(self).scanline_count(),
            old(mem)@.io[0xFF40] & 0x80 == 0 ==> final(mem)@.io[0xFF44] == 0
                && final(self).scanline_count() == SCANLINE_TOTAL_TIME,
    {
        proof {
            lemma_read_io(mem@, 0xFF40);
        }
        let mut status = mem.rb(0xFF41);
        let line = mem.rb(0xFF44);
        let mode = status & 3;

        let mut request_interrupt = false;
        if !self.is_lcd_enabled(mem) {
            self.sl_count = SCANLINE_TOTAL_TIME;
            mem.wl(0);
            status = (status & 0xFC) | 1;
        } else if line > 144 {
            status = (status & 0xFC) | 1;
            request_interrupt = (status & (1 << 4)) > 0;
        } else if self.sl_count >= SCANLINE_MODE2_OVER {
            status = (status & 0xFC) | 2;
            request_interrupt = (status & (1 << 5)) > 0;
        } else if self.sl_count >= SCANLINE_MODE3_OVER {
            status = (status & 0xFC) | 3;
        } else {
            status = status & 0xFC;
            request_interrupt = (status & (1 << 3)) > 0;
        }

        if request_interrupt && (mode != (status & 3)) {
            im.request_interrupt(mem, LCD_STAT);
        }
        if line == mem.rb(0xFF45) && self.is_lcd_enabled(mem) {
            status = (status & 0xFB) | 4;
            if (status & (1 << 6)) > 0 {
                im.request_interrupt(mem, LCD_STAT);
            } else {
                status = status & 0xFB;
            }
        }

        let dma_info = mem.rb(0xFF55);
        if (status & 3) == 0 && dma_info & 0x80 != 0 && dma_info != 0xFF && cgb_mode {
            let source = (mem.rb(0xFF52) as u16 | ((mem.rb(0xFF51) as u16) << 8u16)) & 0xFFF0;
            let dest = ((mem.rb(0xFF54) as u16 | ((mem.rb(0xFF53) as u16) << 8u16)) & 0x1FF0) | 0x8000;
            proof {
                assert(dma_info & 0x7F <= 0x7F) by (bit_vector);
            }
            let length: u16 = 0x10 * ((dma_info & 0x7F) as u16 + 1);
            proof {
                let d = pair(mem@.read(0xFF53), mem@.read(0xFF54));
                let hi = mem@.read(0xFF53) as u16;
                let lo = mem@.read(0xFF54) as u16;
                assert(0x8000 <= ((lo | (hi << 8u16)) & 0x1FF0) | 0x8000 <= 0x9FF0) by (bit_vector);
            }
            let ghost io40 = mem@.io[0xFF40];
            let ghost io44 = mem@.io[0xFF44];
            let mut i: u16 = 0;
            while i < 0x10
                invariant
                    mem@.wf(),
                    i <= 0x10,
                    16 <= length <= 0x800,
                    0x8000 <= dest <= 0x9FF0,
                    mem@.io[0xFF40] == io40,
                    mem@.io[0xFF44] == io44,
                decreases 0x10 - i,
            {
                let copy_val = mem.rb(wrap_add(source, (length - i - 1) as i32));
                mem.wb(wrap_add(dest, (length - i - 1) as i32), copy_val);
                i = i + 1;
            }
            let blocks = (length / 0x10 - 1) as u8;
            mem.wb(0xFF55, ((blocks as u16 + 255) % 256) as u8 | 0x80);
        }
        mem.wb(0xFF41, status);
    }

    fn draw_line(&mut self, mem: &Memory, cgb_mode: bool)
        requires
            old(self).wf(),
            mem@.wf(),
            mem@.read(0xFF44) < 144,
        ensures
            final(self).wf(),
            final(self).scanline_count() == old(self).scanline_count(),
            forall|i: int|
                0 <= i < SCREEN_WIDTH * SCREEN_HEIGHT && !(pixel_index(mem@.read(0xFF44) as int, 0)
                    <= i < pixel_index(mem@.read(0xFF44) as int, 160)) ==> final(self).screen()[i]
                    == old(self).screen()[i],
    {
        self.draw_tiles(mem, cgb_mode);
        if (mem.rb(0xFF40) & 2) > 0 {
            self.draw_sprites(mem, cgb_mode);
        }
    }

    /// Draws the background, or the window where it covers the line, for line LY.
    fn draw_tiles(&mut self, mem: &Memory, cgb_mode: bool)
        requires
            old(self).wf(),
            mem@.wf(),
            mem@.read(0xFF44) < 144,
        ensures
            final(self).wf(),
            final(self).scanline_count() == old(self).scanline_count(),
            forall|i: int|
                0 <= i < SCREEN_WIDTH * SCREEN_HEIGHT && !(pixel_index(mem@.read(0xFF44) as int, 0)
                    <= i < pixel_index(mem@.read(0xFF44) as int, 160)) ==> final(self).screen()[i]
                    == old(self).screen()[i],
    {
        let scroll_y = mem.rb(0xFF42);
        let scroll_x = mem.rb(0xFF43);
        let window_y = mem.rb(0xFF4A);
        let window_x = mem.rb(0xFF4B).wrapping_sub(7);

        let control = mem.rb(0xFF40);
        let line = mem.rb(0xFF44);
        let row = line as usize * SCREEN_WIDTH;
        let tile_data_loc: u16 = if (control & (1 << 4)) > 0 {
            0x8000
        } else {
            0x8800
        };
        let back_layout_loc: u16 = if (control & (1 << 3)) > 0 {
            0x9C00
        } else {
            0x9800
        };
        let wind_layout_loc: u16 = if (control & (1 << 6)) > 0 {
            0x9C00
        } else {
            0x9800
        };
        let using_window = (control & (1 << 5)) > 0 && window_y <= line;
        let background_loc: u16 = if using_window {
            wind_layout_loc
        } else {
            back_layout_loc
        };

        if !using_window && control & 1 == 0 {
            let mut pixel: usize = 0;
            while pixel < SCREEN_WIDTH
                invariant
                    self.wf(),
                    self.sl_count == old(self).sl_count,
                    self.screen() == old(self).screen(),
                    row == line as usize * SCREEN_WIDTH,
                    line < 144,
                decreases SCREEN_WIDTH - pixel,
            {
                self.bg_priority.set(row + pixel, 0);
                pixel += 1;
            }
            return;
        }

        let y_offset: u8 = if using_window {
            line - window_y
        } else {
            scroll_y.wrapping_add(line)
        };
        let tile_row = y_offset / 8;

        let mut pixel: u8 = 0;
        while pixel < 160
            invariant
                self.wf(),
                self.sl_count == old(self).sl_count,
                mem@.wf(),
                row == line as usize * SCREEN_WIDTH,
                line < 144,
                line == mem@.read(0xFF44),
                tile_row < 32,
                background_loc == 0x9800 || background_loc == 0x9C00,
                tile_data_loc == 0x8000 || tile_data_loc == 0x8800,
                forall|i: int|
                    0 <= i < SCREEN_WIDTH * SCREEN_HEIGHT && !(pixel_index(line as int, 0) <= i
                        < pixel_index(line as int, 160)) ==> self.screen()[i] == old(self).screen()[i],
            decreases 160 - pixel,
        {
            let mut x_offset = pixel.wrapping_add(scroll_x);
            if using_window && pixel >= window_x {
                x_offset = pixel - window_x;
            }
            let tile_col = x_offset / 8;
            let address = background_loc + tile_row as u16 * 32 + tile_col as u16;

            let tile_num = mem.read_vram(address, false);
            let tile_loc: u16 = if tile_data_loc == 0x8000 {
                tile_data_loc + (tile_num as u16) * 16
            } else {
                tile_data_loc + ((tile_num as u16 + 128) % 256) * 16
            };
            let tile_attributes = if cgb_mode {
                mem.read_vram(address, true)
            } else {
                0
            };
            let x_flip = tile_attributes & (1 << 5) > 0;
            let y_flip = tile_attributes & (1 << 6) > 0;
            let tile_line: u16 = if y_flip {
                (7 - y_offset % 8) as u16
            } else {
                (y_offset % 8) as u16
            };
            let (lo, hi) = if cgb_mode {
                let bank = tile_attributes & (1 << 3) > 0;
                (mem.read_vram(tile_loc + tile_line * 2, bank), mem.read_vram(tile_loc + tile_line * 2 + 1, bank))
            } else {
                (mem.rb(tile_loc + tile_line * 2), mem.rb(tile_loc + tile_line * 2 + 1))
            };
            let color_bit = if x_flip {
                x_offset % 8
            } else {
                7 - x_offset % 8
            };
            let color_id = color_number(lo, hi, color_bit);
            let index = row + pixel as usize;
            self.bg_priority.set(index, ((tile_attributes & 0x80) >> 7u8) | (color_id << 1u8));
            proof {
                assert(tile_attributes & 7 < 8) by (bit_vector);
            }
            let color = if cgb_mode {
                Color::from_cgb_palette_bgp(color_id, tile_attributes & 7, mem)
            } else {
                Color::from_gb_palette(color_id, mem.rb(0xFF47))
            };
            self.screen_data.set(index, color);
            pixel += 1;
        }
    }

    /// Whether the background pixel hides a sprite pixel: the background is on, the
    /// pixel's color number is not 0, and either the tile or the sprite asks for the
    /// background in front.
    fn bg_has_priority(&self, mem: &Memory, line: usize, pixel: usize, behind_bg: bool) -> (r: bool)
        requires
            self.wf(),
            mem@.wf(),
            line < SCREEN_HEIGHT,
            pixel < SCREEN_WIDTH,
    {
        let p = self.bg_priority[line * SCREEN_WIDTH + pixel];
        mem.rb(0xFF40) & 1 > 0 && (p & 1 > 0 || behind_bg) && p > 1
    }

    /// Draws the sprites that cross line LY, the lower-numbered ones on top.
    fn draw_sprites(&mut self, mem: &Memory, cgb_mode: bool)
        requires
            old(self).wf(),
            mem@.wf(),
            mem@.read(0xFF44) < 144,
        ensures
            final(self).wf(),
            final(self).scanline_count() == old(self).scanline_count(),
            forall|i: int|
                0 <= i < SCREEN_WIDTH * SCREEN_HEIGHT && !(pixel_index(mem@.read(0xFF44) as int, 0)
                    <= i < pixel_index(mem@.read(0xFF44) as int, 160)) ==> final(self).screen()[i]
                    == old(self).screen()[i],
    {
        let control = mem.rb(0xFF40);
        let large_sprites = (control & (1 << 2)) > 0;
        let line = mem.rb(0xFF44);
        let y_size: u16 = if large_sprites {
            16
        } else {
            8
        };
        let mut sprite: u16 = 40;
        while sprite > 0
            invariant
                self.wf(),
                self.sl_count == old(self).sl_count,
                mem@.wf(),
                line < 144,
                sprite <= 40,
                line == mem@.read(0xFF44),
                forall|i: int|
                    0 <= i < SCREEN_WIDTH * SCREEN_HEIGHT && !(pixel_index(line as int, 0) <= i
                        < pixel_index(line as int, 160)) ==> self.screen()[i] == old(self).screen()[i],
                y_size == 8 || y_size == 16,
            decreases sprite,
        {
            sprite = sprite - 1;
            let offset = sprite * 4;
            let x_pos = mem.rb(0xFE00 + offset + 1).wrapping_sub(8);
            let y_pos = mem.rb(0xFE00 + offset).wrapping_sub(16);
            let sprite_loc = mem.rb(0xFE00 + offset + 2);
            let attributes = mem.rb(0xFE00 + offset + 3);
            let x_flip = (attributes & (1 << 5)) > 0;
            let y_flip = (attributes & (1 << 6)) > 0;

            if y_pos as u16 <= line as u16 && (line as u16) < y_pos as u16 + y_size {
                let sprite_line: u16 = if y_flip {
                    y_size + y_pos as u16 - line as u16 - 1
                } else {
                    line as u16 - y_pos as u16
                };
                let address = 0x8000 + sprite_loc as u16 * 16 + sprite_line * 2;
                let (lo, hi) = if cgb_mode {
                    let bank = attributes & (1 << 3) > 0;
                    (mem.read_vram(address, bank), mem.read_vram(address + 1, bank))
                } else {
                    (mem.rb(address), mem.rb(address + 1))
                };
                let behind_bg = attributes & (1 << 7) > 0;
                let mut color_bit: u8 = 0;
                while color_bit < 8
                    invariant
                        self.wf(),
                        self.sl_count == old(self).sl_count,
                        mem@.wf(),
                        line < 144,
                        forall|i: int|
                            0 <= i < SCREEN_WIDTH * SCREEN_HEIGHT && !(pixel_index(line as int, 0)
                                <= i < pixel_index(line as int, 160)) ==> self.screen()[i]
                                == old(self).screen()[i],
                    decreases 8 - color_bit,
                {
                    let color_id = color_number(lo, hi, color_bit);
                    if color_id != 0 {
                        let pixel = if x_flip {
                            x_pos.wrapping_add(color_bit)
                        } else {
                            x_pos.wrapping_add(7 - color_bit)
                        };
                        if (pixel as usize) < SCREEN_WIDTH && !self.bg_has_priority(
                            mem,
                            line as usize,
                            pixel as usize,
                            behind_bg,
                        ) {
                            proof {
                                assert(attributes & 7 < 8) by (bit_vector);
                            }
                            let color = if cgb_mode {
                                Color::from_cgb_palette_sp(color_id, attributes & 7, mem)
                            } else {
                                let palette_address: u16 = if (attributes & (1 << 4)) > 0 {
                                    0xFF49
                                } else {
                                    0xFF48
                                };
                                Color::from_gb_palette(color_id, mem.rb(palette_address))
                            };
                            self.screen_data.set(line as usize * SCREEN_WIDTH + pixel as usize, color);
                        }
                    }
                    color_bit += 1;
                }
            }
        }
    }
}

} // verus!
