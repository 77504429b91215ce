//! The 64KB address space: boot ROM, cartridge, video and work RAM with their banks,
//! the echo of work RAM, and the I/O registers with side effects on write.
use vstd::prelude::*;
use crate::bytes::{zeros, zero_seq};
use crate::mbc::{Mbc, CartView};
use crate::registers::pair;

verus! {

/// What a read of the unusable area 0xFEA0-0xFEFF returns.
pub const UNUSABLE: u8 = 0x00;

pub const IO_SIZE: usize = 0x10000;
pub const WRAM_SIZE: usize = 0x8000;
pub const VRAM_SIZE: usize = 0x4000;
pub const PALETTE_SIZE: usize = 64;

/// `a + k` in the 16-bit address space.
pub open spec fn addr_add(a: u16, k: int) -> u16 {
    let t = a as int + k;
    if t < 0 {
        (t + 0x10000) as u16
    } else if t >= 0x10000 {
        (t - 0x10000) as u16
    } else {
        t as u16
    }
}

/// `a + k` wrapping around the 16-bit address space.
pub fn wrap_add(a: u16, k: i32) -> (r: u16)
    requires
        -0x10000 < k < 0x10000,
    ensures
        r == addr_add(a, k as int),
{
    let t: i32 = a as i32 + k;
    if t < 0 {
        (t + 0x10000) as u16
    } else if t >= 0x10000 {
        (t - 0x10000) as u16
    } else {
        t as u16
    }
}

pub struct MemView {
    pub cart: CartView,
    pub bios: Seq<u8>,
    pub cgb_mode: bool,
    /// Backing store of the areas that need no decoding (OAM, I/O, high RAM, IE).
    pub io: Seq<u8>,
    pub wram: Seq<u8>,
    pub vram: Seq<u8>,
    pub bgp: Seq<u8>,
    pub spp: Seq<u8>,
    pub wram_bank: u8,
    pub key_state: u8,
    pub running_bios: bool,
}

impl MemView {
    pub open spec fn wf(self) -> bool {
        &&& self.cart.wf()
        &&& self.io.len() == IO_SIZE
        &&& self.wram.len() == WRAM_SIZE
        &&& self.vram.len() == VRAM_SIZE
        &&& self.bgp.len() == PALETTE_SIZE
        &&& self.spp.len() == PALETTE_SIZE
        &&& 1 <= self.wram_bank <= 7
    }

    /// VRAM bank from register 0xFF4F; always bank 0 outside CGB mode.
    pub open spec fn vram_bank(self) -> int {
        if self.cgb_mode {
            (self.io[0xFF4F] % 2) as int
        } else {
            0
        }
    }

    pub open spec fn vram_index(self, a: int) -> int {
        self.vram_bank() * 0x2000 + (a - 0x8000)
    }

    /// Work RAM at 0xC000 <= a < 0xE000: bank 0, then the selected bank.
    pub open spec fn wram_index(self, a: int) -> int {
        if a < 0xD000 {
            a - 0xC000
        } else {
            self.wram_bank as int * 0x1000 + (a - 0xD000)
        }
    }

    pub open spec fn joypad(self) -> u8 {
        let sel = self.io[0xFF00] & 0x30;
        if sel == 0x10 {
            0x10 | (self.key_state >> 4u8)
        } else if sel == 0x20 {
            0x20 | (self.key_state & 0x0F)
        } else {
            0
        }
    }

    #[verifier::opaque]
    pub open spec fn read(self, address: u16) -> u8 {
        let a = address as int;
        if 0x100 <= a < 0x200 {
            self.cart.read(a as usize)
        } else if a < 0x8000 && a < self.bios.len() && self.running_bios {
            self.bios[a]
        } else if a < 0x8000 {
            self.cart.read(a as usize)
        } else if a < 0xA000 {
            self.vram[self.vram_index(a)]
        } else if a < 0xC000 {
            self.cart.read(a as usize)
        } else if a < 0xE000 {
            self.wram[self.wram_index(a)]
        } else if a < 0xFE00 {
            self.wram[self.wram_index(a - 0x2000)]
        } else if 0xFEA0 <= a < 0xFF00 {
            UNUSABLE
        } else if a == 0xFF00 {
            self.joypad()
        } else if a == 0xFF55 {
            if self.io[0xFF55] == 0xFF {
                0xFF
            } else {
                self.io[0xFF55] & 0x7F
            }
        } else if a == 0xFF69 {
            self.bgp[(self.io[0xFF68] & 0x3F) as int]
        } else if a == 0xFF6B {
            self.spp[(self.io[0xFF6A] & 0x3F) as int]
        } else {
            self.io[a]
        }
    }

    /// Little-endian: the low byte at `address`, the high byte after it.
    pub open spec fn read_word(self, address: u16) -> u16 {
        pair(self.read(addr_add(address, 1)), self.read(address))
    }

    pub open spec fn with_io(self, a: int, val: u8) -> MemView {
        MemView { io: self.io.update(a, val), ..self }
    }

    /// A write with no copy or palette register behind it.
    pub open spec fn write_plain(self, address: u16, val: u8) -> MemView {
        let a = address as int;
        if 0xFEA0 <= a < 0xFF00 {
            self
        } else if a < 0x8000 {
            MemView { cart: self.cart.write(a as usize, val), ..self }
        } else if a < 0xA000 {
            MemView { vram: self.vram.update(self.vram_index(a), val), ..self }
        } else if a < 0xC000 {
            MemView { cart: self.cart.write(a as usize, val), ..self }
        } else if a < 0xE000 {
            MemView { wram: self.wram.update(self.wram_index(a), val), ..self }
        } else if a < 0xFE00 {
            MemView { wram: self.wram.update(self.wram_index(a - 0x2000), val), ..self }
        } else if a == 0xFF04 {
            self.with_io(a, 0)
        } else if a == 0xFF44 {
            self
        } else if a == 0xFF4D {
            self.with_io(a, (self.io[0xFF4D] & 0x80) | (val & 0x7F))
        } else if a == 0xFF4F {
            self.with_io(a, val & 1)
        } else if a == 0xFF70 {
            let bank = if val & 7 == 0 || !self.cgb_mode {
                1u8
            } else {
                val & 7
            };
            MemView { wram_bank: bank, ..self.with_io(a, val) }
        } else {
            self.with_io(a, val)
        }
    }

    /// `n` bytes copied one at a time from `src` to `dst`, each read seeing the
    /// writes before it.
    pub open spec fn dma_copy(self, src: u16, dst: u16, n: nat) -> MemView
        decreases n,
    {
        if n == 0 {
            self
        } else {
            let prev = self.dma_copy(src, dst, (n - 1) as nat);
            prev.write_plain(addr_add(dst, n - 1), prev.read(addr_add(src, n - 1)))
        }
    }

    pub open spec fn hdma_source(self) -> u16 {
        (pair(self.io[0xFF51], self.io[0xFF52]) & 0xFFF0) as u16
    }

    pub open spec fn hdma_dest(self) -> u16 {
        ((pair(self.io[0xFF53], self.io[0xFF54]) & 0x1FF0) | 0x8000) as u16
    }

    /// A palette data register: store at the index of its companion register, and step the
    /// index when the companion's top bit is set.
    pub open spec fn palette_write(self, index_reg: int, sprites: bool, val: u8) -> MemView {
        let idx = self.io[index_reg];
        let stored = if sprites {
            MemView { spp: self.spp.update((idx & 0x3F) as int, val), ..self }
        } else {
            MemView { bgp: self.bgp.update((idx & 0x3F) as int, val), ..self }
        };
        let stepped = if idx >= 0x80 {
            stored.with_io(index_reg, ((idx as int + 1) % 256) as u8 | 0x80)
        } else {
            stored
        };
        stepped.with_io(index_reg + 1, val)
    }

    #[verifier::opaque]
    pub open spec fn write(self, address: u16, val: u8) -> MemView {
        if address == 0xFF46 {
            self.dma_copy((val as u16 * 256) as u16, 0xFE00, 0xA0)
        } else if address == 0xFF55 && self.cgb_mode && val < 0x80 {
            self.dma_copy(self.hdma_source(), self.hdma_dest(), (0x10 * (val as int + 1)) as nat)
                .with_io(0xFF55, 0xFF)
        } else if address == 0xFF69 {
            self.palette_write(0xFF68, false, val)
        } else if address == 0xFF6B {
            self.palette_write(0xFF6A, true, val)
        } else {
            self.write_plain(address, val)
        }
    }

    pub open spec fn write_word(self, address: u16, val: u16) -> MemView {
        self.write(address, (val % 256) as u8).write(addr_add(address, 1), (val / 256) as u8)
    }
}

/// Registers with no decoding behind them: timer, interrupt flag and enable, high RAM.
pub open spec fn plain_io(a: u16) -> bool {
    (0xFF05 <= a <= 0xFF0F) || (0xFF80 <= a <= 0xFFFF)
}

pub proof fn lemma_write_io(m: MemView, a: u16, v: u8)
    requires
        plain_io(a),
    ensures
        m.write(a, v) == m.with_io(a as int, v),
{
    reveal(MemView::write);
}

/// DIV, LCDC and LY read as stored too, though bus writes reset or ignore DIV and LY.
pub proof fn lemma_read_io(m: MemView, a: u16)
    requires
        plain_io(a) || a == 0xFF04 || a == 0xFF40 || a == 0xFF44,
    ensures
        m.read(a) == m.io[a as int],
{
    reveal(MemView::read);
}

/// Work RAM and high RAM: bytes with no decoding behind them.
pub open spec fn ram_addr(a: u16) -> bool {
    (0xC000 <= a < 0xE000) || (0xFF80 <= a <= 0xFFFE)
}

/// A RAM byte reads back what was written, and a write there leaves other RAM bytes and
/// the plain registers as they were.
pub proof fn lemma_ram_write_read(m: MemView, a: u16, b: u16, v: u8)
    requires
        m.wf(),
        ram_addr(a),
    ensures
        m.write(a, v).read(a) == v,
        (ram_addr(b) || plain_io(b)) && b != a ==> m.write(a, v).read(b) == m.read(b),
        m.write(a, v).wf(),
{
    reveal(MemView::read);
    reveal(MemView::write);
    lemma_write_wf(m, a, v);
}

/// A plain register write leaves RAM bytes as they were.
pub proof fn lemma_io_write_keeps_ram(m: MemView, a: u16, b: u16, v: u8)
    requires
        m.wf(),
        plain_io(a),
        ram_addr(b) || plain_io(b),
        b != a,
    ensures
        m.write(a, v).read(b) == m.read(b),
        m.write(a, v).read(a) == v,
        m.write(a, v).wf(),
{
    reveal(MemView::read);
    reveal(MemView::write);
    lemma_write_wf(m, a, v);
}

/// A copy whose destinations avoid LCDC leaves LCDC, and no copy changes LY.
pub proof fn lemma_dma_keeps_lcd_regs(m: MemView, src: u16, dst: u16, n: nat)
    requires
        m.wf(),
        forall|k: int| 0 <= k < n ==> addr_add(dst, k) != 0xFF40,
    ensures
        m.dma_copy(src, dst, n).io[0xFF44] == m.io[0xFF44],
        m.dma_copy(src, dst, n).io[0xFF40] == m.io[0xFF40],
    decreases n,
{
    if n > 0 {
        lemma_dma_keeps_lcd_regs(m, src, dst, (n - 1) as nat);
        lemma_dma_copy_wf(m, src, dst, (n - 1) as nat);
    }
}

/// No bus write changes LY (0xFF44), and only a write to LCDC (0xFF40) changes LCDC.
pub broadcast proof fn lemma_write_keeps_lcd_regs(m: MemView, a: u16, v: u8)
    requires
        m.wf(),
    ensures
        (#[trigger] m.write(a, v)).io[0xFF44] == m.io[0xFF44],
        a != 0xFF40 ==> m.write(a, v).io[0xFF40] == m.io[0xFF40],
{
    reveal(MemView::write);
    if a == 0xFF46 {
        lemma_dma_keeps_lcd_regs(m, (v as u16 * 256) as u16, 0xFE00, 0xA0);
        lemma_dma_copy_wf(m, (v as u16 * 256) as u16, 0xFE00, 0xA0);
    } else if a == 0xFF55 && m.cgb_mode && v < 0x80 {
        let d = pair(m.io[0xFF53], m.io[0xFF54]);
        assert(0x8000 <= ((d & 0x1FF0) | 0x8000) <= 0x9FF0) by (bit_vector);
        let dst = m.hdma_dest();
        let n = (0x10 * (v as int + 1)) as nat;
        assert(0x8000 <= dst <= 0x9FF0);
        assert forall|k: int| 0 <= k < n implies addr_add(dst, k) != 0xFF40 by {}
        lemma_dma_keeps_lcd_regs(m, m.hdma_source(), dst, n);
        lemma_dma_copy_wf(m, m.hdma_source(), dst, n);
    } else if a == 0xFF69 || a == 0xFF6B {
        let idx = m.io[a - 1];
        assert(idx & 0x3F < 64) by (bit_vector);
    }
}

pub broadcast proof fn lemma_cart_write_wf(c: CartView, a: usize, v: u8)
    requires
        c.wf(),
    ensures
        #[trigger] c.write(a, v).wf(),
{
}

pub broadcast proof fn lemma_write_plain_wf(m: MemView, a: u16, v: u8)
    requires
        m.wf(),
    ensures
        #[trigger] m.write_plain(a, v).wf(),
{
    broadcast use lemma_cart_write_wf;
    assert(v & 7 <= 7) by (bit_vector);
    assert(v & 7 != 0 ==> 1 <= v & 7) by (bit_vector);
}

pub broadcast proof fn lemma_dma_copy_wf(m: MemView, src: u16, dst: u16, n: nat)
    requires
        m.wf(),
    ensures
        #[trigger] m.dma_copy(src, dst, n).wf(),
    decreases n,
{
    broadcast use lemma_write_plain_wf;
    if n > 0 {
        lemma_dma_copy_wf(m, src, dst, (n - 1) as nat);
    }
}

pub broadcast proof fn lemma_write_wf(m: MemView, a: u16, v: u8)
    requires
        m.wf(),
    ensures
        #[trigger] m.write(a, v).wf(),
{
    reveal(MemView::write);
    broadcast use lemma_write_plain_wf;
    if a == 0xFF46 {
        lemma_dma_copy_wf(m, (v as u16 * 256) as u16, 0xFE00, 0xA0);
    } else if a == 0xFF55 && m.cgb_mode && v < 0x80 {
        lemma_dma_copy_wf(m, m.hdma_source(), m.hdma_dest(), (0x10 * (v as int + 1)) as nat);
        assert(m.dma_copy(m.hdma_source(), m.hdma_dest(), (0x10 * (v as int + 1)) as nat).with_io(0xFF55, 0xFF).wf());
    } else if a == 0xFF69 {
        let idx = m.io[0xFF68];
        assert(idx & 0x3F < 64) by (bit_vector);
    } else if a == 0xFF6B {
        let idx = m.io[0xFF6A];
        assert(idx & 0x3F < 64) by (bit_vector);
    }
}

/// The echo area mirrors work RAM both ways: a write on either side reads back from
/// the other.
pub proof fn lemma_echo_mirror(m: MemView, address: u16, v: u8)
    requires
        m.wf(),
    ensures
        0xC000 <= address <= 0xDDFF ==> m.write(address, v).read((address + 0x2000) as u16) == v,
        0xE000 <= address <= 0xFDFF ==> m.write(address, v).read((address - 0x2000) as u16) == v,
        0xC000 <= address <= 0xDDFF ==> m.read((address + 0x2000) as u16) == m.read(address),
{
    reveal(MemView::read);
    reveal(MemView::write);
}

pub struct Memory {
    cart: Mbc,
    bios: Vec<u8>,
    cgb_mode: bool,
    mem: Vec<u8>,
    wram: Vec<u8>,
    vram: Vec<u8>,
    bgp: Vec<u8>,
    sp: Vec<u8>,
    wram_bank: u8,
    key_state: u8,
    running_bios: bool,
}

impl View for Memory {
    type V = MemView;

    closed spec fn view(&self) -> MemView {
        MemView {
            cart: self.cart@,
            bios: self.bios@,
            cgb_mode: self.cgb_mode,
            io: self.mem@,
            wram: self.wram@,
            vram: self.vram@,
            bgp: self.bgp@,
            spp: self.sp@,
            wram_bank: self.wram_bank,
            key_state: self.key_state,
            running_bios: self.running_bios,
        }
    }
}

pub open spec fn initial_memory() -> MemView {
    MemView {
        cart: CartView::Empty,
        bios: Seq::empty(),
        cgb_mode: false,
        io: zero_seq(IO_SIZE as nat),
        wram: zero_seq(WRAM_SIZE as nat),
        vram: zero_seq(VRAM_SIZE as nat),
        bgp: zero_seq(PALETTE_SIZE as nat),
        spp: zero_seq(PALETTE_SIZE as nat),
        wram_bank: 1,
        key_state: 0xFF,
        running_bios: true,
    }
}

impl Memory {
    pub fn new() -> (r: Memory)
        ensures
            r@ == initial_memory(),
            r@.wf(),
    {
        Memory {
            cart: Mbc::EMPTY,
            bios: Vec::new(),
            cgb_mode: false,
            mem: zeros(IO_SIZE),
            wram: zeros(WRAM_SIZE),
            vram: zeros(VRAM_SIZE),
            bgp: zeros(PALETTE_SIZE),
            sp: zeros(PALETTE_SIZE),
            wram_bank: 1,
            key_state: 0xFF,
            running_bios: true,
        }
    }

    /// The boot ROM is done: from now on reads below its length go to the cartridge.
    pub fn finished_with_bios(&mut self)
        ensures
            final(self)@ == (MemView { running_bios: false, ..old(self)@ }),
    {
        self.running_bios = false;
    }

    pub fn set_cart(&mut self, cart: Mbc)
        requires
            old(self)@.wf(),
            cart@.wf(),
        ensures
            final(self)@ == (MemView { cart: cart@, ..old(self)@ }),
            final(self)@.wf(),
    {
        self.cart = cart;
    }

    pub fn cart(&self) -> (r: &Mbc)
        ensures
            r@ == self@.cart,
    {
        &self.cart
    }

    pub fn cart_mut_step(&mut self, cycles: u16)
        requires
            old(self)@.wf(),
        ensures
            final(self)@ == (MemView { cart: old(self)@.cart.step(cycles), ..old(self)@ }),
            final(self)@.wf(),
    {
        self.cart.step(cycles);
    }

    pub fn load_rom(&mut self, data: &Vec<u8>) -> (n: usize)
        requires
            old(self)@.wf(),
        ensures
            final(self)@.wf(),
            final(self)@ == (MemView { cart: final(self)@.cart, ..old(self)@ }),
            crate::mbc::kind_of(final(self)@.cart) == crate::mbc::kind_of(old(self)@.cart),
            crate::mbc::rom_of(final(self)@.cart) == crate::bytes::overlay(crate::mbc::rom_of(old(self)@.cart), data@),
            n == crate::bytes::min_len(crate::mbc::rom_of(old(self)@.cart).len(), data@.len()),
    {
        self.cart.load_rom(data)
    }

    pub fn load_ram(&mut self, data: &Vec<u8>) -> (r: Result<(), crate::mbc::SaveError>)
        requires
            old(self)@.wf(),
        ensures
            final(self)@.wf(),
            final(self)@ == (MemView { cart: final(self)@.cart, ..old(self)@ }),
            r is Ok <==> data@.len() == crate::mbc::save_len(old(self)@.cart),
            r is Ok ==> crate::mbc::save_image(final(self)@.cart) == data@,
            r is Err ==> crate::mbc::ram_of(final(self)@.cart) == zero_seq(crate::mbc::ram_of(old(self)@.cart).len()),
    {
        self.cart.load_ram(data)
    }

    pub fn save_ram(&self) -> (r: Vec<u8>)
        requires
            self@.wf(),
        ensures
            r@ == crate::mbc::save_image(self@.cart),
            r@.len() == crate::mbc::save_len(self@.cart),
    {
        self.cart.save_ram()
    }

    pub fn set_bios(&mut self, bios: Vec<u8>)
        ensures
            final(self)@ == (MemView { bios: bios@, ..old(self)@ }),
    {
        self.bios = bios;
    }

    pub fn bios_len(&self) -> (r: usize)
        ensures
            r == self@.bios.len(),
    {
        self.bios.len()
    }

    pub fn cgb_mode(&self) -> (r: bool)
        ensures
            r == self@.cgb_mode,
    {
        self.cgb_mode
    }

    pub fn set_cgb_mode(&mut self, cgb: bool)
        ensures
            final(self)@ == (MemView { cgb_mode: cgb, ..old(self)@ }),
    {
        self.cgb_mode = cgb;
    }

    fn wram_index(&self, a: usize) -> (r: usize)
        requires
            self@.wf(),
            0xC000 <= a < 0xE000,
        ensures
            r == self@.wram_index(a as int),
            r < WRAM_SIZE,
    {
        if a < 0xD000 {
            a - 0xC000
        } else {
            self.wram_bank as usize * 0x1000 + (a - 0xD000)
        }
    }

    fn vram_index(&self, a: usize) -> (r: usize)
        requires
            self@.wf(),
            0x8000 <= a < 0xA000,
        ensures
            r == self@.vram_index(a as int),
            r < VRAM_SIZE,
    {
        let bank: usize = if self.cgb_mode {
            (self.mem[0xFF4F] % 2) as usize
        } else {
            0
        };
        bank * 0x2000 + (a - 0x8000)
    }

    /// Read byte.
    pub fn rb(&self, address: u16) -> (r: u8)
        requires
            self@.wf(),
        ensures
            r == self@.read(address),
    {
        reveal(MemView::read);
        let a = address as usize;
        if 0x100 <= a && a < 0x200 {
            self.cart.rb(a)
        } else if a < 0x8000 && a < self.bios.len() && self.running_bios {
            self.bios[a]
        } else if a < 0x8000 {
            self.cart.rb(a)
        } else if a < 0xA000 {
            self.vram[self.vram_index(a)]
        } else if a < 0xC000 {
            self.cart.rb(a)
        } else if a < 0xE000 {
            self.wram[self.wram_index(a)]
        } else if a < 0xFE00 {
            self.wram[self.wram_index(a - 0x2000)]
        } else if 0xFEA0 <= a && a < 0xFF00 {
            UNUSABLE
        } else if a == 0xFF00 {
            let sel = self.mem[0xFF00] & 0x30;
            if sel == 0x10 {
                0x10 | (self.key_state >> 4u8)
            } else if sel == 0x20 {
                0x20 | (self.key_state & 0x0F)
            } else {
                0
            }
        } else if a == 0xFF55 {
            if self.mem[0xFF55] == 0xFF {
                0xFF
            } else {
                self.mem[0xFF55] & 0x7F
            }
        } else if a == 0xFF69 {
            let i = self.mem[0xFF68];
            proof {
                assert(i & 0x3F < 64) by (bit_vector);
            }
            self.bgp[(i & 0x3F) as usize]
        } else if a == 0xFF6B {
            let i = self.mem[0xFF6A];
            proof {
                assert(i & 0x3F < 64) by (bit_vector);
            }
            self.sp[(i & 0x3F) as usize]
        } else {
            self.mem[a]
        }
    }

    /// Read word, little-endian.
    pub fn rw(&self, address: u16) -> (r: u16)
        requires
            self@.wf(),
        ensures
            r == self@.read_word(address),
    {
        let lo = self.rb(address);
        let hi = self.rb(wrap_add(address, 1));
        hi as u16 * 256 + lo as u16
    }

    fn set_io(&mut self, a: usize, val: u8)
        requires
            old(self)@.wf(),
            a < IO_SIZE,
        ensures
            final(self)@ == old(self)@.with_io(a as int, val),
    {
        self.mem.set(a, val);
    }

    fn write_plain(&mut self, address: u16, val: u8)
        requires
            old(self)@.wf(),
        ensures
            final(self)@ == old(self)@.write_plain(address, val),
            final(self)@.wf(),
    {
        proof {
            lemma_write_plain_wf(self@, address, val);
        }
        let a = address as usize;
        if 0xFEA0 <= a && a < 0xFF00 {
        } else if a < 0x8000 {
            self.cart.wb(a, val);
        } else if a < 0xA000 {
            let i = self.vram_index(a);
            self.vram.set(i, val);
        } else if a < 0xC000 {
            self.cart.wb(a, val);
        } else if a < 0xE000 {
            let i = self.wram_index(a);
            self.wram.set(i, val);
        } else if a < 0xFE00 {
            let i = self.wram_index(a - 0x2000);
            self.wram.set(i, val);
        } else if a == 0xFF04 {
            self.set_io(a, 0);
        } else if a == 0xFF44 {
        } else if a == 0xFF4D {
            let speed = self.mem[0xFF4D] & 0x80;
            self.set_io(a, speed | (val & 0x7F));
        } else if a == 0xFF4F {
            self.set_io(a, val & 1);
        } else if a == 0xFF70 {
            self.set_io(a, val);
            self.wram_bank = if val & 7 == 0 || !self.cgb_mode {
                1
            } else {
                val & 7
            };
        } else {
            self.set_io(a, val);
        }
    }

    fn dma_copy(&mut self, src: u16, dst: u16, n: u16)
        requires
            old(self)@.wf(),
        ensures
            final(self)@ == old(self)@.dma_copy(src, dst, n as nat),
            final(self)@.wf(),
    {
        let mut i: u16 = 0;
        while i < n
            invariant
                i <= n,
                old(self)@.wf(),
                self@ == old(self)@.dma_copy(src, dst, i as nat),
                self@.wf(),
            decreases n - i,
        {
            proof {
                lemma_dma_copy_wf(old(self)@, src, dst, i as nat);
            }
            let v = self.rb(wrap_add(src, i as i32));
            self.write_plain(wrap_add(dst, i as i32), v);
            i = i + 1;
        }
    }

    fn palette_write(&mut self, index_reg: usize, sprites: bool, val: u8)
        requires
            old(self)@.wf(),
            index_reg == 0xFF68 || index_reg == 0xFF6A,
        ensures
            final(self)@ == old(self)@.palette_write(index_reg as int, sprites, val),
            final(self)@.wf(),
    {
        let idx = self.mem[index_reg];
        let slot = (idx & 0x3F) as usize;
        proof {
            assert(idx & 0x3F < 64) by (bit_vector);
        }
        if sprites {
            self.sp.set(slot, val);
        } else {
            self.bgp.set(slot, val);
        }
        if idx >= 0x80 {
            self.set_io(index_reg, ((idx as u16 + 1) % 256) as u8 | 0x80);
        }
        self.set_io(index_reg + 1, val);
    }

    /// Write byte.
    pub fn wb(&mut self, address: u16, val: u8)
        requires
            old(self)@.wf(),
        ensures
            final(self)@ == old(self)@.write(address, val),
            final(self)@.wf(),
    {
        reveal(MemView::write);
        if address == 0xFF46 {
            self.dma_copy(val as u16 * 256, 0xFE00, 0xA0);
        } else if address == 0xFF55 && self.cgb_mode && val < 0x80 {
            let source = (self.mem[0xFF51] as u16 * 256 + self.mem[0xFF52] as u16) & 0xFFF0;
            let dest = ((self.mem[0xFF53] as u16 * 256 + self.mem[0xFF54] as u16) & 0x1FF0) | 0x8000;
            self.dma_copy(source, dest, 0x10 * (val as u16 + 1));
            proof {
                lemma_dma_copy_wf(old(self)@, source, dest, (0x10 * (val as u16 + 1)) as nat);
            }
            self.set_io(0xFF55, 0xFF);
        } else if address == 0xFF69 {
            self.palette_write(0xFF68, false, val);
        } else if address == 0xFF6B {
            self.palette_write(0xFF6A, true, val);
        } else {
            self.write_plain(address, val);
        }
    }

    /// Write word, little-endian.
    pub fn ww(&mut self, address: u16, val: u16)
        requires
            old(self)@.wf(),
        ensures
            final(self)@ == old(self)@.write_word(address, val),
            final(self)@.wf(),
    {
        self.wb(address, (val % 256) as u8);
        self.wb(wrap_add(address, 1), (val / 256) as u8);
    }

    /// Sets the current scanline (0xFF44), which bus writes cannot change.
    pub fn wl(&mut self, val: u8)
        requires
            old(self)@.wf(),
        ensures
            final(self)@ == old(self)@.with_io(0xFF44, val),
            final(self)@.wf(),
    {
        self.set_io(0xFF44, val);
    }

    /// Sets the divider register (0xFF04), which bus writes only reset.
    pub fn write_div(&mut self, val: u8)
        requires
            old(self)@.wf(),
        ensures
            final(self)@ == old(self)@.with_io(0xFF04, val),
            final(self)@.wf(),
    {
        self.set_io(0xFF04, val);
    }

    /// Records a key as pressed (bit cleared) or released (bit set).
    pub fn wk(&mut self, key: u8, pressed: bool)
        requires
            key < 8,
        ensures
            final(self)@ == (MemView {
                key_state: if pressed {
                    old(self)@.key_state & !(1u8 << key)
                } else {
                    old(self)@.key_state | (1u8 << key)
                },
                ..old(self)@
            }),
    {
        if pressed {
            self.key_state = self.key_state & !(1u8 << key);
        } else {
            self.key_state = self.key_state | (1u8 << key);
        }
    }

    /// Records every key of `mask` as pressed (bits cleared) or released (bits set).
    pub fn write_keys(&mut self, mask: u8, pressed: bool)
        ensures
            final(self)@ == (MemView {
                key_state: if pressed {
                    old(self)@.key_state & !mask
                } else {
                    old(self)@.key_state | mask
                },
                ..old(self)@
            }),
    {
        if pressed {
            self.key_state = self.key_state & !mask;
        } else {
            self.key_state = self.key_state | mask;
        }
    }

    /// A byte of either VRAM bank, whatever bank the bus has selected.
    pub fn read_vram(&self, address: u16, bank: bool) -> (r: u8)
        requires
            self@.wf(),
        ensures
            r == self@.vram[(if bank { 0x2000int } else { 0 }) + (address % 0x2000) as int],
    {
        let base: usize = if bank {
            0x2000
        } else {
            0
        };
        self.vram[base + (address % 0x2000) as usize]
    }

    pub fn read_bgp(&self, n: usize) -> (r: u8)
        requires
            self@.wf(),
            n < PALETTE_SIZE,
        ensures
            r == self@.bgp[n as int],
    {
        self.bgp[n]
    }

    pub fn read_sp(&self, n: usize) -> (r: u8)
        requires
            self@.wf(),
            n < PALETTE_SIZE,
        ensures
            r == self@.spp[n as int],
    {
        self.sp[n]
    }

    /// Flips the current-speed bit of the CGB speed register.
    pub fn switch_speed(&mut self)
        requires
            old(self)@.wf(),
        ensures
            final(self)@ == old(self)@.with_io(0xFF4D, old(self)@.io[0xFF4D] ^ 0x80),
            final(self)@.wf(),
    {
        let v = self.mem[0xFF4D] ^ 0x80;
        self.set_io(0xFF4D, v);
    }
}

} // verus!
