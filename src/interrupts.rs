//! The interrupt controller: the master enable (IME), and dispatch of the lowest
//! pending source whose enable bit is set.
use vstd::prelude::*;
use crate::memory::{Memory, MemView, addr_add, wrap_add, ram_addr, plain_io, lemma_ram_write_read, lemma_io_write_keeps_ram};
use crate::registers::{Registers, RegView};

verus! {

pub const IF_ADDR: u16 = 0xFF0F;
pub const IE_ADDR: u16 = 0xFFFF;

/// The sources: VBlank, LCD-STAT, Timer, Serial, Joypad.
pub const VBLANK: u8 = 0;
pub const LCD_STAT: u8 = 1;
pub const TIMER: u8 = 2;
pub const SERIAL: u8 = 3;
pub const JOYPAD: u8 = 4;

pub open spec fn bit_set(v: u8, i: u8) -> bool {
    v & (1u8 << i) != 0
}

/// The source to serve: the lowest one both requested and enabled.
pub open spec fn to_service(m: MemView) -> Option<u8> {
    let p = m.read(IE_ADDR) & m.read(IF_ADDR);
    if bit_set(p, 0) {
        Some(0u8)
    } else if bit_set(p, 1) {
        Some(1u8)
    } else if bit_set(p, 2) {
        Some(2u8)
    } else if bit_set(p, 3) {
        Some(3u8)
    } else if bit_set(p, 4) {
        Some(4u8)
    } else {
        None
    }
}

pub open spec fn vector(i: u8) -> u16 {
    (0x40 + 8 * i) as u16
}

/// Serving source `i`: its request is cleared, PC is pushed and PC jumps to its vector.
pub open spec fn dispatch(m: MemView, r: RegView, i: u8) -> (MemView, RegView) {
    let m1 = m.write(IF_ADDR, m.read(IF_ADDR) & !(1u8 << i));
    let sp = addr_add(r.sp, -2);
    (m1.write_word(sp, r.pc), RegView { sp: sp, pc: vector(i), ..r })
}

pub open spec fn request_spec(m: MemView, id: u8) -> MemView {
    m.write(IF_ADDR, m.read(IF_ADDR) | (1u8 << id))
}

/// Clears the request of source `i`, pushes PC and jumps to the source's vector.
fn serve(mem: &mut Memory, regs: &mut Registers, i: u8)
    requires
        old(mem)@.wf(),
        i < 5,
    ensures
        final(mem)@.wf(),
        (final(mem)@, final(regs)@) == dispatch(old(mem)@, old(regs)@, i),
{
    let request = mem.rb(IF_ADDR);
    mem.wb(IF_ADDR, request & !(1u8 << i));
    let sp = wrap_add(regs.sp(), -2);
    mem.ww(sp, regs.pc());
    regs.set_sp(sp);
    regs.set_pc(0x40 + 8 * i as u16);
}

pub struct InterruptManager {
    pub ime: bool,
}

impl InterruptManager {
    pub fn new() -> (r: InterruptManager)
        ensures
            r.ime,
    {
        InterruptManager { ime: true }
    }

    /// Sets the request bit of source `id` in IF.
    pub fn request_interrupt(&self, mem: &mut Memory, id: u8)
        requires
            old(mem)@.wf(),
            id < 5,
        ensures
            final(mem)@ == request_spec(old(mem)@, id),
            final(mem)@.wf(),
    {
        let interrupt_request_register = mem.rb(IF_ADDR);
        mem.wb(IF_ADDR, interrupt_request_register | (1u8 << id));
    }

    /// Serves one interrupt if IME is set and one is pending; returns whether it did.
    #[verifier::rlimit(30)]
    pub fn step(&mut self, mem: &mut Memory, regs: &mut Registers) -> (r: bool)
        requires
            old(mem)@.wf(),
        ensures
            final(mem)@.wf(),
            r == (old(self).ime && to_service(old(mem)@) is Some),
            r ==> !final(self).ime && (final(mem)@, final(regs)@) == dispatch(
                old(mem)@,
                old(regs)@,
                to_service(old(mem)@)->Some_0,
            ),
            !r ==> *final(self) == *old(self) && final(mem)@ == old(mem)@ && final(regs)@
                == old(regs)@,
    {
        proof {
            assert(1u8 << 0u8 == 1 && 1u8 << 1u8 == 2 && 1u8 << 2u8 == 4 && 1u8 << 3u8 == 8 && 1u8
                << 4u8 == 16) by (bit_vector);
        }
        if !self.ime {
            return false;
        }
        let p = mem.rb(IE_ADDR) & mem.rb(IF_ADDR);
        let i: u8 = if p & 1 != 0 {
            0
        } else if p & 2 != 0 {
            1
        } else if p & 4 != 0 {
            2
        } else if p & 8 != 0 {
            3
        } else if p & 16 != 0 {
            4
        } else {
            return false;
        };
        self.ime = false;
        serve(mem, regs, i);
        true
    }
}

/// Two RAM bytes written as a word at `a` read back as that word; plain registers and
/// RAM outside the two bytes keep their values.
proof fn lemma_push_word(m: MemView, a: u16, v: u16, b: u16)
    requires
        m.wf(),
        ram_addr(a),
        ram_addr(addr_add(a, 1)),
        ram_addr(b) || plain_io(b),
        b != a && b != addr_add(a, 1),
    ensures
        m.write_word(a, v).read_word(a) == v,
        m.write_word(a, v).read(b) == m.read(b),
        m.write_word(a, v).wf(),
{
    let lo = (v % 256) as u8;
    let hi = (v / 256) as u8;
    let a1 = addr_add(a, 1);
    lemma_ram_write_read(m, a, a1, lo);
    lemma_ram_write_read(m, a, b, lo);
    let m1 = m.write(a, lo);
    lemma_ram_write_read(m1, a1, a, hi);
    lemma_ram_write_read(m1, a1, b, hi);
}

/// The stack pointer leaves room for two pushes inside work RAM or high RAM.
pub open spec fn stack_in_ram(sp: u16) -> bool {
    (0xC004 <= sp <= 0xE000) || (0xFF84 <= sp <= 0xFFFF)
}

/// With VBlank and Timer the two sources both requested and enabled, VBlank is served
/// first, through its vector 0x40, then Timer, through its vector 0x50; each pushes the
/// PC it interrupted.
pub proof fn lemma_interrupt_priority(m: MemView, r: RegView)
    requires
        m.wf(),
        m.read(IE_ADDR) & m.read(IF_ADDR) & 0x1F == 0x05,
        stack_in_ram(r.sp),
    ensures
        to_service(m) == Some(VBLANK),
        ({
            let (m1, r1) = dispatch(m, r, VBLANK);
            let (m2, r2) = dispatch(m1, r1, TIMER);
            &&& r1.pc == 0x40
            &&& r1.sp == r.sp - 2
            &&& m1.read_word(r1.sp) == r.pc
            &&& to_service(m1) == Some(TIMER)
            &&& r2.pc == 0x50
            &&& r2.sp == r.sp - 4
            &&& m2.read_word(r2.sp) == r1.pc
        }),
{
    let ie = m.read(IE_ADDR);
    let fl = m.read(IF_ADDR);
    assert(ie & fl & 0x1F == 0x05 ==> (ie & fl) & (1u8 << 0u8) != 0 && (ie & (fl & !(1u8 << 0u8)))
        & (1u8 << 0u8) == 0 && (ie & (fl & !(1u8 << 0u8))) & (1u8 << 1u8) == 0 && (ie & (fl & !(1u8
        << 0u8))) & (1u8 << 2u8) != 0) by (bit_vector);
    let fl1 = fl & !(1u8 << 0u8);
    let ma = m.write(IF_ADDR, fl1);
    lemma_io_write_keeps_ram(m, IF_ADDR, IE_ADDR, fl1);
    let sp1 = addr_add(r.sp, -2);
    lemma_push_word(ma, sp1, r.pc, IF_ADDR);
    lemma_push_word(ma, sp1, r.pc, IE_ADDR);
    let (m1, r1) = dispatch(m, r, VBLANK);
    assert(m1 == ma.write_word(sp1, r.pc));
    assert(m1.read(IF_ADDR) == fl1);
    assert(m1.read(IE_ADDR) == ie);
    assert(to_service(m1) == Some(TIMER));
    let fl2 = fl1 & !(1u8 << 2u8);
    let mb = m1.write(IF_ADDR, fl2);
    let sp2 = addr_add(r1.sp, -2);
    lemma_io_write_keeps_ram(m1, IF_ADDR, sp2, fl2);
    lemma_push_word(mb, sp2, r1.pc, IF_ADDR);
}

} // verus!
