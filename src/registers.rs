use vstd::prelude::*;

verus! {

pub const ZERO_FLAG: u8 = 0x80;
pub const NEGATIVE_FLAG: u8 = 0x40;
pub const HALFCARRY_FLAG: u8 = 0x20;
pub const CARRY_FLAG: u8 = 0x10;

/// The value of the eight byte registers, as a reader of the register file sees it.
pub struct RegView {
    pub a: u8,
    pub f: u8,
    pub b: u8,
    pub c: u8,
    pub d: u8,
    pub e: u8,
    pub h: u8,
    pub l: u8,
    pub pc: u16,
    pub sp: u16,
}

/// High byte first: the pair `hi:lo` read as one 16-bit value.
pub open spec fn pair(hi: u8, lo: u8) -> u16 {
    ((hi as u16) * 256 + (lo as u16)) as u16
}

pub open spec fn hi_byte(v: u16) -> u8 {
    (v / 256) as u8
}

pub open spec fn lo_byte(v: u16) -> u8 {
    (v % 256) as u8
}

impl RegView {
    pub open spec fn af(self) -> u16 {
        pair(self.a, self.f)
    }

    pub open spec fn bc(self) -> u16 {
        pair(self.b, self.c)
    }

    pub open spec fn de(self) -> u16 {
        pair(self.d, self.e)
    }

    pub open spec fn hl(self) -> u16 {
        pair(self.h, self.l)
    }

    /// The flag register keeps only its upper nibble.
    pub open spec fn wf(self) -> bool {
        self.f & 0x0F == 0
    }

    pub open spec fn flag(self, mask: u8) -> bool {
        self.f & mask != 0
    }

    pub open spec fn with_f(self, f: u8) -> RegView {
        RegView { f: f & 0xF0, ..self }
    }

    pub open spec fn with_af(self, v: u16) -> RegView {
        RegView { a: hi_byte(v), f: lo_byte(v) & 0xF0, ..self }
    }

    pub open spec fn with_bc(self, v: u16) -> RegView {
        RegView { b: hi_byte(v), c: lo_byte(v), ..self }
    }

    pub open spec fn with_de(self, v: u16) -> RegView {
        RegView { d: hi_byte(v), e: lo_byte(v), ..self }
    }

    pub open spec fn with_hl(self, v: u16) -> RegView {
        RegView { h: hi_byte(v), l: lo_byte(v), ..self }
    }
}

/// The CPU's registers: eight bytes A F B C D E H L that pair up as AF, BC, DE and HL,
/// plus the stack pointer and the program counter.
#[derive(Debug)]
pub struct Registers {
    a: u8,
    f: u8,
    b: u8,
    c: u8,
    d: u8,
    e: u8,
    h: u8,
    l: u8,
    pc: u16,
    sp: u16,
}

impl View for Registers {
    type V = RegView;

    closed spec fn view(&self) -> RegView {
        RegView {
            a: self.a,
            f: self.f,
            b: self.b,
            c: self.c,
            d: self.d,
            e: self.e,
            h: self.h,
            l: self.l,
            pc: self.pc,
            sp: self.sp,
        }
    }
}

/// Whatever is written to F, the result keeps the low nibble clear.
pub broadcast proof fn lemma_with_f_wf(r: RegView, f: u8)
    ensures
        #[trigger] r.with_f(f).wf(),
{
    assert((f & 0xF0) & 0x0F == 0) by (bit_vector);
}

pub broadcast proof fn lemma_with_af_wf(r: RegView, v: u16)
    ensures
        #[trigger] r.with_af(v).wf(),
{
    let lo = lo_byte(v);
    assert((lo & 0xF0) & 0x0F == 0) by (bit_vector);
}

proof fn lemma_pair_split(v: u16)
    ensures
        pair(hi_byte(v), lo_byte(v)) == v,
{
}

fn join(hi: u8, lo: u8) -> (r: u16)
    ensures
        r == pair(hi, lo),
{
    (hi as u16) * 256 + (lo as u16)
}

fn split(v: u16) -> (r: (u8, u8))
    ensures
        r.0 == hi_byte(v),
        r.1 == lo_byte(v),
{
    ((v / 256) as u8, (v % 256) as u8)
}

impl Registers {
    pub fn new() -> (r: Registers)
        ensures
            r@ == (RegView { a: 0, f: 0, b: 0, c: 0, d: 0, e: 0, h: 0, l: 0, pc: 0, sp: 0 }),
            r@.wf(),
    {
        proof {
            assert(0u8 & 0x0F == 0) by (bit_vector);
        }
        Registers { a: 0, f: 0, b: 0, c: 0, d: 0, e: 0, h: 0, l: 0, pc: 0, sp: 0 }
    }

    pub fn a(&self) -> (r: u8)
        ensures
            r == self@.a,
    {
        self.a
    }

    pub fn f(&self) -> (r: u8)
        ensures
            r == self@.f,
    {
        self.f
    }

    pub fn b(&self) -> (r: u8)
        ensures
            r == self@.b,
    {
        self.b
    }

    pub fn c(&self) -> (r: u8)
        ensures
            r == self@.c,
    {
        self.c
    }

    pub fn d(&self) -> (r: u8)
        ensures
            r == self@.d,
    {
        self.d
    }

    pub fn e(&self) -> (r: u8)
        ensures
            r == self@.e,
    {
        self.e
    }

    pub fn h(&self) -> (r: u8)
        ensures
            r == self@.h,
    {
        self.h
    }

    pub fn l(&self) -> (r: u8)
        ensures
            r == self@.l,
    {
        self.l
    }

    pub fn set_a(&mut self, v: u8)
        ensures
            final(self)@ == (RegView { a: v, ..old(self)@ }),
    {
        self.a = v;
    }

    /// Only the upper nibble is kept: the low four bits of F always read as zero.
    pub fn set_f(&mut self, v: u8)
        ensures
            final(self)@ == old(self)@.with_f(v),
    {
        self.f = v & 0xF0;
    }

    pub fn set_b(&mut self, v: u8)
        ensures
            final(self)@ == (RegView { b: v, ..old(self)@ }),
    {
        self.b = v;
    }

    pub fn set_c(&mut self, v: u8)
        ensures
            final(self)@ == (RegView { c: v, ..old(self)@ }),
    {
        self.c = v;
    }

    pub fn set_d(&mut self, v: u8)
        ensures
            final(self)@ == (RegView { d: v, ..old(self)@ }),
    {
        self.d = v;
    }

    pub fn set_e(&mut self, v: u8)
        ensures
            final(self)@ == (RegView { e: v, ..old(self)@ }),
    {
        self.e = v;
    }

    pub fn set_h(&mut self, v: u8)
        ensures
            final(self)@ == (RegView { h: v, ..old(self)@ }),
    {
        self.h = v;
    }

    pub fn set_l(&mut self, v: u8)
        ensures
            final(self)@ == (RegView { l: v, ..old(self)@ }),
    {
        self.l = v;
    }

    pub fn pc(&self) -> (r: u16)
        ensures
            r == self@.pc,
    {
        self.pc
    }

    pub fn sp(&self) -> (r: u16)
        ensures
            r == self@.sp,
    {
        self.sp
    }

    pub fn set_pc(&mut self, v: u16)
        ensures
            final(self)@ == (RegView { pc: v, ..old(self)@ }),
    {
        self.pc = v;
    }

    pub fn set_sp(&mut self, v: u16)
        ensures
            final(self)@ == (RegView { sp: v, ..old(self)@ }),
    {
        self.sp = v;
    }

    pub fn af(&self) -> (r: u16)
        ensures
            r == self@.af(),
    {
        join(self.a, self.f)
    }

    pub fn bc(&self) -> (r: u16)
        ensures
            r == self@.bc(),
    {
        join(self.b, self.c)
    }

    pub fn de(&self) -> (r: u16)
        ensures
            r == self@.de(),
    {
        join(self.d, self.e)
    }

    pub fn hl(&self) -> (r: u16)
        ensures
            r == self@.hl(),
    {
        join(self.h, self.l)
    }

    pub fn af_immut(&self) -> (r: u16)
        ensures
            r == self@.af(),
    {
        self.af()
    }

    pub fn bc_immut(&self) -> (r: u16)
        ensures
            r == self@.bc(),
    {
        self.bc()
    }

    pub fn de_immut(&self) -> (r: u16)
        ensures
            r == self@.de(),
    {
        self.de()
    }

    pub fn hl_immut(&self) -> (r: u16)
        ensures
            r == self@.hl(),
    {
        self.hl()
    }

    /// Writes A and F at once; the low nibble of F is dropped.
    pub fn set_af(&mut self, v: u16)
        ensures
            final(self)@ == old(self)@.with_af(v),
    {
        let (hi, lo) = split(v);
        self.a = hi;
        self.f = lo & 0xF0;
    }

    pub fn set_bc(&mut self, v: u16)
        ensures
            final(self)@ == old(self)@.with_bc(v),
    {
        let (hi, lo) = split(v);
        self.b = hi;
        self.c = lo;
    }

    pub fn set_de(&mut self, v: u16)
        ensures
            final(self)@ == old(self)@.with_de(v),
    {
        let (hi, lo) = split(v);
        self.d = hi;
        self.e = lo;
    }

    pub fn set_hl(&mut self, v: u16)
        ensures
            final(self)@ == old(self)@.with_hl(v),
    {
        let (hi, lo) = split(v);
        self.h = hi;
        self.l = lo;
    }

    pub fn set_flags(&mut self, mask: u8)
        ensures
            final(self)@ == old(self)@.with_f(old(self)@.f | mask),
    {
        self.f = (self.f | mask) & 0xF0;
    }

    pub fn clear_flags(&mut self, mask: u8)
        ensures
            final(self)@ == old(self)@.with_f(old(self)@.f & !mask),
    {
        self.f = (self.f & !mask) & 0xF0;
    }

    pub fn update_flags(&mut self, mask: u8, val: bool)
        ensures
            final(self)@ == old(self)@.with_f(
                if val {
                    old(self)@.f | mask
                } else {
                    old(self)@.f & !mask
                },
            ),
    {
        if val {
            self.set_flags(mask)
        } else {
            self.clear_flags(mask)
        }
    }

    pub fn get_flag(&self, ident: u8) -> (r: bool)
        ensures
            r == self@.flag(ident),
    {
        (self.f & ident) > 0
    }
}

/// Through every write of a pair, the singles show its two bytes, and F keeps
/// only the upper nibble of the low byte.
pub proof fn lemma_pair_write_aliases(r: RegView, x: u16)
    ensures
        r.with_af(x).a == x >> 8,
        r.with_af(x).f == x & 0xF0,
        r.with_af(x).wf(),
        r.with_bc(x).b == x >> 8 && r.with_bc(x).c == x & 0xFF,
        r.with_de(x).d == x >> 8 && r.with_de(x).e == x & 0xFF,
        r.with_hl(x).h == x >> 8 && r.with_hl(x).l == x & 0xFF,
        r.with_bc(x).bc() == x,
        r.with_de(x).de() == x,
        r.with_hl(x).hl() == x,
        r.with_af(x).af() == x & 0xFFF0,
{
    lemma_pair_split(x);
    assert((x / 256) as u8 == x >> 8 && (x % 256) as u8 & 0xF0 == x & 0xF0 && (x % 256) as u8 == x & 0xFF)
        by (bit_vector);
    assert(((x / 256) as u8) as u16 * 256 + (((x % 256) as u8) & 0xF0) as u16 == x & 0xFFF0)
        by (bit_vector);
    assert(((x % 256) as u8) & 0xF0 & 0x0F == 0) by (bit_vector);
}

} // verus!
