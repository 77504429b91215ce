//! Arithmetic, logic, rotate and shift operations on bytes, each returning the result
//! and the new flag byte (Zero, Negative, Half-carry, Carry in bits 7 to 4).
use vstd::prelude::*;

verus! {

pub open spec fn bit_if(b: bool, m: u8) -> u8 {
    if b {
        m
    } else {
        0
    }
}

/// The flag byte with the four given flags and a clear low nibble.
pub open spec fn flag_byte(z: bool, n: bool, h: bool, c: bool) -> u8 {
    bit_if(z, 0x80) | bit_if(n, 0x40) | bit_if(h, 0x20) | bit_if(c, 0x10)
}

pub open spec fn carry_of(f: u8) -> bool {
    f & 0x10 != 0
}

pub open spec fn half_of(f: u8) -> bool {
    f & 0x20 != 0
}

pub open spec fn neg_of(f: u8) -> bool {
    f & 0x40 != 0
}

pub open spec fn zero_of(f: u8) -> bool {
    f & 0x80 != 0
}

/// Each flag of a flag byte reads back as it was given, and the low nibble is clear.
pub broadcast proof fn lemma_flag_byte(z: bool, n: bool, h: bool, c: bool)
    ensures
        zero_of(#[trigger] flag_byte(z, n, h, c)) == z,
        neg_of(flag_byte(z, n, h, c)) == n,
        half_of(flag_byte(z, n, h, c)) == h,
        carry_of(flag_byte(z, n, h, c)) == c,
        flag_byte(z, n, h, c) & 0x0F == 0,
        flag_byte(z, n, h, c) & 0xF0 == flag_byte(z, n, h, c),
{
    let zb = bit_if(z, 0x80);
    let nb = bit_if(n, 0x40);
    let hb = bit_if(h, 0x20);
    let cb = bit_if(c, 0x10);
    assert(zb == 0x80 || zb == 0);
    assert(nb == 0x40 || nb == 0);
    assert(hb == 0x20 || hb == 0);
    assert(cb == 0x10 || cb == 0);
    let f = zb | nb | hb | cb;
    assert((zb == 0x80 || zb == 0) && (nb == 0x40 || nb == 0) && (hb == 0x20 || hb == 0) && (cb
        == 0x10 || cb == 0) && f == zb | nb | hb | cb ==> (f & 0x80 != 0 <==> zb == 0x80) && (f
        & 0x40 != 0 <==> nb == 0x40) && (f & 0x20 != 0 <==> hb == 0x20) && (f & 0x10 != 0
        <==> cb == 0x10) && f & 0x0F == 0 && f & 0xF0 == f) by (bit_vector);
}

pub fn make_flags(z: bool, n: bool, h: bool, c: bool) -> (r: u8)
    ensures
        r == flag_byte(z, n, h, c),
{
    let zb: u8 = if z { 0x80 } else { 0 };
    let nb: u8 = if n { 0x40 } else { 0 };
    let hb: u8 = if h { 0x20 } else { 0 };
    let cb: u8 = if c { 0x10 } else { 0 };
    zb | nb | hb | cb
}

pub open spec fn carry_in(c: bool) -> int {
    if c {
        1
    } else {
        0
    }
}

/// ADD and ADC: Carry from the bit-8 overflow of the sum, Half-carry from the
/// overflow of the low nibble sum, both including the carry in.
pub open spec fn add_spec(a: u8, b: u8, c: bool) -> (u8, u8) {
    let sum = a as int + b as int + carry_in(c);
    let r = (sum % 256) as u8;
    (r, flag_byte(r == 0, false, (a % 16) as int + (b % 16) as int + carry_in(c) > 15, sum > 255))
}

/// SUB, SBC and CP: Carry when the minuend is below subtrahend plus borrow,
/// Half-carry on a borrow from the low nibble, Negative always set.
pub open spec fn sub_spec(a: u8, b: u8, c: bool) -> (u8, u8) {
    let diff = a as int - b as int - carry_in(c);
    let r = ((diff + 256) % 256) as u8;
    (
        r,
        flag_byte(r == 0, true, ((a % 16) as int) < (b % 16) as int + carry_in(c), diff < 0),
    )
}

pub open spec fn and_spec(a: u8, b: u8) -> (u8, u8) {
    (a & b, flag_byte(a & b == 0, false, true, false))
}

pub open spec fn or_spec(a: u8, b: u8) -> (u8, u8) {
    (a | b, flag_byte(a | b == 0, false, false, false))
}

pub open spec fn xor_spec(a: u8, b: u8) -> (u8, u8) {
    (a ^ b, flag_byte(a ^ b == 0, false, false, false))
}

/// INC: Carry is kept from the old flags `f`.
pub open spec fn inc_spec(v: u8, f: u8) -> (u8, u8) {
    let r = ((v as int + 1) % 256) as u8;
    (r, flag_byte(r == 0, false, v % 16 == 15, carry_of(f)))
}

/// DEC: Carry is kept from the old flags `f`.
pub open spec fn dec_spec(v: u8, f: u8) -> (u8, u8) {
    let r = ((v as int + 255) % 256) as u8;
    (r, flag_byte(r == 0, true, v % 16 == 0, carry_of(f)))
}

/// ADD HL,rr: Zero is kept; Half-carry from the low nibbles, Carry from bit 16.
pub open spec fn add16_spec(a: u16, b: u16, f: u8) -> (u16, u8) {
    let sum = a as int + b as int;
    (
        (sum % 65536) as u16,
        flag_byte(zero_of(f), false, (a % 16) as int + (b % 16) as int > 15, sum > 0xFFFF),
    )
}

/// The operand byte read as a signed offset.
pub open spec fn signed8(o: u8) -> int {
    if o < 128 {
        o as int
    } else {
        o as int - 256
    }
}

/// SP plus a signed byte (ADD SP,r8 and LD HL,SP+r8): Zero and Negative cleared,
/// Half-carry from the low nibbles, Carry when the 16-bit sum wraps.
pub open spec fn add_sp_spec(sp: u16, o: u8) -> (u16, u8) {
    let sum = sp as int + signed8(o);
    (
        ((sum + 65536) % 65536) as u16,
        flag_byte(false, false, (sp % 16) as int + (o % 16) as int > 15, sum < 0 || sum > 0xFFFF),
    )
}

pub open spec fn rlc_spec(v: u8) -> (u8, u8) {
    let r = ((v << 1u8) | (v >> 7u8)) as u8;
    (r, flag_byte(r == 0, false, false, v & 0x80 != 0))
}

pub open spec fn rrc_spec(v: u8) -> (u8, u8) {
    let r = ((v >> 1u8) | (v << 7u8)) as u8;
    (r, flag_byte(r == 0, false, false, v & 0x01 != 0))
}

pub open spec fn rl_spec(v: u8, c: bool) -> (u8, u8) {
    let r = ((v << 1u8) | bit_if(c, 1)) as u8;
    (r, flag_byte(r == 0, false, false, v & 0x80 != 0))
}

pub open spec fn rr_spec(v: u8, c: bool) -> (u8, u8) {
    let r = ((v >> 1u8) | bit_if(c, 0x80)) as u8;
    (r, flag_byte(r == 0, false, false, v & 0x01 != 0))
}

pub open spec fn sla_spec(v: u8) -> (u8, u8) {
    let r = (v << 1u8) as u8;
    (r, flag_byte(r == 0, false, false, v & 0x80 != 0))
}

pub open spec fn sra_spec(v: u8) -> (u8, u8) {
    let r = ((v >> 1u8) | (v & 0x80)) as u8;
    (r, flag_byte(r == 0, false, false, v & 0x01 != 0))
}

pub open spec fn srl_spec(v: u8) -> (u8, u8) {
    let r = (v >> 1u8) as u8;
    (r, flag_byte(r == 0, false, false, v & 0x01 != 0))
}

pub open spec fn swap_spec(v: u8) -> (u8, u8) {
    let r = ((v << 4u8) | (v >> 4u8)) as u8;
    (r, flag_byte(r == 0, false, false, false))
}

/// BIT n: Zero when the bit is clear, Negative cleared, Half-carry set, Carry kept.
pub open spec fn bit_spec(n: u8, v: u8, f: u8) -> u8 {
    flag_byte(v & (1u8 << n) == 0, false, true, carry_of(f))
}

/// The accumulator rotates RLCA, RRCA, RLA and RRA: as their CB forms, with Zero cleared.
pub open spec fn accumulator_form(r: (u8, u8)) -> (u8, u8) {
    (r.0, flag_byte(false, false, false, carry_of(r.1)))
}

pub open spec fn wrap_add8(a: u8, k: int) -> u8 {
    ((a as int + k) % 256) as u8
}

/// Decimal adjust after a BCD addition or subtraction.
pub open spec fn daa_spec(a: u8, f: u8) -> (u8, u8) {
    let (n, h, c) = (neg_of(f), half_of(f), carry_of(f));
    if n {
        let r = if h && !c {
            wrap_add8(a, 0xFA)
        } else if !h && c {
            wrap_add8(a, 0xA0)
        } else if h && c {
            wrap_add8(a, 0x9A)
        } else {
            a
        };
        (r, flag_byte(r == 0, true, false, c))
    } else {
        let r1 = if a % 16 > 9 || h {
            wrap_add8(a, 6)
        } else {
            a
        };
        let adjust = r1 / 16 > 9 || c;
        let r2 = if adjust {
            wrap_add8(r1, 0x60)
        } else {
            r1
        };
        (r2, flag_byte(r2 == 0, false, false, adjust))
    }
}

pub fn add8(a: u8, b: u8, c: bool) -> (r: (u8, u8))
    ensures
        r == add_spec(a, b, c),
{
    let cin: u16 = if c { 1 } else { 0 };
    let sum: u16 = a as u16 + b as u16 + cin;
    let r = (sum % 256) as u8;
    (r, make_flags(r == 0, false, (a % 16) as u16 + (b % 16) as u16 + cin > 15, sum > 255))
}

pub fn sub8(a: u8, b: u8, c: bool) -> (r: (u8, u8))
    ensures
        r == sub_spec(a, b, c),
{
    let cin: i16 = if c { 1 } else { 0 };
    let diff: i16 = a as i16 - b as i16 - cin;
    let r = ((diff + 256) % 256) as u8;
    (r, make_flags(r == 0, true, ((a % 16) as i16) < (b % 16) as i16 + cin, diff < 0))
}

pub fn and8(a: u8, b: u8) -> (r: (u8, u8))
    ensures
        r == and_spec(a, b),
{
    (a & b, make_flags(a & b == 0, false, true, false))
}

pub fn or8(a: u8, b: u8) -> (r: (u8, u8))
    ensures
        r == or_spec(a, b),
{
    (a | b, make_flags(a | b == 0, false, false, false))
}

pub fn xor8(a: u8, b: u8) -> (r: (u8, u8))
    ensures
        r == xor_spec(a, b),
{
    (a ^ b, make_flags(a ^ b == 0, false, false, false))
}

pub fn inc8(v: u8, f: u8) -> (r: (u8, u8))
    ensures
        r == inc_spec(v, f),
{
    let r = ((v as u16 + 1) % 256) as u8;
    (r, make_flags(r == 0, false, v % 16 == 15, f & 0x10 != 0))
}

pub fn dec8(v: u8, f: u8) -> (r: (u8, u8))
    ensures
        r == dec_spec(v, f),
{
    let r = ((v as u16 + 255) % 256) as u8;
    (r, make_flags(r == 0, true, v % 16 == 0, f & 0x10 != 0))
}

pub fn add16(a: u16, b: u16, f: u8) -> (r: (u16, u8))
    ensures
        r == add16_spec(a, b, f),
{
    let sum: u32 = a as u32 + b as u32;
    ((sum % 65536) as u16, make_flags(f & 0x80 != 0, false, a % 16 + b % 16 > 15, sum > 0xFFFF))
}

pub fn add_sp(sp: u16, o: u8) -> (r: (u16, u8))
    ensures
        r == add_sp_spec(sp, o),
{
    let off: i32 = if o < 128 { o as i32 } else { o as i32 - 256 };
    let sum: i32 = sp as i32 + off;
    (
        ((sum + 65536) % 65536) as u16,
        make_flags(false, false, (sp % 16) as u8 + o % 16 > 15, sum < 0 || sum > 0xFFFF),
    )
}

pub fn rlc(v: u8) -> (r: (u8, u8))
    ensures
        r == rlc_spec(v),
{
    let r = (v << 1u8) | (v >> 7u8);
    (r, make_flags(r == 0, false, false, v & 0x80 != 0))
}

pub fn rrc(v: u8) -> (r: (u8, u8))
    ensures
        r == rrc_spec(v),
{
    let r = (v >> 1u8) | (v << 7u8);
    (r, make_flags(r == 0, false, false, v & 0x01 != 0))
}

pub fn rl(v: u8, c: bool) -> (r: (u8, u8))
    ensures
        r == rl_spec(v, c),
{
    let cin: u8 = if c { 1 } else { 0 };
    let r = (v << 1u8) | cin;
    (r, make_flags(r == 0, false, false, v & 0x80 != 0))
}

pub fn rr(v: u8, c: bool) -> (r: (u8, u8))
    ensures
        r == rr_spec(v, c),
{
    let cin: u8 = if c { 0x80 } else { 0 };
    let r = (v >> 1u8) | cin;
    (r, make_flags(r == 0, false, false, v & 0x01 != 0))
}

pub fn sla(v: u8) -> (r: (u8, u8))
    ensures
        r == sla_spec(v),
{
    let r = v << 1u8;
    (r, make_flags(r == 0, false, false, v & 0x80 != 0))
}

pub fn sra(v: u8) -> (r: (u8, u8))
    ensures
        r == sra_spec(v),
{
    let r = (v >> 1u8) | (v & 0x80);
    (r, make_flags(r == 0, false, false, v & 0x01 != 0))
}

pub fn srl(v: u8) -> (r: (u8, u8))
    ensures
        r == srl_spec(v),
{
    let r = v >> 1u8;
    (r, make_flags(r == 0, false, false, v & 0x01 != 0))
}

pub fn swap(v: u8) -> (r: (u8, u8))
    ensures
        r == swap_spec(v),
{
    let r = (v << 4u8) | (v >> 4u8);
    (r, make_flags(r == 0, false, false, false))
}

pub fn bit(n: u8, v: u8, f: u8) -> (r: u8)
    requires
        n < 8,
    ensures
        r == bit_spec(n, v, f),
{
    make_flags(v & (1u8 << n) == 0, false, true, f & 0x10 != 0)
}

pub fn daa(a: u8, f: u8) -> (r: (u8, u8))
    ensures
        r == daa_spec(a, f),
{
    let n = f & 0x40 != 0;
    let h = f & 0x20 != 0;
    let c = f & 0x10 != 0;
    if n {
        let r = if h && !c {
            ((a as u16 + 0xFA) % 256) as u8
        } else if !h && c {
            ((a as u16 + 0xA0) % 256) as u8
        } else if h && c {
            ((a as u16 + 0x9A) % 256) as u8
        } else {
            a
        };
        (r, make_flags(r == 0, true, false, c))
    } else {
        let r1 = if a % 16 > 9 || h {
            ((a as u16 + 6) % 256) as u8
        } else {
            a
        };
        let adjust = r1 / 16 > 9 || c;
        let r2 = if adjust {
            ((r1 as u16 + 0x60) % 256) as u8
        } else {
            r1
        };
        (r2, make_flags(r2 == 0, false, false, adjust))
    }
}

/// XOR of the accumulator with itself: always zero, with only the Zero flag set.
pub proof fn lemma_xor_self(a: u8)
    ensures
        xor_spec(a, a).0 == 0,
        zero_of(xor_spec(a, a).1),
        !neg_of(xor_spec(a, a).1),
        !half_of(xor_spec(a, a).1),
        !carry_of(xor_spec(a, a).1),
        xor_spec(a, a).1 == 0x80,
{
    assert(a ^ a == 0) by (bit_vector);
    lemma_flag_byte(true, false, false, false);
    assert(0x80u8 | 0u8 | 0u8 | 0u8 == 0x80u8) by (bit_vector);
}

} // verus!
