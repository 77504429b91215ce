//! The base instruction set: a descriptor for each opcode, and the code that carries
//! out each instruction, proved to do what `crate::cpu` says.
use vstd::prelude::*;
use crate::alu::{add8, sub8, and8, or8, xor8, inc8, dec8, add16, add_sp, rlc, rrc, rl, rr, daa as daa_adjust, make_flags};
use crate::cpu::{inc_r_spec, dec_r_spec, rotate_a_spec, misc_a_spec, jr_cc_spec, stop_spec, low8, add_hl_spec, ret_spec, call_spec, ld_indirect_spec, inc_dec_rr_spec, block0_spec, block0_low_spec, block0_high_spec, block1_spec, block2_spec, block3_spec, exec_spec, alu_op, undefined_opcode, jr_spec};
use crate::emulator::Emulator;
use crate::cb_instructions::cb;
use crate::memory::wrap_add;
use crate::registers::{ZERO_FLAG, NEGATIVE_FLAG, HALFCARRY_FLAG, CARRY_FLAG};

verus! {

broadcast use crate::registers::lemma_with_f_wf, crate::registers::lemma_with_af_wf, crate::memory::lemma_write_wf;

/// Register operand by its 3-bit code: B C D E H L (HL) A.
pub fn get_r8(emu: &Emulator, idx: u8) -> (r: u8)
    requires
        emu.wf(),
    ensures
        r == emu.cpu().r8(idx),
{
    if idx == 0 {
        emu.regs.b()
    } else if idx == 1 {
        emu.regs.c()
    } else if idx == 2 {
        emu.regs.d()
    } else if idx == 3 {
        emu.regs.e()
    } else if idx == 4 {
        emu.regs.h()
    } else if idx == 5 {
        emu.regs.l()
    } else if idx == 6 {
        emu.mem.rb(emu.regs.hl())
    } else {
        emu.regs.a()
    }
}

pub fn set_r8(emu: &mut Emulator, idx: u8, v: u8)
    requires
        old(emu).wf(),
    ensures
        final(emu).wf(),
        final(emu).cpu() == old(emu).cpu().set_r8(idx, v),
        final(emu).frame(old(emu)),
{
    if idx == 0 {
        emu.regs.set_b(v);
    } else if idx == 1 {
        emu.regs.set_c(v);
    } else if idx == 2 {
        emu.regs.set_d(v);
    } else if idx == 3 {
        emu.regs.set_e(v);
    } else if idx == 4 {
        emu.regs.set_h(v);
    } else if idx == 5 {
        emu.regs.set_l(v);
    } else if idx == 6 {
        let hl = emu.regs.hl();
        emu.mem.wb(hl, v);
    } else {
        emu.regs.set_a(v);
    }
}

/// Register pair by its 2-bit code: BC DE HL SP.
fn get_rr(emu: &Emulator, idx: u8) -> (r: u16)
    ensures
        r == emu.cpu().rr(idx),
{
    if idx == 0 {
        emu.regs.bc()
    } else if idx == 1 {
        emu.regs.de()
    } else if idx == 2 {
        emu.regs.hl()
    } else {
        emu.regs.sp()
    }
}

fn set_rr(emu: &mut Emulator, idx: u8, v: u16)
    requires
        old(emu).wf(),
    ensures
        final(emu).wf(),
        final(emu).cpu() == old(emu).cpu().set_rr(idx, v),
        final(emu).frame(old(emu)),
{
    if idx == 0 {
        emu.regs.set_bc(v);
    } else if idx == 1 {
        emu.regs.set_de(v);
    } else if idx == 2 {
        emu.regs.set_hl(v);
    } else {
        emu.regs.set_sp(v);
    }
}

fn set_af(emu: &mut Emulator, a: u8, f: u8)
    requires
        old(emu).wf(),
    ensures
        final(emu).wf(),
        final(emu).cpu() == old(emu).cpu().with_af(a, f),
        final(emu).frame(old(emu)),
{
    emu.regs.set_a(a);
    emu.regs.set_f(f);
}

fn set_flags_byte(emu: &mut Emulator, f: u8)
    requires
        old(emu).wf(),
    ensures
        final(emu).wf(),
        final(emu).cpu() == old(emu).cpu().with_f(f),
        final(emu).frame(old(emu)),
{
    emu.regs.set_f(f);
}

/// Branch condition by its 2-bit code: NZ Z NC C.
fn cond(emu: &Emulator, cc: u8) -> (r: bool)
    ensures
        r == emu.cpu().cond(cc),
{
    if cc == 0 {
        !emu.regs.get_flag(ZERO_FLAG)
    } else if cc == 1 {
        emu.regs.get_flag(ZERO_FLAG)
    } else if cc == 2 {
        !emu.regs.get_flag(CARRY_FLAG)
    } else {
        emu.regs.get_flag(CARRY_FLAG)
    }
}

fn push(emu: &mut Emulator, v: u16)
    requires
        old(emu).wf(),
    ensures
        final(emu).wf(),
        final(emu).cpu() == old(emu).cpu().push(v),
        final(emu).frame(old(emu)),
{
    let sp = wrap_add(emu.regs.sp(), -2);
    emu.mem.ww(sp, v);
    emu.regs.set_sp(sp);
}

fn pop(emu: &mut Emulator) -> (r: u16)
    requires
        old(emu).wf(),
    ensures
        final(emu).wf(),
        r == old(emu).cpu().popped(),
        final(emu).cpu() == old(emu).cpu().after_pop(),
        final(emu).frame(old(emu)),
{
    let sp = emu.regs.sp();
    let v = emu.mem.rw(sp);
    emu.regs.set_sp(wrap_add(sp, 2));
    v
}

/// The accumulator operation of code `kind` (ADD ADC SUB SBC AND XOR OR CP) with operand `v`.
pub fn alu(emu: &mut Emulator, kind: u8, v: u8)
    requires
        old(emu).wf(),
    ensures
        final(emu).wf(),
        final(emu).cpu() == alu_op(old(emu).cpu(), kind, v),
        final(emu).frame(old(emu)),
{
    let a = emu.regs.a();
    let carry = emu.regs.get_flag(CARRY_FLAG);
    let (r, f) = if kind == 0 {
        add8(a, v, false)
    } else if kind == 1 {
        add8(a, v, carry)
    } else if kind == 2 {
        sub8(a, v, false)
    } else if kind == 3 {
        sub8(a, v, carry)
    } else if kind == 4 {
        and8(a, v)
    } else if kind == 5 {
        xor8(a, v)
    } else if kind == 6 {
        or8(a, v)
    } else {
        (a, sub8(a, v, false).1)
    };
    set_af(emu, r, f);
}

//0x08
fn ld_a16p_sp(emu: &mut Emulator, operand: u16) -> (r: u64)
    requires
        old(emu).wf(),
    ensures
        final(emu).wf(),
        final(emu).frame(old(emu)),
        final(emu).cpu() == old(emu).cpu().with_mem(old(emu).mem@.write_word(operand, old(emu).regs@.sp)),
        r == 20,
{
    let sp = emu.regs.sp();
    emu.mem.ww(operand, sp);
    20
}

//0x10
fn stop(emu: &mut Emulator) -> (r: u64)
    requires
        old(emu).wf(),
    ensures
        final(emu).wf(),
        final(emu).frame(old(emu)),
        final(emu).cpu() == stop_spec(old(emu).cpu()),
        r == 4,
{
    let speed_reg = emu.mem.rb(0xFF4D);
    if emu.cgb_mode && speed_reg % 2 == 1 {
        emu.mem.wb(0xFF4D, speed_reg & 0x7E);
        emu.mem.switch_speed();
    } else {
        emu.stopped = true;
    }
    4
}

//0x18
fn jr(emu: &mut Emulator, operand: u16) -> (r: u64)
    requires
        old(emu).wf(),
    ensures
        final(emu).wf(),
        final(emu).cpu() == jr_spec(old(emu).cpu(), operand),
        final(emu).frame(old(emu)),
        r == 12,
{
    let o = (operand % 256) as u8;
    let pc = emu.regs.pc();
    let off: i32 = if o < 128 {
        o as i32
    } else {
        o as i32 - 256
    };
    let target = wrap_add(pc, off);
    emu.regs.set_pc(target);
    12
}

//0x20, 0x28, 0x30, 0x38
fn jr_cc(emu: &mut Emulator, op: u8, operand: u16) -> (r: u64)
    requires
        old(emu).wf(),
        op == 0x20 || op == 0x28 || op == 0x30 || op == 0x38,
    ensures
        final(emu).follows(old(emu), jr_cc_spec(old(emu).cpu(), (op - 0x20) as u8 / 8, operand), r),
{
    if cond(emu, (op - 0x20) / 8) {
        jr(emu, operand)
    } else {
        8
    }
}

//0x01, 0x11, 0x21, 0x31
fn ld_rr_d16(emu: &mut Emulator, op: u8, operand: u16) -> (r: u64)
    requires
        old(emu).wf(),
    ensures
        final(emu).wf(),
        final(emu).frame(old(emu)),
        final(emu).cpu() == old(emu).cpu().set_rr(op / 16, operand),
        r == 12,
{
    set_rr(emu, op / 16, operand);
    12
}

//0x09, 0x19, 0x29, 0x39
fn add_hl_rr(emu: &mut Emulator, op: u8) -> (r: u64)
    requires
        old(emu).wf(),
    ensures
        final(emu).wf(),
        final(emu).frame(old(emu)),
        final(emu).cpu() == add_hl_spec(old(emu).cpu(), op / 16),
        r == 8,
{
    let v = get_rr(emu, op / 16);
    let (sum, f) = add16(emu.regs.hl(), v, emu.regs.f());
    emu.regs.set_hl(sum);
    emu.regs.set_f(f);
    8
}

//0x02, 0x0A, 0x12, 0x1A, 0x22, 0x2A, 0x32, 0x3A
fn ld_indirect(emu: &mut Emulator, op: u8) -> (r: u64)
    requires
        old(emu).wf(),
        op < 0x40,
    ensures
        final(emu).wf(),
        final(emu).frame(old(emu)),
        final(emu).cpu() == ld_indirect_spec(old(emu).cpu(), (op / 8) % 8),
        r == 8,
{
    let p = op / 16;
    let addr = if p == 0 {
        emu.regs.bc()
    } else if p == 1 {
        emu.regs.de()
    } else {
        emu.regs.hl()
    };
    if (op / 8) % 2 == 0 {
        let a = emu.regs.a();
        emu.mem.wb(addr, a);
    } else {
        let v = emu.mem.rb(addr);
        emu.regs.set_a(v);
    }
    if p == 2 {
        emu.regs.set_hl(wrap_add(addr, 1));
    } else if p == 3 {
        emu.regs.set_hl(wrap_add(addr, -1));
    }
    8
}

//0x03, 0x0B, 0x13, 0x1B, 0x23, 0x2B, 0x33, 0x3B
fn inc_dec_rr(emu: &mut Emulator, op: u8) -> (r: u64)
    requires
        old(emu).wf(),
        op < 0x40,
    ensures
        final(emu).wf(),
        final(emu).frame(old(emu)),
        final(emu).cpu() == inc_dec_rr_spec(old(emu).cpu(), (op / 8) % 8),
        r == 8,
{
    let p = op / 16;
    let v = get_rr(emu, p);
    let nv = if (op / 8) % 2 == 0 {
        wrap_add(v, 1)
    } else {
        wrap_add(v, -1)
    };
    set_rr(emu, p, nv);
    8
}

//0x04, 0x0C, ... 0x3C
fn inc_r(emu: &mut Emulator, op: u8) -> (r: u64)
    requires
        old(emu).wf(),
        op < 0x40,
    ensures
        final(emu).wf(),
        final(emu).frame(old(emu)),
        final(emu).cpu() == inc_r_spec(old(emu).cpu(), op / 8),
        r == (if op / 8 == 6 { 12u64 } else { 4u64 }),
{
    let y = op / 8;
    let v = get_r8(emu, y);
    let (nv, f) = inc8(v, emu.regs.f());
    set_r8(emu, y, nv);
    set_flags_byte(emu, f);
    if y == 6 {
        12
    } else {
        4
    }
}

//0x05, 0x0D, ... 0x3D
fn dec_r(emu: &mut Emulator, op: u8) -> (r: u64)
    requires
        old(emu).wf(),
        op < 0x40,
    ensures
        final(emu).wf(),
        final(emu).frame(old(emu)),
        final(emu).cpu() == dec_r_spec(old(emu).cpu(), op / 8),
        r == (if op / 8 == 6 { 12u64 } else { 4u64 }),
{
    let y = op / 8;
    let v = get_r8(emu, y);
    let (nv, f) = dec8(v, emu.regs.f());
    set_r8(emu, y, nv);
    set_flags_byte(emu, f);
    if y == 6 {
        12
    } else {
        4
    }
}

//0x06, 0x0E, ... 0x3E
fn ld_r_d8(emu: &mut Emulator, op: u8, operand: u16) -> (r: u64)
    requires
        old(emu).wf(),
        op < 0x40,
    ensures
        final(emu).wf(),
        final(emu).frame(old(emu)),
        final(emu).cpu() == old(emu).cpu().set_r8(op / 8, low8(operand)),
        r == (if op / 8 == 6 { 12u64 } else { 8u64 }),
{
    let y = op / 8;
    set_r8(emu, y, (operand % 256) as u8);
    if y == 6 {
        12
    } else {
        8
    }
}

//0x07
fn rlca(emu: &mut Emulator) -> (r: u64)
    requires
        old(emu).wf(),
    ensures
        final(emu).wf(),
        final(emu).frame(old(emu)),
        final(emu).cpu() == rotate_a_spec(old(emu).cpu(), 0),
        r == 4,
{
    let (v, f) = rlc(emu.regs.a());
    set_af(emu, v, make_flags(false, false, false, f & CARRY_FLAG != 0));
    4
}

//0x0F
fn rrca(emu: &mut Emulator) -> (r: u64)
    requires
        old(emu).wf(),
    ensures
        final(emu).wf(),
        final(emu).frame(old(emu)),
        final(emu).cpu() == rotate_a_spec(old(emu).cpu(), 1),
        r == 4,
{
    let (v, f) = rrc(emu.regs.a());
    set_af(emu, v, make_flags(false, false, false, f & CARRY_FLAG != 0));
    4
}

//0x17
fn rla(emu: &mut Emulator) -> (r: u64)
    requires
        old(emu).wf(),
    ensures
        final(emu).wf(),
        final(emu).frame(old(emu)),
        final(emu).cpu() == rotate_a_spec(old(emu).cpu(), 2),
        r == 4,
{
    let (v, f) = rl(emu.regs.a(), emu.regs.get_flag(CARRY_FLAG));
    set_af(emu, v, make_flags(false, false, false, f & CARRY_FLAG != 0));
    4
}

//0x1F
fn rra(emu: &mut Emulator) -> (r: u64)
    requires
        old(emu).wf(),
    ensures
        final(emu).wf(),
        final(emu).frame(old(emu)),
        final(emu).cpu() == rotate_a_spec(old(emu).cpu(), 3),
        r == 4,
{
    let (v, f) = rr(emu.regs.a(), emu.regs.get_flag(CARRY_FLAG));
    set_af(emu, v, make_flags(false, false, false, f & CARRY_FLAG != 0));
    4
}

//0x27
fn daa(emu: &mut Emulator) -> (r: u64)
    requires
        old(emu).wf(),
    ensures
        final(emu).wf(),
        final(emu).frame(old(emu)),
        final(emu).cpu() == misc_a_spec(old(emu).cpu(), 4),
        r == 4,
{
    let (v, f) = daa_adjust(emu.regs.a(), emu.regs.f());
    set_af(emu, v, f);
    4
}

//0x2F
fn cpl(emu: &mut Emulator) -> (r: u64)
    requires
        old(emu).wf(),
    ensures
        final(emu).wf(),
        final(emu).frame(old(emu)),
        final(emu).cpu() == misc_a_spec(old(emu).cpu(), 5),
        r == 4,
{
    let a = emu.regs.a();
    let f = emu.regs.f();
    set_af(emu, !a, f | NEGATIVE_FLAG | HALFCARRY_FLAG);
    4
}

//0x37
fn scf(emu: &mut Emulator) -> (r: u64)
    requires
        old(emu).wf(),
    ensures
        final(emu).wf(),
        final(emu).frame(old(emu)),
        final(emu).cpu() == misc_a_spec(old(emu).cpu(), 6),
        r == 4,
{
    let f = emu.regs.f();
    set_flags_byte(emu, f | CARRY_FLAG);
    4
}

//0x3F
fn ccf(emu: &mut Emulator) -> (r: u64)
    requires
        old(emu).wf(),
    ensures
        final(emu).wf(),
        final(emu).frame(old(emu)),
        final(emu).cpu() == misc_a_spec(old(emu).cpu(), 7),
        r == 4,
{
    let f = emu.regs.f();
    set_flags_byte(emu, f ^ CARRY_FLAG);
    4
}

/// Opcodes 0x00-0x3F whose low three bits are 0 to 3.
fn execute_block0_low(emu: &mut Emulator, op: u8, operand: u16) -> (r: u64)
    requires
        old(emu).wf(),
        op < 0x40,
        op % 8 < 4,
    ensures
        final(emu).follows(old(emu), block0_low_spec(old(emu).cpu(), op, operand), r),
{
    let z = op % 8;
    proof {
        assert((op / 8) % 8 == op / 8);
        assert(((op / 8) % 8) % 2 == (op / 8) % 2);
    }
    if op == 0x00 {
        4
    } else if op == 0x08 {
        ld_a16p_sp(emu, operand)
    } else if op == 0x10 {
        stop(emu)
    } else if op == 0x18 {
        jr(emu, operand)
    } else if z == 0 {
        jr_cc(emu, op, operand)
    } else if z == 1 && (op / 8) % 2 == 0 {
        ld_rr_d16(emu, op, operand)
    } else if z == 1 {
        add_hl_rr(emu, op)
    } else if z == 2 {
        ld_indirect(emu, op)
    } else {
        inc_dec_rr(emu, op)
    }
}

/// Opcodes 0x00-0x3F whose low three bits are 4 to 7.
fn execute_block0_high(emu: &mut Emulator, op: u8, operand: u16) -> (r: u64)
    requires
        old(emu).wf(),
        op < 0x40,
        op % 8 >= 4,
    ensures
        final(emu).follows(old(emu), block0_high_spec(old(emu).cpu(), op, operand), r),
{
    let z = op % 8;
    proof {
        assert((op / 8) % 8 == op / 8);
    }
    if z == 4 {
        inc_r(emu, op)
    } else if z == 5 {
        dec_r(emu, op)
    } else if z == 6 {
        ld_r_d8(emu, op, operand)
    } else if op == 0x07 {
        rlca(emu)
    } else if op == 0x0F {
        rrca(emu)
    } else if op == 0x17 {
        rla(emu)
    } else if op == 0x1F {
        rra(emu)
    } else if op == 0x27 {
        daa(emu)
    } else if op == 0x2F {
        cpl(emu)
    } else if op == 0x37 {
        scf(emu)
    } else {
        ccf(emu)
    }
}

/// Opcodes 0x00-0x3F.
fn execute_block0(emu: &mut Emulator, op: u8, operand: u16) -> (r: u64)
    requires
        old(emu).wf(),
        op < 0x40,
    ensures
        final(emu).follows(old(emu), block0_spec(old(emu).cpu(), op, operand), r),
{
    if op % 8 < 4 {
        execute_block0_low(emu, op, operand)
    } else {
        execute_block0_high(emu, op, operand)
    }
}

//0x76
fn halt(emu: &mut Emulator) -> (r: u64)
    requires
        old(emu).wf(),
    ensures
        final(emu).follows(old(emu), block1_spec(old(emu).cpu(), 0x76), r),
{
    emu.halted = true;
    4
}

/// Opcodes 0x40-0x7F.
fn execute_block1(emu: &mut Emulator, op: u8) -> (r: u64)
    requires
        old(emu).wf(),
        0x40 <= op < 0x80,
    ensures
        final(emu).follows(old(emu), block1_spec(old(emu).cpu(), op), r),
{
    if op == 0x76 {
        return halt(emu);
    }
    let dst = (op / 8) % 8;
    let src = op % 8;
    let v = get_r8(emu, src);
    set_r8(emu, dst, v);
    if dst == 6 || src == 6 {
        8
    } else {
        4
    }
}

/// Opcodes 0x80-0xBF.
fn execute_block2(emu: &mut Emulator, op: u8) -> (r: u64)
    requires
        old(emu).wf(),
        0x80 <= op < 0xC0,
    ensures
        final(emu).follows(old(emu), block2_spec(old(emu).cpu(), op), r),
{
    let src = op % 8;
    let v = get_r8(emu, src);
    alu(emu, (op / 8) % 8, v);
    if src == 6 {
        8
    } else {
        4
    }
}

//0xC9
fn ret(emu: &mut Emulator) -> (r: u64)
    requires
        old(emu).wf(),
    ensures
        final(emu).wf(),
        final(emu).frame(old(emu)),
        final(emu).cpu() == ret_spec(old(emu).cpu()),
        r == 16,
{
    let pc = pop(emu);
    emu.regs.set_pc(pc);
    16
}

//0xC0, 0xC8, 0xD0, 0xD8
fn ret_cc(emu: &mut Emulator, op: u8) -> (r: u64)
    requires
        old(emu).wf(),
        op == 0xC0 || op == 0xC8 || op == 0xD0 || op == 0xD8,
    ensures
        forall|operand: u16| final(emu).follows(old(emu), block3_spec(old(emu).cpu(), op, operand), r),
{
    if cond(emu, (op - 0xC0) / 8) {
        ret(emu) + 4
    } else {
        8
    }
}

//0xD9
fn reti(emu: &mut Emulator) -> (r: u64)
    requires
        old(emu).wf(),
    ensures
        forall|operand: u16| final(emu).follows(old(emu), block3_spec(old(emu).cpu(), 0xD9, operand), r),
{
    let r = ret(emu);
    emu.enable_interrupts();
    r
}

//0xE0
fn ldh_a8_a(emu: &mut Emulator, operand: u16) -> (r: u64)
    requires
        old(emu).wf(),
    ensures
        final(emu).follows(old(emu), block3_spec(old(emu).cpu(), 0xE0, operand), r),
{
    let a = emu.regs.a();
    emu.mem.wb(0xFF00 + operand % 256, a);
    12
}

//0xF0
fn ldh_a_a8(emu: &mut Emulator, operand: u16) -> (r: u64)
    requires
        old(emu).wf(),
    ensures
        final(emu).follows(old(emu), block3_spec(old(emu).cpu(), 0xF0, operand), r),
{
    let v = emu.mem.rb(0xFF00 + operand % 256);
    emu.regs.set_a(v);
    12
}

//0xE8
fn add_sp_r8(emu: &mut Emulator, operand: u16) -> (r: u64)
    requires
        old(emu).wf(),
    ensures
        final(emu).follows(old(emu), block3_spec(old(emu).cpu(), 0xE8, operand), r),
{
    let (sp, f) = add_sp(emu.regs.sp(), (operand % 256) as u8);
    emu.regs.set_sp(sp);
    emu.regs.set_f(f);
    16
}

//0xF8
fn ld_hl_spr8(emu: &mut Emulator, operand: u16) -> (r: u64)
    requires
        old(emu).wf(),
    ensures
        final(emu).follows(old(emu), block3_spec(old(emu).cpu(), 0xF8, operand), r),
{
    let (v, f) = add_sp(emu.regs.sp(), (operand % 256) as u8);
    emu.regs.set_hl(v);
    emu.regs.set_f(f);
    12
}

//0xC1, 0xD1, 0xE1, 0xF1
fn pop_rr(emu: &mut Emulator, op: u8) -> (r: u64)
    requires
        old(emu).wf(),
        op == 0xC1 || op == 0xD1 || op == 0xE1 || op == 0xF1,
    ensures
        forall|operand: u16| final(emu).follows(old(emu), block3_spec(old(emu).cpu(), op, operand), r),
{
    let v = pop(emu);
    let p = (op - 0xC1) / 16;
    if p == 3 {
        emu.regs.set_af(v);
    } else {
        set_rr(emu, p, v);
    }
    12
}

//0xC5, 0xD5, 0xE5, 0xF5
fn push_rr(emu: &mut Emulator, op: u8) -> (r: u64)
    requires
        old(emu).wf(),
        op == 0xC5 || op == 0xD5 || op == 0xE5 || op == 0xF5,
    ensures
        forall|operand: u16| final(emu).follows(old(emu), block3_spec(old(emu).cpu(), op, operand), r),
{
    let p = (op - 0xC5) / 16;
    let v = if p == 3 {
        emu.regs.af()
    } else {
        get_rr(emu, p)
    };
    push(emu, v);
    16
}

//0xE9
fn jp_hl(emu: &mut Emulator) -> (r: u64)
    requires
        old(emu).wf(),
    ensures
        forall|operand: u16| final(emu).follows(old(emu), block3_spec(old(emu).cpu(), 0xE9, operand), r),
{
    let hl = emu.regs.hl();
    emu.regs.set_pc(hl);
    4
}

//0xF9
fn ld_sp_hl(emu: &mut Emulator) -> (r: u64)
    requires
        old(emu).wf(),
    ensures
        forall|operand: u16| final(emu).follows(old(emu), block3_spec(old(emu).cpu(), 0xF9, operand), r),
{
    let hl = emu.regs.hl();
    emu.regs.set_sp(hl);
    8
}

//0xC3
fn jp(emu: &mut Emulator, operand: u16) -> (r: u64)
    requires
        old(emu).wf(),
    ensures
        final(emu).follows(old(emu), block3_spec(old(emu).cpu(), 0xC3, operand), r),
{
    emu.regs.set_pc(operand);
    16
}

//0xC2, 0xCA, 0xD2, 0xDA
fn jp_cc(emu: &mut Emulator, op: u8, operand: u16) -> (r: u64)
    requires
        old(emu).wf(),
        op == 0xC2 || op == 0xCA || op == 0xD2 || op == 0xDA,
    ensures
        final(emu).follows(old(emu), block3_spec(old(emu).cpu(), op, operand), r),
{
    if cond(emu, (op - 0xC2) / 8) {
        emu.regs.set_pc(operand);
        16
    } else {
        12
    }
}

//0xE2
fn ld_cp_a(emu: &mut Emulator) -> (r: u64)
    requires
        old(emu).wf(),
    ensures
        forall|operand: u16| final(emu).follows(old(emu), block3_spec(old(emu).cpu(), 0xE2, operand), r),
{
    let a = emu.regs.a();
    emu.mem.wb(0xFF00 + emu.regs.c() as u16, a);
    8
}

//0xF2
fn ld_a_cp(emu: &mut Emulator) -> (r: u64)
    requires
        old(emu).wf(),
    ensures
        forall|operand: u16| final(emu).follows(old(emu), block3_spec(old(emu).cpu(), 0xF2, operand), r),
{
    let v = emu.mem.rb(0xFF00 + emu.regs.c() as u16);
    emu.regs.set_a(v);
    8
}

//0xEA
fn ld_a16_a(emu: &mut Emulator, operand: u16) -> (r: u64)
    requires
        old(emu).wf(),
    ensures
        final(emu).follows(old(emu), block3_spec(old(emu).cpu(), 0xEA, operand), r),
{
    let a = emu.regs.a();
    emu.mem.wb(operand, a);
    16
}

//0xFA
fn ld_a_a16(emu: &mut Emulator, operand: u16) -> (r: u64)
    requires
        old(emu).wf(),
    ensures
        final(emu).follows(old(emu), block3_spec(old(emu).cpu(), 0xFA, operand), r),
{
    let v = emu.mem.rb(operand);
    emu.regs.set_a(v);
    16
}

//0xF3
fn di(emu: &mut Emulator) -> (r: u64)
    requires
        old(emu).wf(),
    ensures
        forall|operand: u16| final(emu).follows(old(emu), block3_spec(old(emu).cpu(), 0xF3, operand), r),
{
    emu.disable_interrupts();
    4
}

//0xFB
fn ei(emu: &mut Emulator) -> (r: u64)
    requires
        old(emu).wf(),
    ensures
        forall|operand: u16| final(emu).follows(old(emu), block3_spec(old(emu).cpu(), 0xFB, operand), r),
{
    emu.enable_interrupts();
    4
}

//0xCD
fn call_a16(emu: &mut Emulator, operand: u16) -> (r: u64)
    requires
        old(emu).wf(),
    ensures
        final(emu).wf(),
        final(emu).frame(old(emu)),
        final(emu).cpu() == call_spec(old(emu).cpu(), operand),
        r == 24,
{
    let pc = emu.regs.pc();
    push(emu, pc);
    emu.regs.set_pc(operand);
    24
}

//0xC4, 0xCC, 0xD4, 0xDC
fn call_cc(emu: &mut Emulator, op: u8, operand: u16) -> (r: u64)
    requires
        old(emu).wf(),
        op == 0xC4 || op == 0xCC || op == 0xD4 || op == 0xDC,
    ensures
        final(emu).follows(old(emu), block3_spec(old(emu).cpu(), op, operand), r),
{
    if cond(emu, (op - 0xC4) / 8) {
        call_a16(emu, operand)
    } else {
        12
    }
}

//0xC7, 0xCF, ... 0xFF
fn rst(emu: &mut Emulator, op: u8) -> (r: u64)
    requires
        old(emu).wf(),
        op >= 0xC0 && op % 8 == 7,
    ensures
        forall|operand: u16| final(emu).follows(old(emu), block3_spec(old(emu).cpu(), op, operand), r),
{
    let target = (op - 0xC7) as u16;
    call_a16(emu, target);
    16
}

/// Opcodes 0xC0-0xFF that have an instruction.
fn execute_block3(emu: &mut Emulator, op: u8, operand: u16) -> (r: u64)
    requires
        old(emu).wf(),
        op >= 0xC0,
        !undefined_opcode(op),
    ensures
        final(emu).follows(old(emu), block3_spec(old(emu).cpu(), op, operand), r),
{
    let z = op % 8;
    let y = (op / 8) % 8;
    if z == 0 && y < 4 {
        ret_cc(emu, op)
    } else if op == 0xE0 {
        ldh_a8_a(emu, operand)
    } else if op == 0xE8 {
        add_sp_r8(emu, operand)
    } else if op == 0xF0 {
        ldh_a_a8(emu, operand)
    } else if op == 0xF8 {
        ld_hl_spr8(emu, operand)
    } else if z == 1 && y % 2 == 0 {
        pop_rr(emu, op)
    } else if op == 0xC9 {
        ret(emu)
    } else if op == 0xD9 {
        reti(emu)
    } else if op == 0xE9 {
        jp_hl(emu)
    } else if op == 0xF9 {
        ld_sp_hl(emu)
    } else if z == 2 && y < 4 {
        jp_cc(emu, op, operand)
    } else if op == 0xE2 {
        ld_cp_a(emu)
    } else if op == 0xEA {
        ld_a16_a(emu, operand)
    } else if op == 0xF2 {
        ld_a_cp(emu)
    } else if op == 0xFA {
        ld_a_a16(emu, operand)
    } else if op == 0xC3 {
        jp(emu, operand)
    } else if op == 0xCB {
        cb(emu, operand)
    } else if op == 0xF3 {
        di(emu)
    } else if op == 0xFB {
        ei(emu)
    } else if z == 4 {
        call_cc(emu, op, operand)
    } else if z == 5 && y % 2 == 0 {
        push_rr(emu, op)
    } else if op == 0xCD {
        call_a16(emu, operand)
    } else if z == 6 {
        alu(emu, y, (operand % 256) as u8);
        8
    } else {
        rst(emu, op)
    }
}

impl Emulator {
    /// Carries out `opcode` with its operand; `None` for an opcode without an instruction,
    /// which leaves the machine as it was.
    pub fn execute(&mut self, opcode: u8, operand: u16) -> (r: Option<u64>)
        requires
            old(self).wf(),
        ensures
            r is None <==> exec_spec(old(self).cpu(), opcode, operand) is None,
            r is None ==> *final(self) == *old(self),
            r is Some ==> final(self).follows(
                old(self),
                exec_spec(old(self).cpu(), opcode, operand)->Some_0,
                r->Some_0,
            ),
    {
        reveal(exec_spec);
        if opcode < 0x40 {
            Some(execute_block0(self, opcode, operand))
        } else if opcode < 0x80 {
            Some(execute_block1(self, opcode))
        } else if opcode < 0xC0 {
            Some(execute_block2(self, opcode))
        } else if opcode == 0xD3 || opcode == 0xDB || opcode == 0xDD || opcode == 0xE3 || opcode
            == 0xE4 || opcode == 0xEB || opcode == 0xEC || opcode == 0xED || opcode == 0xF4
            || opcode == 0xFC || opcode == 0xFD {
            None
        } else {
            Some(execute_block3(self, opcode, operand))
        }
    }
}

} // verus!
