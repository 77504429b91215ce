//! The CB-prefixed instructions: rotates and shifts, BIT, RES and SET on a register
//! or on the byte at (HL).
use vstd::prelude::*;
use crate::alu::{rlc, rrc, rl, rr, sla, sra, swap, srl, bit};
use crate::cpu::{cb_spec, block3_spec};
use crate::emulator::Emulator;
use crate::instructions::{get_r8, set_r8};
use crate::registers::CARRY_FLAG;

verus! {

broadcast use crate::registers::lemma_with_f_wf, crate::memory::lemma_write_wf;

/// Carries out the CB-prefixed instruction `op`.
pub fn execute_cb(emu: &mut Emulator, op: u8) -> (r: u64)
    requires
        old(emu).wf(),
    ensures
        final(emu).follows(old(emu), cb_spec(old(emu).cpu(), op), r),
{
    let idx = op % 8;
    let b = (op / 8) % 8;
    let v = get_r8(emu, idx);
    let cycles: u64 = if idx == 6 {
        16
    } else {
        8
    };
    if op < 0x40 {
        let carry = emu.regs.get_flag(CARRY_FLAG);
        let (r, f) = if b == 0 {
            rlc(v)
        } else if b == 1 {
            rrc(v)
        } else if b == 2 {
            rl(v, carry)
        } else if b == 3 {
            rr(v, carry)
        } else if b == 4 {
            sla(v)
        } else if b == 5 {
            sra(v)
        } else if b == 6 {
            swap(v)
        } else {
            srl(v)
        };
        set_r8(emu, idx, r);
        emu.regs.set_f(f);
    } else if op < 0x80 {
        let f = bit(b, v, emu.regs.f());
        emu.regs.set_f(f);
    } else if op < 0xC0 {
        set_r8(emu, idx, v & !(1u8 << b));
    } else {
        set_r8(emu, idx, v | (1u8 << b));
    }
    cycles
}

//0xCB
pub fn cb(emu: &mut Emulator, operand: u16) -> (r: u64)
    requires
        old(emu).wf(),
    ensures
        final(emu).follows(old(emu), block3_spec(old(emu).cpu(), 0xCB, operand), r),
{
    execute_cb(emu, (operand % 256) as u8)
}

} // verus!
