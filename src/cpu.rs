//! What each instruction does, stated over the CPU's state: registers, the bus, IME,
//! and the HALT and STOP states.
use vstd::prelude::*;
use crate::alu::{add_spec, sub_spec, and_spec, or_spec, xor_spec, inc_spec, dec_spec, add16_spec, add_sp_spec, rlc_spec, rrc_spec, rl_spec, rr_spec, sla_spec, sra_spec, srl_spec, swap_spec, bit_spec, daa_spec, accumulator_form, carry_of, signed8};
use crate::memory::{MemView, addr_add};
use crate::registers::{RegView, ZERO_FLAG, CARRY_FLAG, NEGATIVE_FLAG, HALFCARRY_FLAG};

verus! {

pub struct CpuState {
    pub regs: RegView,
    pub mem: MemView,
    pub ime: bool,
    pub halted: bool,
    pub stopped: bool,
    pub cgb_mode: bool,
}

/// 16-bit wrap-around addition.
pub open spec fn wrap16(a: u16, k: int) -> u16 {
    addr_add(a, k)
}

/// The operand's low byte, for one-byte operands.
pub open spec fn low8(operand: u16) -> u8 {
    (operand % 256) as u8
}

impl CpuState {
    pub open spec fn with_regs(self, r: RegView) -> CpuState {
        CpuState { regs: r, ..self }
    }

    pub open spec fn with_mem(self, m: MemView) -> CpuState {
        CpuState { mem: m, ..self }
    }

    pub open spec fn with_a(self, v: u8) -> CpuState {
        self.with_regs(RegView { a: v, ..self.regs })
    }

    pub open spec fn with_f(self, f: u8) -> CpuState {
        self.with_regs(self.regs.with_f(f))
    }

    pub open spec fn with_af(self, a: u8, f: u8) -> CpuState {
        self.with_regs(RegView { a: a, ..self.regs }.with_f(f))
    }

    pub open spec fn with_pc(self, pc: u16) -> CpuState {
        self.with_regs(RegView { pc: pc, ..self.regs })
    }

    pub open spec fn with_sp(self, sp: u16) -> CpuState {
        self.with_regs(RegView { sp: sp, ..self.regs })
    }

    pub open spec fn flag(self, mask: u8) -> bool {
        self.regs.flag(mask)
    }

    /// Register operand by its 3-bit code: B C D E H L (HL) A.
    pub open spec fn r8(self, idx: u8) -> u8 {
        if idx == 0 {
            self.regs.b
        } else if idx == 1 {
            self.regs.c
        } else if idx == 2 {
            self.regs.d
        } else if idx == 3 {
            self.regs.e
        } else if idx == 4 {
            self.regs.h
        } else if idx == 5 {
            self.regs.l
        } else if idx == 6 {
            self.mem.read(self.regs.hl())
        } else {
            self.regs.a
        }
    }

    pub open spec fn set_r8(self, idx: u8, v: u8) -> CpuState {
        if idx == 0 {
            self.with_regs(RegView { b: v, ..self.regs })
        } else if idx == 1 {
            self.with_regs(RegView { c: v, ..self.regs })
        } else if idx == 2 {
            self.with_regs(RegView { d: v, ..self.regs })
        } else if idx == 3 {
            self.with_regs(RegView { e: v, ..self.regs })
        } else if idx == 4 {
            self.with_regs(RegView { h: v, ..self.regs })
        } else if idx == 5 {
            self.with_regs(RegView { l: v, ..self.regs })
        } else if idx == 6 {
            self.with_mem(self.mem.write(self.regs.hl(), v))
        } else {
            self.with_a(v)
        }
    }

    /// Register pair by its 2-bit code: BC DE HL SP.
    pub open spec fn rr(self, idx: u8) -> u16 {
        if idx == 0 {
            self.regs.bc()
        } else if idx == 1 {
            self.regs.de()
        } else if idx == 2 {
            self.regs.hl()
        } else {
            self.regs.sp
        }
    }

    pub open spec fn set_rr(self, idx: u8, v: u16) -> CpuState {
        if idx == 0 {
            self.with_regs(self.regs.with_bc(v))
        } else if idx == 1 {
            self.with_regs(self.regs.with_de(v))
        } else if idx == 2 {
            self.with_regs(self.regs.with_hl(v))
        } else {
            self.with_sp(v)
        }
    }

    /// Register pair for PUSH and POP: BC DE HL AF.
    pub open spec fn stack_rr(self, idx: u8) -> u16 {
        if idx == 3 {
            self.regs.af()
        } else {
            self.rr(idx)
        }
    }

    pub open spec fn set_stack_rr(self, idx: u8, v: u16) -> CpuState {
        if idx == 3 {
            self.with_regs(self.regs.with_af(v))
        } else {
            self.set_rr(idx, v)
        }
    }

    /// SP moves down two and the value is stored there, low byte first.
    pub open spec fn push(self, v: u16) -> CpuState {
        let sp = wrap16(self.regs.sp, -2);
        CpuState { mem: self.mem.write_word(sp, v), regs: RegView { sp: sp, ..self.regs }, ..self }
    }

    pub open spec fn popped(self) -> u16 {
        self.mem.read_word(self.regs.sp)
    }

    pub open spec fn after_pop(self) -> CpuState {
        self.with_sp(wrap16(self.regs.sp, 2))
    }

    /// Branch condition by its 2-bit code: NZ Z NC C.
    pub open spec fn cond(self, cc: u8) -> bool {
        if cc == 0 {
            !self.flag(ZERO_FLAG)
        } else if cc == 1 {
            self.flag(ZERO_FLAG)
        } else if cc == 2 {
            !self.flag(CARRY_FLAG)
        } else {
            self.flag(CARRY_FLAG)
        }
    }
}

/// The eight accumulator operations by code: ADD ADC SUB SBC AND XOR OR CP. Returns the
/// new accumulator and flags.
pub open spec fn alu_spec(kind: u8, a: u8, v: u8, f: u8) -> (u8, u8) {
    if kind == 0 {
        add_spec(a, v, false)
    } else if kind == 1 {
        add_spec(a, v, carry_of(f))
    } else if kind == 2 {
        sub_spec(a, v, false)
    } else if kind == 3 {
        sub_spec(a, v, carry_of(f))
    } else if kind == 4 {
        and_spec(a, v)
    } else if kind == 5 {
        xor_spec(a, v)
    } else if kind == 6 {
        or_spec(a, v)
    } else {
        (a, sub_spec(a, v, false).1)
    }
}

pub open spec fn alu_op(s: CpuState, kind: u8, v: u8) -> CpuState {
    let (a, f) = alu_spec(kind, s.regs.a, v, s.regs.f);
    s.with_af(a, f)
}

/// The CB-prefixed rotate and shift operations by code: RLC RRC RL RR SLA SRA SWAP SRL.
pub open spec fn shift_spec(kind: u8, v: u8, f: u8) -> (u8, u8) {
    if kind == 0 {
        rlc_spec(v)
    } else if kind == 1 {
        rrc_spec(v)
    } else if kind == 2 {
        rl_spec(v, carry_of(f))
    } else if kind == 3 {
        rr_spec(v, carry_of(f))
    } else if kind == 4 {
        sla_spec(v)
    } else if kind == 5 {
        sra_spec(v)
    } else if kind == 6 {
        swap_spec(v)
    } else {
        srl_spec(v)
    }
}

/// A CB-prefixed instruction: the new state and its cycles.
pub open spec fn cb_spec(s: CpuState, op: u8) -> (CpuState, u64) {
    let idx = op % 8;
    let b = (op / 8) % 8;
    let v = s.r8(idx);
    let cycles: u64 = if idx == 6 {
        16
    } else {
        8
    };
    if op < 0x40 {
        let (r, f) = shift_spec(b, v, s.regs.f);
        (s.set_r8(idx, r).with_f(f), cycles)
    } else if op < 0x80 {
        (s.with_f(bit_spec(b, v, s.regs.f)), cycles)
    } else if op < 0xC0 {
        (s.set_r8(idx, v & !(1u8 << b)), cycles)
    } else {
        (s.set_r8(idx, v | (1u8 << b)), cycles)
    }
}

pub open spec fn jr_spec(s: CpuState, operand: u16) -> CpuState {
    s.with_pc(wrap16(s.regs.pc, signed8(low8(operand))))
}

pub open spec fn call_spec(s: CpuState, target: u16) -> CpuState {
    s.push(s.regs.pc).with_pc(target)
}

pub open spec fn ret_spec(s: CpuState) -> CpuState {
    s.after_pop().with_pc(s.popped())
}

/// STOP: on a CGB with a speed switch armed, the speed switches and the CPU runs on;
/// otherwise the CPU stops until a key is pressed.
pub open spec fn stop_spec(s: CpuState) -> CpuState {
    let speed = s.mem.read(0xFF4D);
    if s.cgb_mode && speed % 2 == 1 {
        let m = s.mem.write(0xFF4D, speed & 0x7E);
        s.with_mem(m.with_io(0xFF4D, m.io[0xFF4D] ^ 0x80))
    } else {
        CpuState { stopped: true, ..s }
    }
}

pub open spec fn daa_op(s: CpuState) -> CpuState {
    let (a, f) = daa_spec(s.regs.a, s.regs.f);
    s.with_af(a, f)
}

/// LD (BC),A / LD A,(BC) / ... / LD (HL-),A / LD A,(HL-), by bits 5-3 of the opcode.
pub open spec fn ld_indirect_spec(s: CpuState, y: u8) -> CpuState {
    let p = y / 2;
    let addr = if p == 0 {
        s.regs.bc()
    } else if p == 1 {
        s.regs.de()
    } else {
        s.regs.hl()
    };
    let s1 = if y % 2 == 0 {
        s.with_mem(s.mem.write(addr, s.regs.a))
    } else {
        s.with_a(s.mem.read(addr))
    };
    if p == 2 {
        s1.with_regs(s1.regs.with_hl(wrap16(addr, 1)))
    } else if p == 3 {
        s1.with_regs(s1.regs.with_hl(wrap16(addr, -1)))
    } else {
        s1
    }
}

/// ADD HL,rr for the pair code `p`.
pub open spec fn add_hl_spec(s: CpuState, p: u8) -> CpuState {
    let (r, f) = add16_spec(s.regs.hl(), s.rr(p), s.regs.f);
    s.with_regs(s.regs.with_hl(r).with_f(f))
}

/// INC rr / DEC rr, by bits 5-3 of the opcode.
pub open spec fn inc_dec_rr_spec(s: CpuState, y: u8) -> CpuState {
    let p = y / 2;
    s.set_rr(p, wrap16(s.rr(p), if y % 2 == 0 { 1 } else { -1 }))
}

/// INC r by its 3-bit code.
pub open spec fn inc_r_spec(s: CpuState, y: u8) -> CpuState {
    let (r, f) = inc_spec(s.r8(y), s.regs.f);
    s.set_r8(y, r).with_f(f)
}

/// DEC r by its 3-bit code.
pub open spec fn dec_r_spec(s: CpuState, y: u8) -> CpuState {
    let (r, f) = dec_spec(s.r8(y), s.regs.f);
    s.set_r8(y, r).with_f(f)
}

/// RLCA, RRCA, RLA, RRA for `y` = 0 to 3.
pub open spec fn rotate_a_spec(s: CpuState, y: u8) -> CpuState {
    let r = if y == 0 {
        rlc_spec(s.regs.a)
    } else if y == 1 {
        rrc_spec(s.regs.a)
    } else if y == 2 {
        rl_spec(s.regs.a, s.flag(CARRY_FLAG))
    } else {
        rr_spec(s.regs.a, s.flag(CARRY_FLAG))
    };
    s.with_af(r.0, accumulator_form(r).1)
}

/// DAA, CPL, SCF, CCF for `y` = 4 to 7.
pub open spec fn misc_a_spec(s: CpuState, y: u8) -> CpuState {
    if y == 4 {
        daa_op(s)
    } else if y == 5 {
        s.with_af(!s.regs.a, s.regs.f | NEGATIVE_FLAG | HALFCARRY_FLAG)
    } else if y == 6 {
        s.with_f(s.regs.f | CARRY_FLAG)
    } else {
        s.with_f(s.regs.f ^ CARRY_FLAG)
    }
}

/// A conditional relative jump: 12 cycles taken, 8 not.
pub open spec fn jr_cc_spec(s: CpuState, cc: u8, operand: u16) -> (CpuState, u64) {
    if s.cond(cc) {
        (jr_spec(s, operand), 12)
    } else {
        (s, 8)
    }
}

/// Opcodes 0x00-0x3F whose low three bits are 0 to 3.
pub open spec fn block0_low_spec(s: CpuState, op: u8, operand: u16) -> (CpuState, u64) {
    let y = (op / 8) % 8;
    let z = op % 8;
    let p = y / 2;
    if op == 0x00 {
        (s, 4)
    } else if op == 0x08 {
        (s.with_mem(s.mem.write_word(operand, s.regs.sp)), 20)
    } else if op == 0x10 {
        (stop_spec(s), 4)
    } else if op == 0x18 {
        (jr_spec(s, operand), 12)
    } else if z == 0 {
        jr_cc_spec(s, (y - 4) as u8, operand)
    } else if z == 1 && y % 2 == 0 {
        (s.set_rr(p, operand), 12)
    } else if z == 1 {
        (add_hl_spec(s, p), 8)
    } else if z == 2 {
        (ld_indirect_spec(s, y), 8)
    } else {
        (inc_dec_rr_spec(s, y), 8)
    }
}

/// Opcodes 0x00-0x3F whose low three bits are 4 to 7.
pub open spec fn block0_high_spec(s: CpuState, op: u8, operand: u16) -> (CpuState, u64) {
    let y = (op / 8) % 8;
    let z = op % 8;
    if z == 4 {
        (inc_r_spec(s, y), if y == 6 { 12 } else { 4 })
    } else if z == 5 {
        (dec_r_spec(s, y), if y == 6 { 12 } else { 4 })
    } else if z == 6 {
        (s.set_r8(y, low8(operand)), if y == 6 { 12 } else { 8 })
    } else if y < 4 {
        (rotate_a_spec(s, y), 4)
    } else {
        (misc_a_spec(s, y), 4)
    }
}

/// Opcodes 0x00-0x3F.
pub open spec fn block0_spec(s: CpuState, op: u8, operand: u16) -> (CpuState, u64) {
    if op % 8 < 4 {
        block0_low_spec(s, op, operand)
    } else {
        block0_high_spec(s, op, operand)
    }
}

/// Opcodes 0x40-0x7F: register to register loads, and HALT at 0x76.
pub open spec fn block1_spec(s: CpuState, op: u8) -> (CpuState, u64) {
    let dst = (op / 8) % 8;
    let src = op % 8;
    if op == 0x76 {
        (CpuState { halted: true, ..s }, 4)
    } else {
        (s.set_r8(dst, s.r8(src)), if dst == 6 || src == 6 { 8 } else { 4 })
    }
}

/// Opcodes 0x80-0xBF: accumulator operations on a register operand.
pub open spec fn block2_spec(s: CpuState, op: u8) -> (CpuState, u64) {
    let src = op % 8;
    (alu_op(s, (op / 8) % 8, s.r8(src)), if src == 6 { 8 } else { 4 })
}

/// The opcodes without an instruction.
pub open spec fn undefined_opcode(op: u8) -> bool {
    op == 0xD3 || op == 0xDB || op == 0xDD || op == 0xE3 || op == 0xE4 || op == 0xEB || op
        == 0xEC || op == 0xED || op == 0xF4 || op == 0xFC || op == 0xFD
}

/// Opcodes 0xC0-0xFF other than the undefined ones.
pub open spec fn block3_spec(s: CpuState, op: u8, operand: u16) -> (CpuState, u64) {
    let y = (op / 8) % 8;
    let z = op % 8;
    let p = y / 2;
    if z == 0 && y < 4 {
        if s.cond(y) {
            (ret_spec(s), 20)
        } else {
            (s, 8)
        }
    } else if op == 0xE0 {
        (s.with_mem(s.mem.write((0xFF00 + low8(operand)) as u16, s.regs.a)), 12)
    } else if op == 0xE8 {
        let (r, f) = add_sp_spec(s.regs.sp, low8(operand));
        (s.with_sp(r).with_f(f), 16)
    } else if op == 0xF0 {
        (s.with_a(s.mem.read((0xFF00 + low8(operand)) as u16)), 12)
    } else if op == 0xF8 {
        let (r, f) = add_sp_spec(s.regs.sp, low8(operand));
        (s.with_regs(s.regs.with_hl(r).with_f(f)), 12)
    } else if z == 1 && y % 2 == 0 {
        (s.after_pop().set_stack_rr(p, s.popped()), 12)
    } else if op == 0xC9 {
        (ret_spec(s), 16)
    } else if op == 0xD9 {
        (CpuState { ime: true, ..ret_spec(s) }, 16)
    } else if op == 0xE9 {
        (s.with_pc(s.regs.hl()), 4)
    } else if op == 0xF9 {
        (s.with_sp(s.regs.hl()), 8)
    } else if z == 2 && y < 4 {
        if s.cond(y) {
            (s.with_pc(operand), 16)
        } else {
            (s, 12)
        }
    } else if op == 0xE2 {
        (s.with_mem(s.mem.write((0xFF00 + s.regs.c) as u16, s.regs.a)), 8)
    } else if op == 0xEA {
        (s.with_mem(s.mem.write(operand, s.regs.a)), 16)
    } else if op == 0xF2 {
        (s.with_a(s.mem.read((0xFF00 + s.regs.c) as u16)), 8)
    } else if op == 0xFA {
        (s.with_a(s.mem.read(operand)), 16)
    } else if op == 0xC3 {
        (s.with_pc(operand), 16)
    } else if op == 0xCB {
        cb_spec(s, low8(operand))
    } else if op == 0xF3 {
        (CpuState { ime: false, ..s }, 4)
    } else if op == 0xFB {
        (CpuState { ime: true, ..s }, 4)
    } else if z == 4 {
        if s.cond(y) {
            (call_spec(s, operand), 24)
        } else {
            (s, 12)
        }
    } else if z == 5 && y % 2 == 0 {
        (s.push(s.stack_rr(p)), 16)
    } else if op == 0xCD {
        (call_spec(s, operand), 24)
    } else if z == 6 {
        (alu_op(s, y, low8(operand)), 8)
    } else {
        (call_spec(s, (y * 8) as u16), 16)
    }
}

/// The effect of executing `op` with its operand: the new state and the cycles taken,
/// or `None` for an opcode without an instruction.
#[verifier::opaque]
pub open spec fn exec_spec(s: CpuState, op: u8, operand: u16) -> Option<(CpuState, u64)> {
    if op < 0x40 {
        Some(block0_spec(s, op, operand))
    } else if op < 0x80 {
        Some(block1_spec(s, op))
    } else if op < 0xC0 {
        Some(block2_spec(s, op))
    } else if undefined_opcode(op) {
        None
    } else {
        Some(block3_spec(s, op, operand))
    }
}

/// No instruction takes more than 24 cycles.
pub proof fn lemma_exec_cycles(s: CpuState, op: u8, operand: u16)
    ensures
        exec_spec(s, op, operand) is Some ==> exec_spec(s, op, operand)->Some_0.1 <= 24,
{
    reveal(exec_spec);
}

/// XOR A,A leaves A zero with only the Zero flag set, whatever A was.
pub proof fn lemma_xor_a_a(s: CpuState, operand: u16)
    ensures
        exec_spec(s, 0xAF, operand) == Some((s.with_af(0, 0x80), 4u64)),
        s.with_af(0, 0x80).regs.a == 0,
        s.with_af(0, 0x80).flag(ZERO_FLAG),
        !s.with_af(0, 0x80).flag(NEGATIVE_FLAG),
        !s.with_af(0, 0x80).flag(HALFCARRY_FLAG),
        !s.with_af(0, 0x80).flag(CARRY_FLAG),
{
    reveal(exec_spec);
    crate::alu::lemma_xor_self(s.regs.a);
    assert(0x80u8 & 0xF0 == 0x80 && 0x80u8 & 0x80 != 0 && 0x80u8 & 0x40 == 0 && 0x80u8 & 0x20
        == 0 && 0x80u8 & 0x10 == 0) by (bit_vector);
}

} // verus!
