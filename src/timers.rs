//! The timer unit: DIV counts every 256 cycles; TIMA counts at the rate TAC selects
//! while TAC bit 2 is set, and on overflow reloads from TMA and requests the Timer
//! interrupt.
use vstd::prelude::*;
use crate::memory::{Memory, MemView, lemma_read_io, lemma_write_io};
use crate::interrupts::{InterruptManager, request_spec, TIMER};

verus! {

pub const DIV_ADDR: u16 = 0xFF04;
pub const TIMA_ADDR: u16 = 0xFF05;
pub const TMA_ADDR: u16 = 0xFF06;
pub const TAC_ADDR: u16 = 0xFF07;
pub const DIV_PERIOD: u32 = 256;

/// Cycles per TIMA step for the TAC frequency index: 4096, 262144, 65536, 16384 Hz.
pub open spec fn tima_period(index: u8) -> u32 {
    if index % 4 == 0 {
        1024
    } else if index % 4 == 1 {
        16
    } else if index % 4 == 2 {
        64
    } else {
        256
    }
}

pub open spec fn tima_tick(m: MemView) -> MemView {
    let tima = m.read(TIMA_ADDR);
    if tima == 0xFF {
        request_spec(m.write(TIMA_ADDR, m.read(TMA_ADDR)), TIMER)
    } else {
        m.write(TIMA_ADDR, (tima + 1) as u8)
    }
}

/// TIMA stepped once for each whole period in `counter`; returns the memory and the
/// cycles left over.
pub open spec fn tima_run(m: MemView, counter: u32, period: u32) -> (MemView, u32)
    decreases counter,
{
    if period == 0 || counter < period {
        (m, counter)
    } else {
        tima_run(tima_tick(m), (counter - period) as u32, period)
    }
}

pub open spec fn div_run(m: MemView, ticks: u32) -> MemView {
    if ticks == 0 {
        m
    } else {
        m.with_io(DIV_ADDR as int, ((m.io[DIV_ADDR as int] as int + ticks) % 256) as u8)
    }
}

pub struct Timers {
    /// Cycles since DIV last counted.
    pub div_counter: u32,
    /// Cycles since TIMA last counted.
    pub tima_counter: u32,
}

impl Timers {
    pub open spec fn wf(self) -> bool {
        self.div_counter < DIV_PERIOD && self.tima_counter < 1024
    }

    /// The timers and memory after `cycles` more cycles.
    pub open spec fn step_spec(self, m: MemView, cycles: u16) -> (Timers, MemView) {
        let total = self.div_counter + cycles;
        let m1 = div_run(m, (total / 256) as u32);
        let tac = m1.read(TAC_ADDR);
        if tac & 4 != 0 {
            let (m2, left) = tima_run(m1, (self.tima_counter + cycles) as u32, tima_period(tac));
            (Timers { div_counter: (total % 256) as u32, tima_counter: left }, m2)
        } else {
            (Timers { div_counter: (total % 256) as u32, tima_counter: self.tima_counter }, m1)
        }
    }

    pub fn new() -> (r: Timers)
        ensures
            r.div_counter == 0 && r.tima_counter == 0,
            r.wf(),
    {
        Timers { div_counter: 0, tima_counter: 0 }
    }

    pub fn step(&mut self, mem: &mut Memory, im: &InterruptManager, cycles: u16)
        requires
            old(mem)@.wf(),
            old(self).wf(),
        ensures
            (*final(self), final(mem)@) == old(self).step_spec(old(mem)@, cycles),
            final(self).wf(),
            final(mem)@.wf(),
    {
        let total: u32 = self.div_counter + cycles as u32;
        let ticks: u32 = total / 256;
        self.div_counter = total % 256;
        proof {
            lemma_read_io(mem@, DIV_ADDR);
        }
        if ticks > 0 {
            let d = mem.rb(DIV_ADDR);
            mem.write_div(((d as u32 + ticks) % 256) as u8);
        }
        let ghost m1 = mem@;
        let tac = mem.rb(TAC_ADDR);
        if tac & 4 != 0 {
            let period: u32 = match tac % 4 {
                0 => 1024,
                1 => 16,
                2 => 64,
                _ => 256,
            };
            let mut counter: u32 = self.tima_counter + cycles as u32;
            while counter >= period
                invariant
                    period == tima_period(tac),
                    16 <= period <= 1024,
                    mem@.wf(),
                    tima_run(mem@, counter, period) == tima_run(
                        m1,
                        (old(self).tima_counter + cycles) as u32,
                        period,
                    ),
                decreases counter,
            {
                let tima = mem.rb(TIMA_ADDR);
                if tima == 0xFF {
                    let tma = mem.rb(TMA_ADDR);
                    mem.wb(TIMA_ADDR, tma);
                    im.request_interrupt(mem, TIMER);
                } else {
                    mem.wb(TIMA_ADDR, tima + 1);
                }
                counter = counter - period;
            }
            self.tima_counter = counter;
        }
    }
}

/// With TAC = 0b101, one period of 16 cycles from a fresh count steps TIMA once: to
/// TIMA+1, or from 0xFF to TMA with the Timer request set in IF; 15 cycles leave it.
pub proof fn lemma_timer_period(t: Timers, m: MemView)
    requires
        t.wf(),
        t.tima_counter == 0,
        m.wf(),
        m.read(TAC_ADDR) == 0b101,
    ensures
        ({
            let (t2, m2) = t.step_spec(m, 16);
            &&& m.read(TIMA_ADDR) < 0xFF ==> m2.read(TIMA_ADDR) == m.read(TIMA_ADDR) + 1
            &&& m.read(TIMA_ADDR) == 0xFF ==> m2.read(TIMA_ADDR) == m.read(TMA_ADDR) && m2.read(
                0xFF0F,
            ) & 0x04 != 0
            &&& t2.tima_counter == 0
        }),
        t.step_spec(m, 15).1.read(TIMA_ADDR) == m.read(TIMA_ADDR),
{
    assert(0b101u8 & 4 != 0) by (bit_vector);
    let m1 = div_run(m, ((t.div_counter + 16) / 256) as u32);
    lemma_read_io(m, TAC_ADDR);
    lemma_read_io(m1, TAC_ADDR);
    lemma_read_io(m, TIMA_ADDR);
    lemma_read_io(m1, TIMA_ADDR);
    lemma_read_io(m, TMA_ADDR);
    lemma_read_io(m1, TMA_ADDR);
    assert(m1.read(TAC_ADDR) == 0b101);
    assert(m1.read(TIMA_ADDR) == m.read(TIMA_ADDR));
    assert(m1.read(TMA_ADDR) == m.read(TMA_ADDR));
    assert(tima_period(0b101) == 16);
    let tk = tima_tick(m1);
    assert(tima_run(m1, 16, 16) == tima_run(tk, 0, 16));
    let tima = m1.read(TIMA_ADDR);
    if tima == 0xFF {
        let ma = m1.write(TIMA_ADDR, m1.read(TMA_ADDR));
        lemma_write_io(m1, TIMA_ADDR, m1.read(TMA_ADDR));
        lemma_read_io(ma, 0xFF0F);
        let v = ma.read(0xFF0F);
        lemma_write_io(ma, 0xFF0F, v | (1u8 << 2u8));
        let mb = ma.write(0xFF0F, v | (1u8 << 2u8));
        lemma_read_io(mb, 0xFF0F);
        lemma_read_io(mb, TIMA_ADDR);
        lemma_read_io(ma, TIMA_ADDR);
        assert(mb == tk);
        assert((v | (1u8 << 2u8)) & 0x04 != 0) by (bit_vector);
    } else {
        lemma_write_io(m1, TIMA_ADDR, (tima + 1) as u8);
        lemma_read_io(tk, TIMA_ADDR);
    }
    let m15 = div_run(m, ((t.div_counter + 15) / 256) as u32);
    lemma_read_io(m15, TAC_ADDR);
    assert(m15.read(TAC_ADDR) == 0b101);
}

} // verus!
