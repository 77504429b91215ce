//! The machine: CPU registers, bus, interrupt controller and timers, stepped one
//! instruction at a time.
use vstd::prelude::*;
use crate::bytes::{overlay, zero_seq};
use crate::cpu::{CpuState, exec_spec, wrap16};
use crate::interrupts::{InterruptManager, to_service, dispatch, request_spec, JOYPAD};
use crate::mbc::{CartridgeType, Mbc, cartridge_kind, save_len, save_image, ram_of, SaveError, rom_of, kind_of};
use crate::memory::{Memory, MemView, initial_memory, wrap_add};
use crate::opcodes::{operand_len, operand_length};
use crate::registers::{Registers, RegView};
use crate::rom_info::{get_rom_size, get_ram_size, rom_size_kib, ram_size_kib};
use crate::timers::Timers;

verus! {

broadcast use crate::registers::lemma_with_f_wf, crate::registers::lemma_with_af_wf, crate::memory::lemma_write_wf;

/// Cycles that a step takes while the CPU is halted or stopped.
pub const HALT_CYCLES: u64 = 40;
/// Cycles that serving an interrupt adds to a step.
pub const INTERRUPT_CYCLES: u64 = 20;
/// Where execution starts once the boot ROM is done.
pub const ENTRY_POINT: u16 = 0x0100;

#[derive(Debug, PartialEq, Eq, Clone, Copy, Structural)]
pub enum StepError {
    /// The byte at `address` is an opcode without an instruction.
    UnimplementedOpcode { address: u16, opcode: u8 },
}

#[derive(Debug, PartialEq, Eq, Clone, Copy, Structural)]
pub enum LoadError {
    /// The image ends before the header does (0x150 bytes).
    HeaderTooShort { len: usize },
    UnknownCartridgeType(u8),
    UnknownRomSize(u8),
    UnknownRamSize(u8),
}

/// Opcode, operand and the state after fetching them: PC past the opcode and its
/// 0, 1 or 2 operand bytes (little-endian).
pub open spec fn fetch(s: CpuState) -> (u8, u16, CpuState) {
    let pc = s.regs.pc;
    let op = s.mem.read(pc);
    let pc1 = wrap16(pc, 1);
    let len = operand_len(op);
    let operand: u16 = if len == 0 {
        0
    } else if len == 1 {
        s.mem.read(pc1) as u16
    } else {
        s.mem.read_word(pc1)
    };
    (op, operand, s.with_pc(wrap16(pc1, len as int)))
}

/// The interrupt poll after an instruction: serving one clears IME and HALT and adds
/// its cycles.
pub open spec fn service_spec(s: CpuState, cycles: u64) -> (CpuState, u64) {
    if s.ime && to_service(s.mem) is Some {
        let (m, r) = dispatch(s.mem, s.regs, to_service(s.mem)->Some_0);
        (CpuState { mem: m, regs: r, ime: false, halted: false, ..s }, (cycles + INTERRUPT_CYCLES) as u64)
    } else {
        (s, cycles)
    }
}

/// One step: the instruction at PC (or the halt quantum), the interrupt poll, then the
/// timers and the cartridge clock advanced by the cycles taken; the boot ROM is left
/// once PC reaches the entry point.
pub open spec fn step_spec(s0: CpuState, t0: Timers) -> Result<(CpuState, Timers, u64), StepError> {
    let inst = if s0.halted || s0.stopped {
        Some((s0, HALT_CYCLES))
    } else {
        let (op, operand, sf) = fetch(s0);
        exec_spec(sf, op, operand)
    };
    match inst {
        None => Err(
            StepError::UnimplementedOpcode { address: s0.regs.pc, opcode: s0.mem.read(s0.regs.pc) },
        ),
        Some((s1, c1)) => Ok(advance_spec(s1, t0, c1)),
    }
}

/// What follows the instruction in a step: the interrupt poll, then the timers and the
/// cartridge clock advanced by the cycles taken, and the boot ROM left once PC reaches
/// the entry point.
pub open spec fn advance_spec(s1: CpuState, t0: Timers, c1: u64) -> (CpuState, Timers, u64) {
    let (s2, c2) = service_spec(s1, c1);
    let (t3, m3) = t0.step_spec(s2.mem, c2 as u16);
    let m4 = MemView { cart: m3.cart.step(c2 as u16), ..m3 };
    let m5 = if s2.regs.pc == ENTRY_POINT {
        MemView { running_bios: false, ..m4 }
    } else {
        m4
    };
    (CpuState { mem: m5, ..s2 }, t3, c2)
}

/// The I/O registers as the boot ROM leaves them.
pub open spec fn post_boot_io(m: MemView) -> MemView {
    m.write(0xFF05, 0x00).write(0xFF06, 0x00).write(0xFF07, 0x00).write(0xFF10, 0x80).write(
        0xFF11,
        0xBF,
    ).write(0xFF12, 0xF3).write(0xFF14, 0xBF).write(0xFF16, 0x3F).write(0xFF17, 0x00).write(
        0xFF19,
        0xBF,
    ).write(0xFF1A, 0x7F).write(0xFF1B, 0xFF).write(0xFF1C, 0x9F).write(0xFF1E, 0xBF).write(
        0xFF20,
        0xFF,
    ).write(0xFF21, 0x00).write(0xFF22, 0x00).write(0xFF23, 0xBF).write(0xFF24, 0x77).write(
        0xFF25,
        0xF3,
    ).write(0xFF26, 0xF1).write(0xFF40, 0x91).write(0xFF42, 0x00).write(0xFF43, 0x00).write(
        0xFF45,
        0x00,
    ).write(0xFF47, 0xFC).write(0xFF48, 0xFF).write(0xFF49, 0xFF).write(0xFF4A, 0x00).write(
        0xFF4B,
        0x00,
    ).write(0xFFFF, 0x00)
}

/// What the header of a ROM image names, or the first field that is not understood,
/// in the order the fields are read.
pub open spec fn header_kind(rom: Seq<u8>) -> Result<CartridgeType, LoadError> {
    if rom.len() < 0x150 {
        Err(LoadError::HeaderTooShort { len: rom.len() as usize })
    } else if cartridge_kind(rom[0x147]) is None {
        Err(LoadError::UnknownCartridgeType(rom[0x147]))
    } else if rom_size_kib(rom[0x148]) is None {
        Err(LoadError::UnknownRomSize(rom[0x148]))
    } else if ram_size_kib(rom[0x149]) is None {
        Err(LoadError::UnknownRamSize(rom[0x149]))
    } else {
        Ok(cartridge_kind(rom[0x147])->Some_0)
    }
}

/// The bits of the keys that `controls` maps to `key`, among the first `n`.
pub open spec fn key_mask(controls: Seq<u8>, key: u8, n: int) -> u8
    decreases n,
{
    if n <= 0 {
        0
    } else {
        key_mask(controls, key, n - 1) | (if controls[n - 1] == key {
            1u8 << ((n - 1) as u8)
        } else {
            0
        })
    }
}

/// The joypad-register bits (low nibble) of the keys that `controls` maps to `key`.
pub open spec fn line_mask(controls: Seq<u8>, key: u8, n: int) -> u8
    decreases n,
{
    if n <= 0 {
        0
    } else {
        line_mask(controls, key, n - 1) | (if controls[n - 1] == key {
            1u8 << (((n - 1) % 4) as u8)
        } else {
            0
        })
    }
}

pub struct Emulator {
    pub clock: u64,
    pub interrupts: InterruptManager,
    pub controls: [u8; 8],
    pub timers: Timers,
    pub cgb_mode: bool,
    pub mem: Memory,
    pub regs: Registers,
    pub halted: bool,
    pub stopped: bool,
}

impl Emulator {
    pub open spec fn cpu(&self) -> CpuState {
        CpuState {
            regs: self.regs@,
            mem: self.mem@,
            ime: self.interrupts.ime,
            halted: self.halted,
            stopped: self.stopped,
            cgb_mode: self.cgb_mode,
        }
    }

    pub open spec fn wf(&self) -> bool {
        self.mem@.wf() && self.regs@.wf() && self.timers.wf()
    }

    /// Nothing outside the CPU state differs between `self` and `old`.
    pub open spec fn frame(&self, old: &Emulator) -> bool {
        &&& self.clock == old.clock
        &&& self.controls == old.controls
        &&& self.timers == old.timers
        &&& self.cgb_mode == old.cgb_mode
    }

    /// `self` is `old` after an instruction whose effect is `res` and which reported
    /// `cycles`.
    pub open spec fn follows(&self, old: &Emulator, res: (CpuState, u64), cycles: u64) -> bool {
        &&& self.wf()
        &&& self.cpu() == res.0
        &&& cycles == res.1
        &&& self.frame(old)
    }

    pub fn new() -> (r: Emulator)
        ensures
            r.wf(),
            r.cpu() == (CpuState {
                regs: RegView { a: 0, f: 0, b: 0, c: 0, d: 0, e: 0, h: 0, l: 0, pc: 0, sp: 0 },
                mem: initial_memory(),
                ime: true,
                halted: false,
                stopped: false,
                cgb_mode: false,
            }),
            r.clock == 0,
            forall|i: int| 0 <= i < 8 ==> r.controls@[i] == 0,
            r.timers.div_counter == 0 && r.timers.tima_counter == 0,
    {
        Emulator {
            clock: 0,
            mem: Memory::new(),
            controls: [0; 8],
            regs: Registers::new(),
            halted: false,
            timers: Timers::new(),
            interrupts: InterruptManager::new(),
            stopped: false,
            cgb_mode: false,
        }
    }

    pub fn enable_interrupts(&mut self)
        ensures
            final(self).interrupts.ime,
            final(self).regs == old(self).regs,
            final(self).mem == old(self).mem,
            final(self).halted == old(self).halted,
            final(self).stopped == old(self).stopped,
            final(self).clock == old(self).clock,
            final(self).controls == old(self).controls,
            final(self).timers == old(self).timers,
            final(self).cgb_mode == old(self).cgb_mode,
    {
        self.interrupts.ime = true;
    }

    pub fn disable_interrupts(&mut self)
        ensures
            !final(self).interrupts.ime,
            final(self).regs == old(self).regs,
            final(self).mem == old(self).mem,
            final(self).halted == old(self).halted,
            final(self).stopped == old(self).stopped,
            final(self).clock == old(self).clock,
            final(self).controls == old(self).controls,
            final(self).timers == old(self).timers,
            final(self).cgb_mode == old(self).cgb_mode,
    {
        self.interrupts.ime = false;
    }

    /// Reads a byte through the bus.
    pub fn rb(&self, addr: u16) -> (r: u8)
        requires
            self.wf(),
        ensures
            r == self.mem@.read(addr),
    {
        self.mem.rb(addr)
    }

    fn emulate_cycle(&mut self) -> (r: Result<u64, StepError>)
        requires
            old(self).wf(),
        ensures
            ({
                let (op, operand, sf) = fetch(old(self).cpu());
                &&& r is Err <==> exec_spec(sf, op, operand) is None
                &&& r is Err ==> r == Err::<u64, StepError>(
                    StepError::UnimplementedOpcode { address: old(self).cpu().regs.pc, opcode: op },
                ) && final(self).cpu() == sf && final(self).wf() && final(self).frame(old(self))
                &&& r is Ok ==> final(self).follows(
                    old(self),
                    exec_spec(sf, op, operand)->Some_0,
                    r->Ok_0,
                )
            }),
    {
        let address = self.regs.pc();
        let opcode = self.mem.rb(address);
        let pc1 = wrap_add(address, 1);
        let len = operand_length(opcode);
        let operand: u16 = if len == 0 {
            0
        } else if len == 1 {
            self.mem.rb(pc1) as u16
        } else {
            self.mem.rw(pc1)
        };
        self.regs.set_pc(wrap_add(pc1, len as i32));
        match self.execute(opcode, operand) {
            Some(c) => Ok(c),
            None => Err(StepError::UnimplementedOpcode { address, opcode }),
        }
    }

    /// Runs one step; returns the cycles it took, or the unimplemented opcode met, which
    /// leaves PC just past it and nothing else changed.
    pub fn step(&mut self) -> (r: Result<u64, StepError>)
        requires
            old(self).wf(),
        ensures
            final(self).wf(),
            r is Err <==> step_spec(old(self).cpu(), old(self).timers) is Err,
            r is Err ==> r == Err::<u64, StepError>(step_spec(old(self).cpu(), old(self).timers)->Err_0)
                && final(self).cpu() == fetch(old(self).cpu()).2 && final(self).timers == old(self).timers,
            r is Ok ==> ({
                let (s, t, c) = step_spec(old(self).cpu(), old(self).timers)->Ok_0;
                &&& r == Ok::<u64, StepError>(c)
                &&& final(self).cpu() == s
                &&& final(self).timers == t
                &&& final(self).clock == (old(self).clock + c) % 0x1_0000_0000_0000_0000
            }),
            final(self).controls == old(self).controls,
    {
        let cycles: u64 = if !self.halted && !self.stopped {
            match self.emulate_cycle() {
                Ok(c) => c,
                Err(e) => return Err(e),
            }
        } else {
            HALT_CYCLES
        };
        proof {
            crate::cpu::lemma_exec_cycles(fetch(old(self).cpu()).2, fetch(old(self).cpu()).0, fetch(old(self).cpu()).1);
        }
        let total = self.advance(cycles);
        self.clock = self.clock.wrapping_add(total);
        Ok(total)
    }

    fn advance(&mut self, cycles: u64) -> (r: u64)
        requires
            old(self).wf(),
            cycles <= HALT_CYCLES,
        ensures
            final(self).wf(),
            (final(self).cpu(), final(self).timers, r) == advance_spec(old(self).cpu(), old(self).timers, cycles),
            final(self).clock == old(self).clock,
            final(self).controls == old(self).controls,
    {
        let mut cycles = cycles;
        if self.interrupts.step(&mut self.mem, &mut self.regs) {
            self.halted = false;
            cycles = cycles + INTERRUPT_CYCLES;
        }
        self.timers.step(&mut self.mem, &self.interrupts, cycles as u16);
        self.mem.cart_mut_step(cycles as u16);
        if self.regs.pc() == ENTRY_POINT {
            self.mem.finished_with_bios();
        }
        cycles
    }

    /// Takes a boot ROM image; it is mapped from address 0 until PC reaches 0x100.
    pub fn load_bios(&mut self, bios: Vec<u8>)
        requires
            old(self).wf(),
        ensures
            final(self).wf(),
            final(self).cpu() == old(self).cpu().with_mem(MemView { bios: bios@, ..old(self).mem@ }),
            final(self).frame(old(self)),
    {
        self.mem.set_bios(bios);
    }

    /// Without a boot ROM: the registers and I/O registers as the boot ROM would leave
    /// them, and the boot ROM mapping turned off.
    pub fn init_without_bios(&mut self)
        requires
            old(self).wf(),
        ensures
            final(self).wf(),
            final(self).regs@ == (RegView {
                a: 0x11,
                f: 0xB0,
                b: 0x00,
                c: 0x13,
                d: 0x00,
                e: 0xD8,
                h: 0x01,
                l: 0x4D,
                sp: 0xFFFE,
                pc: 0x0100,
            }),
            final(self).mem@ == (MemView { running_bios: false, ..post_boot_io(old(self).mem@) }),
            final(self).frame(old(self)),
            final(self).interrupts == old(self).interrupts,
            final(self).halted == old(self).halted,
            final(self).stopped == old(self).stopped,
    {
        self.regs.set_af(0x11B0);
        self.regs.set_bc(0x0013);
        self.regs.set_de(0x00D8);
        self.regs.set_hl(0x014D);
        self.regs.set_sp(0xFFFE);
        self.regs.set_pc(0x0100);
        proof {
            assert((0xB0u8 & 0xF0) == 0xB0) by (bit_vector);
            assert(0xB0u8 & 0x0F == 0) by (bit_vector);
        }
        self.mem.wb(0xFF05, 0x00);
        self.mem.wb(0xFF06, 0x00);
        self.mem.wb(0xFF07, 0x00);
        self.mem.wb(0xFF10, 0x80);
        self.mem.wb(0xFF11, 0xBF);
        self.mem.wb(0xFF12, 0xF3);
        self.mem.wb(0xFF14, 0xBF);
        self.mem.wb(0xFF16, 0x3F);
        self.mem.wb(0xFF17, 0x00);
        self.mem.wb(0xFF19, 0xBF);
        self.mem.wb(0xFF1A, 0x7F);
        self.mem.wb(0xFF1B, 0xFF);
        self.mem.wb(0xFF1C, 0x9F);
        self.mem.wb(0xFF1E, 0xBF);
        self.mem.wb(0xFF20, 0xFF);
        self.mem.wb(0xFF21, 0x00);
        self.mem.wb(0xFF22, 0x00);
        self.mem.wb(0xFF23, 0xBF);
        self.mem.wb(0xFF24, 0x77);
        self.mem.wb(0xFF25, 0xF3);
        self.mem.wb(0xFF26, 0xF1);
        self.mem.wb(0xFF40, 0x91);
        self.mem.wb(0xFF42, 0x00);
        self.mem.wb(0xFF43, 0x00);
        self.mem.wb(0xFF45, 0x00);
        self.mem.wb(0xFF47, 0xFC);
        self.mem.wb(0xFF48, 0xFF);
        self.mem.wb(0xFF49, 0xFF);
        self.mem.wb(0xFF4A, 0x00);
        self.mem.wb(0xFF4B, 0x00);
        self.mem.wb(0xFFFF, 0x00);
        self.mem.finished_with_bios();
        assert(self.regs@.wf());
        assert(self.mem@.wf());
    }

    /// Reads the header of a ROM image, inserts a controller of the kind it names with
    /// the image loaded, and picks CGB mode: without a boot ROM from the header's CGB
    /// flag (0x143 bit 7; A becomes 0x01 on a DMG cartridge), else from the boot ROM's
    /// size (256 bytes is the DMG one).
    pub fn load_cartridge(&mut self, rom: &Vec<u8>) -> (r: Result<(), LoadError>)
        requires
            old(self).wf(),
        ensures
            final(self).wf(),
            r is Err <==> header_kind(rom@) is Err,
            r is Err ==> r == Err::<(), LoadError>(header_kind(rom@)->Err_0) && *final(self) == *old(self),
            r is Ok ==> ({
                let t = header_kind(rom@)->Ok_0;
                let dmg_without_bios = old(self).mem@.bios.len() == 0 && rom@[0x143] & 0x80 == 0;
                &&& kind_of(final(self).mem@.cart) == Some(t)
                &&& rom_of(final(self).mem@.cart) == overlay(zero_seq(rom_of(final(self).mem@.cart).len()), rom@)
                &&& final(self).cgb_mode == (!dmg_without_bios && old(self).mem@.bios.len() != 0x100)
                &&& final(self).mem@ == (MemView {
                    cart: final(self).mem@.cart,
                    cgb_mode: final(self).cgb_mode,
                    ..old(self).mem@
                })
                &&& final(self).regs@ == (if dmg_without_bios {
                    RegView { a: 0x01, ..old(self).regs@ }
                } else {
                    old(self).regs@
                })
                &&& final(self).clock == old(self).clock
                &&& final(self).timers == old(self).timers
                &&& final(self).controls == old(self).controls
                &&& final(self).interrupts == old(self).interrupts
                &&& final(self).halted == old(self).halted
                &&& final(self).stopped == old(self).stopped
            }),
    {
        if rom.len() < 0x150 {
            return Err(LoadError::HeaderTooShort { len: rom.len() });
        }
        let code = rom[0x147];
        let kind = match CartridgeType::from_code(code) {
            Some(t) => t,
            None => return Err(LoadError::UnknownCartridgeType(code)),
        };
        if get_rom_size(rom[0x148]).is_none() {
            return Err(LoadError::UnknownRomSize(rom[0x148]));
        }
        if get_ram_size(rom[0x149]).is_none() {
            return Err(LoadError::UnknownRamSize(rom[0x149]));
        }
        let mut cart = match Mbc::new(kind) {
            Some(c) => c,
            None => return Err(LoadError::UnknownCartridgeType(code)),
        };
        cart.load_rom(rom);
        self.mem.set_cart(cart);
        let dmg_without_bios = self.mem.bios_len() == 0 && rom[0x143] & 0x80 == 0;
        if dmg_without_bios {
            self.regs.set_a(0x01);
        }
        self.cgb_mode = !dmg_without_bios && self.mem.bios_len() != 0x100;
        self.mem.set_cgb_mode(self.cgb_mode);
        Ok(())
    }

    /// Takes the controls: `controls[i]` is the host key code of button i (right, left,
    /// up, down, A, B, select, start). Codes past the eighth are ignored.
    pub fn set_controls(&mut self, controls: Vec<u8>)
        ensures
            forall|i: int| 0 <= i < 8 ==> final(self).controls@[i] == (if i < controls@.len() {
                controls@[i]
            } else {
                old(self).controls@[i]
            }),
            final(self).cpu() == old(self).cpu(),
            final(self).timers == old(self).timers,
            final(self).clock == old(self).clock,
            final(self).cgb_mode == old(self).cgb_mode,
    {
        let mut i: usize = 0;
        while i < 8
            invariant
                i <= 8,
                forall|k: int| 0 <= k < i ==> self.controls@[k] == (if k < controls@.len() {
                    controls@[k]
                } else {
                    old(self).controls@[k]
                }),
                forall|k: int| i <= k < 8 ==> self.controls@[k] == old(self).controls@[k],
                self.cpu() == old(self).cpu(),
                self.timers == old(self).timers,
                self.clock == old(self).clock,
                self.cgb_mode == old(self).cgb_mode,
            decreases 8 - i,
        {
            if i < controls.len() {
                self.controls[i] = controls[i];
            }
            i += 1;
        }
    }

    /// A host key went down or up: every button mapped to it changes state; a press that
    /// pulls a selected joypad line low requests the Joypad interrupt, and any press
    /// of a mapped button ends STOP.
    pub fn update_keys(&mut self, key: u8, pressed: bool)
        requires
            old(self).wf(),
        ensures
            final(self).wf(),
            ({
                let mask = key_mask(old(self).controls@, key, 8);
                let lines = line_mask(old(self).controls@, key, 8);
                let m1 = MemView {
                    key_state: if pressed {
                        old(self).mem@.key_state & !mask
                    } else {
                        old(self).mem@.key_state | mask
                    },
                    ..old(self).mem@
                };
                let edge = !m1.read(0xFF00) & old(self).mem@.read(0xFF00) & lines != 0;
                &&& final(self).mem@ == (if edge {
                    request_spec(m1, JOYPAD)
                } else {
                    m1
                })
                &&& final(self).stopped == (old(self).stopped && !(pressed && mask != 0))
            }),
            final(self).regs@ == old(self).regs@,
            final(self).halted == old(self).halted,
            final(self).interrupts == old(self).interrupts,
            final(self).frame(old(self)),
    {
        let old_state = self.mem.rb(0xFF00);
        let mut mask: u8 = 0;
        let mut lines: u8 = 0;
        let mut i: u8 = 0;
        while i < 8
            invariant
                i <= 8,
                mask == key_mask(self.controls@, key, i as int),
                lines == line_mask(self.controls@, key, i as int),
            decreases 8 - i,
        {
            proof {
                assert(mask | 0u8 == mask && lines | 0u8 == lines) by (bit_vector);
            }
            if self.controls[i as usize] == key {
                mask = mask | (1u8 << i);
                lines = lines | (1u8 << (i % 4));
            }
            i += 1;
        }
        self.mem.write_keys(mask, pressed);
        let new_state = self.mem.rb(0xFF00);
        if !new_state & old_state & lines != 0 {
            self.interrupts.request_interrupt(&mut self.mem, JOYPAD);
        }
        if pressed && mask != 0 {
            self.stopped = false;
        }
    }

    /// Loads a save image into the cartridge; a wrong length is refused and leaves the
    /// cartridge RAM zeroed.
    pub fn load_ram(&mut self, data: &Vec<u8>) -> (r: Result<(), SaveError>)
        requires
            old(self).wf(),
        ensures
            final(self).wf(),
            r is Ok <==> data@.len() == save_len(old(self).mem@.cart),
            r is Ok ==> save_image(final(self).mem@.cart) == data@,
            r is Err ==> ram_of(final(self).mem@.cart) == zero_seq(ram_of(old(self).mem@.cart).len()),
            final(self).mem@ == (MemView { cart: final(self).mem@.cart, ..old(self).mem@ }),
            final(self).regs@ == old(self).regs@,
            final(self).frame(old(self)),
    {
        self.mem.load_ram(data)
    }

    /// The save image of the cartridge: its RAM, and for an MBC3 the clock after it.
    pub fn save_ram(&self) -> (r: Vec<u8>)
        requires
            self.wf(),
        ensures
            r@ == save_image(self.mem@.cart),
            r@.len() == save_len(self.mem@.cart),
    {
        self.mem.save_ram()
    }
}

} // verus!
