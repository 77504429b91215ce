//! MBC3: MBC1-like banking plus a real-time clock of five byte registers (seconds,
//! minutes, hours, day low, day high with halt and carry bits), latched on a 0 then 1
//! write to 0x6000-0x7FFF and advanced by elapsed cycles.
use vstd::prelude::*;
use crate::bytes::{zeros, load_prefix, overlay, min_len, zero_seq, copy_bytes, copy_range, append_bytes};
use crate::mbc::{UNMAPPED, RAM_DISABLED, SaveError};

verus! {

pub const MBC3_ROM_SIZE: usize = 0x200000;
pub const MBC3_RAM_SIZE: usize = 0x8000;
pub const RTC_REGS: usize = 5;
/// Cycles in one second of the clock.
pub const CYCLES_PER_SECOND: u32 = 4194304;

pub struct Mbc3View {
    pub rom: Seq<u8>,
    pub ram: Seq<u8>,
    /// The live clock registers.
    pub rtc: Seq<u8>,
    /// What the last latch copied from the live clock; reads of a clock register see this.
    pub latched: Seq<u8>,
    pub rom_bank: u8,
    pub ram_bank: u8,
    pub rtc_reg: u8,
    pub using_ram: bool,
    /// true while a clock register, not a RAM bank, is selected.
    pub mode: bool,
    /// Cycles into the current second.
    pub clock: u32,
    /// The last value written to 0x6000-0x7FFF.
    pub prev_val: u8,
}

pub open spec fn wrap_inc(v: u8) -> u8 {
    ((v as int + 1) % 256) as u8
}

/// The clock one second later: seconds, minutes and hours ripple into the 9-bit day
/// counter, whose overflow sets the carry bit (bit 7 of the day-high register).
pub open spec fn rtc_tick(r: Seq<u8>) -> Seq<u8> {
    let s = wrap_inc(r[0]);
    if s != 60 {
        r.update(0, s)
    } else {
        let m = wrap_inc(r[1]);
        if m != 60 {
            r.update(0, 0).update(1, m)
        } else {
            let h = wrap_inc(r[2]);
            if h != 24 {
                r.update(0, 0).update(1, 0).update(2, h)
            } else {
                let day = r[3] as int + (r[4] % 2) as int * 256;
                let next = if day == 0x1FF {
                    0
                } else {
                    day + 1
                };
                let high = ((r[4] / 2) * 2 + next / 256) as u8;
                let high = if day == 0x1FF {
                    high | 0x80
                } else {
                    high
                };
                r.update(0, 0).update(1, 0).update(2, 0).update(3, (next % 256) as u8).update(4, high)
            }
        }
    }
}

impl Mbc3View {
    pub open spec fn wf(self) -> bool {
        &&& self.rom.len() == MBC3_ROM_SIZE
        &&& self.ram.len() == MBC3_RAM_SIZE
        &&& self.rtc.len() == RTC_REGS
        &&& self.latched.len() == RTC_REGS
        &&& 1 <= self.rom_bank < 128
        &&& self.ram_bank < 4
        &&& self.rtc_reg < 5
        &&& self.clock < CYCLES_PER_SECOND
    }

    pub open spec fn ram_index(self, address: usize) -> int {
        self.ram_bank as int * 0x2000 + (address % 0x2000) as int
    }

    pub open spec fn halted(self) -> bool {
        self.rtc[4] & 0x40 != 0
    }

    pub open spec fn read(self, address: usize) -> u8 {
        if address < 0x4000 {
            self.rom[address as int]
        } else if address < 0x8000 {
            self.rom[self.rom_bank as int * 0x4000 + (address - 0x4000)]
        } else if 0xA000 <= address < 0xC000 {
            if !self.using_ram {
                RAM_DISABLED
            } else if self.mode {
                self.latched[self.rtc_reg as int]
            } else {
                self.ram[self.ram_index(address)]
            }
        } else {
            UNMAPPED
        }
    }

    pub open spec fn write(self, address: usize, val: u8) -> Mbc3View {
        if address < 0x2000 {
            Mbc3View { using_ram: val % 16 == 0xA, ..self }
        } else if address < 0x4000 {
            Mbc3View {
                rom_bank: if val % 128 == 0 {
                    1
                } else {
                    val % 128
                },
                ..self
            }
        } else if address < 0x6000 {
            if val < 4 {
                Mbc3View { mode: false, ram_bank: val, ..self }
            } else if 0x8 <= val < 0xD {
                Mbc3View { mode: true, rtc_reg: (val - 8) as u8, ..self }
            } else {
                self
            }
        } else if address < 0x8000 {
            if self.prev_val == 0 && val == 1 {
                Mbc3View { latched: self.rtc, prev_val: val, ..self }
            } else {
                Mbc3View { prev_val: val, ..self }
            }
        } else if 0xA000 <= address < 0xC000 && self.using_ram {
            if self.mode {
                Mbc3View {
                    rtc: self.rtc.update(self.rtc_reg as int, val),
                    latched: self.latched.update(self.rtc_reg as int, val),
                    ..self
                }
            } else {
                Mbc3View { ram: self.ram.update(self.ram_index(address), val), ..self }
            }
        } else {
            self
        }
    }

    /// The clock after `cycles` more cycles; nothing moves while the halt bit is set.
    pub open spec fn step(self, cycles: u16) -> Mbc3View {
        if self.halted() {
            self
        } else {
            let t = self.clock as int + cycles as int;
            if t >= CYCLES_PER_SECOND {
                Mbc3View { clock: (t - CYCLES_PER_SECOND) as u32, rtc: rtc_tick(self.rtc), ..self }
            } else {
                Mbc3View { clock: t as u32, ..self }
            }
        }
    }
}

pub struct Mbc3 {
    rom: Vec<u8>,
    ram: Vec<u8>,
    rtc: Vec<u8>,
    latched: Vec<u8>,
    rom_bank: u8,
    ram_bank: u8,
    rtc_reg: u8,
    using_ram: bool,
    mode: bool,
    clock: u32,
    prev_val: u8,
}

impl View for Mbc3 {
    type V = Mbc3View;

    closed spec fn view(&self) -> Mbc3View {
        Mbc3View {
            rom: self.rom@,
            ram: self.ram@,
            rtc: self.rtc@,
            latched: self.latched@,
            rom_bank: self.rom_bank,
            ram_bank: self.ram_bank,
            rtc_reg: self.rtc_reg,
            using_ram: self.using_ram,
            mode: self.mode,
            clock: self.clock,
            prev_val: self.prev_val,
        }
    }
}

impl Mbc3 {
    pub fn new() -> (r: Mbc3)
        ensures
            r@ == (Mbc3View {
                rom: zero_seq(MBC3_ROM_SIZE as nat),
                ram: zero_seq(MBC3_RAM_SIZE as nat),
                rtc: zero_seq(RTC_REGS as nat),
                latched: zero_seq(RTC_REGS as nat),
                rom_bank: 1,
                ram_bank: 0,
                rtc_reg: 0,
                using_ram: false,
                mode: false,
                clock: 0,
                prev_val: 1,
            }),
            r@.wf(),
    {
        Mbc3 {
            rom: zeros(MBC3_ROM_SIZE),
            ram: zeros(MBC3_RAM_SIZE),
            rtc: zeros(RTC_REGS),
            latched: zeros(RTC_REGS),
            rom_bank: 1,
            ram_bank: 0,
            rtc_reg: 0,
            using_ram: false,
            mode: false,
            clock: 0,
            prev_val: 1,
        }
    }

    pub fn rb(&self, address: usize) -> (r: u8)
        requires
            self@.wf(),
        ensures
            r == self@.read(address),
    {
        if address < 0x4000 {
            self.rom[address]
        } else if address < 0x8000 {
            self.rom[self.rom_bank as usize * 0x4000 + (address - 0x4000)]
        } else if 0xA000 <= address && address < 0xC000 {
            if !self.using_ram {
                RAM_DISABLED
            } else if self.mode {
                self.latched[self.rtc_reg as usize]
            } else {
                self.ram[self.ram_bank as usize * 0x2000 + address % 0x2000]
            }
        } else {
            UNMAPPED
        }
    }

    pub fn wb(&mut self, address: usize, val: u8)
        requires
            old(self)@.wf(),
        ensures
            final(self)@ == old(self)@.write(address, val),
            final(self)@.wf(),
    {
        if address < 0x2000 {
            self.using_ram = val % 16 == 0xA;
        } else if address < 0x4000 {
            self.rom_bank = if val % 128 == 0 {
                1
            } else {
                val % 128
            };
        } else if address < 0x6000 {
            if val < 4 {
                self.mode = false;
                self.ram_bank = val;
            } else if 0x8 <= val && val < 0xD {
                self.mode = true;
                self.rtc_reg = val - 8;
            }
        } else if address < 0x8000 {
            if self.prev_val == 0 && val == 1 {
                self.latched = copy_bytes(&self.rtc);
            }
            self.prev_val = val;
        } else if 0xA000 <= address && address < 0xC000 && self.using_ram {
            if self.mode {
                let r = self.rtc_reg as usize;
                self.rtc.set(r, val);
                self.latched.set(r, val);
            } else {
                let i = self.ram_bank as usize * 0x2000 + address % 0x2000;
                self.ram.set(i, val);
            }
        }
    }

    /// Advances the live clock by one second.
    fn increment_rtc(&mut self)
        requires
            old(self)@.wf(),
        ensures
            final(self)@ == (Mbc3View { rtc: rtc_tick(old(self)@.rtc), ..old(self)@ }),
    {
        let s = ((self.rtc[0] as u16 + 1) % 256) as u8;
        if s != 60 {
            self.rtc.set(0, s);
            return;
        }
        self.rtc.set(0, 0);
        let m = ((self.rtc[1] as u16 + 1) % 256) as u8;
        if m != 60 {
            self.rtc.set(1, m);
            return;
        }
        self.rtc.set(1, 0);
        let h = ((self.rtc[2] as u16 + 1) % 256) as u8;
        if h != 24 {
            self.rtc.set(2, h);
            return;
        }
        self.rtc.set(2, 0);
        let day: u16 = self.rtc[3] as u16 + (self.rtc[4] % 2) as u16 * 256;
        let next: u16 = if day == 0x1FF {
            0
        } else {
            day + 1
        };
        let mut high: u8 = (self.rtc[4] / 2) * 2 + (next / 256) as u8;
        if day == 0x1FF {
            high = high | 0x80;
        }
        self.rtc.set(3, (next % 256) as u8);
        self.rtc.set(4, high);
        proof {
            assert(self.rtc@ =~= rtc_tick(old(self)@.rtc));
        }
    }

    pub fn step(&mut self, cycles: u16)
        requires
            old(self)@.wf(),
        ensures
            final(self)@ == old(self)@.step(cycles),
            final(self)@.wf(),
    {
        if self.rtc[4] & 0x40 != 0 {
            return;
        }
        let t: u32 = self.clock + cycles as u32;
        if t >= CYCLES_PER_SECOND {
            self.clock = t - CYCLES_PER_SECOND;
            self.increment_rtc();
        } else {
            self.clock = t;
        }
    }

    pub fn load_rom(&mut self, data: &Vec<u8>) -> (n: usize)
        requires
            old(self)@.wf(),
        ensures
            final(self)@ == (Mbc3View { rom: overlay(old(self)@.rom, data@), ..old(self)@ }),
            final(self)@.wf(),
            n == min_len(MBC3_ROM_SIZE as nat, data@.len()),
    {
        load_prefix(&mut self.rom, data)
    }

    /// A save image is the RAM followed by the five clock registers.
    pub fn load_ram(&mut self, data: &Vec<u8>) -> (r: Result<(), SaveError>)
        requires
            old(self)@.wf(),
        ensures
            final(self)@.wf(),
            r is Ok <==> data@.len() == MBC3_RAM_SIZE + RTC_REGS,
            r is Ok ==> final(self)@ == (Mbc3View {
                ram: data@.subrange(0, MBC3_RAM_SIZE as int),
                rtc: data@.subrange(MBC3_RAM_SIZE as int, MBC3_RAM_SIZE + RTC_REGS),
                latched: data@.subrange(MBC3_RAM_SIZE as int, MBC3_RAM_SIZE + RTC_REGS),
                ..old(self)@
            }),
            r is Err ==> final(self)@ == (Mbc3View { ram: zero_seq(MBC3_RAM_SIZE as nat), ..old(self)@ }),
            r is Err ==> r == Err::<(), SaveError>(SaveError::WrongLength { expected: (MBC3_RAM_SIZE + RTC_REGS) as usize, found: data@.len() as usize }),
    {
        if data.len() == MBC3_RAM_SIZE + RTC_REGS {
            self.ram = copy_range(data, 0, MBC3_RAM_SIZE);
            self.rtc = copy_range(data, MBC3_RAM_SIZE, RTC_REGS);
            self.latched = copy_range(data, MBC3_RAM_SIZE, RTC_REGS);
            Ok(())
        } else {
            self.ram = zeros(MBC3_RAM_SIZE);
            Err(SaveError::WrongLength { expected: MBC3_RAM_SIZE + RTC_REGS, found: data.len() })
        }
    }

    pub fn save_ram(&self) -> (r: Vec<u8>)
        ensures
            r@ == self@.ram + self@.rtc,
    {
        let mut out = copy_bytes(&self.ram);
        append_bytes(&mut out, &self.rtc);
        out
    }
}

} // verus!
