//! MBC1: a 5-bit ROM bank register, a 2-bit register that extends the ROM bank or selects
//! the RAM bank depending on a mode latch, and a RAM enable.
use vstd::prelude::*;
use crate::bytes::{zeros, load_prefix, overlay, min_len, zero_seq, copy_bytes};
use crate::mbc::{UNMAPPED, RAM_DISABLED, SaveError};

verus! {

pub const MBC1_ROM_SIZE: usize = 0x200000;
pub const MBC1_RAM_SIZE: usize = 0x8000;

pub struct Mbc1View {
    pub rom: Seq<u8>,
    pub ram: Seq<u8>,
    pub rom_bank: u8,
    pub ram_bank: u8,
    pub using_ram: bool,
    /// false: the 2-bit register extends the ROM bank; true: it selects the RAM bank.
    pub mode: bool,
}

/// A write of zero to the ROM bank register selects bank 1.
pub open spec fn mbc1_low_bank(val: u8) -> u8 {
    if val % 32 == 0 {
        1
    } else {
        val % 32
    }
}

impl Mbc1View {
    pub open spec fn wf(self) -> bool {
        &&& self.rom.len() == MBC1_ROM_SIZE
        &&& self.ram.len() == MBC1_RAM_SIZE
        &&& self.rom_bank < 128
        &&& self.rom_bank % 32 != 0
        &&& self.ram_bank < 4
    }

    pub open spec fn ram_index(self, address: usize) -> int {
        self.ram_bank as int * 0x2000 + (address % 0x2000) as int
    }

    pub open spec fn read(self, address: usize) -> u8 {
        if address < 0x4000 {
            self.rom[address as int]
        } else if address < 0x8000 {
            self.rom[self.rom_bank as int * 0x4000 + (address - 0x4000)]
        } else if 0xA000 <= address < 0xC000 {
            if self.using_ram {
                self.ram[self.ram_index(address)]
            } else {
                RAM_DISABLED
            }
        } else {
            UNMAPPED
        }
    }

    pub open spec fn write(self, address: usize, val: u8) -> Mbc1View {
        if address < 0x2000 {
            Mbc1View { using_ram: val % 16 == 0xA, ..self }
        } else if address < 0x4000 {
            Mbc1View { rom_bank: ((self.rom_bank / 32) * 32 + mbc1_low_bank(val)) as u8, ..self }
        } else if address < 0x6000 {
            if self.mode {
                Mbc1View { ram_bank: val % 4, ..self }
            } else {
                Mbc1View { rom_bank: ((val % 4) * 32 + self.rom_bank % 32) as u8, ..self }
            }
        } else if address < 0x8000 {
            if val % 2 == 1 {
                Mbc1View { mode: true, rom_bank: self.rom_bank % 32, ..self }
            } else {
                Mbc1View { mode: false, ram_bank: 0, ..self }
            }
        } else if 0xA000 <= address < 0xC000 && self.using_ram {
            Mbc1View { ram: self.ram.update(self.ram_index(address), val), ..self }
        } else {
            self
        }
    }
}

pub struct Mbc1 {
    rom: Vec<u8>,
    ram: Vec<u8>,
    rom_bank: u8,
    ram_bank: u8,
    using_ram: bool,
    mode: bool,
}

impl View for Mbc1 {
    type V = Mbc1View;

    closed spec fn view(&self) -> Mbc1View {
        Mbc1View {
            rom: self.rom@,
            ram: self.ram@,
            rom_bank: self.rom_bank,
            ram_bank: self.ram_bank,
            using_ram: self.using_ram,
            mode: self.mode,
        }
    }
}

impl Mbc1 {
    pub fn new() -> (r: Mbc1)
        ensures
            r@ == (Mbc1View {
                rom: zero_seq(MBC1_ROM_SIZE as nat),
                ram: zero_seq(MBC1_RAM_SIZE as nat),
                rom_bank: 1,
                ram_bank: 0,
                using_ram: false,
                mode: false,
            }),
            r@.wf(),
    {
        Mbc1 {
            rom: zeros(MBC1_ROM_SIZE),
            ram: zeros(MBC1_RAM_SIZE),
            rom_bank: 1,
            ram_bank: 0,
            using_ram: false,
            mode: false,
        }
    }

    pub fn rb(&self, address: usize) -> (r: u8)
        requires
            self@.wf(),
        ensures
            r == self@.read(address),
    {
        if address < 0x4000 {
            self.rom[address]
        } else if address < 0x8000 {
            self.rom[self.rom_bank as usize * 0x4000 + (address - 0x4000)]
        } else if 0xA000 <= address && address < 0xC000 {
            if self.using_ram {
                self.ram[self.ram_bank as usize * 0x2000 + address % 0x2000]
            } else {
                RAM_DISABLED
            }
        } else {
            UNMAPPED
        }
    }

    pub fn wb(&mut self, address: usize, val: u8)
        requires
            old(self)@.wf(),
        ensures
            final(self)@ == old(self)@.write(address, val),
            final(self)@.wf(),
    {
        if address < 0x2000 {
            self.using_ram = val % 16 == 0xA;
        } else if address < 0x4000 {
            let low = if val % 32 == 0 {
                1
            } else {
                val % 32
            };
            self.rom_bank = (self.rom_bank / 32) * 32 + low;
        } else if address < 0x6000 {
            if self.mode {
                self.ram_bank = val % 4;
            } else {
                self.rom_bank = (val % 4) * 32 + self.rom_bank % 32;
            }
        } else if address < 0x8000 {
            if val % 2 == 1 {
                self.mode = true;
                self.rom_bank = self.rom_bank % 32;
            } else {
                self.mode = false;
                self.ram_bank = 0;
            }
        } else if 0xA000 <= address && address < 0xC000 && self.using_ram {
            let i = self.ram_bank as usize * 0x2000 + address % 0x2000;
            self.ram.set(i, val);
        }
    }

    pub fn load_rom(&mut self, data: &Vec<u8>) -> (n: usize)
        requires
            old(self)@.wf(),
        ensures
            final(self)@ == (Mbc1View { rom: overlay(old(self)@.rom, data@), ..old(self)@ }),
            final(self)@.wf(),
            n == min_len(MBC1_ROM_SIZE as nat, data@.len()),
    {
        load_prefix(&mut self.rom, data)
    }

    /// Takes a save image of exactly the RAM's size; any other length is refused and
    /// leaves the RAM zeroed.
    pub fn load_ram(&mut self, data: &Vec<u8>) -> (r: Result<(), SaveError>)
        requires
            old(self)@.wf(),
        ensures
            final(self)@.wf(),
            r is Ok <==> data@.len() == MBC1_RAM_SIZE,
            r is Ok ==> final(self)@ == (Mbc1View { ram: data@, ..old(self)@ }),
            r is Err ==> final(self)@ == (Mbc1View { ram: zero_seq(MBC1_RAM_SIZE as nat), ..old(self)@ }),
            r is Err ==> r == Err::<(), SaveError>(SaveError::WrongLength { expected: MBC1_RAM_SIZE, found: data@.len() as usize }),
    {
        if data.len() == MBC1_RAM_SIZE {
            self.ram = copy_bytes(data);
            Ok(())
        } else {
            self.ram = zeros(MBC1_RAM_SIZE);
            Err(SaveError::WrongLength { expected: MBC1_RAM_SIZE, found: data.len() })
        }
    }

    pub fn save_ram(&self) -> (r: Vec<u8>)
        ensures
            r@ == self@.ram,
    {
        copy_bytes(&self.ram)
    }
}

/// A write of zero to the ROM bank register behaves as a write of one, and RAM, once
/// enabled, reads back what was written.
pub proof fn lemma_mbc1_bank_zero_and_ram(s: Mbc1View, v: u8, address: usize)
    requires
        s.wf(),
        0x2000 <= address < 0x4000,
    ensures
        s.write(address, 0) == s.write(address, 1),
        s.write(address, 0).read(0x4000) == s.write(address, 1).read(0x4000),
        s.write(0x0000, 0x0A).write(0xA000, v).read(0xA000) == v,
        s.using_ram ==> s.write(0xA000, v).read(0xA000) == v,
{
}

} // verus!
