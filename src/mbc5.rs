//! MBC5: a 9-bit ROM bank written through two ports, and a 4-bit RAM bank.
use vstd::prelude::*;
use crate::bytes::{zeros, load_prefix, overlay, min_len, zero_seq, copy_bytes};
use crate::mbc::{UNMAPPED, RAM_DISABLED, SaveError};

verus! {

pub const MBC5_ROM_SIZE: usize = 0x800000;
pub const MBC5_RAM_SIZE: usize = 0x20000;

pub struct Mbc5View {
    pub rom: Seq<u8>,
    pub ram: Seq<u8>,
    pub rom_bank: u16,
    pub ram_bank: u8,
    pub using_ram: bool,
}

impl Mbc5View {
    pub open spec fn wf(self) -> bool {
        &&& self.rom.len() == MBC5_ROM_SIZE
        &&& self.ram.len() == MBC5_RAM_SIZE
        &&& self.rom_bank < 512
        &&& self.ram_bank < 16
    }

    pub open spec fn ram_index(self, address: usize) -> int {
        self.ram_bank as int * 0x2000 + (address % 0x2000) as int
    }

    pub open spec fn read(self, address: usize) -> u8 {
        if address < 0x4000 {
            self.rom[address as int]
        } else if address < 0x8000 {
            self.rom[self.rom_bank as int * 0x4000 + (address - 0x4000)]
        } else if 0xA000 <= address < 0xC000 {
            if self.using_ram {
                self.ram[self.ram_index(address)]
            } else {
                RAM_DISABLED
            }
        } else {
            UNMAPPED
        }
    }

    pub open spec fn write(self, address: usize, val: u8) -> Mbc5View {
        if address < 0x2000 {
            Mbc5View { using_ram: val % 16 == 0xA, ..self }
        } else if address < 0x3000 {
            Mbc5View { rom_bank: ((self.rom_bank / 256) * 256 + val as u16) as u16, ..self }
        } else if address < 0x4000 {
            Mbc5View { rom_bank: ((val % 2) as u16 * 256 + self.rom_bank % 256) as u16, ..self }
        } else if address < 0x6000 {
            Mbc5View { ram_bank: val % 16, ..self }
        } else if 0xA000 <= address < 0xC000 && self.using_ram {
            Mbc5View { ram: self.ram.update(self.ram_index(address), val), ..self }
        } else {
            self
        }
    }
}

pub struct Mbc5 {
    rom: Vec<u8>,
    ram: Vec<u8>,
    rom_bank: u16,
    ram_bank: u8,
    using_ram: bool,
}

impl View for Mbc5 {
    type V = Mbc5View;

    closed spec fn view(&self) -> Mbc5View {
        Mbc5View {
            rom: self.rom@,
            ram: self.ram@,
            rom_bank: self.rom_bank,
            ram_bank: self.ram_bank,
            using_ram: self.using_ram,
        }
    }
}

impl Mbc5 {
    pub fn new() -> (r: Mbc5)
        ensures
            r@ == (Mbc5View {
                rom: zero_seq(MBC5_ROM_SIZE as nat),
                ram: zero_seq(MBC5_RAM_SIZE as nat),
                rom_bank: 0,
                ram_bank: 0,
                using_ram: false,
            }),
            r@.wf(),
    {
        Mbc5 {
            rom: zeros(MBC5_ROM_SIZE),
            ram: zeros(MBC5_RAM_SIZE),
            rom_bank: 0,
            ram_bank: 0,
            using_ram: false,
        }
    }

    pub fn rb(&self, address: usize) -> (r: u8)
        requires
            self@.wf(),
        ensures
            r == self@.read(address),
    {
        if address < 0x4000 {
            self.rom[address]
        } else if address < 0x8000 {
            self.rom[self.rom_bank as usize * 0x4000 + (address - 0x4000)]
        } else if 0xA000 <= address && address < 0xC000 {
            if self.using_ram {
                self.ram[self.ram_bank as usize * 0x2000 + address % 0x2000]
            } else {
                RAM_DISABLED
            }
        } else {
            UNMAPPED
        }
    }

    pub fn wb(&mut self, address: usize, val: u8)
        requires
            old(self)@.wf(),
        ensures
            final(self)@ == old(self)@.write(address, val),
            final(self)@.wf(),
    {
        if address < 0x2000 {
            self.using_ram = val % 16 == 0xA;
        } else if address < 0x3000 {
            self.rom_bank = (self.rom_bank / 256) * 256 + val as u16;
        } else if address < 0x4000 {
            self.rom_bank = (val % 2) as u16 * 256 + self.rom_bank % 256;
        } else if address < 0x6000 {
            self.ram_bank = val % 16;
        } else if 0xA000 <= address && address < 0xC000 && self.using_ram {
            let i = self.ram_bank as usize * 0x2000 + address % 0x2000;
            self.ram.set(i, val);
        }
    }

    pub fn load_rom(&mut self, data: &Vec<u8>) -> (n: usize)
        requires
            old(self)@.wf(),
        ensures
            final(self)@ == (Mbc5View { rom: overlay(old(self)@.rom, data@), ..old(self)@ }),
            final(self)@.wf(),
            n == min_len(MBC5_ROM_SIZE as nat, data@.len()),
    {
        load_prefix(&mut self.rom, data)
    }

    pub fn load_sav(&mut self, data: &Vec<u8>) -> (r: Result<(), SaveError>)
        requires
            old(self)@.wf(),
        ensures
            final(self)@.wf(),
            r is Ok <==> data@.len() == MBC5_RAM_SIZE,
            r is Ok ==> final(self)@ == (Mbc5View { ram: data@, ..old(self)@ }),
            r is Err ==> final(self)@ == (Mbc5View { ram: zero_seq(MBC5_RAM_SIZE as nat), ..old(self)@ }),
            r is Err ==> r == Err::<(), SaveError>(SaveError::WrongLength { expected: MBC5_RAM_SIZE, found: data@.len() as usize }),
    {
        if data.len() == MBC5_RAM_SIZE {
            self.ram = copy_bytes(data);
            Ok(())
        } else {
            self.ram = zeros(MBC5_RAM_SIZE);
            Err(SaveError::WrongLength { expected: MBC5_RAM_SIZE, found: data.len() })
        }
    }

    pub fn save_game(&self) -> (r: Vec<u8>)
        ensures
            r@ == self@.ram,
    {
        copy_bytes(&self.ram)
    }
}

} // verus!
