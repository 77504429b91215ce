//! MBC2: a 4-bit ROM bank register and 512 half-bytes of RAM built into the controller.
use vstd::prelude::*;
use crate::bytes::{zeros, load_prefix, overlay, min_len, zero_seq, copy_bytes};
use crate::mbc::{UNMAPPED, RAM_DISABLED, SaveError};

verus! {

pub const MBC2_ROM_SIZE: usize = 0x40000;
/// 512 half-bytes: the byte at `i` holds the nibble of 0xA000+i low and of 0xA100+i high.
pub const MBC2_RAM_SIZE: usize = 0x100;

pub struct Mbc2View {
    pub rom: Seq<u8>,
    pub ram: Seq<u8>,
    pub rom_bank: u8,
    pub using_ram: bool,
}

/// Bit 8 of the address: set in the upper half of each 512-byte block.
pub open spec fn address_bit8(address: usize) -> bool {
    (address / 256) % 2 == 1
}

impl Mbc2View {
    pub open spec fn wf(self) -> bool {
        &&& self.rom.len() == MBC2_ROM_SIZE
        &&& self.ram.len() == MBC2_RAM_SIZE
        &&& 1 <= self.rom_bank < 16
    }

    /// The nibble in the low four bits, the upper four bits set.
    pub open spec fn read(self, address: usize) -> u8 {
        if address < 0x4000 {
            self.rom[address as int]
        } else if address < 0x8000 {
            self.rom[self.rom_bank as int * 0x4000 + (address - 0x4000)]
        } else if 0xA000 <= address < 0xA200 {
            if self.using_ram {
                let byte = self.ram[(address % 0x100) as int];
                if address >= 0xA100 {
                    (0xF0 + byte / 16) as u8
                } else {
                    (0xF0 + byte % 16) as u8
                }
            } else {
                RAM_DISABLED
            }
        } else {
            UNMAPPED
        }
    }

    pub open spec fn write(self, address: usize, val: u8) -> Mbc2View {
        if address < 0x2000 {
            if !address_bit8(address) {
                Mbc2View { using_ram: val % 16 == 0xA, ..self }
            } else {
                self
            }
        } else if address < 0x4000 {
            if address_bit8(address) {
                Mbc2View {
                    rom_bank: if val % 16 == 0 {
                        1
                    } else {
                        val % 16
                    },
                    ..self
                }
            } else {
                self
            }
        } else if 0xA000 <= address < 0xA200 && self.using_ram {
            let i = (address % 0x100) as int;
            let byte = self.ram[i];
            let new_byte = if address >= 0xA100 {
                ((val % 16) * 16 + byte % 16) as u8
            } else {
                ((byte / 16) * 16 + val % 16) as u8
            };
            Mbc2View { ram: self.ram.update(i, new_byte), ..self }
        } else {
            self
        }
    }
}

pub struct Mbc2 {
    rom: Vec<u8>,
    ram: Vec<u8>,
    rom_bank: u8,
    using_ram: bool,
}

impl View for Mbc2 {
    type V = Mbc2View;

    closed spec fn view(&self) -> Mbc2View {
        Mbc2View { rom: self.rom@, ram: self.ram@, rom_bank: self.rom_bank, using_ram: self.using_ram }
    }
}

impl Mbc2 {
    pub fn new() -> (r: Mbc2)
        ensures
            r@ == (Mbc2View {
                rom: zero_seq(MBC2_ROM_SIZE as nat),
                ram: zero_seq(MBC2_RAM_SIZE as nat),
                rom_bank: 1,
                using_ram: false,
            }),
            r@.wf(),
    {
        Mbc2 { rom: zeros(MBC2_ROM_SIZE), ram: zeros(MBC2_RAM_SIZE), rom_bank: 1, using_ram: false }
    }

    pub fn rb(&self, address: usize) -> (r: u8)
        requires
            self@.wf(),
        ensures
            r == self@.read(address),
    {
        if address < 0x4000 {
            self.rom[address]
        } else if address < 0x8000 {
            self.rom[self.rom_bank as usize * 0x4000 + (address - 0x4000)]
        } else if 0xA000 <= address && address < 0xA200 {
            if self.using_ram {
                let byte = self.ram[address % 0x100];
                if address >= 0xA100 {
                    0xF0 + byte / 16
                } else {
                    0xF0 + byte % 16
                }
            } else {
                RAM_DISABLED
            }
        } else {
            UNMAPPED
        }
    }

    pub fn wb(&mut self, address: usize, val: u8)
        requires
            old(self)@.wf(),
        ensures
            final(self)@ == old(self)@.write(address, val),
            final(self)@.wf(),
    {
        if address < 0x2000 {
            if (address / 256) % 2 == 0 {
                self.using_ram = val % 16 == 0xA;
            }
        } else if address < 0x4000 {
            if (address / 256) % 2 == 1 {
                self.rom_bank = if val % 16 == 0 {
                    1
                } else {
                    val % 16
                };
            }
        } else if 0xA000 <= address && address < 0xA200 && self.using_ram {
            let i = address % 0x100;
            let byte = self.ram[i];
            let new_byte = if address >= 0xA100 {
                (val % 16) * 16 + byte % 16
            } else {
                (byte / 16) * 16 + val % 16
            };
            self.ram.set(i, new_byte);
        }
    }

    pub fn load_rom(&mut self, data: &Vec<u8>) -> (n: usize)
        requires
            old(self)@.wf(),
        ensures
            final(self)@ == (Mbc2View { rom: overlay(old(self)@.rom, data@), ..old(self)@ }),
            final(self)@.wf(),
            n == min_len(MBC2_ROM_SIZE as nat, data@.len()),
    {
        load_prefix(&mut self.rom, data)
    }

    pub fn load_ram(&mut self, data: &Vec<u8>) -> (r: Result<(), SaveError>)
        requires
            old(self)@.wf(),
        ensures
            final(self)@.wf(),
            r is Ok <==> data@.len() == MBC2_RAM_SIZE,
            r is Ok ==> final(self)@ == (Mbc2View { ram: data@, ..old(self)@ }),
            r is Err ==> final(self)@ == (Mbc2View { ram: zero_seq(MBC2_RAM_SIZE as nat), ..old(self)@ }),
            r is Err ==> r == Err::<(), SaveError>(SaveError::WrongLength { expected: MBC2_RAM_SIZE, found: data@.len() as usize }),
    {
        if data.len() == MBC2_RAM_SIZE {
            self.ram = copy_bytes(data);
            Ok(())
        } else {
            self.ram = zeros(MBC2_RAM_SIZE);
            Err(SaveError::WrongLength { expected: MBC2_RAM_SIZE, found: data.len() })
        }
    }

    pub fn save_ram(&self) -> (r: Vec<u8>)
        ensures
            r@ == self@.ram,
    {
        copy_bytes(&self.ram)
    }
}

} // verus!
