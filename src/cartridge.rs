//! A cartridge with 32KB of ROM and no bank switching.
use vstd::prelude::*;
use crate::bytes::{zeros, load_prefix, overlay, min_len, zero_seq};
use crate::mbc::UNMAPPED;

verus! {

pub const ROM_ONLY_SIZE: usize = 0x8000;

pub struct RomOnlyView {
    pub rom: Seq<u8>,
}

impl RomOnlyView {
    pub open spec fn wf(self) -> bool {
        self.rom.len() == ROM_ONLY_SIZE
    }

    pub open spec fn read(self, address: usize) -> u8 {
        if address < ROM_ONLY_SIZE {
            self.rom[address as int]
        } else {
            UNMAPPED
        }
    }

    /// The ROM area takes writes as they come; anything else is ignored.
    pub open spec fn write(self, address: usize, val: u8) -> RomOnlyView {
        if address < ROM_ONLY_SIZE {
            RomOnlyView { rom: self.rom.update(address as int, val) }
        } else {
            self
        }
    }
}

pub struct Cartridge {
    rom: Vec<u8>,
}

impl View for Cartridge {
    type V = RomOnlyView;

    closed spec fn view(&self) -> RomOnlyView {
        RomOnlyView { rom: self.rom@ }
    }
}

impl Cartridge {
    pub open spec fn new_spec() -> RomOnlyView {
        RomOnlyView { rom: zero_seq(ROM_ONLY_SIZE as nat) }
    }

    pub fn new() -> (r: Cartridge)
        ensures
            r@ == Cartridge::new_spec(),
            r@.wf(),
    {
        Cartridge { rom: zeros(ROM_ONLY_SIZE) }
    }

    pub fn rb(&self, address: usize) -> (r: u8)
        requires
            self@.wf(),
        ensures
            r == self@.read(address),
    {
        if address < ROM_ONLY_SIZE {
            self.rom[address]
        } else {
            UNMAPPED
        }
    }

    pub fn wb(&mut self, address: usize, val: u8)
        requires
            old(self)@.wf(),
        ensures
            final(self)@ == old(self)@.write(address, val),
            final(self)@.wf(),
    {
        if address < ROM_ONLY_SIZE {
            self.rom.set(address, val);
        }
    }

    /// Loads a ROM image; returns how many of its bytes were taken.
    pub fn load_rom(&mut self, data: &Vec<u8>) -> (n: usize)
        requires
            old(self)@.wf(),
        ensures
            final(self)@ == (RomOnlyView { rom: overlay(old(self)@.rom, data@) }),
            final(self)@.wf(),
            n == min_len(ROM_ONLY_SIZE as nat, data@.len()),
    {
        load_prefix(&mut self.rom, data)
    }
}

} // verus!
