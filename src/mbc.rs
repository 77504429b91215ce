//! The cartridge controller: the kind named by the header, and the variant that
//! serves reads and writes of the cartridge's address ranges.
use vstd::prelude::*;
use crate::cartridge::{Cartridge, RomOnlyView};
use crate::mbc1::{Mbc1, Mbc1View};
use crate::mbc2::{Mbc2, Mbc2View};
use crate::mbc3::{Mbc3, Mbc3View};
use crate::mbc5::{Mbc5, Mbc5View};

verus! {

/// What a read returns where the cartridge maps nothing.
pub const UNMAPPED: u8 = 0xFF;

/// What a read of cartridge RAM returns while the RAM is disabled.
pub const RAM_DISABLED: u8 = 0x00;

#[derive(Debug, PartialEq, Eq, Clone, Copy)]
pub enum SaveError {
    /// A save image whose length does not fit the cartridge.
    WrongLength { expected: usize, found: usize },
}

#[allow(non_camel_case_types)]
#[derive(Debug, Clone, Copy, PartialEq, Eq, Structural)]
pub enum CartridgeType {
    ROM_ONLY,
    MBC1,
    MBC2,
    ROM_RAM,
    ROM_RAM_BATTERY,
    MMM01,
    MMM01_RAM,
    MMM01_RAM_BATTERY,
    MBC3,
    MBC4,
    MBC5,
    MBC6,
    MBC7_SENSOR_RUMBLE_RAM_BATTERY,
    POCKET_CAMERA,
    BANDAI_TAMA5,
    HUC3,
    HUC1_RAM_BATTERY,
}

/// The controller kind that the header byte at 0x147 names, among those emulated.
pub open spec fn cartridge_kind(code: u8) -> Option<CartridgeType> {
    if code == 0 {
        Some(CartridgeType::ROM_ONLY)
    } else if 1 <= code <= 3 {
        Some(CartridgeType::MBC1)
    } else if code == 5 || code == 6 {
        Some(CartridgeType::MBC2)
    } else if 0x0F <= code <= 0x13 {
        Some(CartridgeType::MBC3)
    } else if 0x19 <= code <= 0x1E {
        Some(CartridgeType::MBC5)
    } else {
        None
    }
}

impl CartridgeType {
    pub fn from_code(code: u8) -> (r: Option<CartridgeType>)
        ensures
            r == cartridge_kind(code),
    {
        if code == 0 {
            Some(CartridgeType::ROM_ONLY)
        } else if 1 <= code && code <= 3 {
            Some(CartridgeType::MBC1)
        } else if code == 5 || code == 6 {
            Some(CartridgeType::MBC2)
        } else if 0x0F <= code && code <= 0x13 {
            Some(CartridgeType::MBC3)
        } else if 0x19 <= code && code <= 0x1E {
            Some(CartridgeType::MBC5)
        } else {
            None
        }
    }
}

pub enum CartView {
    Empty,
    RomOnly(RomOnlyView),
    Mbc1(Mbc1View),
    Mbc2(Mbc2View),
    Mbc3(Mbc3View),
    Mbc5(Mbc5View),
}

impl CartView {
    pub open spec fn wf(self) -> bool {
        match self {
            CartView::Empty => true,
            CartView::RomOnly(c) => c.wf(),
            CartView::Mbc1(c) => c.wf(),
            CartView::Mbc2(c) => c.wf(),
            CartView::Mbc3(c) => c.wf(),
            CartView::Mbc5(c) => c.wf(),
        }
    }

    /// With no cartridge inserted every read returns `UNMAPPED`.
    pub open spec fn read(self, address: usize) -> u8 {
        match self {
            CartView::Empty => UNMAPPED,
            CartView::RomOnly(c) => c.read(address),
            CartView::Mbc1(c) => c.read(address),
            CartView::Mbc2(c) => c.read(address),
            CartView::Mbc3(c) => c.read(address),
            CartView::Mbc5(c) => c.read(address),
        }
    }

    pub open spec fn write(self, address: usize, val: u8) -> CartView {
        match self {
            CartView::Empty => CartView::Empty,
            CartView::RomOnly(c) => CartView::RomOnly(c.write(address, val)),
            CartView::Mbc1(c) => CartView::Mbc1(c.write(address, val)),
            CartView::Mbc2(c) => CartView::Mbc2(c.write(address, val)),
            CartView::Mbc3(c) => CartView::Mbc3(c.write(address, val)),
            CartView::Mbc5(c) => CartView::Mbc5(c.write(address, val)),
        }
    }

    /// Only the MBC3's clock moves with time.
    pub open spec fn step(self, cycles: u16) -> CartView {
        match self {
            CartView::Mbc3(c) => CartView::Mbc3(c.step(cycles)),
            _ => self,
        }
    }
}

#[allow(non_camel_case_types)]
pub enum Mbc {
    EMPTY,
    NONE(Cartridge),
    MBC1(Mbc1),
    MBC2(Mbc2),
    MBC3(Mbc3),
    MBC5(Mbc5),
}

impl View for Mbc {
    type V = CartView;

    open spec fn view(&self) -> CartView {
        match self {
            Mbc::EMPTY => CartView::Empty,
            Mbc::NONE(c) => CartView::RomOnly(c@),
            Mbc::MBC1(c) => CartView::Mbc1(c@),
            Mbc::MBC2(c) => CartView::Mbc2(c@),
            Mbc::MBC3(c) => CartView::Mbc3(c@),
            Mbc::MBC5(c) => CartView::Mbc5(c@),
        }
    }
}

impl Mbc {
    /// A fresh controller of the given kind, or `None` for a kind that is not emulated.
    pub fn new(cartridge_type: CartridgeType) -> (r: Option<Mbc>)
        ensures
            r is Some <==> (cartridge_type == CartridgeType::ROM_ONLY || cartridge_type
                == CartridgeType::MBC1 || cartridge_type == CartridgeType::MBC2 || cartridge_type
                == CartridgeType::MBC3 || cartridge_type == CartridgeType::MBC5),
            r is Some ==> r->Some_0@.wf(),
            r is Some ==> kind_of(r->Some_0@) == Some(cartridge_type),
            r is Some ==> rom_of(r->Some_0@) == crate::bytes::zero_seq(rom_of(r->Some_0@).len()),
            cartridge_type == CartridgeType::ROM_ONLY ==> r matches Some(Mbc::NONE(_)),
            cartridge_type == CartridgeType::MBC1 ==> r matches Some(Mbc::MBC1(_)),
            cartridge_type == CartridgeType::MBC2 ==> r matches Some(Mbc::MBC2(_)),
            cartridge_type == CartridgeType::MBC3 ==> r matches Some(Mbc::MBC3(_)),
            cartridge_type == CartridgeType::MBC5 ==> r matches Some(Mbc::MBC5(_)),
            cartridge_type == CartridgeType::ROM_ONLY ==> r->Some_0@ == CartView::RomOnly(Cartridge::new_spec()),
    {
        match cartridge_type {
            CartridgeType::ROM_ONLY => Some(Mbc::NONE(Cartridge::new())),
            CartridgeType::MBC1 => Some(Mbc::MBC1(Mbc1::new())),
            CartridgeType::MBC2 => Some(Mbc::MBC2(Mbc2::new())),
            CartridgeType::MBC3 => Some(Mbc::MBC3(Mbc3::new())),
            CartridgeType::MBC5 => Some(Mbc::MBC5(Mbc5::new())),
            _ => None,
        }
    }

    pub fn rb(&self, address: usize) -> (r: u8)
        requires
            self@.wf(),
        ensures
            r == self@.read(address),
    {
        match self {
            Mbc::EMPTY => UNMAPPED,
            Mbc::NONE(cart) => cart.rb(address),
            Mbc::MBC1(cart) => cart.rb(address),
            Mbc::MBC2(cart) => cart.rb(address),
            Mbc::MBC3(cart) => cart.rb(address),
            Mbc::MBC5(cart) => cart.rb(address),
        }
    }

    pub fn wb(&mut self, address: usize, val: u8)
        requires
            old(self)@.wf(),
        ensures
            final(self)@ == old(self)@.write(address, val),
            final(self)@.wf(),
    {
        match self {
            Mbc::EMPTY => {},
            Mbc::NONE(cart) => cart.wb(address, val),
            Mbc::MBC1(cart) => cart.wb(address, val),
            Mbc::MBC2(cart) => cart.wb(address, val),
            Mbc::MBC3(cart) => cart.wb(address, val),
            Mbc::MBC5(cart) => cart.wb(address, val),
        }
    }

    pub fn step(&mut self, cycles: u16)
        requires
            old(self)@.wf(),
        ensures
            final(self)@ == old(self)@.step(cycles),
            final(self)@.wf(),
    {
        match self {
            Mbc::MBC3(cart) => cart.step(cycles),
            _ => {},
        }
    }

    /// Loads a ROM image into the controller's ROM; returns how many bytes were taken.
    pub fn load_rom(&mut self, data: &Vec<u8>) -> (n: usize)
        requires
            old(self)@.wf(),
        ensures
            final(self)@.wf(),
            kind_of(final(self)@) == kind_of(old(self)@),
            rom_of(final(self)@) == crate::bytes::overlay(rom_of(old(self)@), data@),
            n == crate::bytes::min_len(rom_of(old(self)@).len(), data@.len()),
            old(self)@ is Empty ==> n == 0 && final(self)@ == old(self)@,
            old(self)@ is RomOnly ==> final(self)@ == CartView::RomOnly(
                RomOnlyView { rom: crate::bytes::overlay(old(self)@->RomOnly_0.rom, data@) },
            ),
            old(self)@ is Mbc1 ==> final(self)@ == CartView::Mbc1(
                Mbc1View { rom: crate::bytes::overlay(old(self)@->Mbc1_0.rom, data@), ..old(self)@->Mbc1_0 },
            ),
            old(self)@ is Mbc2 ==> final(self)@ == CartView::Mbc2(
                Mbc2View { rom: crate::bytes::overlay(old(self)@->Mbc2_0.rom, data@), ..old(self)@->Mbc2_0 },
            ),
            old(self)@ is Mbc3 ==> final(self)@ == CartView::Mbc3(
                Mbc3View { rom: crate::bytes::overlay(old(self)@->Mbc3_0.rom, data@), ..old(self)@->Mbc3_0 },
            ),
            old(self)@ is Mbc5 ==> final(self)@ == CartView::Mbc5(
                Mbc5View { rom: crate::bytes::overlay(old(self)@->Mbc5_0.rom, data@), ..old(self)@->Mbc5_0 },
            ),
    {
        match self {
            Mbc::EMPTY => 0,
            Mbc::NONE(cart) => cart.load_rom(data),
            Mbc::MBC1(cart) => cart.load_rom(data),
            Mbc::MBC2(cart) => cart.load_rom(data),
            Mbc::MBC3(cart) => cart.load_rom(data),
            Mbc::MBC5(cart) => cart.load_rom(data),
        }
    }

    /// Takes a save image; a controller without RAM takes only an empty one.
    pub fn load_ram(&mut self, data: &Vec<u8>) -> (r: Result<(), SaveError>)
        requires
            old(self)@.wf(),
        ensures
            final(self)@.wf(),
            r is Ok <==> data@.len() == save_len(old(self)@),
            r is Err ==> r == Err::<(), SaveError>(SaveError::WrongLength { expected: save_len(old(self)@) as usize, found: data@.len() as usize }),
            r is Ok ==> save_image(final(self)@) == data@,
            r is Err ==> ram_of(final(self)@) == crate::bytes::zero_seq(ram_of(old(self)@).len()),
            kind_of(final(self)@) == kind_of(old(self)@),
            rom_of(final(self)@) == rom_of(old(self)@),
    {
        match self {
            Mbc::EMPTY | Mbc::NONE(_) => {
                if data.len() == 0 {
                    Ok(())
                } else {
                    Err(SaveError::WrongLength { expected: 0, found: data.len() })
                }
            },
            Mbc::MBC1(cart) => cart.load_ram(data),
            Mbc::MBC2(cart) => cart.load_ram(data),
            Mbc::MBC3(cart) => cart.load_ram(data),
            Mbc::MBC5(cart) => cart.load_sav(data),
        }
    }

    pub fn save_ram(&self) -> (r: Vec<u8>)
        requires
            self@.wf(),
        ensures
            r@.len() == save_len(self@),
            r@ == save_image(self@),
    {
        match self {
            Mbc::EMPTY | Mbc::NONE(_) => Vec::new(),
            Mbc::MBC1(cart) => cart.save_ram(),
            Mbc::MBC2(cart) => cart.save_ram(),
            Mbc::MBC3(cart) => cart.save_ram(),
            Mbc::MBC5(cart) => cart.save_game(),
        }
    }
}

/// The ROM of a controller, where it has one.
pub open spec fn rom_of(c: CartView) -> Seq<u8> {
    match c {
        CartView::Empty => Seq::empty(),
        CartView::RomOnly(v) => v.rom,
        CartView::Mbc1(v) => v.rom,
        CartView::Mbc2(v) => v.rom,
        CartView::Mbc3(v) => v.rom,
        CartView::Mbc5(v) => v.rom,
    }
}

/// The kind of a controller; none when no cartridge is inserted.
pub open spec fn kind_of(c: CartView) -> Option<CartridgeType> {
    match c {
        CartView::Empty => None,
        CartView::RomOnly(_) => Some(CartridgeType::ROM_ONLY),
        CartView::Mbc1(_) => Some(CartridgeType::MBC1),
        CartView::Mbc2(_) => Some(CartridgeType::MBC2),
        CartView::Mbc3(_) => Some(CartridgeType::MBC3),
        CartView::Mbc5(_) => Some(CartridgeType::MBC5),
    }
}

/// The cartridge RAM; empty for a controller without any.
pub open spec fn ram_of(c: CartView) -> Seq<u8> {
    match c {
        CartView::Empty => Seq::empty(),
        CartView::RomOnly(_) => Seq::empty(),
        CartView::Mbc1(v) => v.ram,
        CartView::Mbc2(v) => v.ram,
        CartView::Mbc3(v) => v.ram,
        CartView::Mbc5(v) => v.ram,
    }
}

/// The save image: the RAM, followed by the clock registers on an MBC3.
pub open spec fn save_image(c: CartView) -> Seq<u8> {
    match c {
        CartView::Mbc3(v) => v.ram + v.rtc,
        _ => ram_of(c),
    }
}

/// The length of a save image for the controller: its RAM, plus the clock for an MBC3.
pub open spec fn save_len(c: CartView) -> nat {
    match c {
        CartView::Empty => 0,
        CartView::RomOnly(_) => 0,
        CartView::Mbc1(_) => crate::mbc1::MBC1_RAM_SIZE as nat,
        CartView::Mbc2(_) => crate::mbc2::MBC2_RAM_SIZE as nat,
        CartView::Mbc3(_) => (crate::mbc3::MBC3_RAM_SIZE + crate::mbc3::RTC_REGS) as nat,
        CartView::Mbc5(_) => crate::mbc5::MBC5_RAM_SIZE as nat,
    }
}

} // verus!
