//! Sizes named by the cartridge header's ROM-size (0x148) and RAM-size (0x149) codes.
use vstd::prelude::*;

verus! {

/// ROM size in KiB: 32KiB doubled once for each step of the code, codes 0 to 7.
pub open spec fn rom_size_kib(code: u8) -> Option<usize> {
    if code <= 7 {
        Some(vstd::arithmetic::power2::pow2((code + 5) as nat) as usize)
    } else {
        None
    }
}

/// RAM size in KiB.
pub open spec fn ram_size_kib(code: u8) -> Option<usize> {
    if code == 0 {
        Some(0)
    } else if code == 1 {
        Some(2)
    } else if code == 2 {
        Some(8)
    } else if code == 3 {
        Some(32)
    } else if code == 4 {
        Some(128)
    } else if code == 5 {
        Some(64)
    } else {
        None
    }
}

pub fn get_rom_size(code: u8) -> (r: Option<usize>)
    ensures
        r == rom_size_kib(code),
{
    if code > 7 {
        return None;
    }
    let mut size: usize = 32;
    let mut i: u8 = 0;
    proof {
        vstd::arithmetic::power2::lemma2_to64();
    }
    while i < code
        invariant
            i <= code <= 7,
            size as nat == vstd::arithmetic::power2::pow2((i + 5) as nat),
        decreases code - i,
    {
        proof {
            vstd::arithmetic::power2::lemma2_to64();
            vstd::arithmetic::power2::lemma_pow2_unfold((i + 6) as nat);
        }
        size = size * 2;
        i = i + 1;
    }
    Some(size)
}

pub fn get_ram_size(code: u8) -> (r: Option<usize>)
    ensures
        r == ram_size_kib(code),
{
    match code {
        0 => Some(0),
        1 => Some(2),
        2 => Some(8),
        3 => Some(32),
        4 => Some(128),
        5 => Some(64),
        _ => None,
    }
}

} // verus!
