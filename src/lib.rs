//! A Game Boy / Game Boy Color core: the LR35902 instruction set with exact flag and
//! cycle semantics, the banked memory bus with its cartridge controllers (ROM only,
//! MBC1, MBC2, MBC3 with clock, MBC5), the timers, the interrupt controller, and the
//! picture unit's line timing and drawing. Each part states its behavior as a model
//! over which its code is proved.
pub mod alu;
pub mod bytes;
pub mod cartridge;
pub mod cb_instructions;
pub mod cpu;
pub mod emulator;
pub mod gpu;
pub mod instructions;
pub mod interrupts;
pub mod mbc;
pub mod mbc1;
pub mod mbc2;
pub mod mbc3;
pub mod mbc5;
pub mod memory;
pub mod opcodes;
pub mod programstate;
pub mod registers;
pub mod rom_info;
pub mod timers;
pub mod utils;
