//! Core of a cycle-driven emulator for the original monochrome DMG handheld:
//! an 8-bit CPU interpreter, a memory-management unit with echo-RAM mirroring
//! and a bank-switching cartridge controller, an interrupt controller, a
//! falling-edge timer unit, sprite attribute memory and a scanline PPU.

pub mod bits;
pub mod cpu;
pub mod debugger;
pub mod displayable;
pub mod gameboy;
pub mod gui;
pub mod instruction;
pub mod instructions;
pub mod laws;
pub mod memory;
pub mod mmu;
pub mod ppu;
pub mod registers;
pub mod ui_states;
