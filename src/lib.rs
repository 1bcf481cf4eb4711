//! Execution core of a NES console: the 6502 interpreter, the memory bus,
//! the picture unit's registers and video memory, and the iNES loader.

pub mod flag;
pub mod status;
pub mod control;
pub mod mask;
pub mod ppu_status;
pub mod scroll;
pub mod address;
pub mod addressable;
pub mod memory;
pub mod rom;
pub mod ppu_register;
pub mod ppu;
pub mod joypad;
pub mod bus;
pub mod cpu;
pub mod instructions;
pub mod opcodes;
pub mod stack;
pub mod assembler;
