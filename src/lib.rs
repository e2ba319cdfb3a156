//! Core of an 8-bit console: a 6502-family instruction interpreter and the
//! memory-mapped bus that connects it to work RAM, the picture unit's
//! register file and cartridge program storage.

pub mod bus;
pub mod console;
pub mod cpu;
pub mod error;
pub mod flags;
pub mod laws;
pub mod memory;
pub mod opcode;
pub mod ppu;
pub mod registers;
pub mod rom;
pub mod semantics;
pub mod stackptr;

pub use bus::Bus;
pub use console::Console;
pub use cpu::CPU;
pub use error::EmuError;
pub use flags::CpuFlags;
pub use memory::Memory;
pub use opcode::{AddressingMode, Mnemonic, OpCode};
pub use ppu::Ppu;
pub use registers::{AddressRegister, ControlRegister, MaskRegister, ScrollRegister, StatusRegister};
pub use rom::{Mirroring, Rom};
pub use stackptr::StackPtr;
