//! Conditions that end an emulation session.
use vstd::prelude::*;

verus! {

#[derive(Clone, Copy, Debug, PartialEq, Eq, Structural)]
pub enum EmuError {
    /// The byte at the program counter is no instruction.
    UnknownOpcode(u8),
    /// A store aimed at read-only cartridge program storage.
    RomWrite(u16),
}

} // verus!
