//! The processor status register: one bit per condition.
use vstd::prelude::*;

verus! {

/// `p` with the bits of `mask` switched on or off.
pub open spec fn with_bits(p: u8, mask: u8, on: bool) -> u8 {
    if on {
        p | mask
    } else {
        p & !mask
    }
}

/// Every bit of `mask` is set in `p`.
pub open spec fn has_bits(p: u8, mask: u8) -> bool {
    p & mask == mask
}

/// Status flags, bit by bit `NV2B DIZC`.  Any byte is a valid pattern.
#[derive(Clone, Copy, Debug, PartialEq, Eq, Structural)]
pub struct CpuFlags {
    pub bits: u8,
}

impl CpuFlags {
    pub const CARRY: u8 = 0b0000_0001;
    pub const ZERO: u8 = 0b0000_0010;
    pub const INTERRUPT_DISABLE: u8 = 0b0000_0100;
    /// Kept and changed by its instructions, but arithmetic stays binary:
    /// the console's processor has no decimal mode.
    pub const DECIMAL_MODE: u8 = 0b0000_1000;
    pub const BREAK: u8 = 0b0001_0000;
    pub const BREAK2: u8 = 0b0010_0000;
    pub const OVERFLOW: u8 = 0b0100_0000;
    pub const NEGATIVE: u8 = 0b1000_0000;

    pub fn from_bits(bits: u8) -> (r: Self)
        ensures
            r.bits == bits,
    {
        CpuFlags { bits }
    }

    pub fn empty() -> (r: Self)
        ensures
            r.bits == 0,
    {
        CpuFlags { bits: 0 }
    }

    pub fn bits(&self) -> (r: u8)
        ensures
            r == self.bits,
    {
        self.bits
    }

    /// All bits of `flag` are set.
    pub fn contains(&self, flag: u8) -> (r: bool)
        ensures
            r == has_bits(self.bits, flag),
    {
        self.bits & flag == flag
    }

    pub fn insert(&mut self, flag: u8)
        ensures
            final(self).bits == with_bits(old(self).bits, flag, true),
    {
        self.bits = self.bits | flag;
    }

    pub fn remove(&mut self, flag: u8)
        ensures
            final(self).bits == with_bits(old(self).bits, flag, false),
    {
        self.bits = self.bits & !flag;
    }

    pub fn set(&mut self, flag: u8, on: bool)
        ensures
            final(self).bits == with_bits(old(self).bits, flag, on),
    {
        if on {
            self.insert(flag);
        } else {
            self.remove(flag);
        }
    }
}

} // verus!
