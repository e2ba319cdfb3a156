//! The picture unit's small registers.
use vstd::prelude::*;

verus! {

/// The 16-bit address after a byte `value` is latched: the high half when
/// `latch` is clear, the low half when it is set.
pub open spec fn address_after_write(addr: u16, value: u8, latch: bool) -> u16 {
    if latch {
        ((addr / 256) * 256 + value as u16) as u16
    } else {
        ((value as u16) * 256 + addr % 256) as u16
    }
}

/// The address after an auto-increment of `step`, folded below 0x8000 once
/// it passes the top of the picture unit's space.
pub open spec fn address_after_increment(addr: u16, step: u8) -> u16 {
    let w = addr.wrapping_add(step as u16);
    if w > 0x3FFF {
        w & 0x7FFF
    } else {
        w
    }
}

/// The address register, written one byte at a time.
pub struct AddressRegister {
    value: u16,
}

impl View for AddressRegister {
    type V = u16;

    closed spec fn view(&self) -> u16 {
        self.value
    }
}

impl AddressRegister {
    pub fn new() -> (r: Self)
        ensures
            r@ == 0,
    {
        AddressRegister { value: 0 }
    }

    pub fn get_addr(&self) -> (r: u16)
        ensures
            r == self@,
    {
        self.value
    }

    pub fn update(&mut self, value: u8, latch: bool)
        ensures
            final(self)@ == address_after_write(old(self)@, value, latch),
    {
        if latch {
            self.value = (self.value / 256) * 256 + value as u16;
        } else {
            self.value = (value as u16) * 256 + self.value % 256;
        }
    }

    pub fn increment(&mut self, inc: u8)
        ensures
            final(self)@ == address_after_increment(old(self)@, inc),
    {
        self.value = self.value.wrapping_add(inc as u16);
        if self.value > 0x3FFF {
            self.value = self.value & 0x7FFF;
        }
    }
}

/// Step of the data port's auto-increment for control byte `ctrl`: 32 when
/// the increment bit is set (one row down), else 1.
pub open spec fn increment_step(ctrl: u8) -> u8 {
    if ctrl & ControlRegister::VRAM_ADD_INCREMENT == ControlRegister::VRAM_ADD_INCREMENT {
        32
    } else {
        1
    }
}

/// The control register.
pub struct ControlRegister {
    bits: u8,
}

impl View for ControlRegister {
    type V = u8;

    closed spec fn view(&self) -> u8 {
        self.bits
    }
}

impl ControlRegister {
    pub const VRAM_ADD_INCREMENT: u8 = 0b0000_0100;

    pub fn new() -> (r: Self)
        ensures
            r@ == 0,
    {
        ControlRegister { bits: 0 }
    }

    pub fn update(&mut self, value: u8)
        ensures
            final(self)@ == value,
    {
        self.bits = value;
    }

    pub fn bits(&self) -> (r: u8)
        ensures
            r == self@,
    {
        self.bits
    }

    pub fn vram_addr_increment(&self) -> (r: u8)
        ensures
            r == increment_step(self@),
    {
        if self.bits & Self::VRAM_ADD_INCREMENT == Self::VRAM_ADD_INCREMENT {
            32
        } else {
            1
        }
    }
}

/// The mask register (`BGRs bMmG`).
pub struct MaskRegister {
    bits: u8,
}

impl View for MaskRegister {
    type V = u8;

    closed spec fn view(&self) -> u8 {
        self.bits
    }
}

impl MaskRegister {
    pub const GREYSCALE: u8 = 0b0000_0001;
    pub const SHOW_BACKGROUND_LEFT: u8 = 0b0000_0010;
    pub const SHOW_SPRITES_LEFT: u8 = 0b0000_0100;
    pub const SHOW_BACKGROUND: u8 = 0b0000_1000;
    pub const SHOW_SPRITES: u8 = 0b0001_0000;
    pub const EMPHASIZE_RED: u8 = 0b0010_0000;
    pub const EMPHASIZE_GREEN: u8 = 0b0100_0000;
    pub const EMPHASIZE_BLUE: u8 = 0b1000_0000;

    pub fn new() -> (r: Self)
        ensures
            r@ == 0,
    {
        MaskRegister { bits: 0 }
    }

    pub fn update(&mut self, value: u8)
        ensures
            final(self)@ == value,
    {
        self.bits = value;
    }

    pub fn bits(&self) -> (r: u8)
        ensures
            r == self@,
    {
        self.bits
    }
}

/// The scroll register: one byte per axis, horizontal first.
pub struct ScrollRegister {
    x: u8,
    y: u8,
}

impl View for ScrollRegister {
    type V = (u8, u8);

    closed spec fn view(&self) -> (u8, u8) {
        (self.x, self.y)
    }
}

impl ScrollRegister {
    pub fn new() -> (r: Self)
        ensures
            r@ == (0u8, 0u8),
    {
        ScrollRegister { x: 0, y: 0 }
    }

    pub fn update(&mut self, value: u8, latch: bool)
        ensures
            final(self)@ == (if latch { (old(self)@.0, value) } else { (value, old(self)@.1) }),
    {
        if latch {
            self.y = value;
        } else {
            self.x = value;
        }
    }
}

/// The status register (`VSO. ....`).
pub struct StatusRegister {
    flags: u8,
}

impl View for StatusRegister {
    type V = u8;

    closed spec fn view(&self) -> u8 {
        self.flags
    }
}

impl StatusRegister {
    pub const OVERFLOW: u8 = 0b0010_0000;
    pub const SPRITE_ZERO_HIT: u8 = 0b0100_0000;
    pub const VBLANK_STARTED: u8 = 0b1000_0000;

    /// Power-up value: vertical blank and sprite overflow set.
    pub fn new() -> (r: Self)
        ensures
            r@ == 0b1010_0000u8,
    {
        StatusRegister { flags: 0b1010_0000 }
    }

    pub fn set_flag(&mut self, flag: u8)
        ensures
            final(self)@ == old(self)@ | flag,
    {
        self.flags = self.flags | flag;
    }

    pub fn bits(&self) -> (r: u8)
        ensures
            r == self@,
    {
        self.flags
    }
}

} // verus!
