//! The hardware stack index: an 8-bit offset into the fixed stack page.
use vstd::prelude::*;

verus! {

/// First address of the stack page.
pub const STACK: u16 = 0x0100;

/// Offset the stack index takes at power-up and on every reset.
pub const STACK_RESET: u8 = 0xFD;

/// Address in the stack page that offset `offset` names.
pub open spec fn stack_address(offset: u8) -> u16 {
    (STACK + offset as u16) as u16
}

#[derive(Clone, Copy, Debug, PartialEq, Eq, Structural)]
pub struct StackPtr {
    addr: u8,
}

impl View for StackPtr {
    type V = u8;

    closed spec fn view(&self) -> u8 {
        self.addr
    }
}

impl StackPtr {
    pub fn new() -> (r: Self)
        ensures
            r@ == STACK_RESET,
    {
        StackPtr { addr: STACK_RESET }
    }

    pub fn from_addr(addr: u8) -> (r: Self)
        ensures
            r@ == addr,
    {
        StackPtr { addr }
    }

    pub fn reset(&mut self)
        ensures
            final(self)@ == STACK_RESET,
    {
        self.addr = STACK_RESET;
    }

    /// Absolute address of the slot the offset designates, worked out afresh.
    pub fn addr(&self) -> (r: u16)
        ensures
            r == stack_address(self@),
            0x0100 <= r <= 0x01FF,
    {
        STACK + self.addr as u16
    }

    /// The offset itself.
    pub fn rel_addr(&self) -> (r: u8)
        ensures
            r == self@,
    {
        self.addr
    }

    pub fn set(&mut self, new_addr: u8)
        ensures
            final(self)@ == new_addr,
    {
        self.addr = new_addr;
    }

    /// One step of a push: the stack grows down, wrapping within the page.
    pub fn inc(&mut self)
        ensures
            final(self)@ == old(self)@.wrapping_sub(1),
    {
        self.addr = self.addr.wrapping_sub(1);
    }

    /// One step of a pop: back up, wrapping within the page.
    pub fn dec(&mut self)
        ensures
            final(self)@ == old(self)@.wrapping_add(1),
    {
        self.addr = self.addr.wrapping_add(1);
    }
}

} // verus!
