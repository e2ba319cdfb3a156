//! Byte-addressed memory as the interpreter sees it.
use vstd::prelude::*;

use crate::bus::{bus_read, bus_read_u16, write_result, write_u16_result, Bus};
use crate::cpu::CPU;
use crate::error::EmuError;
use crate::semantics::CpuModel;

verus! {

/// Something that answers reads and writes at 16-bit addresses.
pub trait Memory: Sized {
    /// The memory is in a shape its accesses accept.
    spec fn ready(&self) -> bool;

    /// Reading `addr` takes `before` to `after` and yields `v`.
    spec fn reads_as(before: &Self, after: &Self, addr: u16, v: u16, wide: bool) -> bool;

    /// Writing `value` at `addr` takes `before` to `after` and answers `r`.
    spec fn writes_as(
        before: &Self,
        after: &Self,
        addr: u16,
        value: u16,
        wide: bool,
        r: Result<(), EmuError>,
    ) -> bool;

    fn mem_read(&mut self, addr: u16) -> (r: u8)
        requires
            old(self).ready(),
        ensures
            final(self).ready(),
            Self::reads_as(old(self), final(self), addr, r as u16, false),
    ;

    fn mem_write(&mut self, addr: u16, value: u8) -> (r: Result<(), EmuError>)
        requires
            old(self).ready(),
        ensures
            final(self).ready(),
            Self::writes_as(old(self), final(self), addr, value as u16, false, r),
    ;

    /// Little-endian: low byte at `addr`, high byte after it.
    fn mem_read_u16(&mut self, addr: u16) -> (r: u16)
        requires
            old(self).ready(),
        ensures
            final(self).ready(),
            Self::reads_as(old(self), final(self), addr, r, true),
    ;

    /// Little-endian, low byte first.
    fn mem_write_u16(&mut self, addr: u16, value: u16) -> (r: Result<(), EmuError>)
        requires
            old(self).ready(),
        ensures
            final(self).ready(),
            Self::writes_as(old(self), final(self), addr, value, true, r),
    ;
}

impl Memory for Bus {
    open spec fn ready(&self) -> bool {
        self@.wf()
    }

    open spec fn reads_as(before: &Self, after: &Self, addr: u16, v: u16, wide: bool) -> bool {
        if wide {
            (after@, v) == bus_read_u16(before@, addr)
        } else {
            (after@, v as u8) == bus_read(before@, addr) && v < 256
        }
    }

    open spec fn writes_as(
        before: &Self,
        after: &Self,
        addr: u16,
        value: u16,
        wide: bool,
        r: Result<(), EmuError>,
    ) -> bool {
        if wide {
            (after@, r) == write_u16_result(before@, addr, value)
        } else {
            (after@, r) == write_result(before@, addr, value as u8)
        }
    }

    fn mem_read(&mut self, addr: u16) -> (r: u8) {
        Bus::mem_read(self, addr)
    }

    fn mem_write(&mut self, addr: u16, value: u8) -> (r: Result<(), EmuError>) {
        Bus::mem_write(self, addr, value)
    }

    fn mem_read_u16(&mut self, addr: u16) -> (r: u16) {
        Bus::mem_read_u16(self, addr)
    }

    fn mem_write_u16(&mut self, addr: u16, value: u16) -> (r: Result<(), EmuError>) {
        Bus::mem_write_u16(self, addr, value)
    }
}

impl Memory for CPU {
    open spec fn ready(&self) -> bool {
        self.wf()
    }

    open spec fn reads_as(before: &Self, after: &Self, addr: u16, v: u16, wide: bool) -> bool {
        if wide {
            (after@, v) == before@.read_u16(addr)
        } else {
            (after@, v as u8) == before@.read(addr) && v < 256
        }
    }

    open spec fn writes_as(
        before: &Self,
        after: &Self,
        addr: u16,
        value: u16,
        wide: bool,
        r: Result<(), EmuError>,
    ) -> bool {
        if wide {
            &&& (after@.bus, r) == write_u16_result(before@.bus, addr, value)
            &&& after@ == (CpuModel { bus: after@.bus, ..before@ })
        } else {
            (after@, r) == before@.write(addr, value as u8)
        }
    }

    fn mem_read(&mut self, addr: u16) -> (r: u8) {
        CPU::mem_read(self, addr)
    }

    fn mem_write(&mut self, addr: u16, value: u8) -> (r: Result<(), EmuError>) {
        CPU::mem_write(self, addr, value)
    }

    fn mem_read_u16(&mut self, addr: u16) -> (r: u16) {
        CPU::mem_read_u16(self, addr)
    }

    fn mem_write_u16(&mut self, addr: u16, value: u16) -> (r: Result<(), EmuError>) {
        CPU::mem_write_u16(self, addr, value)
    }
}

} // verus!
