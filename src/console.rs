//! A console: the processor, owning its bus, and the frame timing counters.
use vstd::prelude::*;

use crate::bus::Bus;
use crate::cpu::{CPU, POWER_UP_STATUS};
use crate::ppu::ppu_power_up;
use crate::rom::Rom;
use crate::stackptr::STACK_RESET;

verus! {

pub struct Console {
    pub cpu: CPU,
    pub cycle: u16,
    pub scanline: u16,
    pub frame_complete: bool,
    pub clock_counter: u8,
}

impl Console {
    /// A console at power-up with cartridge `rom` inserted.
    pub fn new(rom: Rom) -> (r: Self)
        ensures
            r.cpu.wf(),
            r.cpu@.a == 0 && r.cpu@.x == 0 && r.cpu@.y == 0 && r.cpu@.pc == 0,
            r.cpu@.sp == STACK_RESET,
            r.cpu@.p == POWER_UP_STATUS,
            r.cpu@.bus.prg_rom == rom.prg_rom@,
            r.cpu@.bus.ppu == ppu_power_up(rom.chr_rom@, rom.screen_mirroring),
            r.cycle == 0 && r.scanline == 0 && !r.frame_complete && r.clock_counter == 0,
    {
        Console {
            cpu: CPU::from_bus(Bus::new(rom)),
            cycle: 0,
            scanline: 0,
            frame_complete: false,
            clock_counter: 0,
        }
    }
}

} // verus!
