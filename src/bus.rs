//! The memory bus: decodes each 16-bit address to work RAM, the picture
//! unit's registers or cartridge program storage.
use vstd::prelude::*;

use crate::error::EmuError;
use crate::ppu::{Ppu, PpuModel};
use crate::rom::{zeroed, Rom};

verus! {

/// Size of physical work RAM; the RAM range repeats it.
pub const WRAM_SIZE: u16 = 2048;

/// Base of cartridge program storage.
pub const PRG_BASE: u16 = 0x8000;

/// Everything the bus holds, as plain values.
///
/// Open bus keeps two latches, not one shared byte: `open_bus`, the last
/// byte on the processor's data bus (every mapped read or write drives it,
/// and unmapped reads return it), and `ppu_open_bus`, the picture unit's
/// own port latch (every access to one of its slots drives it, and reads of
/// the write-only slots return it).  The hardware has both: the port latch
/// decays on its own timescale and a status read refreshes only its bits
/// 7-5.  Whether one shared byte would serve is an open question; two
/// latches keep what the processor observes on each side separate.
pub struct BusModel {
    pub wram: Seq<u8>,
    /// Last byte driven on the processor's data bus.
    pub open_bus: u8,
    /// Last byte driven on the picture unit's register port.
    pub ppu_open_bus: u8,
    pub prg_rom: Seq<u8>,
    pub ppu: PpuModel,
    /// Accesses that hit no mapped region, counted up to `u64::MAX`.
    pub unmapped_accesses: u64,
}

impl BusModel {
    pub open spec fn wf(self) -> bool {
        &&& self.wram.len() == WRAM_SIZE
        &&& self.ppu.wf()
    }
}

/// The work-RAM slot behind a RAM-range address.
pub open spec fn wram_slot(addr: u16) -> int {
    (addr % WRAM_SIZE) as int
}

/// A read of register slot `reg` (0..8) of the picture unit.
pub open spec fn ppu_port_read(b: BusModel, reg: u16) -> (BusModel, u8) {
    if reg == 2 {
        let (p, s) = b.ppu.status_read();
        (BusModel { ppu: p, ppu_open_bus: (b.ppu_open_bus & 0x1F) | s, open_bus: s, ..b }, s)
    } else if reg == 4 {
        let v = b.ppu.oam[b.ppu.oam_address as int];
        (BusModel { ppu_open_bus: v, open_bus: v, ..b }, v)
    } else if reg == 7 {
        let (p, v) = b.ppu.data_read();
        (BusModel { ppu: p, ppu_open_bus: v, open_bus: v, ..b }, v)
    } else {
        (BusModel { open_bus: b.ppu_open_bus, ..b }, b.ppu_open_bus)
    }
}

/// A read of `addr`: the state after it and the byte seen.
pub open spec fn bus_read(b: BusModel, addr: u16) -> (BusModel, u8) {
    if addr <= 0x1FFF {
        let v = b.wram[wram_slot(addr)];
        (BusModel { open_bus: v, ..b }, v)
    } else if addr <= 0x3FFF {
        ppu_port_read(b, addr % 8)
    } else if addr >= PRG_BASE && b.prg_rom.len() > 0 {
        let v = b.prg_rom[((addr - PRG_BASE) as int) % (b.prg_rom.len() as int)];
        (BusModel { open_bus: v, ..b }, v)
    } else {
        (BusModel { unmapped_accesses: b.unmapped_accesses.saturating_add(1), ..b }, b.open_bus)
    }
}

/// A little-endian 16-bit read: low byte at `addr`, high byte after it.
pub open spec fn bus_read_u16(b: BusModel, addr: u16) -> (BusModel, u16) {
    let (b1, lo) = bus_read(b, addr);
    let (b2, hi) = bus_read(b1, addr.wrapping_add(1));
    (b2, ((hi as u16) * 256 + lo as u16) as u16)
}

/// The register bank after byte `v` is written to slot `reg` (0..8).
pub open spec fn ppu_written(p: PpuModel, reg: u16, v: u8) -> PpuModel {
    if reg == 0 {
        PpuModel { ctrl: v, ..p }
    } else if reg == 1 {
        PpuModel { mask: v, ..p }
    } else if reg == 3 {
        PpuModel { oam_address: v, ..p }
    } else if reg == 4 {
        p.oam_data_written(v)
    } else if reg == 5 {
        p.scroll_written(v)
    } else if reg == 6 {
        p.address_written(v)
    } else if reg == 7 {
        p.data_write(v)
    } else {
        p
    }
}

/// The 256 bytes of RAM page `page` as the bulk transfer sees them.
pub open spec fn dma_page(wram: Seq<u8>, page: u8) -> Seq<u8> {
    Seq::new(256, |i: int| wram[((page as int) * 256 + i) % (WRAM_SIZE as int)])
}

/// A write of `v` to `addr` below cartridge storage.  Unmapped addresses
/// discard it and count it.
pub open spec fn bus_write(b: BusModel, addr: u16, v: u8) -> BusModel {
    if addr <= 0x1FFF {
        BusModel { wram: b.wram.update(wram_slot(addr), v), open_bus: v, ..b }
    } else if addr <= 0x3FFF {
        BusModel { ppu: ppu_written(b.ppu, addr % 8, v), ppu_open_bus: v, open_bus: v, ..b }
    } else if addr == 0x4014 {
        BusModel {
            ppu: b.ppu.dma_written(dma_page(b.wram, v)),
            ppu_open_bus: v,
            open_bus: v,
            ..b
        }
    } else {
        BusModel { unmapped_accesses: b.unmapped_accesses.saturating_add(1), ..b }
    }
}

/// A write of `v` to `addr`: the state after it, and whether it was taken.
/// Cartridge storage refuses it and the state stays as it was.
pub open spec fn write_result(b: BusModel, addr: u16, v: u8) -> (BusModel, Result<(), EmuError>) {
    if addr >= PRG_BASE {
        (b, Err(EmuError::RomWrite(addr)))
    } else {
        (bus_write(b, addr, v), Ok(()))
    }
}

/// A little-endian 16-bit write, low byte first; a refused byte ends it.
pub open spec fn write_u16_result(b: BusModel, addr: u16, v: u16) -> (
    BusModel,
    Result<(), EmuError>,
) {
    let (b1, r) = write_result(b, addr, (v % 256) as u8);
    if r is Ok {
        write_result(b1, addr.wrapping_add(1), (v / 256) as u8)
    } else {
        (b1, r)
    }
}

pub struct Bus {
    cpu_wram: Vec<u8>,
    open_bus: u8,
    ppu_open_bus: u8,
    prg_rom: Vec<u8>,
    ppu: Ppu,
    unmapped_accesses: u64,
}

impl View for Bus {
    type V = BusModel;

    closed spec fn view(&self) -> BusModel {
        BusModel {
            wram: self.cpu_wram@,
            open_bus: self.open_bus,
            ppu_open_bus: self.ppu_open_bus,
            prg_rom: self.prg_rom@,
            ppu: self.ppu@,
            unmapped_accesses: self.unmapped_accesses,
        }
    }
}

impl Bus {
    pub fn new(rom: Rom) -> (r: Self)
        ensures
            r@.wf(),
            r@.wram == Seq::new(2048, |i: int| 0u8),
            r@.open_bus == 0,
            r@.ppu_open_bus == 0,
            r@.prg_rom == rom.prg_rom@,
            r@.ppu == crate::ppu::ppu_power_up(rom.chr_rom@, rom.screen_mirroring),
            r@.unmapped_accesses == 0,
    {
        Bus {
            cpu_wram: zeroed(2048),
            open_bus: 0,
            ppu_open_bus: 0,
            prg_rom: rom.prg_rom,
            ppu: Ppu::new(rom.chr_rom, rom.screen_mirroring),
            unmapped_accesses: 0,
        }
    }

    /// The picture unit's register bank.
    pub fn ppu(&self) -> (r: &Ppu)
        ensures
            r@ == self@.ppu,
    {
        &self.ppu
    }

    /// How many accesses so far hit no mapped region.
    pub fn unmapped_accesses(&self) -> (r: u64)
        ensures
            r == self@.unmapped_accesses,
    {
        self.unmapped_accesses
    }

    /// Replaces cartridge program storage; everything else stays.
    pub fn load_prg_rom(&mut self, prg_rom: Vec<u8>)
        ensures
            final(self)@ == (BusModel { prg_rom: prg_rom@, ..old(self)@ }),
    {
        self.prg_rom = prg_rom;
    }

    fn read_prg_rom(&self, addr: u16) -> (r: u8)
        requires
            addr >= PRG_BASE,
            self@.prg_rom.len() > 0,
        ensures
            r == self@.prg_rom[((addr - PRG_BASE) as int) % (self@.prg_rom.len() as int)],
    {
        let offset = (addr - PRG_BASE) as usize;
        self.prg_rom[offset % self.prg_rom.len()]
    }

    pub fn mem_read_u16(&mut self, addr: u16) -> (r: u16)
        requires
            old(self)@.wf(),
        ensures
            (final(self)@, r) == bus_read_u16(old(self)@, addr),
            final(self)@.wf(),
    {
        let lo = self.mem_read(addr);
        let hi = self.mem_read(addr.wrapping_add(1));
        (hi as u16) * 256 + lo as u16
    }

    pub fn mem_write_u16(&mut self, addr: u16, value: u16) -> (r: Result<(), EmuError>)
        requires
            old(self)@.wf(),
        ensures
            (final(self)@, r) == write_u16_result(old(self)@, addr, value),
            final(self)@.wf(),
    {
        let lo = (value % 256) as u8;
        let hi = (value / 256) as u8;
        match self.mem_write(addr, lo) {
            Ok(()) => self.mem_write(addr.wrapping_add(1), hi),
            Err(e) => Err(e),
        }
    }

    fn read_ppu_port(&mut self, reg: u16) -> (r: u8)
        requires
            old(self)@.wf(),
            reg < 8,
        ensures
            (final(self)@, r) == ppu_port_read(old(self)@, reg),
            final(self)@.wf(),
    {
        if reg == 2 {
            let status = self.ppu.get_status();
            // Reading the status slot loads bits 7-5 only.
            self.ppu_open_bus = (self.ppu_open_bus & 0x1F) | status;
            self.open_bus = status;
            status
        } else if reg == 4 {
            let value = self.ppu.read_from_oam_data();
            self.ppu_open_bus = value;
            self.open_bus = value;
            value
        } else if reg == 7 {
            let value = self.ppu.read();
            self.ppu_open_bus = value;
            self.open_bus = value;
            value
        } else {
            // Write-only slots give back the last byte on the port.
            self.open_bus = self.ppu_open_bus;
            self.ppu_open_bus
        }
    }

    /// Reads `addr`.  Unmapped addresses give the last byte on the bus, and
    /// are counted.
    pub fn mem_read(&mut self, addr: u16) -> (r: u8)
        requires
            old(self)@.wf(),
        ensures
            (final(self)@, r) == bus_read(old(self)@, addr),
            final(self)@.wf(),
    {
        if addr <= 0x1FFF {
            let value = self.cpu_wram[(addr % WRAM_SIZE) as usize];
            self.open_bus = value;
            value
        } else if addr <= 0x3FFF {
            self.read_ppu_port(addr % 8)
        } else if addr >= PRG_BASE && self.prg_rom.len() > 0 {
            let value = self.read_prg_rom(addr);
            self.open_bus = value;
            value
        } else {
            self.unmapped_accesses = self.unmapped_accesses.saturating_add(1);
            self.open_bus
        }
    }

    fn write_ppu_port(&mut self, reg: u16, value: u8)
        requires
            old(self)@.wf(),
            reg < 8,
        ensures
            final(self)@ == (BusModel {
                ppu: ppu_written(old(self)@.ppu, reg, value),
                ..old(self)@
            }),
            final(self)@.wf(),
    {
        if reg == 0 {
            self.ppu.write_to_control(value);
        } else if reg == 1 {
            self.ppu.write_to_mask(value);
        } else if reg == 3 {
            self.ppu.write_to_oam_addr(value);
        } else if reg == 4 {
            self.ppu.write_to_oam_data(value);
        } else if reg == 5 {
            self.ppu.write_to_scroll(value);
        } else if reg == 6 {
            self.ppu.write_to_address(value);
        } else if reg == 7 {
            self.ppu.write(value);
        }
    }

    /// Copies RAM page `page` into object memory.
    fn oam_dma(&mut self, page: u8)
        requires
            old(self)@.wf(),
        ensures
            final(self)@ == (BusModel {
                ppu: old(self)@.ppu.dma_written(dma_page(old(self)@.wram, page)),
                ..old(self)@
            }),
            final(self)@.wf(),
    {
        let mut buf: Vec<u8> = Vec::new();
        let mut i: u16 = 0;
        while i < 256
            invariant
                i <= 256,
                self.cpu_wram@.len() == 2048,
                buf@ == dma_page(self.cpu_wram@, page).take(i as int),
            decreases 256 - i,
        {
            let slot = ((page as u16) * 256 + i) % WRAM_SIZE;
            buf.push(self.cpu_wram[slot as usize]);
            i = i + 1;
            assert(buf@ =~= dma_page(self.cpu_wram@, page).take(i as int));
        }
        assert(buf@ =~= dma_page(self.cpu_wram@, page));
        self.ppu.write_oam_dma(buf.as_slice());
    }

    /// Writes `value` to `addr`.  Cartridge storage is read-only: a write
    /// there is refused with an error and changes nothing.  Writes to
    /// unmapped addresses are discarded, and counted.
    pub fn mem_write(&mut self, addr: u16, value: u8) -> (r: Result<(), EmuError>)
        requires
            old(self)@.wf(),
        ensures
            (final(self)@, r) == write_result(old(self)@, addr, value),
            final(self)@.wf(),
    {
        if addr <= 0x1FFF {
            self.cpu_wram.set((addr % WRAM_SIZE) as usize, value);
            self.open_bus = value;
            Ok(())
        } else if addr <= 0x3FFF {
            self.ppu_open_bus = value;
            self.open_bus = value;
            self.write_ppu_port(addr % 8, value);
            Ok(())
        } else if addr == 0x4014 {
            self.ppu_open_bus = value;
            self.open_bus = value;
            self.oam_dma(value);
            Ok(())
        } else if addr >= PRG_BASE {
            Err(EmuError::RomWrite(addr))
        } else {
            self.unmapped_accesses = self.unmapped_accesses.saturating_add(1);
            Ok(())
        }
    }
}

} // verus!
