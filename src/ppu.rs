//! The picture unit's register bank: the side effects that the processor
//! can see through the eight register slots.  Pixel output is not modelled.
use vstd::prelude::*;

use crate::registers::{
    address_after_increment, address_after_write, increment_step, AddressRegister,
    ControlRegister, MaskRegister, ScrollRegister, StatusRegister,
};
use crate::rom::{zeroed, Mirroring};

verus! {

/// Everything the register bank holds, as plain values.
pub struct PpuModel {
    /// Clear: the next address or scroll write is the first of a pair.
    pub address_latch: bool,
    pub addr: u16,
    pub ctrl: u8,
    pub mask: u8,
    pub scroll_x: u8,
    pub scroll_y: u8,
    pub status: u8,
    pub chr_rom: Seq<u8>,
    pub vram: Seq<u8>,
    pub palette: Seq<u8>,
    pub oam_address: u8,
    pub oam: Seq<u8>,
    pub data_buffer: u8,
    pub mirroring: Mirroring,
}

/// Offset in the 2 KiB name-table memory of picture address `addr`
/// (0x2000..=0x2FFF), folding the four logical tables onto two.
pub open spec fn vram_index(mirroring: Mirroring, addr: u16) -> u16 {
    let index = (addr - 0x2000) as u16;
    let table = index / 0x0400;
    match mirroring {
        Mirroring::Vertical => if table == 2 || table == 3 {
            (index - 0x0800) as u16
        } else {
            index
        },
        Mirroring::Horizontal => if table == 1 || table == 2 {
            (index - 0x0400) as u16
        } else if table == 3 {
            (index - 0x0800) as u16
        } else {
            index
        },
    }
}

/// Byte `a` of the graphics storage; 0 past its end.
pub open spec fn chr_byte(chr: Seq<u8>, a: u16) -> u8 {
    if (a as int) < chr.len() {
        chr[a as int]
    } else {
        0
    }
}

/// Position in a transfer page of the byte that lands on object slot `j`
/// when the transfer starts at slot `start`.
pub open spec fn dma_offset(j: int, start: int) -> int {
    if j >= start {
        j - start
    } else {
        j + 256 - start
    }
}

/// The register bank at power-up.
pub open spec fn ppu_power_up(chr_rom: Seq<u8>, mirroring: Mirroring) -> PpuModel {
    PpuModel {
        address_latch: false,
        addr: 0,
        ctrl: 0,
        mask: 0,
        scroll_x: 0,
        scroll_y: 0,
        status: 0b1010_0000,
        chr_rom,
        vram: Seq::new(2048, |i: int| 0u8),
        palette: Seq::new(32, |i: int| 0u8),
        oam_address: 0,
        oam: Seq::new(256, |i: int| 0u8),
        data_buffer: 0,
        mirroring,
    }
}

impl PpuModel {
    pub open spec fn wf(self) -> bool {
        &&& self.vram.len() == 2048
        &&& self.palette.len() == 32
        &&& self.oam.len() == 256
    }

    /// The data port's address after one access.
    pub open spec fn incremented(self) -> PpuModel {
        PpuModel { addr: address_after_increment(self.addr, increment_step(self.ctrl)), ..self }
    }

    /// A read of the data port: below the palette the byte returned is the
    /// one buffered by the previous read; palette bytes come at once.
    pub open spec fn data_read(self) -> (PpuModel, u8) {
        let a = self.addr % 0x4000;
        let p = self.incremented();
        if a < 0x2000 {
            (PpuModel { data_buffer: chr_byte(self.chr_rom, a), ..p }, self.data_buffer)
        } else if a < 0x3F00 {
            let m = if a < 0x3000 {
                a
            } else {
                (a - 0x1000) as u16
            };
            (
                PpuModel { data_buffer: self.vram[vram_index(self.mirroring, m) as int], ..p },
                self.data_buffer,
            )
        } else {
            (
                PpuModel {
                    data_buffer: self.vram[vram_index(self.mirroring, (a - 0x1000) as u16) as int],
                    ..p
                },
                self.palette[(a - 0x3F00) % 32],
            )
        }
    }

    /// A write through the data port; graphics storage is read-only and
    /// ignores it.
    pub open spec fn data_write(self, v: u8) -> PpuModel {
        let a = self.addr % 0x4000;
        let p = if a < 0x2000 {
            self
        } else if a < 0x3F00 {
            let m = if a < 0x3000 {
                a
            } else {
                (a - 0x1000) as u16
            };
            PpuModel { vram: self.vram.update(vram_index(self.mirroring, m) as int, v), ..self }
        } else {
            PpuModel { palette: self.palette.update((a - 0x3F00) % 32, v), ..self }
        };
        p.incremented()
    }

    pub open spec fn address_written(self, v: u8) -> PpuModel {
        PpuModel {
            addr: address_after_write(self.addr, v, self.address_latch),
            address_latch: !self.address_latch,
            ..self
        }
    }

    pub open spec fn scroll_written(self, v: u8) -> PpuModel {
        if self.address_latch {
            PpuModel { scroll_y: v, address_latch: false, ..self }
        } else {
            PpuModel { scroll_x: v, address_latch: true, ..self }
        }
    }

    pub open spec fn oam_data_written(self, v: u8) -> PpuModel {
        PpuModel {
            oam: self.oam.update(self.oam_address as int, v),
            oam_address: self.oam_address.wrapping_add(1),
            ..self
        }
    }

    /// A read of the status slot, which also clears the write latch.
    pub open spec fn status_read(self) -> (PpuModel, u8) {
        (PpuModel { address_latch: false, ..self }, self.status)
    }

    /// Object memory after a 256-byte page is copied in from the cursor on.
    pub open spec fn dma_written(self, page: Seq<u8>) -> PpuModel {
        PpuModel {
            oam: Seq::new(256, |j: int| page[dma_offset(j, self.oam_address as int)]),
            ..self
        }
    }
}

pub struct Ppu {
    address_latch: bool,
    reg_address: AddressRegister,
    reg_control: ControlRegister,
    reg_mask: MaskRegister,
    reg_scroll: ScrollRegister,
    status: StatusRegister,
    chr_rom: Vec<u8>,
    vram: Vec<u8>,
    palette_table: Vec<u8>,
    oam_address: u8,
    oam_data: Vec<u8>,
    data_buffer: u8,
    mirroring: Mirroring,
}

impl View for Ppu {
    type V = PpuModel;

    closed spec fn view(&self) -> PpuModel {
        PpuModel {
            address_latch: self.address_latch,
            addr: self.reg_address@,
            ctrl: self.reg_control@,
            mask: self.reg_mask@,
            scroll_x: self.reg_scroll@.0,
            scroll_y: self.reg_scroll@.1,
            status: self.status@,
            chr_rom: self.chr_rom@,
            vram: self.vram@,
            palette: self.palette_table@,
            oam_address: self.oam_address,
            oam: self.oam_data@,
            data_buffer: self.data_buffer,
            mirroring: self.mirroring,
        }
    }
}

impl Ppu {
    pub fn new(chr_rom: Vec<u8>, mirroring: Mirroring) -> (r: Self)
        ensures
            r@ == ppu_power_up(chr_rom@, mirroring),
            r@.wf(),
    {
        let r = Ppu {
            chr_rom,
            address_latch: false,
            reg_address: AddressRegister::new(),
            reg_control: ControlRegister::new(),
            reg_mask: MaskRegister::new(),
            reg_scroll: ScrollRegister::new(),
            status: StatusRegister::new(),
            vram: zeroed(2048),
            palette_table: zeroed(32),
            oam_address: 0,
            oam_data: zeroed(256),
            data_buffer: 0,
            mirroring,
        };
        assert(r@ == ppu_power_up(r.chr_rom@, mirroring));
        r
    }

    /// The data port's current address.
    pub fn address(&self) -> (r: u16)
        ensures
            r == self@.addr,
    {
        self.reg_address.get_addr()
    }

    pub fn write_to_address(&mut self, value: u8)
        ensures
            final(self)@ == old(self)@.address_written(value),
    {
        self.reg_address.update(value, self.address_latch);
        self.address_latch = !self.address_latch;
    }

    pub fn write_to_control(&mut self, value: u8)
        ensures
            final(self)@ == (PpuModel { ctrl: value, ..old(self)@ }),
    {
        self.reg_control.update(value);
    }

    pub fn write_to_mask(&mut self, value: u8)
        ensures
            final(self)@ == (PpuModel { mask: value, ..old(self)@ }),
    {
        self.reg_mask.update(value);
    }

    pub fn write_to_scroll(&mut self, value: u8)
        ensures
            final(self)@ == old(self)@.scroll_written(value),
    {
        self.reg_scroll.update(value, self.address_latch);
        self.address_latch = !self.address_latch;
    }

    pub fn write_to_oam_addr(&mut self, value: u8)
        ensures
            final(self)@ == (PpuModel { oam_address: value, ..old(self)@ }),
    {
        self.oam_address = value;
    }

    pub fn write_to_oam_data(&mut self, value: u8)
        requires
            old(self)@.wf(),
        ensures
            final(self)@ == old(self)@.oam_data_written(value),
            final(self)@.wf(),
    {
        self.oam_data[self.oam_address as usize] = value;
        self.oam_address = self.oam_address.wrapping_add(1);
    }

    /// The object byte under the cursor.
    pub fn read_from_oam_data(&self) -> (r: u8)
        requires
            self@.wf(),
        ensures
            r == self@.oam[self@.oam_address as int],
    {
        self.oam_data[self.oam_address as usize]
    }

    /// Copies a 256-byte page into object memory from the cursor on,
    /// wrapping; the cursor ends where it started.
    pub fn write_oam_dma(&mut self, page: &[u8])
        requires
            old(self)@.wf(),
            page@.len() == 256,
        ensures
            final(self)@ == old(self)@.dma_written(page@),
            final(self)@.wf(),
    {
        let ghost start = self.oam_address as int;
        let ghost before = self.oam_data@;
        let mut i: usize = 0;
        while i < 256
            invariant
                0 <= start < 256,
                i <= 256,
                page@.len() == 256,
                self.oam_data@.len() == 256,
                self.oam_address as int == (start + i) % 256,
                forall|j: int|
                    0 <= j < 256 ==> #[trigger] self.oam_data@[j] == if dma_offset(j, start) < i {
                        page@[dma_offset(j, start)]
                    } else {
                        before[j]
                    },
                self@ == (PpuModel { oam: self.oam_data@, oam_address: self.oam_address, ..old(self)@ }),
            decreases 256 - i,
        {
            self.oam_data[self.oam_address as usize] = page[i];
            self.oam_address = self.oam_address.wrapping_add(1);
            i = i + 1;
        }
        assert(self.oam_data@ =~= old(self)@.dma_written(page@).oam);
    }

    /// Reads the status slot and clears the shared write latch.
    pub fn get_status(&mut self) -> (r: u8)
        ensures
            (final(self)@, r) == old(self)@.status_read(),
    {
        self.address_latch = false;
        self.status.bits()
    }

    fn increment_vram_addr(&mut self)
        ensures
            final(self)@ == old(self)@.incremented(),
    {
        let step = self.reg_control.vram_addr_increment();
        self.reg_address.increment(step);
    }

    fn mirror_vram_addr(&self, addr: u16) -> (r: u16)
        requires
            0x2000 <= addr <= 0x2FFF,
        ensures
            r == vram_index(self@.mirroring, addr),
            r < 2048,
    {
        let vram_index = addr - 0x2000;
        let name_table = vram_index / 0x0400;
        match self.mirroring {
            Mirroring::Vertical => if name_table == 2 || name_table == 3 {
                vram_index - 0x0800
            } else {
                vram_index
            },
            Mirroring::Horizontal => if name_table == 1 || name_table == 2 {
                vram_index - 0x0400
            } else if name_table == 3 {
                vram_index - 0x0800
            } else {
                vram_index
            },
        }
    }

    fn chr_byte(&self, a: u16) -> (r: u8)
        ensures
            r == chr_byte(self@.chr_rom, a),
    {
        if (a as usize) < self.chr_rom.len() {
            self.chr_rom[a as usize]
        } else {
            0
        }
    }

    /// Reads the data port.
    pub fn read(&mut self) -> (r: u8)
        requires
            old(self)@.wf(),
        ensures
            (final(self)@, r) == old(self)@.data_read(),
            final(self)@.wf(),
    {
        let addr = self.reg_address.get_addr();
        self.increment_vram_addr();
        let a = addr % 0x4000;
        if a < 0x2000 {
            let result = self.data_buffer;
            self.data_buffer = self.chr_byte(a);
            result
        } else if a < 0x3F00 {
            let m = if a < 0x3000 {
                a
            } else {
                a - 0x1000
            };
            let result = self.data_buffer;
            let i = self.mirror_vram_addr(m);
            self.data_buffer = self.vram[i as usize];
            result
        } else {
            let i = self.mirror_vram_addr(a - 0x1000);
            self.data_buffer = self.vram[i as usize];
            self.palette_table[((a - 0x3F00) % 32) as usize]
        }
    }

    /// Writes through the data port.
    pub fn write(&mut self, value: u8)
        requires
            old(self)@.wf(),
        ensures
            final(self)@ == old(self)@.data_write(value),
            final(self)@.wf(),
    {
        let addr = self.reg_address.get_addr();
        let a = addr % 0x4000;
        if a < 0x2000 {
        } else if a < 0x3F00 {
            let m = if a < 0x3000 {
                a
            } else {
                a - 0x1000
            };
            let i = self.mirror_vram_addr(m);
            self.vram[i as usize] = value;
        } else {
            self.palette_table[((a - 0x3F00) % 32) as usize] = value;
        }
        self.increment_vram_addr();
    }
}

} // verus!
