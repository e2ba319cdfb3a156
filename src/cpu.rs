//! The instruction interpreter: registers, stack and the fetch-execute loop.
use vstd::prelude::*;

use crate::bus::{write_u16_result, Bus, BusModel};
use crate::error::EmuError;
use crate::ppu::ppu_power_up;
use crate::flags::CpuFlags;
use crate::opcode::{AddressingMode, Mnemonic, OpCode};
use crate::rom::{Mirroring, Rom};
use crate::semantics::{branch_taken, redirects, CpuModel};
use crate::stackptr::{StackPtr, STACK_RESET};

verus! {

/// Where reset takes the program counter from (little-endian).
pub const RESET_VECTOR: u16 = 0xFFFC;

/// Status at power-up and after reset: interrupts disabled, break2 set.
pub const POWER_UP_STATUS: u8 = 0b0010_0100;

/// Size of the cartridge window, where `load` puts a program.
pub const PRG_WINDOW: usize = 0x8000;

/// The cartridge image `load` builds: the program from the base of the
/// window, zeros after it, and a reset vector naming the window's base.
pub open spec fn load_image(program: Seq<u8>) -> Seq<u8> {
    Seq::new(
        PRG_WINDOW as nat,
        |i: int|
            if i == 0x7FFC {
                0x00u8
            } else if i == 0x7FFD {
                0x80u8
            } else if i < program.len() {
                program[i]
            } else {
                0u8
            },
    )
}

/// The state that reset leaves: registers cleared, stack and status at
/// their power-up values, program counter from the reset vector.
pub open spec fn reset_state(s: CpuModel) -> CpuModel {
    let (s1, pc) = CpuModel { a: 0, x: 0, y: 0, sp: STACK_RESET, p: POWER_UP_STATUS, ..s }.read_u16(
        RESET_VECTOR,
    );
    CpuModel { pc, ..s1 }
}

/// `r` and `after` are the outcome `expected` of a run: the state it ends
/// in, and success or the fault that stopped it.
pub open spec fn run_reports(
    r: Result<(), EmuError>,
    after: CpuModel,
    expected: (CpuModel, Result<bool, EmuError>),
) -> bool {
    &&& after == expected.0
    &&& match expected.1 {
        Ok(_) => r is Ok,
        Err(e) => r == Err::<(), EmuError>(e),
    }
}

pub struct CPU {
    pub register_a: u8,
    pub register_x: u8,
    pub register_y: u8,
    pub stackptr: StackPtr,
    pub status: CpuFlags,
    pub program_counter: u16,
    pub bus: Bus,
}

impl View for CPU {
    type V = CpuModel;

    open spec fn view(&self) -> CpuModel {
        CpuModel {
            a: self.register_a,
            x: self.register_x,
            y: self.register_y,
            sp: self.stackptr@,
            p: self.status.bits,
            pc: self.program_counter,
            bus: self.bus@,
        }
    }
}

impl CPU {
    pub open spec fn wf(&self) -> bool {
        self.bus@.wf()
    }

    /// A processor on a bus with empty cartridge storage.
    pub fn new() -> (r: Self)
        ensures
            r.wf(),
            r@ == (CpuModel {
                a: 0,
                x: 0,
                y: 0,
                sp: STACK_RESET,
                p: POWER_UP_STATUS,
                pc: 0,
                bus: BusModel {
                    wram: Seq::new(2048, |i: int| 0u8),
                    open_bus: 0,
                    ppu_open_bus: 0,
                    prg_rom: Seq::empty(),
                    ppu: ppu_power_up(Seq::empty(), Mirroring::Horizontal),
                    unmapped_accesses: 0,
                },
            }),
    {
        let rom = Rom {
            prg_rom: Vec::new(),
            chr_rom: Vec::new(),
            screen_mirroring: Mirroring::Horizontal,
        };
        CPU::from_bus(Bus::new(rom))
    }

    /// A processor at power-up on `bus`.
    pub fn from_bus(bus: Bus) -> (r: Self)
        requires
            bus@.wf(),
        ensures
            r.wf(),
            r@ == (CpuModel {
                a: 0,
                x: 0,
                y: 0,
                sp: STACK_RESET,
                p: POWER_UP_STATUS,
                pc: 0,
                bus: bus@,
            }),
    {
        CPU {
            register_a: 0,
            register_x: 0,
            register_y: 0,
            stackptr: StackPtr::new(),
            status: CpuFlags::from_bits(POWER_UP_STATUS),
            program_counter: 0,
            bus,
        }
    }

    pub fn mem_read(&mut self, addr: u16) -> (r: u8)
        requires
            old(self).wf(),
        ensures
            final(self)@ == (CpuModel { bus: final(self)@.bus, ..old(self)@ }),
            (final(self)@, r) == old(self)@.read(addr),
            final(self).wf(),
    {
        proof {
            reveal(CpuModel::read);
            reveal(CpuModel::read_u16);
            reveal(CpuModel::write);
        }
        self.bus.mem_read(addr)
    }

    pub fn mem_write(&mut self, addr: u16, value: u8) -> (r: Result<(), EmuError>)
        requires
            old(self).wf(),
        ensures
            (final(self)@, r) == old(self)@.write(addr, value),
            final(self).wf(),
    {
        proof {
            reveal(CpuModel::read);
            reveal(CpuModel::read_u16);
            reveal(CpuModel::write);
        }
        self.bus.mem_write(addr, value)
    }

    pub fn mem_read_u16(&mut self, addr: u16) -> (r: u16)
        requires
            old(self).wf(),
        ensures
            final(self)@ == (CpuModel { bus: final(self)@.bus, ..old(self)@ }),
            (final(self)@, r) == old(self)@.read_u16(addr),
            final(self).wf(),
    {
        proof {
            reveal(CpuModel::read);
            reveal(CpuModel::read_u16);
            reveal(CpuModel::write);
        }
        self.bus.mem_read_u16(addr)
    }

    pub fn mem_write_u16(&mut self, addr: u16, value: u16) -> (r: Result<(), EmuError>)
        requires
            old(self).wf(),
        ensures
            (final(self)@.bus, r) == write_u16_result(old(self)@.bus, addr, value),
            final(self)@ == (CpuModel { bus: final(self)@.bus, ..old(self)@ }),
            final(self).wf(),
    {
        self.bus.mem_write_u16(addr, value)
    }

    fn update_zero_and_negative_flags(&mut self, result: u8)
        ensures
            final(self)@ == old(self)@.with_zn(result),
            final(self).bus == old(self).bus,
    {
        self.status.set(CpuFlags::ZERO, result == 0);
        self.status.set(CpuFlags::NEGATIVE, result & 0b1000_0000 != 0);
    }

    pub fn set_flag(&mut self, flag: u8)
        ensures
            final(self)@ == old(self)@.with_flag(flag, true),
            final(self).bus == old(self).bus,
    {
        self.status.insert(flag);
    }

    pub fn clear_flag(&mut self, flag: u8)
        ensures
            final(self)@ == old(self)@.with_flag(flag, false),
            final(self).bus == old(self).bus,
    {
        self.status.remove(flag);
    }

    pub fn set_carry_flag(&mut self)
        ensures
            final(self)@ == old(self)@.with_flag(CpuFlags::CARRY, true),
            final(self).bus == old(self).bus,
    {
        self.set_flag(CpuFlags::CARRY);
    }

    pub fn clear_carry_flag(&mut self)
        ensures
            final(self)@ == old(self)@.with_flag(CpuFlags::CARRY, false),
            final(self).bus == old(self).bus,
    {
        self.clear_flag(CpuFlags::CARRY);
    }

    /// Writes `value` at the stack slot, then moves the offset down.
    pub fn stack_push(&mut self, value: u8)
        requires
            old(self).wf(),
        ensures
            final(self)@ == old(self)@.push(value),
            final(self).wf(),
    {
        proof {
            reveal(CpuModel::push);
        }
        let addr = self.stackptr.addr();
        let _ = self.bus.mem_write(addr, value);
        self.stackptr.inc();
    }

    pub fn stack_push_u16(&mut self, value: u16)
        requires
            old(self).wf(),
        ensures
            final(self)@ == old(self)@.push_u16(value),
            final(self).wf(),
    {
        proof {
            reveal(CpuModel::push_u16);
        }
        let hi = (value / 256) as u8;
        let lo = (value % 256) as u8;
        self.stack_push(hi);
        self.stack_push(lo);
    }

    /// Moves the offset up, then reads the slot.
    pub fn stack_pop(&mut self) -> (r: u8)
        requires
            old(self).wf(),
        ensures
            (final(self)@, r) == old(self)@.pop(),
            final(self).wf(),
    {
        proof {
            reveal(CpuModel::pop);
        }
        self.stackptr.dec();
        let addr = self.stackptr.addr();
        self.bus.mem_read(addr)
    }

    pub fn stack_pop_u16(&mut self) -> (r: u16)
        requires
            old(self).wf(),
        ensures
            (final(self)@, r) == old(self)@.pop_u16(),
            final(self).wf(),
    {
        proof {
            reveal(CpuModel::pop_u16);
        }
        let lo = self.stack_pop() as u16;
        let hi = self.stack_pop() as u16;
        hi * 256 + lo
    }

    fn set_register_a(&mut self, value: u8)
        ensures
            final(self)@ == old(self)@.set_a(value),
            final(self).bus == old(self).bus,
    {
        self.register_a = value;
        self.update_zero_and_negative_flags(self.register_a);
    }

    fn set_register_x(&mut self, value: u8)
        ensures
            final(self)@ == old(self)@.set_x(value),
            final(self).bus == old(self).bus,
    {
        self.register_x = value;
        self.update_zero_and_negative_flags(self.register_x);
    }

    fn set_register_y(&mut self, value: u8)
        ensures
            final(self)@ == old(self)@.set_y(value),
            final(self).bus == old(self).bus,
    {
        self.register_y = value;
        self.update_zero_and_negative_flags(self.register_y);
    }

    /// Effective address of the operand of the instruction whose operand
    /// bytes start at the program counter.
    pub fn get_operand_address(&mut self, mode: &AddressingMode) -> (r: u16)
        requires
            old(self).wf(),
            *mode != AddressingMode::NoneAddressing,
        ensures
            final(self)@ == (CpuModel { bus: final(self)@.bus, ..old(self)@ }),
            (final(self)@, r) == old(self)@.operand(*mode),
            final(self).wf(),
    {
        proof {
            reveal(CpuModel::operand);
        }
        match *mode {
            AddressingMode::Immediate => self.program_counter,
            AddressingMode::ZeroPage => self.mem_read(self.program_counter) as u16,
            AddressingMode::Absolute => self.mem_read_u16(self.program_counter),
            AddressingMode::ZeroPage_X => {
                let addr = self.mem_read(self.program_counter);
                addr.wrapping_add(self.register_x) as u16
            },
            AddressingMode::ZeroPage_Y => {
                let addr = self.mem_read(self.program_counter);
                addr.wrapping_add(self.register_y) as u16
            },
            AddressingMode::Absolute_X => {
                let base = self.mem_read_u16(self.program_counter);
                base.wrapping_add(self.register_x as u16)
            },
            AddressingMode::Absolute_Y => {
                let base = self.mem_read_u16(self.program_counter);
                base.wrapping_add(self.register_y as u16)
            },
            AddressingMode::Indirect_X => {
                let base = self.mem_read(self.program_counter);
                let ptr: u8 = base.wrapping_add(self.register_x);
                let lo = self.mem_read(ptr as u16);
                let hi = self.mem_read(ptr.wrapping_add(1) as u16);
                (hi as u16) * 256 + lo as u16
            },
            AddressingMode::Indirect_Y => {
                let base = self.mem_read(self.program_counter);
                let lo = self.mem_read(base as u16);
                let hi = self.mem_read(base.wrapping_add(1) as u16);
                let deref_base = (hi as u16) * 256 + lo as u16;
                deref_base.wrapping_add(self.register_y as u16)
            },
            AddressingMode::NoneAddressing => 0,
        }
    }
}

impl CPU {
    fn branch(&mut self)
        requires
            old(self).wf(),
        ensures
            final(self)@ == old(self)@.branch(true),
            final(self).wf(),
    {
        proof {
            reveal(CpuModel::branch);
        }
        let jump = self.mem_read(self.program_counter);
        self.program_counter = self.program_counter.wrapping_add(1).wrapping_add((jump as i8) as u16);
    }

    /// Bit test.
    fn bit(&mut self, mode: &AddressingMode)
        requires
            old(self).wf(),
            *mode != AddressingMode::NoneAddressing,
        ensures
            final(self)@ == old(self)@.bit(*mode),
            final(self).wf(),
    {
        proof {
            reveal(CpuModel::bit);
        }
        let addr = self.get_operand_address(mode);
        let value = self.mem_read(addr);
        self.status.set(CpuFlags::ZERO, value & self.register_a == 0);
        self.status.set(CpuFlags::NEGATIVE, value & 0b1000_0000 == 0b1000_0000);
        self.status.set(CpuFlags::OVERFLOW, value & 0b0100_0000 == 0b0100_0000);
    }

    fn tax(&mut self)
        ensures
            final(self)@ == old(self)@.set_x(old(self)@.a),
            final(self).bus == old(self).bus,
    {
        self.set_register_x(self.register_a);
    }

    fn tay(&mut self)
        ensures
            final(self)@ == old(self)@.set_y(old(self)@.a),
            final(self).bus == old(self).bus,
    {
        self.set_register_y(self.register_a);
    }

    fn tsx(&mut self)
        ensures
            final(self)@ == old(self)@.set_x(old(self)@.sp),
            final(self).bus == old(self).bus,
    {
        self.set_register_x(self.stackptr.rel_addr());
    }

    fn txa(&mut self)
        ensures
            final(self)@ == old(self)@.set_a(old(self)@.x),
            final(self).bus == old(self).bus,
    {
        self.set_register_a(self.register_x);
    }

    fn txs(&mut self)
        ensures
            final(self)@ == (CpuModel { sp: old(self)@.x, ..old(self)@ }),
            final(self).bus == old(self).bus,
    {
        self.stackptr.set(self.register_x);
    }

    fn tya(&mut self)
        ensures
            final(self)@ == old(self)@.set_a(old(self)@.y),
            final(self).bus == old(self).bus,
    {
        self.set_register_a(self.register_y);
    }

    fn lda(&mut self, mode: &AddressingMode)
        requires
            old(self).wf(),
            *mode != AddressingMode::NoneAddressing,
        ensures
            final(self)@ == old(self)@.lda(*mode),
            final(self).wf(),
    {
        proof {
            reveal(CpuModel::lda);
        }
        let addr = self.get_operand_address(mode);
        let value = self.mem_read(addr);
        self.set_register_a(value);
    }

    fn ldx(&mut self, mode: &AddressingMode)
        requires
            old(self).wf(),
            *mode != AddressingMode::NoneAddressing,
        ensures
            final(self)@ == old(self)@.ldx(*mode),
            final(self).wf(),
    {
        proof {
            reveal(CpuModel::ldx);
        }
        let addr = self.get_operand_address(mode);
        let value = self.mem_read(addr);
        self.set_register_x(value);
    }

    fn ldy(&mut self, mode: &AddressingMode)
        requires
            old(self).wf(),
            *mode != AddressingMode::NoneAddressing,
        ensures
            final(self)@ == old(self)@.ldy(*mode),
            final(self).wf(),
    {
        proof {
            reveal(CpuModel::ldy);
        }
        let addr = self.get_operand_address(mode);
        let value = self.mem_read(addr);
        self.set_register_y(value);
    }

    fn sta(&mut self, mode: &AddressingMode) -> (r: Result<(), EmuError>)
        requires
            old(self).wf(),
            *mode != AddressingMode::NoneAddressing,
        ensures
            (final(self)@, r) == old(self)@.store(*mode, old(self)@.a),
            final(self).wf(),
    {
        proof {
            reveal(CpuModel::store);
        }
        let addr = self.get_operand_address(mode);
        self.mem_write(addr, self.register_a)
    }

    fn stx(&mut self, mode: &AddressingMode) -> (r: Result<(), EmuError>)
        requires
            old(self).wf(),
            *mode != AddressingMode::NoneAddressing,
        ensures
            (final(self)@, r) == old(self)@.store(*mode, old(self)@.x),
            final(self).wf(),
    {
        proof {
            reveal(CpuModel::store);
        }
        let addr = self.get_operand_address(mode);
        self.mem_write(addr, self.register_x)
    }

    fn sty(&mut self, mode: &AddressingMode) -> (r: Result<(), EmuError>)
        requires
            old(self).wf(),
            *mode != AddressingMode::NoneAddressing,
        ensures
            (final(self)@, r) == old(self)@.store(*mode, old(self)@.y),
            final(self).wf(),
    {
        proof {
            reveal(CpuModel::store);
        }
        let addr = self.get_operand_address(mode);
        self.mem_write(addr, self.register_y)
    }

    /// Arithmetic shift left, of the accumulator or of memory.
    fn asl(&mut self, mode: &AddressingMode) -> (r: Result<(), EmuError>)
        requires
            old(self).wf(),
        ensures
            (final(self)@, r) == old(self)@.shift(Mnemonic::Asl, *mode),
            final(self).wf(),
    {
        proof {
            reveal(CpuModel::shift);
        }
        match *mode {
            AddressingMode::NoneAddressing => {
                let mut value = self.register_a;
                self.status.set(CpuFlags::CARRY, value >> 7u8 == 1);
                value = value << 1u8;
                self.set_register_a(value);
                Ok(())
            },
            _ => {
                let addr = self.get_operand_address(mode);
                let mut value = self.mem_read(addr);
                self.status.set(CpuFlags::CARRY, value >> 7u8 == 1);
                value = value << 1u8;
                match self.mem_write(addr, value) {
                    Ok(()) => {
                        self.update_zero_and_negative_flags(value);
                        Ok(())
                    },
                    Err(e) => Err(e),
                }
            },
        }
    }

    /// Logical shift right, of the accumulator or of memory.
    fn lsr(&mut self, mode: &AddressingMode) -> (r: Result<(), EmuError>)
        requires
            old(self).wf(),
        ensures
            (final(self)@, r) == old(self)@.shift(Mnemonic::Lsr, *mode),
            final(self).wf(),
    {
        proof {
            reveal(CpuModel::shift);
        }
        match *mode {
            AddressingMode::NoneAddressing => {
                let mut value = self.register_a;
                self.status.set(CpuFlags::CARRY, value & 1 == 1);
                value = value >> 1u8;
                self.set_register_a(value);
                Ok(())
            },
            _ => {
                let addr = self.get_operand_address(mode);
                let mut value = self.mem_read(addr);
                self.status.set(CpuFlags::CARRY, value & 1 == 1);
                value = value >> 1u8;
                match self.mem_write(addr, value) {
                    Ok(()) => {
                        self.update_zero_and_negative_flags(value);
                        Ok(())
                    },
                    Err(e) => Err(e),
                }
            },
        }
    }

    /// Rotate left through the carry.
    fn rol(&mut self, mode: &AddressingMode) -> (r: Result<(), EmuError>)
        requires
            old(self).wf(),
        ensures
            (final(self)@, r) == old(self)@.shift(Mnemonic::Rol, *mode),
            final(self).wf(),
    {
        proof {
            reveal(CpuModel::shift);
        }
        match *mode {
            AddressingMode::NoneAddressing => {
                let mut value = self.register_a;
                let old_carry = self.status.contains(CpuFlags::CARRY);
                self.status.set(CpuFlags::CARRY, value >> 7u8 == 1);
                value = (value << 1u8) | (if old_carry { 1u8 } else { 0u8 });
                self.set_register_a(value);
                Ok(())
            },
            _ => {
                let addr = self.get_operand_address(mode);
                let mut value = self.mem_read(addr);
                let old_carry = self.status.contains(CpuFlags::CARRY);
                self.status.set(CpuFlags::CARRY, value >> 7u8 == 1);
                value = (value << 1u8) | (if old_carry { 1u8 } else { 0u8 });
                match self.mem_write(addr, value) {
                    Ok(()) => {
                        self.update_zero_and_negative_flags(value);
                        Ok(())
                    },
                    Err(e) => Err(e),
                }
            },
        }
    }

    /// Rotate right through the carry.
    fn ror(&mut self, mode: &AddressingMode) -> (r: Result<(), EmuError>)
        requires
            old(self).wf(),
        ensures
            (final(self)@, r) == old(self)@.shift(Mnemonic::Ror, *mode),
            final(self).wf(),
    {
        proof {
            reveal(CpuModel::shift);
        }
        match *mode {
            AddressingMode::NoneAddressing => {
                let mut value = self.register_a;
                let old_carry = self.status.contains(CpuFlags::CARRY);
                self.status.set(CpuFlags::CARRY, value & 1 == 1);
                value = (value >> 1u8) | (if old_carry { 0b1000_0000u8 } else { 0u8 });
                self.set_register_a(value);
                Ok(())
            },
            _ => {
                let addr = self.get_operand_address(mode);
                let mut value = self.mem_read(addr);
                let old_carry = self.status.contains(CpuFlags::CARRY);
                self.status.set(CpuFlags::CARRY, value & 1 == 1);
                value = (value >> 1u8) | (if old_carry { 0b1000_0000u8 } else { 0u8 });
                match self.mem_write(addr, value) {
                    Ok(()) => {
                        self.update_zero_and_negative_flags(value);
                        Ok(())
                    },
                    Err(e) => Err(e),
                }
            },
        }
    }

    fn pha(&mut self)
        requires
            old(self).wf(),
        ensures
            final(self)@ == old(self)@.push(old(self)@.a),
            final(self).wf(),
    {
        self.stack_push(self.register_a);
    }

    fn pla(&mut self)
        requires
            old(self).wf(),
        ensures
            final(self)@ == old(self)@.pla(),
            final(self).wf(),
    {
        proof {
            reveal(CpuModel::pla);
        }
        let value = self.stack_pop();
        self.set_register_a(value);
    }

    /// Pushes the status with break and break2 set.
    fn php(&mut self)
        requires
            old(self).wf(),
        ensures
            final(self)@ == old(self)@.php(),
            final(self).wf(),
    {
        proof {
            reveal(CpuModel::php);
        }
        let mut flags = self.status;
        flags.insert(CpuFlags::BREAK);
        flags.insert(CpuFlags::BREAK2);
        self.stack_push(flags.bits());
    }

    /// Pulls the status, then clears break and sets break2.
    fn plp(&mut self)
        requires
            old(self).wf(),
        ensures
            final(self)@ == old(self)@.plp(),
            final(self).wf(),
    {
        proof {
            reveal(CpuModel::plp);
        }
        self.status.bits = self.stack_pop();
        self.clear_flag(CpuFlags::BREAK);
        self.set_flag(CpuFlags::BREAK2);
    }
}

impl CPU {
    /// Logical and with the accumulator.
    fn and(&mut self, mode: &AddressingMode)
        requires
            old(self).wf(),
            *mode != AddressingMode::NoneAddressing,
        ensures
            final(self)@ == old(self)@.and(*mode),
            final(self).wf(),
    {
        proof {
            reveal(CpuModel::and);
        }
        let addr = self.get_operand_address(mode);
        let value = self.mem_read(addr);
        self.set_register_a(self.register_a & value);
    }

    /// Logical inclusive or with the accumulator.
    fn ora(&mut self, mode: &AddressingMode)
        requires
            old(self).wf(),
            *mode != AddressingMode::NoneAddressing,
        ensures
            final(self)@ == old(self)@.ora(*mode),
            final(self).wf(),
    {
        proof {
            reveal(CpuModel::ora);
        }
        let addr = self.get_operand_address(mode);
        let value = self.mem_read(addr);
        self.set_register_a(self.register_a | value);
    }

    /// Exclusive or with the accumulator.
    fn eor(&mut self, mode: &AddressingMode)
        requires
            old(self).wf(),
            *mode != AddressingMode::NoneAddressing,
        ensures
            final(self)@ == old(self)@.eor(*mode),
            final(self).wf(),
    {
        proof {
            reveal(CpuModel::eor);
        }
        let addr = self.get_operand_address(mode);
        let value = self.mem_read(addr);
        self.set_register_a(self.register_a ^ value);
    }

    /// Branch if positive.
    fn bpl(&mut self)
        requires
            old(self).wf(),
        ensures
            final(self)@ == old(self)@.branch(branch_taken(Mnemonic::Bpl, old(self)@.p)),
            final(self).wf(),
    {
        proof {
            reveal(CpuModel::branch);
        }
        if !self.status.contains(CpuFlags::NEGATIVE) {
            self.branch();
        }
    }

    /// Branch if minus.
    fn bmi(&mut self)
        requires
            old(self).wf(),
        ensures
            final(self)@ == old(self)@.branch(branch_taken(Mnemonic::Bmi, old(self)@.p)),
            final(self).wf(),
    {
        proof {
            reveal(CpuModel::branch);
        }
        if self.status.contains(CpuFlags::NEGATIVE) {
            self.branch();
        }
    }

    /// Branch if overflow clear.
    fn bvc(&mut self)
        requires
            old(self).wf(),
        ensures
            final(self)@ == old(self)@.branch(branch_taken(Mnemonic::Bvc, old(self)@.p)),
            final(self).wf(),
    {
        proof {
            reveal(CpuModel::branch);
        }
        if !self.status.contains(CpuFlags::OVERFLOW) {
            self.branch();
        }
    }

    /// Branch if overflow set.
    fn bvs(&mut self)
        requires
            old(self).wf(),
        ensures
            final(self)@ == old(self)@.branch(branch_taken(Mnemonic::Bvs, old(self)@.p)),
            final(self).wf(),
    {
        proof {
            reveal(CpuModel::branch);
        }
        if self.status.contains(CpuFlags::OVERFLOW) {
            self.branch();
        }
    }

    /// Branch if carry clear.
    fn bcc(&mut self)
        requires
            old(self).wf(),
        ensures
            final(self)@ == old(self)@.branch(branch_taken(Mnemonic::Bcc, old(self)@.p)),
            final(self).wf(),
    {
        proof {
            reveal(CpuModel::branch);
        }
        if !self.status.contains(CpuFlags::CARRY) {
            self.branch();
        }
    }

    /// Branch if carry set.
    fn bcs(&mut self)
        requires
            old(self).wf(),
        ensures
            final(self)@ == old(self)@.branch(branch_taken(Mnemonic::Bcs, old(self)@.p)),
            final(self).wf(),
    {
        proof {
            reveal(CpuModel::branch);
        }
        if self.status.contains(CpuFlags::CARRY) {
            self.branch();
        }
    }

    /// Branch if not equal.
    fn bne(&mut self)
        requires
            old(self).wf(),
        ensures
            final(self)@ == old(self)@.branch(branch_taken(Mnemonic::Bne, old(self)@.p)),
            final(self).wf(),
    {
        proof {
            reveal(CpuModel::branch);
        }
        if !self.status.contains(CpuFlags::ZERO) {
            self.branch();
        }
    }

    /// Branch if equal.
    fn beq(&mut self)
        requires
            old(self).wf(),
        ensures
            final(self)@ == old(self)@.branch(branch_taken(Mnemonic::Beq, old(self)@.p)),
            final(self).wf(),
    {
        proof {
            reveal(CpuModel::branch);
        }
        if self.status.contains(CpuFlags::ZERO) {
            self.branch();
        }
    }

    /// Compares the accumulator with memory.
    fn cmp(&mut self, mode: &AddressingMode)
        requires
            old(self).wf(),
            *mode != AddressingMode::NoneAddressing,
        ensures
            final(self)@ == old(self)@.compare(*mode, old(self)@.a),
            final(self).wf(),
    {
        proof {
            reveal(CpuModel::compare);
        }
        let addr = self.get_operand_address(mode);
        let value = self.mem_read(addr);
        self.status.set(CpuFlags::CARRY, self.register_a >= value);
        self.update_zero_and_negative_flags(self.register_a.wrapping_sub(value));
    }

    /// Compares index X with memory.
    fn cpx(&mut self, mode: &AddressingMode)
        requires
            old(self).wf(),
            *mode != AddressingMode::NoneAddressing,
        ensures
            final(self)@ == old(self)@.compare(*mode, old(self)@.x),
            final(self).wf(),
    {
        proof {
            reveal(CpuModel::compare);
        }
        let addr = self.get_operand_address(mode);
        let value = self.mem_read(addr);
        self.status.set(CpuFlags::CARRY, self.register_x >= value);
        self.update_zero_and_negative_flags(self.register_x.wrapping_sub(value));
    }

    /// Compares index Y with memory.
    fn cpy(&mut self, mode: &AddressingMode)
        requires
            old(self).wf(),
            *mode != AddressingMode::NoneAddressing,
        ensures
            final(self)@ == old(self)@.compare(*mode, old(self)@.y),
            final(self).wf(),
    {
        proof {
            reveal(CpuModel::compare);
        }
        let addr = self.get_operand_address(mode);
        let value = self.mem_read(addr);
        self.status.set(CpuFlags::CARRY, self.register_y >= value);
        self.update_zero_and_negative_flags(self.register_y.wrapping_sub(value));
    }

    /// Increments the byte in memory.
    fn inc(&mut self, mode: &AddressingMode) -> (r: Result<(), EmuError>)
        requires
            old(self).wf(),
            *mode != AddressingMode::NoneAddressing,
        ensures
            (final(self)@, r) == old(self)@.step_memory(*mode, true),
            final(self).wf(),
    {
        proof {
            reveal(CpuModel::step_memory);
        }
        let addr = self.get_operand_address(mode);
        let value = self.mem_read(addr).wrapping_add(1);
        match self.mem_write(addr, value) {
            Ok(()) => {
                self.update_zero_and_negative_flags(value);
                Ok(())
            },
            Err(e) => Err(e),
        }
    }

    /// Decrements the byte in memory.
    fn dec(&mut self, mode: &AddressingMode) -> (r: Result<(), EmuError>)
        requires
            old(self).wf(),
            *mode != AddressingMode::NoneAddressing,
        ensures
            (final(self)@, r) == old(self)@.step_memory(*mode, false),
            final(self).wf(),
    {
        proof {
            reveal(CpuModel::step_memory);
        }
        let addr = self.get_operand_address(mode);
        let value = self.mem_read(addr).wrapping_sub(1);
        match self.mem_write(addr, value) {
            Ok(()) => {
                self.update_zero_and_negative_flags(value);
                Ok(())
            },
            Err(e) => Err(e),
        }
    }

    fn inx(&mut self)
        ensures
            final(self)@ == old(self)@.set_x(old(self)@.x.wrapping_add(1)),
            final(self).bus == old(self).bus,
    {
        self.set_register_x(self.register_x.wrapping_add(1));
    }

    fn iny(&mut self)
        ensures
            final(self)@ == old(self)@.set_y(old(self)@.y.wrapping_add(1)),
            final(self).bus == old(self).bus,
    {
        self.set_register_y(self.register_y.wrapping_add(1));
    }

    fn dex(&mut self)
        ensures
            final(self)@ == old(self)@.set_x(old(self)@.x.wrapping_sub(1)),
            final(self).bus == old(self).bus,
    {
        self.set_register_x(self.register_x.wrapping_sub(1));
    }

    fn dey(&mut self)
        ensures
            final(self)@ == old(self)@.set_y(old(self)@.y.wrapping_sub(1)),
            final(self).bus == old(self).bus,
    {
        self.set_register_y(self.register_y.wrapping_sub(1));
    }

    /// Jump, direct or through a pointer.  A pointer whose low byte ends a
    /// page takes its high byte from the start of that same page.
    fn jmp(&mut self, mode: &AddressingMode)
        requires
            old(self).wf(),
            *mode == AddressingMode::Absolute || *mode == AddressingMode::NoneAddressing,
        ensures
            final(self)@ == old(self)@.jmp(*mode),
            final(self).wf(),
    {
        proof {
            reveal(CpuModel::jmp);
        }
        let addr = self.mem_read_u16(self.program_counter);
        match *mode {
            AddressingMode::Absolute => {
                self.program_counter = addr;
            },
            _ => {
                let indirect_ref = if addr & 0x00FF == 0x00FF {
                    let lo = self.mem_read(addr);
                    let hi = self.mem_read(addr & 0xFF00);
                    (hi as u16) * 256 + lo as u16
                } else {
                    self.mem_read_u16(addr)
                };
                self.program_counter = indirect_ref;
            },
        }
    }

    /// Jump to subroutine: pushes the address of the call's last byte.
    fn jsr(&mut self)
        requires
            old(self).wf(),
        ensures
            final(self)@ == old(self)@.jsr(),
            final(self).wf(),
    {
        proof {
            reveal(CpuModel::jsr);
        }
        self.stack_push_u16(self.program_counter.wrapping_add(1));
        let addr = self.mem_read_u16(self.program_counter);
        self.program_counter = addr;
    }

    /// Return from interrupt: pulls the status, then the program counter.
    fn rti(&mut self)
        requires
            old(self).wf(),
        ensures
            final(self)@ == old(self)@.rti(),
            final(self).wf(),
    {
        proof {
            reveal(CpuModel::rti);
        }
        self.status.bits = self.stack_pop();
        self.clear_flag(CpuFlags::BREAK);
        self.set_flag(CpuFlags::BREAK2);
        self.program_counter = self.stack_pop_u16();
    }

    /// Return from subroutine.
    fn rts(&mut self)
        requires
            old(self).wf(),
        ensures
            final(self)@ == old(self)@.rts(),
            final(self).wf(),
    {
        proof {
            reveal(CpuModel::rts);
        }
        self.program_counter = self.stack_pop_u16().wrapping_add(1);
    }

    /// Adds `value` and the carry to the accumulator, setting carry from
    /// the ninth bit and overflow when the sign comes out wrong.
    fn add_to_register_a(&mut self, value: u8)
        ensures
            final(self)@ == old(self)@.add_to_a(value),
            final(self).bus == old(self).bus,
    {
        proof {
            reveal(CpuModel::add_to_a);
        }
        let mut sum: u16 = self.register_a as u16 + value as u16;
        if self.status.contains(CpuFlags::CARRY) {
            sum = sum + 1;
        }
        self.status.set(CpuFlags::CARRY, sum > 0xFF);
        let result = (sum % 256) as u8;
        self.status.set(
            CpuFlags::OVERFLOW,
            (value ^ result) & (result ^ self.register_a) & 0b1000_0000 != 0,
        );
        self.set_register_a(result);
    }

    /// Subtract with borrow.
    fn sbc(&mut self, mode: &AddressingMode)
        requires
            old(self).wf(),
            *mode != AddressingMode::NoneAddressing,
        ensures
            final(self)@ == old(self)@.sbc(*mode),
            final(self).wf(),
    {
        proof {
            reveal(CpuModel::sbc);
        }
        let addr = self.get_operand_address(mode);
        let value = self.mem_read(addr);
        self.add_to_register_a(255 - value);
    }

    /// Add with carry.
    fn adc(&mut self, mode: &AddressingMode)
        requires
            old(self).wf(),
            *mode != AddressingMode::NoneAddressing,
        ensures
            final(self)@ == old(self)@.adc(*mode),
            final(self).wf(),
    {
        proof {
            reveal(CpuModel::adc);
        }
        let addr = self.get_operand_address(mode);
        let value = self.mem_read(addr);
        self.add_to_register_a(value);
    }
}

impl CPU {
    /// Whether `op`, run now, sets the program counter itself.
    fn redirects(&self, op: &OpCode) -> (r: bool)
        ensures
            r == redirects(op.mnemonic, self@.p),
    {
        match op.mnemonic {
            Mnemonic::Jmp | Mnemonic::Jsr | Mnemonic::Rts | Mnemonic::Rti => true,
            Mnemonic::Bpl => !self.status.contains(CpuFlags::NEGATIVE),
            Mnemonic::Bmi => self.status.contains(CpuFlags::NEGATIVE),
            Mnemonic::Bvc => !self.status.contains(CpuFlags::OVERFLOW),
            Mnemonic::Bvs => self.status.contains(CpuFlags::OVERFLOW),
            Mnemonic::Bcc => !self.status.contains(CpuFlags::CARRY),
            Mnemonic::Bcs => self.status.contains(CpuFlags::CARRY),
            Mnemonic::Bne => !self.status.contains(CpuFlags::ZERO),
            Mnemonic::Beq => self.status.contains(CpuFlags::ZERO),
            _ => false,
        }
    }

    /// Performs `op`, whose opcode byte has been consumed.
    fn execute(&mut self, op: &OpCode) -> (r: Result<(), EmuError>)
        requires
            old(self).wf(),
            op.well_formed(),
        ensures
            (final(self)@, r) == old(self)@.execute(*op),
            final(self).wf(),
    {
        match op.mnemonic {
            Mnemonic::Brk | Mnemonic::Nop | Mnemonic::Tax | Mnemonic::Tay | Mnemonic::Tsx
            | Mnemonic::Txa | Mnemonic::Txs | Mnemonic::Tya | Mnemonic::Clc | Mnemonic::Cld
            | Mnemonic::Cli | Mnemonic::Clv | Mnemonic::Sec | Mnemonic::Sed | Mnemonic::Sei
            | Mnemonic::Inx | Mnemonic::Iny | Mnemonic::Dex | Mnemonic::Dey => {
                self.execute_register_op(op)
            },
            Mnemonic::Pha | Mnemonic::Pla | Mnemonic::Php | Mnemonic::Plp | Mnemonic::Bpl
            | Mnemonic::Bmi | Mnemonic::Bvc | Mnemonic::Bvs | Mnemonic::Bcc | Mnemonic::Bcs
            | Mnemonic::Bne | Mnemonic::Beq | Mnemonic::Jmp | Mnemonic::Jsr | Mnemonic::Rti
            | Mnemonic::Rts => self.execute_control_op(op),
            Mnemonic::Asl | Mnemonic::Lsr | Mnemonic::Rol | Mnemonic::Ror | Mnemonic::Inc
            | Mnemonic::Dec => self.execute_modify_op(op),
            _ => self.execute_operand_op(op),
        }
    }

    /// Operations on registers and flags alone.
    fn execute_register_op(&mut self, op: &OpCode) -> (r: Result<(), EmuError>)
        requires
            old(self).wf(),
            op.well_formed(),
            op.mnemonic == Mnemonic::Brk || op.mnemonic == Mnemonic::Nop ||
                op.mnemonic == Mnemonic::Tax || op.mnemonic == Mnemonic::Tay ||
                op.mnemonic == Mnemonic::Tsx || op.mnemonic == Mnemonic::Txa ||
                op.mnemonic == Mnemonic::Txs || op.mnemonic == Mnemonic::Tya ||
                op.mnemonic == Mnemonic::Clc || op.mnemonic == Mnemonic::Cld ||
                op.mnemonic == Mnemonic::Cli || op.mnemonic == Mnemonic::Clv ||
                op.mnemonic == Mnemonic::Sec || op.mnemonic == Mnemonic::Sed ||
                op.mnemonic == Mnemonic::Sei || op.mnemonic == Mnemonic::Inx ||
                op.mnemonic == Mnemonic::Iny || op.mnemonic == Mnemonic::Dex ||
                op.mnemonic == Mnemonic::Dey,
        ensures
            (final(self)@, r) == old(self)@.execute(*op),
            final(self).wf(),
    {
        match op.mnemonic {
            Mnemonic::Brk | Mnemonic::Nop => Ok(()),
            Mnemonic::Tax => {
                self.tax();
                Ok(())
            },
            Mnemonic::Tay => {
                self.tay();
                Ok(())
            },
            Mnemonic::Tsx => {
                self.tsx();
                Ok(())
            },
            Mnemonic::Txa => {
                self.txa();
                Ok(())
            },
            Mnemonic::Txs => {
                self.txs();
                Ok(())
            },
            Mnemonic::Tya => {
                self.tya();
                Ok(())
            },
            Mnemonic::Clc => {
                self.clear_flag(CpuFlags::CARRY);
                Ok(())
            },
            Mnemonic::Cld => {
                self.clear_flag(CpuFlags::DECIMAL_MODE);
                Ok(())
            },
            Mnemonic::Cli => {
                self.clear_flag(CpuFlags::INTERRUPT_DISABLE);
                Ok(())
            },
            Mnemonic::Clv => {
                self.clear_flag(CpuFlags::OVERFLOW);
                Ok(())
            },
            Mnemonic::Sec => {
                self.set_flag(CpuFlags::CARRY);
                Ok(())
            },
            Mnemonic::Sed => {
                self.set_flag(CpuFlags::DECIMAL_MODE);
                Ok(())
            },
            Mnemonic::Sei => {
                self.set_flag(CpuFlags::INTERRUPT_DISABLE);
                Ok(())
            },
            Mnemonic::Inx => {
                self.inx();
                Ok(())
            },
            Mnemonic::Iny => {
                self.iny();
                Ok(())
            },
            Mnemonic::Dex => {
                self.dex();
                Ok(())
            },
            Mnemonic::Dey => {
                self.dey();
                Ok(())
            },
            _ => Ok(()),
        }
    }

    /// Stack transfers, branches, jumps, calls and returns.
    fn execute_control_op(&mut self, op: &OpCode) -> (r: Result<(), EmuError>)
        requires
            old(self).wf(),
            op.well_formed(),
            op.mnemonic == Mnemonic::Pha || op.mnemonic == Mnemonic::Pla ||
                op.mnemonic == Mnemonic::Php || op.mnemonic == Mnemonic::Plp ||
                op.mnemonic == Mnemonic::Bpl || op.mnemonic == Mnemonic::Bmi ||
                op.mnemonic == Mnemonic::Bvc || op.mnemonic == Mnemonic::Bvs ||
                op.mnemonic == Mnemonic::Bcc || op.mnemonic == Mnemonic::Bcs ||
                op.mnemonic == Mnemonic::Bne || op.mnemonic == Mnemonic::Beq ||
                op.mnemonic == Mnemonic::Jmp || op.mnemonic == Mnemonic::Jsr ||
                op.mnemonic == Mnemonic::Rti || op.mnemonic == Mnemonic::Rts,
        ensures
            (final(self)@, r) == old(self)@.execute(*op),
            final(self).wf(),
    {
        let mode = &op.addressing_mode;
        match op.mnemonic {
            Mnemonic::Pha => {
                self.pha();
                Ok(())
            },
            Mnemonic::Pla => {
                self.pla();
                Ok(())
            },
            Mnemonic::Php => {
                self.php();
                Ok(())
            },
            Mnemonic::Plp => {
                self.plp();
                Ok(())
            },
            Mnemonic::Bpl => {
                self.bpl();
                Ok(())
            },
            Mnemonic::Bmi => {
                self.bmi();
                Ok(())
            },
            Mnemonic::Bvc => {
                self.bvc();
                Ok(())
            },
            Mnemonic::Bvs => {
                self.bvs();
                Ok(())
            },
            Mnemonic::Bcc => {
                self.bcc();
                Ok(())
            },
            Mnemonic::Bcs => {
                self.bcs();
                Ok(())
            },
            Mnemonic::Bne => {
                self.bne();
                Ok(())
            },
            Mnemonic::Beq => {
                self.beq();
                Ok(())
            },
            Mnemonic::Jmp => {
                self.jmp(mode);
                Ok(())
            },
            Mnemonic::Jsr => {
                self.jsr();
                Ok(())
            },
            Mnemonic::Rti => {
                self.rti();
                Ok(())
            },
            Mnemonic::Rts => {
                self.rts();
                Ok(())
            },
            _ => Ok(()),
        }
    }

    /// Loads, stores, logic, arithmetic and comparisons.
    fn execute_operand_op(&mut self, op: &OpCode) -> (r: Result<(), EmuError>)
        requires
            old(self).wf(),
            op.well_formed(),
            op.mnemonic == Mnemonic::Bit || op.mnemonic == Mnemonic::Lda ||
                op.mnemonic == Mnemonic::Ldx || op.mnemonic == Mnemonic::Ldy ||
                op.mnemonic == Mnemonic::Sta || op.mnemonic == Mnemonic::Stx ||
                op.mnemonic == Mnemonic::Sty || op.mnemonic == Mnemonic::And ||
                op.mnemonic == Mnemonic::Ora || op.mnemonic == Mnemonic::Eor ||
                op.mnemonic == Mnemonic::Cmp || op.mnemonic == Mnemonic::Cpx ||
                op.mnemonic == Mnemonic::Cpy || op.mnemonic == Mnemonic::Adc ||
                op.mnemonic == Mnemonic::Sbc,
        ensures
            (final(self)@, r) == old(self)@.execute(*op),
            final(self).wf(),
    {
        let mode = &op.addressing_mode;
        match op.mnemonic {
            Mnemonic::Bit => {
                self.bit(mode);
                Ok(())
            },
            Mnemonic::Lda => {
                self.lda(mode);
                Ok(())
            },
            Mnemonic::Ldx => {
                self.ldx(mode);
                Ok(())
            },
            Mnemonic::Ldy => {
                self.ldy(mode);
                Ok(())
            },
            Mnemonic::Sta => self.sta(mode),
            Mnemonic::Stx => self.stx(mode),
            Mnemonic::Sty => self.sty(mode),
            Mnemonic::And => {
                self.and(mode);
                Ok(())
            },
            Mnemonic::Ora => {
                self.ora(mode);
                Ok(())
            },
            Mnemonic::Eor => {
                self.eor(mode);
                Ok(())
            },
            Mnemonic::Cmp => {
                self.cmp(mode);
                Ok(())
            },
            Mnemonic::Cpx => {
                self.cpx(mode);
                Ok(())
            },
            Mnemonic::Cpy => {
                self.cpy(mode);
                Ok(())
            },
            Mnemonic::Adc => {
                self.adc(mode);
                Ok(())
            },
            Mnemonic::Sbc => {
                self.sbc(mode);
                Ok(())
            },
            _ => Ok(()),
        }
    }

    /// Shifts, rotates, increments and decrements.
    fn execute_modify_op(&mut self, op: &OpCode) -> (r: Result<(), EmuError>)
        requires
            old(self).wf(),
            op.well_formed(),
            op.mnemonic == Mnemonic::Asl || op.mnemonic == Mnemonic::Lsr ||
                op.mnemonic == Mnemonic::Rol || op.mnemonic == Mnemonic::Ror ||
                op.mnemonic == Mnemonic::Inc || op.mnemonic == Mnemonic::Dec,
        ensures
            (final(self)@, r) == old(self)@.execute(*op),
            final(self).wf(),
    {
        let mode = &op.addressing_mode;
        match op.mnemonic {
            Mnemonic::Asl => self.asl(mode),
            Mnemonic::Lsr => self.lsr(mode),
            Mnemonic::Rol => self.rol(mode),
            Mnemonic::Ror => self.ror(mode),
            Mnemonic::Inc => self.inc(mode),
            Mnemonic::Dec => self.dec(mode),
            _ => Ok(()),
        }
    }

    /// Fetches, decodes and executes one instruction.  `Ok(true)` when it
    /// was the halt instruction.  An undefined opcode byte ends with the
    /// error and the program counter still on that byte; a store into
    /// cartridge storage ends with the error and with the instruction's
    /// effects up to the refused store.
    pub fn step(&mut self) -> (r: Result<bool, EmuError>)
        requires
            old(self).wf(),
        ensures
            (final(self)@, r) == old(self)@.step(),
            final(self).wf(),
    {
        let opcode = self.mem_read(self.program_counter);
        let instr = match OpCode::lookup(opcode) {
            Some(op) => op,
            None => {
                return Err(EmuError::UnknownOpcode(opcode));
            },
        };
        self.program_counter = self.program_counter.wrapping_add(1);
        if instr.mnemonic == Mnemonic::Brk {
            return Ok(true);
        }
        let redirected = self.redirects(&instr);
        match self.execute(&instr) {
            Ok(()) => {},
            Err(e) => {
                return Err(e);
            },
        }
        if !redirected {
            self.program_counter = self.program_counter.wrapping_add((instr.bytes - 1) as u16);
        }
        Ok(false)
    }

    /// Runs until the halt instruction or a fault, handing the processor to
    /// `callback` after each instruction that did not halt.  The callback
    /// only observes: it cannot change the processor.  It gives up after
    /// `u64::MAX` instructions, a bound no session reaches.
    pub fn run_with_callback<F: Fn(&CPU)>(&mut self, callback: F) -> (r: Result<(), EmuError>)
        requires
            old(self).wf(),
            forall|c: &CPU| callback.requires((c,)),
        ensures
            run_reports(r, final(self)@, old(self)@.run(u64::MAX as nat)),
            final(self).wf(),
    {
        let mut n: u64 = 0;
        while n < u64::MAX
            invariant
                self.wf(),
                forall|c: &CPU| callback.requires((c,)),
                old(self)@.run(u64::MAX as nat) == self@.run((u64::MAX - n) as nat),
            decreases u64::MAX - n,
        {
            match self.step() {
                Ok(true) => {
                    return Ok(());
                },
                Ok(false) => {},
                Err(e) => {
                    return Err(e);
                },
            }
            callback(self);
            n = n + 1;
        }
        Ok(())
    }

    /// Runs until the halt instruction or a fault.
    pub fn run(&mut self) -> (r: Result<(), EmuError>)
        requires
            old(self).wf(),
        ensures
            run_reports(r, final(self)@, old(self)@.run(u64::MAX as nat)),
            final(self).wf(),
    {
        self.run_with_callback(|_cpu: &CPU| {})
    }

    /// Returns to the power-up register values and takes the program
    /// counter from the reset vector.
    pub fn reset(&mut self)
        requires
            old(self).wf(),
        ensures
            final(self)@ == reset_state(old(self)@),
            final(self).wf(),
    {
        self.register_a = 0;
        self.register_x = 0;
        self.register_y = 0;
        self.stackptr.reset();
        self.status = CpuFlags::from_bits(POWER_UP_STATUS);
        self.program_counter = self.mem_read_u16(RESET_VECTOR);
    }

    /// Makes `program` the cartridge image, starting at the window's base,
    /// with the reset vector pointing there.  Work RAM is kept.
    pub fn load(&mut self, program: Vec<u8>)
        requires
            program@.len() <= PRG_WINDOW,
        ensures
            final(self)@ == (CpuModel {
                bus: BusModel { prg_rom: load_image(program@), ..old(self)@.bus },
                ..old(self)@
            }),
            final(self).bus@.wf() == old(self).bus@.wf(),
    {
        let mut image: Vec<u8> = Vec::new();
        let mut i: usize = 0;
        while i < PRG_WINDOW
            invariant
                i <= PRG_WINDOW,
                program@.len() <= PRG_WINDOW,
                image@.len() == i,
                forall|j: int|
                    0 <= j < i ==> #[trigger] image@[j] == if j < program@.len() {
                        program@[j]
                    } else {
                        0u8
                    },
            decreases PRG_WINDOW - i,
        {
            let byte = if i < program.len() {
                program[i]
            } else {
                0u8
            };
            image.push(byte);
            i = i + 1;
        }
        image.set(0x7FFC, 0x00);
        image.set(0x7FFD, 0x80);
        assert(image@ =~= load_image(program@));
        self.bus.load_prg_rom(image);
    }

    /// Loads `program`, resets, and runs it.
    pub fn load_and_run(&mut self, program: Vec<u8>) -> (r: Result<(), EmuError>)
        requires
            old(self).wf(),
            program@.len() <= PRG_WINDOW,
        ensures
            run_reports(
                r,
                final(self)@,
                reset_state(
                    CpuModel {
                        bus: BusModel { prg_rom: load_image(program@), ..old(self)@.bus },
                        ..old(self)@
                    },
                ).run(u64::MAX as nat),
            ),
            final(self).wf(),
    {
        self.load(program);
        self.reset();
        self.run()
    }
}

} // verus!
