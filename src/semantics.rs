//! What each instruction does, stated over plain values: the machine state
//! as a model, one spec function per operation, and the fetch-execute step.
use vstd::prelude::*;

use crate::bus::{bus_read, bus_read_u16, bus_write, write_result, BusModel};
use crate::error::EmuError;
use crate::flags::{has_bits, with_bits, CpuFlags};
use crate::opcode::{opcode_table, AddressingMode, Mnemonic, OpCode};
use crate::stackptr::stack_address;

verus! {

/// The processor and its bus, as plain values.
pub struct CpuModel {
    pub a: u8,
    pub x: u8,
    pub y: u8,
    /// Stack offset.
    pub sp: u8,
    /// Status flags.
    pub p: u8,
    pub pc: u16,
    pub bus: BusModel,
}

/// Status `p` with zero and negative describing `v`.
pub open spec fn zn(p: u8, v: u8) -> u8 {
    with_bits(with_bits(p, CpuFlags::ZERO, v == 0), CpuFlags::NEGATIVE, v & 0b1000_0000 != 0)
}

/// Status byte as the flag-pull instructions leave it: break clear, break2 set.
pub open spec fn pulled_flags(v: u8) -> u8 {
    with_bits(with_bits(v, CpuFlags::BREAK, false), CpuFlags::BREAK2, true)
}

/// Status byte as the flag-push instruction stores it: break and break2 set.
pub open spec fn pushed_flags(p: u8) -> u8 {
    with_bits(with_bits(p, CpuFlags::BREAK, true), CpuFlags::BREAK2, true)
}

/// Result and carry out of a shift or rotate of `v` with carry in `carry`.
pub open spec fn shift_result(m: Mnemonic, v: u8, carry: bool) -> (u8, bool) {
    match m {
        Mnemonic::Asl => (v << 1u8, v >> 7u8 == 1),
        Mnemonic::Lsr => (v >> 1u8, v & 1 == 1),
        Mnemonic::Rol => ((v << 1u8) | (if carry { 1u8 } else { 0u8 }), v >> 7u8 == 1),
        _ => ((v >> 1u8) | (if carry { 0b1000_0000u8 } else { 0u8 }), v & 1 == 1),
    }
}

/// Target of a taken branch whose displacement byte `d` sits at `pc`.
pub open spec fn branch_target(pc: u16, d: u8) -> u16 {
    pc.wrapping_add(1).wrapping_add((d as i8) as u16)
}

/// The condition under which branch `m` is taken, for status `p`.
pub open spec fn branch_taken(m: Mnemonic, p: u8) -> bool {
    match m {
        Mnemonic::Bpl => !has_bits(p, CpuFlags::NEGATIVE),
        Mnemonic::Bmi => has_bits(p, CpuFlags::NEGATIVE),
        Mnemonic::Bvc => !has_bits(p, CpuFlags::OVERFLOW),
        Mnemonic::Bvs => has_bits(p, CpuFlags::OVERFLOW),
        Mnemonic::Bcc => !has_bits(p, CpuFlags::CARRY),
        Mnemonic::Bcs => has_bits(p, CpuFlags::CARRY),
        Mnemonic::Bne => !has_bits(p, CpuFlags::ZERO),
        _ => has_bits(p, CpuFlags::ZERO),
    }
}

/// Operation `m`, run with status `p`, sets the program counter itself:
/// jumps, calls, returns, and branches whose condition holds.
pub open spec fn redirects(m: Mnemonic, p: u8) -> bool {
    match m {
        Mnemonic::Jmp | Mnemonic::Jsr | Mnemonic::Rts | Mnemonic::Rti => true,
        Mnemonic::Bpl | Mnemonic::Bmi | Mnemonic::Bvc | Mnemonic::Bvs | Mnemonic::Bcc
        | Mnemonic::Bcs | Mnemonic::Bne | Mnemonic::Beq => branch_taken(m, p),
        _ => false,
    }
}

/// The flag that a set/clear-flag operation touches, and its new value.
pub open spec fn flag_op(m: Mnemonic) -> (u8, bool) {
    match m {
        Mnemonic::Clc => (CpuFlags::CARRY, false),
        Mnemonic::Cld => (CpuFlags::DECIMAL_MODE, false),
        Mnemonic::Cli => (CpuFlags::INTERRUPT_DISABLE, false),
        Mnemonic::Clv => (CpuFlags::OVERFLOW, false),
        Mnemonic::Sec => (CpuFlags::CARRY, true),
        Mnemonic::Sed => (CpuFlags::DECIMAL_MODE, true),
        _ => (CpuFlags::INTERRUPT_DISABLE, true),
    }
}

impl CpuModel {
    pub open spec fn wf(self) -> bool {
        self.bus.wf()
    }

    #[verifier::opaque]
    pub open spec fn read(self, addr: u16) -> (CpuModel, u8) {
        let (b, v) = bus_read(self.bus, addr);
        (CpuModel { bus: b, ..self }, v)
    }

    #[verifier::opaque]
    pub open spec fn read_u16(self, addr: u16) -> (CpuModel, u16) {
        let (b, v) = bus_read_u16(self.bus, addr);
        (CpuModel { bus: b, ..self }, v)
    }

    #[verifier::opaque]
    pub open spec fn write(self, addr: u16, v: u8) -> (CpuModel, Result<(), EmuError>) {
        let (b, r) = write_result(self.bus, addr, v);
        (CpuModel { bus: b, ..self }, r)
    }

    pub open spec fn with_zn(self, v: u8) -> CpuModel {
        CpuModel { p: zn(self.p, v), ..self }
    }

    pub open spec fn with_flag(self, flag: u8, on: bool) -> CpuModel {
        CpuModel { p: with_bits(self.p, flag, on), ..self }
    }

    pub open spec fn set_a(self, v: u8) -> CpuModel {
        CpuModel { a: v, p: zn(self.p, v), ..self }
    }

    pub open spec fn set_x(self, v: u8) -> CpuModel {
        CpuModel { x: v, p: zn(self.p, v), ..self }
    }

    pub open spec fn set_y(self, v: u8) -> CpuModel {
        CpuModel { y: v, p: zn(self.p, v), ..self }
    }

    /// Effective address of the operand, and the state after the operand
    /// bytes were read.
    #[verifier::opaque]
    pub open spec fn operand(self, mode: AddressingMode) -> (CpuModel, u16) {
        match mode {
            AddressingMode::Immediate => (self, self.pc),
            AddressingMode::ZeroPage => {
                let (s, b) = self.read(self.pc);
                (s, b as u16)
            },
            AddressingMode::Absolute => self.read_u16(self.pc),
            AddressingMode::ZeroPage_X => {
                let (s, b) = self.read(self.pc);
                (s, b.wrapping_add(self.x) as u16)
            },
            AddressingMode::ZeroPage_Y => {
                let (s, b) = self.read(self.pc);
                (s, b.wrapping_add(self.y) as u16)
            },
            AddressingMode::Absolute_X => {
                let (s, base) = self.read_u16(self.pc);
                (s, base.wrapping_add(self.x as u16))
            },
            AddressingMode::Absolute_Y => {
                let (s, base) = self.read_u16(self.pc);
                (s, base.wrapping_add(self.y as u16))
            },
            AddressingMode::Indirect_X => {
                let (s1, base) = self.read(self.pc);
                let ptr = base.wrapping_add(self.x);
                let (s2, lo) = s1.read(ptr as u16);
                let (s3, hi) = s2.read(ptr.wrapping_add(1) as u16);
                (s3, ((hi as u16) * 256 + lo as u16) as u16)
            },
            AddressingMode::Indirect_Y => {
                let (s1, base) = self.read(self.pc);
                let (s2, lo) = s1.read(base as u16);
                let (s3, hi) = s2.read(base.wrapping_add(1) as u16);
                (s3, (((hi as u16) * 256 + lo as u16) as u16).wrapping_add(self.y as u16))
            },
            AddressingMode::NoneAddressing => (self, 0),
        }
    }

    /// The operand byte, and the state after it was read.
    pub open spec fn fetch(self, mode: AddressingMode) -> (CpuModel, u8) {
        let (s, addr) = self.operand(mode);
        s.read(addr)
    }

    #[verifier::opaque]
    pub open spec fn push(self, v: u8) -> CpuModel {
        CpuModel {
            bus: bus_write(self.bus, stack_address(self.sp), v),
            sp: self.sp.wrapping_sub(1),
            ..self
        }
    }

    #[verifier::opaque]
    pub open spec fn pop(self) -> (CpuModel, u8) {
        let sp = self.sp.wrapping_add(1);
        let (b, v) = bus_read(self.bus, stack_address(sp));
        (CpuModel { sp, bus: b, ..self }, v)
    }

    /// High byte first, so that the low byte comes off first.
    #[verifier::opaque]
    pub open spec fn push_u16(self, v: u16) -> CpuModel {
        self.push((v / 256) as u8).push((v % 256) as u8)
    }

    #[verifier::opaque]
    pub open spec fn pop_u16(self) -> (CpuModel, u16) {
        let (s1, lo) = self.pop();
        let (s2, hi) = s1.pop();
        (s2, ((hi as u16) * 256 + lo as u16) as u16)
    }

    /// Adds `v` and the carry to the accumulator, in binary whatever the
    /// decimal flag says.
    #[verifier::opaque]
    pub open spec fn add_to_a(self, v: u8) -> CpuModel {
        let c: int = if has_bits(self.p, CpuFlags::CARRY) {
            1
        } else {
            0
        };
        let sum: int = self.a + v + c;
        let r = (sum % 256) as u8;
        let p1 = with_bits(self.p, CpuFlags::CARRY, sum > 0xFF);
        let p2 = with_bits(p1, CpuFlags::OVERFLOW, (v ^ r) & (r ^ self.a) & 0b1000_0000 != 0);
        CpuModel { p: p2, ..self }.set_a(r)
    }

    /// Compares register value `r` with the operand.
    #[verifier::opaque]
    pub open spec fn compare(self, mode: AddressingMode, r: u8) -> CpuModel {
        let (s, v) = self.fetch(mode);
        s.with_flag(CpuFlags::CARRY, r >= v).with_zn(r.wrapping_sub(v))
    }

    #[verifier::opaque]
    pub open spec fn store(self, mode: AddressingMode, v: u8) -> (CpuModel, Result<(), EmuError>) {
        let (s, addr) = self.operand(mode);
        s.write(addr, v)
    }

    /// Increments (`up`) or decrements the byte in memory.
    #[verifier::opaque]
    pub open spec fn step_memory(self, mode: AddressingMode, up: bool) -> (
        CpuModel,
        Result<(), EmuError>,
    ) {
        let (s1, addr) = self.operand(mode);
        let (s2, v) = s1.read(addr);
        let r = if up {
            v.wrapping_add(1)
        } else {
            v.wrapping_sub(1)
        };
        let (s3, res) = s2.write(addr, r);
        match res {
            Ok(_) => (s3.with_zn(r), Ok(())),
            Err(e) => (s3, Err(e)),
        }
    }

    /// A shift or rotate, of the accumulator when `mode` names no operand,
    /// else of the byte in memory.
    #[verifier::opaque]
    pub open spec fn shift(self, m: Mnemonic, mode: AddressingMode) -> (
        CpuModel,
        Result<(), EmuError>,
    ) {
        if mode == AddressingMode::NoneAddressing {
            let (r, c) = shift_result(m, self.a, has_bits(self.p, CpuFlags::CARRY));
            (self.with_flag(CpuFlags::CARRY, c).set_a(r), Ok(()))
        } else {
            let (s1, addr) = self.operand(mode);
            let (s2, v) = s1.read(addr);
            let (r, c) = shift_result(m, v, has_bits(s2.p, CpuFlags::CARRY));
            let (s3, res) = s2.with_flag(CpuFlags::CARRY, c).write(addr, r);
            match res {
                Ok(_) => (s3.with_zn(r), Ok(())),
                Err(e) => (s3, Err(e)),
            }
        }
    }

    #[verifier::opaque]
    pub open spec fn bit(self, mode: AddressingMode) -> CpuModel {
        let (s, v) = self.fetch(mode);
        s.with_flag(CpuFlags::ZERO, v & self.a == 0).with_flag(
            CpuFlags::NEGATIVE,
            v & 0b1000_0000 == 0b1000_0000,
        ).with_flag(CpuFlags::OVERFLOW, v & 0b0100_0000 == 0b0100_0000)
    }

    #[verifier::opaque]
    pub open spec fn branch(self, taken: bool) -> CpuModel {
        if taken {
            let (s, d) = self.read(self.pc);
            CpuModel { pc: branch_target(self.pc, d), ..s }
        } else {
            self
        }
    }

    /// Jumps; with no operand mode the operand is a pointer, whose high byte
    /// is fetched from the start of the same page when the low byte ends it.
    #[verifier::opaque]
    pub open spec fn jmp(self, mode: AddressingMode) -> CpuModel {
        let (s1, ptr) = self.read_u16(self.pc);
        if mode == AddressingMode::Absolute {
            CpuModel { pc: ptr, ..s1 }
        } else if ptr & 0x00FF == 0x00FF {
            let (s2, lo) = s1.read(ptr);
            let (s3, hi) = s2.read(ptr & 0xFF00);
            CpuModel { pc: ((hi as u16) * 256 + lo as u16) as u16, ..s3 }
        } else {
            let (s2, target) = s1.read_u16(ptr);
            CpuModel { pc: target, ..s2 }
        }
    }

    #[verifier::opaque]
    pub open spec fn jsr(self) -> CpuModel {
        let s1 = self.push_u16(self.pc.wrapping_add(1));
        let (s2, target) = s1.read_u16(s1.pc);
        CpuModel { pc: target, ..s2 }
    }

    #[verifier::opaque]
    pub open spec fn rti(self) -> CpuModel {
        let (s1, v) = self.pop();
        let (s2, pc) = CpuModel { p: pulled_flags(v), ..s1 }.pop_u16();
        CpuModel { pc, ..s2 }
    }

    #[verifier::opaque]
    pub open spec fn rts(self) -> CpuModel {
        let (s, pc) = self.pop_u16();
        CpuModel { pc: pc.wrapping_add(1), ..s }
    }

    #[verifier::opaque]
    pub open spec fn lda(self, mode: AddressingMode) -> CpuModel {
        let (s, v) = self.fetch(mode);
        s.set_a(v)
    }

    #[verifier::opaque]
    pub open spec fn ldx(self, mode: AddressingMode) -> CpuModel {
        let (s, v) = self.fetch(mode);
        s.set_x(v)
    }

    #[verifier::opaque]
    pub open spec fn ldy(self, mode: AddressingMode) -> CpuModel {
        let (s, v) = self.fetch(mode);
        s.set_y(v)
    }

    #[verifier::opaque]
    pub open spec fn and(self, mode: AddressingMode) -> CpuModel {
        let (s, v) = self.fetch(mode);
        s.set_a(s.a & v)
    }

    #[verifier::opaque]
    pub open spec fn ora(self, mode: AddressingMode) -> CpuModel {
        let (s, v) = self.fetch(mode);
        s.set_a(s.a | v)
    }

    #[verifier::opaque]
    pub open spec fn eor(self, mode: AddressingMode) -> CpuModel {
        let (s, v) = self.fetch(mode);
        s.set_a(s.a ^ v)
    }

    #[verifier::opaque]
    pub open spec fn adc(self, mode: AddressingMode) -> CpuModel {
        let (s, v) = self.fetch(mode);
        s.add_to_a(v)
    }

    /// Subtraction with borrow: addition of the operand's complement.
    #[verifier::opaque]
    pub open spec fn sbc(self, mode: AddressingMode) -> CpuModel {
        let (s, v) = self.fetch(mode);
        s.add_to_a((255 - v) as u8)
    }

    #[verifier::opaque]
    pub open spec fn pla(self) -> CpuModel {
        let (s, v) = self.pop();
        s.set_a(v)
    }

    #[verifier::opaque]
    pub open spec fn php(self) -> CpuModel {
        self.push(pushed_flags(self.p))
    }

    #[verifier::opaque]
    pub open spec fn plp(self) -> CpuModel {
        let (s, v) = self.pop();
        CpuModel { p: pulled_flags(v), ..s }
    }

    /// The effect of `op`, whose opcode byte has been consumed: the state
    /// reached, and the fault if a store hit cartridge storage.
    pub open spec fn execute(self, op: OpCode) -> (CpuModel, Result<(), EmuError>) {
        let mode = op.addressing_mode;
        match op.mnemonic {
            Mnemonic::Brk | Mnemonic::Nop => (self, Ok(())),
            Mnemonic::Bit => (self.bit(mode), Ok(())),
            Mnemonic::Tax => (self.set_x(self.a), Ok(())),
            Mnemonic::Tay => (self.set_y(self.a), Ok(())),
            Mnemonic::Tsx => (self.set_x(self.sp), Ok(())),
            Mnemonic::Txa => (self.set_a(self.x), Ok(())),
            Mnemonic::Txs => (CpuModel { sp: self.x, ..self }, Ok(())),
            Mnemonic::Tya => (self.set_a(self.y), Ok(())),
            Mnemonic::Clc | Mnemonic::Cld | Mnemonic::Cli | Mnemonic::Clv | Mnemonic::Sec
            | Mnemonic::Sed | Mnemonic::Sei => {
                let (flag, on) = flag_op(op.mnemonic);
                (self.with_flag(flag, on), Ok(()))
            },
            Mnemonic::Lda => (self.lda(mode), Ok(())),
            Mnemonic::Ldx => (self.ldx(mode), Ok(())),
            Mnemonic::Ldy => (self.ldy(mode), Ok(())),
            Mnemonic::Sta => self.store(mode, self.a),
            Mnemonic::Stx => self.store(mode, self.x),
            Mnemonic::Sty => self.store(mode, self.y),
            Mnemonic::Asl | Mnemonic::Lsr | Mnemonic::Rol | Mnemonic::Ror => self.shift(
                op.mnemonic,
                mode,
            ),
            Mnemonic::Pha => (self.push(self.a), Ok(())),
            Mnemonic::Pla => (self.pla(), Ok(())),
            Mnemonic::Php => (self.php(), Ok(())),
            Mnemonic::Plp => (self.plp(), Ok(())),
            Mnemonic::And => (self.and(mode), Ok(())),
            Mnemonic::Ora => (self.ora(mode), Ok(())),
            Mnemonic::Eor => (self.eor(mode), Ok(())),
            Mnemonic::Bpl | Mnemonic::Bmi | Mnemonic::Bvc | Mnemonic::Bvs | Mnemonic::Bcc
            | Mnemonic::Bcs | Mnemonic::Bne | Mnemonic::Beq => (
                self.branch(branch_taken(op.mnemonic, self.p)),
                Ok(()),
            ),
            Mnemonic::Cmp => (self.compare(mode, self.a), Ok(())),
            Mnemonic::Cpx => (self.compare(mode, self.x), Ok(())),
            Mnemonic::Cpy => (self.compare(mode, self.y), Ok(())),
            Mnemonic::Inc => self.step_memory(mode, true),
            Mnemonic::Dec => self.step_memory(mode, false),
            Mnemonic::Inx => (self.set_x(self.x.wrapping_add(1)), Ok(())),
            Mnemonic::Iny => (self.set_y(self.y.wrapping_add(1)), Ok(())),
            Mnemonic::Dex => (self.set_x(self.x.wrapping_sub(1)), Ok(())),
            Mnemonic::Dey => (self.set_y(self.y.wrapping_sub(1)), Ok(())),
            Mnemonic::Jmp => (self.jmp(mode), Ok(())),
            Mnemonic::Jsr => (self.jsr(), Ok(())),
            Mnemonic::Rti => (self.rti(), Ok(())),
            Mnemonic::Rts => (self.rts(), Ok(())),
            Mnemonic::Adc => (self.adc(mode), Ok(())),
            Mnemonic::Sbc => (self.sbc(mode), Ok(())),
        }
    }

    /// One fetch-execute step: the state after it, and whether it halted or
    /// the fault that stopped it.  An opcode byte with no table entry stops
    /// the step at once, with the program counter still on it.  The program
    /// counter skips the operand bytes unless the operation redirected it.
    pub open spec fn step(self) -> (CpuModel, Result<bool, EmuError>) {
        let (s1, code) = self.read(self.pc);
        match opcode_table(code) {
            None => (s1, Err(EmuError::UnknownOpcode(code))),
            Some(op) => {
                let s2 = CpuModel { pc: s1.pc.wrapping_add(1), ..s1 };
                if op.mnemonic == Mnemonic::Brk {
                    (s2, Ok(true))
                } else {
                    let (s3, res) = s2.execute(op);
                    match res {
                        Err(e) => (s3, Err(e)),
                        Ok(_) => if redirects(op.mnemonic, s2.p) {
                            (s3, Ok(false))
                        } else {
                            (
                                CpuModel { pc: s3.pc.wrapping_add((op.bytes - 1) as u16), ..s3 },
                                Ok(false),
                            )
                        },
                    }
                }
            },
        }
    }

    /// Up to `fuel` steps: stops at the halt instruction or a fault, and
    /// gives the state then and how it stopped.
    pub open spec fn run(self, fuel: nat) -> (CpuModel, Result<bool, EmuError>)
        decreases fuel,
    {
        if fuel == 0 {
            (self, Ok(false))
        } else {
            let (s, res) = self.step();
            match res {
                Err(e) => (s, Err(e)),
                Ok(halted) => if halted {
                    (s, Ok(true))
                } else {
                    s.run((fuel - 1) as nat)
                },
            }
        }
    }
}

} // verus!
