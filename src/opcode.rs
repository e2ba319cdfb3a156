//! The instruction table: for each defined opcode byte, its operation,
//! length in bytes, cycle count and addressing mode.
use vstd::prelude::*;

verus! {

/// How an instruction finds its operand.
#[derive(Clone, Copy, Debug, PartialEq, Eq, Structural)]
#[allow(non_camel_case_types)]
pub enum AddressingMode {
    Immediate,
    ZeroPage,
    ZeroPage_X,
    ZeroPage_Y,
    Absolute,
    Absolute_X,
    Absolute_Y,
    Indirect_X,
    Indirect_Y,
    NoneAddressing,
}

/// The operation an opcode performs; selects its handler.
#[derive(Clone, Copy, Debug, PartialEq, Eq, Structural)]
pub enum Mnemonic {
    Brk,
    Nop,
    Adc,
    Sbc,
    And,
    Eor,
    Ora,
    Cmp,
    Lda,
    Asl,
    Lsr,
    Rol,
    Ror,
    Inc,
    Dec,
    Inx,
    Iny,
    Dex,
    Dey,
    Cpx,
    Cpy,
    Jmp,
    Jsr,
    Rts,
    Rti,
    Bne,
    Bvs,
    Bvc,
    Bmi,
    Beq,
    Bcs,
    Bcc,
    Bpl,
    Bit,
    Cld,
    Cli,
    Clv,
    Clc,
    Sec,
    Sei,
    Sed,
    Tax,
    Tay,
    Tsx,
    Txa,
    Txs,
    Tya,
    Pha,
    Pla,
    Php,
    Plp,
    Ldx,
    Ldy,
    Sta,
    Stx,
    Sty,
}

/// Operations whose operand is a byte in memory.
pub open spec fn takes_memory_operand(m: Mnemonic) -> bool {
    match m {
        Mnemonic::Lda | Mnemonic::Ldx | Mnemonic::Ldy | Mnemonic::Sta | Mnemonic::Stx
        | Mnemonic::Sty | Mnemonic::Adc | Mnemonic::Sbc | Mnemonic::And | Mnemonic::Ora
        | Mnemonic::Eor | Mnemonic::Cmp | Mnemonic::Cpx | Mnemonic::Cpy | Mnemonic::Bit
        | Mnemonic::Inc | Mnemonic::Dec => true,
        _ => false,
    }
}

#[derive(Clone, Copy, Debug, PartialEq, Eq, Structural)]
pub struct OpCode {
    pub code: u8,
    pub mnemonic: Mnemonic,
    pub bytes: u8,
    pub cycles: u8,
    pub addressing_mode: AddressingMode,
}

impl OpCode {
    pub fn new(
        code: u8,
        mnemonic: Mnemonic,
        bytes: u8,
        cycles: u8,
        addressing_mode: AddressingMode,
    ) -> (r: Self)
        ensures
            r == (OpCode { code, mnemonic, bytes, cycles, addressing_mode }),
    {
        OpCode { code, mnemonic, bytes, cycles, addressing_mode }
    }

    /// The length fits an instruction and the mode suits the operation.
    pub open spec fn well_formed(self) -> bool {
        &&& 1 <= self.bytes <= 3
        &&& takes_memory_operand(self.mnemonic) ==> self.addressing_mode
            != AddressingMode::NoneAddressing
        &&& self.mnemonic == Mnemonic::Jmp ==> (self.addressing_mode == AddressingMode::Absolute
            || self.addressing_mode == AddressingMode::NoneAddressing)
    }

    /// The table entry of `code`, if the byte is a defined instruction.
    pub fn lookup(code: u8) -> (r: Option<OpCode>)
        ensures
            r == opcode_table(code),
            r matches Some(op) ==> op.code == code && op.well_formed(),
    {
        match code {
            0x00 => Some(OpCode::new(0x00, Mnemonic::Brk, 1, 7, AddressingMode::NoneAddressing)),
            0xEA => Some(OpCode::new(0xEA, Mnemonic::Nop, 1, 2, AddressingMode::NoneAddressing)),
            0x69 => Some(OpCode::new(0x69, Mnemonic::Adc, 2, 2, AddressingMode::Immediate)),
            0x65 => Some(OpCode::new(0x65, Mnemonic::Adc, 2, 3, AddressingMode::ZeroPage)),
            0x75 => Some(OpCode::new(0x75, Mnemonic::Adc, 2, 4, AddressingMode::ZeroPage_X)),
            0x6D => Some(OpCode::new(0x6D, Mnemonic::Adc, 3, 4, AddressingMode::Absolute)),
            0x7D => Some(OpCode::new(0x7D, Mnemonic::Adc, 3, 4, AddressingMode::Absolute_X)),
            0x79 => Some(OpCode::new(0x79, Mnemonic::Adc, 3, 4, AddressingMode::Absolute_Y)),
            0x61 => Some(OpCode::new(0x61, Mnemonic::Adc, 2, 6, AddressingMode::Indirect_X)),
            0x71 => Some(OpCode::new(0x71, Mnemonic::Adc, 2, 5, AddressingMode::Indirect_Y)),
            0xE9 => Some(OpCode::new(0xE9, Mnemonic::Sbc, 2, 2, AddressingMode::Immediate)),
            0xE5 => Some(OpCode::new(0xE5, Mnemonic::Sbc, 2, 3, AddressingMode::ZeroPage)),
            0xF5 => Some(OpCode::new(0xF5, Mnemonic::Sbc, 2, 4, AddressingMode::ZeroPage_X)),
            0xED => Some(OpCode::new(0xED, Mnemonic::Sbc, 3, 4, AddressingMode::Absolute)),
            0xFD => Some(OpCode::new(0xFD, Mnemonic::Sbc, 3, 4, AddressingMode::Absolute_X)),
            0xF9 => Some(OpCode::new(0xF9, Mnemonic::Sbc, 3, 4, AddressingMode::Absolute_Y)),
            0xE1 => Some(OpCode::new(0xE1, Mnemonic::Sbc, 2, 6, AddressingMode::Indirect_X)),
            0xF1 => Some(OpCode::new(0xF1, Mnemonic::Sbc, 2, 5, AddressingMode::Indirect_Y)),
            0x29 => Some(OpCode::new(0x29, Mnemonic::And, 2, 2, AddressingMode::Immediate)),
            0x25 => Some(OpCode::new(0x25, Mnemonic::And, 2, 3, AddressingMode::ZeroPage)),
            0x35 => Some(OpCode::new(0x35, Mnemonic::And, 2, 4, AddressingMode::ZeroPage_X)),
            0x2D => Some(OpCode::new(0x2D, Mnemonic::And, 3, 4, AddressingMode::Absolute)),
            0x3D => Some(OpCode::new(0x3D, Mnemonic::And, 3, 4, AddressingMode::Absolute_X)),
            0x39 => Some(OpCode::new(0x39, Mnemonic::And, 3, 4, AddressingMode::Absolute_Y)),
            0x21 => Some(OpCode::new(0x21, Mnemonic::And, 2, 6, AddressingMode::Indirect_X)),
            0x31 => Some(OpCode::new(0x31, Mnemonic::And, 2, 5, AddressingMode::Indirect_Y)),
            0x49 => Some(OpCode::new(0x49, Mnemonic::Eor, 2, 2, AddressingMode::Immediate)),
            0x45 => Some(OpCode::new(0x45, Mnemonic::Eor, 2, 3, AddressingMode::ZeroPage)),
            0x55 => Some(OpCode::new(0x55, Mnemonic::Eor, 2, 4, AddressingMode::ZeroPage_X)),
            0x4D => Some(OpCode::new(0x4D, Mnemonic::Eor, 3, 4, AddressingMode::Absolute)),
            0x5D => Some(OpCode::new(0x5D, Mnemonic::Eor, 3, 4, AddressingMode::Absolute_X)),
            0x59 => Some(OpCode::new(0x59, Mnemonic::Eor, 3, 4, AddressingMode::Absolute_Y)),
            0x41 => Some(OpCode::new(0x41, Mnemonic::Eor, 2, 6, AddressingMode::Indirect_X)),
            0x51 => Some(OpCode::new(0x51, Mnemonic::Eor, 2, 5, AddressingMode::Indirect_Y)),
            0x09 => Some(OpCode::new(0x09, Mnemonic::Ora, 2, 2, AddressingMode::Immediate)),
            0x05 => Some(OpCode::new(0x05, Mnemonic::Ora, 2, 3, AddressingMode::ZeroPage)),
            0x15 => Some(OpCode::new(0x15, Mnemonic::Ora, 2, 4, AddressingMode::ZeroPage_X)),
            0x0D => Some(OpCode::new(0x0D, Mnemonic::Ora, 3, 4, AddressingMode::Absolute)),
            0x1D => Some(OpCode::new(0x1D, Mnemonic::Ora, 3, 4, AddressingMode::Absolute_X)),
            0x19 => Some(OpCode::new(0x19, Mnemonic::Ora, 3, 4, AddressingMode::Absolute_Y)),
            0x01 => Some(OpCode::new(0x01, Mnemonic::Ora, 2, 6, AddressingMode::Indirect_X)),
            0x11 => Some(OpCode::new(0x11, Mnemonic::Ora, 2, 5, AddressingMode::Indirect_Y)),
            0xC9 => Some(OpCode::new(0xC9, Mnemonic::Cmp, 2, 2, AddressingMode::Immediate)),
            0xC5 => Some(OpCode::new(0xC5, Mnemonic::Cmp, 2, 3, AddressingMode::ZeroPage)),
            0xD5 => Some(OpCode::new(0xD5, Mnemonic::Cmp, 2, 4, AddressingMode::ZeroPage_X)),
            0xCD => Some(OpCode::new(0xCD, Mnemonic::Cmp, 3, 4, AddressingMode::Absolute)),
            0xDD => Some(OpCode::new(0xDD, Mnemonic::Cmp, 3, 4, AddressingMode::Absolute_X)),
            0xD9 => Some(OpCode::new(0xD9, Mnemonic::Cmp, 3, 4, AddressingMode::Absolute_Y)),
            0xC1 => Some(OpCode::new(0xC1, Mnemonic::Cmp, 2, 6, AddressingMode::Indirect_X)),
            0xD1 => Some(OpCode::new(0xD1, Mnemonic::Cmp, 2, 5, AddressingMode::Indirect_Y)),
            0xA9 => Some(OpCode::new(0xA9, Mnemonic::Lda, 2, 2, AddressingMode::Immediate)),
            0xA5 => Some(OpCode::new(0xA5, Mnemonic::Lda, 2, 3, AddressingMode::ZeroPage)),
            0xB5 => Some(OpCode::new(0xB5, Mnemonic::Lda, 2, 4, AddressingMode::ZeroPage_X)),
            0xAD => Some(OpCode::new(0xAD, Mnemonic::Lda, 3, 4, AddressingMode::Absolute)),
            0xBD => Some(OpCode::new(0xBD, Mnemonic::Lda, 3, 4, AddressingMode::Absolute_X)),
            0xB9 => Some(OpCode::new(0xB9, Mnemonic::Lda, 3, 4, AddressingMode::Absolute_Y)),
            0xA1 => Some(OpCode::new(0xA1, Mnemonic::Lda, 2, 6, AddressingMode::Indirect_X)),
            0xB1 => Some(OpCode::new(0xB1, Mnemonic::Lda, 2, 5, AddressingMode::Indirect_Y)),
            0x0A => Some(OpCode::new(0x0A, Mnemonic::Asl, 1, 2, AddressingMode::NoneAddressing)),
            0x06 => Some(OpCode::new(0x06, Mnemonic::Asl, 2, 5, AddressingMode::ZeroPage)),
            0x16 => Some(OpCode::new(0x16, Mnemonic::Asl, 2, 6, AddressingMode::ZeroPage_X)),
            0x0E => Some(OpCode::new(0x0E, Mnemonic::Asl, 3, 6, AddressingMode::Absolute)),
            0x1E => Some(OpCode::new(0x1E, Mnemonic::Asl, 3, 7, AddressingMode::Absolute_X)),
            0x4A => Some(OpCode::new(0x4A, Mnemonic::Lsr, 1, 2, AddressingMode::NoneAddressing)),
            0x46 => Some(OpCode::new(0x46, Mnemonic::Lsr, 2, 5, AddressingMode::ZeroPage)),
            0x56 => Some(OpCode::new(0x56, Mnemonic::Lsr, 2, 6, AddressingMode::ZeroPage_X)),
            0x4E => Some(OpCode::new(0x4E, Mnemonic::Lsr, 3, 6, AddressingMode::Absolute)),
            0x5E => Some(OpCode::new(0x5E, Mnemonic::Lsr, 3, 7, AddressingMode::Absolute_X)),
            0x2A => Some(OpCode::new(0x2A, Mnemonic::Rol, 1, 2, AddressingMode::NoneAddressing)),
            0x26 => Some(OpCode::new(0x26, Mnemonic::Rol, 2, 5, AddressingMode::ZeroPage)),
            0x36 => Some(OpCode::new(0x36, Mnemonic::Rol, 2, 6, AddressingMode::ZeroPage_X)),
            0x2E => Some(OpCode::new(0x2E, Mnemonic::Rol, 3, 6, AddressingMode::Absolute)),
            0x3E => Some(OpCode::new(0x3E, Mnemonic::Rol, 3, 7, AddressingMode::Absolute_X)),
            0x6A => Some(OpCode::new(0x6A, Mnemonic::Ror, 1, 2, AddressingMode::NoneAddressing)),
            0x66 => Some(OpCode::new(0x66, Mnemonic::Ror, 2, 5, AddressingMode::ZeroPage)),
            0x76 => Some(OpCode::new(0x76, Mnemonic::Ror, 2, 6, AddressingMode::ZeroPage_X)),
            0x6E => Some(OpCode::new(0x6E, Mnemonic::Ror, 3, 6, AddressingMode::Absolute)),
            0x7E => Some(OpCode::new(0x7E, Mnemonic::Ror, 3, 7, AddressingMode::Absolute_X)),
            0xE6 => Some(OpCode::new(0xE6, Mnemonic::Inc, 2, 5, AddressingMode::ZeroPage)),
            0xF6 => Some(OpCode::new(0xF6, Mnemonic::Inc, 2, 6, AddressingMode::ZeroPage_X)),
            0xEE => Some(OpCode::new(0xEE, Mnemonic::Inc, 3, 6, AddressingMode::Absolute)),
            0xFE => Some(OpCode::new(0xFE, Mnemonic::Inc, 3, 7, AddressingMode::Absolute_X)),
            0xC6 => Some(OpCode::new(0xC6, Mnemonic::Dec, 2, 5, AddressingMode::ZeroPage)),
            0xD6 => Some(OpCode::new(0xD6, Mnemonic::Dec, 2, 6, AddressingMode::ZeroPage_X)),
            0xCE => Some(OpCode::new(0xCE, Mnemonic::Dec, 3, 6, AddressingMode::Absolute)),
            0xDE => Some(OpCode::new(0xDE, Mnemonic::Dec, 3, 7, AddressingMode::Absolute_X)),
            0xE8 => Some(OpCode::new(0xE8, Mnemonic::Inx, 1, 2, AddressingMode::NoneAddressing)),
            0xC8 => Some(OpCode::new(0xC8, Mnemonic::Iny, 1, 2, AddressingMode::NoneAddressing)),
            0xCA => Some(OpCode::new(0xCA, Mnemonic::Dex, 1, 2, AddressingMode::NoneAddressing)),
            0x88 => Some(OpCode::new(0x88, Mnemonic::Dey, 1, 2, AddressingMode::NoneAddressing)),
            0xE0 => Some(OpCode::new(0xE0, Mnemonic::Cpx, 2, 2, AddressingMode::Immediate)),
            0xE4 => Some(OpCode::new(0xE4, Mnemonic::Cpx, 2, 3, AddressingMode::ZeroPage)),
            0xEC => Some(OpCode::new(0xEC, Mnemonic::Cpx, 3, 4, AddressingMode::Absolute)),
            0xC0 => Some(OpCode::new(0xC0, Mnemonic::Cpy, 2, 2, AddressingMode::Immediate)),
            0xC4 => Some(OpCode::new(0xC4, Mnemonic::Cpy, 2, 3, AddressingMode::ZeroPage)),
            0xCC => Some(OpCode::new(0xCC, Mnemonic::Cpy, 3, 4, AddressingMode::Absolute)),
            0x4C => Some(OpCode::new(0x4C, Mnemonic::Jmp, 3, 3, AddressingMode::Absolute)),
            0x6C => Some(OpCode::new(0x6C, Mnemonic::Jmp, 3, 5, AddressingMode::NoneAddressing)),
            0x20 => Some(OpCode::new(0x20, Mnemonic::Jsr, 3, 6, AddressingMode::NoneAddressing)),
            0x60 => Some(OpCode::new(0x60, Mnemonic::Rts, 1, 6, AddressingMode::NoneAddressing)),
            0x40 => Some(OpCode::new(0x40, Mnemonic::Rti, 1, 6, AddressingMode::NoneAddressing)),
            0xD0 => Some(OpCode::new(0xD0, Mnemonic::Bne, 2, 2, AddressingMode::NoneAddressing)),
            0x70 => Some(OpCode::new(0x70, Mnemonic::Bvs, 2, 2, AddressingMode::NoneAddressing)),
            0x50 => Some(OpCode::new(0x50, Mnemonic::Bvc, 2, 2, AddressingMode::NoneAddressing)),
            0x30 => Some(OpCode::new(0x30, Mnemonic::Bmi, 2, 2, AddressingMode::NoneAddressing)),
            0xF0 => Some(OpCode::new(0xF0, Mnemonic::Beq, 2, 2, AddressingMode::NoneAddressing)),
            0xB0 => Some(OpCode::new(0xB0, Mnemonic::Bcs, 2, 2, AddressingMode::NoneAddressing)),
            0x90 => Some(OpCode::new(0x90, Mnemonic::Bcc, 2, 2, AddressingMode::NoneAddressing)),
            0x10 => Some(OpCode::new(0x10, Mnemonic::Bpl, 2, 2, AddressingMode::NoneAddressing)),
            0x24 => Some(OpCode::new(0x24, Mnemonic::Bit, 2, 3, AddressingMode::ZeroPage)),
            0x2C => Some(OpCode::new(0x2C, Mnemonic::Bit, 3, 4, AddressingMode::Absolute)),
            0xD8 => Some(OpCode::new(0xD8, Mnemonic::Cld, 1, 2, AddressingMode::NoneAddressing)),
            0x58 => Some(OpCode::new(0x58, Mnemonic::Cli, 1, 2, AddressingMode::NoneAddressing)),
            0xB8 => Some(OpCode::new(0xB8, Mnemonic::Clv, 1, 2, AddressingMode::NoneAddressing)),
            0x18 => Some(OpCode::new(0x18, Mnemonic::Clc, 1, 2, AddressingMode::NoneAddressing)),
            0x38 => Some(OpCode::new(0x38, Mnemonic::Sec, 1, 2, AddressingMode::NoneAddressing)),
            0x78 => Some(OpCode::new(0x78, Mnemonic::Sei, 1, 2, AddressingMode::NoneAddressing)),
            0xF8 => Some(OpCode::new(0xF8, Mnemonic::Sed, 1, 2, AddressingMode::NoneAddressing)),
            0xAA => Some(OpCode::new(0xAA, Mnemonic::Tax, 1, 2, AddressingMode::NoneAddressing)),
            0xA8 => Some(OpCode::new(0xA8, Mnemonic::Tay, 1, 2, AddressingMode::NoneAddressing)),
            0xBA => Some(OpCode::new(0xBA, Mnemonic::Tsx, 1, 2, AddressingMode::NoneAddressing)),
            0x8A => Some(OpCode::new(0x8A, Mnemonic::Txa, 1, 2, AddressingMode::NoneAddressing)),
            0x9A => Some(OpCode::new(0x9A, Mnemonic::Txs, 1, 2, AddressingMode::NoneAddressing)),
            0x98 => Some(OpCode::new(0x98, Mnemonic::Tya, 1, 2, AddressingMode::NoneAddressing)),
            0x48 => Some(OpCode::new(0x48, Mnemonic::Pha, 1, 3, AddressingMode::NoneAddressing)),
            0x68 => Some(OpCode::new(0x68, Mnemonic::Pla, 1, 4, AddressingMode::NoneAddressing)),
            0x08 => Some(OpCode::new(0x08, Mnemonic::Php, 1, 3, AddressingMode::NoneAddressing)),
            0x28 => Some(OpCode::new(0x28, Mnemonic::Plp, 1, 4, AddressingMode::NoneAddressing)),
            0xA2 => Some(OpCode::new(0xA2, Mnemonic::Ldx, 2, 2, AddressingMode::Immediate)),
            0xA6 => Some(OpCode::new(0xA6, Mnemonic::Ldx, 2, 3, AddressingMode::ZeroPage)),
            0xB6 => Some(OpCode::new(0xB6, Mnemonic::Ldx, 2, 4, AddressingMode::ZeroPage_Y)),
            0xAE => Some(OpCode::new(0xAE, Mnemonic::Ldx, 3, 4, AddressingMode::Absolute)),
            0xBE => Some(OpCode::new(0xBE, Mnemonic::Ldx, 3, 4, AddressingMode::Absolute_Y)),
            0xA0 => Some(OpCode::new(0xA0, Mnemonic::Ldy, 2, 2, AddressingMode::Immediate)),
            0xA4 => Some(OpCode::new(0xA4, Mnemonic::Ldy, 2, 3, AddressingMode::ZeroPage)),
            0xB4 => Some(OpCode::new(0xB4, Mnemonic::Ldy, 2, 4, AddressingMode::ZeroPage_X)),
            0xAC => Some(OpCode::new(0xAC, Mnemonic::Ldy, 3, 4, AddressingMode::Absolute)),
            0xBC => Some(OpCode::new(0xBC, Mnemonic::Ldy, 3, 4, AddressingMode::Absolute_X)),
            0x85 => Some(OpCode::new(0x85, Mnemonic::Sta, 2, 3, AddressingMode::ZeroPage)),
            0x95 => Some(OpCode::new(0x95, Mnemonic::Sta, 2, 4, AddressingMode::ZeroPage_X)),
            0x8D => Some(OpCode::new(0x8D, Mnemonic::Sta, 3, 4, AddressingMode::Absolute)),
            0x9D => Some(OpCode::new(0x9D, Mnemonic::Sta, 3, 5, AddressingMode::Absolute_X)),
            0x99 => Some(OpCode::new(0x99, Mnemonic::Sta, 3, 5, AddressingMode::Absolute_Y)),
            0x81 => Some(OpCode::new(0x81, Mnemonic::Sta, 2, 6, AddressingMode::Indirect_X)),
            0x91 => Some(OpCode::new(0x91, Mnemonic::Sta, 2, 6, AddressingMode::Indirect_Y)),
            0x86 => Some(OpCode::new(0x86, Mnemonic::Stx, 2, 3, AddressingMode::ZeroPage)),
            0x96 => Some(OpCode::new(0x96, Mnemonic::Stx, 2, 4, AddressingMode::ZeroPage_Y)),
            0x8E => Some(OpCode::new(0x8E, Mnemonic::Stx, 3, 4, AddressingMode::Absolute)),
            0x84 => Some(OpCode::new(0x84, Mnemonic::Sty, 2, 3, AddressingMode::ZeroPage)),
            0x94 => Some(OpCode::new(0x94, Mnemonic::Sty, 2, 4, AddressingMode::ZeroPage_X)),
            0x8C => Some(OpCode::new(0x8C, Mnemonic::Sty, 3, 4, AddressingMode::Absolute)),
            _ => None,
        }
    }
}

/// The instruction table.
pub open spec fn opcode_table(code: u8) -> Option<OpCode> {
    match code {
        0x00 => Some(OpCode { code: 0x00, mnemonic: Mnemonic::Brk, bytes: 1, cycles: 7, addressing_mode: AddressingMode::NoneAddressing }),
        0xEA => Some(OpCode { code: 0xEA, mnemonic: Mnemonic::Nop, bytes: 1, cycles: 2, addressing_mode: AddressingMode::NoneAddressing }),
        0x69 => Some(OpCode { code: 0x69, mnemonic: Mnemonic::Adc, bytes: 2, cycles: 2, addressing_mode: AddressingMode::Immediate }),
        0x65 => Some(OpCode { code: 0x65, mnemonic: Mnemonic::Adc, bytes: 2, cycles: 3, addressing_mode: AddressingMode::ZeroPage }),
        0x75 => Some(OpCode { code: 0x75, mnemonic: Mnemonic::Adc, bytes: 2, cycles: 4, addressing_mode: AddressingMode::ZeroPage_X }),
        0x6D => Some(OpCode { code: 0x6D, mnemonic: Mnemonic::Adc, bytes: 3, cycles: 4, addressing_mode: AddressingMode::Absolute }),
        0x7D => Some(OpCode { code: 0x7D, mnemonic: Mnemonic::Adc, bytes: 3, cycles: 4, addressing_mode: AddressingMode::Absolute_X }),
        0x79 => Some(OpCode { code: 0x79, mnemonic: Mnemonic::Adc, bytes: 3, cycles: 4, addressing_mode: AddressingMode::Absolute_Y }),
        0x61 => Some(OpCode { code: 0x61, mnemonic: Mnemonic::Adc, bytes: 2, cycles: 6, addressing_mode: AddressingMode::Indirect_X }),
        0x71 => Some(OpCode { code: 0x71, mnemonic: Mnemonic::Adc, bytes: 2, cycles: 5, addressing_mode: AddressingMode::Indirect_Y }),
        0xE9 => Some(OpCode { code: 0xE9, mnemonic: Mnemonic::Sbc, bytes: 2, cycles: 2, addressing_mode: AddressingMode::Immediate }),
        0xE5 => Some(OpCode { code: 0xE5, mnemonic: Mnemonic::Sbc, bytes: 2, cycles: 3, addressing_mode: AddressingMode::ZeroPage }),
        0xF5 => Some(OpCode { code: 0xF5, mnemonic: Mnemonic::Sbc, bytes: 2, cycles: 4, addressing_mode: AddressingMode::ZeroPage_X }),
        0xED => Some(OpCode { code: 0xED, mnemonic: Mnemonic::Sbc, bytes: 3, cycles: 4, addressing_mode: AddressingMode::Absolute }),
        0xFD => Some(OpCode { code: 0xFD, mnemonic: Mnemonic::Sbc, bytes: 3, cycles: 4, addressing_mode: AddressingMode::Absolute_X }),
        0xF9 => Some(OpCode { code: 0xF9, mnemonic: Mnemonic::Sbc, bytes: 3, cycles: 4, addressing_mode: AddressingMode::Absolute_Y }),
        0xE1 => Some(OpCode { code: 0xE1, mnemonic: Mnemonic::Sbc, bytes: 2, cycles: 6, addressing_mode: AddressingMode::Indirect_X }),
        0xF1 => Some(OpCode { code: 0xF1, mnemonic: Mnemonic::Sbc, bytes: 2, cycles: 5, addressing_mode: AddressingMode::Indirect_Y }),
        0x29 => Some(OpCode { code: 0x29, mnemonic: Mnemonic::And, bytes: 2, cycles: 2, addressing_mode: AddressingMode::Immediate }),
        0x25 => Some(OpCode { code: 0x25, mnemonic: Mnemonic::And, bytes: 2, cycles: 3, addressing_mode: AddressingMode::ZeroPage }),
        0x35 => Some(OpCode { code: 0x35, mnemonic: Mnemonic::And, bytes: 2, cycles: 4, addressing_mode: AddressingMode::ZeroPage_X }),
        0x2D => Some(OpCode { code: 0x2D, mnemonic: Mnemonic::And, bytes: 3, cycles: 4, addressing_mode: AddressingMode::Absolute }),
        0x3D => Some(OpCode { code: 0x3D, mnemonic: Mnemonic::And, bytes: 3, cycles: 4, addressing_mode: AddressingMode::Absolute_X }),
        0x39 => Some(OpCode { code: 0x39, mnemonic: Mnemonic::And, bytes: 3, cycles: 4, addressing_mode: AddressingMode::Absolute_Y }),
        0x21 => Some(OpCode { code: 0x21, mnemonic: Mnemonic::And, bytes: 2, cycles: 6, addressing_mode: AddressingMode::Indirect_X }),
        0x31 => Some(OpCode { code: 0x31, mnemonic: Mnemonic::And, bytes: 2, cycles: 5, addressing_mode: AddressingMode::Indirect_Y }),
        0x49 => Some(OpCode { code: 0x49, mnemonic: Mnemonic::Eor, bytes: 2, cycles: 2, addressing_mode: AddressingMode::Immediate }),
        0x45 => Some(OpCode { code: 0x45, mnemonic: Mnemonic::Eor, bytes: 2, cycles: 3, addressing_mode: AddressingMode::ZeroPage }),
        0x55 => Some(OpCode { code: 0x55, mnemonic: Mnemonic::Eor, bytes: 2, cycles: 4, addressing_mode: AddressingMode::ZeroPage_X }),
        0x4D => Some(OpCode { code: 0x4D, mnemonic: Mnemonic::Eor, bytes: 3, cycles: 4, addressing_mode: AddressingMode::Absolute }),
        0x5D => Some(OpCode { code: 0x5D, mnemonic: Mnemonic::Eor, bytes: 3, cycles: 4, addressing_mode: AddressingMode::Absolute_X }),
        0x59 => Some(OpCode { code: 0x59, mnemonic: Mnemonic::Eor, bytes: 3, cycles: 4, addressing_mode: AddressingMode::Absolute_Y }),
        0x41 => Some(OpCode { code: 0x41, mnemonic: Mnemonic::Eor, bytes: 2, cycles: 6, addressing_mode: AddressingMode::Indirect_X }),
        0x51 => Some(OpCode { code: 0x51, mnemonic: Mnemonic::Eor, bytes: 2, cycles: 5, addressing_mode: AddressingMode::Indirect_Y }),
        0x09 => Some(OpCode { code: 0x09, mnemonic: Mnemonic::Ora, bytes: 2, cycles: 2, addressing_mode: AddressingMode::Immediate }),
        0x05 => Some(OpCode { code: 0x05, mnemonic: Mnemonic::Ora, bytes: 2, cycles: 3, addressing_mode: AddressingMode::ZeroPage }),
        0x15 => Some(OpCode { code: 0x15, mnemonic: Mnemonic::Ora, bytes: 2, cycles: 4, addressing_mode: AddressingMode::ZeroPage_X }),
        0x0D => Some(OpCode { code: 0x0D, mnemonic: Mnemonic::Ora, bytes: 3, cycles: 4, addressing_mode: AddressingMode::Absolute }),
        0x1D => Some(OpCode { code: 0x1D, mnemonic: Mnemonic::Ora, bytes: 3, cycles: 4, addressing_mode: AddressingMode::Absolute_X }),
        0x19 => Some(OpCode { code: 0x19, mnemonic: Mnemonic::Ora, bytes: 3, cycles: 4, addressing_mode: AddressingMode::Absolute_Y }),
        0x01 => Some(OpCode { code: 0x01, mnemonic: Mnemonic::Ora, bytes: 2, cycles: 6, addressing_mode: AddressingMode::Indirect_X }),
        0x11 => Some(OpCode { code: 0x11, mnemonic: Mnemonic::Ora, bytes: 2, cycles: 5, addressing_mode: AddressingMode::Indirect_Y }),
        0xC9 => Some(OpCode { code: 0xC9, mnemonic: Mnemonic::Cmp, bytes: 2, cycles: 2, addressing_mode: AddressingMode::Immediate }),
        0xC5 => Some(OpCode { code: 0xC5, mnemonic: Mnemonic::Cmp, bytes: 2, cycles: 3, addressing_mode: AddressingMode::ZeroPage }),
        0xD5 => Some(OpCode { code: 0xD5, mnemonic: Mnemonic::Cmp, bytes: 2, cycles: 4, addressing_mode: AddressingMode::ZeroPage_X }),
        0xCD => Some(OpCode { code: 0xCD, mnemonic: Mnemonic::Cmp, bytes: 3, cycles: 4, addressing_mode: AddressingMode::Absolute }),
        0xDD => Some(OpCode { code: 0xDD, mnemonic: Mnemonic::Cmp, bytes: 3, cycles: 4, addressing_mode: AddressingMode::Absolute_X }),
        0xD9 => Some(OpCode { code: 0xD9, mnemonic: Mnemonic::Cmp, bytes: 3, cycles: 4, addressing_mode: AddressingMode::Absolute_Y }),
        0xC1 => Some(OpCode { code: 0xC1, mnemonic: Mnemonic::Cmp, bytes: 2, cycles: 6, addressing_mode: AddressingMode::Indirect_X }),
        0xD1 => Some(OpCode { code: 0xD1, mnemonic: Mnemonic::Cmp, bytes: 2, cycles: 5, addressing_mode: AddressingMode::Indirect_Y }),
        0xA9 => Some(OpCode { code: 0xA9, mnemonic: Mnemonic::Lda, bytes: 2, cycles: 2, addressing_mode: AddressingMode::Immediate }),
        0xA5 => Some(OpCode { code: 0xA5, mnemonic: Mnemonic::Lda, bytes: 2, cycles: 3, addressing_mode: AddressingMode::ZeroPage }),
        0xB5 => Some(OpCode { code: 0xB5, mnemonic: Mnemonic::Lda, bytes: 2, cycles: 4, addressing_mode: AddressingMode::ZeroPage_X }),
        0xAD => Some(OpCode { code: 0xAD, mnemonic: Mnemonic::Lda, bytes: 3, cycles: 4, addressing_mode: AddressingMode::Absolute }),
        0xBD => Some(OpCode { code: 0xBD, mnemonic: Mnemonic::Lda, bytes: 3, cycles: 4, addressing_mode: AddressingMode::Absolute_X }),
        0xB9 => Some(OpCode { code: 0xB9, mnemonic: Mnemonic::Lda, bytes: 3, cycles: 4, addressing_mode: AddressingMode::Absolute_Y }),
        0xA1 => Some(OpCode { code: 0xA1, mnemonic: Mnemonic::Lda, bytes: 2, cycles: 6, addressing_mode: AddressingMode::Indirect_X }),
        0xB1 => Some(OpCode { code: 0xB1, mnemonic: Mnemonic::Lda, bytes: 2, cycles: 5, addressing_mode: AddressingMode::Indirect_Y }),
        0x0A => Some(OpCode { code: 0x0A, mnemonic: Mnemonic::Asl, bytes: 1, cycles: 2, addressing_mode: AddressingMode::NoneAddressing }),
        0x06 => Some(OpCode { code: 0x06, mnemonic: Mnemonic::Asl, bytes: 2, cycles: 5, addressing_mode: AddressingMode::ZeroPage }),
        0x16 => Some(OpCode { code: 0x16, mnemonic: Mnemonic::Asl, bytes: 2, cycles: 6, addressing_mode: AddressingMode::ZeroPage_X }),
        0x0E => Some(OpCode { code: 0x0E, mnemonic: Mnemonic::Asl, bytes: 3, cycles: 6, addressing_mode: AddressingMode::Absolute }),
        0x1E => Some(OpCode { code: 0x1E, mnemonic: Mnemonic::Asl, bytes: 3, cycles: 7, addressing_mode: AddressingMode::Absolute_X }),
        0x4A => Some(OpCode { code: 0x4A, mnemonic: Mnemonic::Lsr, bytes: 1, cycles: 2, addressing_mode: AddressingMode::NoneAddressing }),
        0x46 => Some(OpCode { code: 0x46, mnemonic: Mnemonic::Lsr, bytes: 2, cycles: 5, addressing_mode: AddressingMode::ZeroPage }),
        0x56 => Some(OpCode { code: 0x56, mnemonic: Mnemonic::Lsr, bytes: 2, cycles: 6, addressing_mode: AddressingMode::ZeroPage_X }),
        0x4E => Some(OpCode { code: 0x4E, mnemonic: Mnemonic::Lsr, bytes: 3, cycles: 6, addressing_mode: AddressingMode::Absolute }),
        0x5E => Some(OpCode { code: 0x5E, mnemonic: Mnemonic::Lsr, bytes: 3, cycles: 7, addressing_mode: AddressingMode::Absolute_X }),
        0x2A => Some(OpCode { code: 0x2A, mnemonic: Mnemonic::Rol, bytes: 1, cycles: 2, addressing_mode: AddressingMode::NoneAddressing }),
        0x26 => Some(OpCode { code: 0x26, mnemonic: Mnemonic::Rol, bytes: 2, cycles: 5, addressing_mode: AddressingMode::ZeroPage }),
        0x36 => Some(OpCode { code: 0x36, mnemonic: Mnemonic::Rol, bytes: 2, cycles: 6, addressing_mode: AddressingMode::ZeroPage_X }),
        0x2E => Some(OpCode { code: 0x2E, mnemonic: Mnemonic::Rol, bytes: 3, cycles: 6, addressing_mode: AddressingMode::Absolute }),
        0x3E => Some(OpCode { code: 0x3E, mnemonic: Mnemonic::Rol, bytes: 3, cycles: 7, addressing_mode: AddressingMode::Absolute_X }),
        0x6A => Some(OpCode { code: 0x6A, mnemonic: Mnemonic::Ror, bytes: 1, cycles: 2, addressing_mode: AddressingMode::NoneAddressing }),
        0x66 => Some(OpCode { code: 0x66, mnemonic: Mnemonic::Ror, bytes: 2, cycles: 5, addressing_mode: AddressingMode::ZeroPage }),
        0x76 => Some(OpCode { code: 0x76, mnemonic: Mnemonic::Ror, bytes: 2, cycles: 6, addressing_mode: AddressingMode::ZeroPage_X }),
        0x6E => Some(OpCode { code: 0x6E, mnemonic: Mnemonic::Ror, bytes: 3, cycles: 6, addressing_mode: AddressingMode::Absolute }),
        0x7E => Some(OpCode { code: 0x7E, mnemonic: Mnemonic::Ror, bytes: 3, cycles: 7, addressing_mode: AddressingMode::Absolute_X }),
        0xE6 => Some(OpCode { code: 0xE6, mnemonic: Mnemonic::Inc, bytes: 2, cycles: 5, addressing_mode: AddressingMode::ZeroPage }),
        0xF6 => Some(OpCode { code: 0xF6, mnemonic: Mnemonic::Inc, bytes: 2, cycles: 6, addressing_mode: AddressingMode::ZeroPage_X }),
        0xEE => Some(OpCode { code: 0xEE, mnemonic: Mnemonic::Inc, bytes: 3, cycles: 6, addressing_mode: AddressingMode::Absolute }),
        0xFE => Some(OpCode { code: 0xFE, mnemonic: Mnemonic::Inc, bytes: 3, cycles: 7, addressing_mode: AddressingMode::Absolute_X }),
        0xC6 => Some(OpCode { code: 0xC6, mnemonic: Mnemonic::Dec, bytes: 2, cycles: 5, addressing_mode: AddressingMode::ZeroPage }),
        0xD6 => Some(OpCode { code: 0xD6, mnemonic: Mnemonic::Dec, bytes: 2, cycles: 6, addressing_mode: AddressingMode::ZeroPage_X }),
        0xCE => Some(OpCode { code: 0xCE, mnemonic: Mnemonic::Dec, bytes: 3, cycles: 6, addressing_mode: AddressingMode::Absolute }),
        0xDE => Some(OpCode { code: 0xDE, mnemonic: Mnemonic::Dec, bytes: 3, cycles: 7, addressing_mode: AddressingMode::Absolute_X }),
        0xE8 => Some(OpCode { code: 0xE8, mnemonic: Mnemonic::Inx, bytes: 1, cycles: 2, addressing_mode: AddressingMode::NoneAddressing }),
        0xC8 => Some(OpCode { code: 0xC8, mnemonic: Mnemonic::Iny, bytes: 1, cycles: 2, addressing_mode: AddressingMode::NoneAddressing }),
        0xCA => Some(OpCode { code: 0xCA, mnemonic: Mnemonic::Dex, bytes: 1, cycles: 2, addressing_mode: AddressingMode::NoneAddressing }),
        0x88 => Some(OpCode { code: 0x88, mnemonic: Mnemonic::Dey, bytes: 1, cycles: 2, addressing_mode: AddressingMode::NoneAddressing }),
        0xE0 => Some(OpCode { code: 0xE0, mnemonic: Mnemonic::Cpx, bytes: 2, cycles: 2, addressing_mode: AddressingMode::Immediate }),
        0xE4 => Some(OpCode { code: 0xE4, mnemonic: Mnemonic::Cpx, bytes: 2, cycles: 3, addressing_mode: AddressingMode::ZeroPage }),
        0xEC => Some(OpCode { code: 0xEC, mnemonic: Mnemonic::Cpx, bytes: 3, cycles: 4, addressing_mode: AddressingMode::Absolute }),
        0xC0 => Some(OpCode { code: 0xC0, mnemonic: Mnemonic::Cpy, bytes: 2, cycles: 2, addressing_mode: AddressingMode::Immediate }),
        0xC4 => Some(OpCode { code: 0xC4, mnemonic: Mnemonic::Cpy, bytes: 2, cycles: 3, addressing_mode: AddressingMode::ZeroPage }),
        0xCC => Some(OpCode { code: 0xCC, mnemonic: Mnemonic::Cpy, bytes: 3, cycles: 4, addressing_mode: AddressingMode::Absolute }),
        0x4C => Some(OpCode { code: 0x4C, mnemonic: Mnemonic::Jmp, bytes: 3, cycles: 3, addressing_mode: AddressingMode::Absolute }),
        0x6C => Some(OpCode { code: 0x6C, mnemonic: Mnemonic::Jmp, bytes: 3, cycles: 5, addressing_mode: AddressingMode::NoneAddressing }),
        0x20 => Some(OpCode { code: 0x20, mnemonic: Mnemonic::Jsr, bytes: 3, cycles: 6, addressing_mode: AddressingMode::NoneAddressing }),
        0x60 => Some(OpCode { code: 0x60, mnemonic: Mnemonic::Rts, bytes: 1, cycles: 6, addressing_mode: AddressingMode::NoneAddressing }),
        0x40 => Some(OpCode { code: 0x40, mnemonic: Mnemonic::Rti, bytes: 1, cycles: 6, addressing_mode: AddressingMode::NoneAddressing }),
        0xD0 => Some(OpCode { code: 0xD0, mnemonic: Mnemonic::Bne, bytes: 2, cycles: 2, addressing_mode: AddressingMode::NoneAddressing }),
        0x70 => Some(OpCode { code: 0x70, mnemonic: Mnemonic::Bvs, bytes: 2, cycles: 2, addressing_mode: AddressingMode::NoneAddressing }),
        0x50 => Some(OpCode { code: 0x50, mnemonic: Mnemonic::Bvc, bytes: 2, cycles: 2, addressing_mode: AddressingMode::NoneAddressing }),
        0x30 => Some(OpCode { code: 0x30, mnemonic: Mnemonic::Bmi, bytes: 2, cycles: 2, addressing_mode: AddressingMode::NoneAddressing }),
        0xF0 => Some(OpCode { code: 0xF0, mnemonic: Mnemonic::Beq, bytes: 2, cycles: 2, addressing_mode: AddressingMode::NoneAddressing }),
        0xB0 => Some(OpCode { code: 0xB0, mnemonic: Mnemonic::Bcs, bytes: 2, cycles: 2, addressing_mode: AddressingMode::NoneAddressing }),
        0x90 => Some(OpCode { code: 0x90, mnemonic: Mnemonic::Bcc, bytes: 2, cycles: 2, addressing_mode: AddressingMode::NoneAddressing }),
        0x10 => Some(OpCode { code: 0x10, mnemonic: Mnemonic::Bpl, bytes: 2, cycles: 2, addressing_mode: AddressingMode::NoneAddressing }),
        0x24 => Some(OpCode { code: 0x24, mnemonic: Mnemonic::Bit, bytes: 2, cycles: 3, addressing_mode: AddressingMode::ZeroPage }),
        0x2C => Some(OpCode { code: 0x2C, mnemonic: Mnemonic::Bit, bytes: 3, cycles: 4, addressing_mode: AddressingMode::Absolute }),
        0xD8 => Some(OpCode { code: 0xD8, mnemonic: Mnemonic::Cld, bytes: 1, cycles: 2, addressing_mode: AddressingMode::NoneAddressing }),
        0x58 => Some(OpCode { code: 0x58, mnemonic: Mnemonic::Cli, bytes: 1, cycles: 2, addressing_mode: AddressingMode::NoneAddressing }),
        0xB8 => Some(OpCode { code: 0xB8, mnemonic: Mnemonic::Clv, bytes: 1, cycles: 2, addressing_mode: AddressingMode::NoneAddressing }),
        0x18 => Some(OpCode { code: 0x18, mnemonic: Mnemonic::Clc, bytes: 1, cycles: 2, addressing_mode: AddressingMode::NoneAddressing }),
        0x38 => Some(OpCode { code: 0x38, mnemonic: Mnemonic::Sec, bytes: 1, cycles: 2, addressing_mode: AddressingMode::NoneAddressing }),
        0x78 => Some(OpCode { code: 0x78, mnemonic: Mnemonic::Sei, bytes: 1, cycles: 2, addressing_mode: AddressingMode::NoneAddressing }),
        0xF8 => Some(OpCode { code: 0xF8, mnemonic: Mnemonic::Sed, bytes: 1, cycles: 2, addressing_mode: AddressingMode::NoneAddressing }),
        0xAA => Some(OpCode { code: 0xAA, mnemonic: Mnemonic::Tax, bytes: 1, cycles: 2, addressing_mode: AddressingMode::NoneAddressing }),
        0xA8 => Some(OpCode { code: 0xA8, mnemonic: Mnemonic::Tay, bytes: 1, cycles: 2, addressing_mode: AddressingMode::NoneAddressing }),
        0xBA => Some(OpCode { code: 0xBA, mnemonic: Mnemonic::Tsx, bytes: 1, cycles: 2, addressing_mode: AddressingMode::NoneAddressing }),
        0x8A => Some(OpCode { code: 0x8A, mnemonic: Mnemonic::Txa, bytes: 1, cycles: 2, addressing_mode: AddressingMode::NoneAddressing }),
        0x9A => Some(OpCode { code: 0x9A, mnemonic: Mnemonic::Txs, bytes: 1, cycles: 2, addressing_mode: AddressingMode::NoneAddressing }),
        0x98 => Some(OpCode { code: 0x98, mnemonic: Mnemonic::Tya, bytes: 1, cycles: 2, addressing_mode: AddressingMode::NoneAddressing }),
        0x48 => Some(OpCode { code: 0x48, mnemonic: Mnemonic::Pha, bytes: 1, cycles: 3, addressing_mode: AddressingMode::NoneAddressing }),
        0x68 => Some(OpCode { code: 0x68, mnemonic: Mnemonic::Pla, bytes: 1, cycles: 4, addressing_mode: AddressingMode::NoneAddressing }),
        0x08 => Some(OpCode { code: 0x08, mnemonic: Mnemonic::Php, bytes: 1, cycles: 3, addressing_mode: AddressingMode::NoneAddressing }),
        0x28 => Some(OpCode { code: 0x28, mnemonic: Mnemonic::Plp, bytes: 1, cycles: 4, addressing_mode: AddressingMode::NoneAddressing }),
        0xA2 => Some(OpCode { code: 0xA2, mnemonic: Mnemonic::Ldx, bytes: 2, cycles: 2, addressing_mode: AddressingMode::Immediate }),
        0xA6 => Some(OpCode { code: 0xA6, mnemonic: Mnemonic::Ldx, bytes: 2, cycles: 3, addressing_mode: AddressingMode::ZeroPage }),
        0xB6 => Some(OpCode { code: 0xB6, mnemonic: Mnemonic::Ldx, bytes: 2, cycles: 4, addressing_mode: AddressingMode::ZeroPage_Y }),
        0xAE => Some(OpCode { code: 0xAE, mnemonic: Mnemonic::Ldx, bytes: 3, cycles: 4, addressing_mode: AddressingMode::Absolute }),
        0xBE => Some(OpCode { code: 0xBE, mnemonic: Mnemonic::Ldx, bytes: 3, cycles: 4, addressing_mode: AddressingMode::Absolute_Y }),
        0xA0 => Some(OpCode { code: 0xA0, mnemonic: Mnemonic::Ldy, bytes: 2, cycles: 2, addressing_mode: AddressingMode::Immediate }),
        0xA4 => Some(OpCode { code: 0xA4, mnemonic: Mnemonic::Ldy, bytes: 2, cycles: 3, addressing_mode: AddressingMode::ZeroPage }),
        0xB4 => Some(OpCode { code: 0xB4, mnemonic: Mnemonic::Ldy, bytes: 2, cycles: 4, addressing_mode: AddressingMode::ZeroPage_X }),
        0xAC => Some(OpCode { code: 0xAC, mnemonic: Mnemonic::Ldy, bytes: 3, cycles: 4, addressing_mode: AddressingMode::Absolute }),
        0xBC => Some(OpCode { code: 0xBC, mnemonic: Mnemonic::Ldy, bytes: 3, cycles: 4, addressing_mode: AddressingMode::Absolute_X }),
        0x85 => Some(OpCode { code: 0x85, mnemonic: Mnemonic::Sta, bytes: 2, cycles: 3, addressing_mode: AddressingMode::ZeroPage }),
        0x95 => Some(OpCode { code: 0x95, mnemonic: Mnemonic::Sta, bytes: 2, cycles: 4, addressing_mode: AddressingMode::ZeroPage_X }),
        0x8D => Some(OpCode { code: 0x8D, mnemonic: Mnemonic::Sta, bytes: 3, cycles: 4, addressing_mode: AddressingMode::Absolute }),
        0x9D => Some(OpCode { code: 0x9D, mnemonic: Mnemonic::Sta, bytes: 3, cycles: 5, addressing_mode: AddressingMode::Absolute_X }),
        0x99 => Some(OpCode { code: 0x99, mnemonic: Mnemonic::Sta, bytes: 3, cycles: 5, addressing_mode: AddressingMode::Absolute_Y }),
        0x81 => Some(OpCode { code: 0x81, mnemonic: Mnemonic::Sta, bytes: 2, cycles: 6, addressing_mode: AddressingMode::Indirect_X }),
        0x91 => Some(OpCode { code: 0x91, mnemonic: Mnemonic::Sta, bytes: 2, cycles: 6, addressing_mode: AddressingMode::Indirect_Y }),
        0x86 => Some(OpCode { code: 0x86, mnemonic: Mnemonic::Stx, bytes: 2, cycles: 3, addressing_mode: AddressingMode::ZeroPage }),
        0x96 => Some(OpCode { code: 0x96, mnemonic: Mnemonic::Stx, bytes: 2, cycles: 4, addressing_mode: AddressingMode::ZeroPage_Y }),
        0x8E => Some(OpCode { code: 0x8E, mnemonic: Mnemonic::Stx, bytes: 3, cycles: 4, addressing_mode: AddressingMode::Absolute }),
        0x84 => Some(OpCode { code: 0x84, mnemonic: Mnemonic::Sty, bytes: 2, cycles: 3, addressing_mode: AddressingMode::ZeroPage }),
        0x94 => Some(OpCode { code: 0x94, mnemonic: Mnemonic::Sty, bytes: 2, cycles: 4, addressing_mode: AddressingMode::ZeroPage_X }),
        0x8C => Some(OpCode { code: 0x8C, mnemonic: Mnemonic::Sty, bytes: 3, cycles: 4, addressing_mode: AddressingMode::Absolute }),
        _ => None,
    }
}

} // verus!
