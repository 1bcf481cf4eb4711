use vstd::prelude::*;

use crate::cpu::AddressingMode;
use crate::instructions::Instruction;

verus! {

/// An opcode decoded: the instruction, how it finds its operand, and its base cycle count.
#[derive(Debug, Clone, Copy, PartialEq, Eq, Structural)]
pub struct OpCode {
    pub instruction: Instruction,
    pub mode: AddressingMode,
    pub cycles: u8,
}

/// The official 6502 opcodes; the others decode to nothing.
#[verifier::opaque]
pub open spec fn spec_decode(op: u8) -> Option<OpCode> {
    match op {
        0x69 => Some(OpCode { instruction: Instruction::Adc, mode: AddressingMode::Immediate, cycles: 2 }),
        0x65 => Some(OpCode { instruction: Instruction::Adc, mode: AddressingMode::ZeroPage, cycles: 3 }),
        0x75 => Some(OpCode { instruction: Instruction::Adc, mode: AddressingMode::ZeroPageX, cycles: 4 }),
        0x6D => Some(OpCode { instruction: Instruction::Adc, mode: AddressingMode::Absolute, cycles: 4 }),
        0x7D => Some(OpCode { instruction: Instruction::Adc, mode: AddressingMode::AbsoluteX, cycles: 4 }),
        0x79 => Some(OpCode { instruction: Instruction::Adc, mode: AddressingMode::AbsoluteY, cycles: 4 }),
        0x61 => Some(OpCode { instruction: Instruction::Adc, mode: AddressingMode::IndirectX, cycles: 6 }),
        0x71 => Some(OpCode { instruction: Instruction::Adc, mode: AddressingMode::IndirectY, cycles: 5 }),
        0x29 => Some(OpCode { instruction: Instruction::And, mode: AddressingMode::Immediate, cycles: 2 }),
        0x25 => Some(OpCode { instruction: Instruction::And, mode: AddressingMode::ZeroPage, cycles: 3 }),
        0x35 => Some(OpCode { instruction: Instruction::And, mode: AddressingMode::ZeroPageX, cycles: 4 }),
        0x2D => Some(OpCode { instruction: Instruction::And, mode: AddressingMode::Absolute, cycles: 4 }),
        0x3D => Some(OpCode { instruction: Instruction::And, mode: AddressingMode::AbsoluteX, cycles: 4 }),
        0x39 => Some(OpCode { instruction: Instruction::And, mode: AddressingMode::AbsoluteY, cycles: 4 }),
        0x21 => Some(OpCode { instruction: Instruction::And, mode: AddressingMode::IndirectX, cycles: 6 }),
        0x31 => Some(OpCode { instruction: Instruction::And, mode: AddressingMode::IndirectY, cycles: 5 }),
        0x0A => Some(OpCode { instruction: Instruction::Asl, mode: AddressingMode::Accumulator, cycles: 2 }),
        0x06 => Some(OpCode { instruction: Instruction::Asl, mode: AddressingMode::ZeroPage, cycles: 5 }),
        0x16 => Some(OpCode { instruction: Instruction::Asl, mode: AddressingMode::ZeroPageX, cycles: 6 }),
        0x0E => Some(OpCode { instruction: Instruction::Asl, mode: AddressingMode::Absolute, cycles: 6 }),
        0x1E => Some(OpCode { instruction: Instruction::Asl, mode: AddressingMode::AbsoluteX, cycles: 7 }),
        0x90 => Some(OpCode { instruction: Instruction::Bcc, mode: AddressingMode::Relative, cycles: 2 }),
        0xB0 => Some(OpCode { instruction: Instruction::Bcs, mode: AddressingMode::Relative, cycles: 2 }),
        0xF0 => Some(OpCode { instruction: Instruction::Beq, mode: AddressingMode::Relative, cycles: 2 }),
        0x30 => Some(OpCode { instruction: Instruction::Bmi, mode: AddressingMode::Relative, cycles: 2 }),
        0xD0 => Some(OpCode { instruction: Instruction::Bne, mode: AddressingMode::Relative, cycles: 2 }),
        0x10 => Some(OpCode { instruction: Instruction::Bpl, mode: AddressingMode::Relative, cycles: 2 }),
        0x50 => Some(OpCode { instruction: Instruction::Bvc, mode: AddressingMode::Relative, cycles: 2 }),
        0x70 => Some(OpCode { instruction: Instruction::Bvs, mode: AddressingMode::Relative, cycles: 2 }),
        0x24 => Some(OpCode { instruction: Instruction::Bit, mode: AddressingMode::ZeroPage, cycles: 3 }),
        0x2C => Some(OpCode { instruction: Instruction::Bit, mode: AddressingMode::Absolute, cycles: 4 }),
        0x00 => Some(OpCode { instruction: Instruction::Brk, mode: AddressingMode::NoneAddressing, cycles: 7 }),
        0x18 => Some(OpCode { instruction: Instruction::Clc, mode: AddressingMode::NoneAddressing, cycles: 2 }),
        0xD8 => Some(OpCode { instruction: Instruction::Cld, mode: AddressingMode::NoneAddressing, cycles: 2 }),
        0x58 => Some(OpCode { instruction: Instruction::Cli, mode: AddressingMode::NoneAddressing, cycles: 2 }),
        0xB8 => Some(OpCode { instruction: Instruction::Clv, mode: AddressingMode::NoneAddressing, cycles: 2 }),
        0xC9 => Some(OpCode { instruction: Instruction::Cmp, mode: AddressingMode::Immediate, cycles: 2 }),
        0xC5 => Some(OpCode { instruction: Instruction::Cmp, mode: AddressingMode::ZeroPage, cycles: 3 }),
        0xD5 => Some(OpCode { instruction: Instruction::Cmp, mode: AddressingMode::ZeroPageX, cycles: 4 }),
        0xCD => Some(OpCode { instruction: Instruction::Cmp, mode: AddressingMode::Absolute, cycles: 4 }),
        0xDD => Some(OpCode { instruction: Instruction::Cmp, mode: AddressingMode::AbsoluteX, cycles: 4 }),
        0xD9 => Some(OpCode { instruction: Instruction::Cmp, mode: AddressingMode::AbsoluteY, cycles: 4 }),
        0xC1 => Some(OpCode { instruction: Instruction::Cmp, mode: AddressingMode::IndirectX, cycles: 6 }),
        0xD1 => Some(OpCode { instruction: Instruction::Cmp, mode: AddressingMode::IndirectY, cycles: 5 }),
        0xE0 => Some(OpCode { instruction: Instruction::Cpx, mode: AddressingMode::Immediate, cycles: 2 }),
        0xE4 => Some(OpCode { instruction: Instruction::Cpx, mode: AddressingMode::ZeroPage, cycles: 3 }),
        0xEC => Some(OpCode { instruction: Instruction::Cpx, mode: AddressingMode::Absolute, cycles: 4 }),
        0xC0 => Some(OpCode { instruction: Instruction::Cpy, mode: AddressingMode::Immediate, cycles: 2 }),
        0xC4 => Some(OpCode { instruction: Instruction::Cpy, mode: AddressingMode::ZeroPage, cycles: 3 }),
        0xCC => Some(OpCode { instruction: Instruction::Cpy, mode: AddressingMode::Absolute, cycles: 4 }),
        0xC6 => Some(OpCode { instruction: Instruction::Dec, mode: AddressingMode::ZeroPage, cycles: 5 }),
        0xD6 => Some(OpCode { instruction: Instruction::Dec, mode: AddressingMode::ZeroPageX, cycles: 6 }),
        0xCE => Some(OpCode { instruction: Instruction::Dec, mode: AddressingMode::Absolute, cycles: 6 }),
        0xDE => Some(OpCode { instruction: Instruction::Dec, mode: AddressingMode::AbsoluteX, cycles: 7 }),
        0xCA => Some(OpCode { instruction: Instruction::Dex, mode: AddressingMode::NoneAddressing, cycles: 2 }),
        0x88 => Some(OpCode { instruction: Instruction::Dey, mode: AddressingMode::NoneAddressing, cycles: 2 }),
        0x49 => Some(OpCode { instruction: Instruction::Eor, mode: AddressingMode::Immediate, cycles: 2 }),
        0x45 => Some(OpCode { instruction: Instruction::Eor, mode: AddressingMode::ZeroPage, cycles: 3 }),
        0x55 => Some(OpCode { instruction: Instruction::Eor, mode: AddressingMode::ZeroPageX, cycles: 4 }),
        0x4D => Some(OpCode { instruction: Instruction::Eor, mode: AddressingMode::Absolute, cycles: 4 }),
        0x5D => Some(OpCode { instruction: Instruction::Eor, mode: AddressingMode::AbsoluteX, cycles: 4 }),
        0x59 => Some(OpCode { instruction: Instruction::Eor, mode: AddressingMode::AbsoluteY, cycles: 4 }),
        0x41 => Some(OpCode { instruction: Instruction::Eor, mode: AddressingMode::IndirectX, cycles: 6 }),
        0x51 => Some(OpCode { instruction: Instruction::Eor, mode: AddressingMode::IndirectY, cycles: 5 }),
        0xE6 => Some(OpCode { instruction: Instruction::Inc, mode: AddressingMode::ZeroPage, cycles: 5 }),
        0xF6 => Some(OpCode { instruction: Instruction::Inc, mode: AddressingMode::ZeroPageX, cycles: 6 }),
        0xEE => Some(OpCode { instruction: Instruction::Inc, mode: AddressingMode::Absolute, cycles: 6 }),
        0xFE => Some(OpCode { instruction: Instruction::Inc, mode: AddressingMode::AbsoluteX, cycles: 7 }),
        0xE8 => Some(OpCode { instruction: Instruction::Inx, mode: AddressingMode::NoneAddressing, cycles: 2 }),
        0xC8 => Some(OpCode { instruction: Instruction::Iny, mode: AddressingMode::NoneAddressing, cycles: 2 }),
        0x4C => Some(OpCode { instruction: Instruction::Jmp, mode: AddressingMode::Absolute, cycles: 3 }),
        0x6C => Some(OpCode { instruction: Instruction::Jmp, mode: AddressingMode::Indirect, cycles: 5 }),
        0x20 => Some(OpCode { instruction: Instruction::Jsr, mode: AddressingMode::Absolute, cycles: 6 }),
        0xA9 => Some(OpCode { instruction: Instruction::Lda, mode: AddressingMode::Immediate, cycles: 2 }),
        0xA5 => Some(OpCode { instruction: Instruction::Lda, mode: AddressingMode::ZeroPage, cycles: 3 }),
        0xB5 => Some(OpCode { instruction: Instruction::Lda, mode: AddressingMode::ZeroPageX, cycles: 4 }),
        0xAD => Some(OpCode { instruction: Instruction::Lda, mode: AddressingMode::Absolute, cycles: 4 }),
        0xBD => Some(OpCode { instruction: Instruction::Lda, mode: AddressingMode::AbsoluteX, cycles: 4 }),
        0xB9 => Some(OpCode { instruction: Instruction::Lda, mode: AddressingMode::AbsoluteY, cycles: 4 }),
        0xA1 => Some(OpCode { instruction: Instruction::Lda, mode: AddressingMode::IndirectX, cycles: 6 }),
        0xB1 => Some(OpCode { instruction: Instruction::Lda, mode: AddressingMode::IndirectY, cycles: 5 }),
        0xA2 => Some(OpCode { instruction: Instruction::Ldx, mode: AddressingMode::Immediate, cycles: 2 }),
        0xA6 => Some(OpCode { instruction: Instruction::Ldx, mode: AddressingMode::ZeroPage, cycles: 3 }),
        0xB6 => Some(OpCode { instruction: Instruction::Ldx, mode: AddressingMode::ZeroPageY, cycles: 4 }),
        0xAE => Some(OpCode { instruction: Instruction::Ldx, mode: AddressingMode::Absolute, cycles: 4 }),
        0xBE => Some(OpCode { instruction: Instruction::Ldx, mode: AddressingMode::AbsoluteY, cycles: 4 }),
        0xA0 => Some(OpCode { instruction: Instruction::Ldy, mode: AddressingMode::Immediate, cycles: 2 }),
        0xA4 => Some(OpCode { instruction: Instruction::Ldy, mode: AddressingMode::ZeroPage, cycles: 3 }),
        0xB4 => Some(OpCode { instruction: Instruction::Ldy, mode: AddressingMode::ZeroPageX, cycles: 4 }),
        0xAC => Some(OpCode { instruction: Instruction::Ldy, mode: AddressingMode::Absolute, cycles: 4 }),
        0xBC => Some(OpCode { instruction: Instruction::Ldy, mode: AddressingMode::AbsoluteX, cycles: 4 }),
        0x4A => Some(OpCode { instruction: Instruction::Lsr, mode: AddressingMode::Accumulator, cycles: 2 }),
        0x46 => Some(OpCode { instruction: Instruction::Lsr, mode: AddressingMode::ZeroPage, cycles: 5 }),
        0x56 => Some(OpCode { instruction: Instruction::Lsr, mode: AddressingMode::ZeroPageX, cycles: 6 }),
        0x4E => Some(OpCode { instruction: Instruction::Lsr, mode: AddressingMode::Absolute, cycles: 6 }),
        0x5E => Some(OpCode { instruction: Instruction::Lsr, mode: AddressingMode::AbsoluteX, cycles: 7 }),
        0xEA => Some(OpCode { instruction: Instruction::Nop, mode: AddressingMode::NoneAddressing, cycles: 2 }),
        0x09 => Some(OpCode { instruction: Instruction::Ora, mode: AddressingMode::Immediate, cycles: 2 }),
        0x05 => Some(OpCode { instruction: Instruction::Ora, mode: AddressingMode::ZeroPage, cycles: 3 }),
        0x15 => Some(OpCode { instruction: Instruction::Ora, mode: AddressingMode::ZeroPageX, cycles: 4 }),
        0x0D => Some(OpCode { instruction: Instruction::Ora, mode: AddressingMode::Absolute, cycles: 4 }),
        0x1D => Some(OpCode { instruction: Instruction::Ora, mode: AddressingMode::AbsoluteX, cycles: 4 }),
        0x19 => Some(OpCode { instruction: Instruction::Ora, mode: AddressingMode::AbsoluteY, cycles: 4 }),
        0x01 => Some(OpCode { instruction: Instruction::Ora, mode: AddressingMode::IndirectX, cycles: 6 }),
        0x11 => Some(OpCode { instruction: Instruction::Ora, mode: AddressingMode::IndirectY, cycles: 5 }),
        0x48 => Some(OpCode { instruction: Instruction::Pha, mode: AddressingMode::NoneAddressing, cycles: 3 }),
        0x08 => Some(OpCode { instruction: Instruction::Php, mode: AddressingMode::NoneAddressing, cycles: 3 }),
        0x68 => Some(OpCode { instruction: Instruction::Pla, mode: AddressingMode::NoneAddressing, cycles: 4 }),
        0x28 => Some(OpCode { instruction: Instruction::Plp, mode: AddressingMode::NoneAddressing, cycles: 4 }),
        0x2A => Some(OpCode { instruction: Instruction::Rol, mode: AddressingMode::Accumulator, cycles: 2 }),
        0x26 => Some(OpCode { instruction: Instruction::Rol, mode: AddressingMode::ZeroPage, cycles: 5 }),
        0x36 => Some(OpCode { instruction: Instruction::Rol, mode: AddressingMode::ZeroPageX, cycles: 6 }),
        0x2E => Some(OpCode { instruction: Instruction::Rol, mode: AddressingMode::Absolute, cycles: 6 }),
        0x3E => Some(OpCode { instruction: Instruction::Rol, mode: AddressingMode::AbsoluteX, cycles: 7 }),
        0x6A => Some(OpCode { instruction: Instruction::Ror, mode: AddressingMode::Accumulator, cycles: 2 }),
        0x66 => Some(OpCode { instruction: Instruction::Ror, mode: AddressingMode::ZeroPage, cycles: 5 }),
        0x76 => Some(OpCode { instruction: Instruction::Ror, mode: AddressingMode::ZeroPageX, cycles: 6 }),
        0x6E => Some(OpCode { instruction: Instruction::Ror, mode: AddressingMode::Absolute, cycles: 6 }),
        0x7E => Some(OpCode { instruction: Instruction::Ror, mode: AddressingMode::AbsoluteX, cycles: 7 }),
        0x40 => Some(OpCode { instruction: Instruction::Rti, mode: AddressingMode::NoneAddressing, cycles: 6 }),
        0x60 => Some(OpCode { instruction: Instruction::Rts, mode: AddressingMode::NoneAddressing, cycles: 6 }),
        0xE9 => Some(OpCode { instruction: Instruction::Sbc, mode: AddressingMode::Immediate, cycles: 2 }),
        0xE5 => Some(OpCode { instruction: Instruction::Sbc, mode: AddressingMode::ZeroPage, cycles: 3 }),
        0xF5 => Some(OpCode { instruction: Instruction::Sbc, mode: AddressingMode::ZeroPageX, cycles: 4 }),
        0xED => Some(OpCode { instruction: Instruction::Sbc, mode: AddressingMode::Absolute, cycles: 4 }),
        0xFD => Some(OpCode { instruction: Instruction::Sbc, mode: AddressingMode::AbsoluteX, cycles: 4 }),
        0xF9 => Some(OpCode { instruction: Instruction::Sbc, mode: AddressingMode::AbsoluteY, cycles: 4 }),
        0xE1 => Some(OpCode { instruction: Instruction::Sbc, mode: AddressingMode::IndirectX, cycles: 6 }),
        0xF1 => Some(OpCode { instruction: Instruction::Sbc, mode: AddressingMode::IndirectY, cycles: 5 }),
        0x38 => Some(OpCode { instruction: Instruction::Sec, mode: AddressingMode::NoneAddressing, cycles: 2 }),
        0xF8 => Some(OpCode { instruction: Instruction::Sed, mode: AddressingMode::NoneAddressing, cycles: 2 }),
        0x78 => Some(OpCode { instruction: Instruction::Sei, mode: AddressingMode::NoneAddressing, cycles: 2 }),
        0x85 => Some(OpCode { instruction: Instruction::Sta, mode: AddressingMode::ZeroPage, cycles: 3 }),
        0x95 => Some(OpCode { instruction: Instruction::Sta, mode: AddressingMode::ZeroPageX, cycles: 4 }),
        0x8D => Some(OpCode { instruction: Instruction::Sta, mode: AddressingMode::Absolute, cycles: 4 }),
        0x9D => Some(OpCode { instruction: Instruction::Sta, mode: AddressingMode::AbsoluteX, cycles: 5 }),
        0x99 => Some(OpCode { instruction: Instruction::Sta, mode: AddressingMode::AbsoluteY, cycles: 5 }),
        0x81 => Some(OpCode { instruction: Instruction::Sta, mode: AddressingMode::IndirectX, cycles: 6 }),
        0x91 => Some(OpCode { instruction: Instruction::Sta, mode: AddressingMode::IndirectY, cycles: 6 }),
        0x86 => Some(OpCode { instruction: Instruction::Stx, mode: AddressingMode::ZeroPage, cycles: 3 }),
        0x96 => Some(OpCode { instruction: Instruction::Stx, mode: AddressingMode::ZeroPageY, cycles: 4 }),
        0x8E => Some(OpCode { instruction: Instruction::Stx, mode: AddressingMode::Absolute, cycles: 4 }),
        0x84 => Some(OpCode { instruction: Instruction::Sty, mode: AddressingMode::ZeroPage, cycles: 3 }),
        0x94 => Some(OpCode { instruction: Instruction::Sty, mode: AddressingMode::ZeroPageX, cycles: 4 }),
        0x8C => Some(OpCode { instruction: Instruction::Sty, mode: AddressingMode::Absolute, cycles: 4 }),
        0xAA => Some(OpCode { instruction: Instruction::Tax, mode: AddressingMode::NoneAddressing, cycles: 2 }),
        0xA8 => Some(OpCode { instruction: Instruction::Tay, mode: AddressingMode::NoneAddressing, cycles: 2 }),
        0xBA => Some(OpCode { instruction: Instruction::Tsx, mode: AddressingMode::NoneAddressing, cycles: 2 }),
        0x8A => Some(OpCode { instruction: Instruction::Txa, mode: AddressingMode::NoneAddressing, cycles: 2 }),
        0x9A => Some(OpCode { instruction: Instruction::Txs, mode: AddressingMode::NoneAddressing, cycles: 2 }),
        0x98 => Some(OpCode { instruction: Instruction::Tya, mode: AddressingMode::NoneAddressing, cycles: 2 }),
        _ => None,
    }
}

/// Looks up an opcode.
pub fn decode(op: u8) -> (r: Option<OpCode>)
    ensures
        r == spec_decode(op),
{
    reveal(spec_decode);
    match op {
        0x69 => Some(OpCode { instruction: Instruction::Adc, mode: AddressingMode::Immediate, cycles: 2 }),
        0x65 => Some(OpCode { instruction: Instruction::Adc, mode: AddressingMode::ZeroPage, cycles: 3 }),
        0x75 => Some(OpCode { instruction: Instruction::Adc, mode: AddressingMode::ZeroPageX, cycles: 4 }),
        0x6D => Some(OpCode { instruction: Instruction::Adc, mode: AddressingMode::Absolute, cycles: 4 }),
        0x7D => Some(OpCode { instruction: Instruction::Adc, mode: AddressingMode::AbsoluteX, cycles: 4 }),
        0x79 => Some(OpCode { instruction: Instruction::Adc, mode: AddressingMode::AbsoluteY, cycles: 4 }),
        0x61 => Some(OpCode { instruction: Instruction::Adc, mode: AddressingMode::IndirectX, cycles: 6 }),
        0x71 => Some(OpCode { instruction: Instruction::Adc, mode: AddressingMode::IndirectY, cycles: 5 }),
        0x29 => Some(OpCode { instruction: Instruction::And, mode: AddressingMode::Immediate, cycles: 2 }),
        0x25 => Some(OpCode { instruction: Instruction::And, mode: AddressingMode::ZeroPage, cycles: 3 }),
        0x35 => Some(OpCode { instruction: Instruction::And, mode: AddressingMode::ZeroPageX, cycles: 4 }),
        0x2D => Some(OpCode { instruction: Instruction::And, mode: AddressingMode::Absolute, cycles: 4 }),
        0x3D => Some(OpCode { instruction: Instruction::And, mode: AddressingMode::AbsoluteX, cycles: 4 }),
        0x39 => Some(OpCode { instruction: Instruction::And, mode: AddressingMode::AbsoluteY, cycles: 4 }),
        0x21 => Some(OpCode { instruction: Instruction::And, mode: AddressingMode::IndirectX, cycles: 6 }),
        0x31 => Some(OpCode { instruction: Instruction::And, mode: AddressingMode::IndirectY, cycles: 5 }),
        0x0A => Some(OpCode { instruction: Instruction::Asl, mode: AddressingMode::Accumulator, cycles: 2 }),
        0x06 => Some(OpCode { instruction: Instruction::Asl, mode: AddressingMode::ZeroPage, cycles: 5 }),
        0x16 => Some(OpCode { instruction: Instruction::Asl, mode: AddressingMode::ZeroPageX, cycles: 6 }),
        0x0E => Some(OpCode { instruction: Instruction::Asl, mode: AddressingMode::Absolute, cycles: 6 }),
        0x1E => Some(OpCode { instruction: Instruction::Asl, mode: AddressingMode::AbsoluteX, cycles: 7 }),
        0x90 => Some(OpCode { instruction: Instruction::Bcc, mode: AddressingMode::Relative, cycles: 2 }),
        0xB0 => Some(OpCode { instruction: Instruction::Bcs, mode: AddressingMode::Relative, cycles: 2 }),
        0xF0 => Some(OpCode { instruction: Instruction::Beq, mode: AddressingMode::Relative, cycles: 2 }),
        0x30 => Some(OpCode { instruction: Instruction::Bmi, mode: AddressingMode::Relative, cycles: 2 }),
        0xD0 => Some(OpCode { instruction: Instruction::Bne, mode: AddressingMode::Relative, cycles: 2 }),
        0x10 => Some(OpCode { instruction: Instruction::Bpl, mode: AddressingMode::Relative, cycles: 2 }),
        0x50 => Some(OpCode { instruction: Instruction::Bvc, mode: AddressingMode::Relative, cycles: 2 }),
        0x70 => Some(OpCode { instruction: Instruction::Bvs, mode: AddressingMode::Relative, cycles: 2 }),
        0x24 => Some(OpCode { instruction: Instruction::Bit, mode: AddressingMode::ZeroPage, cycles: 3 }),
        0x2C => Some(OpCode { instruction: Instruction::Bit, mode: AddressingMode::Absolute, cycles: 4 }),
        0x00 => Some(OpCode { instruction: Instruction::Brk, mode: AddressingMode::NoneAddressing, cycles: 7 }),
        0x18 => Some(OpCode { instruction: Instruction::Clc, mode: AddressingMode::NoneAddressing, cycles: 2 }),
        0xD8 => Some(OpCode { instruction: Instruction::Cld, mode: AddressingMode::NoneAddressing, cycles: 2 }),
        0x58 => Some(OpCode { instruction: Instruction::Cli, mode: AddressingMode::NoneAddressing, cycles: 2 }),
        0xB8 => Some(OpCode { instruction: Instruction::Clv, mode: AddressingMode::NoneAddressing, cycles: 2 }),
        0xC9 => Some(OpCode { instruction: Instruction::Cmp, mode: AddressingMode::Immediate, cycles: 2 }),
        0xC5 => Some(OpCode { instruction: Instruction::Cmp, mode: AddressingMode::ZeroPage, cycles: 3 }),
        0xD5 => Some(OpCode { instruction: Instruction::Cmp, mode: AddressingMode::ZeroPageX, cycles: 4 }),
        0xCD => Some(OpCode { instruction: Instruction::Cmp, mode: AddressingMode::Absolute, cycles: 4 }),
        0xDD => Some(OpCode { instruction: Instruction::Cmp, mode: AddressingMode::AbsoluteX, cycles: 4 }),
        0xD9 => Some(OpCode { instruction: Instruction::Cmp, mode: AddressingMode::AbsoluteY, cycles: 4 }),
        0xC1 => Some(OpCode { instruction: Instruction::Cmp, mode: AddressingMode::IndirectX, cycles: 6 }),
        0xD1 => Some(OpCode { instruction: Instruction::Cmp, mode: AddressingMode::IndirectY, cycles: 5 }),
        0xE0 => Some(OpCode { instruction: Instruction::Cpx, mode: AddressingMode::Immediate, cycles: 2 }),
        0xE4 => Some(OpCode { instruction: Instruction::Cpx, mode: AddressingMode::ZeroPage, cycles: 3 }),
        0xEC => Some(OpCode { instruction: Instruction::Cpx, mode: AddressingMode::Absolute, cycles: 4 }),
        0xC0 => Some(OpCode { instruction: Instruction::Cpy, mode: AddressingMode::Immediate, cycles: 2 }),
        0xC4 => Some(OpCode { instruction: Instruction::Cpy, mode: AddressingMode::ZeroPage, cycles: 3 }),
        0xCC => Some(OpCode { instruction: Instruction::Cpy, mode: AddressingMode::Absolute, cycles: 4 }),
        0xC6 => Some(OpCode { instruction: Instruction::Dec, mode: AddressingMode::ZeroPage, cycles: 5 }),
        0xD6 => Some(OpCode { instruction: Instruction::Dec, mode: AddressingMode::ZeroPageX, cycles: 6 }),
        0xCE => Some(OpCode { instruction: Instruction::Dec, mode: AddressingMode::Absolute, cycles: 6 }),
        0xDE => Some(OpCode { instruction: Instruction::Dec, mode: AddressingMode::AbsoluteX, cycles: 7 }),
        0xCA => Some(OpCode { instruction: Instruction::Dex, mode: AddressingMode::NoneAddressing, cycles: 2 }),
        0x88 => Some(OpCode { instruction: Instruction::Dey, mode: AddressingMode::NoneAddressing, cycles: 2 }),
        0x49 => Some(OpCode { instruction: Instruction::Eor, mode: AddressingMode::Immediate, cycles: 2 }),
        0x45 => Some(OpCode { instruction: Instruction::Eor, mode: AddressingMode::ZeroPage, cycles: 3 }),
        0x55 => Some(OpCode { instruction: Instruction::Eor, mode: AddressingMode::ZeroPageX, cycles: 4 }),
        0x4D => Some(OpCode { instruction: Instruction::Eor, mode: AddressingMode::Absolute, cycles: 4 }),
        0x5D => Some(OpCode { instruction: Instruction::Eor, mode: AddressingMode::AbsoluteX, cycles: 4 }),
        0x59 => Some(OpCode { instruction: Instruction::Eor, mode: AddressingMode::AbsoluteY, cycles: 4 }),
        0x41 => Some(OpCode { instruction: Instruction::Eor, mode: AddressingMode::IndirectX, cycles: 6 }),
        0x51 => Some(OpCode { instruction: Instruction::Eor, mode: AddressingMode::IndirectY, cycles: 5 }),
        0xE6 => Some(OpCode { instruction: Instruction::Inc, mode: AddressingMode::ZeroPage, cycles: 5 }),
        0xF6 => Some(OpCode { instruction: Instruction::Inc, mode: AddressingMode::ZeroPageX, cycles: 6 }),
        0xEE => Some(OpCode { instruction: Instruction::Inc, mode: AddressingMode::Absolute, cycles: 6 }),
        0xFE => Some(OpCode { instruction: Instruction::Inc, mode: AddressingMode::AbsoluteX, cycles: 7 }),
        0xE8 => Some(OpCode { instruction: Instruction::Inx, mode: AddressingMode::NoneAddressing, cycles: 2 }),
        0xC8 => Some(OpCode { instruction: Instruction::Iny, mode: AddressingMode::NoneAddressing, cycles: 2 }),
        0x4C => Some(OpCode { instruction: Instruction::Jmp, mode: AddressingMode::Absolute, cycles: 3 }),
        0x6C => Some(OpCode { instruction: Instruction::Jmp, mode: AddressingMode::Indirect, cycles: 5 }),
        0x20 => Some(OpCode { instruction: Instruction::Jsr, mode: AddressingMode::Absolute, cycles: 6 }),
        0xA9 => Some(OpCode { instruction: Instruction::Lda, mode: AddressingMode::Immediate, cycles: 2 }),
        0xA5 => Some(OpCode { instruction: Instruction::Lda, mode: AddressingMode::ZeroPage, cycles: 3 }),
        0xB5 => Some(OpCode { instruction: Instruction::Lda, mode: AddressingMode::ZeroPageX, cycles: 4 }),
        0xAD => Some(OpCode { instruction: Instruction::Lda, mode: AddressingMode::Absolute, cycles: 4 }),
        0xBD => Some(OpCode { instruction: Instruction::Lda, mode: AddressingMode::AbsoluteX, cycles: 4 }),
        0xB9 => Some(OpCode { instruction: Instruction::Lda, mode: AddressingMode::AbsoluteY, cycles: 4 }),
        0xA1 => Some(OpCode { instruction: Instruction::Lda, mode: AddressingMode::IndirectX, cycles: 6 }),
        0xB1 => Some(OpCode { instruction: Instruction::Lda, mode: AddressingMode::IndirectY, cycles: 5 }),
        0xA2 => Some(OpCode { instruction: Instruction::Ldx, mode: AddressingMode::Immediate, cycles: 2 }),
        0xA6 => Some(OpCode { instruction: Instruction::Ldx, mode: AddressingMode::ZeroPage, cycles: 3 }),
        0xB6 => Some(OpCode { instruction: Instruction::Ldx, mode: AddressingMode::ZeroPageY, cycles: 4 }),
        0xAE => Some(OpCode { instruction: Instruction::Ldx, mode: AddressingMode::Absolute, cycles: 4 }),
        0xBE => Some(OpCode { instruction: Instruction::Ldx, mode: AddressingMode::AbsoluteY, cycles: 4 }),
        0xA0 => Some(OpCode { instruction: Instruction::Ldy, mode: AddressingMode::Immediate, cycles: 2 }),
        0xA4 => Some(OpCode { instruction: Instruction::Ldy, mode: AddressingMode::ZeroPage, cycles: 3 }),
        0xB4 => Some(OpCode { instruction: Instruction::Ldy, mode: AddressingMode::ZeroPageX, cycles: 4 }),
        0xAC => Some(OpCode { instruction: Instruction::Ldy, mode: AddressingMode::Absolute, cycles: 4 }),
        0xBC => Some(OpCode { instruction: Instruction::Ldy, mode: AddressingMode::AbsoluteX, cycles: 4 }),
        0x4A => Some(OpCode { instruction: Instruction::Lsr, mode: AddressingMode::Accumulator, cycles: 2 }),
        0x46 => Some(OpCode { instruction: Instruction::Lsr, mode: AddressingMode::ZeroPage, cycles: 5 }),
        0x56 => Some(OpCode { instruction: Instruction::Lsr, mode: AddressingMode::ZeroPageX, cycles: 6 }),
        0x4E => Some(OpCode { instruction: Instruction::Lsr, mode: AddressingMode::Absolute, cycles: 6 }),
        0x5E => Some(OpCode { instruction: Instruction::Lsr, mode: AddressingMode::AbsoluteX, cycles: 7 }),
        0xEA => Some(OpCode { instruction: Instruction::Nop, mode: AddressingMode::NoneAddressing, cycles: 2 }),
        0x09 => Some(OpCode { instruction: Instruction::Ora, mode: AddressingMode::Immediate, cycles: 2 }),
        0x05 => Some(OpCode { instruction: Instruction::Ora, mode: AddressingMode::ZeroPage, cycles: 3 }),
        0x15 => Some(OpCode { instruction: Instruction::Ora, mode: AddressingMode::ZeroPageX, cycles: 4 }),
        0x0D => Some(OpCode { instruction: Instruction::Ora, mode: AddressingMode::Absolute, cycles: 4 }),
        0x1D => Some(OpCode { instruction: Instruction::Ora, mode: AddressingMode::AbsoluteX, cycles: 4 }),
        0x19 => Some(OpCode { instruction: Instruction::Ora, mode: AddressingMode::AbsoluteY, cycles: 4 }),
        0x01 => Some(OpCode { instruction: Instruction::Ora, mode: AddressingMode::IndirectX, cycles: 6 }),
        0x11 => Some(OpCode { instruction: Instruction::Ora, mode: AddressingMode::IndirectY, cycles: 5 }),
        0x48 => Some(OpCode { instruction: Instruction::Pha, mode: AddressingMode::NoneAddressing, cycles: 3 }),
        0x08 => Some(OpCode { instruction: Instruction::Php, mode: AddressingMode::NoneAddressing, cycles: 3 }),
        0x68 => Some(OpCode { instruction: Instruction::Pla, mode: AddressingMode::NoneAddressing, cycles: 4 }),
        0x28 => Some(OpCode { instruction: Instruction::Plp, mode: AddressingMode::NoneAddressing, cycles: 4 }),
        0x2A => Some(OpCode { instruction: Instruction::Rol, mode: AddressingMode::Accumulator, cycles: 2 }),
        0x26 => Some(OpCode { instruction: Instruction::Rol, mode: AddressingMode::ZeroPage, cycles: 5 }),
        0x36 => Some(OpCode { instruction: Instruction::Rol, mode: AddressingMode::ZeroPageX, cycles: 6 }),
        0x2E => Some(OpCode { instruction: Instruction::Rol, mode: AddressingMode::Absolute, cycles: 6 }),
        0x3E => Some(OpCode { instruction: Instruction::Rol, mode: AddressingMode::AbsoluteX, cycles: 7 }),
        0x6A => Some(OpCode { instruction: Instruction::Ror, mode: AddressingMode::Accumulator, cycles: 2 }),
        0x66 => Some(OpCode { instruction: Instruction::Ror, mode: AddressingMode::ZeroPage, cycles: 5 }),
        0x76 => Some(OpCode { instruction: Instruction::Ror, mode: AddressingMode::ZeroPageX, cycles: 6 }),
        0x6E => Some(OpCode { instruction: Instruction::Ror, mode: AddressingMode::Absolute, cycles: 6 }),
        0x7E => Some(OpCode { instruction: Instruction::Ror, mode: AddressingMode::AbsoluteX, cycles: 7 }),
        0x40 => Some(OpCode { instruction: Instruction::Rti, mode: AddressingMode::NoneAddressing, cycles: 6 }),
        0x60 => Some(OpCode { instruction: Instruction::Rts, mode: AddressingMode::NoneAddressing, cycles: 6 }),
        0xE9 => Some(OpCode { instruction: Instruction::Sbc, mode: AddressingMode::Immediate, cycles: 2 }),
        0xE5 => Some(OpCode { instruction: Instruction::Sbc, mode: AddressingMode::ZeroPage, cycles: 3 }),
        0xF5 => Some(OpCode { instruction: Instruction::Sbc, mode: AddressingMode::ZeroPageX, cycles: 4 }),
        0xED => Some(OpCode { instruction: Instruction::Sbc, mode: AddressingMode::Absolute, cycles: 4 }),
        0xFD => Some(OpCode { instruction: Instruction::Sbc, mode: AddressingMode::AbsoluteX, cycles: 4 }),
        0xF9 => Some(OpCode { instruction: Instruction::Sbc, mode: AddressingMode::AbsoluteY, cycles: 4 }),
        0xE1 => Some(OpCode { instruction: Instruction::Sbc, mode: AddressingMode::IndirectX, cycles: 6 }),
        0xF1 => Some(OpCode { instruction: Instruction::Sbc, mode: AddressingMode::IndirectY, cycles: 5 }),
        0x38 => Some(OpCode { instruction: Instruction::Sec, mode: AddressingMode::NoneAddressing, cycles: 2 }),
        0xF8 => Some(OpCode { instruction: Instruction::Sed, mode: AddressingMode::NoneAddressing, cycles: 2 }),
        0x78 => Some(OpCode { instruction: Instruction::Sei, mode: AddressingMode::NoneAddressing, cycles: 2 }),
        0x85 => Some(OpCode { instruction: Instruction::Sta, mode: AddressingMode::ZeroPage, cycles: 3 }),
        0x95 => Some(OpCode { instruction: Instruction::Sta, mode: AddressingMode::ZeroPageX, cycles: 4 }),
        0x8D => Some(OpCode { instruction: Instruction::Sta, mode: AddressingMode::Absolute, cycles: 4 }),
        0x9D => Some(OpCode { instruction: Instruction::Sta, mode: AddressingMode::AbsoluteX, cycles: 5 }),
        0x99 => Some(OpCode { instruction: Instruction::Sta, mode: AddressingMode::AbsoluteY, cycles: 5 }),
        0x81 => Some(OpCode { instruction: Instruction::Sta, mode: AddressingMode::IndirectX, cycles: 6 }),
        0x91 => Some(OpCode { instruction: Instruction::Sta, mode: AddressingMode::IndirectY, cycles: 6 }),
        0x86 => Some(OpCode { instruction: Instruction::Stx, mode: AddressingMode::ZeroPage, cycles: 3 }),
        0x96 => Some(OpCode { instruction: Instruction::Stx, mode: AddressingMode::ZeroPageY, cycles: 4 }),
        0x8E => Some(OpCode { instruction: Instruction::Stx, mode: AddressingMode::Absolute, cycles: 4 }),
        0x84 => Some(OpCode { instruction: Instruction::Sty, mode: AddressingMode::ZeroPage, cycles: 3 }),
        0x94 => Some(OpCode { instruction: Instruction::Sty, mode: AddressingMode::ZeroPageX, cycles: 4 }),
        0x8C => Some(OpCode { instruction: Instruction::Sty, mode: AddressingMode::Absolute, cycles: 4 }),
        0xAA => Some(OpCode { instruction: Instruction::Tax, mode: AddressingMode::NoneAddressing, cycles: 2 }),
        0xA8 => Some(OpCode { instruction: Instruction::Tay, mode: AddressingMode::NoneAddressing, cycles: 2 }),
        0xBA => Some(OpCode { instruction: Instruction::Tsx, mode: AddressingMode::NoneAddressing, cycles: 2 }),
        0x8A => Some(OpCode { instruction: Instruction::Txa, mode: AddressingMode::NoneAddressing, cycles: 2 }),
        0x9A => Some(OpCode { instruction: Instruction::Txs, mode: AddressingMode::NoneAddressing, cycles: 2 }),
        0x98 => Some(OpCode { instruction: Instruction::Tya, mode: AddressingMode::NoneAddressing, cycles: 2 }),
        _ => None,
    }
}

/// Every instruction takes between two and seven cycles.
pub proof fn decode_cycles(op: u8)
    ensures
        spec_decode(op) matches Some(o) ==> 2 <= o.cycles <= 7,
{
    reveal(spec_decode);
}

} // verus!
