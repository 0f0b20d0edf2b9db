//! The fixed 256-entry opcode decode table: every byte value maps to an
//! operation, an addressing-mode tag and a base cycle cost — there are no
//! gaps, so decoding is a total function and execution can never reach an
//! unmapped opcode.
//!
//! Bytes outside the documented set and the modeled combined forms decode to
//! no-operations that still carry the right addressing mode, so they consume
//! their operand bytes and their cycles.

use vstd::prelude::*;

verus! {

/// The operation an opcode selects.
#[derive(Clone, Copy, PartialEq, Eq, Structural, Debug)]
pub enum Inst {
    Lda, Ldx, Ldy, Sta, Stx, Sty,
    Txa, Tya, Txs, Tay, Tax, Tsx,
    Php, Plp, Pha, Pla,
    Adc, Sbc, Cpx, Cpy, Cmp,
    And, Eor, Ora, Bit,
    Asl, Lsr, Rol, Ror,
    Inx, Iny, Inc, Dex, Dey, Dec,
    Clc, Cli, Clv, Sec, Sei, Cld, Sed,
    Brk, Jsr, Jmp, Rti, Rts,
    Bcc, Bcs, Beq, Bmi, Bne, Bpl, Bvs, Bvc,
    Nop,
    Lax, Sax, Dcp, Isc, Slo, Rla, Sre, Rra,
}

/// The rule for computing an instruction's operand location from the bytes
/// that follow it.
#[derive(Clone, Copy, PartialEq, Eq, Structural, Debug)]
pub enum Addressing {
    Implied,
    Accumulator,
    Immediate,
    ZeroPage,
    ZeroPageX,
    ZeroPageY,
    Absolute,
    AbsoluteX,
    AbsoluteY,
    Relative,
    Indirect,
    IndirectX,
    IndirectY,
}

/// One decode-table entry.
#[derive(Clone, Copy, PartialEq, Eq, Structural, Debug)]
pub struct InstInfo {
    pub inst: Inst,
    pub mode: Addressing,
    pub cycles: u8,
}

/// The decode table as a total function over all 256 opcode values.
pub open spec fn spec_decode(op: u8) -> InstInfo {
    match op {
        0x00 => InstInfo { inst: Inst::Brk, mode: Addressing::Implied, cycles: 7 },
        0x01 => InstInfo { inst: Inst::Ora, mode: Addressing::IndirectX, cycles: 6 },
        0x02 => InstInfo { inst: Inst::Nop, mode: Addressing::Implied, cycles: 2 },
        0x03 => InstInfo { inst: Inst::Slo, mode: Addressing::IndirectX, cycles: 8 },
        0x04 => InstInfo { inst: Inst::Nop, mode: Addressing::ZeroPage, cycles: 3 },
        0x05 => InstInfo { inst: Inst::Ora, mode: Addressing::ZeroPage, cycles: 3 },
        0x06 => InstInfo { inst: Inst::Asl, mode: Addressing::ZeroPage, cycles: 5 },
        0x07 => InstInfo { inst: Inst::Slo, mode: Addressing::ZeroPage, cycles: 5 },
        0x08 => InstInfo { inst: Inst::Php, mode: Addressing::Implied, cycles: 3 },
        0x09 => InstInfo { inst: Inst::Ora, mode: Addressing::Immediate, cycles: 2 },
        0x0A => InstInfo { inst: Inst::Asl, mode: Addressing::Accumulator, cycles: 2 },
        0x0B => InstInfo { inst: Inst::Nop, mode: Addressing::Immediate, cycles: 2 },
        0x0C => InstInfo { inst: Inst::Nop, mode: Addressing::Absolute, cycles: 4 },
        0x0D => InstInfo { inst: Inst::Ora, mode: Addressing::Absolute, cycles: 4 },
        0x0E => InstInfo { inst: Inst::Asl, mode: Addressing::Absolute, cycles: 6 },
        0x0F => InstInfo { inst: Inst::Slo, mode: Addressing::Absolute, cycles: 6 },
        0x10 => InstInfo { inst: Inst::Bpl, mode: Addressing::Relative, cycles: 2 },
        0x11 => InstInfo { inst: Inst::Ora, mode: Addressing::IndirectY, cycles: 5 },
        0x12 => InstInfo { inst: Inst::Nop, mode: Addressing::Implied, cycles: 2 },
        0x13 => InstInfo { inst: Inst::Slo, mode: Addressing::IndirectY, cycles: 8 },
        0x14 => InstInfo { inst: Inst::Nop, mode: Addressing::ZeroPageX, cycles: 4 },
        0x15 => InstInfo { inst: Inst::Ora, mode: Addressing::ZeroPageX, cycles: 4 },
        0x16 => InstInfo { inst: Inst::Asl, mode: Addressing::ZeroPageX, cycles: 6 },
        0x17 => InstInfo { inst: Inst::Slo, mode: Addressing::ZeroPageX, cycles: 6 },
        0x18 => InstInfo { inst: Inst::Clc, mode: Addressing::Implied, cycles: 2 },
        0x19 => InstInfo { inst: Inst::Ora, mode: Addressing::AbsoluteY, cycles: 4 },
        0x1A => InstInfo { inst: Inst::Nop, mode: Addressing::Implied, cycles: 2 },
        0x1B => InstInfo { inst: Inst::Slo, mode: Addressing::AbsoluteY, cycles: 7 },
        0x1C => InstInfo { inst: Inst::Nop, mode: Addressing::AbsoluteX, cycles: 4 },
        0x1D => InstInfo { inst: Inst::Ora, mode: Addressing::AbsoluteX, cycles: 4 },
        0x1E => InstInfo { inst: Inst::Asl, mode: Addressing::AbsoluteX, cycles: 7 },
        0x1F => InstInfo { inst: Inst::Slo, mode: Addressing::AbsoluteX, cycles: 7 },
        0x20 => InstInfo { inst: Inst::Jsr, mode: Addressing::Absolute, cycles: 6 },
        0x21 => InstInfo { inst: Inst::And, mode: Addressing::IndirectX, cycles: 6 },
        0x22 => InstInfo { inst: Inst::Nop, mode: Addressing::Implied, cycles: 2 },
        0x23 => InstInfo { inst: Inst::Rla, mode: Addressing::IndirectX, cycles: 8 },
        0x24 => InstInfo { inst: Inst::Bit, mode: Addressing::ZeroPage, cycles: 3 },
        0x25 => InstInfo { inst: Inst::And, mode: Addressing::ZeroPage, cycles: 3 },
        0x26 => InstInfo { inst: Inst::Rol, mode: Addressing::ZeroPage, cycles: 5 },
        0x27 => InstInfo { inst: Inst::Rla, mode: Addressing::ZeroPage, cycles: 5 },
        0x28 => InstInfo { inst: Inst::Plp, mode: Addressing::Implied, cycles: 4 },
        0x29 => InstInfo { inst: Inst::And, mode: Addressing::Immediate, cycles: 2 },
        0x2A => InstInfo { inst: Inst::Rol, mode: Addressing::Accumulator, cycles: 2 },
        0x2B => InstInfo { inst: Inst::Nop, mode: Addressing::Immediate, cycles: 2 },
        0x2C => InstInfo { inst: Inst::Bit, mode: Addressing::Absolute, cycles: 4 },
        0x2D => InstInfo { inst: Inst::And, mode: Addressing::Absolute, cycles: 4 },
        0x2E => InstInfo { inst: Inst::Rol, mode: Addressing::Absolute, cycles: 6 },
        0x2F => InstInfo { inst: Inst::Rla, mode: Addressing::Absolute, cycles: 6 },
        0x30 => InstInfo { inst: Inst::Bmi, mode: Addressing::Relative, cycles: 2 },
        0x31 => InstInfo { inst: Inst::And, mode: Addressing::IndirectY, cycles: 5 },
        0x32 => InstInfo { inst: Inst::Nop, mode: Addressing::Implied, cycles: 2 },
        0x33 => InstInfo { inst: Inst::Rla, mode: Addressing::IndirectY, cycles: 8 },
        0x34 => InstInfo { inst: Inst::Nop, mode: Addressing::ZeroPageX, cycles: 4 },
        0x35 => InstInfo { inst: Inst::And, mode: Addressing::ZeroPageX, cycles: 4 },
        0x36 => InstInfo { inst: Inst::Rol, mode: Addressing::ZeroPageX, cycles: 6 },
        0x37 => InstInfo { inst: Inst::Rla, mode: Addressing::ZeroPageX, cycles: 6 },
        0x38 => InstInfo { inst: Inst::Sec, mode: Addressing::Implied, cycles: 2 },
        0x39 => InstInfo { inst: Inst::And, mode: Addressing::AbsoluteY, cycles: 4 },
        0x3A => InstInfo { inst: Inst::Nop, mode: Addressing::Implied, cycles: 2 },
        0x3B => InstInfo { inst: Inst::Rla, mode: Addressing::AbsoluteY, cycles: 7 },
        0x3C => InstInfo { inst: Inst::Nop, mode: Addressing::AbsoluteX, cycles: 4 },
        0x3D => InstInfo { inst: Inst::And, mode: Addressing::AbsoluteX, cycles: 4 },
        0x3E => InstInfo { inst: Inst::Rol, mode: Addressing::AbsoluteX, cycles: 7 },
        0x3F => InstInfo { inst: Inst::Rla, mode: Addressing::AbsoluteX, cycles: 7 },
        0x40 => InstInfo { inst: Inst::Rti, mode: Addressing::Implied, cycles: 6 },
        0x41 => InstInfo { inst: Inst::Eor, mode: Addressing::IndirectX, cycles: 6 },
        0x42 => InstInfo { inst: Inst::Nop, mode: Addressing::Implied, cycles: 2 },
        0x43 => InstInfo { inst: Inst::Sre, mode: Addressing::IndirectX, cycles: 8 },
        0x44 => InstInfo { inst: Inst::Nop, mode: Addressing::ZeroPage, cycles: 3 },
        0x45 => InstInfo { inst: Inst::Eor, mode: Addressing::ZeroPage, cycles: 3 },
        0x46 => InstInfo { inst: Inst::Lsr, mode: Addressing::ZeroPage, cycles: 5 },
        0x47 => InstInfo { inst: Inst::Sre, mode: Addressing::ZeroPage, cycles: 5 },
        0x48 => InstInfo { inst: Inst::Pha, mode: Addressing::Implied, cycles: 3 },
        0x49 => InstInfo { inst: Inst::Eor, mode: Addressing::Immediate, cycles: 2 },
        0x4A => InstInfo { inst: Inst::Lsr, mode: Addressing::Accumulator, cycles: 2 },
        0x4B => InstInfo { inst: Inst::Nop, mode: Addressing::Immediate, cycles: 2 },
        0x4C => InstInfo { inst: Inst::Jmp, mode: Addressing::Absolute, cycles: 3 },
        0x4D => InstInfo { inst: Inst::Eor, mode: Addressing::Absolute, cycles: 4 },
        0x4E => InstInfo { inst: Inst::Lsr, mode: Addressing::Absolute, cycles: 6 },
        0x4F => InstInfo { inst: Inst::Sre, mode: Addressing::Absolute, cycles: 6 },
        0x50 => InstInfo { inst: Inst::Bvc, mode: Addressing::Relative, cycles: 2 },
        0x51 => InstInfo { inst: Inst::Eor, mode: Addressing::IndirectY, cycles: 5 },
        0x52 => InstInfo { inst: Inst::Nop, mode: Addressing::Implied, cycles: 2 },
        0x53 => InstInfo { inst: Inst::Sre, mode: Addressing::IndirectY, cycles: 8 },
        0x54 => InstInfo { inst: Inst::Nop, mode: Addressing::ZeroPageX, cycles: 4 },
        0x55 => InstInfo { inst: Inst::Eor, mode: Addressing::ZeroPageX, cycles: 4 },
        0x56 => InstInfo { inst: Inst::Lsr, mode: Addressing::ZeroPageX, cycles: 6 },
        0x57 => InstInfo { inst: Inst::Sre, mode: Addressing::ZeroPageX, cycles: 6 },
        0x58 => InstInfo { inst: Inst::Cli, mode: Addressing::Implied, cycles: 2 },
        0x59 => InstInfo { inst: Inst::Eor, mode: Addressing::AbsoluteY, cycles: 4 },
        0x5A => InstInfo { inst: Inst::Nop, mode: Addressing::Implied, cycles: 2 },
        0x5B => InstInfo { inst: Inst::Sre, mode: Addressing::AbsoluteY, cycles: 7 },
        0x5C => InstInfo { inst: Inst::Nop, mode: Addressing::AbsoluteX, cycles: 4 },
        0x5D => InstInfo { inst: Inst::Eor, mode: Addressing::AbsoluteX, cycles: 4 },
        0x5E => InstInfo { inst: Inst::Lsr, mode: Addressing::AbsoluteX, cycles: 7 },
        0x5F => InstInfo { inst: Inst::Sre, mode: Addressing::AbsoluteX, cycles: 7 },
        0x60 => InstInfo { inst: Inst::Rts, mode: Addressing::Implied, cycles: 6 },
        0x61 => InstInfo { inst: Inst::Adc, mode: Addressing::IndirectX, cycles: 6 },
        0x62 => InstInfo { inst: Inst::Nop, mode: Addressing::Implied, cycles: 2 },
        0x63 => InstInfo { inst: Inst::Rra, mode: Addressing::IndirectX, cycles: 8 },
        0x64 => InstInfo { inst: Inst::Nop, mode: Addressing::ZeroPage, cycles: 3 },
        0x65 => InstInfo { inst: Inst::Adc, mode: Addressing::ZeroPage, cycles: 3 },
        0x66 => InstInfo { inst: Inst::Ror, mode: Addressing::ZeroPage, cycles: 5 },
        0x67 => InstInfo { inst: Inst::Rra, mode: Addressing::ZeroPage, cycles: 5 },
        0x68 => InstInfo { inst: Inst::Pla, mode: Addressing::Implied, cycles: 4 },
        0x69 => InstInfo { inst: Inst::Adc, mode: Addressing::Immediate, cycles: 2 },
        0x6A => InstInfo { inst: Inst::Ror, mode: Addressing::Accumulator, cycles: 2 },
        0x6B => InstInfo { inst: Inst::Nop, mode: Addressing::Immediate, cycles: 2 },
        0x6C => InstInfo { inst: Inst::Jmp, mode: Addressing::Indirect, cycles: 5 },
        0x6D => InstInfo { inst: Inst::Adc, mode: Addressing::Absolute, cycles: 4 },
        0x6E => InstInfo { inst: Inst::Ror, mode: Addressing::Absolute, cycles: 6 },
        0x6F => InstInfo { inst: Inst::Rra, mode: Addressing::Absolute, cycles: 6 },
        0x70 => InstInfo { inst: Inst::Bvs, mode: Addressing::Relative, cycles: 2 },
        0x71 => InstInfo { inst: Inst::Adc, mode: Addressing::IndirectY, cycles: 5 },
        0x72 => InstInfo { inst: Inst::Nop, mode: Addressing::Implied, cycles: 2 },
        0x73 => InstInfo { inst: Inst::Rra, mode: Addressing::IndirectY, cycles: 8 },
        0x74 => InstInfo { inst: Inst::Nop, mode: Addressing::ZeroPageX, cycles: 4 },
        0x75 => InstInfo { inst: Inst::Adc, mode: Addressing::ZeroPageX, cycles: 4 },
        0x76 => InstInfo { inst: Inst::Ror, mode: Addressing::ZeroPageX, cycles: 6 },
        0x77 => InstInfo { inst: Inst::Rra, mode: Addressing::ZeroPageX, cycles: 6 },
        0x78 => InstInfo { inst: Inst::Sei, mode: Addressing::Implied, cycles: 2 },
        0x79 => InstInfo { inst: Inst::Adc, mode: Addressing::AbsoluteY, cycles: 4 },
        0x7A => InstInfo { inst: Inst::Nop, mode: Addressing::Implied, cycles: 2 },
        0x7B => InstInfo { inst: Inst::Rra, mode: Addressing::AbsoluteY, cycles: 7 },
        0x7C => InstInfo { inst: Inst::Nop, mode: Addressing::AbsoluteX, cycles: 4 },
        0x7D => InstInfo { inst: Inst::Adc, mode: Addressing::AbsoluteX, cycles: 4 },
        0x7E => InstInfo { inst: Inst::Ror, mode: Addressing::AbsoluteX, cycles: 7 },
        0x7F => InstInfo { inst: Inst::Rra, mode: Addressing::AbsoluteX, cycles: 7 },
        0x80 => InstInfo { inst: Inst::Nop, mode: Addressing::Immediate, cycles: 2 },
        0x81 => InstInfo { inst: Inst::Sta, mode: Addressing::IndirectX, cycles: 6 },
        0x82 => InstInfo { inst: Inst::Nop, mode: Addressing::Immediate, cycles: 2 },
        0x83 => InstInfo { inst: Inst::Sax, mode: Addressing::IndirectX, cycles: 6 },
        0x84 => InstInfo { inst: Inst::Sty, mode: Addressing::ZeroPage, cycles: 3 },
        0x85 => InstInfo { inst: Inst::Sta, mode: Addressing::ZeroPage, cycles: 3 },
        0x86 => InstInfo { inst: Inst::Stx, mode: Addressing::ZeroPage, cycles: 3 },
        0x87 => InstInfo { inst: Inst::Sax, mode: Addressing::ZeroPage, cycles: 3 },
        0x88 => InstInfo { inst: Inst::Dey, mode: Addressing::Implied, cycles: 2 },
        0x89 => InstInfo { inst: Inst::Nop, mode: Addressing::Immediate, cycles: 2 },
        0x8A => InstInfo { inst: Inst::Txa, mode: Addressing::Implied, cycles: 2 },
        0x8B => InstInfo { inst: Inst::Nop, mode: Addressing::Immediate, cycles: 2 },
        0x8C => InstInfo { inst: Inst::Sty, mode: Addressing::Absolute, cycles: 4 },
        0x8D => InstInfo { inst: Inst::Sta, mode: Addressing::Absolute, cycles: 4 },
        0x8E => InstInfo { inst: Inst::Stx, mode: Addressing::Absolute, cycles: 4 },
        0x8F => InstInfo { inst: Inst::Sax, mode: Addressing::Absolute, cycles: 4 },
        0x90 => InstInfo { inst: Inst::Bcc, mode: Addressing::Relative, cycles: 2 },
        0x91 => InstInfo { inst: Inst::Sta, mode: Addressing::IndirectY, cycles: 6 },
        0x92 => InstInfo { inst: Inst::Nop, mode: Addressing::Implied, cycles: 2 },
        0x93 => InstInfo { inst: Inst::Nop, mode: Addressing::IndirectY, cycles: 6 },
        0x94 => InstInfo { inst: Inst::Sty, mode: Addressing::ZeroPageX, cycles: 4 },
        0x95 => InstInfo { inst: Inst::Sta, mode: Addressing::ZeroPageX, cycles: 4 },
        0x96 => InstInfo { inst: Inst::Stx, mode: Addressing::ZeroPageY, cycles: 4 },
        0x97 => InstInfo { inst: Inst::Sax, mode: Addressing::ZeroPageY, cycles: 4 },
        0x98 => InstInfo { inst: Inst::Tya, mode: Addressing::Implied, cycles: 2 },
        0x99 => InstInfo { inst: Inst::Sta, mode: Addressing::AbsoluteY, cycles: 5 },
        0x9A => InstInfo { inst: Inst::Txs, mode: Addressing::Implied, cycles: 2 },
        0x9B => InstInfo { inst: Inst::Nop, mode: Addressing::AbsoluteY, cycles: 5 },
        0x9C => InstInfo { inst: Inst::Nop, mode: Addressing::AbsoluteX, cycles: 5 },
        0x9D => InstInfo { inst: Inst::Sta, mode: Addressing::AbsoluteX, cycles: 5 },
        0x9E => InstInfo { inst: Inst::Nop, mode: Addressing::AbsoluteY, cycles: 5 },
        0x9F => InstInfo { inst: Inst::Nop, mode: Addressing::AbsoluteY, cycles: 5 },
        0xA0 => InstInfo { inst: Inst::Ldy, mode: Addressing::Immediate, cycles: 2 },
        0xA1 => InstInfo { inst: Inst::Lda, mode: Addressing::IndirectX, cycles: 6 },
        0xA2 => InstInfo { inst: Inst::Ldx, mode: Addressing::Immediate, cycles: 2 },
        0xA3 => InstInfo { inst: Inst::Lax, mode: Addressing::IndirectX, cycles: 6 },
        0xA4 => InstInfo { inst: Inst::Ldy, mode: Addressing::ZeroPage, cycles: 3 },
        0xA5 => InstInfo { inst: Inst::Lda, mode: Addressing::ZeroPage, cycles: 3 },
        0xA6 => InstInfo { inst: Inst::Ldx, mode: Addressing::ZeroPage, cycles: 3 },
        0xA7 => InstInfo { inst: Inst::Lax, mode: Addressing::ZeroPage, cycles: 3 },
        0xA8 => InstInfo { inst: Inst::Tay, mode: Addressing::Implied, cycles: 2 },
        0xA9 => InstInfo { inst: Inst::Lda, mode: Addressing::Immediate, cycles: 2 },
        0xAA => InstInfo { inst: Inst::Tax, mode: Addressing::Implied, cycles: 2 },
        0xAB => InstInfo { inst: Inst::Nop, mode: Addressing::Immediate, cycles: 2 },
        0xAC => InstInfo { inst: Inst::Ldy, mode: Addressing::Absolute, cycles: 4 },
        0xAD => InstInfo { inst: Inst::Lda, mode: Addressing::Absolute, cycles: 4 },
        0xAE => InstInfo { inst: Inst::Ldx, mode: Addressing::Absolute, cycles: 4 },
        0xAF => InstInfo { inst: Inst::Lax, mode: Addressing::Absolute, cycles: 4 },
        0xB0 => InstInfo { inst: Inst::Bcs, mode: Addressing::Relative, cycles: 2 },
        0xB1 => InstInfo { inst: Inst::Lda, mode: Addressing::IndirectY, cycles: 5 },
        0xB2 => InstInfo { inst: Inst::Nop, mode: Addressing::Implied, cycles: 2 },
        0xB3 => InstInfo { inst: Inst::Lax, mode: Addressing::IndirectY, cycles: 5 },
        0xB4 => InstInfo { inst: Inst::Ldy, mode: Addressing::ZeroPageX, cycles: 4 },
        0xB5 => InstInfo { inst: Inst::Lda, mode: Addressing::ZeroPageX, cycles: 4 },
        0xB6 => InstInfo { inst: Inst::Ldx, mode: Addressing::ZeroPageY, cycles: 4 },
        0xB7 => InstInfo { inst: Inst::Lax, mode: Addressing::ZeroPageY, cycles: 4 },
        0xB8 => InstInfo { inst: Inst::Clv, mode: Addressing::Implied, cycles: 2 },
        0xB9 => InstInfo { inst: Inst::Lda, mode: Addressing::AbsoluteY, cycles: 4 },
        0xBA => InstInfo { inst: Inst::Tsx, mode: Addressing::Implied, cycles: 2 },
        0xBB => InstInfo { inst: Inst::Nop, mode: Addressing::AbsoluteY, cycles: 4 },
        0xBC => InstInfo { inst: Inst::Ldy, mode: Addressing::AbsoluteX, cycles: 4 },
        0xBD => InstInfo { inst: Inst::Lda, mode: Addressing::AbsoluteX, cycles: 4 },
        0xBE => InstInfo { inst: Inst::Ldx, mode: Addressing::AbsoluteY, cycles: 4 },
        0xBF => InstInfo { inst: Inst::Lax, mode: Addressing::AbsoluteY, cycles: 4 },
        0xC0 => InstInfo { inst: Inst::Cpy, mode: Addressing::Immediate, cycles: 2 },
        0xC1 => InstInfo { inst: Inst::Cmp, mode: Addressing::IndirectX, cycles: 6 },
        0xC2 => InstInfo { inst: Inst::Nop, mode: Addressing::Immediate, cycles: 2 },
        0xC3 => InstInfo { inst: Inst::Dcp, mode: Addressing::IndirectX, cycles: 8 },
        0xC4 => InstInfo { inst: Inst::Cpy, mode: Addressing::ZeroPage, cycles: 3 },
        0xC5 => InstInfo { inst: Inst::Cmp, mode: Addressing::ZeroPage, cycles: 3 },
        0xC6 => InstInfo { inst: Inst::Dec, mode: Addressing::ZeroPage, cycles: 5 },
        0xC7 => InstInfo { inst: Inst::Dcp, mode: Addressing::ZeroPage, cycles: 5 },
        0xC8 => InstInfo { inst: Inst::Iny, mode: Addressing::Implied, cycles: 2 },
        0xC9 => InstInfo { inst: Inst::Cmp, mode: Addressing::Immediate, cycles: 2 },
        0xCA => InstInfo { inst: Inst::Dex, mode: Addressing::Implied, cycles: 2 },
        0xCB => InstInfo { inst: Inst::Nop, mode: Addressing::Immediate, cycles: 2 },
        0xCC => InstInfo { inst: Inst::Cpy, mode: Addressing::Absolute, cycles: 4 },
        0xCD => InstInfo { inst: Inst::Cmp, mode: Addressing::Absolute, cycles: 4 },
        0xCE => InstInfo { inst: Inst::Dec, mode: Addressing::Absolute, cycles: 6 },
        0xCF => InstInfo { inst: Inst::Dcp, mode: Addressing::Absolute, cycles: 6 },
        0xD0 => InstInfo { inst: Inst::Bne, mode: Addressing::Relative, cycles: 2 },
        0xD1 => InstInfo { inst: Inst::Cmp, mode: Addressing::IndirectY, cycles: 5 },
        0xD2 => InstInfo { inst: Inst::Nop, mode: Addressing::Implied, cycles: 2 },
        0xD3 => InstInfo { inst: Inst::Dcp, mode: Addressing::IndirectY, cycles: 8 },
        0xD4 => InstInfo { inst: Inst::Nop, mode: Addressing::ZeroPageX, cycles: 4 },
        0xD5 => InstInfo { inst: Inst::Cmp, mode: Addressing::ZeroPageX, cycles: 4 },
        0xD6 => InstInfo { inst: Inst::Dec, mode: Addressing::ZeroPageX, cycles: 6 },
        0xD7 => InstInfo { inst: Inst::Dcp, mode: Addressing::ZeroPageX, cycles: 6 },
        0xD8 => InstInfo { inst: Inst::Cld, mode: Addressing::Implied, cycles: 2 },
        0xD9 => InstInfo { inst: Inst::Cmp, mode: Addressing::AbsoluteY, cycles: 4 },
        0xDA => InstInfo { inst: Inst::Nop, mode: Addressing::Implied, cycles: 2 },
        0xDB => InstInfo { inst: Inst::Dcp, mode: Addressing::AbsoluteY, cycles: 7 },
        0xDC => InstInfo { inst: Inst::Nop, mode: Addressing::AbsoluteX, cycles: 4 },
        0xDD => InstInfo { inst: Inst::Cmp, mode: Addressing::AbsoluteX, cycles: 4 },
        0xDE => InstInfo { inst: Inst::Dec, mode: Addressing::AbsoluteX, cycles: 7 },
        0xDF => InstInfo { inst: Inst::Dcp, mode: Addressing::AbsoluteX, cycles: 7 },
        0xE0 => InstInfo { inst: Inst::Cpx, mode: Addressing::Immediate, cycles: 2 },
        0xE1 => InstInfo { inst: Inst::Sbc, mode: Addressing::IndirectX, cycles: 6 },
        0xE2 => InstInfo { inst: Inst::Nop, mode: Addressing::Immediate, cycles: 2 },
        0xE3 => InstInfo { inst: Inst::Isc, mode: Addressing::IndirectX, cycles: 8 },
        0xE4 => InstInfo { inst: Inst::Cpx, mode: Addressing::ZeroPage, cycles: 3 },
        0xE5 => InstInfo { inst: Inst::Sbc, mode: Addressing::ZeroPage, cycles: 3 },
        0xE6 => InstInfo { inst: Inst::Inc, mode: Addressing::ZeroPage, cycles: 5 },
        0xE7 => InstInfo { inst: Inst::Isc, mode: Addressing::ZeroPage, cycles: 5 },
        0xE8 => InstInfo { inst: Inst::Inx, mode: Addressing::Implied, cycles: 2 },
        0xE9 => InstInfo { inst: Inst::Sbc, mode: Addressing::Immediate, cycles: 2 },
        0xEA => InstInfo { inst: Inst::Nop, mode: Addressing::Implied, cycles: 2 },
        0xEB => InstInfo { inst: Inst::Sbc, mode: Addressing::Immediate, cycles: 2 },
        0xEC => InstInfo { inst: Inst::Cpx, mode: Addressing::Absolute, cycles: 4 },
        0xED => InstInfo { inst: Inst::Sbc, mode: Addressing::Absolute, cycles: 4 },
        0xEE => InstInfo { inst: Inst::Inc, mode: Addressing::Absolute, cycles: 6 },
        0xEF => InstInfo { inst: Inst::Isc, mode: Addressing::Absolute, cycles: 6 },
        0xF0 => InstInfo { inst: Inst::Beq, mode: Addressing::Relative, cycles: 2 },
        0xF1 => InstInfo { inst: Inst::Sbc, mode: Addressing::IndirectY, cycles: 5 },
        0xF2 => InstInfo { inst: Inst::Nop, mode: Addressing::Implied, cycles: 2 },
        0xF3 => InstInfo { inst: Inst::Isc, mode: Addressing::IndirectY, cycles: 8 },
        0xF4 => InstInfo { inst: Inst::Nop, mode: Addressing::ZeroPageX, cycles: 4 },
        0xF5 => InstInfo { inst: Inst::Sbc, mode: Addressing::ZeroPageX, cycles: 4 },
        0xF6 => InstInfo { inst: Inst::Inc, mode: Addressing::ZeroPageX, cycles: 6 },
        0xF7 => InstInfo { inst: Inst::Isc, mode: Addressing::ZeroPageX, cycles: 6 },
        0xF8 => InstInfo { inst: Inst::Sed, mode: Addressing::Implied, cycles: 2 },
        0xF9 => InstInfo { inst: Inst::Sbc, mode: Addressing::AbsoluteY, cycles: 4 },
        0xFA => InstInfo { inst: Inst::Nop, mode: Addressing::Implied, cycles: 2 },
        0xFB => InstInfo { inst: Inst::Isc, mode: Addressing::AbsoluteY, cycles: 7 },
        0xFC => InstInfo { inst: Inst::Nop, mode: Addressing::AbsoluteX, cycles: 4 },
        0xFD => InstInfo { inst: Inst::Sbc, mode: Addressing::AbsoluteX, cycles: 4 },
        0xFE => InstInfo { inst: Inst::Inc, mode: Addressing::AbsoluteX, cycles: 7 },
        _ => InstInfo { inst: Inst::Isc, mode: Addressing::AbsoluteX, cycles: 7 },
    }
}

/// Decodes one opcode byte. Total: every one of the 256 byte values yields a
/// defined entry, with a base cycle cost between 2 and 8.
#[verifier::rlimit(100)]
pub fn decode(op: u8) -> (r: InstInfo)
    ensures
        r == spec_decode(op),
        2 <= r.cycles <= 8,
{
    match op {
        0x00 => InstInfo { inst: Inst::Brk, mode: Addressing::Implied, cycles: 7 },
        0x01 => InstInfo { inst: Inst::Ora, mode: Addressing::IndirectX, cycles: 6 },
        0x02 => InstInfo { inst: Inst::Nop, mode: Addressing::Implied, cycles: 2 },
        0x03 => InstInfo { inst: Inst::Slo, mode: Addressing::IndirectX, cycles: 8 },
        0x04 => InstInfo { inst: Inst::Nop, mode: Addressing::ZeroPage, cycles: 3 },
        0x05 => InstInfo { inst: Inst::Ora, mode: Addressing::ZeroPage, cycles: 3 },
        0x06 => InstInfo { inst: Inst::Asl, mode: Addressing::ZeroPage, cycles: 5 },
        0x07 => InstInfo { inst: Inst::Slo, mode: Addressing::ZeroPage, cycles: 5 },
        0x08 => InstInfo { inst: Inst::Php, mode: Addressing::Implied, cycles: 3 },
        0x09 => InstInfo { inst: Inst::Ora, mode: Addressing::Immediate, cycles: 2 },
        0x0A => InstInfo { inst: Inst::Asl, mode: Addressing::Accumulator, cycles: 2 },
        0x0B => InstInfo { inst: Inst::Nop, mode: Addressing::Immediate, cycles: 2 },
        0x0C => InstInfo { inst: Inst::Nop, mode: Addressing::Absolute, cycles: 4 },
        0x0D => InstInfo { inst: Inst::Ora, mode: Addressing::Absolute, cycles: 4 },
        0x0E => InstInfo { inst: Inst::Asl, mode: Addressing::Absolute, cycles: 6 },
        0x0F => InstInfo { inst: Inst::Slo, mode: Addressing::Absolute, cycles: 6 },
        0x10 => InstInfo { inst: Inst::Bpl, mode: Addressing::Relative, cycles: 2 },
        0x11 => InstInfo { inst: Inst::Ora, mode: Addressing::IndirectY, cycles: 5 },
        0x12 => InstInfo { inst: Inst::Nop, mode: Addressing::Implied, cycles: 2 },
        0x13 => InstInfo { inst: Inst::Slo, mode: Addressing::IndirectY, cycles: 8 },
        0x14 => InstInfo { inst: Inst::Nop, mode: Addressing::ZeroPageX, cycles: 4 },
        0x15 => InstInfo { inst: Inst::Ora, mode: Addressing::ZeroPageX, cycles: 4 },
        0x16 => InstInfo { inst: Inst::Asl, mode: Addressing::ZeroPageX, cycles: 6 },
        0x17 => InstInfo { inst: Inst::Slo, mode: Addressing::ZeroPageX, cycles: 6 },
        0x18 => InstInfo { inst: Inst::Clc, mode: Addressing::Implied, cycles: 2 },
        0x19 => InstInfo { inst: Inst::Ora, mode: Addressing::AbsoluteY, cycles: 4 },
        0x1A => InstInfo { inst: Inst::Nop, mode: Addressing::Implied, cycles: 2 },
        0x1B => InstInfo { inst: Inst::Slo, mode: Addressing::AbsoluteY, cycles: 7 },
        0x1C => InstInfo { inst: Inst::Nop, mode: Addressing::AbsoluteX, cycles: 4 },
        0x1D => InstInfo { inst: Inst::Ora, mode: Addressing::AbsoluteX, cycles: 4 },
        0x1E => InstInfo { inst: Inst::Asl, mode: Addressing::AbsoluteX, cycles: 7 },
        0x1F => InstInfo { inst: Inst::Slo, mode: Addressing::AbsoluteX, cycles: 7 },
        0x20 => InstInfo { inst: Inst::Jsr, mode: Addressing::Absolute, cycles: 6 },
        0x21 => InstInfo { inst: Inst::And, mode: Addressing::IndirectX, cycles: 6 },
        0x22 => InstInfo { inst: Inst::Nop, mode: Addressing::Implied, cycles: 2 },
        0x23 => InstInfo { inst: Inst::Rla, mode: Addressing::IndirectX, cycles: 8 },
        0x24 => InstInfo { inst: Inst::Bit, mode: Addressing::ZeroPage, cycles: 3 },
        0x25 => InstInfo { inst: Inst::And, mode: Addressing::ZeroPage, cycles: 3 },
        0x26 => InstInfo { inst: Inst::Rol, mode: Addressing::ZeroPage, cycles: 5 },
        0x27 => InstInfo { inst: Inst::Rla, mode: Addressing::ZeroPage, cycles: 5 },
        0x28 => InstInfo { inst: Inst::Plp, mode: Addressing::Implied, cycles: 4 },
        0x29 => InstInfo { inst: Inst::And, mode: Addressing::Immediate, cycles: 2 },
        0x2A => InstInfo { inst: Inst::Rol, mode: Addressing::Accumulator, cycles: 2 },
        0x2B => InstInfo { inst: Inst::Nop, mode: Addressing::Immediate, cycles: 2 },
        0x2C => InstInfo { inst: Inst::Bit, mode: Addressing::Absolute, cycles: 4 },
        0x2D => InstInfo { inst: Inst::And, mode: Addressing::Absolute, cycles: 4 },
        0x2E => InstInfo { inst: Inst::Rol, mode: Addressing::Absolute, cycles: 6 },
        0x2F => InstInfo { inst: Inst::Rla, mode: Addressing::Absolute, cycles: 6 },
        0x30 => InstInfo { inst: Inst::Bmi, mode: Addressing::Relative, cycles: 2 },
        0x31 => InstInfo { inst: Inst::And, mode: Addressing::IndirectY, cycles: 5 },
        0x32 => InstInfo { inst: Inst::Nop, mode: Addressing::Implied, cycles: 2 },
        0x33 => InstInfo { inst: Inst::Rla, mode: Addressing::IndirectY, cycles: 8 },
        0x34 => InstInfo { inst: Inst::Nop, mode: Addressing::ZeroPageX, cycles: 4 },
        0x35 => InstInfo { inst: Inst::And, mode: Addressing::ZeroPageX, cycles: 4 },
        0x36 => InstInfo { inst: Inst::Rol, mode: Addressing::ZeroPageX, cycles: 6 },
        0x37 => InstInfo { inst: Inst::Rla, mode: Addressing::ZeroPageX, cycles: 6 },
        0x38 => InstInfo { inst: Inst::Sec, mode: Addressing::Implied, cycles: 2 },
        0x39 => InstInfo { inst: Inst::And, mode: Addressing::AbsoluteY, cycles: 4 },
        0x3A => InstInfo { inst: Inst::Nop, mode: Addressing::Implied, cycles: 2 },
        0x3B => InstInfo { inst: Inst::Rla, mode: Addressing::AbsoluteY, cycles: 7 },
        0x3C => InstInfo { inst: Inst::Nop, mode: Addressing::AbsoluteX, cycles: 4 },
        0x3D => InstInfo { inst: Inst::And, mode: Addressing::AbsoluteX, cycles: 4 },
        0x3E => InstInfo { inst: Inst::Rol, mode: Addressing::AbsoluteX, cycles: 7 },
        0x3F => InstInfo { inst: Inst::Rla, mode: Addressing::AbsoluteX, cycles: 7 },
        0x40 => InstInfo { inst: Inst::Rti, mode: Addressing::Implied, cycles: 6 },
        0x41 => InstInfo { inst: Inst::Eor, mode: Addressing::IndirectX, cycles: 6 },
        0x42 => InstInfo { inst: Inst::Nop, mode: Addressing::Implied, cycles: 2 },
        0x43 => InstInfo { inst: Inst::Sre, mode: Addressing::IndirectX, cycles: 8 },
        0x44 => InstInfo { inst: Inst::Nop, mode: Addressing::ZeroPage, cycles: 3 },
        0x45 => InstInfo { inst: Inst::Eor, mode: Addressing::ZeroPage, cycles: 3 },
        0x46 => InstInfo { inst: Inst::Lsr, mode: Addressing::ZeroPage, cycles: 5 },
        0x47 => InstInfo { inst: Inst::Sre, mode: Addressing::ZeroPage, cycles: 5 },
        0x48 => InstInfo { inst: Inst::Pha, mode: Addressing::Implied, cycles: 3 },
        0x49 => InstInfo { inst: Inst::Eor, mode: Addressing::Immediate, cycles: 2 },
        0x4A => InstInfo { inst: Inst::Lsr, mode: Addressing::Accumulator, cycles: 2 },
        0x4B => InstInfo { inst: Inst::Nop, mode: Addressing::Immediate, cycles: 2 },
        0x4C => InstInfo { inst: Inst::Jmp, mode: Addressing::Absolute, cycles: 3 },
        0x4D => InstInfo { inst: Inst::Eor, mode: Addressing::Absolute, cycles: 4 },
        0x4E => InstInfo { inst: Inst::Lsr, mode: Addressing::Absolute, cycles: 6 },
        0x4F => InstInfo { inst: Inst::Sre, mode: Addressing::Absolute, cycles: 6 },
        0x50 => InstInfo { inst: Inst::Bvc, mode: Addressing::Relative, cycles: 2 },
        0x51 => InstInfo { inst: Inst::Eor, mode: Addressing::IndirectY, cycles: 5 },
        0x52 => InstInfo { inst: Inst::Nop, mode: Addressing::Implied, cycles: 2 },
        0x53 => InstInfo { inst: Inst::Sre, mode: Addressing::IndirectY, cycles: 8 },
        0x54 => InstInfo { inst: Inst::Nop, mode: Addressing::ZeroPageX, cycles: 4 },
        0x55 => InstInfo { inst: Inst::Eor, mode: Addressing::ZeroPageX, cycles: 4 },
        0x56 => InstInfo { inst: Inst::Lsr, mode: Addressing::ZeroPageX, cycles: 6 },
        0x57 => InstInfo { inst: Inst::Sre, mode: Addressing::ZeroPageX, cycles: 6 },
        0x58 => InstInfo { inst: Inst::Cli, mode: Addressing::Implied, cycles: 2 },
        0x59 => InstInfo { inst: Inst::Eor, mode: Addressing::AbsoluteY, cycles: 4 },
        0x5A => InstInfo { inst: Inst::Nop, mode: Addressing::Implied, cycles: 2 },
        0x5B => InstInfo { inst: Inst::Sre, mode: Addressing::AbsoluteY, cycles: 7 },
        0x5C => InstInfo { inst: Inst::Nop, mode: Addressing::AbsoluteX, cycles: 4 },
        0x5D => InstInfo { inst: Inst::Eor, mode: Addressing::AbsoluteX, cycles: 4 },
        0x5E => InstInfo { inst: Inst::Lsr, mode: Addressing::AbsoluteX, cycles: 7 },
        0x5F => InstInfo { inst: Inst::Sre, mode: Addressing::AbsoluteX, cycles: 7 },
        0x60 => InstInfo { inst: Inst::Rts, mode: Addressing::Implied, cycles: 6 },
        0x61 => InstInfo { inst: Inst::Adc, mode: Addressing::IndirectX, cycles: 6 },
        0x62 => InstInfo { inst: Inst::Nop, mode: Addressing::Implied, cycles: 2 },
        0x63 => InstInfo { inst: Inst::Rra, mode: Addressing::IndirectX, cycles: 8 },
        0x64 => InstInfo { inst: Inst::Nop, mode: Addressing::ZeroPage, cycles: 3 },
        0x65 => InstInfo { inst: Inst::Adc, mode: Addressing::ZeroPage, cycles: 3 },
        0x66 => InstInfo { inst: Inst::Ror, mode: Addressing::ZeroPage, cycles: 5 },
        0x67 => InstInfo { inst: Inst::Rra, mode: Addressing::ZeroPage, cycles: 5 },
        0x68 => InstInfo { inst: Inst::Pla, mode: Addressing::Implied, cycles: 4 },
        0x69 => InstInfo { inst: Inst::Adc, mode: Addressing::Immediate, cycles: 2 },
        0x6A => InstInfo { inst: Inst::Ror, mode: Addressing::Accumulator, cycles: 2 },
        0x6B => InstInfo { inst: Inst::Nop, mode: Addressing::Immediate, cycles: 2 },
        0x6C => InstInfo { inst: Inst::Jmp, mode: Addressing::Indirect, cycles: 5 },
        0x6D => InstInfo { inst: Inst::Adc, mode: Addressing::Absolute, cycles: 4 },
        0x6E => InstInfo { inst: Inst::Ror, mode: Addressing::Absolute, cycles: 6 },
        0x6F => InstInfo { inst: Inst::Rra, mode: Addressing::Absolute, cycles: 6 },
        0x70 => InstInfo { inst: Inst::Bvs, mode: Addressing::Relative, cycles: 2 },
        0x71 => InstInfo { inst: Inst::Adc, mode: Addressing::IndirectY, cycles: 5 },
        0x72 => InstInfo { inst: Inst::Nop, mode: Addressing::Implied, cycles: 2 },
        0x73 => InstInfo { inst: Inst::Rra, mode: Addressing::IndirectY, cycles: 8 },
        0x74 => InstInfo { inst: Inst::Nop, mode: Addressing::ZeroPageX, cycles: 4 },
        0x75 => InstInfo { inst: Inst::Adc, mode: Addressing::ZeroPageX, cycles: 4 },
        0x76 => InstInfo { inst: Inst::Ror, mode: Addressing::ZeroPageX, cycles: 6 },
        0x77 => InstInfo { inst: Inst::Rra, mode: Addressing::ZeroPageX, cycles: 6 },
        0x78 => InstInfo { inst: Inst::Sei, mode: Addressing::Implied, cycles: 2 },
        0x79 => InstInfo { inst: Inst::Adc, mode: Addressing::AbsoluteY, cycles: 4 },
        0x7A => InstInfo { inst: Inst::Nop, mode: Addressing::Implied, cycles: 2 },
        0x7B => InstInfo { inst: Inst::Rra, mode: Addressing::AbsoluteY, cycles: 7 },
        0x7C => InstInfo { inst: Inst::Nop, mode: Addressing::AbsoluteX, cycles: 4 },
        0x7D => InstInfo { inst: Inst::Adc, mode: Addressing::AbsoluteX, cycles: 4 },
        0x7E => InstInfo { inst: Inst::Ror, mode: Addressing::AbsoluteX, cycles: 7 },
        0x7F => InstInfo { inst: Inst::Rra, mode: Addressing::AbsoluteX, cycles: 7 },
        0x80 => InstInfo { inst: Inst::Nop, mode: Addressing::Immediate, cycles: 2 },
        0x81 => InstInfo { inst: Inst::Sta, mode: Addressing::IndirectX, cycles: 6 },
        0x82 => InstInfo { inst: Inst::Nop, mode: Addressing::Immediate, cycles: 2 },
        0x83 => InstInfo { inst: Inst::Sax, mode: Addressing::IndirectX, cycles: 6 },
        0x84 => InstInfo { inst: Inst::Sty, mode: Addressing::ZeroPage, cycles: 3 },
        0x85 => InstInfo { inst: Inst::Sta, mode: Addressing::ZeroPage, cycles: 3 },
        0x86 => InstInfo { inst: Inst::Stx, mode: Addressing::ZeroPage, cycles: 3 },
        0x87 => InstInfo { inst: Inst::Sax, mode: Addressing::ZeroPage, cycles: 3 },
        0x88 => InstInfo { inst: Inst::Dey, mode: Addressing::Implied, cycles: 2 },
        0x89 => InstInfo { inst: Inst::Nop, mode: Addressing::Immediate, cycles: 2 },
        0x8A => InstInfo { inst: Inst::Txa, mode: Addressing::Implied, cycles: 2 },
        0x8B => InstInfo { inst: Inst::Nop, mode: Addressing::Immediate, cycles: 2 },
        0x8C => InstInfo { inst: Inst::Sty, mode: Addressing::Absolute, cycles: 4 },
        0x8D => InstInfo { inst: Inst::Sta, mode: Addressing::Absolute, cycles: 4 },
        0x8E => InstInfo { inst: Inst::Stx, mode: Addressing::Absolute, cycles: 4 },
        0x8F => InstInfo { inst: Inst::Sax, mode: Addressing::Absolute, cycles: 4 },
        0x90 => InstInfo { inst: Inst::Bcc, mode: Addressing::Relative, cycles: 2 },
        0x91 => InstInfo { inst: Inst::Sta, mode: Addressing::IndirectY, cycles: 6 },
        0x92 => InstInfo { inst: Inst::Nop, mode: Addressing::Implied, cycles: 2 },
        0x93 => InstInfo { inst: Inst::Nop, mode: Addressing::IndirectY, cycles: 6 },
        0x94 => InstInfo { inst: Inst::Sty, mode: Addressing::ZeroPageX, cycles: 4 },
        0x95 => InstInfo { inst: Inst::Sta, mode: Addressing::ZeroPageX, cycles: 4 },
        0x96 => InstInfo { inst: Inst::Stx, mode: Addressing::ZeroPageY, cycles: 4 },
        0x97 => InstInfo { inst: Inst::Sax, mode: Addressing::ZeroPageY, cycles: 4 },
        0x98 => InstInfo { inst: Inst::Tya, mode: Addressing::Implied, cycles: 2 },
        0x99 => InstInfo { inst: Inst::Sta, mode: Addressing::AbsoluteY, cycles: 5 },
        0x9A => InstInfo { inst: Inst::Txs, mode: Addressing::Implied, cycles: 2 },
        0x9B => InstInfo { inst: Inst::Nop, mode: Addressing::AbsoluteY, cycles: 5 },
        0x9C => InstInfo { inst: Inst::Nop, mode: Addressing::AbsoluteX, cycles: 5 },
        0x9D => InstInfo { inst: Inst::Sta, mode: Addressing::AbsoluteX, cycles: 5 },
        0x9E => InstInfo { inst: Inst::Nop, mode: Addressing::AbsoluteY, cycles: 5 },
        0x9F => InstInfo { inst: Inst::Nop, mode: Addressing::AbsoluteY, cycles: 5 },
        0xA0 => InstInfo { inst: Inst::Ldy, mode: Addressing::Immediate, cycles: 2 },
        0xA1 => InstInfo { inst: Inst::Lda, mode: Addressing::IndirectX, cycles: 6 },
        0xA2 => InstInfo { inst: Inst::Ldx, mode: Addressing::Immediate, cycles: 2 },
        0xA3 => InstInfo { inst: Inst::Lax, mode: Addressing::IndirectX, cycles: 6 },
        0xA4 => InstInfo { inst: Inst::Ldy, mode: Addressing::ZeroPage, cycles: 3 },
        0xA5 => InstInfo { inst: Inst::Lda, mode: Addressing::ZeroPage, cycles: 3 },
        0xA6 => InstInfo { inst: Inst::Ldx, mode: Addressing::ZeroPage, cycles: 3 },
        0xA7 => InstInfo { inst: Inst::Lax, mode: Addressing::ZeroPage, cycles: 3 },
        0xA8 => InstInfo { inst: Inst::Tay, mode: Addressing::Implied, cycles: 2 },
        0xA9 => InstInfo { inst: Inst::Lda, mode: Addressing::Immediate, cycles: 2 },
        0xAA => InstInfo { inst: Inst::Tax, mode: Addressing::Implied, cycles: 2 },
        0xAB => InstInfo { inst: Inst::Nop, mode: Addressing::Immediate, cycles: 2 },
        0xAC => InstInfo { inst: Inst::Ldy, mode: Addressing::Absolute, cycles: 4 },
        0xAD => InstInfo { inst: Inst::Lda, mode: Addressing::Absolute, cycles: 4 },
        0xAE => InstInfo { inst: Inst::Ldx, mode: Addressing::Absolute, cycles: 4 },
        0xAF => InstInfo { inst: Inst::Lax, mode: Addressing::Absolute, cycles: 4 },
        0xB0 => InstInfo { inst: Inst::Bcs, mode: Addressing::Relative, cycles: 2 },
        0xB1 => InstInfo { inst: Inst::Lda, mode: Addressing::IndirectY, cycles: 5 },
        0xB2 => InstInfo { inst: Inst::Nop, mode: Addressing::Implied, cycles: 2 },
        0xB3 => InstInfo { inst: Inst::Lax, mode: Addressing::IndirectY, cycles: 5 },
        0xB4 => InstInfo { inst: Inst::Ldy, mode: Addressing::ZeroPageX, cycles: 4 },
        0xB5 => InstInfo { inst: Inst::Lda, mode: Addressing::ZeroPageX, cycles: 4 },
        0xB6 => InstInfo { inst: Inst::Ldx, mode: Addressing::ZeroPageY, cycles: 4 },
        0xB7 => InstInfo { inst: Inst::Lax, mode: Addressing::ZeroPageY, cycles: 4 },
        0xB8 => InstInfo { inst: Inst::Clv, mode: Addressing::Implied, cycles: 2 },
        0xB9 => InstInfo { inst: Inst::Lda, mode: Addressing::AbsoluteY, cycles: 4 },
        0xBA => InstInfo { inst: Inst::Tsx, mode: Addressing::Implied, cycles: 2 },
        0xBB => InstInfo { inst: Inst::Nop, mode: Addressing::AbsoluteY, cycles: 4 },
        0xBC => InstInfo { inst: Inst::Ldy, mode: Addressing::AbsoluteX, cycles: 4 },
        0xBD => InstInfo { inst: Inst::Lda, mode: Addressing::AbsoluteX, cycles: 4 },
        0xBE => InstInfo { inst: Inst::Ldx, mode: Addressing::AbsoluteY, cycles: 4 },
        0xBF => InstInfo { inst: Inst::Lax, mode: Addressing::AbsoluteY, cycles: 4 },
        0xC0 => InstInfo { inst: Inst::Cpy, mode: Addressing::Immediate, cycles: 2 },
        0xC1 => InstInfo { inst: Inst::Cmp, mode: Addressing::IndirectX, cycles: 6 },
        0xC2 => InstInfo { inst: Inst::Nop, mode: Addressing::Immediate, cycles: 2 },
        0xC3 => InstInfo { inst: Inst::Dcp, mode: Addressing::IndirectX, cycles: 8 },
        0xC4 => InstInfo { inst: Inst::Cpy, mode: Addressing::ZeroPage, cycles: 3 },
        0xC5 => InstInfo { inst: Inst::Cmp, mode: Addressing::ZeroPage, cycles: 3 },
        0xC6 => InstInfo { inst: Inst::Dec, mode: Addressing::ZeroPage, cycles: 5 },
        0xC7 => InstInfo { inst: Inst::Dcp, mode: Addressing::ZeroPage, cycles: 5 },
        0xC8 => InstInfo { inst: Inst::Iny, mode: Addressing::Implied, cycles: 2 },
        0xC9 => InstInfo { inst: Inst::Cmp, mode: Addressing::Immediate, cycles: 2 },
        0xCA => InstInfo { inst: Inst::Dex, mode: Addressing::Implied, cycles: 2 },
        0xCB => InstInfo { inst: Inst::Nop, mode: Addressing::Immediate, cycles: 2 },
        0xCC => InstInfo { inst: Inst::Cpy, mode: Addressing::Absolute, cycles: 4 },
        0xCD => InstInfo { inst: Inst::Cmp, mode: Addressing::Absolute, cycles: 4 },
        0xCE => InstInfo { inst: Inst::Dec, mode: Addressing::Absolute, cycles: 6 },
        0xCF => InstInfo { inst: Inst::Dcp, mode: Addressing::Absolute, cycles: 6 },
        0xD0 => InstInfo { inst: Inst::Bne, mode: Addressing::Relative, cycles: 2 },
        0xD1 => InstInfo { inst: Inst::Cmp, mode: Addressing::IndirectY, cycles: 5 },
        0xD2 => InstInfo { inst: Inst::Nop, mode: Addressing::Implied, cycles: 2 },
        0xD3 => InstInfo { inst: Inst::Dcp, mode: Addressing::IndirectY, cycles: 8 },
        0xD4 => InstInfo { inst: Inst::Nop, mode: Addressing::ZeroPageX, cycles: 4 },
        0xD5 => InstInfo { inst: Inst::Cmp, mode: Addressing::ZeroPageX, cycles: 4 },
        0xD6 => InstInfo { inst: Inst::Dec, mode: Addressing::ZeroPageX, cycles: 6 },
        0xD7 => InstInfo { inst: Inst::Dcp, mode: Addressing::ZeroPageX, cycles: 6 },
        0xD8 => InstInfo { inst: Inst::Cld, mode: Addressing::Implied, cycles: 2 },
        0xD9 => InstInfo { inst: Inst::Cmp, mode: Addressing::AbsoluteY, cycles: 4 },
        0xDA => InstInfo { inst: Inst::Nop, mode: Addressing::Implied, cycles: 2 },
        0xDB => InstInfo { inst: Inst::Dcp, mode: Addressing::AbsoluteY, cycles: 7 },
        0xDC => InstInfo { inst: Inst::Nop, mode: Addressing::AbsoluteX, cycles: 4 },
        0xDD => InstInfo { inst: Inst::Cmp, mode: Addressing::AbsoluteX, cycles: 4 },
        0xDE => InstInfo { inst: Inst::Dec, mode: Addressing::AbsoluteX, cycles: 7 },
        0xDF => InstInfo { inst: Inst::Dcp, mode: Addressing::AbsoluteX, cycles: 7 },
        0xE0 => InstInfo { inst: Inst::Cpx, mode: Addressing::Immediate, cycles: 2 },
        0xE1 => InstInfo { inst: Inst::Sbc, mode: Addressing::IndirectX, cycles: 6 },
        0xE2 => InstInfo { inst: Inst::Nop, mode: Addressing::Immediate, cycles: 2 },
        0xE3 => InstInfo { inst: Inst::Isc, mode: Addressing::IndirectX, cycles: 8 },
        0xE4 => InstInfo { inst: Inst::Cpx, mode: Addressing::ZeroPage, cycles: 3 },
        0xE5 => InstInfo { inst: Inst::Sbc, mode: Addressing::ZeroPage, cycles: 3 },
        0xE6 => InstInfo { inst: Inst::Inc, mode: Addressing::ZeroPage, cycles: 5 },
        0xE7 => InstInfo { inst: Inst::Isc, mode: Addressing::ZeroPage, cycles: 5 },
        0xE8 => InstInfo { inst: Inst::Inx, mode: Addressing::Implied, cycles: 2 },
        0xE9 => InstInfo { inst: Inst::Sbc, mode: Addressing::Immediate, cycles: 2 },
        0xEA => InstInfo { inst: Inst::Nop, mode: Addressing::Implied, cycles: 2 },
        0xEB => InstInfo { inst: Inst::Sbc, mode: Addressing::Immediate, cycles: 2 },
        0xEC => InstInfo { inst: Inst::Cpx, mode: Addressing::Absolute, cycles: 4 },
        0xED => InstInfo { inst: Inst::Sbc, mode: Addressing::Absolute, cycles: 4 },
        0xEE => InstInfo { inst: Inst::Inc, mode: Addressing::Absolute, cycles: 6 },
        0xEF => InstInfo { inst: Inst::Isc, mode: Addressing::Absolute, cycles: 6 },
        0xF0 => InstInfo { inst: Inst::Beq, mode: Addressing::Relative, cycles: 2 },
        0xF1 => InstInfo { inst: Inst::Sbc, mode: Addressing::IndirectY, cycles: 5 },
        0xF2 => InstInfo { inst: Inst::Nop, mode: Addressing::Implied, cycles: 2 },
        0xF3 => InstInfo { inst: Inst::Isc, mode: Addressing::IndirectY, cycles: 8 },
        0xF4 => InstInfo { inst: Inst::Nop, mode: Addressing::ZeroPageX, cycles: 4 },
        0xF5 => InstInfo { inst: Inst::Sbc, mode: Addressing::ZeroPageX, cycles: 4 },
        0xF6 => InstInfo { inst: Inst::Inc, mode: Addressing::ZeroPageX, cycles: 6 },
        0xF7 => InstInfo { inst: Inst::Isc, mode: Addressing::ZeroPageX, cycles: 6 },
        0xF8 => InstInfo { inst: Inst::Sed, mode: Addressing::Implied, cycles: 2 },
        0xF9 => InstInfo { inst: Inst::Sbc, mode: Addressing::AbsoluteY, cycles: 4 },
        0xFA => InstInfo { inst: Inst::Nop, mode: Addressing::Implied, cycles: 2 },
        0xFB => InstInfo { inst: Inst::Isc, mode: Addressing::AbsoluteY, cycles: 7 },
        0xFC => InstInfo { inst: Inst::Nop, mode: Addressing::AbsoluteX, cycles: 4 },
        0xFD => InstInfo { inst: Inst::Sbc, mode: Addressing::AbsoluteX, cycles: 4 },
        0xFE => InstInfo { inst: Inst::Inc, mode: Addressing::AbsoluteX, cycles: 7 },
        _ => InstInfo { inst: Inst::Isc, mode: Addressing::AbsoluteX, cycles: 7 },
    }
}

} // verus!
