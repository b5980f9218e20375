//! The opcode table: what each implemented opcode does, how long it is,
//! how many cycles it takes and which status flags it may change.
use vstd::prelude::*;

verus! {

/// How an instruction finds its operand.
#[derive(Clone, Copy, Debug, PartialEq, Eq, Hash, Structural)]
pub enum AddressingMode {
    Implied,
    Immediate,
    Relative,
    ZeroPage,
    ZeroPageX,
    ZeroPageY,
    Absolute,
    AbsoluteX,
    AbsoluteY,
    Indirect,
    IndirectX,
    IndirectY,
}

/// The instructions this CPU carries out.
#[derive(Clone, Copy, Debug, PartialEq, Eq, Hash, Structural)]
pub enum Mnemonic {
    Adc,
    And,
    Asl,
    Bcs,
    Bit,
    Bmi,
    Bpl,
    Brk,
    Clc,
    Cld,
    Cli,
    Clv,
    Cmp,
    Cpx,
    Cpy,
    Dcp,
    Dec,
    Dex,
    Dey,
    Eor,
    Inc,
    Inx,
    Iny,
    Isb,
    Jmp,
    Jsr,
    Lax,
    Lda,
    Ldx,
    Ldy,
    Nop,
    Ora,
    Php,
    Plp,
}

/// One entry of the opcode table.
#[derive(Clone, Copy, Debug, PartialEq, Eq, Structural)]
pub struct Opcode {
    pub code: u8,
    pub mnemonic: Mnemonic,
    /// Bytes taken by the instruction, opcode included.
    pub length: u8,
    /// Cycles taken, before any page-crossing or branch penalty.
    pub cycles: u8,
    pub mode: AddressingMode,
    /// The status flags the instruction may change.
    pub status_mask: u8,
    /// Whether indexed addressing always spends the extra cycle (as
    /// read-modify-write instructions do), rather than only when the index
    /// crosses a page.
    pub extra_cycle: bool,
}

pub open spec fn spec_op(
    code: u8,
    mnemonic: Mnemonic,
    length: u8,
    cycles: u8,
    mode: AddressingMode,
    status_mask: u8,
    extra_cycle: bool,
) -> Opcode {
    Opcode { code, mnemonic, length, cycles, mode, status_mask, extra_cycle }
}

fn op(
    code: u8,
    mnemonic: Mnemonic,
    length: u8,
    cycles: u8,
    mode: AddressingMode,
    status_mask: u8,
    extra_cycle: bool,
) -> (r: Opcode)
    ensures
        r == spec_op(code, mnemonic, length, cycles, mode, status_mask, extra_cycle),
{
    Opcode { code, mnemonic, length, cycles, mode, status_mask, extra_cycle }
}

/// The table entry of `code`, if the opcode is implemented.
pub open spec fn spec_opcode(code: u8) -> Option<Opcode> {
    match code {
        0x69 => Some(spec_op(0x69, Mnemonic::Adc, 2, 2, AddressingMode::Immediate, 0xC3, false)),
        0x65 => Some(spec_op(0x65, Mnemonic::Adc, 2, 3, AddressingMode::ZeroPage, 0xC3, false)),
        0x75 => Some(spec_op(0x75, Mnemonic::Adc, 2, 4, AddressingMode::ZeroPageX, 0xC3, false)),
        0x6D => Some(spec_op(0x6D, Mnemonic::Adc, 3, 4, AddressingMode::Absolute, 0xC3, false)),
        0x7D => Some(spec_op(0x7D, Mnemonic::Adc, 3, 4, AddressingMode::AbsoluteX, 0xC3, false)),
        0x79 => Some(spec_op(0x79, Mnemonic::Adc, 3, 4, AddressingMode::AbsoluteY, 0xC3, false)),
        0x61 => Some(spec_op(0x61, Mnemonic::Adc, 2, 6, AddressingMode::IndirectX, 0xC3, false)),
        0x71 => Some(spec_op(0x71, Mnemonic::Adc, 2, 5, AddressingMode::IndirectY, 0xC3, false)),
        0x29 => Some(spec_op(0x29, Mnemonic::And, 2, 2, AddressingMode::Immediate, 0x82, false)),
        0x25 => Some(spec_op(0x25, Mnemonic::And, 2, 3, AddressingMode::ZeroPage, 0x82, false)),
        0x35 => Some(spec_op(0x35, Mnemonic::And, 2, 4, AddressingMode::ZeroPageX, 0x82, false)),
        0x2D => Some(spec_op(0x2D, Mnemonic::And, 3, 4, AddressingMode::Absolute, 0x82, false)),
        0x3D => Some(spec_op(0x3D, Mnemonic::And, 3, 4, AddressingMode::AbsoluteX, 0x82, false)),
        0x39 => Some(spec_op(0x39, Mnemonic::And, 3, 4, AddressingMode::AbsoluteY, 0x82, false)),
        0x21 => Some(spec_op(0x21, Mnemonic::And, 2, 6, AddressingMode::IndirectX, 0x82, false)),
        0x31 => Some(spec_op(0x31, Mnemonic::And, 2, 5, AddressingMode::IndirectY, 0x82, false)),
        0x0A => Some(spec_op(0x0A, Mnemonic::Asl, 1, 2, AddressingMode::Implied, 0x83, false)),
        0x06 => Some(spec_op(0x06, Mnemonic::Asl, 2, 5, AddressingMode::ZeroPage, 0x83, false)),
        0x16 => Some(spec_op(0x16, Mnemonic::Asl, 2, 6, AddressingMode::ZeroPageX, 0x83, false)),
        0x0E => Some(spec_op(0x0E, Mnemonic::Asl, 3, 6, AddressingMode::Absolute, 0x83, false)),
        0x1E => Some(spec_op(0x1E, Mnemonic::Asl, 3, 7, AddressingMode::AbsoluteX, 0x83, true)),
        0xB0 => Some(spec_op(0xB0, Mnemonic::Bcs, 2, 2, AddressingMode::Relative, 0x00, false)),
        0x24 => Some(spec_op(0x24, Mnemonic::Bit, 2, 3, AddressingMode::ZeroPage, 0xC2, false)),
        0x2C => Some(spec_op(0x2C, Mnemonic::Bit, 3, 4, AddressingMode::Absolute, 0xC2, false)),
        0x30 => Some(spec_op(0x30, Mnemonic::Bmi, 2, 2, AddressingMode::Relative, 0x00, false)),
        0x10 => Some(spec_op(0x10, Mnemonic::Bpl, 2, 2, AddressingMode::Relative, 0x00, false)),
        0x00 => Some(spec_op(0x00, Mnemonic::Brk, 1, 7, AddressingMode::Implied, 0x04, false)),
        0x18 => Some(spec_op(0x18, Mnemonic::Clc, 1, 2, AddressingMode::Implied, 0x01, false)),
        0xD8 => Some(spec_op(0xD8, Mnemonic::Cld, 1, 2, AddressingMode::Implied, 0x08, false)),
        0x58 => Some(spec_op(0x58, Mnemonic::Cli, 1, 2, AddressingMode::Implied, 0x04, false)),
        0xB8 => Some(spec_op(0xB8, Mnemonic::Clv, 1, 2, AddressingMode::Implied, 0x40, false)),
        0xC9 => Some(spec_op(0xC9, Mnemonic::Cmp, 2, 2, AddressingMode::Immediate, 0x83, false)),
        0xC5 => Some(spec_op(0xC5, Mnemonic::Cmp, 2, 3, AddressingMode::ZeroPage, 0x83, false)),
        0xD5 => Some(spec_op(0xD5, Mnemonic::Cmp, 2, 4, AddressingMode::ZeroPageX, 0x83, false)),
        0xCD => Some(spec_op(0xCD, Mnemonic::Cmp, 3, 4, AddressingMode::Absolute, 0x83, false)),
        0xDD => Some(spec_op(0xDD, Mnemonic::Cmp, 3, 4, AddressingMode::AbsoluteX, 0x83, false)),
        0xD9 => Some(spec_op(0xD9, Mnemonic::Cmp, 3, 4, AddressingMode::AbsoluteY, 0x83, false)),
        0xC1 => Some(spec_op(0xC1, Mnemonic::Cmp, 2, 6, AddressingMode::IndirectX, 0x83, false)),
        0xD1 => Some(spec_op(0xD1, Mnemonic::Cmp, 2, 5, AddressingMode::IndirectY, 0x83, false)),
        0xE0 => Some(spec_op(0xE0, Mnemonic::Cpx, 2, 2, AddressingMode::Immediate, 0x83, false)),
        0xE4 => Some(spec_op(0xE4, Mnemonic::Cpx, 2, 3, AddressingMode::ZeroPage, 0x83, false)),
        0xEC => Some(spec_op(0xEC, Mnemonic::Cpx, 3, 4, AddressingMode::Absolute, 0x83, false)),
        0xC0 => Some(spec_op(0xC0, Mnemonic::Cpy, 2, 2, AddressingMode::Immediate, 0x83, false)),
        0xC4 => Some(spec_op(0xC4, Mnemonic::Cpy, 2, 3, AddressingMode::ZeroPage, 0x83, false)),
        0xCC => Some(spec_op(0xCC, Mnemonic::Cpy, 3, 4, AddressingMode::Absolute, 0x83, false)),
        0xC7 => Some(spec_op(0xC7, Mnemonic::Dcp, 2, 5, AddressingMode::ZeroPage, 0x83, false)),
        0xD7 => Some(spec_op(0xD7, Mnemonic::Dcp, 2, 6, AddressingMode::ZeroPageX, 0x83, false)),
        0xCF => Some(spec_op(0xCF, Mnemonic::Dcp, 3, 6, AddressingMode::Absolute, 0x83, false)),
        0xDF => Some(spec_op(0xDF, Mnemonic::Dcp, 3, 7, AddressingMode::AbsoluteX, 0x83, true)),
        0xDB => Some(spec_op(0xDB, Mnemonic::Dcp, 3, 7, AddressingMode::AbsoluteY, 0x83, true)),
        0xC3 => Some(spec_op(0xC3, Mnemonic::Dcp, 2, 8, AddressingMode::IndirectX, 0x83, false)),
        0xD3 => Some(spec_op(0xD3, Mnemonic::Dcp, 2, 8, AddressingMode::IndirectY, 0x83, true)),
        0xC6 => Some(spec_op(0xC6, Mnemonic::Dec, 2, 5, AddressingMode::ZeroPage, 0x82, false)),
        0xD6 => Some(spec_op(0xD6, Mnemonic::Dec, 2, 6, AddressingMode::ZeroPageX, 0x82, false)),
        0xCE => Some(spec_op(0xCE, Mnemonic::Dec, 3, 6, AddressingMode::Absolute, 0x82, false)),
        0xDE => Some(spec_op(0xDE, Mnemonic::Dec, 3, 7, AddressingMode::AbsoluteX, 0x82, true)),
        0xCA => Some(spec_op(0xCA, Mnemonic::Dex, 1, 2, AddressingMode::Implied, 0x83, false)),
        0x88 => Some(spec_op(0x88, Mnemonic::Dey, 1, 2, AddressingMode::Implied, 0x82, false)),
        0x49 => Some(spec_op(0x49, Mnemonic::Eor, 2, 2, AddressingMode::Immediate, 0x82, false)),
        0x45 => Some(spec_op(0x45, Mnemonic::Eor, 2, 3, AddressingMode::ZeroPage, 0x82, false)),
        0x55 => Some(spec_op(0x55, Mnemonic::Eor, 2, 4, AddressingMode::ZeroPageX, 0x82, false)),
        0x4D => Some(spec_op(0x4D, Mnemonic::Eor, 3, 4, AddressingMode::Absolute, 0x82, false)),
        0x5D => Some(spec_op(0x5D, Mnemonic::Eor, 3, 4, AddressingMode::AbsoluteX, 0x82, false)),
        0x59 => Some(spec_op(0x59, Mnemonic::Eor, 3, 4, AddressingMode::AbsoluteY, 0x82, false)),
        0x41 => Some(spec_op(0x41, Mnemonic::Eor, 2, 6, AddressingMode::IndirectX, 0x82, false)),
        0x51 => Some(spec_op(0x51, Mnemonic::Eor, 2, 5, AddressingMode::IndirectY, 0x82, false)),
        0xE6 => Some(spec_op(0xE6, Mnemonic::Inc, 2, 5, AddressingMode::ZeroPage, 0x82, false)),
        0xF6 => Some(spec_op(0xF6, Mnemonic::Inc, 2, 6, AddressingMode::ZeroPageX, 0x82, false)),
        0xEE => Some(spec_op(0xEE, Mnemonic::Inc, 3, 6, AddressingMode::Absolute, 0x82, false)),
        0xFE => Some(spec_op(0xFE, Mnemonic::Inc, 3, 7, AddressingMode::AbsoluteX, 0x82, false)),
        0xE8 => Some(spec_op(0xE8, Mnemonic::Inx, 1, 2, AddressingMode::Implied, 0x83, false)),
        0xC8 => Some(spec_op(0xC8, Mnemonic::Iny, 1, 2, AddressingMode::Implied, 0x83, false)),
        0xE7 => Some(spec_op(0xE7, Mnemonic::Isb, 2, 5, AddressingMode::ZeroPage, 0xC3, false)),
        0xF7 => Some(spec_op(0xF7, Mnemonic::Isb, 2, 6, AddressingMode::ZeroPageX, 0xC3, false)),
        0xEF => Some(spec_op(0xEF, Mnemonic::Isb, 3, 6, AddressingMode::Absolute, 0xC3, false)),
        0xFF => Some(spec_op(0xFF, Mnemonic::Isb, 3, 7, AddressingMode::AbsoluteX, 0xC3, true)),
        0xFB => Some(spec_op(0xFB, Mnemonic::Isb, 3, 7, AddressingMode::AbsoluteY, 0xC3, true)),
        0xE3 => Some(spec_op(0xE3, Mnemonic::Isb, 2, 8, AddressingMode::IndirectX, 0xC3, false)),
        0xF3 => Some(spec_op(0xF3, Mnemonic::Isb, 2, 8, AddressingMode::IndirectY, 0xC3, true)),
        0x4C => Some(spec_op(0x4C, Mnemonic::Jmp, 3, 3, AddressingMode::Absolute, 0x00, false)),
        0x6C => Some(spec_op(0x6C, Mnemonic::Jmp, 3, 5, AddressingMode::Indirect, 0x00, false)),
        0x20 => Some(spec_op(0x20, Mnemonic::Jsr, 3, 6, AddressingMode::Absolute, 0x00, false)),
        0xA7 => Some(spec_op(0xA7, Mnemonic::Lax, 2, 3, AddressingMode::ZeroPage, 0x82, false)),
        0xB7 => Some(spec_op(0xB7, Mnemonic::Lax, 2, 4, AddressingMode::ZeroPageY, 0x82, false)),
        0xAF => Some(spec_op(0xAF, Mnemonic::Lax, 3, 4, AddressingMode::Absolute, 0x82, false)),
        0xBF => Some(spec_op(0xBF, Mnemonic::Lax, 3, 4, AddressingMode::AbsoluteY, 0x82, false)),
        0xA3 => Some(spec_op(0xA3, Mnemonic::Lax, 2, 6, AddressingMode::IndirectX, 0x82, false)),
        0xB3 => Some(spec_op(0xB3, Mnemonic::Lax, 2, 5, AddressingMode::IndirectY, 0x82, false)),
        0xA9 => Some(spec_op(0xA9, Mnemonic::Lda, 2, 2, AddressingMode::Immediate, 0x82, false)),
        0xA5 => Some(spec_op(0xA5, Mnemonic::Lda, 2, 3, AddressingMode::ZeroPage, 0x82, false)),
        0xB5 => Some(spec_op(0xB5, Mnemonic::Lda, 2, 4, AddressingMode::ZeroPageX, 0x82, false)),
        0xAD => Some(spec_op(0xAD, Mnemonic::Lda, 3, 4, AddressingMode::Absolute, 0x82, false)),
        0xBD => Some(spec_op(0xBD, Mnemonic::Lda, 3, 4, AddressingMode::AbsoluteX, 0x82, false)),
        0xB9 => Some(spec_op(0xB9, Mnemonic::Lda, 3, 4, AddressingMode::AbsoluteY, 0x82, false)),
        0xA1 => Some(spec_op(0xA1, Mnemonic::Lda, 2, 6, AddressingMode::IndirectX, 0x82, false)),
        0xB1 => Some(spec_op(0xB1, Mnemonic::Lda, 2, 5, AddressingMode::IndirectY, 0x82, false)),
        0xA2 => Some(spec_op(0xA2, Mnemonic::Ldx, 2, 2, AddressingMode::Immediate, 0x82, false)),
        0xA6 => Some(spec_op(0xA6, Mnemonic::Ldx, 2, 3, AddressingMode::ZeroPage, 0x82, false)),
        0xB6 => Some(spec_op(0xB6, Mnemonic::Ldx, 2, 4, AddressingMode::ZeroPageY, 0x82, false)),
        0xAE => Some(spec_op(0xAE, Mnemonic::Ldx, 3, 4, AddressingMode::Absolute, 0x82, false)),
        0xBE => Some(spec_op(0xBE, Mnemonic::Ldx, 3, 4, AddressingMode::AbsoluteY, 0x82, false)),
        0xA0 => Some(spec_op(0xA0, Mnemonic::Ldy, 2, 2, AddressingMode::Immediate, 0x82, false)),
        0xA4 => Some(spec_op(0xA4, Mnemonic::Ldy, 2, 3, AddressingMode::ZeroPage, 0x82, false)),
        0xB4 => Some(spec_op(0xB4, Mnemonic::Ldy, 2, 4, AddressingMode::ZeroPageX, 0x82, false)),
        0xAC => Some(spec_op(0xAC, Mnemonic::Ldy, 3, 4, AddressingMode::Absolute, 0x82, false)),
        0xBC => Some(spec_op(0xBC, Mnemonic::Ldy, 3, 4, AddressingMode::AbsoluteX, 0x82, false)),
        0xEA => Some(spec_op(0xEA, Mnemonic::Nop, 1, 2, AddressingMode::Implied, 0x00, false)),
        0x1A => Some(spec_op(0x1A, Mnemonic::Nop, 1, 2, AddressingMode::Implied, 0x00, false)),
        0x3A => Some(spec_op(0x3A, Mnemonic::Nop, 1, 2, AddressingMode::Implied, 0x00, false)),
        0x5A => Some(spec_op(0x5A, Mnemonic::Nop, 1, 2, AddressingMode::Implied, 0x00, false)),
        0x7A => Some(spec_op(0x7A, Mnemonic::Nop, 1, 2, AddressingMode::Implied, 0x00, false)),
        0xDA => Some(spec_op(0xDA, Mnemonic::Nop, 1, 2, AddressingMode::Implied, 0x00, false)),
        0xFA => Some(spec_op(0xFA, Mnemonic::Nop, 1, 2, AddressingMode::Implied, 0x00, false)),
        0x04 => Some(spec_op(0x04, Mnemonic::Nop, 2, 3, AddressingMode::ZeroPage, 0x00, false)),
        0x44 => Some(spec_op(0x44, Mnemonic::Nop, 2, 3, AddressingMode::ZeroPage, 0x00, false)),
        0x64 => Some(spec_op(0x64, Mnemonic::Nop, 2, 3, AddressingMode::ZeroPage, 0x00, false)),
        0x14 => Some(spec_op(0x14, Mnemonic::Nop, 2, 4, AddressingMode::ZeroPageX, 0x00, false)),
        0x34 => Some(spec_op(0x34, Mnemonic::Nop, 2, 4, AddressingMode::ZeroPageX, 0x00, false)),
        0x54 => Some(spec_op(0x54, Mnemonic::Nop, 2, 4, AddressingMode::ZeroPageX, 0x00, false)),
        0x74 => Some(spec_op(0x74, Mnemonic::Nop, 2, 4, AddressingMode::ZeroPageX, 0x00, false)),
        0xD4 => Some(spec_op(0xD4, Mnemonic::Nop, 2, 4, AddressingMode::ZeroPageX, 0x00, false)),
        0xF4 => Some(spec_op(0xF4, Mnemonic::Nop, 2, 4, AddressingMode::ZeroPageX, 0x00, false)),
        0x0C => Some(spec_op(0x0C, Mnemonic::Nop, 3, 4, AddressingMode::Absolute, 0x00, false)),
        0x1C => Some(spec_op(0x1C, Mnemonic::Nop, 3, 4, AddressingMode::AbsoluteX, 0x00, false)),
        0x3C => Some(spec_op(0x3C, Mnemonic::Nop, 3, 4, AddressingMode::AbsoluteX, 0x00, false)),
        0x5C => Some(spec_op(0x5C, Mnemonic::Nop, 3, 4, AddressingMode::AbsoluteX, 0x00, false)),
        0x7C => Some(spec_op(0x7C, Mnemonic::Nop, 3, 4, AddressingMode::AbsoluteX, 0x00, false)),
        0xDC => Some(spec_op(0xDC, Mnemonic::Nop, 3, 4, AddressingMode::AbsoluteX, 0x00, false)),
        0xFC => Some(spec_op(0xFC, Mnemonic::Nop, 3, 4, AddressingMode::AbsoluteX, 0x00, false)),
        0x80 => Some(spec_op(0x80, Mnemonic::Nop, 2, 2, AddressingMode::Immediate, 0x00, false)),
        0x82 => Some(spec_op(0x82, Mnemonic::Nop, 2, 2, AddressingMode::Immediate, 0x00, false)),
        0x89 => Some(spec_op(0x89, Mnemonic::Nop, 2, 2, AddressingMode::Immediate, 0x00, false)),
        0xC2 => Some(spec_op(0xC2, Mnemonic::Nop, 2, 2, AddressingMode::Immediate, 0x00, false)),
        0xE2 => Some(spec_op(0xE2, Mnemonic::Nop, 2, 2, AddressingMode::Immediate, 0x00, false)),
        0x09 => Some(spec_op(0x09, Mnemonic::Ora, 2, 2, AddressingMode::Immediate, 0x82, false)),
        0x05 => Some(spec_op(0x05, Mnemonic::Ora, 2, 3, AddressingMode::ZeroPage, 0x82, false)),
        0x15 => Some(spec_op(0x15, Mnemonic::Ora, 2, 4, AddressingMode::ZeroPageX, 0x82, false)),
        0x0D => Some(spec_op(0x0D, Mnemonic::Ora, 3, 4, AddressingMode::Absolute, 0x82, false)),
        0x1D => Some(spec_op(0x1D, Mnemonic::Ora, 3, 4, AddressingMode::AbsoluteX, 0x82, false)),
        0x19 => Some(spec_op(0x19, Mnemonic::Ora, 3, 4, AddressingMode::AbsoluteY, 0x82, false)),
        0x01 => Some(spec_op(0x01, Mnemonic::Ora, 2, 6, AddressingMode::IndirectX, 0x82, false)),
        0x11 => Some(spec_op(0x11, Mnemonic::Ora, 2, 5, AddressingMode::IndirectY, 0x82, false)),
        0x08 => Some(spec_op(0x08, Mnemonic::Php, 1, 3, AddressingMode::Implied, 0x00, false)),
        0x28 => Some(spec_op(0x28, Mnemonic::Plp, 1, 4, AddressingMode::Implied, 0xFF, false)),
        _ => None,
    }
}

impl Opcode {
    /// The table entry of `code`, if the opcode is implemented.
    pub fn lookup(code: u8) -> (r: Option<Opcode>)
        ensures
            r == spec_opcode(code),
    {
        match code {
            0x69 => Some(op(0x69, Mnemonic::Adc, 2, 2, AddressingMode::Immediate, 0xC3, false)),
            0x65 => Some(op(0x65, Mnemonic::Adc, 2, 3, AddressingMode::ZeroPage, 0xC3, false)),
            0x75 => Some(op(0x75, Mnemonic::Adc, 2, 4, AddressingMode::ZeroPageX, 0xC3, false)),
            0x6D => Some(op(0x6D, Mnemonic::Adc, 3, 4, AddressingMode::Absolute, 0xC3, false)),
            0x7D => Some(op(0x7D, Mnemonic::Adc, 3, 4, AddressingMode::AbsoluteX, 0xC3, false)),
            0x79 => Some(op(0x79, Mnemonic::Adc, 3, 4, AddressingMode::AbsoluteY, 0xC3, false)),
            0x61 => Some(op(0x61, Mnemonic::Adc, 2, 6, AddressingMode::IndirectX, 0xC3, false)),
            0x71 => Some(op(0x71, Mnemonic::Adc, 2, 5, AddressingMode::IndirectY, 0xC3, false)),
            0x29 => Some(op(0x29, Mnemonic::And, 2, 2, AddressingMode::Immediate, 0x82, false)),
            0x25 => Some(op(0x25, Mnemonic::And, 2, 3, AddressingMode::ZeroPage, 0x82, false)),
            0x35 => Some(op(0x35, Mnemonic::And, 2, 4, AddressingMode::ZeroPageX, 0x82, false)),
            0x2D => Some(op(0x2D, Mnemonic::And, 3, 4, AddressingMode::Absolute, 0x82, false)),
            0x3D => Some(op(0x3D, Mnemonic::And, 3, 4, AddressingMode::AbsoluteX, 0x82, false)),
            0x39 => Some(op(0x39, Mnemonic::And, 3, 4, AddressingMode::AbsoluteY, 0x82, false)),
            0x21 => Some(op(0x21, Mnemonic::And, 2, 6, AddressingMode::IndirectX, 0x82, false)),
            0x31 => Some(op(0x31, Mnemonic::And, 2, 5, AddressingMode::IndirectY, 0x82, false)),
            0x0A => Some(op(0x0A, Mnemonic::Asl, 1, 2, AddressingMode::Implied, 0x83, false)),
            0x06 => Some(op(0x06, Mnemonic::Asl, 2, 5, AddressingMode::ZeroPage, 0x83, false)),
            0x16 => Some(op(0x16, Mnemonic::Asl, 2, 6, AddressingMode::ZeroPageX, 0x83, false)),
            0x0E => Some(op(0x0E, Mnemonic::Asl, 3, 6, AddressingMode::Absolute, 0x83, false)),
            0x1E => Some(op(0x1E, Mnemonic::Asl, 3, 7, AddressingMode::AbsoluteX, 0x83, true)),
            0xB0 => Some(op(0xB0, Mnemonic::Bcs, 2, 2, AddressingMode::Relative, 0x00, false)),
            0x24 => Some(op(0x24, Mnemonic::Bit, 2, 3, AddressingMode::ZeroPage, 0xC2, false)),
            0x2C => Some(op(0x2C, Mnemonic::Bit, 3, 4, AddressingMode::Absolute, 0xC2, false)),
            0x30 => Some(op(0x30, Mnemonic::Bmi, 2, 2, AddressingMode::Relative, 0x00, false)),
            0x10 => Some(op(0x10, Mnemonic::Bpl, 2, 2, AddressingMode::Relative, 0x00, false)),
            0x00 => Some(op(0x00, Mnemonic::Brk, 1, 7, AddressingMode::Implied, 0x04, false)),
            0x18 => Some(op(0x18, Mnemonic::Clc, 1, 2, AddressingMode::Implied, 0x01, false)),
            0xD8 => Some(op(0xD8, Mnemonic::Cld, 1, 2, AddressingMode::Implied, 0x08, false)),
            0x58 => Some(op(0x58, Mnemonic::Cli, 1, 2, AddressingMode::Implied, 0x04, false)),
            0xB8 => Some(op(0xB8, Mnemonic::Clv, 1, 2, AddressingMode::Implied, 0x40, false)),
            0xC9 => Some(op(0xC9, Mnemonic::Cmp, 2, 2, AddressingMode::Immediate, 0x83, false)),
            0xC5 => Some(op(0xC5, Mnemonic::Cmp, 2, 3, AddressingMode::ZeroPage, 0x83, false)),
            0xD5 => Some(op(0xD5, Mnemonic::Cmp, 2, 4, AddressingMode::ZeroPageX, 0x83, false)),
            0xCD => Some(op(0xCD, Mnemonic::Cmp, 3, 4, AddressingMode::Absolute, 0x83, false)),
            0xDD => Some(op(0xDD, Mnemonic::Cmp, 3, 4, AddressingMode::AbsoluteX, 0x83, false)),
            0xD9 => Some(op(0xD9, Mnemonic::Cmp, 3, 4, AddressingMode::AbsoluteY, 0x83, false)),
            0xC1 => Some(op(0xC1, Mnemonic::Cmp, 2, 6, AddressingMode::IndirectX, 0x83, false)),
            0xD1 => Some(op(0xD1, Mnemonic::Cmp, 2, 5, AddressingMode::IndirectY, 0x83, false)),
            0xE0 => Some(op(0xE0, Mnemonic::Cpx, 2, 2, AddressingMode::Immediate, 0x83, false)),
            0xE4 => Some(op(0xE4, Mnemonic::Cpx, 2, 3, AddressingMode::ZeroPage, 0x83, false)),
            0xEC => Some(op(0xEC, Mnemonic::Cpx, 3, 4, AddressingMode::Absolute, 0x83, false)),
            0xC0 => Some(op(0xC0, Mnemonic::Cpy, 2, 2, AddressingMode::Immediate, 0x83, false)),
            0xC4 => Some(op(0xC4, Mnemonic::Cpy, 2, 3, AddressingMode::ZeroPage, 0x83, false)),
            0xCC => Some(op(0xCC, Mnemonic::Cpy, 3, 4, AddressingMode::Absolute, 0x83, false)),
            0xC7 => Some(op(0xC7, Mnemonic::Dcp, 2, 5, AddressingMode::ZeroPage, 0x83, false)),
            0xD7 => Some(op(0xD7, Mnemonic::Dcp, 2, 6, AddressingMode::ZeroPageX, 0x83, false)),
            0xCF => Some(op(0xCF, Mnemonic::Dcp, 3, 6, AddressingMode::Absolute, 0x83, false)),
            0xDF => Some(op(0xDF, Mnemonic::Dcp, 3, 7, AddressingMode::AbsoluteX, 0x83, true)),
            0xDB => Some(op(0xDB, Mnemonic::Dcp, 3, 7, AddressingMode::AbsoluteY, 0x83, true)),
            0xC3 => Some(op(0xC3, Mnemonic::Dcp, 2, 8, AddressingMode::IndirectX, 0x83, false)),
            0xD3 => Some(op(0xD3, Mnemonic::Dcp, 2, 8, AddressingMode::IndirectY, 0x83, true)),
            0xC6 => Some(op(0xC6, Mnemonic::Dec, 2, 5, AddressingMode::ZeroPage, 0x82, false)),
            0xD6 => Some(op(0xD6, Mnemonic::Dec, 2, 6, AddressingMode::ZeroPageX, 0x82, false)),
            0xCE => Some(op(0xCE, Mnemonic::Dec, 3, 6, AddressingMode::Absolute, 0x82, false)),
            0xDE => Some(op(0xDE, Mnemonic::Dec, 3, 7, AddressingMode::AbsoluteX, 0x82, true)),
            0xCA => Some(op(0xCA, Mnemonic::Dex, 1, 2, AddressingMode::Implied, 0x83, false)),
            0x88 => Some(op(0x88, Mnemonic::Dey, 1, 2, AddressingMode::Implied, 0x82, false)),
            0x49 => Some(op(0x49, Mnemonic::Eor, 2, 2, AddressingMode::Immediate, 0x82, false)),
            0x45 => Some(op(0x45, Mnemonic::Eor, 2, 3, AddressingMode::ZeroPage, 0x82, false)),
            0x55 => Some(op(0x55, Mnemonic::Eor, 2, 4, AddressingMode::ZeroPageX, 0x82, false)),
            0x4D => Some(op(0x4D, Mnemonic::Eor, 3, 4, AddressingMode::Absolute, 0x82, false)),
            0x5D => Some(op(0x5D, Mnemonic::Eor, 3, 4, AddressingMode::AbsoluteX, 0x82, false)),
            0x59 => Some(op(0x59, Mnemonic::Eor, 3, 4, AddressingMode::AbsoluteY, 0x82, false)),
            0x41 => Some(op(0x41, Mnemonic::Eor, 2, 6, AddressingMode::IndirectX, 0x82, false)),
            0x51 => Some(op(0x51, Mnemonic::Eor, 2, 5, AddressingMode::IndirectY, 0x82, false)),
            0xE6 => Some(op(0xE6, Mnemonic::Inc, 2, 5, AddressingMode::ZeroPage, 0x82, false)),
            0xF6 => Some(op(0xF6, Mnemonic::Inc, 2, 6, AddressingMode::ZeroPageX, 0x82, false)),
            0xEE => Some(op(0xEE, Mnemonic::Inc, 3, 6, AddressingMode::Absolute, 0x82, false)),
            0xFE => Some(op(0xFE, Mnemonic::Inc, 3, 7, AddressingMode::AbsoluteX, 0x82, false)),
            0xE8 => Some(op(0xE8, Mnemonic::Inx, 1, 2, AddressingMode::Implied, 0x83, false)),
            0xC8 => Some(op(0xC8, Mnemonic::Iny, 1, 2, AddressingMode::Implied, 0x83, false)),
            0xE7 => Some(op(0xE7, Mnemonic::Isb, 2, 5, AddressingMode::ZeroPage, 0xC3, false)),
            0xF7 => Some(op(0xF7, Mnemonic::Isb, 2, 6, AddressingMode::ZeroPageX, 0xC3, false)),
            0xEF => Some(op(0xEF, Mnemonic::Isb, 3, 6, AddressingMode::Absolute, 0xC3, false)),
            0xFF => Some(op(0xFF, Mnemonic::Isb, 3, 7, AddressingMode::AbsoluteX, 0xC3, true)),
            0xFB => Some(op(0xFB, Mnemonic::Isb, 3, 7, AddressingMode::AbsoluteY, 0xC3, true)),
            0xE3 => Some(op(0xE3, Mnemonic::Isb, 2, 8, AddressingMode::IndirectX, 0xC3, false)),
            0xF3 => Some(op(0xF3, Mnemonic::Isb, 2, 8, AddressingMode::IndirectY, 0xC3, true)),
            0x4C => Some(op(0x4C, Mnemonic::Jmp, 3, 3, AddressingMode::Absolute, 0x00, false)),
            0x6C => Some(op(0x6C, Mnemonic::Jmp, 3, 5, AddressingMode::Indirect, 0x00, false)),
            0x20 => Some(op(0x20, Mnemonic::Jsr, 3, 6, AddressingMode::Absolute, 0x00, false)),
            0xA7 => Some(op(0xA7, Mnemonic::Lax, 2, 3, AddressingMode::ZeroPage, 0x82, false)),
            0xB7 => Some(op(0xB7, Mnemonic::Lax, 2, 4, AddressingMode::ZeroPageY, 0x82, false)),
            0xAF => Some(op(0xAF, Mnemonic::Lax, 3, 4, AddressingMode::Absolute, 0x82, false)),
            0xBF => Some(op(0xBF, Mnemonic::Lax, 3, 4, AddressingMode::AbsoluteY, 0x82, false)),
            0xA3 => Some(op(0xA3, Mnemonic::Lax, 2, 6, AddressingMode::IndirectX, 0x82, false)),
            0xB3 => Some(op(0xB3, Mnemonic::Lax, 2, 5, AddressingMode::IndirectY, 0x82, false)),
            0xA9 => Some(op(0xA9, Mnemonic::Lda, 2, 2, AddressingMode::Immediate, 0x82, false)),
            0xA5 => Some(op(0xA5, Mnemonic::Lda, 2, 3, AddressingMode::ZeroPage, 0x82, false)),
            0xB5 => Some(op(0xB5, Mnemonic::Lda, 2, 4, AddressingMode::ZeroPageX, 0x82, false)),
            0xAD => Some(op(0xAD, Mnemonic::Lda, 3, 4, AddressingMode::Absolute, 0x82, false)),
            0xBD => Some(op(0xBD, Mnemonic::Lda, 3, 4, AddressingMode::AbsoluteX, 0x82, false)),
            0xB9 => Some(op(0xB9, Mnemonic::Lda, 3, 4, AddressingMode::AbsoluteY, 0x82, false)),
            0xA1 => Some(op(0xA1, Mnemonic::Lda, 2, 6, AddressingMode::IndirectX, 0x82, false)),
            0xB1 => Some(op(0xB1, Mnemonic::Lda, 2, 5, AddressingMode::IndirectY, 0x82, false)),
            0xA2 => Some(op(0xA2, Mnemonic::Ldx, 2, 2, AddressingMode::Immediate, 0x82, false)),
            0xA6 => Some(op(0xA6, Mnemonic::Ldx, 2, 3, AddressingMode::ZeroPage, 0x82, false)),
            0xB6 => Some(op(0xB6, Mnemonic::Ldx, 2, 4, AddressingMode::ZeroPageY, 0x82, false)),
            0xAE => Some(op(0xAE, Mnemonic::Ldx, 3, 4, AddressingMode::Absolute, 0x82, false)),
            0xBE => Some(op(0xBE, Mnemonic::Ldx, 3, 4, AddressingMode::AbsoluteY, 0x82, false)),
            0xA0 => Some(op(0xA0, Mnemonic::Ldy, 2, 2, AddressingMode::Immediate, 0x82, false)),
            0xA4 => Some(op(0xA4, Mnemonic::Ldy, 2, 3, AddressingMode::ZeroPage, 0x82, false)),
            0xB4 => Some(op(0xB4, Mnemonic::Ldy, 2, 4, AddressingMode::ZeroPageX, 0x82, false)),
            0xAC => Some(op(0xAC, Mnemonic::Ldy, 3, 4, AddressingMode::Absolute, 0x82, false)),
            0xBC => Some(op(0xBC, Mnemonic::Ldy, 3, 4, AddressingMode::AbsoluteX, 0x82, false)),
            0xEA => Some(op(0xEA, Mnemonic::Nop, 1, 2, AddressingMode::Implied, 0x00, false)),
            0x1A => Some(op(0x1A, Mnemonic::Nop, 1, 2, AddressingMode::Implied, 0x00, false)),
            0x3A => Some(op(0x3A, Mnemonic::Nop, 1, 2, AddressingMode::Implied, 0x00, false)),
            0x5A => Some(op(0x5A, Mnemonic::Nop, 1, 2, AddressingMode::Implied, 0x00, false)),
            0x7A => Some(op(0x7A, Mnemonic::Nop, 1, 2, AddressingMode::Implied, 0x00, false)),
            0xDA => Some(op(0xDA, Mnemonic::Nop, 1, 2, AddressingMode::Implied, 0x00, false)),
            0xFA => Some(op(0xFA, Mnemonic::Nop, 1, 2, AddressingMode::Implied, 0x00, false)),
            0x04 => Some(op(0x04, Mnemonic::Nop, 2, 3, AddressingMode::ZeroPage, 0x00, false)),
            0x44 => Some(op(0x44, Mnemonic::Nop, 2, 3, AddressingMode::ZeroPage, 0x00, false)),
            0x64 => Some(op(0x64, Mnemonic::Nop, 2, 3, AddressingMode::ZeroPage, 0x00, false)),
            0x14 => Some(op(0x14, Mnemonic::Nop, 2, 4, AddressingMode::ZeroPageX, 0x00, false)),
            0x34 => Some(op(0x34, Mnemonic::Nop, 2, 4, AddressingMode::ZeroPageX, 0x00, false)),
            0x54 => Some(op(0x54, Mnemonic::Nop, 2, 4, AddressingMode::ZeroPageX, 0x00, false)),
            0x74 => Some(op(0x74, Mnemonic::Nop, 2, 4, AddressingMode::ZeroPageX, 0x00, false)),
            0xD4 => Some(op(0xD4, Mnemonic::Nop, 2, 4, AddressingMode::ZeroPageX, 0x00, false)),
            0xF4 => Some(op(0xF4, Mnemonic::Nop, 2, 4, AddressingMode::ZeroPageX, 0x00, false)),
            0x0C => Some(op(0x0C, Mnemonic::Nop, 3, 4, AddressingMode::Absolute, 0x00, false)),
            0x1C => Some(op(0x1C, Mnemonic::Nop, 3, 4, AddressingMode::AbsoluteX, 0x00, false)),
            0x3C => Some(op(0x3C, Mnemonic::Nop, 3, 4, AddressingMode::AbsoluteX, 0x00, false)),
            0x5C => Some(op(0x5C, Mnemonic::Nop, 3, 4, AddressingMode::AbsoluteX, 0x00, false)),
            0x7C => Some(op(0x7C, Mnemonic::Nop, 3, 4, AddressingMode::AbsoluteX, 0x00, false)),
            0xDC => Some(op(0xDC, Mnemonic::Nop, 3, 4, AddressingMode::AbsoluteX, 0x00, false)),
            0xFC => Some(op(0xFC, Mnemonic::Nop, 3, 4, AddressingMode::AbsoluteX, 0x00, false)),
            0x80 => Some(op(0x80, Mnemonic::Nop, 2, 2, AddressingMode::Immediate, 0x00, false)),
            0x82 => Some(op(0x82, Mnemonic::Nop, 2, 2, AddressingMode::Immediate, 0x00, false)),
            0x89 => Some(op(0x89, Mnemonic::Nop, 2, 2, AddressingMode::Immediate, 0x00, false)),
            0xC2 => Some(op(0xC2, Mnemonic::Nop, 2, 2, AddressingMode::Immediate, 0x00, false)),
            0xE2 => Some(op(0xE2, Mnemonic::Nop, 2, 2, AddressingMode::Immediate, 0x00, false)),
            0x09 => Some(op(0x09, Mnemonic::Ora, 2, 2, AddressingMode::Immediate, 0x82, false)),
            0x05 => Some(op(0x05, Mnemonic::Ora, 2, 3, AddressingMode::ZeroPage, 0x82, false)),
            0x15 => Some(op(0x15, Mnemonic::Ora, 2, 4, AddressingMode::ZeroPageX, 0x82, false)),
            0x0D => Some(op(0x0D, Mnemonic::Ora, 3, 4, AddressingMode::Absolute, 0x82, false)),
            0x1D => Some(op(0x1D, Mnemonic::Ora, 3, 4, AddressingMode::AbsoluteX, 0x82, false)),
            0x19 => Some(op(0x19, Mnemonic::Ora, 3, 4, AddressingMode::AbsoluteY, 0x82, false)),
            0x01 => Some(op(0x01, Mnemonic::Ora, 2, 6, AddressingMode::IndirectX, 0x82, false)),
            0x11 => Some(op(0x11, Mnemonic::Ora, 2, 5, AddressingMode::IndirectY, 0x82, false)),
            0x08 => Some(op(0x08, Mnemonic::Php, 1, 3, AddressingMode::Implied, 0x00, false)),
            0x28 => Some(op(0x28, Mnemonic::Plp, 1, 4, AddressingMode::Implied, 0xFF, false)),
            _ => None,
        }
    }

    /// The entry for `mnemonic` with addressing mode `mode`, if there is one.
    pub fn find(mnemonic: Mnemonic, mode: AddressingMode) -> (r: Option<Opcode>)
        ensures
            r matches Some(op) ==> spec_opcode(op.code) == Some(op) && op.mnemonic == mnemonic
                && op.mode == mode,
            r is None ==> forall|code: u8|
                #[trigger] spec_opcode(code) matches Some(op) ==> !(op.mnemonic == mnemonic
                    && op.mode == mode),
    {
        let mut code: u16 = 0;
        while code < 256
            invariant
                code <= 256,
                forall|c: u8|
                    c < code ==> (#[trigger] spec_opcode(c) matches Some(op) ==> !(op.mnemonic
                        == mnemonic && op.mode == mode)),
            decreases 256 - code,
        {
            if let Some(op) = Opcode::lookup(code as u8) {
                if op.mnemonic == mnemonic && op.mode == mode {
                    return Some(op);
                }
            }
            code = code + 1;
        }
        None
    }
}

} // verus!
