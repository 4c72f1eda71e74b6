//! The opcode table: for each opcode byte of the instruction set its
//! mnemonic, its length in bytes, its base cycle count and its addressing
//! mode.

use vstd::prelude::*;
use crate::cpu::AddressingMode;
use crate::cpu::AddressingMode::{
    Absolute, Absolute_X, Absolute_Y, Immediate, Indirect_X, Indirect_Y, NoneAddressing, ZeroPage,
    ZeroPage_X, ZeroPage_Y,
};

verus! {

/// One row of the opcode table.
#[derive(Debug, Clone, Copy)]
pub struct OpCode {
    /// The opcode byte, the key of the row.
    pub code: u8,
    /// The mnemonic, for diagnostics.
    pub name: &'static str,
    /// Length of the instruction in bytes, opcode included.
    pub bytes: u8,
    /// Base cycle count. Informational: the interpreter does not count cycles.
    pub cycles: u8,
    /// How the instruction finds its operand.
    pub address_mode: AddressingMode,
}

impl OpCode {
    /// A row from its five columns.
    pub fn new(
        code: u8,
        name: &'static str,
        bytes: u8,
        cycles: u8,
        address_mode: AddressingMode,
    ) -> (row: Self)
        ensures
            row == (OpCode { code, name, bytes, cycles, address_mode }),
    {
        OpCode { code, name, bytes, cycles, address_mode }
    }
}

/// The table: the row of `code`, or `None` where `code` is no opcode of the
/// instruction set.
pub open spec fn table(code: u8) -> Option<OpCode> {
    match code {
        0x00 => Some(OpCode { code: 0x00, name: "BRK", bytes: 1, cycles: 7, address_mode: NoneAddressing }),
        0x85 => Some(OpCode { code: 0x85, name: "STA", bytes: 2, cycles: 3, address_mode: ZeroPage }),
        0x95 => Some(OpCode { code: 0x95, name: "STA", bytes: 2, cycles: 4, address_mode: ZeroPage_X }),
        0x8D => Some(OpCode { code: 0x8D, name: "STA", bytes: 3, cycles: 4, address_mode: Absolute }),
        0x9D => Some(OpCode { code: 0x9D, name: "STA", bytes: 3, cycles: 5, address_mode: Absolute_X }),
        0x99 => Some(OpCode { code: 0x99, name: "STA", bytes: 3, cycles: 5, address_mode: Absolute_Y }),
        0x81 => Some(OpCode { code: 0x81, name: "STA", bytes: 2, cycles: 6, address_mode: Indirect_X }),
        0x91 => Some(OpCode { code: 0x91, name: "STA", bytes: 2, cycles: 6, address_mode: Indirect_Y }),
        0x86 => Some(OpCode { code: 0x86, name: "STX", bytes: 2, cycles: 3, address_mode: ZeroPage }),
        0x96 => Some(OpCode { code: 0x96, name: "STX", bytes: 2, cycles: 4, address_mode: ZeroPage_Y }),
        0x8E => Some(OpCode { code: 0x8E, name: "STX", bytes: 3, cycles: 4, address_mode: Absolute }),
        0x84 => Some(OpCode { code: 0x84, name: "STY", bytes: 2, cycles: 3, address_mode: ZeroPage }),
        0x94 => Some(OpCode { code: 0x94, name: "STY", bytes: 2, cycles: 4, address_mode: ZeroPage_X }),
        0x8C => Some(OpCode { code: 0x8C, name: "STY", bytes: 3, cycles: 4, address_mode: Absolute }),
        0xA9 => Some(OpCode { code: 0xA9, name: "LDA", bytes: 2, cycles: 2, address_mode: Immediate }),
        0xA5 => Some(OpCode { code: 0xA5, name: "LDA", bytes: 2, cycles: 3, address_mode: ZeroPage }),
        0xB5 => Some(OpCode { code: 0xB5, name: "LDA", bytes: 2, cycles: 4, address_mode: ZeroPage_X }),
        0xAD => Some(OpCode { code: 0xAD, name: "LDA", bytes: 3, cycles: 4, address_mode: Absolute }),
        0xBD => Some(OpCode { code: 0xBD, name: "LDA", bytes: 3, cycles: 4, address_mode: Absolute_X }),
        0xB9 => Some(OpCode { code: 0xB9, name: "LDA", bytes: 3, cycles: 4, address_mode: Absolute_Y }),
        0xA1 => Some(OpCode { code: 0xA1, name: "LDA", bytes: 2, cycles: 6, address_mode: Indirect_X }),
        0xB1 => Some(OpCode { code: 0xB1, name: "LDA", bytes: 2, cycles: 5, address_mode: Indirect_Y }),
        0xA2 => Some(OpCode { code: 0xA2, name: "LDX", bytes: 2, cycles: 2, address_mode: Immediate }),
        0xA6 => Some(OpCode { code: 0xA6, name: "LDX", bytes: 2, cycles: 3, address_mode: ZeroPage }),
        0xB6 => Some(OpCode { code: 0xB6, name: "LDX", bytes: 2, cycles: 4, address_mode: ZeroPage_Y }),
        0xAE => Some(OpCode { code: 0xAE, name: "LDX", bytes: 3, cycles: 4, address_mode: Absolute }),
        0xBE => Some(OpCode { code: 0xBE, name: "LDX", bytes: 3, cycles: 4, address_mode: Absolute_Y }),
        0xA0 => Some(OpCode { code: 0xA0, name: "LDY", bytes: 2, cycles: 2, address_mode: Immediate }),
        0xA4 => Some(OpCode { code: 0xA4, name: "LDY", bytes: 2, cycles: 3, address_mode: ZeroPage }),
        0xB4 => Some(OpCode { code: 0xB4, name: "LDY", bytes: 2, cycles: 4, address_mode: ZeroPage_X }),
        0xAC => Some(OpCode { code: 0xAC, name: "LDY", bytes: 3, cycles: 4, address_mode: Absolute }),
        0xBC => Some(OpCode { code: 0xBC, name: "LDY", bytes: 3, cycles: 4, address_mode: Absolute_X }),
        0xAA => Some(OpCode { code: 0xAA, name: "TAX", bytes: 1, cycles: 2, address_mode: NoneAddressing }),
        0x8A => Some(OpCode { code: 0x8A, name: "TXA", bytes: 1, cycles: 2, address_mode: NoneAddressing }),
        0xA8 => Some(OpCode { code: 0xA8, name: "TAY", bytes: 1, cycles: 2, address_mode: NoneAddressing }),
        0x98 => Some(OpCode { code: 0x98, name: "TYA", bytes: 1, cycles: 2, address_mode: NoneAddressing }),
        0xBA => Some(OpCode { code: 0xBA, name: "TSX", bytes: 1, cycles: 2, address_mode: NoneAddressing }),
        0x9A => Some(OpCode { code: 0x9A, name: "TXS", bytes: 1, cycles: 2, address_mode: NoneAddressing }),
        0xE8 => Some(OpCode { code: 0xE8, name: "INX", bytes: 1, cycles: 2, address_mode: NoneAddressing }),
        0xCA => Some(OpCode { code: 0xCA, name: "DEX", bytes: 1, cycles: 2, address_mode: NoneAddressing }),
        0xC8 => Some(OpCode { code: 0xC8, name: "INY", bytes: 1, cycles: 2, address_mode: NoneAddressing }),
        0x88 => Some(OpCode { code: 0x88, name: "DEY", bytes: 1, cycles: 2, address_mode: NoneAddressing }),
        0xE6 => Some(OpCode { code: 0xE6, name: "INC", bytes: 2, cycles: 5, address_mode: ZeroPage }),
        0xF6 => Some(OpCode { code: 0xF6, name: "INC", bytes: 2, cycles: 6, address_mode: ZeroPage_X }),
        0xEE => Some(OpCode { code: 0xEE, name: "INC", bytes: 3, cycles: 6, address_mode: Absolute }),
        0xFE => Some(OpCode { code: 0xFE, name: "INC", bytes: 3, cycles: 7, address_mode: Absolute_X }),
        0xC6 => Some(OpCode { code: 0xC6, name: "DEC", bytes: 2, cycles: 5, address_mode: ZeroPage }),
        0xD6 => Some(OpCode { code: 0xD6, name: "DEC", bytes: 2, cycles: 6, address_mode: ZeroPage_X }),
        0xCE => Some(OpCode { code: 0xCE, name: "DEC", bytes: 3, cycles: 6, address_mode: Absolute }),
        0xDE => Some(OpCode { code: 0xDE, name: "DEC", bytes: 3, cycles: 7, address_mode: Absolute_X }),
        0x29 => Some(OpCode { code: 0x29, name: "AND", bytes: 2, cycles: 2, address_mode: Immediate }),
        0x25 => Some(OpCode { code: 0x25, name: "AND", bytes: 2, cycles: 3, address_mode: ZeroPage }),
        0x35 => Some(OpCode { code: 0x35, name: "AND", bytes: 2, cycles: 4, address_mode: ZeroPage_X }),
        0x2D => Some(OpCode { code: 0x2D, name: "AND", bytes: 3, cycles: 4, address_mode: Absolute }),
        0x3D => Some(OpCode { code: 0x3D, name: "AND", bytes: 3, cycles: 4, address_mode: Absolute_X }),
        0x39 => Some(OpCode { code: 0x39, name: "AND", bytes: 3, cycles: 4, address_mode: Absolute_Y }),
        0x21 => Some(OpCode { code: 0x21, name: "AND", bytes: 2, cycles: 6, address_mode: Indirect_X }),
        0x31 => Some(OpCode { code: 0x31, name: "AND", bytes: 2, cycles: 5, address_mode: Indirect_Y }),
        0x49 => Some(OpCode { code: 0x49, name: "EOR", bytes: 2, cycles: 2, address_mode: Immediate }),
        0x45 => Some(OpCode { code: 0x45, name: "EOR", bytes: 2, cycles: 3, address_mode: ZeroPage }),
        0x55 => Some(OpCode { code: 0x55, name: "EOR", bytes: 2, cycles: 4, address_mode: ZeroPage_X }),
        0x4D => Some(OpCode { code: 0x4D, name: "EOR", bytes: 3, cycles: 4, address_mode: Absolute }),
        0x5D => Some(OpCode { code: 0x5D, name: "EOR", bytes: 3, cycles: 4, address_mode: Absolute_X }),
        0x59 => Some(OpCode { code: 0x59, name: "EOR", bytes: 3, cycles: 4, address_mode: Absolute_Y }),
        0x41 => Some(OpCode { code: 0x41, name: "EOR", bytes: 2, cycles: 6, address_mode: Indirect_X }),
        0x51 => Some(OpCode { code: 0x51, name: "EOR", bytes: 2, cycles: 5, address_mode: Indirect_Y }),
        0x09 => Some(OpCode { code: 0x09, name: "ORA", bytes: 2, cycles: 2, address_mode: Immediate }),
        0x05 => Some(OpCode { code: 0x05, name: "ORA", bytes: 2, cycles: 3, address_mode: ZeroPage }),
        0x15 => Some(OpCode { code: 0x15, name: "ORA", bytes: 2, cycles: 4, address_mode: ZeroPage_X }),
        0x0D => Some(OpCode { code: 0x0D, name: "ORA", bytes: 3, cycles: 4, address_mode: Absolute }),
        0x1D => Some(OpCode { code: 0x1D, name: "ORA", bytes: 3, cycles: 4, address_mode: Absolute_X }),
        0x19 => Some(OpCode { code: 0x19, name: "ORA", bytes: 3, cycles: 4, address_mode: Absolute_Y }),
        0x01 => Some(OpCode { code: 0x01, name: "ORA", bytes: 2, cycles: 6, address_mode: Indirect_X }),
        0x11 => Some(OpCode { code: 0x11, name: "ORA", bytes: 2, cycles: 5, address_mode: Indirect_Y }),
        0x24 => Some(OpCode { code: 0x24, name: "BIT", bytes: 2, cycles: 3, address_mode: ZeroPage }),
        0x2C => Some(OpCode { code: 0x2C, name: "BIT", bytes: 3, cycles: 4, address_mode: Absolute }),
        0x69 => Some(OpCode { code: 0x69, name: "ADC", bytes: 2, cycles: 2, address_mode: Immediate }),
        0x65 => Some(OpCode { code: 0x65, name: "ADC", bytes: 2, cycles: 3, address_mode: ZeroPage }),
        0x75 => Some(OpCode { code: 0x75, name: "ADC", bytes: 2, cycles: 4, address_mode: ZeroPage_X }),
        0x6D => Some(OpCode { code: 0x6D, name: "ADC", bytes: 3, cycles: 4, address_mode: Absolute }),
        0x7D => Some(OpCode { code: 0x7D, name: "ADC", bytes: 3, cycles: 4, address_mode: Absolute_X }),
        0x79 => Some(OpCode { code: 0x79, name: "ADC", bytes: 3, cycles: 4, address_mode: Absolute_Y }),
        0x61 => Some(OpCode { code: 0x61, name: "ADC", bytes: 2, cycles: 6, address_mode: Indirect_X }),
        0x71 => Some(OpCode { code: 0x71, name: "ADC", bytes: 2, cycles: 5, address_mode: Indirect_Y }),
        0xE9 => Some(OpCode { code: 0xE9, name: "SBC", bytes: 2, cycles: 2, address_mode: Immediate }),
        0xE5 => Some(OpCode { code: 0xE5, name: "SBC", bytes: 2, cycles: 3, address_mode: ZeroPage }),
        0xF5 => Some(OpCode { code: 0xF5, name: "SBC", bytes: 2, cycles: 4, address_mode: ZeroPage_X }),
        0xED => Some(OpCode { code: 0xED, name: "SBC", bytes: 3, cycles: 4, address_mode: Absolute }),
        0xFD => Some(OpCode { code: 0xFD, name: "SBC", bytes: 3, cycles: 4, address_mode: Absolute_X }),
        0xF9 => Some(OpCode { code: 0xF9, name: "SBC", bytes: 3, cycles: 4, address_mode: Absolute_Y }),
        0xE1 => Some(OpCode { code: 0xE1, name: "SBC", bytes: 2, cycles: 6, address_mode: Indirect_X }),
        0xF1 => Some(OpCode { code: 0xF1, name: "SBC", bytes: 2, cycles: 5, address_mode: Indirect_Y }),
        0xC9 => Some(OpCode { code: 0xC9, name: "CMP", bytes: 2, cycles: 2, address_mode: Immediate }),
        0xC5 => Some(OpCode { code: 0xC5, name: "CMP", bytes: 2, cycles: 3, address_mode: ZeroPage }),
        0xD5 => Some(OpCode { code: 0xD5, name: "CMP", bytes: 2, cycles: 4, address_mode: ZeroPage_X }),
        0xCD => Some(OpCode { code: 0xCD, name: "CMP", bytes: 3, cycles: 4, address_mode: Absolute }),
        0xDD => Some(OpCode { code: 0xDD, name: "CMP", bytes: 3, cycles: 4, address_mode: Absolute_X }),
        0xD9 => Some(OpCode { code: 0xD9, name: "CMP", bytes: 3, cycles: 4, address_mode: Absolute_Y }),
        0xC1 => Some(OpCode { code: 0xC1, name: "CMP", bytes: 2, cycles: 6, address_mode: Indirect_X }),
        0xD1 => Some(OpCode { code: 0xD1, name: "CMP", bytes: 2, cycles: 5, address_mode: Indirect_Y }),
        0xE0 => Some(OpCode { code: 0xE0, name: "CPX", bytes: 2, cycles: 2, address_mode: Immediate }),
        0xE4 => Some(OpCode { code: 0xE4, name: "CPX", bytes: 2, cycles: 3, address_mode: ZeroPage }),
        0xEC => Some(OpCode { code: 0xEC, name: "CPX", bytes: 3, cycles: 4, address_mode: Absolute }),
        0xC0 => Some(OpCode { code: 0xC0, name: "CPY", bytes: 2, cycles: 2, address_mode: Immediate }),
        0xC4 => Some(OpCode { code: 0xC4, name: "CPY", bytes: 2, cycles: 3, address_mode: ZeroPage }),
        0xCC => Some(OpCode { code: 0xCC, name: "CPY", bytes: 3, cycles: 4, address_mode: Absolute }),
        0x0A => Some(OpCode { code: 0x0A, name: "ASL", bytes: 1, cycles: 2, address_mode: NoneAddressing }),
        0x06 => Some(OpCode { code: 0x06, name: "ASL", bytes: 2, cycles: 5, address_mode: ZeroPage }),
        0x16 => Some(OpCode { code: 0x16, name: "ASL", bytes: 2, cycles: 6, address_mode: ZeroPage_X }),
        0x0E => Some(OpCode { code: 0x0E, name: "ASL", bytes: 3, cycles: 6, address_mode: Absolute }),
        0x1E => Some(OpCode { code: 0x1E, name: "ASL", bytes: 3, cycles: 7, address_mode: Absolute_X }),
        0x4A => Some(OpCode { code: 0x4A, name: "LSR", bytes: 1, cycles: 2, address_mode: NoneAddressing }),
        0x46 => Some(OpCode { code: 0x46, name: "LSR", bytes: 2, cycles: 5, address_mode: ZeroPage }),
        0x56 => Some(OpCode { code: 0x56, name: "LSR", bytes: 2, cycles: 6, address_mode: ZeroPage_X }),
        0x4E => Some(OpCode { code: 0x4E, name: "LSR", bytes: 3, cycles: 6, address_mode: Absolute }),
        0x5E => Some(OpCode { code: 0x5E, name: "LSR", bytes: 3, cycles: 7, address_mode: Absolute_X }),
        0x2A => Some(OpCode { code: 0x2A, name: "ROL", bytes: 1, cycles: 2, address_mode: NoneAddressing }),
        0x26 => Some(OpCode { code: 0x26, name: "ROL", bytes: 2, cycles: 5, address_mode: ZeroPage }),
        0x36 => Some(OpCode { code: 0x36, name: "ROL", bytes: 2, cycles: 6, address_mode: ZeroPage_X }),
        0x2E => Some(OpCode { code: 0x2E, name: "ROL", bytes: 3, cycles: 6, address_mode: Absolute }),
        0x3E => Some(OpCode { code: 0x3E, name: "ROL", bytes: 3, cycles: 7, address_mode: Absolute_X }),
        0x6A => Some(OpCode { code: 0x6A, name: "ROR", bytes: 1, cycles: 2, address_mode: NoneAddressing }),
        0x66 => Some(OpCode { code: 0x66, name: "ROR", bytes: 2, cycles: 5, address_mode: ZeroPage }),
        0x76 => Some(OpCode { code: 0x76, name: "ROR", bytes: 2, cycles: 6, address_mode: ZeroPage_X }),
        0x6E => Some(OpCode { code: 0x6E, name: "ROR", bytes: 3, cycles: 6, address_mode: Absolute }),
        0x7E => Some(OpCode { code: 0x7E, name: "ROR", bytes: 3, cycles: 7, address_mode: Absolute_X }),
        0x10 => Some(OpCode { code: 0x10, name: "BPL", bytes: 2, cycles: 2, address_mode: NoneAddressing }),
        0x30 => Some(OpCode { code: 0x30, name: "BMI", bytes: 2, cycles: 2, address_mode: NoneAddressing }),
        0x50 => Some(OpCode { code: 0x50, name: "BVC", bytes: 2, cycles: 2, address_mode: NoneAddressing }),
        0x70 => Some(OpCode { code: 0x70, name: "BVS", bytes: 2, cycles: 2, address_mode: NoneAddressing }),
        0x90 => Some(OpCode { code: 0x90, name: "BCC", bytes: 2, cycles: 2, address_mode: NoneAddressing }),
        0xB0 => Some(OpCode { code: 0xB0, name: "BCS", bytes: 2, cycles: 2, address_mode: NoneAddressing }),
        0xD0 => Some(OpCode { code: 0xD0, name: "BNE", bytes: 2, cycles: 2, address_mode: NoneAddressing }),
        0xF0 => Some(OpCode { code: 0xF0, name: "BEQ", bytes: 2, cycles: 2, address_mode: NoneAddressing }),
        0x4C => Some(OpCode { code: 0x4C, name: "JMP", bytes: 3, cycles: 3, address_mode: Absolute }),
        0x6C => Some(OpCode { code: 0x6C, name: "JMP", bytes: 3, cycles: 5, address_mode: NoneAddressing }),
        0x20 => Some(OpCode { code: 0x20, name: "JSR", bytes: 3, cycles: 6, address_mode: Absolute }),
        0x60 => Some(OpCode { code: 0x60, name: "RTS", bytes: 1, cycles: 6, address_mode: NoneAddressing }),
        0x40 => Some(OpCode { code: 0x40, name: "RTI", bytes: 1, cycles: 6, address_mode: NoneAddressing }),
        0x48 => Some(OpCode { code: 0x48, name: "PHA", bytes: 1, cycles: 3, address_mode: NoneAddressing }),
        0x68 => Some(OpCode { code: 0x68, name: "PLA", bytes: 1, cycles: 4, address_mode: NoneAddressing }),
        0x08 => Some(OpCode { code: 0x08, name: "PHP", bytes: 1, cycles: 3, address_mode: NoneAddressing }),
        0x28 => Some(OpCode { code: 0x28, name: "PLP", bytes: 1, cycles: 4, address_mode: NoneAddressing }),
        0x18 => Some(OpCode { code: 0x18, name: "CLC", bytes: 1, cycles: 2, address_mode: NoneAddressing }),
        0x38 => Some(OpCode { code: 0x38, name: "SEC", bytes: 1, cycles: 2, address_mode: NoneAddressing }),
        0x58 => Some(OpCode { code: 0x58, name: "CLI", bytes: 1, cycles: 2, address_mode: NoneAddressing }),
        0x78 => Some(OpCode { code: 0x78, name: "SEI", bytes: 1, cycles: 2, address_mode: NoneAddressing }),
        0xB8 => Some(OpCode { code: 0xB8, name: "CLV", bytes: 1, cycles: 2, address_mode: NoneAddressing }),
        0xD8 => Some(OpCode { code: 0xD8, name: "CLD", bytes: 1, cycles: 2, address_mode: NoneAddressing }),
        0xF8 => Some(OpCode { code: 0xF8, name: "SED", bytes: 1, cycles: 2, address_mode: NoneAddressing }),
        0xEA => Some(OpCode { code: 0xEA, name: "NOP", bytes: 1, cycles: 2, address_mode: NoneAddressing }),
        _ => None,
    }
}

/// The number of operand bytes that an addressing mode reads after the
/// opcode.
pub open spec fn operand_bytes(mode: AddressingMode) -> int {
    match mode {
        Immediate | ZeroPage | ZeroPage_X | ZeroPage_Y | Indirect_X | Indirect_Y => 1,
        Absolute | Absolute_X | Absolute_Y => 2,
        NoneAddressing => 0,
    }
}

/// Looks `code` up in the table.
pub fn lookup(code: u8) -> (found: Option<OpCode>)
    ensures
        found == table(code),
{
    match code {
        0x00 => Some(OpCode { code: 0x00, name: "BRK", bytes: 1, cycles: 7, address_mode: NoneAddressing }),
        0x85 => Some(OpCode { code: 0x85, name: "STA", bytes: 2, cycles: 3, address_mode: ZeroPage }),
        0x95 => Some(OpCode { code: 0x95, name: "STA", bytes: 2, cycles: 4, address_mode: ZeroPage_X }),
        0x8D => Some(OpCode { code: 0x8D, name: "STA", bytes: 3, cycles: 4, address_mode: Absolute }),
        0x9D => Some(OpCode { code: 0x9D, name: "STA", bytes: 3, cycles: 5, address_mode: Absolute_X }),
        0x99 => Some(OpCode { code: 0x99, name: "STA", bytes: 3, cycles: 5, address_mode: Absolute_Y }),
        0x81 => Some(OpCode { code: 0x81, name: "STA", bytes: 2, cycles: 6, address_mode: Indirect_X }),
        0x91 => Some(OpCode { code: 0x91, name: "STA", bytes: 2, cycles: 6, address_mode: Indirect_Y }),
        0x86 => Some(OpCode { code: 0x86, name: "STX", bytes: 2, cycles: 3, address_mode: ZeroPage }),
        0x96 => Some(OpCode { code: 0x96, name: "STX", bytes: 2, cycles: 4, address_mode: ZeroPage_Y }),
        0x8E => Some(OpCode { code: 0x8E, name: "STX", bytes: 3, cycles: 4, address_mode: Absolute }),
        0x84 => Some(OpCode { code: 0x84, name: "STY", bytes: 2, cycles: 3, address_mode: ZeroPage }),
        0x94 => Some(OpCode { code: 0x94, name: "STY", bytes: 2, cycles: 4, address_mode: ZeroPage_X }),
        0x8C => Some(OpCode { code: 0x8C, name: "STY", bytes: 3, cycles: 4, address_mode: Absolute }),
        0xA9 => Some(OpCode { code: 0xA9, name: "LDA", bytes: 2, cycles: 2, address_mode: Immediate }),
        0xA5 => Some(OpCode { code: 0xA5, name: "LDA", bytes: 2, cycles: 3, address_mode: ZeroPage }),
        0xB5 => Some(OpCode { code: 0xB5, name: "LDA", bytes: 2, cycles: 4, address_mode: ZeroPage_X }),
        0xAD => Some(OpCode { code: 0xAD, name: "LDA", bytes: 3, cycles: 4, address_mode: Absolute }),
        0xBD => Some(OpCode { code: 0xBD, name: "LDA", bytes: 3, cycles: 4, address_mode: Absolute_X }),
        0xB9 => Some(OpCode { code: 0xB9, name: "LDA", bytes: 3, cycles: 4, address_mode: Absolute_Y }),
        0xA1 => Some(OpCode { code: 0xA1, name: "LDA", bytes: 2, cycles: 6, address_mode: Indirect_X }),
        0xB1 => Some(OpCode { code: 0xB1, name: "LDA", bytes: 2, cycles: 5, address_mode: Indirect_Y }),
        0xA2 => Some(OpCode { code: 0xA2, name: "LDX", bytes: 2, cycles: 2, address_mode: Immediate }),
        0xA6 => Some(OpCode { code: 0xA6, name: "LDX", bytes: 2, cycles: 3, address_mode: ZeroPage }),
        0xB6 => Some(OpCode { code: 0xB6, name: "LDX", bytes: 2, cycles: 4, address_mode: ZeroPage_Y }),
        0xAE => Some(OpCode { code: 0xAE, name: "LDX", bytes: 3, cycles: 4, address_mode: Absolute }),
        0xBE => Some(OpCode { code: 0xBE, name: "LDX", bytes: 3, cycles: 4, address_mode: Absolute_Y }),
        0xA0 => Some(OpCode { code: 0xA0, name: "LDY", bytes: 2, cycles: 2, address_mode: Immediate }),
        0xA4 => Some(OpCode { code: 0xA4, name: "LDY", bytes: 2, cycles: 3, address_mode: ZeroPage }),
        0xB4 => Some(OpCode { code: 0xB4, name: "LDY", bytes: 2, cycles: 4, address_mode: ZeroPage_X }),
        0xAC => Some(OpCode { code: 0xAC, name: "LDY", bytes: 3, cycles: 4, address_mode: Absolute }),
        0xBC => Some(OpCode { code: 0xBC, name: "LDY", bytes: 3, cycles: 4, address_mode: Absolute_X }),
        0xAA => Some(OpCode { code: 0xAA, name: "TAX", bytes: 1, cycles: 2, address_mode: NoneAddressing }),
        0x8A => Some(OpCode { code: 0x8A, name: "TXA", bytes: 1, cycles: 2, address_mode: NoneAddressing }),
        0xA8 => Some(OpCode { code: 0xA8, name: "TAY", bytes: 1, cycles: 2, address_mode: NoneAddressing }),
        0x98 => Some(OpCode { code: 0x98, name: "TYA", bytes: 1, cycles: 2, address_mode: NoneAddressing }),
        0xBA => Some(OpCode { code: 0xBA, name: "TSX", bytes: 1, cycles: 2, address_mode: NoneAddressing }),
        0x9A => Some(OpCode { code: 0x9A, name: "TXS", bytes: 1, cycles: 2, address_mode: NoneAddressing }),
        0xE8 => Some(OpCode { code: 0xE8, name: "INX", bytes: 1, cycles: 2, address_mode: NoneAddressing }),
        0xCA => Some(OpCode { code: 0xCA, name: "DEX", bytes: 1, cycles: 2, address_mode: NoneAddressing }),
        0xC8 => Some(OpCode { code: 0xC8, name: "INY", bytes: 1, cycles: 2, address_mode: NoneAddressing }),
        0x88 => Some(OpCode { code: 0x88, name: "DEY", bytes: 1, cycles: 2, address_mode: NoneAddressing }),
        0xE6 => Some(OpCode { code: 0xE6, name: "INC", bytes: 2, cycles: 5, address_mode: ZeroPage }),
        0xF6 => Some(OpCode { code: 0xF6, name: "INC", bytes: 2, cycles: 6, address_mode: ZeroPage_X }),
        0xEE => Some(OpCode { code: 0xEE, name: "INC", bytes: 3, cycles: 6, address_mode: Absolute }),
        0xFE => Some(OpCode { code: 0xFE, name: "INC", bytes: 3, cycles: 7, address_mode: Absolute_X }),
        0xC6 => Some(OpCode { code: 0xC6, name: "DEC", bytes: 2, cycles: 5, address_mode: ZeroPage }),
        0xD6 => Some(OpCode { code: 0xD6, name: "DEC", bytes: 2, cycles: 6, address_mode: ZeroPage_X }),
        0xCE => Some(OpCode { code: 0xCE, name: "DEC", bytes: 3, cycles: 6, address_mode: Absolute }),
        0xDE => Some(OpCode { code: 0xDE, name: "DEC", bytes: 3, cycles: 7, address_mode: Absolute_X }),
        0x29 => Some(OpCode { code: 0x29, name: "AND", bytes: 2, cycles: 2, address_mode: Immediate }),
        0x25 => Some(OpCode { code: 0x25, name: "AND", bytes: 2, cycles: 3, address_mode: ZeroPage }),
        0x35 => Some(OpCode { code: 0x35, name: "AND", bytes: 2, cycles: 4, address_mode: ZeroPage_X }),
        0x2D => Some(OpCode { code: 0x2D, name: "AND", bytes: 3, cycles: 4, address_mode: Absolute }),
        0x3D => Some(OpCode { code: 0x3D, name: "AND", bytes: 3, cycles: 4, address_mode: Absolute_X }),
        0x39 => Some(OpCode { code: 0x39, name: "AND", bytes: 3, cycles: 4, address_mode: Absolute_Y }),
        0x21 => Some(OpCode { code: 0x21, name: "AND", bytes: 2, cycles: 6, address_mode: Indirect_X }),
        0x31 => Some(OpCode { code: 0x31, name: "AND", bytes: 2, cycles: 5, address_mode: Indirect_Y }),
        0x49 => Some(OpCode { code: 0x49, name: "EOR", bytes: 2, cycles: 2, address_mode: Immediate }),
        0x45 => Some(OpCode { code: 0x45, name: "EOR", bytes: 2, cycles: 3, address_mode: ZeroPage }),
        0x55 => Some(OpCode { code: 0x55, name: "EOR", bytes: 2, cycles: 4, address_mode: ZeroPage_X }),
        0x4D => Some(OpCode { code: 0x4D, name: "EOR", bytes: 3, cycles: 4, address_mode: Absolute }),
        0x5D => Some(OpCode { code: 0x5D, name: "EOR", bytes: 3, cycles: 4, address_mode: Absolute_X }),
        0x59 => Some(OpCode { code: 0x59, name: "EOR", bytes: 3, cycles: 4, address_mode: Absolute_Y }),
        0x41 => Some(OpCode { code: 0x41, name: "EOR", bytes: 2, cycles: 6, address_mode: Indirect_X }),
        0x51 => Some(OpCode { code: 0x51, name: "EOR", bytes: 2, cycles: 5, address_mode: Indirect_Y }),
        0x09 => Some(OpCode { code: 0x09, name: "ORA", bytes: 2, cycles: 2, address_mode: Immediate }),
        0x05 => Some(OpCode { code: 0x05, name: "ORA", bytes: 2, cycles: 3, address_mode: ZeroPage }),
        0x15 => Some(OpCode { code: 0x15, name: "ORA", bytes: 2, cycles: 4, address_mode: ZeroPage_X }),
        0x0D => Some(OpCode { code: 0x0D, name: "ORA", bytes: 3, cycles: 4, address_mode: Absolute }),
        0x1D => Some(OpCode { code: 0x1D, name: "ORA", bytes: 3, cycles: 4, address_mode: Absolute_X }),
        0x19 => Some(OpCode { code: 0x19, name: "ORA", bytes: 3, cycles: 4, address_mode: Absolute_Y }),
        0x01 => Some(OpCode { code: 0x01, name: "ORA", bytes: 2, cycles: 6, address_mode: Indirect_X }),
        0x11 => Some(OpCode { code: 0x11, name: "ORA", bytes: 2, cycles: 5, address_mode: Indirect_Y }),
        0x24 => Some(OpCode { code: 0x24, name: "BIT", bytes: 2, cycles: 3, address_mode: ZeroPage }),
        0x2C => Some(OpCode { code: 0x2C, name: "BIT", bytes: 3, cycles: 4, address_mode: Absolute }),
        0x69 => Some(OpCode { code: 0x69, name: "ADC", bytes: 2, cycles: 2, address_mode: Immediate }),
        0x65 => Some(OpCode { code: 0x65, name: "ADC", bytes: 2, cycles: 3, address_mode: ZeroPage }),
        0x75 => Some(OpCode { code: 0x75, name: "ADC", bytes: 2, cycles: 4, address_mode: ZeroPage_X }),
        0x6D => Some(OpCode { code: 0x6D, name: "ADC", bytes: 3, cycles: 4, address_mode: Absolute }),
        0x7D => Some(OpCode { code: 0x7D, name: "ADC", bytes: 3, cycles: 4, address_mode: Absolute_X }),
        0x79 => Some(OpCode { code: 0x79, name: "ADC", bytes: 3, cycles: 4, address_mode: Absolute_Y }),
        0x61 => Some(OpCode { code: 0x61, name: "ADC", bytes: 2, cycles: 6, address_mode: Indirect_X }),
        0x71 => Some(OpCode { code: 0x71, name: "ADC", bytes: 2, cycles: 5, address_mode: Indirect_Y }),
        0xE9 => Some(OpCode { code: 0xE9, name: "SBC", bytes: 2, cycles: 2, address_mode: Immediate }),
        0xE5 => Some(OpCode { code: 0xE5, name: "SBC", bytes: 2, cycles: 3, address_mode: ZeroPage }),
        0xF5 => Some(OpCode { code: 0xF5, name: "SBC", bytes: 2, cycles: 4, address_mode: ZeroPage_X }),
        0xED => Some(OpCode { code: 0xED, name: "SBC", bytes: 3, cycles: 4, address_mode: Absolute }),
        0xFD => Some(OpCode { code: 0xFD, name: "SBC", bytes: 3, cycles: 4, address_mode: Absolute_X }),
        0xF9 => Some(OpCode { code: 0xF9, name: "SBC", bytes: 3, cycles: 4, address_mode: Absolute_Y }),
        0xE1 => Some(OpCode { code: 0xE1, name: "SBC", bytes: 2, cycles: 6, address_mode: Indirect_X }),
        0xF1 => Some(OpCode { code: 0xF1, name: "SBC", bytes: 2, cycles: 5, address_mode: Indirect_Y }),
        0xC9 => Some(OpCode { code: 0xC9, name: "CMP", bytes: 2, cycles: 2, address_mode: Immediate }),
        0xC5 => Some(OpCode { code: 0xC5, name: "CMP", bytes: 2, cycles: 3, address_mode: ZeroPage }),
        0xD5 => Some(OpCode { code: 0xD5, name: "CMP", bytes: 2, cycles: 4, address_mode: ZeroPage_X }),
        0xCD => Some(OpCode { code: 0xCD, name: "CMP", bytes: 3, cycles: 4, address_mode: Absolute }),
        0xDD => Some(OpCode { code: 0xDD, name: "CMP", bytes: 3, cycles: 4, address_mode: Absolute_X }),
        0xD9 => Some(OpCode { code: 0xD9, name: "CMP", bytes: 3, cycles: 4, address_mode: Absolute_Y }),
        0xC1 => Some(OpCode { code: 0xC1, name: "CMP", bytes: 2, cycles: 6, address_mode: Indirect_X }),
        0xD1 => Some(OpCode { code: 0xD1, name: "CMP", bytes: 2, cycles: 5, address_mode: Indirect_Y }),
        0xE0 => Some(OpCode { code: 0xE0, name: "CPX", bytes: 2, cycles: 2, address_mode: Immediate }),
        0xE4 => Some(OpCode { code: 0xE4, name: "CPX", bytes: 2, cycles: 3, address_mode: ZeroPage }),
        0xEC => Some(OpCode { code: 0xEC, name: "CPX", bytes: 3, cycles: 4, address_mode: Absolute }),
        0xC0 => Some(OpCode { code: 0xC0, name: "CPY", bytes: 2, cycles: 2, address_mode: Immediate }),
        0xC4 => Some(OpCode { code: 0xC4, name: "CPY", bytes: 2, cycles: 3, address_mode: ZeroPage }),
        0xCC => Some(OpCode { code: 0xCC, name: "CPY", bytes: 3, cycles: 4, address_mode: Absolute }),
        0x0A => Some(OpCode { code: 0x0A, name: "ASL", bytes: 1, cycles: 2, address_mode: NoneAddressing }),
        0x06 => Some(OpCode { code: 0x06, name: "ASL", bytes: 2, cycles: 5, address_mode: ZeroPage }),
        0x16 => Some(OpCode { code: 0x16, name: "ASL", bytes: 2, cycles: 6, address_mode: ZeroPage_X }),
        0x0E => Some(OpCode { code: 0x0E, name: "ASL", bytes: 3, cycles: 6, address_mode: Absolute }),
        0x1E => Some(OpCode { code: 0x1E, name: "ASL", bytes: 3, cycles: 7, address_mode: Absolute_X }),
        0x4A => Some(OpCode { code: 0x4A, name: "LSR", bytes: 1, cycles: 2, address_mode: NoneAddressing }),
        0x46 => Some(OpCode { code: 0x46, name: "LSR", bytes: 2, cycles: 5, address_mode: ZeroPage }),
        0x56 => Some(OpCode { code: 0x56, name: "LSR", bytes: 2, cycles: 6, address_mode: ZeroPage_X }),
        0x4E => Some(OpCode { code: 0x4E, name: "LSR", bytes: 3, cycles: 6, address_mode: Absolute }),
        0x5E => Some(OpCode { code: 0x5E, name: "LSR", bytes: 3, cycles: 7, address_mode: Absolute_X }),
        0x2A => Some(OpCode { code: 0x2A, name: "ROL", bytes: 1, cycles: 2, address_mode: NoneAddressing }),
        0x26 => Some(OpCode { code: 0x26, name: "ROL", bytes: 2, cycles: 5, address_mode: ZeroPage }),
        0x36 => Some(OpCode { code: 0x36, name: "ROL", bytes: 2, cycles: 6, address_mode: ZeroPage_X }),
        0x2E => Some(OpCode { code: 0x2E, name: "ROL", bytes: 3, cycles: 6, address_mode: Absolute }),
        0x3E => Some(OpCode { code: 0x3E, name: "ROL", bytes: 3, cycles: 7, address_mode: Absolute_X }),
        0x6A => Some(OpCode { code: 0x6A, name: "ROR", bytes: 1, cycles: 2, address_mode: NoneAddressing }),
        0x66 => Some(OpCode { code: 0x66, name: "ROR", bytes: 2, cycles: 5, address_mode: ZeroPage }),
        0x76 => Some(OpCode { code: 0x76, name: "ROR", bytes: 2, cycles: 6, address_mode: ZeroPage_X }),
        0x6E => Some(OpCode { code: 0x6E, name: "ROR", bytes: 3, cycles: 6, address_mode: Absolute }),
        0x7E => Some(OpCode { code: 0x7E, name: "ROR", bytes: 3, cycles: 7, address_mode: Absolute_X }),
        0x10 => Some(OpCode { code: 0x10, name: "BPL", bytes: 2, cycles: 2, address_mode: NoneAddressing }),
        0x30 => Some(OpCode { code: 0x30, name: "BMI", bytes: 2, cycles: 2, address_mode: NoneAddressing }),
        0x50 => Some(OpCode { code: 0x50, name: "BVC", bytes: 2, cycles: 2, address_mode: NoneAddressing }),
        0x70 => Some(OpCode { code: 0x70, name: "BVS", bytes: 2, cycles: 2, address_mode: NoneAddressing }),
        0x90 => Some(OpCode { code: 0x90, name: "BCC", bytes: 2, cycles: 2, address_mode: NoneAddressing }),
        0xB0 => Some(OpCode { code: 0xB0, name: "BCS", bytes: 2, cycles: 2, address_mode: NoneAddressing }),
        0xD0 => Some(OpCode { code: 0xD0, name: "BNE", bytes: 2, cycles: 2, address_mode: NoneAddressing }),
        0xF0 => Some(OpCode { code: 0xF0, name: "BEQ", bytes: 2, cycles: 2, address_mode: NoneAddressing }),
        0x4C => Some(OpCode { code: 0x4C, name: "JMP", bytes: 3, cycles: 3, address_mode: Absolute }),
        0x6C => Some(OpCode { code: 0x6C, name: "JMP", bytes: 3, cycles: 5, address_mode: NoneAddressing }),
        0x20 => Some(OpCode { code: 0x20, name: "JSR", bytes: 3, cycles: 6, address_mode: Absolute }),
        0x60 => Some(OpCode { code: 0x60, name: "RTS", bytes: 1, cycles: 6, address_mode: NoneAddressing }),
        0x40 => Some(OpCode { code: 0x40, name: "RTI", bytes: 1, cycles: 6, address_mode: NoneAddressing }),
        0x48 => Some(OpCode { code: 0x48, name: "PHA", bytes: 1, cycles: 3, address_mode: NoneAddressing }),
        0x68 => Some(OpCode { code: 0x68, name: "PLA", bytes: 1, cycles: 4, address_mode: NoneAddressing }),
        0x08 => Some(OpCode { code: 0x08, name: "PHP", bytes: 1, cycles: 3, address_mode: NoneAddressing }),
        0x28 => Some(OpCode { code: 0x28, name: "PLP", bytes: 1, cycles: 4, address_mode: NoneAddressing }),
        0x18 => Some(OpCode { code: 0x18, name: "CLC", bytes: 1, cycles: 2, address_mode: NoneAddressing }),
        0x38 => Some(OpCode { code: 0x38, name: "SEC", bytes: 1, cycles: 2, address_mode: NoneAddressing }),
        0x58 => Some(OpCode { code: 0x58, name: "CLI", bytes: 1, cycles: 2, address_mode: NoneAddressing }),
        0x78 => Some(OpCode { code: 0x78, name: "SEI", bytes: 1, cycles: 2, address_mode: NoneAddressing }),
        0xB8 => Some(OpCode { code: 0xB8, name: "CLV", bytes: 1, cycles: 2, address_mode: NoneAddressing }),
        0xD8 => Some(OpCode { code: 0xD8, name: "CLD", bytes: 1, cycles: 2, address_mode: NoneAddressing }),
        0xF8 => Some(OpCode { code: 0xF8, name: "SED", bytes: 1, cycles: 2, address_mode: NoneAddressing }),
        0xEA => Some(OpCode { code: 0xEA, name: "NOP", bytes: 1, cycles: 2, address_mode: NoneAddressing }),
        _ => None,
    }
}

/// Every row is filed under its own opcode byte, is one to three bytes long,
/// and, where it names an addressing mode, is as long as the opcode plus the
/// operand bytes of that mode.
pub proof fn law_table_rows(code: u8)
    ensures
        match table(code) {
            Some(row) => {
                &&& row.code == code
                &&& 1 <= row.bytes <= 3
                &&& row.address_mode != NoneAddressing ==> row.bytes == 1 + operand_bytes(
                    row.address_mode,
                )
            },
            None => true,
        },
{
}

} // verus!
