//! The catalog of 6502 instruction variants, indexed by raw byte and by
//! (mnemonic, addressing mode). Every documented instruction appears
//! exactly once; each entry carries its encoded length and base cycle
//! count.

use vstd::prelude::*;

verus! {

/// The thirteen 6502 addressing modes.
#[derive(Clone, Copy, Debug, PartialEq, Eq, Structural)]
pub enum AddressingMode {
    Implied,
    Accumulator,
    Immediate,
    Relative,
    ZeroPage,
    ZeroPageX,
    ZeroPageY,
    Absolute,
    AbsoluteX,
    AbsoluteY,
    Indirect,
    IndirectX,
    IndirectY,
}

/// The 56 documented 6502 instruction mnemonics.
#[derive(Clone, Copy, Debug, PartialEq, Eq, Structural)]
pub enum Mnemonic {
    ADC, AND, ASL, BCC, BCS, BEQ, BIT, BMI,
    BNE, BPL, BRK, BVC, BVS, CLC, CLD, CLI,
    CLV, CMP, CPX, CPY, DEC, DEX, DEY, EOR,
    INC, INX, INY, JMP, JSR, LDA, LDX, LDY,
    LSR, NOP, ORA, PHA, PHP, PLA, PLP, ROL,
    ROR, RTI, RTS, SBC, SEC, SED, SEI, STA,
    STX, STY, TAX, TAY, TSX, TXA, TXS, TYA,
}

/// One entry of the opcode table: a (mnemonic, addressing mode) pair with
/// its raw encoding byte, total encoded length in bytes (opcode plus
/// operand) and base cycle count.
#[derive(Clone, Copy, Debug, PartialEq, Eq, Structural)]
pub struct OpCode {
    pub mnemonic: Mnemonic,
    pub code: u8,
    pub mode: AddressingMode,
    pub length: u8,
    pub time: u8,
}

/// The number of bytes an instruction of the given addressing mode
/// occupies: the opcode byte plus its operand bytes.
pub open spec fn spec_mode_length(mode: AddressingMode) -> u8 {
    match mode {
        AddressingMode::Implied => 1,
        AddressingMode::Accumulator => 1,
        AddressingMode::Immediate => 2,
        AddressingMode::Relative => 2,
        AddressingMode::ZeroPage => 2,
        AddressingMode::ZeroPageX => 2,
        AddressingMode::ZeroPageY => 2,
        AddressingMode::Absolute => 3,
        AddressingMode::AbsoluteX => 3,
        AddressingMode::AbsoluteY => 3,
        AddressingMode::Indirect => 3,
        AddressingMode::IndirectX => 2,
        AddressingMode::IndirectY => 2,
    }
}

/// A table entry for the given mnemonic, byte, mode and cycle count; its
/// length is always the mode's natural size.
pub open spec fn spec_entry(m: Mnemonic, code: u8, mode: AddressingMode, time: u8) -> OpCode {
    OpCode { mnemonic: m, code: code, mode: mode, length: spec_mode_length(mode), time: time }
}

/// The upper-case form of an ASCII letter; any other character is left
/// unchanged. Mnemonics, register names and directives compare
/// case-insensitively through this map.
pub open spec fn spec_upper_char(c: char) -> char {
    match c {
        'a' => 'A',
        'b' => 'B',
        'c' => 'C',
        'd' => 'D',
        'e' => 'E',
        'f' => 'F',
        'g' => 'G',
        'h' => 'H',
        'i' => 'I',
        'j' => 'J',
        'k' => 'K',
        'l' => 'L',
        'm' => 'M',
        'n' => 'N',
        'o' => 'O',
        'p' => 'P',
        'q' => 'Q',
        'r' => 'R',
        's' => 'S',
        't' => 'T',
        'u' => 'U',
        'v' => 'V',
        'w' => 'W',
        'x' => 'X',
        'y' => 'Y',
        'z' => 'Z',
        _ => c,
    }
}

/// The opcode table indexed by raw byte: `None` for the undocumented
/// bytes.
pub open spec fn spec_from_raw_byte(b: u8) -> Option<OpCode> {
    match b {
        0x00 => Some(spec_entry(Mnemonic::BRK, b, AddressingMode::Implied, 7)),
        0x01 => Some(spec_entry(Mnemonic::ORA, b, AddressingMode::IndirectX, 6)),
        0x05 => Some(spec_entry(Mnemonic::ORA, b, AddressingMode::ZeroPage, 3)),
        0x06 => Some(spec_entry(Mnemonic::ASL, b, AddressingMode::ZeroPage, 5)),
        0x08 => Some(spec_entry(Mnemonic::PHP, b, AddressingMode::Implied, 3)),
        0x09 => Some(spec_entry(Mnemonic::ORA, b, AddressingMode::Immediate, 2)),
        0x0A => Some(spec_entry(Mnemonic::ASL, b, AddressingMode::Accumulator, 2)),
        0x0D => Some(spec_entry(Mnemonic::ORA, b, AddressingMode::Absolute, 4)),
        0x0E => Some(spec_entry(Mnemonic::ASL, b, AddressingMode::Absolute, 6)),
        0x10 => Some(spec_entry(Mnemonic::BPL, b, AddressingMode::Relative, 2)),
        0x11 => Some(spec_entry(Mnemonic::ORA, b, AddressingMode::IndirectY, 5)),
        0x15 => Some(spec_entry(Mnemonic::ORA, b, AddressingMode::ZeroPageX, 4)),
        0x16 => Some(spec_entry(Mnemonic::ASL, b, AddressingMode::ZeroPageX, 6)),
        0x18 => Some(spec_entry(Mnemonic::CLC, b, AddressingMode::Implied, 2)),
        0x19 => Some(spec_entry(Mnemonic::ORA, b, AddressingMode::AbsoluteY, 4)),
        0x1D => Some(spec_entry(Mnemonic::ORA, b, AddressingMode::AbsoluteX, 4)),
        0x1E => Some(spec_entry(Mnemonic::ASL, b, AddressingMode::AbsoluteX, 7)),
        0x20 => Some(spec_entry(Mnemonic::JSR, b, AddressingMode::Absolute, 6)),
        0x21 => Some(spec_entry(Mnemonic::AND, b, AddressingMode::IndirectX, 6)),
        0x24 => Some(spec_entry(Mnemonic::BIT, b, AddressingMode::ZeroPage, 3)),
        0x25 => Some(spec_entry(Mnemonic::AND, b, AddressingMode::ZeroPage, 3)),
        0x26 => Some(spec_entry(Mnemonic::ROL, b, AddressingMode::ZeroPage, 5)),
        0x28 => Some(spec_entry(Mnemonic::PLP, b, AddressingMode::Implied, 4)),
        0x29 => Some(spec_entry(Mnemonic::AND, b, AddressingMode::Immediate, 2)),
        0x2A => Some(spec_entry(Mnemonic::ROL, b, AddressingMode::Accumulator, 2)),
        0x2C => Some(spec_entry(Mnemonic::BIT, b, AddressingMode::Absolute, 4)),
        0x2D => Some(spec_entry(Mnemonic::AND, b, AddressingMode::Absolute, 4)),
        0x2E => Some(spec_entry(Mnemonic::ROL, b, AddressingMode::Absolute, 6)),
        0x30 => Some(spec_entry(Mnemonic::BMI, b, AddressingMode::Relative, 2)),
        0x31 => Some(spec_entry(Mnemonic::AND, b, AddressingMode::IndirectY, 5)),
        0x35 => Some(spec_entry(Mnemonic::AND, b, AddressingMode::ZeroPageX, 4)),
        0x36 => Some(spec_entry(Mnemonic::ROL, b, AddressingMode::ZeroPageX, 6)),
        0x38 => Some(spec_entry(Mnemonic::SEC, b, AddressingMode::Implied, 2)),
        0x39 => Some(spec_entry(Mnemonic::AND, b, AddressingMode::AbsoluteY, 4)),
        0x3D => Some(spec_entry(Mnemonic::AND, b, AddressingMode::AbsoluteX, 4)),
        0x3E => Some(spec_entry(Mnemonic::ROL, b, AddressingMode::AbsoluteX, 7)),
        0x40 => Some(spec_entry(Mnemonic::RTI, b, AddressingMode::Implied, 6)),
        0x41 => Some(spec_entry(Mnemonic::EOR, b, AddressingMode::IndirectX, 6)),
        0x45 => Some(spec_entry(Mnemonic::EOR, b, AddressingMode::ZeroPage, 3)),
        0x46 => Some(spec_entry(Mnemonic::LSR, b, AddressingMode::ZeroPage, 5)),
        0x48 => Some(spec_entry(Mnemonic::PHA, b, AddressingMode::Implied, 3)),
        0x49 => Some(spec_entry(Mnemonic::EOR, b, AddressingMode::Immediate, 2)),
        0x4A => Some(spec_entry(Mnemonic::LSR, b, AddressingMode::Accumulator, 2)),
        0x4C => Some(spec_entry(Mnemonic::JMP, b, AddressingMode::Absolute, 3)),
        0x4D => Some(spec_entry(Mnemonic::EOR, b, AddressingMode::Absolute, 4)),
        0x4E => Some(spec_entry(Mnemonic::LSR, b, AddressingMode::Absolute, 6)),
        0x50 => Some(spec_entry(Mnemonic::BVC, b, AddressingMode::Relative, 2)),
        0x51 => Some(spec_entry(Mnemonic::EOR, b, AddressingMode::IndirectY, 5)),
        0x55 => Some(spec_entry(Mnemonic::EOR, b, AddressingMode::ZeroPageX, 4)),
        0x56 => Some(spec_entry(Mnemonic::LSR, b, AddressingMode::ZeroPageX, 6)),
        0x58 => Some(spec_entry(Mnemonic::CLI, b, AddressingMode::Implied, 2)),
        0x59 => Some(spec_entry(Mnemonic::EOR, b, AddressingMode::AbsoluteY, 4)),
        0x5D => Some(spec_entry(Mnemonic::EOR, b, AddressingMode::AbsoluteX, 4)),
        0x5E => Some(spec_entry(Mnemonic::LSR, b, AddressingMode::AbsoluteX, 7)),
        0x60 => Some(spec_entry(Mnemonic::RTS, b, AddressingMode::Implied, 6)),
        0x61 => Some(spec_entry(Mnemonic::ADC, b, AddressingMode::IndirectX, 6)),
        0x65 => Some(spec_entry(Mnemonic::ADC, b, AddressingMode::ZeroPage, 3)),
        0x66 => Some(spec_entry(Mnemonic::ROR, b, AddressingMode::ZeroPage, 5)),
        0x68 => Some(spec_entry(Mnemonic::PLA, b, AddressingMode::Implied, 4)),
        0x69 => Some(spec_entry(Mnemonic::ADC, b, AddressingMode::Immediate, 2)),
        0x6A => Some(spec_entry(Mnemonic::ROR, b, AddressingMode::Accumulator, 2)),
        0x6C => Some(spec_entry(Mnemonic::JMP, b, AddressingMode::Indirect, 5)),
        0x6D => Some(spec_entry(Mnemonic::ADC, b, AddressingMode::Absolute, 4)),
        0x6E => Some(spec_entry(Mnemonic::ROR, b, AddressingMode::Absolute, 6)),
        0x70 => Some(spec_entry(Mnemonic::BVS, b, AddressingMode::Relative, 2)),
        0x71 => Some(spec_entry(Mnemonic::ADC, b, AddressingMode::IndirectY, 5)),
        0x75 => Some(spec_entry(Mnemonic::ADC, b, AddressingMode::ZeroPageX, 4)),
        0x76 => Some(spec_entry(Mnemonic::ROR, b, AddressingMode::ZeroPageX, 6)),
        0x78 => Some(spec_entry(Mnemonic::SEI, b, AddressingMode::Implied, 2)),
        0x79 => Some(spec_entry(Mnemonic::ADC, b, AddressingMode::AbsoluteY, 4)),
        0x7D => Some(spec_entry(Mnemonic::ADC, b, AddressingMode::AbsoluteX, 4)),
        0x7E => Some(spec_entry(Mnemonic::ROR, b, AddressingMode::AbsoluteX, 7)),
        0x81 => Some(spec_entry(Mnemonic::STA, b, AddressingMode::IndirectX, 6)),
        0x84 => Some(spec_entry(Mnemonic::STY, b, AddressingMode::ZeroPage, 3)),
        0x85 => Some(spec_entry(Mnemonic::STA, b, AddressingMode::ZeroPage, 3)),
        0x86 => Some(spec_entry(Mnemonic::STX, b, AddressingMode::ZeroPage, 3)),
        0x88 => Some(spec_entry(Mnemonic::DEY, b, AddressingMode::Implied, 2)),
        0x8A => Some(spec_entry(Mnemonic::TXA, b, AddressingMode::Implied, 2)),
        0x8C => Some(spec_entry(Mnemonic::STY, b, AddressingMode::Absolute, 4)),
        0x8D => Some(spec_entry(Mnemonic::STA, b, AddressingMode::Absolute, 4)),
        0x8E => Some(spec_entry(Mnemonic::STX, b, AddressingMode::Absolute, 4)),
        0x90 => Some(spec_entry(Mnemonic::BCC, b, AddressingMode::Relative, 2)),
        0x91 => Some(spec_entry(Mnemonic::STA, b, AddressingMode::IndirectY, 6)),
        0x94 => Some(spec_entry(Mnemonic::STY, b, AddressingMode::ZeroPageX, 4)),
        0x95 => Some(spec_entry(Mnemonic::STA, b, AddressingMode::ZeroPageX, 4)),
        0x96 => Some(spec_entry(Mnemonic::STX, b, AddressingMode::ZeroPageY, 4)),
        0x98 => Some(spec_entry(Mnemonic::TYA, b, AddressingMode::Implied, 2)),
        0x99 => Some(spec_entry(Mnemonic::STA, b, AddressingMode::AbsoluteY, 5)),
        0x9A => Some(spec_entry(Mnemonic::TXS, b, AddressingMode::Implied, 2)),
        0x9D => Some(spec_entry(Mnemonic::STA, b, AddressingMode::AbsoluteX, 5)),
        0xA0 => Some(spec_entry(Mnemonic::LDY, b, AddressingMode::Immediate, 2)),
        0xA1 => Some(spec_entry(Mnemonic::LDA, b, AddressingMode::IndirectX, 6)),
        0xA2 => Some(spec_entry(Mnemonic::LDX, b, AddressingMode::Immediate, 2)),
        0xA4 => Some(spec_entry(Mnemonic::LDY, b, AddressingMode::ZeroPage, 3)),
        0xA5 => Some(spec_entry(Mnemonic::LDA, b, AddressingMode::ZeroPage, 3)),
        0xA6 => Some(spec_entry(Mnemonic::LDX, b, AddressingMode::ZeroPage, 3)),
        0xA8 => Some(spec_entry(Mnemonic::TAY, b, AddressingMode::Implied, 2)),
        0xA9 => Some(spec_entry(Mnemonic::LDA, b, AddressingMode::Immediate, 2)),
        0xAA => Some(spec_entry(Mnemonic::TAX, b, AddressingMode::Implied, 2)),
        0xAC => Some(spec_entry(Mnemonic::LDY, b, AddressingMode::Absolute, 4)),
        0xAD => Some(spec_entry(Mnemonic::LDA, b, AddressingMode::Absolute, 4)),
        0xAE => Some(spec_entry(Mnemonic::LDX, b, AddressingMode::Absolute, 4)),
        0xB0 => Some(spec_entry(Mnemonic::BCS, b, AddressingMode::Relative, 2)),
        0xB1 => Some(spec_entry(Mnemonic::LDA, b, AddressingMode::IndirectY, 5)),
        0xB4 => Some(spec_entry(Mnemonic::LDY, b, AddressingMode::ZeroPageX, 4)),
        0xB5 => Some(spec_entry(Mnemonic::LDA, b, AddressingMode::ZeroPageX, 4)),
        0xB6 => Some(spec_entry(Mnemonic::LDX, b, AddressingMode::ZeroPageY, 4)),
        0xB8 => Some(spec_entry(Mnemonic::CLV, b, AddressingMode::Implied, 2)),
        0xB9 => Some(spec_entry(Mnemonic::LDA, b, AddressingMode::AbsoluteY, 4)),
        0xBA => Some(spec_entry(Mnemonic::TSX, b, AddressingMode::Implied, 2)),
        0xBC => Some(spec_entry(Mnemonic::LDY, b, AddressingMode::AbsoluteX, 4)),
        0xBD => Some(spec_entry(Mnemonic::LDA, b, AddressingMode::AbsoluteX, 4)),
        0xBE => Some(spec_entry(Mnemonic::LDX, b, AddressingMode::AbsoluteY, 4)),
        0xC0 => Some(spec_entry(Mnemonic::CPY, b, AddressingMode::Immediate, 2)),
        0xC1 => Some(spec_entry(Mnemonic::CMP, b, AddressingMode::IndirectX, 6)),
        0xC4 => Some(spec_entry(Mnemonic::CPY, b, AddressingMode::ZeroPage, 3)),
        0xC5 => Some(spec_entry(Mnemonic::CMP, b, AddressingMode::ZeroPage, 3)),
        0xC6 => Some(spec_entry(Mnemonic::DEC, b, AddressingMode::ZeroPage, 5)),
        0xC8 => Some(spec_entry(Mnemonic::INY, b, AddressingMode::Implied, 2)),
        0xC9 => Some(spec_entry(Mnemonic::CMP, b, AddressingMode::Immediate, 2)),
        0xCA => Some(spec_entry(Mnemonic::DEX, b, AddressingMode::Implied, 2)),
        0xCC => Some(spec_entry(Mnemonic::CPY, b, AddressingMode::Absolute, 4)),
        0xCD => Some(spec_entry(Mnemonic::CMP, b, AddressingMode::Absolute, 4)),
        0xCE => Some(spec_entry(Mnemonic::DEC, b, AddressingMode::Absolute, 6)),
        0xD0 => Some(spec_entry(Mnemonic::BNE, b, AddressingMode::Relative, 2)),
        0xD1 => Some(spec_entry(Mnemonic::CMP, b, AddressingMode::IndirectY, 5)),
        0xD5 => Some(spec_entry(Mnemonic::CMP, b, AddressingMode::ZeroPageX, 4)),
        0xD6 => Some(spec_entry(Mnemonic::DEC, b, AddressingMode::ZeroPageX, 6)),
        0xD8 => Some(spec_entry(Mnemonic::CLD, b, AddressingMode::Implied, 2)),
        0xD9 => Some(spec_entry(Mnemonic::CMP, b, AddressingMode::AbsoluteY, 4)),
        0xDD => Some(spec_entry(Mnemonic::CMP, b, AddressingMode::AbsoluteX, 4)),
        0xDE => Some(spec_entry(Mnemonic::DEC, b, AddressingMode::AbsoluteX, 7)),
        0xE0 => Some(spec_entry(Mnemonic::CPX, b, AddressingMode::Immediate, 2)),
        0xE1 => Some(spec_entry(Mnemonic::SBC, b, AddressingMode::IndirectX, 6)),
        0xE4 => Some(spec_entry(Mnemonic::CPX, b, AddressingMode::ZeroPage, 3)),
        0xE5 => Some(spec_entry(Mnemonic::SBC, b, AddressingMode::ZeroPage, 3)),
        0xE6 => Some(spec_entry(Mnemonic::INC, b, AddressingMode::ZeroPage, 5)),
        0xE8 => Some(spec_entry(Mnemonic::INX, b, AddressingMode::Implied, 2)),
        0xE9 => Some(spec_entry(Mnemonic::SBC, b, AddressingMode::Immediate, 2)),
        0xEA => Some(spec_entry(Mnemonic::NOP, b, AddressingMode::Implied, 2)),
        0xEC => Some(spec_entry(Mnemonic::CPX, b, AddressingMode::Absolute, 4)),
        0xED => Some(spec_entry(Mnemonic::SBC, b, AddressingMode::Absolute, 4)),
        0xEE => Some(spec_entry(Mnemonic::INC, b, AddressingMode::Absolute, 6)),
        0xF0 => Some(spec_entry(Mnemonic::BEQ, b, AddressingMode::Relative, 2)),
        0xF1 => Some(spec_entry(Mnemonic::SBC, b, AddressingMode::IndirectY, 5)),
        0xF5 => Some(spec_entry(Mnemonic::SBC, b, AddressingMode::ZeroPageX, 4)),
        0xF6 => Some(spec_entry(Mnemonic::INC, b, AddressingMode::ZeroPageX, 6)),
        0xF8 => Some(spec_entry(Mnemonic::SED, b, AddressingMode::Implied, 2)),
        0xF9 => Some(spec_entry(Mnemonic::SBC, b, AddressingMode::AbsoluteY, 4)),
        0xFD => Some(spec_entry(Mnemonic::SBC, b, AddressingMode::AbsoluteX, 4)),
        0xFE => Some(spec_entry(Mnemonic::INC, b, AddressingMode::AbsoluteX, 7)),
        _ => None,
    }
}

/// The opcode table indexed by (mnemonic, addressing mode): `None` for
/// the pairs the 6502 does not support.
pub open spec fn spec_opcode(m: Mnemonic, mode: AddressingMode) -> Option<OpCode> {
    match (m, mode) {
        (Mnemonic::ADC, AddressingMode::Immediate) => Some(spec_entry(Mnemonic::ADC, 0x69, AddressingMode::Immediate, 2)),
        (Mnemonic::ADC, AddressingMode::ZeroPage) => Some(spec_entry(Mnemonic::ADC, 0x65, AddressingMode::ZeroPage, 3)),
        (Mnemonic::ADC, AddressingMode::ZeroPageX) => Some(spec_entry(Mnemonic::ADC, 0x75, AddressingMode::ZeroPageX, 4)),
        (Mnemonic::ADC, AddressingMode::Absolute) => Some(spec_entry(Mnemonic::ADC, 0x6D, AddressingMode::Absolute, 4)),
        (Mnemonic::ADC, AddressingMode::AbsoluteX) => Some(spec_entry(Mnemonic::ADC, 0x7D, AddressingMode::AbsoluteX, 4)),
        (Mnemonic::ADC, AddressingMode::AbsoluteY) => Some(spec_entry(Mnemonic::ADC, 0x79, AddressingMode::AbsoluteY, 4)),
        (Mnemonic::ADC, AddressingMode::IndirectX) => Some(spec_entry(Mnemonic::ADC, 0x61, AddressingMode::IndirectX, 6)),
        (Mnemonic::ADC, AddressingMode::IndirectY) => Some(spec_entry(Mnemonic::ADC, 0x71, AddressingMode::IndirectY, 5)),
        (Mnemonic::AND, AddressingMode::Immediate) => Some(spec_entry(Mnemonic::AND, 0x29, AddressingMode::Immediate, 2)),
        (Mnemonic::AND, AddressingMode::ZeroPage) => Some(spec_entry(Mnemonic::AND, 0x25, AddressingMode::ZeroPage, 3)),
        (Mnemonic::AND, AddressingMode::ZeroPageX) => Some(spec_entry(Mnemonic::AND, 0x35, AddressingMode::ZeroPageX, 4)),
        (Mnemonic::AND, AddressingMode::Absolute) => Some(spec_entry(Mnemonic::AND, 0x2D, AddressingMode::Absolute, 4)),
        (Mnemonic::AND, AddressingMode::AbsoluteX) => Some(spec_entry(Mnemonic::AND, 0x3D, AddressingMode::AbsoluteX, 4)),
        (Mnemonic::AND, AddressingMode::AbsoluteY) => Some(spec_entry(Mnemonic::AND, 0x39, AddressingMode::AbsoluteY, 4)),
        (Mnemonic::AND, AddressingMode::IndirectX) => Some(spec_entry(Mnemonic::AND, 0x21, AddressingMode::IndirectX, 6)),
        (Mnemonic::AND, AddressingMode::IndirectY) => Some(spec_entry(Mnemonic::AND, 0x31, AddressingMode::IndirectY, 5)),
        (Mnemonic::ASL, AddressingMode::Accumulator) => Some(spec_entry(Mnemonic::ASL, 0x0A, AddressingMode::Accumulator, 2)),
        (Mnemonic::ASL, AddressingMode::ZeroPage) => Some(spec_entry(Mnemonic::ASL, 0x06, AddressingMode::ZeroPage, 5)),
        (Mnemonic::ASL, AddressingMode::ZeroPageX) => Some(spec_entry(Mnemonic::ASL, 0x16, AddressingMode::ZeroPageX, 6)),
        (Mnemonic::ASL, AddressingMode::Absolute) => Some(spec_entry(Mnemonic::ASL, 0x0E, AddressingMode::Absolute, 6)),
        (Mnemonic::ASL, AddressingMode::AbsoluteX) => Some(spec_entry(Mnemonic::ASL, 0x1E, AddressingMode::AbsoluteX, 7)),
        (Mnemonic::BCC, AddressingMode::Relative) => Some(spec_entry(Mnemonic::BCC, 0x90, AddressingMode::Relative, 2)),
        (Mnemonic::BCS, AddressingMode::Relative) => Some(spec_entry(Mnemonic::BCS, 0xB0, AddressingMode::Relative, 2)),
        (Mnemonic::BEQ, AddressingMode::Relative) => Some(spec_entry(Mnemonic::BEQ, 0xF0, AddressingMode::Relative, 2)),
        (Mnemonic::BMI, AddressingMode::Relative) => Some(spec_entry(Mnemonic::BMI, 0x30, AddressingMode::Relative, 2)),
        (Mnemonic::BNE, AddressingMode::Relative) => Some(spec_entry(Mnemonic::BNE, 0xD0, AddressingMode::Relative, 2)),
        (Mnemonic::BPL, AddressingMode::Relative) => Some(spec_entry(Mnemonic::BPL, 0x10, AddressingMode::Relative, 2)),
        (Mnemonic::BVC, AddressingMode::Relative) => Some(spec_entry(Mnemonic::BVC, 0x50, AddressingMode::Relative, 2)),
        (Mnemonic::BVS, AddressingMode::Relative) => Some(spec_entry(Mnemonic::BVS, 0x70, AddressingMode::Relative, 2)),
        (Mnemonic::BIT, AddressingMode::ZeroPage) => Some(spec_entry(Mnemonic::BIT, 0x24, AddressingMode::ZeroPage, 3)),
        (Mnemonic::BIT, AddressingMode::Absolute) => Some(spec_entry(Mnemonic::BIT, 0x2C, AddressingMode::Absolute, 4)),
        (Mnemonic::BRK, AddressingMode::Implied) => Some(spec_entry(Mnemonic::BRK, 0x00, AddressingMode::Implied, 7)),
        (Mnemonic::CLC, AddressingMode::Implied) => Some(spec_entry(Mnemonic::CLC, 0x18, AddressingMode::Implied, 2)),
        (Mnemonic::CLD, AddressingMode::Implied) => Some(spec_entry(Mnemonic::CLD, 0xD8, AddressingMode::Implied, 2)),
        (Mnemonic::CLI, AddressingMode::Implied) => Some(spec_entry(Mnemonic::CLI, 0x58, AddressingMode::Implied, 2)),
        (Mnemonic::CLV, AddressingMode::Implied) => Some(spec_entry(Mnemonic::CLV, 0xB8, AddressingMode::Implied, 2)),
        (Mnemonic::CMP, AddressingMode::Immediate) => Some(spec_entry(Mnemonic::CMP, 0xC9, AddressingMode::Immediate, 2)),
        (Mnemonic::CMP, AddressingMode::ZeroPage) => Some(spec_entry(Mnemonic::CMP, 0xC5, AddressingMode::ZeroPage, 3)),
        (Mnemonic::CMP, AddressingMode::ZeroPageX) => Some(spec_entry(Mnemonic::CMP, 0xD5, AddressingMode::ZeroPageX, 4)),
        (Mnemonic::CMP, AddressingMode::Absolute) => Some(spec_entry(Mnemonic::CMP, 0xCD, AddressingMode::Absolute, 4)),
        (Mnemonic::CMP, AddressingMode::AbsoluteX) => Some(spec_entry(Mnemonic::CMP, 0xDD, AddressingMode::AbsoluteX, 4)),
        (Mnemonic::CMP, AddressingMode::AbsoluteY) => Some(spec_entry(Mnemonic::CMP, 0xD9, AddressingMode::AbsoluteY, 4)),
        (Mnemonic::CMP, AddressingMode::IndirectX) => Some(spec_entry(Mnemonic::CMP, 0xC1, AddressingMode::IndirectX, 6)),
        (Mnemonic::CMP, AddressingMode::IndirectY) => Some(spec_entry(Mnemonic::CMP, 0xD1, AddressingMode::IndirectY, 5)),
        (Mnemonic::CPX, AddressingMode::Immediate) => Some(spec_entry(Mnemonic::CPX, 0xE0, AddressingMode::Immediate, 2)),
        (Mnemonic::CPX, AddressingMode::ZeroPage) => Some(spec_entry(Mnemonic::CPX, 0xE4, AddressingMode::ZeroPage, 3)),
        (Mnemonic::CPX, AddressingMode::Absolute) => Some(spec_entry(Mnemonic::CPX, 0xEC, AddressingMode::Absolute, 4)),
        (Mnemonic::CPY, AddressingMode::Immediate) => Some(spec_entry(Mnemonic::CPY, 0xC0, AddressingMode::Immediate, 2)),
        (Mnemonic::CPY, AddressingMode::ZeroPage) => Some(spec_entry(Mnemonic::CPY, 0xC4, AddressingMode::ZeroPage, 3)),
        (Mnemonic::CPY, AddressingMode::Absolute) => Some(spec_entry(Mnemonic::CPY, 0xCC, AddressingMode::Absolute, 4)),
        (Mnemonic::DEC, AddressingMode::ZeroPage) => Some(spec_entry(Mnemonic::DEC, 0xC6, AddressingMode::ZeroPage, 5)),
        (Mnemonic::DEC, AddressingMode::ZeroPageX) => Some(spec_entry(Mnemonic::DEC, 0xD6, AddressingMode::ZeroPageX, 6)),
        (Mnemonic::DEC, AddressingMode::Absolute) => Some(spec_entry(Mnemonic::DEC, 0xCE, AddressingMode::Absolute, 6)),
        (Mnemonic::DEC, AddressingMode::AbsoluteX) => Some(spec_entry(Mnemonic::DEC, 0xDE, AddressingMode::AbsoluteX, 7)),
        (Mnemonic::DEX, AddressingMode::Implied) => Some(spec_entry(Mnemonic::DEX, 0xCA, AddressingMode::Implied, 2)),
        (Mnemonic::DEY, AddressingMode::Implied) => Some(spec_entry(Mnemonic::DEY, 0x88, AddressingMode::Implied, 2)),
        (Mnemonic::EOR, AddressingMode::Immediate) => Some(spec_entry(Mnemonic::EOR, 0x49, AddressingMode::Immediate, 2)),
        (Mnemonic::EOR, AddressingMode::ZeroPage) => Some(spec_entry(Mnemonic::EOR, 0x45, AddressingMode::ZeroPage, 3)),
        (Mnemonic::EOR, AddressingMode::ZeroPageX) => Some(spec_entry(Mnemonic::EOR, 0x55, AddressingMode::ZeroPageX, 4)),
        (Mnemonic::EOR, AddressingMode::Absolute) => Some(spec_entry(Mnemonic::EOR, 0x4D, AddressingMode::Absolute, 4)),
        (Mnemonic::EOR, AddressingMode::AbsoluteX) => Some(spec_entry(Mnemonic::EOR, 0x5D, AddressingMode::AbsoluteX, 4)),
        (Mnemonic::EOR, AddressingMode::AbsoluteY) => Some(spec_entry(Mnemonic::EOR, 0x59, AddressingMode::AbsoluteY, 4)),
        (Mnemonic::EOR, AddressingMode::IndirectX) => Some(spec_entry(Mnemonic::EOR, 0x41, AddressingMode::IndirectX, 6)),
        (Mnemonic::EOR, AddressingMode::IndirectY) => Some(spec_entry(Mnemonic::EOR, 0x51, AddressingMode::IndirectY, 5)),
        (Mnemonic::INC, AddressingMode::ZeroPage) => Some(spec_entry(Mnemonic::INC, 0xE6, AddressingMode::ZeroPage, 5)),
        (Mnemonic::INC, AddressingMode::ZeroPageX) => Some(spec_entry(Mnemonic::INC, 0xF6, AddressingMode::ZeroPageX, 6)),
        (Mnemonic::INC, AddressingMode::Absolute) => Some(spec_entry(Mnemonic::INC, 0xEE, AddressingMode::Absolute, 6)),
        (Mnemonic::INC, AddressingMode::AbsoluteX) => Some(spec_entry(Mnemonic::INC, 0xFE, AddressingMode::AbsoluteX, 7)),
        (Mnemonic::INX, AddressingMode::Implied) => Some(spec_entry(Mnemonic::INX, 0xE8, AddressingMode::Implied, 2)),
        (Mnemonic::INY, AddressingMode::Implied) => Some(spec_entry(Mnemonic::INY, 0xC8, AddressingMode::Implied, 2)),
        (Mnemonic::JMP, AddressingMode::Absolute) => Some(spec_entry(Mnemonic::JMP, 0x4C, AddressingMode::Absolute, 3)),
        (Mnemonic::JMP, AddressingMode::Indirect) => Some(spec_entry(Mnemonic::JMP, 0x6C, AddressingMode::Indirect, 5)),
        (Mnemonic::JSR, AddressingMode::Absolute) => Some(spec_entry(Mnemonic::JSR, 0x20, AddressingMode::Absolute, 6)),
        (Mnemonic::LDA, AddressingMode::Immediate) => Some(spec_entry(Mnemonic::LDA, 0xA9, AddressingMode::Immediate, 2)),
        (Mnemonic::LDA, AddressingMode::ZeroPage) => Some(spec_entry(Mnemonic::LDA, 0xA5, AddressingMode::ZeroPage, 3)),
        (Mnemonic::LDA, AddressingMode::ZeroPageX) => Some(spec_entry(Mnemonic::LDA, 0xB5, AddressingMode::ZeroPageX, 4)),
        (Mnemonic::LDA, AddressingMode::Absolute) => Some(spec_entry(Mnemonic::LDA, 0xAD, AddressingMode::Absolute, 4)),
        (Mnemonic::LDA, AddressingMode::AbsoluteX) => Some(spec_entry(Mnemonic::LDA, 0xBD, AddressingMode::AbsoluteX, 4)),
        (Mnemonic::LDA, AddressingMode::AbsoluteY) => Some(spec_entry(Mnemonic::LDA, 0xB9, AddressingMode::AbsoluteY, 4)),
        (Mnemonic::LDA, AddressingMode::IndirectX) => Some(spec_entry(Mnemonic::LDA, 0xA1, AddressingMode::IndirectX, 6)),
        (Mnemonic::LDA, AddressingMode::IndirectY) => Some(spec_entry(Mnemonic::LDA, 0xB1, AddressingMode::IndirectY, 5)),
        (Mnemonic::LDX, AddressingMode::Immediate) => Some(spec_entry(Mnemonic::LDX, 0xA2, AddressingMode::Immediate, 2)),
        (Mnemonic::LDX, AddressingMode::ZeroPage) => Some(spec_entry(Mnemonic::LDX, 0xA6, AddressingMode::ZeroPage, 3)),
        (Mnemonic::LDX, AddressingMode::ZeroPageY) => Some(spec_entry(Mnemonic::LDX, 0xB6, AddressingMode::ZeroPageY, 4)),
        (Mnemonic::LDX, AddressingMode::Absolute) => Some(spec_entry(Mnemonic::LDX, 0xAE, AddressingMode::Absolute, 4)),
        (Mnemonic::LDX, AddressingMode::AbsoluteY) => Some(spec_entry(Mnemonic::LDX, 0xBE, AddressingMode::AbsoluteY, 4)),
        (Mnemonic::LDY, AddressingMode::Immediate) => Some(spec_entry(Mnemonic::LDY, 0xA0, AddressingMode::Immediate, 2)),
        (Mnemonic::LDY, AddressingMode::ZeroPage) => Some(spec_entry(Mnemonic::LDY, 0xA4, AddressingMode::ZeroPage, 3)),
        (Mnemonic::LDY, AddressingMode::ZeroPageX) => Some(spec_entry(Mnemonic::LDY, 0xB4, AddressingMode::ZeroPageX, 4)),
        (Mnemonic::LDY, AddressingMode::Absolute) => Some(spec_entry(Mnemonic::LDY, 0xAC, AddressingMode::Absolute, 4)),
        (Mnemonic::LDY, AddressingMode::AbsoluteX) => Some(spec_entry(Mnemonic::LDY, 0xBC, AddressingMode::AbsoluteX, 4)),
        (Mnemonic::LSR, AddressingMode::Accumulator) => Some(spec_entry(Mnemonic::LSR, 0x4A, AddressingMode::Accumulator, 2)),
        (Mnemonic::LSR, AddressingMode::ZeroPage) => Some(spec_entry(Mnemonic::LSR, 0x46, AddressingMode::ZeroPage, 5)),
        (Mnemonic::LSR, AddressingMode::ZeroPageX) => Some(spec_entry(Mnemonic::LSR, 0x56, AddressingMode::ZeroPageX, 6)),
        (Mnemonic::LSR, AddressingMode::Absolute) => Some(spec_entry(Mnemonic::LSR, 0x4E, AddressingMode::Absolute, 6)),
        (Mnemonic::LSR, AddressingMode::AbsoluteX) => Some(spec_entry(Mnemonic::LSR, 0x5E, AddressingMode::AbsoluteX, 7)),
        (Mnemonic::NOP, AddressingMode::Implied) => Some(spec_entry(Mnemonic::NOP, 0xEA, AddressingMode::Implied, 2)),
        (Mnemonic::ORA, AddressingMode::Immediate) => Some(spec_entry(Mnemonic::ORA, 0x09, AddressingMode::Immediate, 2)),
        (Mnemonic::ORA, AddressingMode::ZeroPage) => Some(spec_entry(Mnemonic::ORA, 0x05, AddressingMode::ZeroPage, 3)),
        (Mnemonic::ORA, AddressingMode::ZeroPageX) => Some(spec_entry(Mnemonic::ORA, 0x15, AddressingMode::ZeroPageX, 4)),
        (Mnemonic::ORA, AddressingMode::Absolute) => Some(spec_entry(Mnemonic::ORA, 0x0D, AddressingMode::Absolute, 4)),
        (Mnemonic::ORA, AddressingMode::AbsoluteX) => Some(spec_entry(Mnemonic::ORA, 0x1D, AddressingMode::AbsoluteX, 4)),
        (Mnemonic::ORA, AddressingMode::AbsoluteY) => Some(spec_entry(Mnemonic::ORA, 0x19, AddressingMode::AbsoluteY, 4)),
        (Mnemonic::ORA, AddressingMode::IndirectX) => Some(spec_entry(Mnemonic::ORA, 0x01, AddressingMode::IndirectX, 6)),
        (Mnemonic::ORA, AddressingMode::IndirectY) => Some(spec_entry(Mnemonic::ORA, 0x11, AddressingMode::IndirectY, 5)),
        (Mnemonic::PHA, AddressingMode::Implied) => Some(spec_entry(Mnemonic::PHA, 0x48, AddressingMode::Implied, 3)),
        (Mnemonic::PHP, AddressingMode::Implied) => Some(spec_entry(Mnemonic::PHP, 0x08, AddressingMode::Implied, 3)),
        (Mnemonic::PLA, AddressingMode::Implied) => Some(spec_entry(Mnemonic::PLA, 0x68, AddressingMode::Implied, 4)),
        (Mnemonic::PLP, AddressingMode::Implied) => Some(spec_entry(Mnemonic::PLP, 0x28, AddressingMode::Implied, 4)),
        (Mnemonic::ROL, AddressingMode::Accumulator) => Some(spec_entry(Mnemonic::ROL, 0x2A, AddressingMode::Accumulator, 2)),
        (Mnemonic::ROL, AddressingMode::ZeroPage) => Some(spec_entry(Mnemonic::ROL, 0x26, AddressingMode::ZeroPage, 5)),
        (Mnemonic::ROL, AddressingMode::ZeroPageX) => Some(spec_entry(Mnemonic::ROL, 0x36, AddressingMode::ZeroPageX, 6)),
        (Mnemonic::ROL, AddressingMode::Absolute) => Some(spec_entry(Mnemonic::ROL, 0x2E, AddressingMode::Absolute, 6)),
        (Mnemonic::ROL, AddressingMode::AbsoluteX) => Some(spec_entry(Mnemonic::ROL, 0x3E, AddressingMode::AbsoluteX, 7)),
        (Mnemonic::ROR, AddressingMode::Accumulator) => Some(spec_entry(Mnemonic::ROR, 0x6A, AddressingMode::Accumulator, 2)),
        (Mnemonic::ROR, AddressingMode::ZeroPage) => Some(spec_entry(Mnemonic::ROR, 0x66, AddressingMode::ZeroPage, 5)),
        (Mnemonic::ROR, AddressingMode::ZeroPageX) => Some(spec_entry(Mnemonic::ROR, 0x76, AddressingMode::ZeroPageX, 6)),
        (Mnemonic::ROR, AddressingMode::Absolute) => Some(spec_entry(Mnemonic::ROR, 0x6E, AddressingMode::Absolute, 6)),
        (Mnemonic::ROR, AddressingMode::AbsoluteX) => Some(spec_entry(Mnemonic::ROR, 0x7E, AddressingMode::AbsoluteX, 7)),
        (Mnemonic::RTI, AddressingMode::Implied) => Some(spec_entry(Mnemonic::RTI, 0x40, AddressingMode::Implied, 6)),
        (Mnemonic::RTS, AddressingMode::Implied) => Some(spec_entry(Mnemonic::RTS, 0x60, AddressingMode::Implied, 6)),
        (Mnemonic::SBC, AddressingMode::Immediate) => Some(spec_entry(Mnemonic::SBC, 0xE9, AddressingMode::Immediate, 2)),
        (Mnemonic::SBC, AddressingMode::ZeroPage) => Some(spec_entry(Mnemonic::SBC, 0xE5, AddressingMode::ZeroPage, 3)),
        (Mnemonic::SBC, AddressingMode::ZeroPageX) => Some(spec_entry(Mnemonic::SBC, 0xF5, AddressingMode::ZeroPageX, 4)),
        (Mnemonic::SBC, AddressingMode::Absolute) => Some(spec_entry(Mnemonic::SBC, 0xED, AddressingMode::Absolute, 4)),
        (Mnemonic::SBC, AddressingMode::AbsoluteX) => Some(spec_entry(Mnemonic::SBC, 0xFD, AddressingMode::AbsoluteX, 4)),
        (Mnemonic::SBC, AddressingMode::AbsoluteY) => Some(spec_entry(Mnemonic::SBC, 0xF9, AddressingMode::AbsoluteY, 4)),
        (Mnemonic::SBC, AddressingMode::IndirectX) => Some(spec_entry(Mnemonic::SBC, 0xE1, AddressingMode::IndirectX, 6)),
        (Mnemonic::SBC, AddressingMode::IndirectY) => Some(spec_entry(Mnemonic::SBC, 0xF1, AddressingMode::IndirectY, 5)),
        (Mnemonic::SEC, AddressingMode::Implied) => Some(spec_entry(Mnemonic::SEC, 0x38, AddressingMode::Implied, 2)),
        (Mnemonic::SED, AddressingMode::Implied) => Some(spec_entry(Mnemonic::SED, 0xF8, AddressingMode::Implied, 2)),
        (Mnemonic::SEI, AddressingMode::Implied) => Some(spec_entry(Mnemonic::SEI, 0x78, AddressingMode::Implied, 2)),
        (Mnemonic::STA, AddressingMode::ZeroPage) => Some(spec_entry(Mnemonic::STA, 0x85, AddressingMode::ZeroPage, 3)),
        (Mnemonic::STA, AddressingMode::ZeroPageX) => Some(spec_entry(Mnemonic::STA, 0x95, AddressingMode::ZeroPageX, 4)),
        (Mnemonic::STA, AddressingMode::Absolute) => Some(spec_entry(Mnemonic::STA, 0x8D, AddressingMode::Absolute, 4)),
        (Mnemonic::STA, AddressingMode::AbsoluteX) => Some(spec_entry(Mnemonic::STA, 0x9D, AddressingMode::AbsoluteX, 5)),
        (Mnemonic::STA, AddressingMode::AbsoluteY) => Some(spec_entry(Mnemonic::STA, 0x99, AddressingMode::AbsoluteY, 5)),
        (Mnemonic::STA, AddressingMode::IndirectX) => Some(spec_entry(Mnemonic::STA, 0x81, AddressingMode::IndirectX, 6)),
        (Mnemonic::STA, AddressingMode::IndirectY) => Some(spec_entry(Mnemonic::STA, 0x91, AddressingMode::IndirectY, 6)),
        (Mnemonic::STX, AddressingMode::ZeroPage) => Some(spec_entry(Mnemonic::STX, 0x86, AddressingMode::ZeroPage, 3)),
        (Mnemonic::STX, AddressingMode::ZeroPageY) => Some(spec_entry(Mnemonic::STX, 0x96, AddressingMode::ZeroPageY, 4)),
        (Mnemonic::STX, AddressingMode::Absolute) => Some(spec_entry(Mnemonic::STX, 0x8E, AddressingMode::Absolute, 4)),
        (Mnemonic::STY, AddressingMode::ZeroPage) => Some(spec_entry(Mnemonic::STY, 0x84, AddressingMode::ZeroPage, 3)),
        (Mnemonic::STY, AddressingMode::ZeroPageX) => Some(spec_entry(Mnemonic::STY, 0x94, AddressingMode::ZeroPageX, 4)),
        (Mnemonic::STY, AddressingMode::Absolute) => Some(spec_entry(Mnemonic::STY, 0x8C, AddressingMode::Absolute, 4)),
        (Mnemonic::TAX, AddressingMode::Implied) => Some(spec_entry(Mnemonic::TAX, 0xAA, AddressingMode::Implied, 2)),
        (Mnemonic::TAY, AddressingMode::Implied) => Some(spec_entry(Mnemonic::TAY, 0xA8, AddressingMode::Implied, 2)),
        (Mnemonic::TSX, AddressingMode::Implied) => Some(spec_entry(Mnemonic::TSX, 0xBA, AddressingMode::Implied, 2)),
        (Mnemonic::TXA, AddressingMode::Implied) => Some(spec_entry(Mnemonic::TXA, 0x8A, AddressingMode::Implied, 2)),
        (Mnemonic::TXS, AddressingMode::Implied) => Some(spec_entry(Mnemonic::TXS, 0x9A, AddressingMode::Implied, 2)),
        (Mnemonic::TYA, AddressingMode::Implied) => Some(spec_entry(Mnemonic::TYA, 0x98, AddressingMode::Implied, 2)),
        _ => None,
    }
}

/// The mnemonic named by a three-letter identifier, compared
/// case-insensitively; `None` if the name matches no mnemonic.
pub open spec fn spec_from_mnemonic(s: Seq<char>) -> Option<Mnemonic> {
    if s.len() == 3 {
        match (spec_upper_char(s[0]), spec_upper_char(s[1]), spec_upper_char(s[2])) {
            ('A', 'D', 'C') => Some(Mnemonic::ADC),
            ('A', 'N', 'D') => Some(Mnemonic::AND),
            ('A', 'S', 'L') => Some(Mnemonic::ASL),
            ('B', 'C', 'C') => Some(Mnemonic::BCC),
            ('B', 'C', 'S') => Some(Mnemonic::BCS),
            ('B', 'E', 'Q') => Some(Mnemonic::BEQ),
            ('B', 'I', 'T') => Some(Mnemonic::BIT),
            ('B', 'M', 'I') => Some(Mnemonic::BMI),
            ('B', 'N', 'E') => Some(Mnemonic::BNE),
            ('B', 'P', 'L') => Some(Mnemonic::BPL),
            ('B', 'R', 'K') => Some(Mnemonic::BRK),
            ('B', 'V', 'C') => Some(Mnemonic::BVC),
            ('B', 'V', 'S') => Some(Mnemonic::BVS),
            ('C', 'L', 'C') => Some(Mnemonic::CLC),
            ('C', 'L', 'D') => Some(Mnemonic::CLD),
            ('C', 'L', 'I') => Some(Mnemonic::CLI),
            ('C', 'L', 'V') => Some(Mnemonic::CLV),
            ('C', 'M', 'P') => Some(Mnemonic::CMP),
            ('C', 'P', 'X') => Some(Mnemonic::CPX),
            ('C', 'P', 'Y') => Some(Mnemonic::CPY),
            ('D', 'E', 'C') => Some(Mnemonic::DEC),
            ('D', 'E', 'X') => Some(Mnemonic::DEX),
            ('D', 'E', 'Y') => Some(Mnemonic::DEY),
            ('E', 'O', 'R') => Some(Mnemonic::EOR),
            ('I', 'N', 'C') => Some(Mnemonic::INC),
            ('I', 'N', 'X') => Some(Mnemonic::INX),
            ('I', 'N', 'Y') => Some(Mnemonic::INY),
            ('J', 'M', 'P') => Some(Mnemonic::JMP),
            ('J', 'S', 'R') => Some(Mnemonic::JSR),
            ('L', 'D', 'A') => Some(Mnemonic::LDA),
            ('L', 'D', 'X') => Some(Mnemonic::LDX),
            ('L', 'D', 'Y') => Some(Mnemonic::LDY),
            ('L', 'S', 'R') => Some(Mnemonic::LSR),
            ('N', 'O', 'P') => Some(Mnemonic::NOP),
            ('O', 'R', 'A') => Some(Mnemonic::ORA),
            ('P', 'H', 'A') => Some(Mnemonic::PHA),
            ('P', 'H', 'P') => Some(Mnemonic::PHP),
            ('P', 'L', 'A') => Some(Mnemonic::PLA),
            ('P', 'L', 'P') => Some(Mnemonic::PLP),
            ('R', 'O', 'L') => Some(Mnemonic::ROL),
            ('R', 'O', 'R') => Some(Mnemonic::ROR),
            ('R', 'T', 'I') => Some(Mnemonic::RTI),
            ('R', 'T', 'S') => Some(Mnemonic::RTS),
            ('S', 'B', 'C') => Some(Mnemonic::SBC),
            ('S', 'E', 'C') => Some(Mnemonic::SEC),
            ('S', 'E', 'D') => Some(Mnemonic::SED),
            ('S', 'E', 'I') => Some(Mnemonic::SEI),
            ('S', 'T', 'A') => Some(Mnemonic::STA),
            ('S', 'T', 'X') => Some(Mnemonic::STX),
            ('S', 'T', 'Y') => Some(Mnemonic::STY),
            ('T', 'A', 'X') => Some(Mnemonic::TAX),
            ('T', 'A', 'Y') => Some(Mnemonic::TAY),
            ('T', 'S', 'X') => Some(Mnemonic::TSX),
            ('T', 'X', 'A') => Some(Mnemonic::TXA),
            ('T', 'X', 'S') => Some(Mnemonic::TXS),
            ('T', 'Y', 'A') => Some(Mnemonic::TYA),
            _ => None,
        }
    } else {
        None
    }
}

/// The canonical upper-case spelling of a mnemonic.
pub open spec fn spec_mnemonic_text(m: Mnemonic) -> Seq<char> {
    match m {
        Mnemonic::ADC => "ADC"@,
        Mnemonic::AND => "AND"@,
        Mnemonic::ASL => "ASL"@,
        Mnemonic::BCC => "BCC"@,
        Mnemonic::BCS => "BCS"@,
        Mnemonic::BEQ => "BEQ"@,
        Mnemonic::BIT => "BIT"@,
        Mnemonic::BMI => "BMI"@,
        Mnemonic::BNE => "BNE"@,
        Mnemonic::BPL => "BPL"@,
        Mnemonic::BRK => "BRK"@,
        Mnemonic::BVC => "BVC"@,
        Mnemonic::BVS => "BVS"@,
        Mnemonic::CLC => "CLC"@,
        Mnemonic::CLD => "CLD"@,
        Mnemonic::CLI => "CLI"@,
        Mnemonic::CLV => "CLV"@,
        Mnemonic::CMP => "CMP"@,
        Mnemonic::CPX => "CPX"@,
        Mnemonic::CPY => "CPY"@,
        Mnemonic::DEC => "DEC"@,
        Mnemonic::DEX => "DEX"@,
        Mnemonic::DEY => "DEY"@,
        Mnemonic::EOR => "EOR"@,
        Mnemonic::INC => "INC"@,
        Mnemonic::INX => "INX"@,
        Mnemonic::INY => "INY"@,
        Mnemonic::JMP => "JMP"@,
        Mnemonic::JSR => "JSR"@,
        Mnemonic::LDA => "LDA"@,
        Mnemonic::LDX => "LDX"@,
        Mnemonic::LDY => "LDY"@,
        Mnemonic::LSR => "LSR"@,
        Mnemonic::NOP => "NOP"@,
        Mnemonic::ORA => "ORA"@,
        Mnemonic::PHA => "PHA"@,
        Mnemonic::PHP => "PHP"@,
        Mnemonic::PLA => "PLA"@,
        Mnemonic::PLP => "PLP"@,
        Mnemonic::ROL => "ROL"@,
        Mnemonic::ROR => "ROR"@,
        Mnemonic::RTI => "RTI"@,
        Mnemonic::RTS => "RTS"@,
        Mnemonic::SBC => "SBC"@,
        Mnemonic::SEC => "SEC"@,
        Mnemonic::SED => "SED"@,
        Mnemonic::SEI => "SEI"@,
        Mnemonic::STA => "STA"@,
        Mnemonic::STX => "STX"@,
        Mnemonic::STY => "STY"@,
        Mnemonic::TAX => "TAX"@,
        Mnemonic::TAY => "TAY"@,
        Mnemonic::TSX => "TSX"@,
        Mnemonic::TXA => "TXA"@,
        Mnemonic::TXS => "TXS"@,
        Mnemonic::TYA => "TYA"@,
    }
}

/// Upper-cases an ASCII letter and leaves every other character alone.
pub fn upper_char(c: char) -> (r: char)
    ensures
        r == spec_upper_char(c),
{
    match c {
        'a' => 'A',
        'b' => 'B',
        'c' => 'C',
        'd' => 'D',
        'e' => 'E',
        'f' => 'F',
        'g' => 'G',
        'h' => 'H',
        'i' => 'I',
        'j' => 'J',
        'k' => 'K',
        'l' => 'L',
        'm' => 'M',
        'n' => 'N',
        'o' => 'O',
        'p' => 'P',
        'q' => 'Q',
        'r' => 'R',
        's' => 'S',
        't' => 'T',
        'u' => 'U',
        'v' => 'V',
        'w' => 'W',
        'x' => 'X',
        'y' => 'Y',
        'z' => 'Z',
        _ => c,
    }
}

impl Mnemonic {
    /// The canonical upper-case spelling, as the disassembler prints it.
    pub fn text(&self) -> (r: &'static str)
        ensures
            r@ == spec_mnemonic_text(*self),
    {
        match *self {
            Mnemonic::ADC => "ADC",
            Mnemonic::AND => "AND",
            Mnemonic::ASL => "ASL",
            Mnemonic::BCC => "BCC",
            Mnemonic::BCS => "BCS",
            Mnemonic::BEQ => "BEQ",
            Mnemonic::BIT => "BIT",
            Mnemonic::BMI => "BMI",
            Mnemonic::BNE => "BNE",
            Mnemonic::BPL => "BPL",
            Mnemonic::BRK => "BRK",
            Mnemonic::BVC => "BVC",
            Mnemonic::BVS => "BVS",
            Mnemonic::CLC => "CLC",
            Mnemonic::CLD => "CLD",
            Mnemonic::CLI => "CLI",
            Mnemonic::CLV => "CLV",
            Mnemonic::CMP => "CMP",
            Mnemonic::CPX => "CPX",
            Mnemonic::CPY => "CPY",
            Mnemonic::DEC => "DEC",
            Mnemonic::DEX => "DEX",
            Mnemonic::DEY => "DEY",
            Mnemonic::EOR => "EOR",
            Mnemonic::INC => "INC",
            Mnemonic::INX => "INX",
            Mnemonic::INY => "INY",
            Mnemonic::JMP => "JMP",
            Mnemonic::JSR => "JSR",
            Mnemonic::LDA => "LDA",
            Mnemonic::LDX => "LDX",
            Mnemonic::LDY => "LDY",
            Mnemonic::LSR => "LSR",
            Mnemonic::NOP => "NOP",
            Mnemonic::ORA => "ORA",
            Mnemonic::PHA => "PHA",
            Mnemonic::PHP => "PHP",
            Mnemonic::PLA => "PLA",
            Mnemonic::PLP => "PLP",
            Mnemonic::ROL => "ROL",
            Mnemonic::ROR => "ROR",
            Mnemonic::RTI => "RTI",
            Mnemonic::RTS => "RTS",
            Mnemonic::SBC => "SBC",
            Mnemonic::SEC => "SEC",
            Mnemonic::SED => "SED",
            Mnemonic::SEI => "SEI",
            Mnemonic::STA => "STA",
            Mnemonic::STX => "STX",
            Mnemonic::STY => "STY",
            Mnemonic::TAX => "TAX",
            Mnemonic::TAY => "TAY",
            Mnemonic::TSX => "TSX",
            Mnemonic::TXA => "TXA",
            Mnemonic::TXS => "TXS",
            Mnemonic::TYA => "TYA",
        }
    }
}

impl OpCode {
    /// The number of bytes an instruction of the given addressing mode
    /// occupies.
    pub fn mode_length(mode: AddressingMode) -> (r: u8)
        ensures
            r == spec_mode_length(mode),
    {
        match mode {
            AddressingMode::Implied => 1,
            AddressingMode::Accumulator => 1,
            AddressingMode::Immediate => 2,
            AddressingMode::Relative => 2,
            AddressingMode::ZeroPage => 2,
            AddressingMode::ZeroPageX => 2,
            AddressingMode::ZeroPageY => 2,
            AddressingMode::Absolute => 3,
            AddressingMode::AbsoluteX => 3,
            AddressingMode::AbsoluteY => 3,
            AddressingMode::Indirect => 3,
            AddressingMode::IndirectX => 2,
            AddressingMode::IndirectY => 2,
        }
    }

    fn entry(m: Mnemonic, code: u8, mode: AddressingMode, time: u8) -> (r: OpCode)
        ensures
            r == spec_entry(m, code, mode, time),
    {
        OpCode {
            mnemonic: m,
            code: code,
            mode: mode,
            length: Self::mode_length(mode),
            time: time,
        }
    }

    /// Looks an instruction up by its raw encoding byte.
    pub fn from_raw_byte(b: u8) -> (r: Option<OpCode>)
        ensures
            r == spec_from_raw_byte(b),
    {
        match b {
            0x00 => Some(Self::entry(Mnemonic::BRK, b, AddressingMode::Implied, 7)),
            0x01 => Some(Self::entry(Mnemonic::ORA, b, AddressingMode::IndirectX, 6)),
            0x05 => Some(Self::entry(Mnemonic::ORA, b, AddressingMode::ZeroPage, 3)),
            0x06 => Some(Self::entry(Mnemonic::ASL, b, AddressingMode::ZeroPage, 5)),
            0x08 => Some(Self::entry(Mnemonic::PHP, b, AddressingMode::Implied, 3)),
            0x09 => Some(Self::entry(Mnemonic::ORA, b, AddressingMode::Immediate, 2)),
            0x0A => Some(Self::entry(Mnemonic::ASL, b, AddressingMode::Accumulator, 2)),
            0x0D => Some(Self::entry(Mnemonic::ORA, b, AddressingMode::Absolute, 4)),
            0x0E => Some(Self::entry(Mnemonic::ASL, b, AddressingMode::Absolute, 6)),
            0x10 => Some(Self::entry(Mnemonic::BPL, b, AddressingMode::Relative, 2)),
            0x11 => Some(Self::entry(Mnemonic::ORA, b, AddressingMode::IndirectY, 5)),
            0x15 => Some(Self::entry(Mnemonic::ORA, b, AddressingMode::ZeroPageX, 4)),
            0x16 => Some(Self::entry(Mnemonic::ASL, b, AddressingMode::ZeroPageX, 6)),
            0x18 => Some(Self::entry(Mnemonic::CLC, b, AddressingMode::Implied, 2)),
            0x19 => Some(Self::entry(Mnemonic::ORA, b, AddressingMode::AbsoluteY, 4)),
            0x1D => Some(Self::entry(Mnemonic::ORA, b, AddressingMode::AbsoluteX, 4)),
            0x1E => Some(Self::entry(Mnemonic::ASL, b, AddressingMode::AbsoluteX, 7)),
            0x20 => Some(Self::entry(Mnemonic::JSR, b, AddressingMode::Absolute, 6)),
            0x21 => Some(Self::entry(Mnemonic::AND, b, AddressingMode::IndirectX, 6)),
            0x24 => Some(Self::entry(Mnemonic::BIT, b, AddressingMode::ZeroPage, 3)),
            0x25 => Some(Self::entry(Mnemonic::AND, b, AddressingMode::ZeroPage, 3)),
            0x26 => Some(Self::entry(Mnemonic::ROL, b, AddressingMode::ZeroPage, 5)),
            0x28 => Some(Self::entry(Mnemonic::PLP, b, AddressingMode::Implied, 4)),
            0x29 => Some(Self::entry(Mnemonic::AND, b, AddressingMode::Immediate, 2)),
            0x2A => Some(Self::entry(Mnemonic::ROL, b, AddressingMode::Accumulator, 2)),
            0x2C => Some(Self::entry(Mnemonic::BIT, b, AddressingMode::Absolute, 4)),
            0x2D => Some(Self::entry(Mnemonic::AND, b, AddressingMode::Absolute, 4)),
            0x2E => Some(Self::entry(Mnemonic::ROL, b, AddressingMode::Absolute, 6)),
            0x30 => Some(Self::entry(Mnemonic::BMI, b, AddressingMode::Relative, 2)),
            0x31 => Some(Self::entry(Mnemonic::AND, b, AddressingMode::IndirectY, 5)),
            0x35 => Some(Self::entry(Mnemonic::AND, b, AddressingMode::ZeroPageX, 4)),
            0x36 => Some(Self::entry(Mnemonic::ROL, b, AddressingMode::ZeroPageX, 6)),
            0x38 => Some(Self::entry(Mnemonic::SEC, b, AddressingMode::Implied, 2)),
            0x39 => Some(Self::entry(Mnemonic::AND, b, AddressingMode::AbsoluteY, 4)),
            0x3D => Some(Self::entry(Mnemonic::AND, b, AddressingMode::AbsoluteX, 4)),
            0x3E => Some(Self::entry(Mnemonic::ROL, b, AddressingMode::AbsoluteX, 7)),
            0x40 => Some(Self::entry(Mnemonic::RTI, b, AddressingMode::Implied, 6)),
            0x41 => Some(Self::entry(Mnemonic::EOR, b, AddressingMode::IndirectX, 6)),
            0x45 => Some(Self::entry(Mnemonic::EOR, b, AddressingMode::ZeroPage, 3)),
            0x46 => Some(Self::entry(Mnemonic::LSR, b, AddressingMode::ZeroPage, 5)),
            0x48 => Some(Self::entry(Mnemonic::PHA, b, AddressingMode::Implied, 3)),
            0x49 => Some(Self::entry(Mnemonic::EOR, b, AddressingMode::Immediate, 2)),
            0x4A => Some(Self::entry(Mnemonic::LSR, b, AddressingMode::Accumulator, 2)),
            0x4C => Some(Self::entry(Mnemonic::JMP, b, AddressingMode::Absolute, 3)),
            0x4D => Some(Self::entry(Mnemonic::EOR, b, AddressingMode::Absolute, 4)),
            0x4E => Some(Self::entry(Mnemonic::LSR, b, AddressingMode::Absolute, 6)),
            0x50 => Some(Self::entry(Mnemonic::BVC, b, AddressingMode::Relative, 2)),
            0x51 => Some(Self::entry(Mnemonic::EOR, b, AddressingMode::IndirectY, 5)),
            0x55 => Some(Self::entry(Mnemonic::EOR, b, AddressingMode::ZeroPageX, 4)),
            0x56 => Some(Self::entry(Mnemonic::LSR, b, AddressingMode::ZeroPageX, 6)),
            0x58 => Some(Self::entry(Mnemonic::CLI, b, AddressingMode::Implied, 2)),
            0x59 => Some(Self::entry(Mnemonic::EOR, b, AddressingMode::AbsoluteY, 4)),
            0x5D => Some(Self::entry(Mnemonic::EOR, b, AddressingMode::AbsoluteX, 4)),
            0x5E => Some(Self::entry(Mnemonic::LSR, b, AddressingMode::AbsoluteX, 7)),
            0x60 => Some(Self::entry(Mnemonic::RTS, b, AddressingMode::Implied, 6)),
            0x61 => Some(Self::entry(Mnemonic::ADC, b, AddressingMode::IndirectX, 6)),
            0x65 => Some(Self::entry(Mnemonic::ADC, b, AddressingMode::ZeroPage, 3)),
            0x66 => Some(Self::entry(Mnemonic::ROR, b, AddressingMode::ZeroPage, 5)),
            0x68 => Some(Self::entry(Mnemonic::PLA, b, AddressingMode::Implied, 4)),
            0x69 => Some(Self::entry(Mnemonic::ADC, b, AddressingMode::Immediate, 2)),
            0x6A => Some(Self::entry(Mnemonic::ROR, b, AddressingMode::Accumulator, 2)),
            0x6C => Some(Self::entry(Mnemonic::JMP, b, AddressingMode::Indirect, 5)),
            0x6D => Some(Self::entry(Mnemonic::ADC, b, AddressingMode::Absolute, 4)),
            0x6E => Some(Self::entry(Mnemonic::ROR, b, AddressingMode::Absolute, 6)),
            0x70 => Some(Self::entry(Mnemonic::BVS, b, AddressingMode::Relative, 2)),
            0x71 => Some(Self::entry(Mnemonic::ADC, b, AddressingMode::IndirectY, 5)),
            0x75 => Some(Self::entry(Mnemonic::ADC, b, AddressingMode::ZeroPageX, 4)),
            0x76 => Some(Self::entry(Mnemonic::ROR, b, AddressingMode::ZeroPageX, 6)),
            0x78 => Some(Self::entry(Mnemonic::SEI, b, AddressingMode::Implied, 2)),
            0x79 => Some(Self::entry(Mnemonic::ADC, b, AddressingMode::AbsoluteY, 4)),
            0x7D => Some(Self::entry(Mnemonic::ADC, b, AddressingMode::AbsoluteX, 4)),
            0x7E => Some(Self::entry(Mnemonic::ROR, b, AddressingMode::AbsoluteX, 7)),
            0x81 => Some(Self::entry(Mnemonic::STA, b, AddressingMode::IndirectX, 6)),
            0x84 => Some(Self::entry(Mnemonic::STY, b, AddressingMode::ZeroPage, 3)),
            0x85 => Some(Self::entry(Mnemonic::STA, b, AddressingMode::ZeroPage, 3)),
            0x86 => Some(Self::entry(Mnemonic::STX, b, AddressingMode::ZeroPage, 3)),
            0x88 => Some(Self::entry(Mnemonic::DEY, b, AddressingMode::Implied, 2)),
            0x8A => Some(Self::entry(Mnemonic::TXA, b, AddressingMode::Implied, 2)),
            0x8C => Some(Self::entry(Mnemonic::STY, b, AddressingMode::Absolute, 4)),
            0x8D => Some(Self::entry(Mnemonic::STA, b, AddressingMode::Absolute, 4)),
            0x8E => Some(Self::entry(Mnemonic::STX, b, AddressingMode::Absolute, 4)),
            0x90 => Some(Self::entry(Mnemonic::BCC, b, AddressingMode::Relative, 2)),
            0x91 => Some(Self::entry(Mnemonic::STA, b, AddressingMode::IndirectY, 6)),
            0x94 => Some(Self::entry(Mnemonic::STY, b, AddressingMode::ZeroPageX, 4)),
            0x95 => Some(Self::entry(Mnemonic::STA, b, AddressingMode::ZeroPageX, 4)),
            0x96 => Some(Self::entry(Mnemonic::STX, b, AddressingMode::ZeroPageY, 4)),
            0x98 => Some(Self::entry(Mnemonic::TYA, b, AddressingMode::Implied, 2)),
            0x99 => Some(Self::entry(Mnemonic::STA, b, AddressingMode::AbsoluteY, 5)),
            0x9A => Some(Self::entry(Mnemonic::TXS, b, AddressingMode::Implied, 2)),
            0x9D => Some(Self::entry(Mnemonic::STA, b, AddressingMode::AbsoluteX, 5)),
            0xA0 => Some(Self::entry(Mnemonic::LDY, b, AddressingMode::Immediate, 2)),
            0xA1 => Some(Self::entry(Mnemonic::LDA, b, AddressingMode::IndirectX, 6)),
            0xA2 => Some(Self::entry(Mnemonic::LDX, b, AddressingMode::Immediate, 2)),
            0xA4 => Some(Self::entry(Mnemonic::LDY, b, AddressingMode::ZeroPage, 3)),
            0xA5 => Some(Self::entry(Mnemonic::LDA, b, AddressingMode::ZeroPage, 3)),
            0xA6 => Some(Self::entry(Mnemonic::LDX, b, AddressingMode::ZeroPage, 3)),
            0xA8 => Some(Self::entry(Mnemonic::TAY, b, AddressingMode::Implied, 2)),
            0xA9 => Some(Self::entry(Mnemonic::LDA, b, AddressingMode::Immediate, 2)),
            0xAA => Some(Self::entry(Mnemonic::TAX, b, AddressingMode::Implied, 2)),
            0xAC => Some(Self::entry(Mnemonic::LDY, b, AddressingMode::Absolute, 4)),
            0xAD => Some(Self::entry(Mnemonic::LDA, b, AddressingMode::Absolute, 4)),
            0xAE => Some(Self::entry(Mnemonic::LDX, b, AddressingMode::Absolute, 4)),
            0xB0 => Some(Self::entry(Mnemonic::BCS, b, AddressingMode::Relative, 2)),
            0xB1 => Some(Self::entry(Mnemonic::LDA, b, AddressingMode::IndirectY, 5)),
            0xB4 => Some(Self::entry(Mnemonic::LDY, b, AddressingMode::ZeroPageX, 4)),
            0xB5 => Some(Self::entry(Mnemonic::LDA, b, AddressingMode::ZeroPageX, 4)),
            0xB6 => Some(Self::entry(Mnemonic::LDX, b, AddressingMode::ZeroPageY, 4)),
            0xB8 => Some(Self::entry(Mnemonic::CLV, b, AddressingMode::Implied, 2)),
            0xB9 => Some(Self::entry(Mnemonic::LDA, b, AddressingMode::AbsoluteY, 4)),
            0xBA => Some(Self::entry(Mnemonic::TSX, b, AddressingMode::Implied, 2)),
            0xBC => Some(Self::entry(Mnemonic::LDY, b, AddressingMode::AbsoluteX, 4)),
            0xBD => Some(Self::entry(Mnemonic::LDA, b, AddressingMode::AbsoluteX, 4)),
            0xBE => Some(Self::entry(Mnemonic::LDX, b, AddressingMode::AbsoluteY, 4)),
            0xC0 => Some(Self::entry(Mnemonic::CPY, b, AddressingMode::Immediate, 2)),
            0xC1 => Some(Self::entry(Mnemonic::CMP, b, AddressingMode::IndirectX, 6)),
            0xC4 => Some(Self::entry(Mnemonic::CPY, b, AddressingMode::ZeroPage, 3)),
            0xC5 => Some(Self::entry(Mnemonic::CMP, b, AddressingMode::ZeroPage, 3)),
            0xC6 => Some(Self::entry(Mnemonic::DEC, b, AddressingMode::ZeroPage, 5)),
            0xC8 => Some(Self::entry(Mnemonic::INY, b, AddressingMode::Implied, 2)),
            0xC9 => Some(Self::entry(Mnemonic::CMP, b, AddressingMode::Immediate, 2)),
            0xCA => Some(Self::entry(Mnemonic::DEX, b, AddressingMode::Implied, 2)),
            0xCC => Some(Self::entry(Mnemonic::CPY, b, AddressingMode::Absolute, 4)),
            0xCD => Some(Self::entry(Mnemonic::CMP, b, AddressingMode::Absolute, 4)),
            0xCE => Some(Self::entry(Mnemonic::DEC, b, AddressingMode::Absolute, 6)),
            0xD0 => Some(Self::entry(Mnemonic::BNE, b, AddressingMode::Relative, 2)),
            0xD1 => Some(Self::entry(Mnemonic::CMP, b, AddressingMode::IndirectY, 5)),
            0xD5 => Some(Self::entry(Mnemonic::CMP, b, AddressingMode::ZeroPageX, 4)),
            0xD6 => Some(Self::entry(Mnemonic::DEC, b, AddressingMode::ZeroPageX, 6)),
            0xD8 => Some(Self::entry(Mnemonic::CLD, b, AddressingMode::Implied, 2)),
            0xD9 => Some(Self::entry(Mnemonic::CMP, b, AddressingMode::AbsoluteY, 4)),
            0xDD => Some(Self::entry(Mnemonic::CMP, b, AddressingMode::AbsoluteX, 4)),
            0xDE => Some(Self::entry(Mnemonic::DEC, b, AddressingMode::AbsoluteX, 7)),
            0xE0 => Some(Self::entry(Mnemonic::CPX, b, AddressingMode::Immediate, 2)),
            0xE1 => Some(Self::entry(Mnemonic::SBC, b, AddressingMode::IndirectX, 6)),
            0xE4 => Some(Self::entry(Mnemonic::CPX, b, AddressingMode::ZeroPage, 3)),
            0xE5 => Some(Self::entry(Mnemonic::SBC, b, AddressingMode::ZeroPage, 3)),
            0xE6 => Some(Self::entry(Mnemonic::INC, b, AddressingMode::ZeroPage, 5)),
            0xE8 => Some(Self::entry(Mnemonic::INX, b, AddressingMode::Implied, 2)),
            0xE9 => Some(Self::entry(Mnemonic::SBC, b, AddressingMode::Immediate, 2)),
            0xEA => Some(Self::entry(Mnemonic::NOP, b, AddressingMode::Implied, 2)),
            0xEC => Some(Self::entry(Mnemonic::CPX, b, AddressingMode::Absolute, 4)),
            0xED => Some(Self::entry(Mnemonic::SBC, b, AddressingMode::Absolute, 4)),
            0xEE => Some(Self::entry(Mnemonic::INC, b, AddressingMode::Absolute, 6)),
            0xF0 => Some(Self::entry(Mnemonic::BEQ, b, AddressingMode::Relative, 2)),
            0xF1 => Some(Self::entry(Mnemonic::SBC, b, AddressingMode::IndirectY, 5)),
            0xF5 => Some(Self::entry(Mnemonic::SBC, b, AddressingMode::ZeroPageX, 4)),
            0xF6 => Some(Self::entry(Mnemonic::INC, b, AddressingMode::ZeroPageX, 6)),
            0xF8 => Some(Self::entry(Mnemonic::SED, b, AddressingMode::Implied, 2)),
            0xF9 => Some(Self::entry(Mnemonic::SBC, b, AddressingMode::AbsoluteY, 4)),
            0xFD => Some(Self::entry(Mnemonic::SBC, b, AddressingMode::AbsoluteX, 4)),
            0xFE => Some(Self::entry(Mnemonic::INC, b, AddressingMode::AbsoluteX, 7)),
            _ => None,
        }
    }

    /// Looks a mnemonic up by name, case-insensitively.
    pub fn from_mnemonic(s: &str) -> (r: Option<Mnemonic>)
        ensures
            r == spec_from_mnemonic(s@),
    {
        if s.unicode_len() != 3 {
            return None;
        }
        let u0 = upper_char(s.get_char(0));
        let u1 = upper_char(s.get_char(1));
        let u2 = upper_char(s.get_char(2));
        match (u0, u1, u2) {
            ('A', 'D', 'C') => Some(Mnemonic::ADC),
            ('A', 'N', 'D') => Some(Mnemonic::AND),
            ('A', 'S', 'L') => Some(Mnemonic::ASL),
            ('B', 'C', 'C') => Some(Mnemonic::BCC),
            ('B', 'C', 'S') => Some(Mnemonic::BCS),
            ('B', 'E', 'Q') => Some(Mnemonic::BEQ),
            ('B', 'I', 'T') => Some(Mnemonic::BIT),
            ('B', 'M', 'I') => Some(Mnemonic::BMI),
            ('B', 'N', 'E') => Some(Mnemonic::BNE),
            ('B', 'P', 'L') => Some(Mnemonic::BPL),
            ('B', 'R', 'K') => Some(Mnemonic::BRK),
            ('B', 'V', 'C') => Some(Mnemonic::BVC),
            ('B', 'V', 'S') => Some(Mnemonic::BVS),
            ('C', 'L', 'C') => Some(Mnemonic::CLC),
            ('C', 'L', 'D') => Some(Mnemonic::CLD),
            ('C', 'L', 'I') => Some(Mnemonic::CLI),
            ('C', 'L', 'V') => Some(Mnemonic::CLV),
            ('C', 'M', 'P') => Some(Mnemonic::CMP),
            ('C', 'P', 'X') => Some(Mnemonic::CPX),
            ('C', 'P', 'Y') => Some(Mnemonic::CPY),
            ('D', 'E', 'C') => Some(Mnemonic::DEC),
            ('D', 'E', 'X') => Some(Mnemonic::DEX),
            ('D', 'E', 'Y') => Some(Mnemonic::DEY),
            ('E', 'O', 'R') => Some(Mnemonic::EOR),
            ('I', 'N', 'C') => Some(Mnemonic::INC),
            ('I', 'N', 'X') => Some(Mnemonic::INX),
            ('I', 'N', 'Y') => Some(Mnemonic::INY),
            ('J', 'M', 'P') => Some(Mnemonic::JMP),
            ('J', 'S', 'R') => Some(Mnemonic::JSR),
            ('L', 'D', 'A') => Some(Mnemonic::LDA),
            ('L', 'D', 'X') => Some(Mnemonic::LDX),
            ('L', 'D', 'Y') => Some(Mnemonic::LDY),
            ('L', 'S', 'R') => Some(Mnemonic::LSR),
            ('N', 'O', 'P') => Some(Mnemonic::NOP),
            ('O', 'R', 'A') => Some(Mnemonic::ORA),
            ('P', 'H', 'A') => Some(Mnemonic::PHA),
            ('P', 'H', 'P') => Some(Mnemonic::PHP),
            ('P', 'L', 'A') => Some(Mnemonic::PLA),
            ('P', 'L', 'P') => Some(Mnemonic::PLP),
            ('R', 'O', 'L') => Some(Mnemonic::ROL),
            ('R', 'O', 'R') => Some(Mnemonic::ROR),
            ('R', 'T', 'I') => Some(Mnemonic::RTI),
            ('R', 'T', 'S') => Some(Mnemonic::RTS),
            ('S', 'B', 'C') => Some(Mnemonic::SBC),
            ('S', 'E', 'C') => Some(Mnemonic::SEC),
            ('S', 'E', 'D') => Some(Mnemonic::SED),
            ('S', 'E', 'I') => Some(Mnemonic::SEI),
            ('S', 'T', 'A') => Some(Mnemonic::STA),
            ('S', 'T', 'X') => Some(Mnemonic::STX),
            ('S', 'T', 'Y') => Some(Mnemonic::STY),
            ('T', 'A', 'X') => Some(Mnemonic::TAX),
            ('T', 'A', 'Y') => Some(Mnemonic::TAY),
            ('T', 'S', 'X') => Some(Mnemonic::TSX),
            ('T', 'X', 'A') => Some(Mnemonic::TXA),
            ('T', 'X', 'S') => Some(Mnemonic::TXS),
            ('T', 'Y', 'A') => Some(Mnemonic::TYA),
            _ => None,
        }
    }

    /// Looks an instruction up by mnemonic and addressing mode.
    pub fn by_mnemonic_and_mode(m: Mnemonic, mode: AddressingMode) -> (r: Option<OpCode>)
        ensures
            r == spec_opcode(m, mode),
    {
        match (m, mode) {
            (Mnemonic::ADC, AddressingMode::Immediate) => Some(Self::entry(Mnemonic::ADC, 0x69, AddressingMode::Immediate, 2)),
            (Mnemonic::ADC, AddressingMode::ZeroPage) => Some(Self::entry(Mnemonic::ADC, 0x65, AddressingMode::ZeroPage, 3)),
            (Mnemonic::ADC, AddressingMode::ZeroPageX) => Some(Self::entry(Mnemonic::ADC, 0x75, AddressingMode::ZeroPageX, 4)),
            (Mnemonic::ADC, AddressingMode::Absolute) => Some(Self::entry(Mnemonic::ADC, 0x6D, AddressingMode::Absolute, 4)),
            (Mnemonic::ADC, AddressingMode::AbsoluteX) => Some(Self::entry(Mnemonic::ADC, 0x7D, AddressingMode::AbsoluteX, 4)),
            (Mnemonic::ADC, AddressingMode::AbsoluteY) => Some(Self::entry(Mnemonic::ADC, 0x79, AddressingMode::AbsoluteY, 4)),
            (Mnemonic::ADC, AddressingMode::IndirectX) => Some(Self::entry(Mnemonic::ADC, 0x61, AddressingMode::IndirectX, 6)),
            (Mnemonic::ADC, AddressingMode::IndirectY) => Some(Self::entry(Mnemonic::ADC, 0x71, AddressingMode::IndirectY, 5)),
            (Mnemonic::AND, AddressingMode::Immediate) => Some(Self::entry(Mnemonic::AND, 0x29, AddressingMode::Immediate, 2)),
            (Mnemonic::AND, AddressingMode::ZeroPage) => Some(Self::entry(Mnemonic::AND, 0x25, AddressingMode::ZeroPage, 3)),
            (Mnemonic::AND, AddressingMode::ZeroPageX) => Some(Self::entry(Mnemonic::AND, 0x35, AddressingMode::ZeroPageX, 4)),
            (Mnemonic::AND, AddressingMode::Absolute) => Some(Self::entry(Mnemonic::AND, 0x2D, AddressingMode::Absolute, 4)),
            (Mnemonic::AND, AddressingMode::AbsoluteX) => Some(Self::entry(Mnemonic::AND, 0x3D, AddressingMode::AbsoluteX, 4)),
            (Mnemonic::AND, AddressingMode::AbsoluteY) => Some(Self::entry(Mnemonic::AND, 0x39, AddressingMode::AbsoluteY, 4)),
            (Mnemonic::AND, AddressingMode::IndirectX) => Some(Self::entry(Mnemonic::AND, 0x21, AddressingMode::IndirectX, 6)),
            (Mnemonic::AND, AddressingMode::IndirectY) => Some(Self::entry(Mnemonic::AND, 0x31, AddressingMode::IndirectY, 5)),
            (Mnemonic::ASL, AddressingMode::Accumulator) => Some(Self::entry(Mnemonic::ASL, 0x0A, AddressingMode::Accumulator, 2)),
            (Mnemonic::ASL, AddressingMode::ZeroPage) => Some(Self::entry(Mnemonic::ASL, 0x06, AddressingMode::ZeroPage, 5)),
            (Mnemonic::ASL, AddressingMode::ZeroPageX) => Some(Self::entry(Mnemonic::ASL, 0x16, AddressingMode::ZeroPageX, 6)),
            (Mnemonic::ASL, AddressingMode::Absolute) => Some(Self::entry(Mnemonic::ASL, 0x0E, AddressingMode::Absolute, 6)),
            (Mnemonic::ASL, AddressingMode::AbsoluteX) => Some(Self::entry(Mnemonic::ASL, 0x1E, AddressingMode::AbsoluteX, 7)),
            (Mnemonic::BCC, AddressingMode::Relative) => Some(Self::entry(Mnemonic::BCC, 0x90, AddressingMode::Relative, 2)),
            (Mnemonic::BCS, AddressingMode::Relative) => Some(Self::entry(Mnemonic::BCS, 0xB0, AddressingMode::Relative, 2)),
            (Mnemonic::BEQ, AddressingMode::Relative) => Some(Self::entry(Mnemonic::BEQ, 0xF0, AddressingMode::Relative, 2)),
            (Mnemonic::BMI, AddressingMode::Relative) => Some(Self::entry(Mnemonic::BMI, 0x30, AddressingMode::Relative, 2)),
            (Mnemonic::BNE, AddressingMode::Relative) => Some(Self::entry(Mnemonic::BNE, 0xD0, AddressingMode::Relative, 2)),
            (Mnemonic::BPL, AddressingMode::Relative) => Some(Self::entry(Mnemonic::BPL, 0x10, AddressingMode::Relative, 2)),
            (Mnemonic::BVC, AddressingMode::Relative) => Some(Self::entry(Mnemonic::BVC, 0x50, AddressingMode::Relative, 2)),
            (Mnemonic::BVS, AddressingMode::Relative) => Some(Self::entry(Mnemonic::BVS, 0x70, AddressingMode::Relative, 2)),
            (Mnemonic::BIT, AddressingMode::ZeroPage) => Some(Self::entry(Mnemonic::BIT, 0x24, AddressingMode::ZeroPage, 3)),
            (Mnemonic::BIT, AddressingMode::Absolute) => Some(Self::entry(Mnemonic::BIT, 0x2C, AddressingMode::Absolute, 4)),
            (Mnemonic::BRK, AddressingMode::Implied) => Some(Self::entry(Mnemonic::BRK, 0x00, AddressingMode::Implied, 7)),
            (Mnemonic::CLC, AddressingMode::Implied) => Some(Self::entry(Mnemonic::CLC, 0x18, AddressingMode::Implied, 2)),
            (Mnemonic::CLD, AddressingMode::Implied) => Some(Self::entry(Mnemonic::CLD, 0xD8, AddressingMode::Implied, 2)),
            (Mnemonic::CLI, AddressingMode::Implied) => Some(Self::entry(Mnemonic::CLI, 0x58, AddressingMode::Implied, 2)),
            (Mnemonic::CLV, AddressingMode::Implied) => Some(Self::entry(Mnemonic::CLV, 0xB8, AddressingMode::Implied, 2)),
            (Mnemonic::CMP, AddressingMode::Immediate) => Some(Self::entry(Mnemonic::CMP, 0xC9, AddressingMode::Immediate, 2)),
            (Mnemonic::CMP, AddressingMode::ZeroPage) => Some(Self::entry(Mnemonic::CMP, 0xC5, AddressingMode::ZeroPage, 3)),
            (Mnemonic::CMP, AddressingMode::ZeroPageX) => Some(Self::entry(Mnemonic::CMP, 0xD5, AddressingMode::ZeroPageX, 4)),
            (Mnemonic::CMP, AddressingMode::Absolute) => Some(Self::entry(Mnemonic::CMP, 0xCD, AddressingMode::Absolute, 4)),
            (Mnemonic::CMP, AddressingMode::AbsoluteX) => Some(Self::entry(Mnemonic::CMP, 0xDD, AddressingMode::AbsoluteX, 4)),
            (Mnemonic::CMP, AddressingMode::AbsoluteY) => Some(Self::entry(Mnemonic::CMP, 0xD9, AddressingMode::AbsoluteY, 4)),
            (Mnemonic::CMP, AddressingMode::IndirectX) => Some(Self::entry(Mnemonic::CMP, 0xC1, AddressingMode::IndirectX, 6)),
            (Mnemonic::CMP, AddressingMode::IndirectY) => Some(Self::entry(Mnemonic::CMP, 0xD1, AddressingMode::IndirectY, 5)),
            (Mnemonic::CPX, AddressingMode::Immediate) => Some(Self::entry(Mnemonic::CPX, 0xE0, AddressingMode::Immediate, 2)),
            (Mnemonic::CPX, AddressingMode::ZeroPage) => Some(Self::entry(Mnemonic::CPX, 0xE4, AddressingMode::ZeroPage, 3)),
            (Mnemonic::CPX, AddressingMode::Absolute) => Some(Self::entry(Mnemonic::CPX, 0xEC, AddressingMode::Absolute, 4)),
            (Mnemonic::CPY, AddressingMode::Immediate) => Some(Self::entry(Mnemonic::CPY, 0xC0, AddressingMode::Immediate, 2)),
            (Mnemonic::CPY, AddressingMode::ZeroPage) => Some(Self::entry(Mnemonic::CPY, 0xC4, AddressingMode::ZeroPage, 3)),
            (Mnemonic::CPY, AddressingMode::Absolute) => Some(Self::entry(Mnemonic::CPY, 0xCC, AddressingMode::Absolute, 4)),
            (Mnemonic::DEC, AddressingMode::ZeroPage) => Some(Self::entry(Mnemonic::DEC, 0xC6, AddressingMode::ZeroPage, 5)),
            (Mnemonic::DEC, AddressingMode::ZeroPageX) => Some(Self::entry(Mnemonic::DEC, 0xD6, AddressingMode::ZeroPageX, 6)),
            (Mnemonic::DEC, AddressingMode::Absolute) => Some(Self::entry(Mnemonic::DEC, 0xCE, AddressingMode::Absolute, 6)),
            (Mnemonic::DEC, AddressingMode::AbsoluteX) => Some(Self::entry(Mnemonic::DEC, 0xDE, AddressingMode::AbsoluteX, 7)),
            (Mnemonic::DEX, AddressingMode::Implied) => Some(Self::entry(Mnemonic::DEX, 0xCA, AddressingMode::Implied, 2)),
            (Mnemonic::DEY, AddressingMode::Implied) => Some(Self::entry(Mnemonic::DEY, 0x88, AddressingMode::Implied, 2)),
            (Mnemonic::EOR, AddressingMode::Immediate) => Some(Self::entry(Mnemonic::EOR, 0x49, AddressingMode::Immediate, 2)),
            (Mnemonic::EOR, AddressingMode::ZeroPage) => Some(Self::entry(Mnemonic::EOR, 0x45, AddressingMode::ZeroPage, 3)),
            (Mnemonic::EOR, AddressingMode::ZeroPageX) => Some(Self::entry(Mnemonic::EOR, 0x55, AddressingMode::ZeroPageX, 4)),
            (Mnemonic::EOR, AddressingMode::Absolute) => Some(Self::entry(Mnemonic::EOR, 0x4D, AddressingMode::Absolute, 4)),
            (Mnemonic::EOR, AddressingMode::AbsoluteX) => Some(Self::entry(Mnemonic::EOR, 0x5D, AddressingMode::AbsoluteX, 4)),
            (Mnemonic::EOR, AddressingMode::AbsoluteY) => Some(Self::entry(Mnemonic::EOR, 0x59, AddressingMode::AbsoluteY, 4)),
            (Mnemonic::EOR, AddressingMode::IndirectX) => Some(Self::entry(Mnemonic::EOR, 0x41, AddressingMode::IndirectX, 6)),
            (Mnemonic::EOR, AddressingMode::IndirectY) => Some(Self::entry(Mnemonic::EOR, 0x51, AddressingMode::IndirectY, 5)),
            (Mnemonic::INC, AddressingMode::ZeroPage) => Some(Self::entry(Mnemonic::INC, 0xE6, AddressingMode::ZeroPage, 5)),
            (Mnemonic::INC, AddressingMode::ZeroPageX) => Some(Self::entry(Mnemonic::INC, 0xF6, AddressingMode::ZeroPageX, 6)),
            (Mnemonic::INC, AddressingMode::Absolute) => Some(Self::entry(Mnemonic::INC, 0xEE, AddressingMode::Absolute, 6)),
            (Mnemonic::INC, AddressingMode::AbsoluteX) => Some(Self::entry(Mnemonic::INC, 0xFE, AddressingMode::AbsoluteX, 7)),
            (Mnemonic::INX, AddressingMode::Implied) => Some(Self::entry(Mnemonic::INX, 0xE8, AddressingMode::Implied, 2)),
            (Mnemonic::INY, AddressingMode::Implied) => Some(Self::entry(Mnemonic::INY, 0xC8, AddressingMode::Implied, 2)),
            (Mnemonic::JMP, AddressingMode::Absolute) => Some(Self::entry(Mnemonic::JMP, 0x4C, AddressingMode::Absolute, 3)),
            (Mnemonic::JMP, AddressingMode::Indirect) => Some(Self::entry(Mnemonic::JMP, 0x6C, AddressingMode::Indirect, 5)),
            (Mnemonic::JSR, AddressingMode::Absolute) => Some(Self::entry(Mnemonic::JSR, 0x20, AddressingMode::Absolute, 6)),
            (Mnemonic::LDA, AddressingMode::Immediate) => Some(Self::entry(Mnemonic::LDA, 0xA9, AddressingMode::Immediate, 2)),
            (Mnemonic::LDA, AddressingMode::ZeroPage) => Some(Self::entry(Mnemonic::LDA, 0xA5, AddressingMode::ZeroPage, 3)),
            (Mnemonic::LDA, AddressingMode::ZeroPageX) => Some(Self::entry(Mnemonic::LDA, 0xB5, AddressingMode::ZeroPageX, 4)),
            (Mnemonic::LDA, AddressingMode::Absolute) => Some(Self::entry(Mnemonic::LDA, 0xAD, AddressingMode::Absolute, 4)),
            (Mnemonic::LDA, AddressingMode::AbsoluteX) => Some(Self::entry(Mnemonic::LDA, 0xBD, AddressingMode::AbsoluteX, 4)),
            (Mnemonic::LDA, AddressingMode::AbsoluteY) => Some(Self::entry(Mnemonic::LDA, 0xB9, AddressingMode::AbsoluteY, 4)),
            (Mnemonic::LDA, AddressingMode::IndirectX) => Some(Self::entry(Mnemonic::LDA, 0xA1, AddressingMode::IndirectX, 6)),
            (Mnemonic::LDA, AddressingMode::IndirectY) => Some(Self::entry(Mnemonic::LDA, 0xB1, AddressingMode::IndirectY, 5)),
            (Mnemonic::LDX, AddressingMode::Immediate) => Some(Self::entry(Mnemonic::LDX, 0xA2, AddressingMode::Immediate, 2)),
            (Mnemonic::LDX, AddressingMode::ZeroPage) => Some(Self::entry(Mnemonic::LDX, 0xA6, AddressingMode::ZeroPage, 3)),
            (Mnemonic::LDX, AddressingMode::ZeroPageY) => Some(Self::entry(Mnemonic::LDX, 0xB6, AddressingMode::ZeroPageY, 4)),
            (Mnemonic::LDX, AddressingMode::Absolute) => Some(Self::entry(Mnemonic::LDX, 0xAE, AddressingMode::Absolute, 4)),
            (Mnemonic::LDX, AddressingMode::AbsoluteY) => Some(Self::entry(Mnemonic::LDX, 0xBE, AddressingMode::AbsoluteY, 4)),
            (Mnemonic::LDY, AddressingMode::Immediate) => Some(Self::entry(Mnemonic::LDY, 0xA0, AddressingMode::Immediate, 2)),
            (Mnemonic::LDY, AddressingMode::ZeroPage) => Some(Self::entry(Mnemonic::LDY, 0xA4, AddressingMode::ZeroPage, 3)),
            (Mnemonic::LDY, AddressingMode::ZeroPageX) => Some(Self::entry(Mnemonic::LDY, 0xB4, AddressingMode::ZeroPageX, 4)),
            (Mnemonic::LDY, AddressingMode::Absolute) => Some(Self::entry(Mnemonic::LDY, 0xAC, AddressingMode::Absolute, 4)),
            (Mnemonic::LDY, AddressingMode::AbsoluteX) => Some(Self::entry(Mnemonic::LDY, 0xBC, AddressingMode::AbsoluteX, 4)),
            (Mnemonic::LSR, AddressingMode::Accumulator) => Some(Self::entry(Mnemonic::LSR, 0x4A, AddressingMode::Accumulator, 2)),
            (Mnemonic::LSR, AddressingMode::ZeroPage) => Some(Self::entry(Mnemonic::LSR, 0x46, AddressingMode::ZeroPage, 5)),
            (Mnemonic::LSR, AddressingMode::ZeroPageX) => Some(Self::entry(Mnemonic::LSR, 0x56, AddressingMode::ZeroPageX, 6)),
            (Mnemonic::LSR, AddressingMode::Absolute) => Some(Self::entry(Mnemonic::LSR, 0x4E, AddressingMode::Absolute, 6)),
            (Mnemonic::LSR, AddressingMode::AbsoluteX) => Some(Self::entry(Mnemonic::LSR, 0x5E, AddressingMode::AbsoluteX, 7)),
            (Mnemonic::NOP, AddressingMode::Implied) => Some(Self::entry(Mnemonic::NOP, 0xEA, AddressingMode::Implied, 2)),
            (Mnemonic::ORA, AddressingMode::Immediate) => Some(Self::entry(Mnemonic::ORA, 0x09, AddressingMode::Immediate, 2)),
            (Mnemonic::ORA, AddressingMode::ZeroPage) => Some(Self::entry(Mnemonic::ORA, 0x05, AddressingMode::ZeroPage, 3)),
            (Mnemonic::ORA, AddressingMode::ZeroPageX) => Some(Self::entry(Mnemonic::ORA, 0x15, AddressingMode::ZeroPageX, 4)),
            (Mnemonic::ORA, AddressingMode::Absolute) => Some(Self::entry(Mnemonic::ORA, 0x0D, AddressingMode::Absolute, 4)),
            (Mnemonic::ORA, AddressingMode::AbsoluteX) => Some(Self::entry(Mnemonic::ORA, 0x1D, AddressingMode::AbsoluteX, 4)),
            (Mnemonic::ORA, AddressingMode::AbsoluteY) => Some(Self::entry(Mnemonic::ORA, 0x19, AddressingMode::AbsoluteY, 4)),
            (Mnemonic::ORA, AddressingMode::IndirectX) => Some(Self::entry(Mnemonic::ORA, 0x01, AddressingMode::IndirectX, 6)),
            (Mnemonic::ORA, AddressingMode::IndirectY) => Some(Self::entry(Mnemonic::ORA, 0x11, AddressingMode::IndirectY, 5)),
            (Mnemonic::PHA, AddressingMode::Implied) => Some(Self::entry(Mnemonic::PHA, 0x48, AddressingMode::Implied, 3)),
            (Mnemonic::PHP, AddressingMode::Implied) => Some(Self::entry(Mnemonic::PHP, 0x08, AddressingMode::Implied, 3)),
            (Mnemonic::PLA, AddressingMode::Implied) => Some(Self::entry(Mnemonic::PLA, 0x68, AddressingMode::Implied, 4)),
            (Mnemonic::PLP, AddressingMode::Implied) => Some(Self::entry(Mnemonic::PLP, 0x28, AddressingMode::Implied, 4)),
            (Mnemonic::ROL, AddressingMode::Accumulator) => Some(Self::entry(Mnemonic::ROL, 0x2A, AddressingMode::Accumulator, 2)),
            (Mnemonic::ROL, AddressingMode::ZeroPage) => Some(Self::entry(Mnemonic::ROL, 0x26, AddressingMode::ZeroPage, 5)),
            (Mnemonic::ROL, AddressingMode::ZeroPageX) => Some(Self::entry(Mnemonic::ROL, 0x36, AddressingMode::ZeroPageX, 6)),
            (Mnemonic::ROL, AddressingMode::Absolute) => Some(Self::entry(Mnemonic::ROL, 0x2E, AddressingMode::Absolute, 6)),
            (Mnemonic::ROL, AddressingMode::AbsoluteX) => Some(Self::entry(Mnemonic::ROL, 0x3E, AddressingMode::AbsoluteX, 7)),
            (Mnemonic::ROR, AddressingMode::Accumulator) => Some(Self::entry(Mnemonic::ROR, 0x6A, AddressingMode::Accumulator, 2)),
            (Mnemonic::ROR, AddressingMode::ZeroPage) => Some(Self::entry(Mnemonic::ROR, 0x66, AddressingMode::ZeroPage, 5)),
            (Mnemonic::ROR, AddressingMode::ZeroPageX) => Some(Self::entry(Mnemonic::ROR, 0x76, AddressingMode::ZeroPageX, 6)),
            (Mnemonic::ROR, AddressingMode::Absolute) => Some(Self::entry(Mnemonic::ROR, 0x6E, AddressingMode::Absolute, 6)),
            (Mnemonic::ROR, AddressingMode::AbsoluteX) => Some(Self::entry(Mnemonic::ROR, 0x7E, AddressingMode::AbsoluteX, 7)),
            (Mnemonic::RTI, AddressingMode::Implied) => Some(Self::entry(Mnemonic::RTI, 0x40, AddressingMode::Implied, 6)),
            (Mnemonic::RTS, AddressingMode::Implied) => Some(Self::entry(Mnemonic::RTS, 0x60, AddressingMode::Implied, 6)),
            (Mnemonic::SBC, AddressingMode::Immediate) => Some(Self::entry(Mnemonic::SBC, 0xE9, AddressingMode::Immediate, 2)),
            (Mnemonic::SBC, AddressingMode::ZeroPage) => Some(Self::entry(Mnemonic::SBC, 0xE5, AddressingMode::ZeroPage, 3)),
            (Mnemonic::SBC, AddressingMode::ZeroPageX) => Some(Self::entry(Mnemonic::SBC, 0xF5, AddressingMode::ZeroPageX, 4)),
            (Mnemonic::SBC, AddressingMode::Absolute) => Some(Self::entry(Mnemonic::SBC, 0xED, AddressingMode::Absolute, 4)),
            (Mnemonic::SBC, AddressingMode::AbsoluteX) => Some(Self::entry(Mnemonic::SBC, 0xFD, AddressingMode::AbsoluteX, 4)),
            (Mnemonic::SBC, AddressingMode::AbsoluteY) => Some(Self::entry(Mnemonic::SBC, 0xF9, AddressingMode::AbsoluteY, 4)),
            (Mnemonic::SBC, AddressingMode::IndirectX) => Some(Self::entry(Mnemonic::SBC, 0xE1, AddressingMode::IndirectX, 6)),
            (Mnemonic::SBC, AddressingMode::IndirectY) => Some(Self::entry(Mnemonic::SBC, 0xF1, AddressingMode::IndirectY, 5)),
            (Mnemonic::SEC, AddressingMode::Implied) => Some(Self::entry(Mnemonic::SEC, 0x38, AddressingMode::Implied, 2)),
            (Mnemonic::SED, AddressingMode::Implied) => Some(Self::entry(Mnemonic::SED, 0xF8, AddressingMode::Implied, 2)),
            (Mnemonic::SEI, AddressingMode::Implied) => Some(Self::entry(Mnemonic::SEI, 0x78, AddressingMode::Implied, 2)),
            (Mnemonic::STA, AddressingMode::ZeroPage) => Some(Self::entry(Mnemonic::STA, 0x85, AddressingMode::ZeroPage, 3)),
            (Mnemonic::STA, AddressingMode::ZeroPageX) => Some(Self::entry(Mnemonic::STA, 0x95, AddressingMode::ZeroPageX, 4)),
            (Mnemonic::STA, AddressingMode::Absolute) => Some(Self::entry(Mnemonic::STA, 0x8D, AddressingMode::Absolute, 4)),
            (Mnemonic::STA, AddressingMode::AbsoluteX) => Some(Self::entry(Mnemonic::STA, 0x9D, AddressingMode::AbsoluteX, 5)),
            (Mnemonic::STA, AddressingMode::AbsoluteY) => Some(Self::entry(Mnemonic::STA, 0x99, AddressingMode::AbsoluteY, 5)),
            (Mnemonic::STA, AddressingMode::IndirectX) => Some(Self::entry(Mnemonic::STA, 0x81, AddressingMode::IndirectX, 6)),
            (Mnemonic::STA, AddressingMode::IndirectY) => Some(Self::entry(Mnemonic::STA, 0x91, AddressingMode::IndirectY, 6)),
            (Mnemonic::STX, AddressingMode::ZeroPage) => Some(Self::entry(Mnemonic::STX, 0x86, AddressingMode::ZeroPage, 3)),
            (Mnemonic::STX, AddressingMode::ZeroPageY) => Some(Self::entry(Mnemonic::STX, 0x96, AddressingMode::ZeroPageY, 4)),
            (Mnemonic::STX, AddressingMode::Absolute) => Some(Self::entry(Mnemonic::STX, 0x8E, AddressingMode::Absolute, 4)),
            (Mnemonic::STY, AddressingMode::ZeroPage) => Some(Self::entry(Mnemonic::STY, 0x84, AddressingMode::ZeroPage, 3)),
            (Mnemonic::STY, AddressingMode::ZeroPageX) => Some(Self::entry(Mnemonic::STY, 0x94, AddressingMode::ZeroPageX, 4)),
            (Mnemonic::STY, AddressingMode::Absolute) => Some(Self::entry(Mnemonic::STY, 0x8C, AddressingMode::Absolute, 4)),
            (Mnemonic::TAX, AddressingMode::Implied) => Some(Self::entry(Mnemonic::TAX, 0xAA, AddressingMode::Implied, 2)),
            (Mnemonic::TAY, AddressingMode::Implied) => Some(Self::entry(Mnemonic::TAY, 0xA8, AddressingMode::Implied, 2)),
            (Mnemonic::TSX, AddressingMode::Implied) => Some(Self::entry(Mnemonic::TSX, 0xBA, AddressingMode::Implied, 2)),
            (Mnemonic::TXA, AddressingMode::Implied) => Some(Self::entry(Mnemonic::TXA, 0x8A, AddressingMode::Implied, 2)),
            (Mnemonic::TXS, AddressingMode::Implied) => Some(Self::entry(Mnemonic::TXS, 0x9A, AddressingMode::Implied, 2)),
            (Mnemonic::TYA, AddressingMode::Implied) => Some(Self::entry(Mnemonic::TYA, 0x98, AddressingMode::Implied, 2)),
            _ => None,
        }
    }

    /// Looks an instruction up by mnemonic name (case-insensitive) and
    /// addressing mode.
    pub fn from_mnemonic_and_addressing_mode(s: &str, mode: AddressingMode) -> (r: Option<OpCode>)
        ensures
            r == match spec_from_mnemonic(s@) {
                Some(m) => spec_opcode(m, mode),
                None => None,
            },
    {
        match Self::from_mnemonic(s) {
            Some(m) => Self::by_mnemonic_and_mode(m, mode),
            None => None,
        }
    }
}

/// Every entry of the table is internally consistent: its length is the
/// natural size of its addressing mode, the two indexes agree, and each
/// raw byte maps back to the entry that carries it.
pub proof fn lemma_opcode_table_consistent()
    ensures
        forall|b: u8|
            (#[trigger] spec_from_raw_byte(b)) matches Some(e) ==> e.code == b
                && e.length == spec_mode_length(e.mode) && 1 <= e.length <= 3 && 1 <= e.time <= 7
                && spec_opcode(e.mnemonic, e.mode) == Some(e),
        forall|m: Mnemonic, mode: AddressingMode|
            (#[trigger] spec_opcode(m, mode)) matches Some(e) ==> e.mnemonic == m
                && e.mode == mode && e.length == spec_mode_length(mode)
                && spec_from_raw_byte(e.code) == Some(e),
{
}

} // verus!
