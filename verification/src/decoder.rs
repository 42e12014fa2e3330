//! The fixed 256-entry decode table: a total lookup from a raw opcode byte
//! to its `Opcode` record. Every byte value has an entry; bytes outside the
//! documented set map to the unimplemented sentinel with a defined mode and
//! cycle count, never left absent.

use vstd::prelude::*;

use crate::instruction::AddressingMode;
use crate::instruction::Instruction;
use crate::instruction::Opcode;

verus! {

/// The decode table as a total function: the `Opcode` record each raw byte
/// denotes. Bytes outside the documented set carry the sentinel mnemonic
/// under the implied mode with a cycle count of two.
pub open spec fn spec_decode(byte: u8) -> Opcode {
    match byte {
        0x00 => Opcode {
            instruction: Instruction::BRK,
            addressing_mode: AddressingMode::IMP,
            cycles: 7,
            raw_data: 0x00,
        },
        0x01 => Opcode {
            instruction: Instruction::ORA,
            addressing_mode: AddressingMode::IZX,
            cycles: 6,
            raw_data: 0x01,
        },
        0x05 => Opcode {
            instruction: Instruction::ORA,
            addressing_mode: AddressingMode::ZP0,
            cycles: 3,
            raw_data: 0x05,
        },
        0x06 => Opcode {
            instruction: Instruction::ASL,
            addressing_mode: AddressingMode::ZP0,
            cycles: 5,
            raw_data: 0x06,
        },
        0x08 => Opcode {
            instruction: Instruction::PHP,
            addressing_mode: AddressingMode::IMP,
            cycles: 3,
            raw_data: 0x08,
        },
        0x09 => Opcode {
            instruction: Instruction::ORA,
            addressing_mode: AddressingMode::IMM,
            cycles: 2,
            raw_data: 0x09,
        },
        0x0A => Opcode {
            instruction: Instruction::ASL,
            addressing_mode: AddressingMode::IMP,
            cycles: 2,
            raw_data: 0x0A,
        },
        0x0D => Opcode {
            instruction: Instruction::ORA,
            addressing_mode: AddressingMode::ABS,
            cycles: 4,
            raw_data: 0x0D,
        },
        0x0E => Opcode {
            instruction: Instruction::ASL,
            addressing_mode: AddressingMode::ABS,
            cycles: 6,
            raw_data: 0x0E,
        },
        0x10 => Opcode {
            instruction: Instruction::BPL,
            addressing_mode: AddressingMode::REL,
            cycles: 2,
            raw_data: 0x10,
        },
        0x11 => Opcode {
            instruction: Instruction::ORA,
            addressing_mode: AddressingMode::IZY,
            cycles: 5,
            raw_data: 0x11,
        },
        0x15 => Opcode {
            instruction: Instruction::ORA,
            addressing_mode: AddressingMode::ZPX,
            cycles: 4,
            raw_data: 0x15,
        },
        0x16 => Opcode {
            instruction: Instruction::ASL,
            addressing_mode: AddressingMode::ZPX,
            cycles: 6,
            raw_data: 0x16,
        },
        0x18 => Opcode {
            instruction: Instruction::CLC,
            addressing_mode: AddressingMode::IMP,
            cycles: 2,
            raw_data: 0x18,
        },
        0x19 => Opcode {
            instruction: Instruction::ORA,
            addressing_mode: AddressingMode::ABY,
            cycles: 4,
            raw_data: 0x19,
        },
        0x1D => Opcode {
            instruction: Instruction::ORA,
            addressing_mode: AddressingMode::ABX,
            cycles: 4,
            raw_data: 0x1D,
        },
        0x1E => Opcode {
            instruction: Instruction::ASL,
            addressing_mode: AddressingMode::ABX,
            cycles: 7,
            raw_data: 0x1E,
        },
        0x20 => Opcode {
            instruction: Instruction::JSR,
            addressing_mode: AddressingMode::ABS,
            cycles: 6,
            raw_data: 0x20,
        },
        0x21 => Opcode {
            instruction: Instruction::AND,
            addressing_mode: AddressingMode::IZX,
            cycles: 6,
            raw_data: 0x21,
        },
        0x24 => Opcode {
            instruction: Instruction::BIT,
            addressing_mode: AddressingMode::ZP0,
            cycles: 3,
            raw_data: 0x24,
        },
        0x25 => Opcode {
            instruction: Instruction::AND,
            addressing_mode: AddressingMode::ZP0,
            cycles: 3,
            raw_data: 0x25,
        },
        0x26 => Opcode {
            instruction: Instruction::ROL,
            addressing_mode: AddressingMode::ZP0,
            cycles: 5,
            raw_data: 0x26,
        },
        0x28 => Opcode {
            instruction: Instruction::PLP,
            addressing_mode: AddressingMode::IMP,
            cycles: 4,
            raw_data: 0x28,
        },
        0x29 => Opcode {
            instruction: Instruction::AND,
            addressing_mode: AddressingMode::IMM,
            cycles: 2,
            raw_data: 0x29,
        },
        0x2A => Opcode {
            instruction: Instruction::ROL,
            addressing_mode: AddressingMode::IMP,
            cycles: 2,
            raw_data: 0x2A,
        },
        0x2C => Opcode {
            instruction: Instruction::BIT,
            addressing_mode: AddressingMode::ABS,
            cycles: 4,
            raw_data: 0x2C,
        },
        0x2D => Opcode {
            instruction: Instruction::AND,
            addressing_mode: AddressingMode::ABS,
            cycles: 4,
            raw_data: 0x2D,
        },
        0x2E => Opcode {
            instruction: Instruction::ROL,
            addressing_mode: AddressingMode::ABS,
            cycles: 6,
            raw_data: 0x2E,
        },
        0x30 => Opcode {
            instruction: Instruction::BMI,
            addressing_mode: AddressingMode::REL,
            cycles: 2,
            raw_data: 0x30,
        },
        0x31 => Opcode {
            instruction: Instruction::AND,
            addressing_mode: AddressingMode::IZY,
            cycles: 5,
            raw_data: 0x31,
        },
        0x35 => Opcode {
            instruction: Instruction::AND,
            addressing_mode: AddressingMode::ZPX,
            cycles: 4,
            raw_data: 0x35,
        },
        0x36 => Opcode {
            instruction: Instruction::ROL,
            addressing_mode: AddressingMode::ZPX,
            cycles: 6,
            raw_data: 0x36,
        },
        0x38 => Opcode {
            instruction: Instruction::SEC,
            addressing_mode: AddressingMode::IMP,
            cycles: 2,
            raw_data: 0x38,
        },
        0x39 => Opcode {
            instruction: Instruction::AND,
            addressing_mode: AddressingMode::ABY,
            cycles: 4,
            raw_data: 0x39,
        },
        0x3D => Opcode {
            instruction: Instruction::AND,
            addressing_mode: AddressingMode::ABX,
            cycles: 4,
            raw_data: 0x3D,
        },
        0x3E => Opcode {
            instruction: Instruction::ROL,
            addressing_mode: AddressingMode::ABX,
            cycles: 7,
            raw_data: 0x3E,
        },
        0x40 => Opcode {
            instruction: Instruction::RTI,
            addressing_mode: AddressingMode::IMP,
            cycles: 6,
            raw_data: 0x40,
        },
        0x41 => Opcode {
            instruction: Instruction::EOR,
            addressing_mode: AddressingMode::IZX,
            cycles: 6,
            raw_data: 0x41,
        },
        0x45 => Opcode {
            instruction: Instruction::EOR,
            addressing_mode: AddressingMode::ZP0,
            cycles: 3,
            raw_data: 0x45,
        },
        0x46 => Opcode {
            instruction: Instruction::LSR,
            addressing_mode: AddressingMode::ZP0,
            cycles: 5,
            raw_data: 0x46,
        },
        0x48 => Opcode {
            instruction: Instruction::PHA,
            addressing_mode: AddressingMode::IMP,
            cycles: 3,
            raw_data: 0x48,
        },
        0x49 => Opcode {
            instruction: Instruction::EOR,
            addressing_mode: AddressingMode::IMM,
            cycles: 2,
            raw_data: 0x49,
        },
        0x4A => Opcode {
            instruction: Instruction::LSR,
            addressing_mode: AddressingMode::IMP,
            cycles: 2,
            raw_data: 0x4A,
        },
        0x4C => Opcode {
            instruction: Instruction::JMP,
            addressing_mode: AddressingMode::ABS,
            cycles: 3,
            raw_data: 0x4C,
        },
        0x4D => Opcode {
            instruction: Instruction::EOR,
            addressing_mode: AddressingMode::ABS,
            cycles: 4,
            raw_data: 0x4D,
        },
        0x4E => Opcode {
            instruction: Instruction::LSR,
            addressing_mode: AddressingMode::ABS,
            cycles: 6,
            raw_data: 0x4E,
        },
        0x50 => Opcode {
            instruction: Instruction::BVC,
            addressing_mode: AddressingMode::REL,
            cycles: 2,
            raw_data: 0x50,
        },
        0x51 => Opcode {
            instruction: Instruction::EOR,
            addressing_mode: AddressingMode::IZY,
            cycles: 5,
            raw_data: 0x51,
        },
        0x55 => Opcode {
            instruction: Instruction::EOR,
            addressing_mode: AddressingMode::ZPX,
            cycles: 4,
            raw_data: 0x55,
        },
        0x56 => Opcode {
            instruction: Instruction::LSR,
            addressing_mode: AddressingMode::ZPX,
            cycles: 6,
            raw_data: 0x56,
        },
        0x58 => Opcode {
            instruction: Instruction::CLI,
            addressing_mode: AddressingMode::IMP,
            cycles: 2,
            raw_data: 0x58,
        },
        0x59 => Opcode {
            instruction: Instruction::EOR,
            addressing_mode: AddressingMode::ABY,
            cycles: 4,
            raw_data: 0x59,
        },
        0x5D => Opcode {
            instruction: Instruction::EOR,
            addressing_mode: AddressingMode::ABX,
            cycles: 4,
            raw_data: 0x5D,
        },
        0x5E => Opcode {
            instruction: Instruction::LSR,
            addressing_mode: AddressingMode::ABX,
            cycles: 7,
            raw_data: 0x5E,
        },
        0x60 => Opcode {
            instruction: Instruction::RTS,
            addressing_mode: AddressingMode::IMP,
            cycles: 6,
            raw_data: 0x60,
        },
        0x61 => Opcode {
            instruction: Instruction::ADC,
            addressing_mode: AddressingMode::IZX,
            cycles: 6,
            raw_data: 0x61,
        },
        0x65 => Opcode {
            instruction: Instruction::ADC,
            addressing_mode: AddressingMode::ZP0,
            cycles: 3,
            raw_data: 0x65,
        },
        0x66 => Opcode {
            instruction: Instruction::ROR,
            addressing_mode: AddressingMode::ZP0,
            cycles: 5,
            raw_data: 0x66,
        },
        0x68 => Opcode {
            instruction: Instruction::PLA,
            addressing_mode: AddressingMode::IMP,
            cycles: 4,
            raw_data: 0x68,
        },
        0x69 => Opcode {
            instruction: Instruction::ADC,
            addressing_mode: AddressingMode::IMM,
            cycles: 2,
            raw_data: 0x69,
        },
        0x6A => Opcode {
            instruction: Instruction::ROR,
            addressing_mode: AddressingMode::IMP,
            cycles: 2,
            raw_data: 0x6A,
        },
        0x6C => Opcode {
            instruction: Instruction::JMP,
            addressing_mode: AddressingMode::IND,
            cycles: 5,
            raw_data: 0x6C,
        },
        0x6D => Opcode {
            instruction: Instruction::ADC,
            addressing_mode: AddressingMode::ABS,
            cycles: 4,
            raw_data: 0x6D,
        },
        0x6E => Opcode {
            instruction: Instruction::ROR,
            addressing_mode: AddressingMode::ABS,
            cycles: 6,
            raw_data: 0x6E,
        },
        0x70 => Opcode {
            instruction: Instruction::BVS,
            addressing_mode: AddressingMode::REL,
            cycles: 2,
            raw_data: 0x70,
        },
        0x71 => Opcode {
            instruction: Instruction::ADC,
            addressing_mode: AddressingMode::IZY,
            cycles: 5,
            raw_data: 0x71,
        },
        0x75 => Opcode {
            instruction: Instruction::ADC,
            addressing_mode: AddressingMode::ZPX,
            cycles: 4,
            raw_data: 0x75,
        },
        0x76 => Opcode {
            instruction: Instruction::ROR,
            addressing_mode: AddressingMode::ZPX,
            cycles: 6,
            raw_data: 0x76,
        },
        0x78 => Opcode {
            instruction: Instruction::SEI,
            addressing_mode: AddressingMode::IMP,
            cycles: 2,
            raw_data: 0x78,
        },
        0x79 => Opcode {
            instruction: Instruction::ADC,
            addressing_mode: AddressingMode::ABY,
            cycles: 4,
            raw_data: 0x79,
        },
        0x7D => Opcode {
            instruction: Instruction::ADC,
            addressing_mode: AddressingMode::ABX,
            cycles: 4,
            raw_data: 0x7D,
        },
        0x7E => Opcode {
            instruction: Instruction::ROR,
            addressing_mode: AddressingMode::ABX,
            cycles: 7,
            raw_data: 0x7E,
        },
        0x81 => Opcode {
            instruction: Instruction::STA,
            addressing_mode: AddressingMode::IZX,
            cycles: 6,
            raw_data: 0x81,
        },
        0x84 => Opcode {
            instruction: Instruction::STY,
            addressing_mode: AddressingMode::ZP0,
            cycles: 3,
            raw_data: 0x84,
        },
        0x85 => Opcode {
            instruction: Instruction::STA,
            addressing_mode: AddressingMode::ZP0,
            cycles: 3,
            raw_data: 0x85,
        },
        0x86 => Opcode {
            instruction: Instruction::STX,
            addressing_mode: AddressingMode::ZP0,
            cycles: 3,
            raw_data: 0x86,
        },
        0x88 => Opcode {
            instruction: Instruction::DEY,
            addressing_mode: AddressingMode::IMP,
            cycles: 2,
            raw_data: 0x88,
        },
        0x8A => Opcode {
            instruction: Instruction::TXA,
            addressing_mode: AddressingMode::IMP,
            cycles: 2,
            raw_data: 0x8A,
        },
        0x8C => Opcode {
            instruction: Instruction::STY,
            addressing_mode: AddressingMode::ABS,
            cycles: 4,
            raw_data: 0x8C,
        },
        0x8D => Opcode {
            instruction: Instruction::STA,
            addressing_mode: AddressingMode::ABS,
            cycles: 4,
            raw_data: 0x8D,
        },
        0x8E => Opcode {
            instruction: Instruction::STX,
            addressing_mode: AddressingMode::ABS,
            cycles: 4,
            raw_data: 0x8E,
        },
        0x90 => Opcode {
            instruction: Instruction::BCC,
            addressing_mode: AddressingMode::REL,
            cycles: 2,
            raw_data: 0x90,
        },
        0x91 => Opcode {
            instruction: Instruction::STA,
            addressing_mode: AddressingMode::IZY,
            cycles: 6,
            raw_data: 0x91,
        },
        0x94 => Opcode {
            instruction: Instruction::STY,
            addressing_mode: AddressingMode::ZPX,
            cycles: 4,
            raw_data: 0x94,
        },
        0x95 => Opcode {
            instruction: Instruction::STA,
            addressing_mode: AddressingMode::ZPX,
            cycles: 4,
            raw_data: 0x95,
        },
        0x96 => Opcode {
            instruction: Instruction::STX,
            addressing_mode: AddressingMode::ZPY,
            cycles: 4,
            raw_data: 0x96,
        },
        0x98 => Opcode {
            instruction: Instruction::TYA,
            addressing_mode: AddressingMode::IMP,
            cycles: 2,
            raw_data: 0x98,
        },
        0x99 => Opcode {
            instruction: Instruction::STA,
            addressing_mode: AddressingMode::ABY,
            cycles: 5,
            raw_data: 0x99,
        },
        0x9A => Opcode {
            instruction: Instruction::TXS,
            addressing_mode: AddressingMode::IMP,
            cycles: 2,
            raw_data: 0x9A,
        },
        0x9D => Opcode {
            instruction: Instruction::STA,
            addressing_mode: AddressingMode::ABX,
            cycles: 5,
            raw_data: 0x9D,
        },
        0xA0 => Opcode {
            instruction: Instruction::LDY,
            addressing_mode: AddressingMode::IMM,
            cycles: 2,
            raw_data: 0xA0,
        },
        0xA1 => Opcode {
            instruction: Instruction::LDA,
            addressing_mode: AddressingMode::IZX,
            cycles: 6,
            raw_data: 0xA1,
        },
        0xA2 => Opcode {
            instruction: Instruction::LDX,
            addressing_mode: AddressingMode::IMM,
            cycles: 2,
            raw_data: 0xA2,
        },
        0xA4 => Opcode {
            instruction: Instruction::LDY,
            addressing_mode: AddressingMode::ZP0,
            cycles: 3,
            raw_data: 0xA4,
        },
        0xA5 => Opcode {
            instruction: Instruction::LDA,
            addressing_mode: AddressingMode::ZP0,
            cycles: 3,
            raw_data: 0xA5,
        },
        0xA6 => Opcode {
            instruction: Instruction::LDX,
            addressing_mode: AddressingMode::ZP0,
            cycles: 3,
            raw_data: 0xA6,
        },
        0xA8 => Opcode {
            instruction: Instruction::TAY,
            addressing_mode: AddressingMode::IMP,
            cycles: 2,
            raw_data: 0xA8,
        },
        0xA9 => Opcode {
            instruction: Instruction::LDA,
            addressing_mode: AddressingMode::IMM,
            cycles: 2,
            raw_data: 0xA9,
        },
        0xAA => Opcode {
            instruction: Instruction::TAX,
            addressing_mode: AddressingMode::IMP,
            cycles: 2,
            raw_data: 0xAA,
        },
        0xAC => Opcode {
            instruction: Instruction::LDY,
            addressing_mode: AddressingMode::ABS,
            cycles: 4,
            raw_data: 0xAC,
        },
        0xAD => Opcode {
            instruction: Instruction::LDA,
            addressing_mode: AddressingMode::ABS,
            cycles: 4,
            raw_data: 0xAD,
        },
        0xAE => Opcode {
            instruction: Instruction::LDX,
            addressing_mode: AddressingMode::ABS,
            cycles: 4,
            raw_data: 0xAE,
        },
        0xB0 => Opcode {
            instruction: Instruction::BCS,
            addressing_mode: AddressingMode::REL,
            cycles: 2,
            raw_data: 0xB0,
        },
        0xB1 => Opcode {
            instruction: Instruction::LDA,
            addressing_mode: AddressingMode::IZY,
            cycles: 5,
            raw_data: 0xB1,
        },
        0xB4 => Opcode {
            instruction: Instruction::LDY,
            addressing_mode: AddressingMode::ZPX,
            cycles: 4,
            raw_data: 0xB4,
        },
        0xB5 => Opcode {
            instruction: Instruction::LDA,
            addressing_mode: AddressingMode::ZPX,
            cycles: 4,
            raw_data: 0xB5,
        },
        0xB6 => Opcode {
            instruction: Instruction::LDX,
            addressing_mode: AddressingMode::ZPY,
            cycles: 4,
            raw_data: 0xB6,
        },
        0xB8 => Opcode {
            instruction: Instruction::CLV,
            addressing_mode: AddressingMode::IMP,
            cycles: 2,
            raw_data: 0xB8,
        },
        0xB9 => Opcode {
            instruction: Instruction::LDA,
            addressing_mode: AddressingMode::ABY,
            cycles: 4,
            raw_data: 0xB9,
        },
        0xBA => Opcode {
            instruction: Instruction::TSX,
            addressing_mode: AddressingMode::IMP,
            cycles: 2,
            raw_data: 0xBA,
        },
        0xBC => Opcode {
            instruction: Instruction::LDY,
            addressing_mode: AddressingMode::ABX,
            cycles: 4,
            raw_data: 0xBC,
        },
        0xBD => Opcode {
            instruction: Instruction::LDA,
            addressing_mode: AddressingMode::ABX,
            cycles: 4,
            raw_data: 0xBD,
        },
        0xBE => Opcode {
            instruction: Instruction::LDX,
            addressing_mode: AddressingMode::ABY,
            cycles: 4,
            raw_data: 0xBE,
        },
        0xC0 => Opcode {
            instruction: Instruction::CPY,
            addressing_mode: AddressingMode::IMM,
            cycles: 2,
            raw_data: 0xC0,
        },
        0xC1 => Opcode {
            instruction: Instruction::CMP,
            addressing_mode: AddressingMode::IZX,
            cycles: 6,
            raw_data: 0xC1,
        },
        0xC4 => Opcode {
            instruction: Instruction::CPY,
            addressing_mode: AddressingMode::ZP0,
            cycles: 3,
            raw_data: 0xC4,
        },
        0xC5 => Opcode {
            instruction: Instruction::CMP,
            addressing_mode: AddressingMode::ZP0,
            cycles: 3,
            raw_data: 0xC5,
        },
        0xC6 => Opcode {
            instruction: Instruction::DEC,
            addressing_mode: AddressingMode::ZP0,
            cycles: 5,
            raw_data: 0xC6,
        },
        0xC8 => Opcode {
            instruction: Instruction::INY,
            addressing_mode: AddressingMode::IMP,
            cycles: 2,
            raw_data: 0xC8,
        },
        0xC9 => Opcode {
            instruction: Instruction::CMP,
            addressing_mode: AddressingMode::IMM,
            cycles: 2,
            raw_data: 0xC9,
        },
        0xCA => Opcode {
            instruction: Instruction::DEX,
            addressing_mode: AddressingMode::IMP,
            cycles: 2,
            raw_data: 0xCA,
        },
        0xCC => Opcode {
            instruction: Instruction::CPY,
            addressing_mode: AddressingMode::ABS,
            cycles: 4,
            raw_data: 0xCC,
        },
        0xCD => Opcode {
            instruction: Instruction::CMP,
            addressing_mode: AddressingMode::ABS,
            cycles: 4,
            raw_data: 0xCD,
        },
        0xCE => Opcode {
            instruction: Instruction::DEC,
            addressing_mode: AddressingMode::ABS,
            cycles: 6,
            raw_data: 0xCE,
        },
        0xD0 => Opcode {
            instruction: Instruction::BNE,
            addressing_mode: AddressingMode::REL,
            cycles: 2,
            raw_data: 0xD0,
        },
        0xD1 => Opcode {
            instruction: Instruction::CMP,
            addressing_mode: AddressingMode::IZY,
            cycles: 5,
            raw_data: 0xD1,
        },
        0xD5 => Opcode {
            instruction: Instruction::CMP,
            addressing_mode: AddressingMode::ZPX,
            cycles: 4,
            raw_data: 0xD5,
        },
        0xD6 => Opcode {
            instruction: Instruction::DEC,
            addressing_mode: AddressingMode::ZPX,
            cycles: 6,
            raw_data: 0xD6,
        },
        0xD8 => Opcode {
            instruction: Instruction::CLD,
            addressing_mode: AddressingMode::IMP,
            cycles: 2,
            raw_data: 0xD8,
        },
        0xD9 => Opcode {
            instruction: Instruction::CMP,
            addressing_mode: AddressingMode::ABY,
            cycles: 4,
            raw_data: 0xD9,
        },
        0xDD => Opcode {
            instruction: Instruction::CMP,
            addressing_mode: AddressingMode::ABX,
            cycles: 4,
            raw_data: 0xDD,
        },
        0xDE => Opcode {
            instruction: Instruction::DEC,
            addressing_mode: AddressingMode::ABX,
            cycles: 7,
            raw_data: 0xDE,
        },
        0xE0 => Opcode {
            instruction: Instruction::CPX,
            addressing_mode: AddressingMode::IMM,
            cycles: 2,
            raw_data: 0xE0,
        },
        0xE1 => Opcode {
            instruction: Instruction::SBC,
            addressing_mode: AddressingMode::IZX,
            cycles: 6,
            raw_data: 0xE1,
        },
        0xE4 => Opcode {
            instruction: Instruction::CPX,
            addressing_mode: AddressingMode::ZP0,
            cycles: 3,
            raw_data: 0xE4,
        },
        0xE5 => Opcode {
            instruction: Instruction::SBC,
            addressing_mode: AddressingMode::ZP0,
            cycles: 3,
            raw_data: 0xE5,
        },
        0xE6 => Opcode {
            instruction: Instruction::INC,
            addressing_mode: AddressingMode::ZP0,
            cycles: 5,
            raw_data: 0xE6,
        },
        0xE8 => Opcode {
            instruction: Instruction::INX,
            addressing_mode: AddressingMode::IMP,
            cycles: 2,
            raw_data: 0xE8,
        },
        0xE9 => Opcode {
            instruction: Instruction::SBC,
            addressing_mode: AddressingMode::IMM,
            cycles: 2,
            raw_data: 0xE9,
        },
        0xEA => Opcode {
            instruction: Instruction::NOP,
            addressing_mode: AddressingMode::IMP,
            cycles: 2,
            raw_data: 0xEA,
        },
        0xEC => Opcode {
            instruction: Instruction::CPX,
            addressing_mode: AddressingMode::ABS,
            cycles: 4,
            raw_data: 0xEC,
        },
        0xED => Opcode {
            instruction: Instruction::SBC,
            addressing_mode: AddressingMode::ABS,
            cycles: 4,
            raw_data: 0xED,
        },
        0xEE => Opcode {
            instruction: Instruction::INC,
            addressing_mode: AddressingMode::ABS,
            cycles: 6,
            raw_data: 0xEE,
        },
        0xF0 => Opcode {
            instruction: Instruction::BEQ,
            addressing_mode: AddressingMode::REL,
            cycles: 2,
            raw_data: 0xF0,
        },
        0xF1 => Opcode {
            instruction: Instruction::SBC,
            addressing_mode: AddressingMode::IZY,
            cycles: 5,
            raw_data: 0xF1,
        },
        0xF5 => Opcode {
            instruction: Instruction::SBC,
            addressing_mode: AddressingMode::ZPX,
            cycles: 4,
            raw_data: 0xF5,
        },
        0xF6 => Opcode {
            instruction: Instruction::INC,
            addressing_mode: AddressingMode::ZPX,
            cycles: 6,
            raw_data: 0xF6,
        },
        0xF8 => Opcode {
            instruction: Instruction::SED,
            addressing_mode: AddressingMode::IMP,
            cycles: 2,
            raw_data: 0xF8,
        },
        0xF9 => Opcode {
            instruction: Instruction::SBC,
            addressing_mode: AddressingMode::ABY,
            cycles: 4,
            raw_data: 0xF9,
        },
        0xFD => Opcode {
            instruction: Instruction::SBC,
            addressing_mode: AddressingMode::ABX,
            cycles: 4,
            raw_data: 0xFD,
        },
        0xFE => Opcode {
            instruction: Instruction::INC,
            addressing_mode: AddressingMode::ABX,
            cycles: 7,
            raw_data: 0xFE,
        },
        _ => Opcode {
            instruction: Instruction::XXX,
            addressing_mode: AddressingMode::IMP,
            cycles: 2,
            raw_data: byte,
        },
    }
}

/// Looks `byte` up in the decode table. Total over all 256 byte values, with
/// the base cycle count of every entry between one and seven.
#[verifier::rlimit(60)]
pub fn decode(byte: u8) -> (r: Opcode)
    ensures
        r == spec_decode(byte),
        r.raw_data == byte,
        1 <= r.cycles <= 7,
{
    match byte {
        0x00 => Opcode::from(Instruction::BRK, AddressingMode::IMP, 7, 0x00),
        0x01 => Opcode::from(Instruction::ORA, AddressingMode::IZX, 6, 0x01),
        0x05 => Opcode::from(Instruction::ORA, AddressingMode::ZP0, 3, 0x05),
        0x06 => Opcode::from(Instruction::ASL, AddressingMode::ZP0, 5, 0x06),
        0x08 => Opcode::from(Instruction::PHP, AddressingMode::IMP, 3, 0x08),
        0x09 => Opcode::from(Instruction::ORA, AddressingMode::IMM, 2, 0x09),
        0x0A => Opcode::from(Instruction::ASL, AddressingMode::IMP, 2, 0x0A),
        0x0D => Opcode::from(Instruction::ORA, AddressingMode::ABS, 4, 0x0D),
        0x0E => Opcode::from(Instruction::ASL, AddressingMode::ABS, 6, 0x0E),
        0x10 => Opcode::from(Instruction::BPL, AddressingMode::REL, 2, 0x10),
        0x11 => Opcode::from(Instruction::ORA, AddressingMode::IZY, 5, 0x11),
        0x15 => Opcode::from(Instruction::ORA, AddressingMode::ZPX, 4, 0x15),
        0x16 => Opcode::from(Instruction::ASL, AddressingMode::ZPX, 6, 0x16),
        0x18 => Opcode::from(Instruction::CLC, AddressingMode::IMP, 2, 0x18),
        0x19 => Opcode::from(Instruction::ORA, AddressingMode::ABY, 4, 0x19),
        0x1D => Opcode::from(Instruction::ORA, AddressingMode::ABX, 4, 0x1D),
        0x1E => Opcode::from(Instruction::ASL, AddressingMode::ABX, 7, 0x1E),
        0x20 => Opcode::from(Instruction::JSR, AddressingMode::ABS, 6, 0x20),
        0x21 => Opcode::from(Instruction::AND, AddressingMode::IZX, 6, 0x21),
        0x24 => Opcode::from(Instruction::BIT, AddressingMode::ZP0, 3, 0x24),
        0x25 => Opcode::from(Instruction::AND, AddressingMode::ZP0, 3, 0x25),
        0x26 => Opcode::from(Instruction::ROL, AddressingMode::ZP0, 5, 0x26),
        0x28 => Opcode::from(Instruction::PLP, AddressingMode::IMP, 4, 0x28),
        0x29 => Opcode::from(Instruction::AND, AddressingMode::IMM, 2, 0x29),
        0x2A => Opcode::from(Instruction::ROL, AddressingMode::IMP, 2, 0x2A),
        0x2C => Opcode::from(Instruction::BIT, AddressingMode::ABS, 4, 0x2C),
        0x2D => Opcode::from(Instruction::AND, AddressingMode::ABS, 4, 0x2D),
        0x2E => Opcode::from(Instruction::ROL, AddressingMode::ABS, 6, 0x2E),
        0x30 => Opcode::from(Instruction::BMI, AddressingMode::REL, 2, 0x30),
        0x31 => Opcode::from(Instruction::AND, AddressingMode::IZY, 5, 0x31),
        0x35 => Opcode::from(Instruction::AND, AddressingMode::ZPX, 4, 0x35),
        0x36 => Opcode::from(Instruction::ROL, AddressingMode::ZPX, 6, 0x36),
        0x38 => Opcode::from(Instruction::SEC, AddressingMode::IMP, 2, 0x38),
        0x39 => Opcode::from(Instruction::AND, AddressingMode::ABY, 4, 0x39),
        0x3D => Opcode::from(Instruction::AND, AddressingMode::ABX, 4, 0x3D),
        0x3E => Opcode::from(Instruction::ROL, AddressingMode::ABX, 7, 0x3E),
        0x40 => Opcode::from(Instruction::RTI, AddressingMode::IMP, 6, 0x40),
        0x41 => Opcode::from(Instruction::EOR, AddressingMode::IZX, 6, 0x41),
        0x45 => Opcode::from(Instruction::EOR, AddressingMode::ZP0, 3, 0x45),
        0x46 => Opcode::from(Instruction::LSR, AddressingMode::ZP0, 5, 0x46),
        0x48 => Opcode::from(Instruction::PHA, AddressingMode::IMP, 3, 0x48),
        0x49 => Opcode::from(Instruction::EOR, AddressingMode::IMM, 2, 0x49),
        0x4A => Opcode::from(Instruction::LSR, AddressingMode::IMP, 2, 0x4A),
        0x4C => Opcode::from(Instruction::JMP, AddressingMode::ABS, 3, 0x4C),
        0x4D => Opcode::from(Instruction::EOR, AddressingMode::ABS, 4, 0x4D),
        0x4E => Opcode::from(Instruction::LSR, AddressingMode::ABS, 6, 0x4E),
        0x50 => Opcode::from(Instruction::BVC, AddressingMode::REL, 2, 0x50),
        0x51 => Opcode::from(Instruction::EOR, AddressingMode::IZY, 5, 0x51),
        0x55 => Opcode::from(Instruction::EOR, AddressingMode::ZPX, 4, 0x55),
        0x56 => Opcode::from(Instruction::LSR, AddressingMode::ZPX, 6, 0x56),
        0x58 => Opcode::from(Instruction::CLI, AddressingMode::IMP, 2, 0x58),
        0x59 => Opcode::from(Instruction::EOR, AddressingMode::ABY, 4, 0x59),
        0x5D => Opcode::from(Instruction::EOR, AddressingMode::ABX, 4, 0x5D),
        0x5E => Opcode::from(Instruction::LSR, AddressingMode::ABX, 7, 0x5E),
        0x60 => Opcode::from(Instruction::RTS, AddressingMode::IMP, 6, 0x60),
        0x61 => Opcode::from(Instruction::ADC, AddressingMode::IZX, 6, 0x61),
        0x65 => Opcode::from(Instruction::ADC, AddressingMode::ZP0, 3, 0x65),
        0x66 => Opcode::from(Instruction::ROR, AddressingMode::ZP0, 5, 0x66),
        0x68 => Opcode::from(Instruction::PLA, AddressingMode::IMP, 4, 0x68),
        0x69 => Opcode::from(Instruction::ADC, AddressingMode::IMM, 2, 0x69),
        0x6A => Opcode::from(Instruction::ROR, AddressingMode::IMP, 2, 0x6A),
        0x6C => Opcode::from(Instruction::JMP, AddressingMode::IND, 5, 0x6C),
        0x6D => Opcode::from(Instruction::ADC, AddressingMode::ABS, 4, 0x6D),
        0x6E => Opcode::from(Instruction::ROR, AddressingMode::ABS, 6, 0x6E),
        0x70 => Opcode::from(Instruction::BVS, AddressingMode::REL, 2, 0x70),
        0x71 => Opcode::from(Instruction::ADC, AddressingMode::IZY, 5, 0x71),
        0x75 => Opcode::from(Instruction::ADC, AddressingMode::ZPX, 4, 0x75),
        0x76 => Opcode::from(Instruction::ROR, AddressingMode::ZPX, 6, 0x76),
        0x78 => Opcode::from(Instruction::SEI, AddressingMode::IMP, 2, 0x78),
        0x79 => Opcode::from(Instruction::ADC, AddressingMode::ABY, 4, 0x79),
        0x7D => Opcode::from(Instruction::ADC, AddressingMode::ABX, 4, 0x7D),
        0x7E => Opcode::from(Instruction::ROR, AddressingMode::ABX, 7, 0x7E),
        0x81 => Opcode::from(Instruction::STA, AddressingMode::IZX, 6, 0x81),
        0x84 => Opcode::from(Instruction::STY, AddressingMode::ZP0, 3, 0x84),
        0x85 => Opcode::from(Instruction::STA, AddressingMode::ZP0, 3, 0x85),
        0x86 => Opcode::from(Instruction::STX, AddressingMode::ZP0, 3, 0x86),
        0x88 => Opcode::from(Instruction::DEY, AddressingMode::IMP, 2, 0x88),
        0x8A => Opcode::from(Instruction::TXA, AddressingMode::IMP, 2, 0x8A),
        0x8C => Opcode::from(Instruction::STY, AddressingMode::ABS, 4, 0x8C),
        0x8D => Opcode::from(Instruction::STA, AddressingMode::ABS, 4, 0x8D),
        0x8E => Opcode::from(Instruction::STX, AddressingMode::ABS, 4, 0x8E),
        0x90 => Opcode::from(Instruction::BCC, AddressingMode::REL, 2, 0x90),
        0x91 => Opcode::from(Instruction::STA, AddressingMode::IZY, 6, 0x91),
        0x94 => Opcode::from(Instruction::STY, AddressingMode::ZPX, 4, 0x94),
        0x95 => Opcode::from(Instruction::STA, AddressingMode::ZPX, 4, 0x95),
        0x96 => Opcode::from(Instruction::STX, AddressingMode::ZPY, 4, 0x96),
        0x98 => Opcode::from(Instruction::TYA, AddressingMode::IMP, 2, 0x98),
        0x99 => Opcode::from(Instruction::STA, AddressingMode::ABY, 5, 0x99),
        0x9A => Opcode::from(Instruction::TXS, AddressingMode::IMP, 2, 0x9A),
        0x9D => Opcode::from(Instruction::STA, AddressingMode::ABX, 5, 0x9D),
        0xA0 => Opcode::from(Instruction::LDY, AddressingMode::IMM, 2, 0xA0),
        0xA1 => Opcode::from(Instruction::LDA, AddressingMode::IZX, 6, 0xA1),
        0xA2 => Opcode::from(Instruction::LDX, AddressingMode::IMM, 2, 0xA2),
        0xA4 => Opcode::from(Instruction::LDY, AddressingMode::ZP0, 3, 0xA4),
        0xA5 => Opcode::from(Instruction::LDA, AddressingMode::ZP0, 3, 0xA5),
        0xA6 => Opcode::from(Instruction::LDX, AddressingMode::ZP0, 3, 0xA6),
        0xA8 => Opcode::from(Instruction::TAY, AddressingMode::IMP, 2, 0xA8),
        0xA9 => Opcode::from(Instruction::LDA, AddressingMode::IMM, 2, 0xA9),
        0xAA => Opcode::from(Instruction::TAX, AddressingMode::IMP, 2, 0xAA),
        0xAC => Opcode::from(Instruction::LDY, AddressingMode::ABS, 4, 0xAC),
        0xAD => Opcode::from(Instruction::LDA, AddressingMode::ABS, 4, 0xAD),
        0xAE => Opcode::from(Instruction::LDX, AddressingMode::ABS, 4, 0xAE),
        0xB0 => Opcode::from(Instruction::BCS, AddressingMode::REL, 2, 0xB0),
        0xB1 => Opcode::from(Instruction::LDA, AddressingMode::IZY, 5, 0xB1),
        0xB4 => Opcode::from(Instruction::LDY, AddressingMode::ZPX, 4, 0xB4),
        0xB5 => Opcode::from(Instruction::LDA, AddressingMode::ZPX, 4, 0xB5),
        0xB6 => Opcode::from(Instruction::LDX, AddressingMode::ZPY, 4, 0xB6),
        0xB8 => Opcode::from(Instruction::CLV, AddressingMode::IMP, 2, 0xB8),
        0xB9 => Opcode::from(Instruction::LDA, AddressingMode::ABY, 4, 0xB9),
        0xBA => Opcode::from(Instruction::TSX, AddressingMode::IMP, 2, 0xBA),
        0xBC => Opcode::from(Instruction::LDY, AddressingMode::ABX, 4, 0xBC),
        0xBD => Opcode::from(Instruction::LDA, AddressingMode::ABX, 4, 0xBD),
        0xBE => Opcode::from(Instruction::LDX, AddressingMode::ABY, 4, 0xBE),
        0xC0 => Opcode::from(Instruction::CPY, AddressingMode::IMM, 2, 0xC0),
        0xC1 => Opcode::from(Instruction::CMP, AddressingMode::IZX, 6, 0xC1),
        0xC4 => Opcode::from(Instruction::CPY, AddressingMode::ZP0, 3, 0xC4),
        0xC5 => Opcode::from(Instruction::CMP, AddressingMode::ZP0, 3, 0xC5),
        0xC6 => Opcode::from(Instruction::DEC, AddressingMode::ZP0, 5, 0xC6),
        0xC8 => Opcode::from(Instruction::INY, AddressingMode::IMP, 2, 0xC8),
        0xC9 => Opcode::from(Instruction::CMP, AddressingMode::IMM, 2, 0xC9),
        0xCA => Opcode::from(Instruction::DEX, AddressingMode::IMP, 2, 0xCA),
        0xCC => Opcode::from(Instruction::CPY, AddressingMode::ABS, 4, 0xCC),
        0xCD => Opcode::from(Instruction::CMP, AddressingMode::ABS, 4, 0xCD),
        0xCE => Opcode::from(Instruction::DEC, AddressingMode::ABS, 6, 0xCE),
        0xD0 => Opcode::from(Instruction::BNE, AddressingMode::REL, 2, 0xD0),
        0xD1 => Opcode::from(Instruction::CMP, AddressingMode::IZY, 5, 0xD1),
        0xD5 => Opcode::from(Instruction::CMP, AddressingMode::ZPX, 4, 0xD5),
        0xD6 => Opcode::from(Instruction::DEC, AddressingMode::ZPX, 6, 0xD6),
        0xD8 => Opcode::from(Instruction::CLD, AddressingMode::IMP, 2, 0xD8),
        0xD9 => Opcode::from(Instruction::CMP, AddressingMode::ABY, 4, 0xD9),
        0xDD => Opcode::from(Instruction::CMP, AddressingMode::ABX, 4, 0xDD),
        0xDE => Opcode::from(Instruction::DEC, AddressingMode::ABX, 7, 0xDE),
        0xE0 => Opcode::from(Instruction::CPX, AddressingMode::IMM, 2, 0xE0),
        0xE1 => Opcode::from(Instruction::SBC, AddressingMode::IZX, 6, 0xE1),
        0xE4 => Opcode::from(Instruction::CPX, AddressingMode::ZP0, 3, 0xE4),
        0xE5 => Opcode::from(Instruction::SBC, AddressingMode::ZP0, 3, 0xE5),
        0xE6 => Opcode::from(Instruction::INC, AddressingMode::ZP0, 5, 0xE6),
        0xE8 => Opcode::from(Instruction::INX, AddressingMode::IMP, 2, 0xE8),
        0xE9 => Opcode::from(Instruction::SBC, AddressingMode::IMM, 2, 0xE9),
        0xEA => Opcode::from(Instruction::NOP, AddressingMode::IMP, 2, 0xEA),
        0xEC => Opcode::from(Instruction::CPX, AddressingMode::ABS, 4, 0xEC),
        0xED => Opcode::from(Instruction::SBC, AddressingMode::ABS, 4, 0xED),
        0xEE => Opcode::from(Instruction::INC, AddressingMode::ABS, 6, 0xEE),
        0xF0 => Opcode::from(Instruction::BEQ, AddressingMode::REL, 2, 0xF0),
        0xF1 => Opcode::from(Instruction::SBC, AddressingMode::IZY, 5, 0xF1),
        0xF5 => Opcode::from(Instruction::SBC, AddressingMode::ZPX, 4, 0xF5),
        0xF6 => Opcode::from(Instruction::INC, AddressingMode::ZPX, 6, 0xF6),
        0xF8 => Opcode::from(Instruction::SED, AddressingMode::IMP, 2, 0xF8),
        0xF9 => Opcode::from(Instruction::SBC, AddressingMode::ABY, 4, 0xF9),
        0xFD => Opcode::from(Instruction::SBC, AddressingMode::ABX, 4, 0xFD),
        0xFE => Opcode::from(Instruction::INC, AddressingMode::ABX, 7, 0xFE),
        _ => Opcode::from(Instruction::XXX, AddressingMode::IMP, 2, byte),
    }
}

/// Decode-table totality: every byte value, including the unimplemented
/// ones, decodes to a record that carries that byte back, an addressing mode,
/// and a base cycle count between one and seven.
#[verifier::rlimit(60)]
pub proof fn lemma_decode_total(byte: u8)
    ensures
        spec_decode(byte).raw_data == byte,
        1 <= spec_decode(byte).cycles <= 7,
{
}

} // verus!
