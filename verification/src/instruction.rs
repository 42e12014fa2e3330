//! The closed instruction-set model: mnemonics, addressing modes, and the
//! `Opcode` record binding one raw byte to both together with its base cycle
//! count.

use vstd::prelude::*;

verus! {

/// The rule by which an instruction's operand location is computed from the
/// bytes that follow the opcode and from the index registers.
#[derive(Clone, Copy, Debug, PartialEq, Eq, Structural)]
pub enum AddressingMode {
    /// No operand bytes; the operand is a register or none. Shift and rotate
    /// opcodes under this mode act on the accumulator.
    IMP,
    /// One byte; the operand is that byte itself.
    IMM,
    /// One byte; an address in the zero page, `0x00`-`0xFF`.
    ZP0,
    /// One byte; `(byte + X) mod 256`, wrapping inside the zero page.
    ZPX,
    /// One byte; `(byte + Y) mod 256`, wrapping inside the zero page.
    ZPY,
    /// One byte; a signed offset from the address after the instruction.
    REL,
    /// Two bytes; a little-endian 16-bit address.
    ABS,
    /// Two bytes; the little-endian address plus X, full 16-bit add.
    ABX,
    /// Two bytes; the little-endian address plus Y, full 16-bit add.
    ABY,
    /// Two bytes; the address read little-endian from the pointed-at pair,
    /// the high pointer byte wrapping inside its page when the low is `0xFF`.
    IND,
    /// One byte; a zero-page pointer at `(byte + X) mod 256` holding the
    /// little-endian effective address.
    IZX,
    /// One byte; a zero-page pointer at the byte holding a little-endian base
    /// to which Y is added, full 16-bit add.
    IZY,
}

/// The closed set of mnemonics, plus the sentinel `XXX` every opcode byte
/// outside the documented set decodes to.
#[derive(Clone, Copy, Debug, PartialEq, Eq, Structural)]
pub enum Instruction {
    ADC, AND, ASL, BCC, BCS, BEQ, BIT, BMI, BNE, BPL, BRK, BVC, BVS, CLC,
    CLD, CLI, CLV, CMP, CPX, CPY, DEC, DEX, DEY, EOR, INC, INX, INY, JMP,
    JSR, LDA, LDX, LDY, LSR, NOP, ORA, PHA, PHP, PLA, PLP, ROL, ROR, RTI,
    RTS, SBC, SEC, SED, SEI, STA, STX, STY, TAX, TAY, TSX, TXA, TXS, TYA,
    /// Sentinel for the opcode bytes the decode table leaves unimplemented;
    /// executing it is reported as a decode-table gap, never as a no-op.
    XXX,
}

/// One decoded instruction definition: mnemonic, addressing mode, base cycle
/// count, and the raw byte it was decoded from. Built once at table-build
/// time and never mutated.
#[derive(Clone, Copy, Debug, PartialEq, Eq, Structural)]
pub struct Opcode {
    pub instruction: Instruction,
    pub addressing_mode: AddressingMode,
    pub cycles: usize,
    pub raw_data: u8,
}

impl Opcode {
    /// Binds a mnemonic, an addressing mode, a base cycle count and a raw
    /// byte into one record.
    pub fn from(
        instruction: Instruction,
        addressing_mode: AddressingMode,
        cycles: usize,
        raw_data: u8,
    ) -> (r: Opcode)
        ensures
            r == (Opcode { instruction, addressing_mode, cycles, raw_data }),
    {
        Opcode { addressing_mode, instruction, cycles, raw_data }
    }
}

} // verus!
