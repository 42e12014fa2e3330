//! The mathematical model of the processor: the ghost machine state, the
//! addressing-mode resolution rules, the per-instruction effect, and the
//! step interpreter. `Cpu::execute` is proved to follow `spec_step` exactly,
//! fault states and cycle accounting included.

use vstd::prelude::*;

use crate::Fault;
use crate::decoder::spec_decode;
use crate::flags::Flag;
use crate::flags::Flags;
use crate::flags::byte_of_flags;
use crate::flags::flag_assigned;
use crate::flags::flags_of_byte;
use crate::instruction::AddressingMode;
use crate::instruction::Instruction;
use crate::instruction::Opcode;

verus! {

/// The whole observable machine state: register file, flags, memory
/// contents, and the two interrupt lines.
pub struct CpuState {
    pub a: u8,
    pub x: u8,
    pub y: u8,
    pub sp: u8,
    pub pc: u16,
    pub p: Flags,
    pub mem: Seq<u8>,
    pub irq: bool,
    pub nmi: bool,
}

/// True when `addr` lies inside the backing storage of `s`.
pub open spec fn addr_in(s: CpuState, addr: u16) -> bool {
    (addr as int) < s.mem.len()
}

/// The byte of `s` at `addr`.
pub open spec fn byte_at(s: CpuState, addr: u16) -> u8 {
    s.mem[addr as int]
}

/// The 256-byte page an address falls in.
pub open spec fn page(addr: u16) -> int {
    addr as int / 256
}

/// A 16-bit word assembled from its high and low bytes.
pub open spec fn word(hi: u8, lo: u8) -> u16 {
    (hi as int * 256 + lo as int) as u16
}

/// The little-endian word whose low byte sits at `lo_addr` and high byte at
/// `hi_addr`, when both lie in range.
pub open spec fn word_at(s: CpuState, lo_addr: u16, hi_addr: u16) -> Option<u16> {
    if addr_in(s, lo_addr) && addr_in(s, hi_addr) {
        Some(word(byte_at(s, hi_addr), byte_at(s, lo_addr)))
    } else {
        None
    }
}

/// What resolving an addressing mode yields: the program counter after the
/// operand bytes, the effective address, and whether the computation crossed
/// a page boundary.
pub struct Resolved {
    pub pc: u16,
    pub addr: u16,
    pub crossed: bool,
}

/// Operand resolution, one rule per addressing mode, applied with the
/// program counter already past the opcode byte. `None` when an operand
/// fetch would leave the backing storage.
pub open spec fn spec_resolve(mode: AddressingMode, s: CpuState) -> Option<Resolved> {
    match mode {
        AddressingMode::IMP => Some(Resolved { pc: s.pc, addr: 0, crossed: false }),
        AddressingMode::IMM => Some(
            Resolved { pc: s.pc.wrapping_add(1), addr: s.pc, crossed: false },
        ),
        AddressingMode::ZP0 => if addr_in(s, s.pc) {
            Some(
                Resolved {
                    pc: s.pc.wrapping_add(1),
                    addr: byte_at(s, s.pc) as u16,
                    crossed: false,
                },
            )
        } else {
            None
        },
        AddressingMode::ZPX => if addr_in(s, s.pc) {
            Some(
                Resolved {
                    pc: s.pc.wrapping_add(1),
                    addr: byte_at(s, s.pc).wrapping_add(s.x) as u16,
                    crossed: false,
                },
            )
        } else {
            None
        },
        AddressingMode::ZPY => if addr_in(s, s.pc) {
            Some(
                Resolved {
                    pc: s.pc.wrapping_add(1),
                    addr: byte_at(s, s.pc).wrapping_add(s.y) as u16,
                    crossed: false,
                },
            )
        } else {
            None
        },
        AddressingMode::REL => if addr_in(s, s.pc) {
            let base: u16 = s.pc.wrapping_add(1);
            let off: u8 = byte_at(s, s.pc);
            let target: u16 = if off < 0x80 {
                base.wrapping_add(off as u16)
            } else {
                base.wrapping_add(off as u16).wrapping_sub(0x100)
            };
            Some(Resolved { pc: base, addr: target, crossed: page(target) != page(base) })
        } else {
            None
        },
        AddressingMode::ABS => match word_at(s, s.pc, s.pc.wrapping_add(1)) {
            None => None,
            Some(base) => Some(Resolved { pc: s.pc.wrapping_add(2), addr: base, crossed: false }),
        },
        AddressingMode::ABX => match word_at(s, s.pc, s.pc.wrapping_add(1)) {
            None => None,
            Some(base) => {
                let addr: u16 = base.wrapping_add(s.x as u16);
                Some(
                    Resolved {
                        pc: s.pc.wrapping_add(2),
                        addr,
                        crossed: page(addr) != page(base),
                    },
                )
            },
        },
        AddressingMode::ABY => match word_at(s, s.pc, s.pc.wrapping_add(1)) {
            None => None,
            Some(base) => {
                let addr: u16 = base.wrapping_add(s.y as u16);
                Some(
                    Resolved {
                        pc: s.pc.wrapping_add(2),
                        addr,
                        crossed: page(addr) != page(base),
                    },
                )
            },
        },
        AddressingMode::IND => match word_at(s, s.pc, s.pc.wrapping_add(1)) {
            None => None,
            Some(ptr) => {
                let second: u16 = if ptr as int % 256 == 255 {
                    (ptr as int - 255) as u16
                } else {
                    ptr.wrapping_add(1)
                };
                match word_at(s, ptr, second) {
                    None => None,
                    Some(addr) => Some(
                        Resolved { pc: s.pc.wrapping_add(2), addr, crossed: false },
                    ),
                }
            },
        },
        AddressingMode::IZX => if addr_in(s, s.pc) {
            let zp: u8 = byte_at(s, s.pc).wrapping_add(s.x);
            match word_at(s, zp as u16, zp.wrapping_add(1) as u16) {
                None => None,
                Some(addr) => Some(
                    Resolved { pc: s.pc.wrapping_add(1), addr, crossed: false },
                ),
            }
        } else {
            None
        },
        AddressingMode::IZY => if addr_in(s, s.pc) {
            let zp: u8 = byte_at(s, s.pc);
            match word_at(s, zp as u16, zp.wrapping_add(1) as u16) {
                None => None,
                Some(base) => {
                    let addr: u16 = base.wrapping_add(s.y as u16);
                    Some(
                        Resolved {
                            pc: s.pc.wrapping_add(1),
                            addr,
                            crossed: page(addr) != page(base),
                        },
                    )
                },
            }
        } else {
            None
        },
    }
}

/// The instruction's operand value: the accumulator under the implied mode,
/// otherwise the bounds-checked byte at the effective address.
pub open spec fn spec_operand(s: CpuState, mode: AddressingMode, addr: u16) -> Option<u8> {
    if mode == AddressingMode::IMP {
        Some(s.a)
    } else if addr_in(s, addr) {
        Some(byte_at(s, addr))
    } else {
        None
    }
}

/// The one-cycle penalty a page crossing costs under the indexed and
/// indirect-indexed modes.
pub open spec fn penalty(mode: AddressingMode, crossed: bool) -> int {
    if crossed && (mode == AddressingMode::ABX || mode == AddressingMode::ABY || mode
        == AddressingMode::IZY) {
        1
    } else {
        0
    }
}

/// Zero and Negative taken from a value result; no other flag moves.
pub open spec fn upd_zn(p: Flags, val: u8) -> Flags {
    Flags { z: val == 0, n: val >= 0x80, ..p }
}

/// The signed reading of a byte, two's complement.
pub open spec fn signed_of(v: u8) -> int {
    if v < 0x80 {
        v as int
    } else {
        v as int - 256
    }
}

/// Add-with-carry into the accumulator: the 8-bit result together with the
/// flags — Carry from unsigned overflow, Overflow from signed overflow, Zero
/// and Negative from the result. Decimal mode has no effect on this target.
pub open spec fn spec_adc(a: u8, m: u8, p: Flags) -> (u8, Flags) {
    let cin: int = if p.c {
        1
    } else {
        0
    };
    let sum: int = a as int + m as int + cin;
    let r: u8 = (sum % 256) as u8;
    let ssum: int = signed_of(a) + signed_of(m) + cin;
    (r, Flags { c: sum > 255, v: ssum < -128 || ssum > 127, z: r == 0, n: r >= 0x80, ..p })
}

/// Subtract-with-borrow from the accumulator: Carry set when no borrow was
/// needed, Overflow from signed overflow, Zero and Negative from the result.
pub open spec fn spec_sbc(a: u8, m: u8, p: Flags) -> (u8, Flags) {
    let borrow: int = if p.c {
        0
    } else {
        1
    };
    let diff: int = a as int - m as int - borrow;
    let r: u8 = ((diff + 512) % 256) as u8;
    let sdiff: int = signed_of(a) - signed_of(m) - borrow;
    (r, Flags { c: diff >= 0, v: sdiff < -128 || sdiff > 127, z: r == 0, n: r >= 0x80, ..p })
}

/// Compare without storing: Carry when the register is at least the operand,
/// Zero when equal, Negative from the high bit of the 8-bit difference.
pub open spec fn spec_compare(reg: u8, m: u8, p: Flags) -> Flags {
    let r: u8 = ((reg as int - m as int + 256) % 256) as u8;
    Flags { c: reg >= m, z: reg == m, n: r >= 0x80, ..p }
}

/// Arithmetic shift left: Carry takes the bit shifted out.
pub open spec fn spec_asl(v: u8, p: Flags) -> (u8, Flags) {
    let r: u8 = ((v as int * 2) % 256) as u8;
    (r, Flags { c: v >= 0x80, z: r == 0, n: r >= 0x80, ..p })
}

/// Logical shift right: Carry takes the bit shifted out.
pub open spec fn spec_lsr(v: u8, p: Flags) -> (u8, Flags) {
    let r: u8 = v / 2;
    (r, Flags { c: v % 2 == 1, z: r == 0, n: r >= 0x80, ..p })
}

/// Rotate left through Carry.
pub open spec fn spec_rol(v: u8, p: Flags) -> (u8, Flags) {
    let cin: int = if p.c {
        1
    } else {
        0
    };
    let r: u8 = ((v as int * 2 + cin) % 256) as u8;
    (r, Flags { c: v >= 0x80, z: r == 0, n: r >= 0x80, ..p })
}

/// Rotate right through Carry.
pub open spec fn spec_ror(v: u8, p: Flags) -> (u8, Flags) {
    let cin: int = if p.c {
        128
    } else {
        0
    };
    let r: u8 = (v as int / 2 + cin) as u8;
    (r, Flags { c: v % 2 == 1, z: r == 0, n: r >= 0x80, ..p })
}

/// The stack-page address the stack pointer names.
pub open spec fn stack_addr(sp: u8) -> u16 {
    (0x100 + sp as int) as u16
}

/// A push: write at the stack address, then decrement the stack pointer with
/// 8-bit wraparound. Wrapping from `0x00` to `0xFF` is valid, never a fault.
pub open spec fn spec_push(s: CpuState, v: u8) -> Option<CpuState> {
    if addr_in(s, stack_addr(s.sp)) {
        Some(
            CpuState {
                mem: s.mem.update(stack_addr(s.sp) as int, v),
                sp: s.sp.wrapping_sub(1),
                ..s
            },
        )
    } else {
        None
    }
}

/// A pull: increment the stack pointer with 8-bit wraparound, then read at
/// the stack address.
pub open spec fn spec_pull(s: CpuState) -> Option<(CpuState, u8)> {
    let sp2: u8 = s.sp.wrapping_add(1);
    if addr_in(s, stack_addr(sp2)) {
        Some((CpuState { sp: sp2, ..s }, byte_at(s, stack_addr(sp2))))
    } else {
        None
    }
}

/// Interrupt entry, shared by BRK and the two lines: push the program
/// counter high byte first, push the flags byte with the "B" signal set as
/// given and bit 5 forced, raise IrqDisable, then load the program counter
/// from the little-endian vector.
pub open spec fn spec_interrupt(s: CpuState, brk: bool, vector: u16, cycles: int) -> (
    CpuState,
    Result<int, Fault>,
) {
    let pch: u8 = (s.pc as int / 256) as u8;
    let pcl: u8 = (s.pc as int % 256) as u8;
    match spec_push(s, pch) {
        None => (s, Err(Fault::OutOfRangeAccess)),
        Some(s1) => match spec_push(s1, pcl) {
            None => (s1, Err(Fault::OutOfRangeAccess)),
            Some(s2) => {
                let pb: u8 = byte_of_flags(
                    flag_assigned(flag_assigned(s2.p, Flag::Break, brk), Flag::Unused, true),
                );
                match spec_push(s2, pb) {
                    None => (s2, Err(Fault::OutOfRangeAccess)),
                    Some(s3) => {
                        let s4 = CpuState { p: flag_assigned(s3.p, Flag::IrqDisable, true), ..s3 };
                        match word_at(s4, vector, vector.wrapping_add(1)) {
                            None => (s4, Err(Fault::OutOfRangeAccess)),
                            Some(target) => (CpuState { pc: target, ..s4 }, Ok(cycles)),
                        }
                    },
                }
            },
        },
    }
}

/// A branch: when taken, the program counter moves to the resolved relative
/// address for one extra cycle, and one more when the branch crosses a page.
pub open spec fn spec_branch(s: CpuState, taken: bool, addr: u16, crossed: bool, base: int) -> (
    CpuState,
    Result<int, Fault>,
) {
    if taken {
        (
            CpuState { pc: addr, ..s },
            Ok(
                base + 1 + if crossed {
                    1int
                } else {
                    0int
                },
            ),
        )
    } else {
        (s, Ok(base))
    }
}

/// A store: the given register value written at the effective address, no
/// flag effect, faulting when the address is out of range.
pub open spec fn spec_store(s: CpuState, addr: u16, v: u8, cycles: int) -> (
    CpuState,
    Result<int, Fault>,
) {
    if addr_in(s, addr) {
        (CpuState { mem: s.mem.update(addr as int, v), ..s }, Ok(cycles))
    } else {
        (s, Err(Fault::OutOfRangeAccess))
    }
}

/// The semantic effect of one decoded instruction, applied with the program
/// counter already past the operand bytes; `addr` and `crossed` come from
/// `spec_resolve`. Returns the next state with the consumed cycle count, or
/// the state reached at the point of a fault.
pub open spec fn spec_exec_instr(op: Opcode, s: CpuState, addr: u16, crossed: bool) -> (
    CpuState,
    Result<int, Fault>,
) {
    let mode = op.addressing_mode;
    let base: int = op.cycles as int;
    let paid: int = base + penalty(mode, crossed);
    match op.instruction {
        Instruction::LDA => match spec_operand(s, mode, addr) {
            None => (s, Err(Fault::OutOfRangeAccess)),
            Some(v) => (CpuState { a: v, p: upd_zn(s.p, v), ..s }, Ok(paid)),
        },
        Instruction::LDX => match spec_operand(s, mode, addr) {
            None => (s, Err(Fault::OutOfRangeAccess)),
            Some(v) => (CpuState { x: v, p: upd_zn(s.p, v), ..s }, Ok(paid)),
        },
        Instruction::LDY => match spec_operand(s, mode, addr) {
            None => (s, Err(Fault::OutOfRangeAccess)),
            Some(v) => (CpuState { y: v, p: upd_zn(s.p, v), ..s }, Ok(paid)),
        },
        Instruction::STA => spec_store(s, addr, s.a, paid),
        Instruction::STX => spec_store(s, addr, s.x, paid),
        Instruction::STY => spec_store(s, addr, s.y, paid),
        Instruction::ADC => match spec_operand(s, mode, addr) {
            None => (s, Err(Fault::OutOfRangeAccess)),
            Some(v) => {
                let rf = spec_adc(s.a, v, s.p);
                (CpuState { a: rf.0, p: rf.1, ..s }, Ok(paid))
            },
        },
        Instruction::SBC => match spec_operand(s, mode, addr) {
            None => (s, Err(Fault::OutOfRangeAccess)),
            Some(v) => {
                let rf = spec_sbc(s.a, v, s.p);
                (CpuState { a: rf.0, p: rf.1, ..s }, Ok(paid))
            },
        },
        Instruction::CMP => match spec_operand(s, mode, addr) {
            None => (s, Err(Fault::OutOfRangeAccess)),
            Some(v) => (CpuState { p: spec_compare(s.a, v, s.p), ..s }, Ok(paid)),
        },
        Instruction::CPX => match spec_operand(s, mode, addr) {
            None => (s, Err(Fault::OutOfRangeAccess)),
            Some(v) => (CpuState { p: spec_compare(s.x, v, s.p), ..s }, Ok(paid)),
        },
        Instruction::CPY => match spec_operand(s, mode, addr) {
            None => (s, Err(Fault::OutOfRangeAccess)),
            Some(v) => (CpuState { p: spec_compare(s.y, v, s.p), ..s }, Ok(paid)),
        },
        Instruction::AND => match spec_operand(s, mode, addr) {
            None => (s, Err(Fault::OutOfRangeAccess)),
            Some(v) => {
                let r: u8 = s.a & v;
                (CpuState { a: r, p: upd_zn(s.p, r), ..s }, Ok(paid))
            },
        },
        Instruction::ORA => match spec_operand(s, mode, addr) {
            None => (s, Err(Fault::OutOfRangeAccess)),
            Some(v) => {
                let r: u8 = s.a | v;
                (CpuState { a: r, p: upd_zn(s.p, r), ..s }, Ok(paid))
            },
        },
        Instruction::EOR => match spec_operand(s, mode, addr) {
            None => (s, Err(Fault::OutOfRangeAccess)),
            Some(v) => {
                let r: u8 = s.a ^ v;
                (CpuState { a: r, p: upd_zn(s.p, r), ..s }, Ok(paid))
            },
        },
        Instruction::BIT => match spec_operand(s, mode, addr) {
            None => (s, Err(Fault::OutOfRangeAccess)),
            Some(v) => (
                CpuState {
                    p: Flags {
                        z: s.a & v == 0,
                        v: v & 0x40 != 0,
                        n: v & 0x80 != 0,
                        ..s.p
                    },
                    ..s
                },
                Ok(paid),
            ),
        },
        Instruction::ASL => spec_rmw(s, mode, addr, spec_asl(operand_or_a(s, mode, addr), s.p), paid),
        Instruction::LSR => spec_rmw(s, mode, addr, spec_lsr(operand_or_a(s, mode, addr), s.p), paid),
        Instruction::ROL => spec_rmw(s, mode, addr, spec_rol(operand_or_a(s, mode, addr), s.p), paid),
        Instruction::ROR => spec_rmw(s, mode, addr, spec_ror(operand_or_a(s, mode, addr), s.p), paid),
        Instruction::INC => if addr_in(s, addr) {
            let r: u8 = byte_at(s, addr).wrapping_add(1);
            (CpuState { mem: s.mem.update(addr as int, r), p: upd_zn(s.p, r), ..s }, Ok(paid))
        } else {
            (s, Err(Fault::OutOfRangeAccess))
        },
        Instruction::DEC => if addr_in(s, addr) {
            let r: u8 = byte_at(s, addr).wrapping_sub(1);
            (CpuState { mem: s.mem.update(addr as int, r), p: upd_zn(s.p, r), ..s }, Ok(paid))
        } else {
            (s, Err(Fault::OutOfRangeAccess))
        },
        Instruction::INX => reg_step(s, s.x.wrapping_add(1), RegName::X, base),
        Instruction::INY => reg_step(s, s.y.wrapping_add(1), RegName::Y, base),
        Instruction::DEX => reg_step(s, s.x.wrapping_sub(1), RegName::X, base),
        Instruction::DEY => reg_step(s, s.y.wrapping_sub(1), RegName::Y, base),
        Instruction::BCC => spec_branch(s, !s.p.c, addr, crossed, base),
        Instruction::BCS => spec_branch(s, s.p.c, addr, crossed, base),
        Instruction::BEQ => spec_branch(s, s.p.z, addr, crossed, base),
        Instruction::BNE => spec_branch(s, !s.p.z, addr, crossed, base),
        Instruction::BMI => spec_branch(s, s.p.n, addr, crossed, base),
        Instruction::BPL => spec_branch(s, !s.p.n, addr, crossed, base),
        Instruction::BVC => spec_branch(s, !s.p.v, addr, crossed, base),
        Instruction::BVS => spec_branch(s, s.p.v, addr, crossed, base),
        Instruction::JMP => (CpuState { pc: addr, ..s }, Ok(base)),
        Instruction::JSR => {
            let ret: u16 = s.pc.wrapping_sub(1);
            let rh: u8 = (ret as int / 256) as u8;
            let rl: u8 = (ret as int % 256) as u8;
            match spec_push(s, rh) {
                None => (s, Err(Fault::OutOfRangeAccess)),
                Some(s1) => match spec_push(s1, rl) {
                    None => (s1, Err(Fault::OutOfRangeAccess)),
                    Some(s2) => (CpuState { pc: addr, ..s2 }, Ok(base)),
                },
            }
        },
        Instruction::RTS => match spec_pull(s) {
            None => (s, Err(Fault::OutOfRangeAccess)),
            Some((s1, lo)) => match spec_pull(s1) {
                None => (s1, Err(Fault::OutOfRangeAccess)),
                Some((s2, hi)) => (
                    CpuState { pc: word(hi, lo).wrapping_add(1), ..s2 },
                    Ok(base),
                ),
            },
        },
        Instruction::BRK => spec_interrupt(s, true, 0xFFFE, base),
        Instruction::RTI => match spec_pull(s) {
            None => (s, Err(Fault::OutOfRangeAccess)),
            Some((s1, pb)) => {
                let s1p = CpuState { p: flags_of_byte(pb), ..s1 };
                match spec_pull(s1p) {
                    None => (s1p, Err(Fault::OutOfRangeAccess)),
                    Some((s2, lo)) => match spec_pull(s2) {
                        None => (s2, Err(Fault::OutOfRangeAccess)),
                        Some((s3, hi)) => (CpuState { pc: word(hi, lo), ..s3 }, Ok(base)),
                    },
                }
            },
        },
        Instruction::PHA => match spec_push(s, s.a) {
            None => (s, Err(Fault::OutOfRangeAccess)),
            Some(s1) => (s1, Ok(base)),
        },
        Instruction::PHP => {
            let pb: u8 = byte_of_flags(
                flag_assigned(flag_assigned(s.p, Flag::Break, true), Flag::Unused, true),
            );
            match spec_push(s, pb) {
                None => (s, Err(Fault::OutOfRangeAccess)),
                Some(s1) => (s1, Ok(base)),
            }
        },
        Instruction::PLA => match spec_pull(s) {
            None => (s, Err(Fault::OutOfRangeAccess)),
            Some((s1, v)) => (CpuState { a: v, p: upd_zn(s1.p, v), ..s1 }, Ok(base)),
        },
        Instruction::PLP => match spec_pull(s) {
            None => (s, Err(Fault::OutOfRangeAccess)),
            Some((s1, v)) => (CpuState { p: flags_of_byte(v), ..s1 }, Ok(base)),
        },
        Instruction::TAX => reg_step(s, s.a, RegName::X, base),
        Instruction::TAY => reg_step(s, s.a, RegName::Y, base),
        Instruction::TXA => reg_step(s, s.x, RegName::A, base),
        Instruction::TYA => reg_step(s, s.y, RegName::A, base),
        Instruction::TSX => reg_step(s, s.sp, RegName::X, base),
        Instruction::TXS => (CpuState { sp: s.x, ..s }, Ok(base)),
        Instruction::SEC => (CpuState { p: flag_assigned(s.p, Flag::Carry, true), ..s }, Ok(base)),
        Instruction::CLC => (CpuState { p: flag_assigned(s.p, Flag::Carry, false), ..s }, Ok(base)),
        Instruction::SEI => (
            CpuState { p: flag_assigned(s.p, Flag::IrqDisable, true), ..s },
            Ok(base),
        ),
        Instruction::CLI => (
            CpuState { p: flag_assigned(s.p, Flag::IrqDisable, false), ..s },
            Ok(base),
        ),
        Instruction::SED => (
            CpuState { p: flag_assigned(s.p, Flag::Decimal, true), ..s },
            Ok(base),
        ),
        Instruction::CLD => (
            CpuState { p: flag_assigned(s.p, Flag::Decimal, false), ..s },
            Ok(base),
        ),
        Instruction::CLV => (
            CpuState { p: flag_assigned(s.p, Flag::Overflow, false), ..s },
            Ok(base),
        ),
        Instruction::NOP => (s, Ok(base)),
        Instruction::XXX => (s, Err(Fault::DecodeTableGap)),
    }
}

/// Which register a transfer or count step writes.
pub enum RegName {
    A,
    X,
    Y,
}

/// A value moved into a register with Zero and Negative following it.
pub open spec fn reg_step(s: CpuState, v: u8, reg: RegName, cycles: int) -> (
    CpuState,
    Result<int, Fault>,
) {
    let s2 = match reg {
        RegName::A => CpuState { a: v, ..s },
        RegName::X => CpuState { x: v, ..s },
        RegName::Y => CpuState { y: v, ..s },
    };
    (CpuState { p: upd_zn(s.p, v), ..s2 }, Ok(cycles))
}

/// The value a shift or rotate acts on: the accumulator under the implied
/// mode, otherwise the byte at the effective address (meaningful only when
/// that address is in range).
pub open spec fn operand_or_a(s: CpuState, mode: AddressingMode, addr: u16) -> u8 {
    if mode == AddressingMode::IMP {
        s.a
    } else {
        byte_at(s, addr)
    }
}

/// Commits a shift or rotate result: to the accumulator under the implied
/// mode, otherwise back to the effective address, faulting when that address
/// is out of range.
pub open spec fn spec_rmw(
    s: CpuState,
    mode: AddressingMode,
    addr: u16,
    rf: (u8, Flags),
    cycles: int,
) -> (CpuState, Result<int, Fault>) {
    if mode == AddressingMode::IMP {
        (CpuState { a: rf.0, p: rf.1, ..s }, Ok(cycles))
    } else if addr_in(s, addr) {
        (CpuState { mem: s.mem.update(addr as int, rf.0), p: rf.1, ..s }, Ok(cycles))
    } else {
        (s, Err(Fault::OutOfRangeAccess))
    }
}

/// The architectural defaults the reset entry point restores: IrqDisable
/// raised, the reserved bit 5 set, everything else clear.
pub open spec fn reset_flags() -> Flags {
    Flags { c: false, z: false, i: true, d: false, b: false, u: true, v: false, n: false }
}

/// One full fetch-decode-resolve-execute step, the interrupt lines checked
/// first: an asserted non-maskable line is always taken, the maskable one
/// only while IrqDisable is clear. Returns the next state and the cycles the
/// step consumed, or the state reached at the point of a fault.
pub open spec fn spec_step(s: CpuState) -> (CpuState, Result<int, Fault>) {
    if s.nmi {
        spec_interrupt(CpuState { nmi: false, ..s }, false, 0xFFFA, 7)
    } else if s.irq && !s.p.i {
        spec_interrupt(s, false, 0xFFFE, 7)
    } else if !addr_in(s, s.pc) {
        (s, Err(Fault::OutOfRangeAccess))
    } else {
        let op = spec_decode(byte_at(s, s.pc));
        let s1 = CpuState { pc: s.pc.wrapping_add(1), ..s };
        if op.instruction == Instruction::XXX {
            (s1, Err(Fault::DecodeTableGap))
        } else {
            match spec_resolve(op.addressing_mode, s1) {
                None => (s1, Err(Fault::OutOfRangeAccess)),
                Some(r) => spec_exec_instr(op, CpuState { pc: r.pc, ..s1 }, r.addr, r.crossed),
            }
        }
    }
}

} // verus!
