//! The processor itself: register file, status flags, program counter,
//! stack pointer, interrupt lines and backing memory, with the
//! fetch-decode-execute step proved equal to the model's `spec_step`.

use vstd::prelude::*;

use crate::Fault;
use crate::decoder::decode;
use crate::flags::Flag;
use crate::flags::Flags;
use crate::flags::Status;
use crate::flags::flag_assigned;
use crate::flags::flag_of;
use crate::instruction::AddressingMode;
use crate::instruction::Instruction;
use crate::instruction::Opcode;
use crate::memory::Memory;
use crate::memory::RAM_SIZE;
use crate::model::CpuState;
use crate::model::Resolved;
use crate::model::addr_in;
use crate::model::byte_at;
use crate::model::penalty;
use crate::model::reset_flags;
use crate::model::spec_exec_instr;
use crate::model::spec_interrupt;
use crate::model::spec_operand;
use crate::model::spec_pull;
use crate::model::spec_push;
use crate::model::spec_resolve;
use crate::model::spec_step;
use crate::model::upd_zn;
use crate::model::word_at;

verus! {

/// The internal state of the processor.
pub struct Cpu {
    /// Accumulator register.
    a: u8,
    /// Index register X.
    x: u8,
    /// Index register Y.
    y: u8,
    /// Stack pointer, an offset into the fixed stack page.
    sp: u8,
    /// Program counter; always points at the next byte to fetch.
    pc: u16,
    /// Status register.
    p: Status,
    /// Memory handler.
    memory: Memory,
    /// The maskable interrupt line, as last driven by the caller.
    irq_line: bool,
    /// The non-maskable interrupt line, as last driven by the caller.
    nmi_line: bool,
}

impl View for Cpu {
    type V = CpuState;

    closed spec fn view(&self) -> CpuState {
        CpuState {
            a: self.a,
            x: self.x,
            y: self.y,
            sp: self.sp,
            pc: self.pc,
            p: self.p@,
            mem: self.memory@,
            irq: self.irq_line,
            nmi: self.nmi_line,
        }
    }
}

impl Cpu {
    /// The backing memory always covers exactly `RAM_SIZE` bytes.
    pub open spec fn wf(&self) -> bool {
        self@.mem.len() == RAM_SIZE
    }

    /// A powered-on processor: registers and flags all clear, memory zeroed,
    /// both interrupt lines released.
    pub fn new() -> (r: Cpu)
        ensures
            r.wf(),
            r@.a == 0 && r@.x == 0 && r@.y == 0 && r@.sp == 0 && r@.pc == 0,
            r@.p == (Flags {
                c: false,
                z: false,
                i: false,
                d: false,
                b: false,
                u: false,
                v: false,
                n: false,
            }),
            forall|i: int| 0 <= i < r@.mem.len() ==> r@.mem[i] == 0u8,
            !r@.irq && !r@.nmi,
    {
        Cpu {
            a: 0,
            x: 0,
            y: 0,
            sp: 0,
            pc: 0,
            p: Status::new(),
            memory: Memory::new(),
            irq_line: false,
            nmi_line: false,
        }
    }

    /// Accumulator register.
    pub fn a(&self) -> (r: u8)
        ensures
            r == self@.a,
    {
        self.a
    }

    /// Index register X.
    pub fn x(&self) -> (r: u8)
        ensures
            r == self@.x,
    {
        self.x
    }

    /// Index register Y.
    pub fn y(&self) -> (r: u8)
        ensures
            r == self@.y,
    {
        self.y
    }

    /// Stack pointer.
    pub fn sp(&self) -> (r: u8)
        ensures
            r == self@.sp,
    {
        self.sp
    }

    /// Program counter.
    pub fn pc(&self) -> (r: u16)
        ensures
            r == self@.pc,
    {
        self.pc
    }

    /// The status register, by value.
    pub fn status(&self) -> (r: Status)
        ensures
            r@ == self@.p,
    {
        self.p
    }

    /// Moves the accumulator, for setting up or restoring a machine.
    pub fn set_a(&mut self, v: u8)
        ensures
            final(self)@ == (CpuState { a: v, ..old(self)@ }),
    {
        self.a = v;
    }

    /// Moves index register X.
    pub fn set_x(&mut self, v: u8)
        ensures
            final(self)@ == (CpuState { x: v, ..old(self)@ }),
    {
        self.x = v;
    }

    /// Moves index register Y.
    pub fn set_y(&mut self, v: u8)
        ensures
            final(self)@ == (CpuState { y: v, ..old(self)@ }),
    {
        self.y = v;
    }

    /// Moves the stack pointer.
    pub fn set_sp(&mut self, v: u8)
        ensures
            final(self)@ == (CpuState { sp: v, ..old(self)@ }),
    {
        self.sp = v;
    }

    /// Moves the program counter.
    pub fn set_pc(&mut self, v: u16)
        ensures
            final(self)@ == (CpuState { pc: v, ..old(self)@ }),
    {
        self.pc = v;
    }

    /// Sets or clears one named status flag.
    pub fn set_flag(&mut self, which: Flag, val: bool)
        ensures
            final(self)@ == (CpuState { p: flag_assigned(old(self)@.p, which, val), ..old(self)@ }),
    {
        self.p.assign(which, val);
    }

    /// Reads one named status flag.
    pub fn flag(&self, which: Flag) -> (r: bool)
        ensures
            r == flag_of(self@.p, which),
    {
        self.p.test(which)
    }

    /// Drives the maskable interrupt line; it is ignored while IrqDisable is
    /// set.
    pub fn set_irq(&mut self, asserted: bool)
        ensures
            final(self)@ == (CpuState { irq: asserted, ..old(self)@ }),
    {
        self.irq_line = asserted;
    }

    /// Drives the non-maskable interrupt line; it is never ignored.
    pub fn set_nmi(&mut self, asserted: bool)
        ensures
            final(self)@ == (CpuState { nmi: asserted, ..old(self)@ }),
    {
        self.nmi_line = asserted;
    }

    /// Bounds-checked read of the backing memory, for collaborators that
    /// load programs or inspect results.
    pub fn read_mem(&self, address: u16) -> (r: Result<u8, Fault>)
        requires
            self.wf(),
        ensures
            match r {
                Ok(b) => addr_in(self@, address) && b == byte_at(self@, address),
                Err(e) => !addr_in(self@, address) && e == Fault::OutOfRangeAccess,
            },
    {
        self.memory.read(address)
    }

    /// Bounds-checked write of the backing memory, for collaborators that
    /// load programs.
    pub fn write_mem(&mut self, address: u16, value: u8) -> (r: Result<(), Fault>)
        requires
            old(self).wf(),
        ensures
            final(self).wf(),
            match r {
                Ok(()) => addr_in(old(self)@, address) && final(self)@ == (CpuState {
                    mem: old(self)@.mem.update(address as int, value),
                    ..old(self)@
                }),
                Err(e) => !addr_in(old(self)@, address) && e == Fault::OutOfRangeAccess && final(self)@
                    == old(self)@,
            },
    {
        self.memory.write(address, value)
    }

    /// Pushes one byte onto the stack page and decrements the stack pointer
    /// with 8-bit wraparound.
    fn push(&mut self, v: u8) -> (r: Result<(), Fault>)
        requires
            old(self).wf(),
        ensures
            final(self).wf(),
            match r {
                Ok(()) => spec_push(old(self)@, v) == Some(final(self)@),
                Err(e) => spec_push(old(self)@, v) is None && e == Fault::OutOfRangeAccess
                    && final(self)@ == old(self)@,
            },
    {
        let addr: u16 = 0x100 + self.sp as u16;
        match self.memory.write(addr, v) {
            Ok(()) => {
                self.sp = self.sp.wrapping_sub(1);
                Ok(())
            },
            Err(e) => Err(e),
        }
    }

    /// Increments the stack pointer with 8-bit wraparound and pulls one byte
    /// from the stack page.
    fn pull(&mut self) -> (r: Result<u8, Fault>)
        requires
            old(self).wf(),
        ensures
            final(self).wf(),
            match r {
                Ok(v) => spec_pull(old(self)@) == Some((final(self)@, v)),
                Err(e) => spec_pull(old(self)@) is None && e == Fault::OutOfRangeAccess && final(self)@
                    == old(self)@,
            },
    {
        let sp2: u8 = self.sp.wrapping_add(1);
        let addr: u16 = 0x100 + sp2 as u16;
        match self.memory.read(addr) {
            Ok(v) => {
                self.sp = sp2;
                Ok(v)
            },
            Err(e) => Err(e),
        }
    }

    /// Reads the little-endian word whose low byte sits at `lo_addr` and
    /// high byte at `hi_addr`.
    fn read_word(&self, lo_addr: u16, hi_addr: u16) -> (r: Result<u16, Fault>)
        requires
            self.wf(),
        ensures
            match r {
                Ok(w) => word_at(self@, lo_addr, hi_addr) == Some(w),
                Err(e) => word_at(self@, lo_addr, hi_addr) is None && e
                    == Fault::OutOfRangeAccess,
            },
    {
        let lo: u8 = match self.memory.read(lo_addr) {
            Ok(b) => b,
            Err(e) => {
                return Err(e);
            },
        };
        let hi: u8 = match self.memory.read(hi_addr) {
            Ok(b) => b,
            Err(e) => {
                return Err(e);
            },
        };
        Ok((hi as u16) * 256 + (lo as u16))
    }

    /// Resolution of the zero-page mode: one fetched byte names an address
    /// inside the page `0x00`-`0xFF`.
    fn resolve_zp0(&mut self) -> (r: Result<(u16, bool), Fault>)
        requires
            old(self).wf(),
        ensures
            final(self).wf(),
            resolved_as(AddressingMode::ZP0, old(self)@, final(self)@, r),
    {
        let b: u8 = match self.memory.read(self.pc) {
            Ok(b) => b,
            Err(e) => {
                return Err(e);
            },
        };
        self.pc = self.pc.wrapping_add(1);
        Ok((b as u16, false))
    }

    /// Resolution of the zero-page-X mode: the fetched byte plus X, wrapping
    /// inside the zero page.
    fn resolve_zpx(&mut self) -> (r: Result<(u16, bool), Fault>)
        requires
            old(self).wf(),
        ensures
            final(self).wf(),
            resolved_as(AddressingMode::ZPX, old(self)@, final(self)@, r),
    {
        let b: u8 = match self.memory.read(self.pc) {
            Ok(b) => b,
            Err(e) => {
                return Err(e);
            },
        };
        self.pc = self.pc.wrapping_add(1);
        Ok((b.wrapping_add(self.x) as u16, false))
    }

    /// Resolution of the zero-page-Y mode: the fetched byte plus Y, wrapping
    /// inside the zero page.
    fn resolve_zpy(&mut self) -> (r: Result<(u16, bool), Fault>)
        requires
            old(self).wf(),
        ensures
            final(self).wf(),
            resolved_as(AddressingMode::ZPY, old(self)@, final(self)@, r),
    {
        let b: u8 = match self.memory.read(self.pc) {
            Ok(b) => b,
            Err(e) => {
                return Err(e);
            },
        };
        self.pc = self.pc.wrapping_add(1);
        Ok((b.wrapping_add(self.y) as u16, false))
    }

    /// Resolution of the relative mode: the program counter after the
    /// instruction plus the signed fetched offset, reporting whether the
    /// target leaves the page of the following instruction.
    fn resolve_rel(&mut self) -> (r: Result<(u16, bool), Fault>)
        requires
            old(self).wf(),
        ensures
            final(self).wf(),
            resolved_as(AddressingMode::REL, old(self)@, final(self)@, r),
    {
        let off: u8 = match self.memory.read(self.pc) {
            Ok(b) => b,
            Err(e) => {
                return Err(e);
            },
        };
        let base: u16 = self.pc.wrapping_add(1);
        self.pc = base;
        let target: u16 = if off < 0x80 {
            base.wrapping_add(off as u16)
        } else {
            base.wrapping_add(off as u16).wrapping_sub(0x100)
        };
        Ok((target, target / 256 != base / 256))
    }

    /// Resolution of the absolute mode: a little-endian word from the two
    /// fetched bytes.
    fn resolve_abs(&mut self) -> (r: Result<(u16, bool), Fault>)
        requires
            old(self).wf(),
        ensures
            final(self).wf(),
            resolved_as(AddressingMode::ABS, old(self)@, final(self)@, r),
    {
        let base: u16 = match self.read_word(self.pc, self.pc.wrapping_add(1)) {
            Ok(w) => w,
            Err(e) => {
                return Err(e);
            },
        };
        self.pc = self.pc.wrapping_add(2);
        Ok((base, false))
    }

    /// Resolution of the absolute-X mode: the fetched word plus X with a
    /// full 16-bit add, reporting a page crossing.
    fn resolve_abx(&mut self) -> (r: Result<(u16, bool), Fault>)
        requires
            old(self).wf(),
        ensures
            final(self).wf(),
            resolved_as(AddressingMode::ABX, old(self)@, final(self)@, r),
    {
        let base: u16 = match self.read_word(self.pc, self.pc.wrapping_add(1)) {
            Ok(w) => w,
            Err(e) => {
                return Err(e);
            },
        };
        self.pc = self.pc.wrapping_add(2);
        let addr: u16 = base.wrapping_add(self.x as u16);
        Ok((addr, addr / 256 != base / 256))
    }

    /// Resolution of the absolute-Y mode: the fetched word plus Y with a
    /// full 16-bit add, reporting a page crossing.
    fn resolve_aby(&mut self) -> (r: Result<(u16, bool), Fault>)
        requires
            old(self).wf(),
        ensures
            final(self).wf(),
            resolved_as(AddressingMode::ABY, old(self)@, final(self)@, r),
    {
        let base: u16 = match self.read_word(self.pc, self.pc.wrapping_add(1)) {
            Ok(w) => w,
            Err(e) => {
                return Err(e);
            },
        };
        self.pc = self.pc.wrapping_add(2);
        let addr: u16 = base.wrapping_add(self.y as u16);
        Ok((addr, addr / 256 != base / 256))
    }

    /// Resolution of the indirect mode: the word read at the fetched
    /// pointer, the high byte of the pointer read wrapping inside its page
    /// when the pointer's low byte is `0xFF`.
    fn resolve_ind(&mut self) -> (r: Result<(u16, bool), Fault>)
        requires
            old(self).wf(),
        ensures
            final(self).wf(),
            resolved_as(AddressingMode::IND, old(self)@, final(self)@, r),
    {
        let ptr: u16 = match self.read_word(self.pc, self.pc.wrapping_add(1)) {
            Ok(w) => w,
            Err(e) => {
                return Err(e);
            },
        };
        let second: u16 = if ptr % 256 == 255 {
            ptr - 255
        } else {
            ptr.wrapping_add(1)
        };
        let addr: u16 = match self.read_word(ptr, second) {
            Ok(w) => w,
            Err(e) => {
                return Err(e);
            },
        };
        self.pc = self.pc.wrapping_add(2);
        Ok((addr, false))
    }

    /// Resolution of the indexed-indirect mode: a zero-page pointer at the
    /// fetched byte plus X holds the effective address.
    fn resolve_izx(&mut self) -> (r: Result<(u16, bool), Fault>)
        requires
            old(self).wf(),
        ensures
            final(self).wf(),
            resolved_as(AddressingMode::IZX, old(self)@, final(self)@, r),
    {
        let b: u8 = match self.memory.read(self.pc) {
            Ok(b) => b,
            Err(e) => {
                return Err(e);
            },
        };
        let zp: u8 = b.wrapping_add(self.x);
        let addr: u16 = match self.read_word(zp as u16, zp.wrapping_add(1) as u16) {
            Ok(w) => w,
            Err(e) => {
                return Err(e);
            },
        };
        self.pc = self.pc.wrapping_add(1);
        Ok((addr, false))
    }

    /// Resolution of the indirect-indexed mode: a zero-page pointer at the
    /// fetched byte holds a base to which Y is added, reporting a page
    /// crossing.
    fn resolve_izy(&mut self) -> (r: Result<(u16, bool), Fault>)
        requires
            old(self).wf(),
        ensures
            final(self).wf(),
            resolved_as(AddressingMode::IZY, old(self)@, final(self)@, r),
    {
        let zp: u8 = match self.memory.read(self.pc) {
            Ok(b) => b,
            Err(e) => {
                return Err(e);
            },
        };
        let base: u16 = match self.read_word(zp as u16, zp.wrapping_add(1) as u16) {
            Ok(w) => w,
            Err(e) => {
                return Err(e);
            },
        };
        self.pc = self.pc.wrapping_add(1);
        let addr: u16 = base.wrapping_add(self.y as u16);
        Ok((addr, addr / 256 != base / 256))
    }

    /// Resolves an addressing mode against the instruction stream: the
    /// effective address and whether the computation crossed a page
    /// boundary, consuming the operand bytes from the program counter. On a
    /// fault nothing moves.
    pub fn get_operand_address(&mut self, addressing_mode: AddressingMode) -> (r: Result<
        (u16, bool),
        Fault,
    >)
        requires
            old(self).wf(),
        ensures
            final(self).wf(),
            resolved_as(addressing_mode, old(self)@, final(self)@, r),
    {
        match addressing_mode {
            AddressingMode::IMP => Ok((0, false)),
            AddressingMode::IMM => {
                let addr: u16 = self.pc;
                self.pc = self.pc.wrapping_add(1);
                Ok((addr, false))
            },
            AddressingMode::ZP0 => self.resolve_zp0(),
            AddressingMode::ZPX => self.resolve_zpx(),
            AddressingMode::ZPY => self.resolve_zpy(),
            AddressingMode::REL => self.resolve_rel(),
            AddressingMode::ABS => self.resolve_abs(),
            AddressingMode::ABX => self.resolve_abx(),
            AddressingMode::ABY => self.resolve_aby(),
            AddressingMode::IND => self.resolve_ind(),
            AddressingMode::IZX => self.resolve_izx(),
            AddressingMode::IZY => self.resolve_izy(),
        }
    }

    /// The instruction's operand value: the accumulator under the implied
    /// mode, otherwise the bounds-checked byte at the effective address.
    fn read_operand(&self, mode: AddressingMode, addr: u16) -> (r: Result<u8, Fault>)
        requires
            self.wf(),
        ensures
            match r {
                Ok(v) => spec_operand(self@, mode, addr) == Some(v),
                Err(e) => spec_operand(self@, mode, addr) is None && e == Fault::OutOfRangeAccess,
            },
    {
        match mode {
            AddressingMode::IMP => Ok(self.a),
            _ => self.memory.read(addr),
        }
    }

    /// Zero and Negative taken from a value result.
    fn set_zn(&mut self, v: u8)
        ensures
            final(self)@ == (CpuState { p: upd_zn(old(self)@.p, v), ..old(self)@ }),
    {
        self.p.assign(Flag::Zero, v == 0);
        self.p.assign(Flag::Negative, v >= 0x80);
    }

    /// Interrupt entry, shared by BRK and the two lines: pushes the program
    /// counter and the flags byte (with the "B" signal as given), raises
    /// IrqDisable, and loads the program counter from the vector.
    fn interrupt(&mut self, brk: bool, vector: u16, cycles: usize) -> (r: Result<usize, Fault>)
        requires
            old(self).wf(),
        ensures
            final(self).wf(),
            spec_interrupt(old(self)@, brk, vector, cycles as int) == (
                final(self)@,
                cycle_result(r),
            ),
    {
        let pch: u8 = (self.pc / 256) as u8;
        let pcl: u8 = (self.pc % 256) as u8;
        match self.push(pch) {
            Ok(()) => (),
            Err(e) => {
                return Err(e);
            },
        }
        match self.push(pcl) {
            Ok(()) => (),
            Err(e) => {
                return Err(e);
            },
        }
        let mut captured: Status = self.p;
        captured.assign(Flag::Break, brk);
        let pb: u8 = captured.as_byte();
        match self.push(pb) {
            Ok(()) => (),
            Err(e) => {
                return Err(e);
            },
        }
        self.p.set(Flag::IrqDisable);
        let target: u16 = match self.read_word(vector, vector.wrapping_add(1)) {
            Ok(w) => w,
            Err(e) => {
                return Err(e);
            },
        };
        self.pc = target;
        Ok(cycles)
    }

    /// The instruction's cycle cost: its base count plus the page-crossing
    /// penalty its addressing mode is subject to.
    fn cycles_with_penalty(&self, op: Opcode, crossed: bool) -> (r: usize)
        requires
            op.cycles <= 7,
        ensures
            r as int == op.cycles + penalty(op.addressing_mode, crossed),
    {
        if crossed && (matches!(op.addressing_mode, AddressingMode::ABX) || matches!(
            op.addressing_mode,
            AddressingMode::ABY,
        ) || matches!(op.addressing_mode, AddressingMode::IZY)) {
            op.cycles + 1
        } else {
            op.cycles
        }
    }

    /// The loads: the resolved operand moves into the named register, Zero
    /// and Negative following it.
    fn ex_load(&mut self, op: Opcode, addr: u16, crossed: bool) -> (r: Result<usize, Fault>)
        requires
            old(self).wf(),
            op.cycles <= 7,
            op.instruction == Instruction::LDA || op.instruction == Instruction::LDX
                || op.instruction == Instruction::LDY,
        ensures
            final(self).wf(),
            spec_exec_instr(op, old(self)@, addr, crossed) == (final(self)@, cycle_result(r)),
    {
        let v: u8 = match self.read_operand(op.addressing_mode, addr) {
            Ok(v) => v,
            Err(e) => {
                return Err(e);
            },
        };
        match op.instruction {
            Instruction::LDA => self.a = v,
            Instruction::LDX => self.x = v,
            _ => self.y = v,
        }
        self.set_zn(v);
        Ok(self.cycles_with_penalty(op, crossed))
    }

    /// The stores: the named register written at the effective address, no
    /// flag effect.
    fn ex_store(&mut self, op: Opcode, addr: u16, crossed: bool) -> (r: Result<usize, Fault>)
        requires
            old(self).wf(),
            op.cycles <= 7,
            op.instruction == Instruction::STA || op.instruction == Instruction::STX
                || op.instruction == Instruction::STY,
        ensures
            final(self).wf(),
            spec_exec_instr(op, old(self)@, addr, crossed) == (final(self)@, cycle_result(r)),
    {
        let v: u8 = match op.instruction {
            Instruction::STA => self.a,
            Instruction::STX => self.x,
            _ => self.y,
        };
        match self.memory.write(addr, v) {
            Ok(()) => (),
            Err(e) => {
                return Err(e);
            },
        }
        Ok(self.cycles_with_penalty(op, crossed))
    }

    /// Add- and subtract-with-carry into the accumulator: Carry from
    /// unsigned overflow or no-borrow, Overflow from signed overflow, Zero
    /// and Negative from the result. The Decimal flag has no effect on this
    /// target.
    #[verifier::rlimit(100)]
    fn ex_arith(&mut self, op: Opcode, addr: u16, crossed: bool) -> (r: Result<usize, Fault>)
        requires
            old(self).wf(),
            op.cycles <= 7,
            op.instruction == Instruction::ADC || op.instruction == Instruction::SBC,
        ensures
            final(self).wf(),
            spec_exec_instr(op, old(self)@, addr, crossed) == (final(self)@, cycle_result(r)),
    {
        let v: u8 = match self.read_operand(op.addressing_mode, addr) {
            Ok(v) => v,
            Err(e) => {
                return Err(e);
            },
        };
        let a: u8 = self.a;
        let sa: i32 = if a >= 0x80 {
            a as i32 - 256
        } else {
            a as i32
        };
        let sm: i32 = if v >= 0x80 {
            v as i32 - 256
        } else {
            v as i32
        };
        let carry_in: bool = self.p.test(Flag::Carry);
        let r2: u8;
        let carry_out: bool;
        let overflow: bool;
        if matches!(op.instruction, Instruction::ADC) {
            let cin: u16 = if carry_in {
                1
            } else {
                0
            };
            let sum: u16 = a as u16 + v as u16 + cin;
            r2 = (sum % 256) as u8;
            carry_out = sum > 255;
            let ssum: i32 = sa + sm + cin as i32;
            overflow = ssum < -128 || ssum > 127;
        } else {
            let borrow: i32 = if carry_in {
                0
            } else {
                1
            };
            let diff: i32 = a as i32 - v as i32 - borrow;
            r2 = ((diff + 512) % 256) as u8;
            carry_out = diff >= 0;
            let sdiff: i32 = sa - sm - borrow;
            overflow = sdiff < -128 || sdiff > 127;
        }
        self.a = r2;
        self.p.assign(Flag::Carry, carry_out);
        self.p.assign(Flag::Overflow, overflow);
        self.set_zn(r2);
        Ok(self.cycles_with_penalty(op, crossed))
    }

    /// The comparisons: register minus operand without storing; Carry when
    /// the register is at least the operand, Zero when equal, Negative from
    /// the difference's high bit.
    fn ex_compare(&mut self, op: Opcode, addr: u16, crossed: bool) -> (r: Result<usize, Fault>)
        requires
            old(self).wf(),
            op.cycles <= 7,
            op.instruction == Instruction::CMP || op.instruction == Instruction::CPX
                || op.instruction == Instruction::CPY,
        ensures
            final(self).wf(),
            spec_exec_instr(op, old(self)@, addr, crossed) == (final(self)@, cycle_result(r)),
    {
        let v: u8 = match self.read_operand(op.addressing_mode, addr) {
            Ok(v) => v,
            Err(e) => {
                return Err(e);
            },
        };
        let reg: u8 = match op.instruction {
            Instruction::CMP => self.a,
            Instruction::CPX => self.x,
            _ => self.y,
        };
        let rsub: u8 = ((reg as i32 - v as i32 + 256) % 256) as u8;
        self.p.assign(Flag::Carry, reg >= v);
        self.p.assign(Flag::Zero, reg == v);
        self.p.assign(Flag::Negative, rsub >= 0x80);
        Ok(self.cycles_with_penalty(op, crossed))
    }

    /// The bitwise instructions: AND, ORA and EOR combine the operand into
    /// the accumulator with Zero and Negative from the result; BIT tests the
    /// operand against the accumulator and loads its two high bits into
    /// Overflow and Negative.
    fn ex_logic(&mut self, op: Opcode, addr: u16, crossed: bool) -> (r: Result<usize, Fault>)
        requires
            old(self).wf(),
            op.cycles <= 7,
            op.instruction == Instruction::AND || op.instruction == Instruction::ORA
                || op.instruction == Instruction::EOR || op.instruction == Instruction::BIT,
        ensures
            final(self).wf(),
            spec_exec_instr(op, old(self)@, addr, crossed) == (final(self)@, cycle_result(r)),
    {
        let v: u8 = match self.read_operand(op.addressing_mode, addr) {
            Ok(v) => v,
            Err(e) => {
                return Err(e);
            },
        };
        if matches!(op.instruction, Instruction::BIT) {
            self.p.assign(Flag::Zero, self.a & v == 0);
            self.p.assign(Flag::Overflow, v & 0x40 != 0);
            self.p.assign(Flag::Negative, v & 0x80 != 0);
        } else {
            let r2: u8 = match op.instruction {
                Instruction::AND => self.a & v,
                Instruction::ORA => self.a | v,
                _ => self.a ^ v,
            };
            self.a = r2;
            self.set_zn(r2);
        }
        Ok(self.cycles_with_penalty(op, crossed))
    }

    /// The shifts and rotates: one bit left or right through Carry, on the
    /// accumulator under the implied mode or in place in memory otherwise,
    /// with Carry taking the bit shifted out and Zero and Negative the
    /// result.
    #[verifier::rlimit(100)]
    fn ex_shift(&mut self, op: Opcode, addr: u16, crossed: bool) -> (r: Result<usize, Fault>)
        requires
            old(self).wf(),
            op.cycles <= 7,
            op.instruction == Instruction::ASL || op.instruction == Instruction::LSR
                || op.instruction == Instruction::ROL || op.instruction == Instruction::ROR,
        ensures
            final(self).wf(),
            spec_exec_instr(op, old(self)@, addr, crossed) == (final(self)@, cycle_result(r)),
    {
        let on_a: bool = matches!(op.addressing_mode, AddressingMode::IMP);
        let v: u8 = if on_a {
            self.a
        } else {
            match self.memory.read(addr) {
                Ok(v) => v,
                Err(e) => {
                    return Err(e);
                },
            }
        };
        let carry_in: bool = self.p.test(Flag::Carry);
        let r2: u8;
        let carry_out: bool;
        match op.instruction {
            Instruction::ASL => {
                r2 = ((v as u16 * 2) % 256) as u8;
                carry_out = v >= 0x80;
            },
            Instruction::LSR => {
                r2 = v / 2;
                carry_out = v % 2 == 1;
            },
            Instruction::ROL => {
                let cin: u16 = if carry_in {
                    1
                } else {
                    0
                };
                r2 = ((v as u16 * 2 + cin) % 256) as u8;
                carry_out = v >= 0x80;
            },
            _ => {
                let cin: u8 = if carry_in {
                    128
                } else {
                    0
                };
                r2 = v / 2 + cin;
                carry_out = v % 2 == 1;
            },
        }
        if on_a {
            self.a = r2;
        } else {
            match self.memory.write(addr, r2) {
                Ok(()) => (),
                Err(e) => {
                    return Err(e);
                },
            }
        }
        self.p.assign(Flag::Carry, carry_out);
        self.set_zn(r2);
        Ok(self.cycles_with_penalty(op, crossed))
    }

    /// Increment and decrement in memory: one up or down with 8-bit
    /// wraparound, Zero and Negative from the result, Carry untouched.
    #[verifier::rlimit(100)]
    fn ex_incdec_mem(&mut self, op: Opcode, addr: u16, crossed: bool) -> (r: Result<usize, Fault>)
        requires
            old(self).wf(),
            op.cycles <= 7,
            op.instruction == Instruction::INC || op.instruction == Instruction::DEC,
        ensures
            final(self).wf(),
            spec_exec_instr(op, old(self)@, addr, crossed) == (final(self)@, cycle_result(r)),
    {
        let v: u8 = match self.memory.read(addr) {
            Ok(v) => v,
            Err(e) => {
                return Err(e);
            },
        };
        let r2: u8 = if matches!(op.instruction, Instruction::INC) {
            v.wrapping_add(1)
        } else {
            v.wrapping_sub(1)
        };
        match self.memory.write(addr, r2) {
            Ok(()) => (),
            Err(e) => {
                return Err(e);
            },
        }
        self.set_zn(r2);
        Ok(self.cycles_with_penalty(op, crossed))
    }

    /// Register counts and transfers: a value moves into a register, Zero
    /// and Negative following it except for TXS, which touches no flag.
    fn ex_reg(&mut self, op: Opcode, addr: u16, crossed: bool) -> (r: Result<usize, Fault>)
        requires
            old(self).wf(),
            op.cycles <= 7,
            op.instruction == Instruction::INX || op.instruction == Instruction::INY
                || op.instruction == Instruction::DEX || op.instruction == Instruction::DEY
                || op.instruction == Instruction::TAX || op.instruction == Instruction::TAY
                || op.instruction == Instruction::TXA || op.instruction == Instruction::TYA
                || op.instruction == Instruction::TSX || op.instruction == Instruction::TXS,
        ensures
            final(self).wf(),
            spec_exec_instr(op, old(self)@, addr, crossed) == (final(self)@, cycle_result(r)),
    {
        if matches!(op.instruction, Instruction::TXS) {
            self.sp = self.x;
            return Ok(op.cycles);
        }
        let v: u8 = match op.instruction {
            Instruction::INX => self.x.wrapping_add(1),
            Instruction::INY => self.y.wrapping_add(1),
            Instruction::DEX => self.x.wrapping_sub(1),
            Instruction::DEY => self.y.wrapping_sub(1),
            Instruction::TAX => self.a,
            Instruction::TAY => self.a,
            Instruction::TXA => self.x,
            Instruction::TYA => self.y,
            _ => self.sp,
        };
        match op.instruction {
            Instruction::TXA => self.a = v,
            Instruction::TYA => self.a = v,
            Instruction::INX => self.x = v,
            Instruction::DEX => self.x = v,
            Instruction::TAX => self.x = v,
            Instruction::TSX => self.x = v,
            _ => self.y = v,
        }
        self.set_zn(v);
        Ok(op.cycles)
    }

    /// The branches: when the tested flag holds, the program counter moves
    /// to the resolved relative address for one extra cycle, and one more
    /// when the branch crosses a page.
    fn ex_branch(&mut self, op: Opcode, addr: u16, crossed: bool) -> (r: Result<usize, Fault>)
        requires
            old(self).wf(),
            op.cycles <= 7,
            op.instruction == Instruction::BCC || op.instruction == Instruction::BCS
                || op.instruction == Instruction::BEQ || op.instruction == Instruction::BNE
                || op.instruction == Instruction::BMI || op.instruction == Instruction::BPL
                || op.instruction == Instruction::BVC || op.instruction == Instruction::BVS,
        ensures
            final(self).wf(),
            spec_exec_instr(op, old(self)@, addr, crossed) == (final(self)@, cycle_result(r)),
    {
        let taken: bool = match op.instruction {
            Instruction::BCC => !self.p.test(Flag::Carry),
            Instruction::BCS => self.p.test(Flag::Carry),
            Instruction::BEQ => self.p.test(Flag::Zero),
            Instruction::BNE => !self.p.test(Flag::Zero),
            Instruction::BMI => self.p.test(Flag::Negative),
            Instruction::BPL => !self.p.test(Flag::Negative),
            Instruction::BVC => !self.p.test(Flag::Overflow),
            _ => self.p.test(Flag::Overflow),
        };
        if taken {
            self.pc = addr;
            if crossed {
                Ok(op.cycles + 2)
            } else {
                Ok(op.cycles + 1)
            }
        } else {
            Ok(op.cycles)
        }
    }

    /// The jumps and calls: JMP moves the program counter; JSR first pushes
    /// the address of its own last byte, high byte first; RTS pops it back
    /// and resumes one past it.
    fn ex_jump(&mut self, op: Opcode, addr: u16, crossed: bool) -> (r: Result<usize, Fault>)
        requires
            old(self).wf(),
            op.cycles <= 7,
            op.instruction == Instruction::JMP || op.instruction == Instruction::JSR
                || op.instruction == Instruction::RTS,
        ensures
            final(self).wf(),
            spec_exec_instr(op, old(self)@, addr, crossed) == (final(self)@, cycle_result(r)),
    {
        match op.instruction {
            Instruction::JMP => {
                self.pc = addr;
                Ok(op.cycles)
            },
            Instruction::JSR => {
                let ret: u16 = self.pc.wrapping_sub(1);
                match self.push((ret / 256) as u8) {
                    Ok(()) => (),
                    Err(e) => {
                        return Err(e);
                    },
                }
                match self.push((ret % 256) as u8) {
                    Ok(()) => (),
                    Err(e) => {
                        return Err(e);
                    },
                }
                self.pc = addr;
                Ok(op.cycles)
            },
            _ => {
                let lo: u8 = match self.pull() {
                    Ok(v) => v,
                    Err(e) => {
                        return Err(e);
                    },
                };
                let hi: u8 = match self.pull() {
                    Ok(v) => v,
                    Err(e) => {
                        return Err(e);
                    },
                };
                self.pc = ((hi as u16) * 256 + lo as u16).wrapping_add(1);
                Ok(op.cycles)
            },
        }
    }

    /// The stack instructions: push or pull the accumulator or the flags
    /// byte. PHP captures with the "B" signal set and bit 5 forced; PLP
    /// restores the flags verbatim.
    fn ex_stack(&mut self, op: Opcode, addr: u16, crossed: bool) -> (r: Result<usize, Fault>)
        requires
            old(self).wf(),
            op.cycles <= 7,
            op.instruction == Instruction::PHA || op.instruction == Instruction::PHP
                || op.instruction == Instruction::PLA || op.instruction == Instruction::PLP,
        ensures
            final(self).wf(),
            spec_exec_instr(op, old(self)@, addr, crossed) == (final(self)@, cycle_result(r)),
    {
        match op.instruction {
            Instruction::PHA => {
                let v: u8 = self.a;
                match self.push(v) {
                    Ok(()) => Ok(op.cycles),
                    Err(e) => Err(e),
                }
            },
            Instruction::PHP => {
                let mut captured: Status = self.p;
                captured.assign(Flag::Break, true);
                let pb: u8 = captured.as_byte();
                match self.push(pb) {
                    Ok(()) => Ok(op.cycles),
                    Err(e) => Err(e),
                }
            },
            Instruction::PLA => {
                let v: u8 = match self.pull() {
                    Ok(v) => v,
                    Err(e) => {
                        return Err(e);
                    },
                };
                self.a = v;
                self.set_zn(v);
                Ok(op.cycles)
            },
            _ => {
                let v: u8 = match self.pull() {
                    Ok(v) => v,
                    Err(e) => {
                        return Err(e);
                    },
                };
                self.p = Status::from_byte(v);
                Ok(op.cycles)
            },
        }
    }

    /// BRK and RTI: interrupt entry through the fixed vector with the "B"
    /// signal set, and the exact restoration of flags and program counter on
    /// return.
    fn ex_brk_rti(&mut self, op: Opcode, addr: u16, crossed: bool) -> (r: Result<usize, Fault>)
        requires
            old(self).wf(),
            op.cycles <= 7,
            op.instruction == Instruction::BRK || op.instruction == Instruction::RTI,
        ensures
            final(self).wf(),
            spec_exec_instr(op, old(self)@, addr, crossed) == (final(self)@, cycle_result(r)),
    {
        if matches!(op.instruction, Instruction::BRK) {
            self.interrupt(true, 0xFFFE, op.cycles)
        } else {
            let pb: u8 = match self.pull() {
                Ok(v) => v,
                Err(e) => {
                    return Err(e);
                },
            };
            self.p = Status::from_byte(pb);
            let lo: u8 = match self.pull() {
                Ok(v) => v,
                Err(e) => {
                    return Err(e);
                },
            };
            let hi: u8 = match self.pull() {
                Ok(v) => v,
                Err(e) => {
                    return Err(e);
                },
            };
            self.pc = (hi as u16) * 256 + lo as u16;
            Ok(op.cycles)
        }
    }

    /// The direct flag instructions and NOP: one named flag set or cleared,
    /// or nothing at all, for the base cycles.
    fn ex_flag(&mut self, op: Opcode, addr: u16, crossed: bool) -> (r: Result<usize, Fault>)
        requires
            old(self).wf(),
            op.cycles <= 7,
            op.instruction == Instruction::SEC || op.instruction == Instruction::CLC
                || op.instruction == Instruction::SEI || op.instruction == Instruction::CLI
                || op.instruction == Instruction::SED || op.instruction == Instruction::CLD
                || op.instruction == Instruction::CLV || op.instruction == Instruction::NOP,
        ensures
            final(self).wf(),
            spec_exec_instr(op, old(self)@, addr, crossed) == (final(self)@, cycle_result(r)),
    {
        match op.instruction {
            Instruction::SEC => self.p.set(Flag::Carry),
            Instruction::CLC => self.p.clear(Flag::Carry),
            Instruction::SEI => self.p.set(Flag::IrqDisable),
            Instruction::CLI => self.p.clear(Flag::IrqDisable),
            Instruction::SED => self.p.set(Flag::Decimal),
            Instruction::CLD => self.p.clear(Flag::Decimal),
            Instruction::CLV => self.p.clear(Flag::Overflow),
            _ => (),
        }
        Ok(op.cycles)
    }

    /// Dispatches one resolved instruction to its semantic effect.
    #[verifier::rlimit(60)]
    fn exec_instr(&mut self, op: Opcode, addr: u16, crossed: bool) -> (r: Result<usize, Fault>)
        requires
            old(self).wf(),
            op.cycles <= 7,
        ensures
            final(self).wf(),
            spec_exec_instr(op, old(self)@, addr, crossed) == (final(self)@, cycle_result(r)),
    {
        match op.instruction {
            Instruction::LDA => self.ex_load(op, addr, crossed),
            Instruction::LDX => self.ex_load(op, addr, crossed),
            Instruction::LDY => self.ex_load(op, addr, crossed),
            Instruction::STA => self.ex_store(op, addr, crossed),
            Instruction::STX => self.ex_store(op, addr, crossed),
            Instruction::STY => self.ex_store(op, addr, crossed),
            Instruction::ADC => self.ex_arith(op, addr, crossed),
            Instruction::SBC => self.ex_arith(op, addr, crossed),
            Instruction::CMP => self.ex_compare(op, addr, crossed),
            Instruction::CPX => self.ex_compare(op, addr, crossed),
            Instruction::CPY => self.ex_compare(op, addr, crossed),
            Instruction::AND => self.ex_logic(op, addr, crossed),
            Instruction::ORA => self.ex_logic(op, addr, crossed),
            Instruction::EOR => self.ex_logic(op, addr, crossed),
            Instruction::BIT => self.ex_logic(op, addr, crossed),
            Instruction::ASL => self.ex_shift(op, addr, crossed),
            Instruction::LSR => self.ex_shift(op, addr, crossed),
            Instruction::ROL => self.ex_shift(op, addr, crossed),
            Instruction::ROR => self.ex_shift(op, addr, crossed),
            Instruction::INC => self.ex_incdec_mem(op, addr, crossed),
            Instruction::DEC => self.ex_incdec_mem(op, addr, crossed),
            Instruction::INX => self.ex_reg(op, addr, crossed),
            Instruction::INY => self.ex_reg(op, addr, crossed),
            Instruction::DEX => self.ex_reg(op, addr, crossed),
            Instruction::DEY => self.ex_reg(op, addr, crossed),
            Instruction::TAX => self.ex_reg(op, addr, crossed),
            Instruction::TAY => self.ex_reg(op, addr, crossed),
            Instruction::TXA => self.ex_reg(op, addr, crossed),
            Instruction::TYA => self.ex_reg(op, addr, crossed),
            Instruction::TSX => self.ex_reg(op, addr, crossed),
            Instruction::TXS => self.ex_reg(op, addr, crossed),
            Instruction::BCC => self.ex_branch(op, addr, crossed),
            Instruction::BCS => self.ex_branch(op, addr, crossed),
            Instruction::BEQ => self.ex_branch(op, addr, crossed),
            Instruction::BNE => self.ex_branch(op, addr, crossed),
            Instruction::BMI => self.ex_branch(op, addr, crossed),
            Instruction::BPL => self.ex_branch(op, addr, crossed),
            Instruction::BVC => self.ex_branch(op, addr, crossed),
            Instruction::BVS => self.ex_branch(op, addr, crossed),
            Instruction::JMP => self.ex_jump(op, addr, crossed),
            Instruction::JSR => self.ex_jump(op, addr, crossed),
            Instruction::RTS => self.ex_jump(op, addr, crossed),
            Instruction::BRK => self.ex_brk_rti(op, addr, crossed),
            Instruction::RTI => self.ex_brk_rti(op, addr, crossed),
            Instruction::PHA => self.ex_stack(op, addr, crossed),
            Instruction::PHP => self.ex_stack(op, addr, crossed),
            Instruction::PLA => self.ex_stack(op, addr, crossed),
            Instruction::PLP => self.ex_stack(op, addr, crossed),
            Instruction::SEC => self.ex_flag(op, addr, crossed),
            Instruction::CLC => self.ex_flag(op, addr, crossed),
            Instruction::SEI => self.ex_flag(op, addr, crossed),
            Instruction::CLI => self.ex_flag(op, addr, crossed),
            Instruction::SED => self.ex_flag(op, addr, crossed),
            Instruction::CLD => self.ex_flag(op, addr, crossed),
            Instruction::CLV => self.ex_flag(op, addr, crossed),
            Instruction::NOP => self.ex_flag(op, addr, crossed),
            Instruction::XXX => Err(Fault::DecodeTableGap),
        }
    }

    /// One fetch-decode-resolve-execute step, the interrupt lines checked
    /// first: an asserted non-maskable line is always taken, the maskable
    /// one only while IrqDisable is clear. Returns the cycles the step
    /// consumed, for the caller's timing synchronization, or the fatal
    /// fault the step ran into.
    pub fn execute(&mut self) -> (r: Result<usize, Fault>)
        requires
            old(self).wf(),
        ensures
            final(self).wf(),
            spec_step(old(self)@) == (final(self)@, cycle_result(r)),
    {
        if self.nmi_line {
            self.nmi_line = false;
            return self.interrupt(false, 0xFFFA, 7);
        }
        if self.irq_line && !self.p.test(Flag::IrqDisable) {
            return self.interrupt(false, 0xFFFE, 7);
        }
        let byte: u8 = match self.memory.read(self.pc) {
            Ok(b) => b,
            Err(e) => {
                return Err(e);
            },
        };
        let op: Opcode = decode(byte);
        self.pc = self.pc.wrapping_add(1);
        if matches!(op.instruction, Instruction::XXX) {
            return Err(Fault::DecodeTableGap);
        }
        let resolved: (u16, bool) = match self.get_operand_address(op.addressing_mode) {
            Ok(t) => t,
            Err(e) => {
                return Err(e);
            },
        };
        self.exec_instr(op, resolved.0, resolved.1)
    }

    /// Reinitializes the registers to their architectural defaults and loads
    /// the program counter from the little-endian reset vector at
    /// `0xFFFC`/`0xFFFD`. When the vector lies outside the backing storage
    /// the fault is reported and nothing moves.
    pub fn reset(&mut self) -> (r: Result<(), Fault>)
        requires
            old(self).wf(),
        ensures
            final(self).wf(),
            match r {
                Ok(()) => word_at(old(self)@, 0xFFFC, 0xFFFD) == Some(final(self)@.pc)
                    && final(self)@ == (CpuState {
                    a: 0,
                    x: 0,
                    y: 0,
                    sp: 0xFD,
                    pc: final(self)@.pc,
                    p: reset_flags(),
                    ..old(self)@
                }),
                Err(e) => word_at(old(self)@, 0xFFFC, 0xFFFD) is None && e
                    == Fault::OutOfRangeAccess && final(self)@ == old(self)@,
            },
    {
        let target: u16 = match self.read_word(0xFFFC, 0xFFFD) {
            Ok(w) => w,
            Err(e) => {
                return Err(e);
            },
        };
        self.a = 0;
        self.x = 0;
        self.y = 0;
        self.sp = 0xFD;
        let mut p: Status = Status::new();
        p.set(Flag::IrqDisable);
        p.set(Flag::Unused);
        self.p = p;
        self.pc = target;
        Ok(())
    }
}

/// How a resolution result relates the state before to the state after:
/// success reports exactly what `spec_resolve` says and moves only the
/// program counter; a fault is exactly the out-of-range case, with nothing
/// moved.
pub open spec fn resolved_as(
    mode: AddressingMode,
    pre: CpuState,
    post: CpuState,
    r: Result<(u16, bool), Fault>,
) -> bool {
    match r {
        Ok((addr, crossed)) => spec_resolve(mode, pre) == Some(
            Resolved { pc: post.pc, addr, crossed },
        ) && post == (CpuState { pc: post.pc, ..pre }),
        Err(e) => spec_resolve(mode, pre) is None && e == Fault::OutOfRangeAccess && post == pre,
    }
}

/// A cycle-count result lifted to the model's cycle domain.
pub open spec fn cycle_result(r: Result<usize, Fault>) -> Result<int, Fault> {
    match r {
        Ok(c) => Ok(c as int),
        Err(e) => Err(e),
    }
}

} // verus!
