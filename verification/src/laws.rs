//! Machine-level laws, each proved against the step interpreter that
//! `Cpu::execute` is held to.

use vstd::prelude::*;

use crate::Fault;
use crate::instruction::AddressingMode;
use crate::model::CpuState;
use crate::model::addr_in;
use crate::model::byte_at;
use crate::model::spec_resolve;
use crate::model::spec_step;
use crate::model::stack_addr;
use crate::model::word;

verus! {

/// Branch cycle accounting, shown on BEQ (opcode `0xF0`): a branch not taken
/// costs its base two cycles; a taken branch costs one more; a taken branch
/// whose target lies in another page than the following instruction costs
/// two more.
#[verifier::rlimit(100)]
pub proof fn lemma_branch_cycle_accounting(s: CpuState)
    requires
        s.mem.len() == 0x2000,
        !s.nmi,
        !(s.irq && !s.p.i),
        s.pc as int + 1 < s.mem.len(),
        byte_at(s, s.pc) == 0xF0u8,
    ensures
        ({
            let r = spec_step(s);
            let fallthrough: u16 = (s.pc + 2) as u16;
            let res = spec_resolve(
                AddressingMode::REL,
                CpuState { pc: (s.pc + 1) as u16, ..s },
            ).unwrap();
            &&& (!s.p.z ==> r == (CpuState { pc: fallthrough, ..s }, Ok::<int, Fault>(2)))
            &&& ((s.p.z && !res.crossed) ==> r == (
                CpuState { pc: res.addr, ..s },
                Ok::<int, Fault>(3),
            ))
            &&& ((s.p.z && res.crossed) ==> r == (
                CpuState { pc: res.addr, ..s },
                Ok::<int, Fault>(4),
            ))
        }),
{
}

/// Call-and-return round trip: from a JSR (opcode `0x20`) whose absolute
/// target holds an RTS (opcode `0x60`), one step enters the subroutine and
/// the next step returns, leaving the program counter at the instruction
/// after the JSR and the stack pointer at its pre-call value. The two pushed
/// return-address bytes may not overwrite the RTS itself.
#[verifier::rlimit(100)]
pub proof fn lemma_jsr_rts_round_trip(s: CpuState, target: u16)
    requires
        s.mem.len() == 0x2000,
        !s.nmi,
        !s.irq,
        s.pc as int + 2 < s.mem.len(),
        byte_at(s, s.pc) == 0x20u8,
        target == word(byte_at(s, (s.pc + 2) as u16), byte_at(s, (s.pc + 1) as u16)),
        addr_in(s, target),
        byte_at(s, target) == 0x60u8,
        target != stack_addr(s.sp),
        target != stack_addr(s.sp.wrapping_sub(1)),
    ensures
        ({
            let step1 = spec_step(s);
            let step2 = spec_step(step1.0);
            &&& step1.1 == Ok::<int, Fault>(6)
            &&& step1.0.pc == target
            &&& step2.1 == Ok::<int, Fault>(6)
            &&& step2.0.pc == (s.pc + 3) as u16
            &&& step2.0.sp == s.sp
            &&& step2.0.a == s.a && step2.0.x == s.x && step2.0.y == s.y && step2.0.p == s.p
        }),
{
    let ret: u16 = (s.pc + 2) as u16;
    assert(ret as int == 256 * (ret as int / 256) + ret as int % 256);
}

/// Stack wraparound: with the stack pointer at `0x00`, one push (shown on
/// PHA, opcode `0x48`) completes without any fault and leaves the stack
/// pointer at `0xFF`.
#[verifier::rlimit(100)]
pub proof fn lemma_stack_wraparound(s: CpuState)
    requires
        s.mem.len() == 0x2000,
        !s.nmi,
        !(s.irq && !s.p.i),
        addr_in(s, s.pc),
        byte_at(s, s.pc) == 0x48u8,
        s.sp == 0,
    ensures
        spec_step(s).1 == Ok::<int, Fault>(3),
        spec_step(s).0.sp == 0xFF,
{
}

} // verus!
