//! Core of a 6502-family processor emulator: register and flag model, opcode
//! decode table, addressing-mode resolution, and the cycle-accounted
//! fetch-decode-execute step over a bounds-checked memory.

use vstd::prelude::*;

pub mod cpu;
pub mod decoder;
pub mod flags;
pub mod instruction;
pub mod laws;
pub mod memory;
pub mod model;

verus! {

/// A fatal condition raised by the core. Emulation cannot continue past
/// either of these: they mark a reference to memory that does not exist in
/// this configuration, or a gap in the decode table.
#[derive(Clone, Copy, Debug, PartialEq, Eq, Structural)]
pub enum Fault {
    /// A read or write named an address outside the backing storage.
    OutOfRangeAccess,
    /// The instruction stream reached an opcode the decode table maps to the
    /// unimplemented sentinel.
    DecodeTableGap,
}

} // verus!
