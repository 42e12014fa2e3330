//! Flat addressable byte storage with bounds-checked access.
//!
//! The address space of the processor is 16 bits wide, but a given backing
//! store may cover only a subrange of it. An access outside the backing range
//! is a fatal condition, never a silent wrap or clamp: masking here would hide
//! addressing-mode defects upstream.

use vstd::prelude::*;

use crate::Fault;

verus! {

/// Number of bytes of backing storage.
pub const RAM_SIZE: usize = 0x2000;

/// True when `address` names a byte inside a backing store of `len` bytes.
pub open spec fn addr_ok(len: int, address: u16) -> bool {
    (address as int) < len
}

/// Flat byte storage covering addresses `0 .. RAM_SIZE`.
pub struct Memory {
    ram: Vec<u8>,
}

impl View for Memory {
    type V = Seq<u8>;

    closed spec fn view(&self) -> Seq<u8> {
        self.ram@
    }
}

impl Memory {
    /// The backing store always covers exactly `RAM_SIZE` bytes.
    pub open spec fn wf(&self) -> bool {
        self@.len() == RAM_SIZE
    }

    /// Fresh storage, all bytes zero.
    pub fn new() -> (r: Memory)
        ensures
            r.wf(),
            forall|i: int| 0 <= i < r@.len() ==> r@[i] == 0u8,
    {
        let mut ram: Vec<u8> = Vec::new();
        let mut i: usize = 0;
        while i < RAM_SIZE
            invariant
                i <= RAM_SIZE,
                ram@.len() == i,
                forall|j: int| 0 <= j < i ==> ram@[j] == 0u8,
            decreases RAM_SIZE - i,
        {
            ram.push(0u8);
            i = i + 1;
        }
        Memory { ram }
    }

    /// Bounds-checked read: the byte at `address`, or the fatal
    /// out-of-range condition when the address lies beyond the backing store.
    pub fn read(&self, address: u16) -> (r: Result<u8, Fault>)
        requires
            self.wf(),
        ensures
            match r {
                Ok(b) => addr_ok(self@.len() as int, address) && b == self@[address as int],
                Err(e) => !addr_ok(self@.len() as int, address) && e == Fault::OutOfRangeAccess,
            },
    {
        if (address as usize) < self.ram.len() {
            Ok(self.ram[address as usize])
        } else {
            Err(Fault::OutOfRangeAccess)
        }
    }

    /// Bounds-checked write: stores `value` at `address`, or reports the
    /// fatal out-of-range condition leaving the storage unchanged.
    pub fn write(&mut self, address: u16, value: u8) -> (r: Result<(), Fault>)
        requires
            old(self).wf(),
        ensures
            final(self).wf(),
            match r {
                Ok(()) => addr_ok(old(self)@.len() as int, address) && final(self)@
                    == old(self)@.update(address as int, value),
                Err(e) => !addr_ok(old(self)@.len() as int, address) && e
                    == Fault::OutOfRangeAccess && final(self)@ == old(self)@,
            },
    {
        if (address as usize) < self.ram.len() {
            self.ram.set(address as usize, value);
            Ok(())
        } else {
            Err(Fault::OutOfRangeAccess)
        }
    }
}

} // verus!
