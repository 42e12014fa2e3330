//! The processor's packed status register `P`: six live one-bit condition
//! flags plus two reserved bits (bit 4, the "B" signal, and bit 5, which must
//! read as one whenever the register is observed as a byte).

use vstd::prelude::*;

verus! {

/// The named bits of the status register, low bit first.
#[derive(Clone, Copy, Debug, PartialEq, Eq, Structural)]
pub enum Flag {
    /// Bit 0: carry out of additions, no-borrow of subtractions and
    /// comparisons, and the bit shifted out by shifts and rotates.
    Carry,
    /// Bit 1: set when an instruction's value result is zero.
    Zero,
    /// Bit 2: while set, all interrupts except the non-maskable one are held.
    IrqDisable,
    /// Bit 3: decimal mode request; arithmetic on this target ignores it.
    Decimal,
    /// Bit 4: the "B" signal; records whether the flags byte was captured by
    /// an interrupt (clear) or by a push instruction (set).
    Break,
    /// Bit 5: reserved; reads as one whenever the flags are observed as a
    /// byte.
    Unused,
    /// Bit 6: signed overflow of additions and subtractions.
    Overflow,
    /// Bit 7: the high bit of an instruction's value result.
    Negative,
}

/// The mathematical value of the status register: one boolean per bit.
pub struct Flags {
    pub c: bool,
    pub z: bool,
    pub i: bool,
    pub d: bool,
    pub b: bool,
    pub u: bool,
    pub v: bool,
    pub n: bool,
}

/// The byte a flag view packs into, bit by bit.
pub open spec fn byte_of_flags(f: Flags) -> u8 {
    (if f.c {
        0x01u8
    } else {
        0u8
    }) | (if f.z {
        0x02u8
    } else {
        0u8
    }) | (if f.i {
        0x04u8
    } else {
        0u8
    }) | (if f.d {
        0x08u8
    } else {
        0u8
    }) | (if f.b {
        0x10u8
    } else {
        0u8
    }) | (if f.u {
        0x20u8
    } else {
        0u8
    }) | (if f.v {
        0x40u8
    } else {
        0u8
    }) | (if f.n {
        0x80u8
    } else {
        0u8
    })
}

/// The flag view a byte denotes, bit by bit.
pub open spec fn flags_of_byte(byte: u8) -> Flags {
    Flags {
        c: byte & 0x01 != 0,
        z: byte & 0x02 != 0,
        i: byte & 0x04 != 0,
        d: byte & 0x08 != 0,
        b: byte & 0x10 != 0,
        u: byte & 0x20 != 0,
        v: byte & 0x40 != 0,
        n: byte & 0x80 != 0,
    }
}

/// The value of one named flag in a view.
pub open spec fn flag_of(f: Flags, which: Flag) -> bool {
    match which {
        Flag::Carry => f.c,
        Flag::Zero => f.z,
        Flag::IrqDisable => f.i,
        Flag::Decimal => f.d,
        Flag::Break => f.b,
        Flag::Unused => f.u,
        Flag::Overflow => f.v,
        Flag::Negative => f.n,
    }
}

/// A view equal to `f` except that the named flag holds `val`.
pub open spec fn flag_assigned(f: Flags, which: Flag, val: bool) -> Flags {
    match which {
        Flag::Carry => Flags { c: val, ..f },
        Flag::Zero => Flags { z: val, ..f },
        Flag::IrqDisable => Flags { i: val, ..f },
        Flag::Decimal => Flags { d: val, ..f },
        Flag::Break => Flags { b: val, ..f },
        Flag::Unused => Flags { u: val, ..f },
        Flag::Overflow => Flags { v: val, ..f },
        Flag::Negative => Flags { n: val, ..f },
    }
}

/// The status register, packed into its architectural byte.
#[derive(Clone, Copy, Debug, PartialEq, Eq, Structural)]
pub struct Status {
    bits: u8,
}

impl View for Status {
    type V = Flags;

    closed spec fn view(&self) -> Flags {
        flags_of_byte(self.bits)
    }
}

impl Status {
    /// A status register with every bit clear.
    pub fn new() -> (r: Status)
        ensures
            r@ == (Flags {
                c: false,
                z: false,
                i: false,
                d: false,
                b: false,
                u: false,
                v: false,
                n: false,
            }),
    {
        proof {
            assert(0u8 & 0x01 == 0 && 0u8 & 0x02 == 0 && 0u8 & 0x04 == 0 && 0u8 & 0x08 == 0
                && 0u8 & 0x10 == 0 && 0u8 & 0x20 == 0 && 0u8 & 0x40 == 0 && 0u8 & 0x80 == 0)
                by (bit_vector);
        }
        Status { bits: 0 }
    }

    /// Sets the named flag; no other bit moves.
    pub fn set(&mut self, which: Flag)
        ensures
            final(self)@ == flag_assigned(old(self)@, which, true),
    {
        self.assign(which, true)
    }

    /// Clears the named flag; no other bit moves.
    pub fn clear(&mut self, which: Flag)
        ensures
            final(self)@ == flag_assigned(old(self)@, which, false),
    {
        self.assign(which, false)
    }

    /// Sets or clears the named flag after `val`; no other bit moves.
    pub fn assign(&mut self, which: Flag, val: bool)
        ensures
            final(self)@ == flag_assigned(old(self)@, which, val),
    {
        let mask: u8 = match which {
            Flag::Carry => 0x01,
            Flag::Zero => 0x02,
            Flag::IrqDisable => 0x04,
            Flag::Decimal => 0x08,
            Flag::Break => 0x10,
            Flag::Unused => 0x20,
            Flag::Overflow => 0x40,
            Flag::Negative => 0x80,
        };
        let b: u8 = self.bits;
        proof {
            lemma_mask_table();
        }
        if val {
            self.bits = b | mask;
            proof {
                lemma_or_view(b, mask);
            }
        } else {
            self.bits = b & !mask;
            proof {
                lemma_andnot_view(b, mask);
            }
        }
    }

    /// Reads the named flag.
    pub fn test(&self, which: Flag) -> (r: bool)
        ensures
            r == flag_of(self@, which),
    {
        match which {
            Flag::Carry => self.bits & 0x01 != 0,
            Flag::Zero => self.bits & 0x02 != 0,
            Flag::IrqDisable => self.bits & 0x04 != 0,
            Flag::Decimal => self.bits & 0x08 != 0,
            Flag::Break => self.bits & 0x10 != 0,
            Flag::Overflow => self.bits & 0x40 != 0,
            Flag::Negative => self.bits & 0x80 != 0,
            Flag::Unused => self.bits & 0x20 != 0,
        }
    }

    /// The register as its architectural byte, with the reserved bit 5
    /// forced to one; every other bit is taken verbatim.
    pub fn as_byte(&self) -> (r: u8)
        ensures
            r == byte_of_flags(flag_assigned(self@, Flag::Unused, true)),
    {
        let b: u8 = self.bits;
        proof {
            lemma_as_byte_bits(b);
        }
        b | 0x20
    }

    /// Restores the register verbatim from a byte previously captured by a
    /// push: no bit is forced on restoration.
    pub fn from_byte(byte: u8) -> (r: Status)
        ensures
            r@ == flags_of_byte(byte),
    {
        Status { bits: byte }
    }
}

/// How each single-bit mask reads under each of the eight bit tests.
proof fn lemma_mask_table()
    by (bit_vector)
    ensures
        0x01u8 & 0x01 != 0 && 0x01u8 & 0x02 == 0 && 0x01u8 & 0x04 == 0 && 0x01u8 & 0x08 == 0
            && 0x01u8 & 0x10 == 0 && 0x01u8 & 0x20 == 0 && 0x01u8 & 0x40 == 0 && 0x01u8 & 0x80
            == 0,
        0x02u8 & 0x01 == 0 && 0x02u8 & 0x02 != 0 && 0x02u8 & 0x04 == 0 && 0x02u8 & 0x08 == 0
            && 0x02u8 & 0x10 == 0 && 0x02u8 & 0x20 == 0 && 0x02u8 & 0x40 == 0 && 0x02u8 & 0x80
            == 0,
        0x04u8 & 0x01 == 0 && 0x04u8 & 0x02 == 0 && 0x04u8 & 0x04 != 0 && 0x04u8 & 0x08 == 0
            && 0x04u8 & 0x10 == 0 && 0x04u8 & 0x20 == 0 && 0x04u8 & 0x40 == 0 && 0x04u8 & 0x80
            == 0,
        0x08u8 & 0x01 == 0 && 0x08u8 & 0x02 == 0 && 0x08u8 & 0x04 == 0 && 0x08u8 & 0x08 != 0
            && 0x08u8 & 0x10 == 0 && 0x08u8 & 0x20 == 0 && 0x08u8 & 0x40 == 0 && 0x08u8 & 0x80
            == 0,
        0x10u8 & 0x01 == 0 && 0x10u8 & 0x02 == 0 && 0x10u8 & 0x04 == 0 && 0x10u8 & 0x08 == 0
            && 0x10u8 & 0x10 != 0 && 0x10u8 & 0x20 == 0 && 0x10u8 & 0x40 == 0 && 0x10u8 & 0x80
            == 0,
        0x20u8 & 0x01 == 0 && 0x20u8 & 0x02 == 0 && 0x20u8 & 0x04 == 0 && 0x20u8 & 0x08 == 0
            && 0x20u8 & 0x10 == 0 && 0x20u8 & 0x20 != 0 && 0x20u8 & 0x40 == 0 && 0x20u8 & 0x80
            == 0,
        0x40u8 & 0x01 == 0 && 0x40u8 & 0x02 == 0 && 0x40u8 & 0x04 == 0 && 0x40u8 & 0x08 == 0
            && 0x40u8 & 0x10 == 0 && 0x40u8 & 0x20 == 0 && 0x40u8 & 0x40 != 0 && 0x40u8 & 0x80
            == 0,
        0x80u8 & 0x01 == 0 && 0x80u8 & 0x02 == 0 && 0x80u8 & 0x04 == 0 && 0x80u8 & 0x08 == 0
            && 0x80u8 & 0x10 == 0 && 0x80u8 & 0x20 == 0 && 0x80u8 & 0x40 == 0 && 0x80u8 & 0x80
            != 0,
{
}

/// Setting the bits of `mask` moves exactly those bits of the view.
proof fn lemma_or_bits(b: u8, mask: u8)
    by (bit_vector)
    ensures
        ((b | mask) & 0x01 != 0) == (b & 0x01 != 0 || mask & 0x01 != 0),
        ((b | mask) & 0x02 != 0) == (b & 0x02 != 0 || mask & 0x02 != 0),
        ((b | mask) & 0x04 != 0) == (b & 0x04 != 0 || mask & 0x04 != 0),
        ((b | mask) & 0x08 != 0) == (b & 0x08 != 0 || mask & 0x08 != 0),
        ((b | mask) & 0x10 != 0) == (b & 0x10 != 0 || mask & 0x10 != 0),
        ((b | mask) & 0x20 != 0) == (b & 0x20 != 0 || mask & 0x20 != 0),
        ((b | mask) & 0x40 != 0) == (b & 0x40 != 0 || mask & 0x40 != 0),
        ((b | mask) & 0x80 != 0) == (b & 0x80 != 0 || mask & 0x80 != 0),
{
}

/// The flag view of `b | mask`, bit by bit.
proof fn lemma_or_view(b: u8, mask: u8)
    ensures
        flags_of_byte(b | mask) == (Flags {
            c: b & 0x01 != 0 || mask & 0x01 != 0,
            z: b & 0x02 != 0 || mask & 0x02 != 0,
            i: b & 0x04 != 0 || mask & 0x04 != 0,
            d: b & 0x08 != 0 || mask & 0x08 != 0,
            b: b & 0x10 != 0 || mask & 0x10 != 0,
            u: b & 0x20 != 0 || mask & 0x20 != 0,
            v: b & 0x40 != 0 || mask & 0x40 != 0,
            n: b & 0x80 != 0 || mask & 0x80 != 0,
        }),
{
    lemma_or_bits(b, mask);
}

/// Clearing the bits of `mask` moves exactly those bits of the view.
proof fn lemma_andnot_bits(b: u8, mask: u8)
    by (bit_vector)
    ensures
        ((b & !mask) & 0x01 != 0) == (b & 0x01 != 0 && mask & 0x01 == 0),
        ((b & !mask) & 0x02 != 0) == (b & 0x02 != 0 && mask & 0x02 == 0),
        ((b & !mask) & 0x04 != 0) == (b & 0x04 != 0 && mask & 0x04 == 0),
        ((b & !mask) & 0x08 != 0) == (b & 0x08 != 0 && mask & 0x08 == 0),
        ((b & !mask) & 0x10 != 0) == (b & 0x10 != 0 && mask & 0x10 == 0),
        ((b & !mask) & 0x20 != 0) == (b & 0x20 != 0 && mask & 0x20 == 0),
        ((b & !mask) & 0x40 != 0) == (b & 0x40 != 0 && mask & 0x40 == 0),
        ((b & !mask) & 0x80 != 0) == (b & 0x80 != 0 && mask & 0x80 == 0),
{
}

/// The flag view of `b & !mask`, bit by bit.
proof fn lemma_andnot_view(b: u8, mask: u8)
    ensures
        flags_of_byte(b & !mask) == (Flags {
            c: b & 0x01 != 0 && mask & 0x01 == 0,
            z: b & 0x02 != 0 && mask & 0x02 == 0,
            i: b & 0x04 != 0 && mask & 0x04 == 0,
            d: b & 0x08 != 0 && mask & 0x08 == 0,
            b: b & 0x10 != 0 && mask & 0x10 == 0,
            u: b & 0x20 != 0 && mask & 0x20 == 0,
            v: b & 0x40 != 0 && mask & 0x40 == 0,
            n: b & 0x80 != 0 && mask & 0x80 == 0,
        }),
{
    lemma_andnot_bits(b, mask);
}

/// Forcing bit 5 of a byte equals repacking its flag view with the reserved
/// bit set.
proof fn lemma_as_byte_bits(b: u8)
    by (bit_vector)
    ensures
        (b | 0x20) == ((if b & 0x01 != 0 {
            0x01u8
        } else {
            0u8
        }) | (if b & 0x02 != 0 {
            0x02u8
        } else {
            0u8
        }) | (if b & 0x04 != 0 {
            0x04u8
        } else {
            0u8
        }) | (if b & 0x08 != 0 {
            0x08u8
        } else {
            0u8
        }) | (if b & 0x10 != 0 {
            0x10u8
        } else {
            0u8
        }) | 0x20u8 | (if b & 0x40 != 0 {
            0x40u8
        } else {
            0u8
        }) | (if b & 0x80 != 0 {
            0x80u8
        } else {
            0u8
        })),
{
}

/// Each bit of a packed flag byte reads back as the flag it was packed from.
proof fn lemma_pack_bits(c: bool, z: bool, i: bool, d: bool, b: bool, u: bool, v: bool, n: bool)
    by (bit_vector)
    ensures
        ({
            let e = (if c {
                0x01u8
            } else {
                0u8
            }) | (if z {
                0x02u8
            } else {
                0u8
            }) | (if i {
                0x04u8
            } else {
                0u8
            }) | (if d {
                0x08u8
            } else {
                0u8
            }) | (if b {
                0x10u8
            } else {
                0u8
            }) | (if u {
                0x20u8
            } else {
                0u8
            }) | (if v {
                0x40u8
            } else {
                0u8
            }) | (if n {
                0x80u8
            } else {
                0u8
            });
            (e & 0x01 != 0) == c && (e & 0x02 != 0) == z && (e & 0x04 != 0) == i && (e & 0x08
                != 0) == d && (e & 0x10 != 0) == b && (e & 0x20 != 0) == u && (e & 0x40 != 0) == v
                && (e & 0x80 != 0) == n
        }),
{
}

/// Unpacking a packed flag view gives the view back exactly: packing loses
/// nothing.
pub proof fn lemma_pack_unpack(f: Flags)
    ensures
        flags_of_byte(byte_of_flags(f)) == f,
{
    lemma_pack_bits(f.c, f.z, f.i, f.d, f.b, f.u, f.v, f.n);
}

/// Flag round trip: restoring the flags from the byte the register was
/// observed as gives back every live flag and the "B" signal unchanged,
/// while the reserved bit 5 normalizes to one, as the observation wrote it.
pub proof fn lemma_flag_round_trip(f: Flags)
    ensures
        flags_of_byte(byte_of_flags(flag_assigned(f, Flag::Unused, true))) == flag_assigned(
            f,
            Flag::Unused,
            true,
        ),
{
    lemma_pack_unpack(flag_assigned(f, Flag::Unused, true));
}

} // verus!
