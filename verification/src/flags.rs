//! The Z80 flag register: six condition flags plus the two undocumented
//! bits, packed into one byte with the hardware's fixed bit positions
//! (sign = 7, zero = 6, bit 5, half-carry = 4, bit 3, parity/overflow = 2,
//! subtract = 1, carry = 0).

use vstd::prelude::*;

verus! {

/// The flag register as individual booleans. The two unused bits (5 and 3)
/// are carried along but never computed: real hardware leaves ALU residue
/// in them, so they are only preserved across byte conversions.
#[derive(Clone, Copy, PartialEq, Eq, Structural, Debug)]
pub struct Flags {
    /// sign, bit 7
    pub s: bool,
    /// zero, bit 6
    pub z: bool,
    /// unused, bit 5
    pub b5: bool,
    /// half-carry, bit 4
    pub h: bool,
    /// unused, bit 3
    pub b3: bool,
    /// parity/overflow, bit 2
    pub p: bool,
    /// subtract, bit 1
    pub n: bool,
    /// carry, bit 0
    pub c: bool,
}

/// The packed-byte encoding of a flag set.
pub open spec fn spec_to_byte(f: Flags) -> u8 {
    (if f.s { 0x80u8 } else { 0u8 }) | (if f.z { 0x40u8 } else { 0u8 })
        | (if f.b5 { 0x20u8 } else { 0u8 }) | (if f.h { 0x10u8 } else { 0u8 })
        | (if f.b3 { 0x08u8 } else { 0u8 }) | (if f.p { 0x04u8 } else { 0u8 })
        | (if f.n { 0x02u8 } else { 0u8 }) | (if f.c { 0x01u8 } else { 0u8 })
}

/// The flag set encoded by a byte.
pub open spec fn spec_from_byte(b: u8) -> Flags {
    Flags {
        s: b & 0x80 != 0,
        z: b & 0x40 != 0,
        b5: b & 0x20 != 0,
        h: b & 0x10 != 0,
        b3: b & 0x08 != 0,
        p: b & 0x04 != 0,
        n: b & 0x02 != 0,
        c: b & 0x01 != 0,
    }
}

impl Flags {
    /// A flag set with every bit clear.
    pub fn new() -> (f: Flags)
        ensures
            f == (Flags {
                s: false,
                z: false,
                b5: false,
                h: false,
                b3: false,
                p: false,
                n: false,
                c: false,
            }),
    {
        Flags { s: false, z: false, b5: false, h: false, b3: false, p: false, n: false, c: false }
    }

    /// Packs the flags into one byte.
    pub fn to_byte(&self) -> (b: u8)
        ensures
            b == spec_to_byte(*self),
    {
        let s: u8 = if self.s { 0x80 } else { 0 };
        let z: u8 = if self.z { 0x40 } else { 0 };
        let b5: u8 = if self.b5 { 0x20 } else { 0 };
        let h: u8 = if self.h { 0x10 } else { 0 };
        let b3: u8 = if self.b3 { 0x08 } else { 0 };
        let p: u8 = if self.p { 0x04 } else { 0 };
        let n: u8 = if self.n { 0x02 } else { 0 };
        let c: u8 = if self.c { 0x01 } else { 0 };
        s | z | b5 | h | b3 | p | n | c
    }

    /// Loads every flag, the unused bits included, from a packed byte.
    pub fn set_from_byte(&mut self, bflags: u8)
        ensures
            *final(self) == spec_from_byte(bflags),
    {
        self.s = (bflags & 0x80) != 0;
        self.z = (bflags & 0x40) != 0;
        self.b5 = (bflags & 0x20) != 0;
        self.h = (bflags & 0x10) != 0;
        self.b3 = (bflags & 0x08) != 0;
        self.p = (bflags & 0x04) != 0;
        self.n = (bflags & 0x02) != 0;
        self.c = (bflags & 0x01) != 0;
    }
}

impl Default for Flags {
    /// Same value as `Flags::new`: every bit clear.
    fn default() -> (f: Flags)
        ensures
            f == (Flags {
                s: false,
                z: false,
                b5: false,
                h: false,
                b3: false,
                p: false,
                n: false,
                c: false,
            }),
    {
        Flags::new()
    }
}

/// Packing the flags into a byte and unpacking that byte restores the
/// original flag set exactly.
pub proof fn lemma_flags_to_byte_from_byte(f: Flags)
    ensures
        spec_from_byte(spec_to_byte(f)) == f,
{
    let b = spec_to_byte(f);
    let s = f.s;
    let z = f.z;
    let b5 = f.b5;
    let h = f.h;
    let b3 = f.b3;
    let p = f.p;
    let n = f.n;
    let c = f.c;
    assert((b & 0x80 != 0) == s && (b & 0x40 != 0) == z && (b & 0x20 != 0) == b5 && (b & 0x10
        != 0) == h && (b & 0x08 != 0) == b3 && (b & 0x04 != 0) == p && (b & 0x02 != 0) == n && (b
        & 0x01 != 0) == c) by (bit_vector)
        requires
            b == (if s { 0x80u8 } else { 0u8 }) | (if z { 0x40u8 } else { 0u8 }) | (if b5 {
                0x20u8
            } else {
                0u8
            }) | (if h { 0x10u8 } else { 0u8 }) | (if b3 { 0x08u8 } else { 0u8 }) | (if p {
                0x04u8
            } else {
                0u8
            }) | (if n { 0x02u8 } else { 0u8 }) | (if c { 0x01u8 } else { 0u8 }),
    ;
}

/// Unpacking a byte into flags and packing the flags again restores the
/// original byte, for every one of the 256 byte values.
pub proof fn lemma_flags_from_byte_to_byte(b: u8)
    ensures
        spec_to_byte(spec_from_byte(b)) == b,
{
    assert((if b & 0x80 != 0 { 0x80u8 } else { 0u8 }) | (if b & 0x40 != 0 { 0x40u8 } else { 0u8 })
        | (if b & 0x20 != 0 { 0x20u8 } else { 0u8 }) | (if b & 0x10 != 0 { 0x10u8 } else { 0u8 })
        | (if b & 0x08 != 0 { 0x08u8 } else { 0u8 }) | (if b & 0x04 != 0 { 0x04u8 } else { 0u8 })
        | (if b & 0x02 != 0 { 0x02u8 } else { 0u8 }) | (if b & 0x01 != 0 { 0x01u8 } else { 0u8 })
        == b) by (bit_vector);
}

} // verus!
