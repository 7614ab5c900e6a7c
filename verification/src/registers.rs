//! The Z80 register file: the 8-bit general registers, the halves of the
//! index registers, the special registers, and the composite 16-bit
//! accessors that combine a high and a low half as `high << 8 | low`.

use vstd::prelude::*;

use crate::flags::{spec_from_byte, spec_to_byte, Flags};

verus! {

/// One complete set of Z80 registers. A composite register such as BC is
/// not stored: it is always read and written through its two halves.
#[derive(Clone, Copy)]
pub struct Registros {
    pub a: u8,
    pub b: u8,
    pub c: u8,
    pub d: u8,
    pub e: u8,
    pub h: u8,
    pub l: u8,
    pub ixh: u8,
    pub ixl: u8,
    pub iyh: u8,
    pub iyl: u8,
    /// interrupt vector base
    pub i: u8,
    /// memory refresh counter
    pub r: u8,
    pub sp: u16,
    pub pc: u16,
    pub flags: Flags,
}

/// The 16-bit value made of a high and a low byte.
pub open spec fn spec_pair(high: u8, low: u8) -> u16 {
    ((high as u16) << 8 | low as u16) as u16
}

/// High byte of a 16-bit value.
pub open spec fn spec_high(value: u16) -> u8 {
    (((value & 0xFF00) >> 8) as u8)
}

/// Low byte of a 16-bit value.
pub open spec fn spec_low(value: u16) -> u8 {
    ((value & 0xFF) as u8)
}

/// Splitting a 16-bit value into its bytes and recombining them restores
/// the value, and recombining any two bytes splits back into the same two.
pub proof fn lemma_pair_split(value: u16, high: u8, low: u8)
    ensures
        spec_pair(spec_high(value), spec_low(value)) == value,
        spec_high(spec_pair(high, low)) == high,
        spec_low(spec_pair(high, low)) == low,
{
    assert(((((value & 0xFF00) >> 8) as u8) as u16) << 8 | ((value & 0xFF) as u8) as u16
        == value) by (bit_vector);
    assert((((((high as u16) << 8 | low as u16) as u16) & 0xFF00) >> 8) as u8 == high)
        by (bit_vector);
    assert(((((high as u16) << 8 | low as u16) as u16) & 0xFF) as u8 == low) by (bit_vector);
}

impl Registros {
    /// The cleared register file, as a value.
    pub open spec fn new_spec() -> Registros {
        Registros {
            a: 0,
            b: 0,
            c: 0,
            d: 0,
            e: 0,
            h: 0,
            l: 0,
            ixh: 0,
            ixl: 0,
            iyh: 0,
            iyl: 0,
            i: 0,
            r: 0,
            sp: 0,
            pc: 0,
            flags: Flags {
                s: false,
                z: false,
                b5: false,
                h: false,
                b3: false,
                p: false,
                n: false,
                c: false,
            },
        }
    }

    /// A register file with every register cleared.
    pub fn new() -> (r: Registros)
        ensures
            r == Registros::new_spec(),
            r.flags == spec_from_byte(0x00),
    {
        proof {
            crate::flags::lemma_flags_from_byte_to_byte(0x00);
            assert(spec_from_byte(0x00).s == false && spec_from_byte(0x00).z == false
                && spec_from_byte(0x00).b5 == false && spec_from_byte(0x00).h == false
                && spec_from_byte(0x00).b3 == false && spec_from_byte(0x00).p == false
                && spec_from_byte(0x00).n == false && spec_from_byte(0x00).c == false)
                by (bit_vector);
        }
        Registros {
            a: 0,
            b: 0,
            c: 0,
            d: 0,
            e: 0,
            h: 0,
            l: 0,
            ixh: 0,
            ixl: 0,
            iyh: 0,
            iyl: 0,
            i: 0,
            r: 0,
            sp: 0x0000,
            pc: 0,
            flags: Flags::new(),
        }
    }

    /// The BC pair.
    pub fn get_bc(&self) -> (v: u16)
        ensures
            v == spec_pair(self.b, self.c),
    {
        (self.b as u16) << 8 | self.c as u16
    }

    /// Writes both halves of BC; reading BC back yields `value`.
    pub fn set_bc(&mut self, value: u16)
        ensures
            final(self).b == spec_high(value),
            final(self).c == spec_low(value),
            spec_pair(final(self).b, final(self).c) == value,
            *final(self) == (Registros { b: spec_high(value), c: spec_low(value), ..*old(self) }),
    {
        proof {
            lemma_pair_split(value, 0, 0);
        }
        self.b = ((value & 0xFF00) >> 8) as u8;
        self.c = (value & 0xFF) as u8;
    }

    /// The DE pair.
    pub fn get_de(&self) -> (v: u16)
        ensures
            v == spec_pair(self.d, self.e),
    {
        (self.d as u16) << 8 | self.e as u16
    }

    /// Writes both halves of DE; reading DE back yields `value`.
    pub fn set_de(&mut self, value: u16)
        ensures
            final(self).d == spec_high(value),
            final(self).e == spec_low(value),
            spec_pair(final(self).d, final(self).e) == value,
            *final(self) == (Registros { d: spec_high(value), e: spec_low(value), ..*old(self) }),
    {
        proof {
            lemma_pair_split(value, 0, 0);
        }
        self.d = ((value & 0xFF00) >> 8) as u8;
        self.e = (value & 0xFF) as u8;
    }

    /// The HL pair.
    pub fn get_hl(&self) -> (v: u16)
        ensures
            v == spec_pair(self.h, self.l),
    {
        (self.h as u16) << 8 | self.l as u16
    }

    /// Writes both halves of HL; reading HL back yields `value`.
    pub fn set_hl(&mut self, value: u16)
        ensures
            final(self).h == spec_high(value),
            final(self).l == spec_low(value),
            spec_pair(final(self).h, final(self).l) == value,
            *final(self) == (Registros { h: spec_high(value), l: spec_low(value), ..*old(self) }),
    {
        proof {
            lemma_pair_split(value, 0, 0);
        }
        self.h = ((value & 0xFF00) >> 8) as u8;
        self.l = (value & 0xFF) as u8;
    }

    /// The IX index register.
    pub fn get_ix(&self) -> (v: u16)
        ensures
            v == spec_pair(self.ixh, self.ixl),
    {
        (self.ixh as u16) << 8 | self.ixl as u16
    }

    /// Writes both halves of IX; reading IX back yields `value`.
    pub fn set_ix(&mut self, value: u16)
        ensures
            final(self).ixh == spec_high(value),
            final(self).ixl == spec_low(value),
            spec_pair(final(self).ixh, final(self).ixl) == value,
            *final(self) == (Registros {
                ixh: spec_high(value),
                ixl: spec_low(value),
                ..*old(self)
            }),
    {
        proof {
            lemma_pair_split(value, 0, 0);
        }
        self.ixh = ((value & 0xFF00) >> 8) as u8;
        self.ixl = (value & 0xFF) as u8;
    }

    /// The IY index register.
    pub fn get_iy(&self) -> (v: u16)
        ensures
            v == spec_pair(self.iyh, self.iyl),
    {
        (self.iyh as u16) << 8 | self.iyl as u16
    }

    /// Writes both halves of IY; reading IY back yields `value`.
    pub fn set_iy(&mut self, value: u16)
        ensures
            final(self).iyh == spec_high(value),
            final(self).iyl == spec_low(value),
            spec_pair(final(self).iyh, final(self).iyl) == value,
            *final(self) == (Registros {
                iyh: spec_high(value),
                iyl: spec_low(value),
                ..*old(self)
            }),
    {
        proof {
            lemma_pair_split(value, 0, 0);
        }
        self.iyh = ((value & 0xFF00) >> 8) as u8;
        self.iyl = (value & 0xFF) as u8;
    }

    /// The AF pair: the accumulator as the high byte and the packed flag
    /// byte as the low byte.
    pub fn get_af(&self) -> (v: u16)
        ensures
            v == spec_pair(self.a, spec_to_byte(self.flags)),
    {
        (self.a as u16) << 8 | self.flags.to_byte() as u16
    }

    /// Writes the accumulator and unpacks the flag byte; reading AF back
    /// yields `value`.
    pub fn set_af(&mut self, value: u16)
        ensures
            final(self).a == spec_high(value),
            final(self).flags == spec_from_byte(spec_low(value)),
            spec_pair(final(self).a, spec_to_byte(final(self).flags)) == value,
            *final(self) == (Registros {
                a: spec_high(value),
                flags: spec_from_byte(spec_low(value)),
                ..*old(self)
            }),
    {
        proof {
            lemma_pair_split(value, 0, 0);
            crate::flags::lemma_flags_from_byte_to_byte(spec_low(value));
        }
        self.a = ((value & 0xFF00) >> 8) as u8;
        self.flags.set_from_byte((value & 0xFF) as u8);
    }
}

impl Default for Registros {
    /// Same value as `Registros::new`.
    fn default() -> (r: Registros)
        ensures
            r == Registros::new_spec(),
    {
        Registros::new()
    }
}

} // verus!
