//! Bit-level helpers shared by the instruction engine and the
//! disassembler: single-bit test/set/clear on a byte, and the
//! two's-complement magnitude used to decode signed jump displacements.

use vstd::prelude::*;

verus! {

/// Whether bit `n` (0 = least significant) of `value` is set.
pub open spec fn spec_get(value: u8, n: u8) -> bool {
    value & (1u8 << n) != 0
}

/// Tests bit `n` of `value`.
pub fn get(value: u8, n: u8) -> (b: bool)
    requires
        n < 8,
    ensures
        b == spec_get(value, n),
{
    value & (1 << n) != 0
}

/// Sets bit `n` of `value`.
pub fn set(value: u8, n: u8) -> (r: u8)
    requires
        n < 8,
    ensures
        r == (value | (1u8 << n)),
        spec_get(r, n),
        forall|m: u8| m < 8 && m != n ==> spec_get(r, m) == spec_get(value, m),
{
    let r = value | (1 << n);
    proof {
        assert(r & (1u8 << n) != 0 && (forall|m: u8|
            m < 8 && m != n ==> (r & (1u8 << m) != 0) == (value & (1u8 << m) != 0)))
            by (bit_vector)
            requires
                n < 8 && r == (value | (1u8 << n)),
        ;
    }
    r
}

/// Clears bit `n` of `value`.
pub fn clear(value: u8, n: u8) -> (r: u8)
    requires
        n < 8,
    ensures
        r == (value & !(1u8 << n)),
        !spec_get(r, n),
        forall|m: u8| m < 8 && m != n ==> spec_get(r, m) == spec_get(value, m),
{
    let r = value & !(1 << n);
    proof {
        assert(r & (1u8 << n) == 0 && (forall|m: u8|
            m < 8 && m != n ==> (r & (1u8 << m) != 0) == (value & (1u8 << m) != 0)))
            by (bit_vector)
            requires
                n < 8 && r == (value & !(1u8 << n)),
        ;
    }
    r
}

/// The absolute value of a byte read as a two's-complement signed number:
/// the byte itself below 0x80, and `0x100 - value` from 0x80 up. Decoding
/// a relative-jump displacement tests bit 7 and, when it is set, subtracts
/// this magnitude instead of adding the raw byte.
pub open spec fn spec_signed_to_abs(value: u8) -> u8 {
    if value < 0x80 {
        value
    } else {
        (0x100 - value) as u8
    }
}

/// Two's-complement magnitude of a signed byte.
pub fn signed_to_abs(value: u8) -> (r: u8)
    ensures
        r == spec_signed_to_abs(value),
{
    if value < 0x80 {
        value
    } else {
        (0xFF - value) + 1
    }
}

} // verus!
