//! Single-bit access to `u8` bitfields.
//!
//! Layer masks, modifier bitmaps and the packed key state all store one flag
//! per bit, least-significant bit first.

use vstd::prelude::*;

verus! {

/// Bit `i` of `v`, least-significant bit first.
pub open spec fn u8_bit(v: u8, i: u8) -> bool {
    (v >> i) & 1 == 1
}

/// `v` with bit `i` set to `b` and every other bit unchanged.
pub open spec fn u8_set_bit(v: u8, i: u8, b: bool) -> u8 {
    if b {
        v | (1u8 << i)
    } else {
        v & !(1u8 << i)
    }
}

pub proof fn lemma_u8_set_bit(v: u8, i: u8, b: bool)
    by (bit_vector)
    requires
        i < 8,
    ensures
        u8_bit(u8_set_bit(v, i, b), i) == b,
        forall|j: u8| j < 8 && j != i ==> u8_bit(u8_set_bit(v, i, b), j) == u8_bit(v, j),
{
}

pub fn get_bit8(v: u8, i: u8) -> (r: bool)
    requires
        i < 8,
    ensures
        r == u8_bit(v, i),
{
    (v >> i) & 1 == 1
}

pub fn set_bit8(v: u8, i: u8, b: bool) -> (r: u8)
    requires
        i < 8,
    ensures
        r == u8_set_bit(v, i, b),
{
    if b {
        v | (1u8 << i)
    } else {
        v & !(1u8 << i)
    }
}

} // verus!
