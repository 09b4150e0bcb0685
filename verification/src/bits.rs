//! Facts about bit manipulation of bytes, used throughout the register logic.
use vstd::prelude::*;

verus! {

/// Setting or clearing the bits of a mask leaves the other bits alone.
pub proof fn lemma_set_clear(b: u8, m: u8)
    by (bit_vector)
    ensures
        (b | m) & m == m,
        (b & !m) & m == 0,
        (b | m) & !m == b & !m,
        (b & !m) & !m == b & !m,
{
}

/// Or-ing in a value that lies inside a mask replaces the masked bits.
pub proof fn lemma_replace_inside(b: u8, m: u8, v: u8)
    by (bit_vector)
    requires
        v & m == v,
    ensures
        ((b & !m) | v) & m == v,
        ((b & !m) | v) & !m == b & !m,
{
}

} // verus!
