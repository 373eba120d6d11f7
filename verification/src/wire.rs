//! Sixteen-bit unsigned integers in network byte order: the more significant
//! byte travels first.

use vstd::prelude::*;

verus! {

/// The integer whose big-endian bytes are `hi`, then `lo`.
pub open spec fn be_u16(hi: u8, lo: u8) -> u16 {
    (hi as int * 256 + lo as int) as u16
}

/// The first of the two big-endian bytes of `x`.
pub open spec fn hi_byte(x: u16) -> u8 {
    (x as int / 256) as u8
}

/// The second of the two big-endian bytes of `x`.
pub open spec fn lo_byte(x: u16) -> u8 {
    (x as int % 256) as u8
}

/// An integer is made up of its two bytes.
pub proof fn lemma_be_u16_inverse(x: u16)
    ensures
        be_u16(hi_byte(x), lo_byte(x)) == x,
{
}

/// The two bytes of an integer are those it was made up of.
pub proof fn lemma_be_u16_bytes(hi: u8, lo: u8)
    ensures
        hi_byte(be_u16(hi, lo)) == hi,
        lo_byte(be_u16(hi, lo)) == lo,
{
}

/// Assembles an integer from its two big-endian bytes.
pub fn u16_from_be(hi: u8, lo: u8) -> (x: u16)
    ensures
        x == be_u16(hi, lo),
        x == hi as int * 256 + lo as int,
{
    let x: u16 = ((hi as u16) << 8) | (lo as u16);
    assert(((hi as u16) << 8) | (lo as u16) == hi as u16 * 256 + lo as u16) by (bit_vector);
    x
}

/// Splits an integer into its two big-endian bytes.
pub fn u16_to_be(x: u16) -> (r: (u8, u8))
    ensures
        r.0 == hi_byte(x),
        r.1 == lo_byte(x),
        be_u16(r.0, r.1) == x,
{
    let hi: u8 = (x >> 8) as u8;
    let lo: u8 = (x & 0xff) as u8;
    assert((x >> 8) == x / 256 && (x & 0xff) == x % 256 && (x >> 8) < 256) by (bit_vector);
    (hi, lo)
}

} // verus!
