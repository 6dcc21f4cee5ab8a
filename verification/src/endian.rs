//! Sixteen-bit numbers as two bytes, the more significant first.

use vstd::prelude::*;
use byteorder::{BigEndian, ByteOrder};

verus! {

/// The 16-bit value whose big-endian bytes are `hi`, `lo`.
pub open spec fn be16(hi: u8, lo: u8) -> u16 {
    (hi as u16) << 8 | (lo as u16)
}

/// `byteorder::BigEndian::read_u16`: the first two bytes of `buf` read as a
/// big-endian number, the first byte being the more significant. It panics on
/// a buffer of fewer than two bytes, which the precondition leaves out.
#[verifier::external_body]
pub(crate) fn read_u16_be(buf: &[u8]) -> (r: u16)
    requires
        buf@.len() >= 2,
    ensures
        r == be16(buf@[0], buf@[1]),
{
    BigEndian::read_u16(buf)
}

/// The more significant byte of `x`.
pub open spec fn hi8(x: u16) -> u8 {
    (x >> 8) as u8
}

/// The less significant byte of `x`.
pub open spec fn lo8(x: u16) -> u8 {
    (x & 0xFF) as u8
}

/// Splitting a 16-bit value into its bytes and joining them again gives the
/// value back.
pub proof fn lemma_be16_split(x: u16)
    by (bit_vector)
    ensures
        (x >> 8) <= 0xFF,
        (x & 0xFF) <= 0xFF,
        (((x >> 8) as u8) as u16) << 8 | (((x & 0xFF) as u8) as u16) == x,
{
}

/// The two bytes of a 16-bit number as quotient and remainder.
pub proof fn lemma_be16_bytes_value(x: u16)
    by (bit_vector)
    ensures
        ((x >> 8) as u8) == x / 256,
        ((x & 0xFF) as u8) == x % 256,
{
}

/// The number that two big-endian bytes spell as a sum.
pub proof fn lemma_be16_join_value(hi: u8, lo: u8)
    by (bit_vector)
    ensures
        ((hi as u16) << 8 | (lo as u16)) == hi * 256 + lo,
{
}

} // verus!
