//! Facts about the shifts and masks that the header layouts are made of.
//!
//! The default prover treats bitwise operators as opaque, so each fact is
//! proved once here by bit blasting and used by name elsewhere.

use vstd::prelude::*;

verus! {

/// A flag as a single bit.
pub open spec fn bit(b: bool) -> u8 {
    if b {
        1
    } else {
        0
    }
}

/// Computes a flag as a single bit.
pub fn flag(b: bool) -> (r: u8)
    ensures
        r == bit(b),
{
    if b {
        1
    } else {
        0
    }
}

/// The second header byte gives back the fields it was packed from.
pub proof fn lemma_attrs1_unpack(tc: u8, ibo: u8, ln: u8, th: u8)
    by (bit_vector)
    requires
        tc <= 7,
        ibo <= 1,
        ln <= 1,
        th <= 1,
    ensures
        ((tc << 4 | ibo << 2 | ln << 1 | th) & 0x70) >> 4 == tc,
        ((tc << 4 | ibo << 2 | ln << 1 | th) & 0x4 > 0) == (ibo == 1),
        ((tc << 4 | ibo << 2 | ln << 1 | th) & 0x2 > 0) == (ln == 1),
        ((tc << 4 | ibo << 2 | ln << 1 | th) & 0x1 > 0) == (th == 1),
{
}

/// The third header byte gives back the fields it was packed from.
pub proof fn lemma_attrs2_unpack(td: u8, ep: u8, ro: u8, ns: u8, at: u8, len_hi: u8)
    by (bit_vector)
    requires
        td <= 1,
        ep <= 1,
        ro <= 1,
        ns <= 1,
        at <= 3,
        len_hi <= 3,
    ensures
        ((td << 7 | ep << 6 | ro << 5 | ns << 4 | at << 2 | len_hi) & 0x80 > 0) == (td == 1),
        ((td << 7 | ep << 6 | ro << 5 | ns << 4 | at << 2 | len_hi) & 0x40 > 0) == (ep == 1),
        ((td << 7 | ep << 6 | ro << 5 | ns << 4 | at << 2 | len_hi) & 0x20 > 0) == (ro == 1),
        ((td << 7 | ep << 6 | ro << 5 | ns << 4 | at << 2 | len_hi) & 0x10 > 0) == (ns == 1),
        ((td << 7 | ep << 6 | ro << 5 | ns << 4 | at << 2 | len_hi) & 0xC) >> 2 == at,
        (td << 7 | ep << 6 | ro << 5 | ns << 4 | at << 2 | len_hi) & 0x3 == len_hi,
{
}

/// The second header byte as a sum: each field times the weight of its
/// lowest bit.
pub proof fn lemma_attrs1_value(tc: u8, ibo: u8, ln: u8, th: u8)
    by (bit_vector)
    requires
        tc <= 7,
        ibo <= 1,
        ln <= 1,
        th <= 1,
    ensures
        (tc << 4 | ibo << 2 | ln << 1 | th) == tc * 16 + ibo * 4 + ln * 2 + th,
{
}

/// The third header byte as a sum: each field times the weight of its lowest
/// bit.
pub proof fn lemma_attrs2_value(td: u8, ep: u8, ro: u8, ns: u8, at: u8, len_hi: u8)
    by (bit_vector)
    requires
        td <= 1,
        ep <= 1,
        ro <= 1,
        ns <= 1,
        at <= 3,
        len_hi <= 3,
    ensures
        (td << 7 | ep << 6 | ro << 5 | ns << 4 | at << 2 | len_hi) == td * 128 + ep * 64 + ro * 32
            + ns * 16 + at * 4 + len_hi,
{
}

/// The two parts of a ten-bit length as quotient and remainder.
pub proof fn lemma_length_value(len: u16)
    by (bit_vector)
    requires
        len < 1024,
    ensures
        (((len >> 8) & 0x3) as u8) == len / 256,
        ((len & 0xFF) as u8) == len % 256,
{
}

/// The fields cut out of the second and third header byte as quotients and
/// remainders, and the length that two bytes spell as a sum.
pub proof fn lemma_fields_value(b1: u8, b2: u8, b3: u8)
    by (bit_vector)
    ensures
        (b1 & 0x70) >> 4 == (b1 / 16) % 8,
        (b1 & 0x4 > 0) == ((b1 / 4) % 2 == 1),
        (b1 & 0x2 > 0) == ((b1 / 2) % 2 == 1),
        (b1 & 0x1 > 0) == (b1 % 2 == 1),
        (b2 & 0x80 > 0) == (b2 / 128 == 1),
        (b2 & 0x40 > 0) == ((b2 / 64) % 2 == 1),
        (b2 & 0x20 > 0) == ((b2 / 32) % 2 == 1),
        (b2 & 0x10 > 0) == ((b2 / 16) % 2 == 1),
        (b2 & 0xC) >> 2 == (b2 / 4) % 4,
        (((b2 & 0x3) as u16) << 8 | (b3 as u16)) == (b2 % 4) * 256 + b3,
{
}

/// The ranges of the fields cut out of a header byte.
pub proof fn lemma_field_ranges(b: u8)
    by (bit_vector)
    ensures
        (b & 0x70) >> 4 <= 7,
        (b & 0xC) >> 2 <= 3,
        b & 0x3 <= 3,
        b & 0xF <= 15,
        (b & 0xF0) >> 4 <= 15,
{
}

/// A ten-bit length is its upper two bits and its lower eight.
pub proof fn lemma_length_split(len: u16)
    by (bit_vector)
    requires
        len < 1024,
    ensures
        (len >> 8) & 0x3 <= 3,
        len & 0xFF <= 0xFF,
        ((((len >> 8) & 0x3) as u8) as u16) << 8 | (((len & 0xFF) as u8) as u16) == len,
{
}

/// A packed bus, device and function number gives back its three parts, and
/// its bytes are the bus and the device above the function.
pub proof fn lemma_bdf_unpack(bus: u8, device: u8, function: u8)
    by (bit_vector)
    requires
        device <= 31,
        function <= 7,
    ensures
        ((((bus as u16) << 8 | (device as u16) << 3 | (function as u16)) & 0xFF00) >> 8) == bus,
        ((((bus as u16) << 8 | (device as u16) << 3 | (function as u16)) & 0xFF) >> 3) == device,
        (((bus as u16) << 8 | (device as u16) << 3 | (function as u16)) & 0x7) == function,
        ((((bus as u16) << 8 | (device as u16) << 3 | (function as u16)) >> 8) as u8) == bus,
        ((((bus as u16) << 8 | (device as u16) << 3 | (function as u16)) & 0xFF) as u8) == (device
            << 3 | function),
{
}

/// A packed bus, device and function number as a sum.
pub proof fn lemma_bdf_value(bus: u8, device: u8, function: u8)
    by (bit_vector)
    requires
        device <= 31,
        function <= 7,
    ensures
        ((bus as u16) << 8 | (device as u16) << 3 | (function as u16)) == bus * 256 + device * 8
            + function,
{
}

/// The three parts cut out of a 16-bit value as quotients and remainders.
pub proof fn lemma_bdf_parts_value(y: u16)
    by (bit_vector)
    ensures
        (y & 0xFF00) >> 8 == y / 256,
        (y & 0xFF) >> 3 == (y % 256) / 8,
        y & 0x7 == y % 8,
{
}

/// The ranges of the three parts cut out of a 16-bit value.
pub proof fn lemma_bdf_ranges(y: u16)
    by (bit_vector)
    ensures
        (y & 0xFF00) >> 8 <= 0xFF,
        (y & 0xFF) >> 3 <= 31,
        y & 0x7 <= 7,
{
}

/// Clearing the two lowest bits rounds down to a multiple of four, and the
/// two lowest bits are the remainder.
pub proof fn lemma_low_bits(a: u64)
    by (bit_vector)
    ensures
        a & 0xFFFF_FFFF_FFFF_FFFCu64 == (a - a % 4u64) as u64,
        (a & 0x3u64) == a % 4u64,
        a <= 0xFFFF_FFFFu64 ==> a & 0xFFFF_FFFFu64 == a,
{
}

/// Clearing the two lowest bits of a 32-bit number rounds it down to a
/// multiple of four.
pub proof fn lemma_low_bits_32(b: u32)
    by (bit_vector)
    ensures
        b & 0xFFFF_FFFCu32 == (b - b % 4u32) as u32,
{
}

/// The byte-enable byte gives back the two nibbles it was packed from.
pub proof fn lemma_nibbles_unpack(last: u8, first: u8)
    by (bit_vector)
    requires
        last <= 15,
        first <= 15,
    ensures
        (last << 4 | first) & 0xF == first,
        ((last << 4 | first) & 0xF0) >> 4 == last,
{
}

/// The byte-enable byte as a sum.
pub proof fn lemma_nibbles_value(last: u8, first: u8)
    by (bit_vector)
    requires
        last <= 15,
        first <= 15,
    ensures
        (last << 4 | first) == last * 16 + first,
{
}

/// The status and byte-count word as a sum.
pub proof fn lemma_status_value(status: u8, bc: u16)
    by (bit_vector)
    requires
        status <= 7,
        bc <= 0x1FFF,
    ensures
        ((status as u16) << 13 | bc) == status * 8192 + bc,
{
}

/// The status and byte-count word gives back the two fields it was packed
/// from.
pub proof fn lemma_status_unpack(status: u8, bc: u16)
    by (bit_vector)
    requires
        status <= 7,
        bc <= 0x1FFF,
    ensures
        ((status as u16) << 13 | bc) & 0x1FFF == bc,
        (((((status as u16) << 13 | bc) & 0xE000) >> 13) as u8) == status,
{
}

/// The ranges of the status and the byte count cut out of their word.
pub proof fn lemma_status_ranges(x: u16)
    by (bit_vector)
    ensures
        (x & 0xE000) >> 13 <= 7,
        x & 0x1FFF <= 0x1FFF,
{
}

/// Two bits over eight make a value below 1024.
pub proof fn lemma_length_join(hi: u8, lo: u8)
    by (bit_vector)
    requires
        hi <= 3,
    ensures
        ((hi as u16) << 8 | (lo as u16)) < 1024,
{
}

} // verus!
