//! The calls that feed a streaming hasher, as the hashers' contracts and
//! laws see them.
use vstd::prelude::*;

verus! {

/// One write call on a hasher.
pub enum Write {
    /// `write(bytes)` or `write_str(s)` (with the UTF-8 bytes of `s`).
    Bytes(Seq<u8>),
    /// `write_u8`, `write_u16`, `write_u32`, `write_u64` or `write_usize`,
    /// with the value widened to 64 bits.
    Word(u64),
    /// `write_u128`.
    Wide(u128),
    /// `write_length_prefix`, whatever the length.
    LengthPrefix,
}

/// The low 64 bits of a 128-bit value.
pub open spec fn low_half(i: u128) -> u64 {
    (i % 0x1_0000_0000_0000_0000) as u64
}

/// The high 64 bits of a 128-bit value.
pub open spec fn high_half(i: u128) -> u64 {
    (i / 0x1_0000_0000_0000_0000) as u64
}

/// Splits a 128-bit value into its low and its high 64 bits.
pub fn split_u128(i: u128) -> (r: (u64, u64))
    ensures
        r == (low_half(i), high_half(i)),
{
    assert(i as u64 == (i % 0x1_0000_0000_0000_0000) as u64) by (bit_vector);
    assert(i >> 64u32 == i / 0x1_0000_0000_0000_0000) by (bit_vector);
    (i as u64, (i >> 64u32) as u64)
}

} // verus!
