//! Byte-level bit manipulation used on the tuner's control bus.

use vstd::prelude::*;

verus! {

/// The byte whose bit `i` is bit `7 - i` of `b`.
pub open spec fn spec_bit_reverse(b: u8) -> u8 {
    ((b & 0x01) << 7) | ((b & 0x02) << 5) | ((b & 0x04) << 3) | ((b & 0x08) << 1)
        | ((b & 0x10) >> 1) | ((b & 0x20) >> 3) | ((b & 0x40) >> 5) | ((b & 0x80) >> 7)
}

/// The four-bit value whose bit `i` is bit `3 - i` of `n`, for `n < 16`.
pub open spec fn spec_nibble_reverse(n: u8) -> u8 {
    ((n & 0x1) << 3) | ((n & 0x2) << 1) | ((n & 0x4) >> 1) | ((n & 0x8) >> 3)
}

proof fn lemma_nibble_table(n: u8)
    by (bit_vector)
    requires
        n < 16,
    ensures
        spec_nibble_reverse(n) == (if n == 0 {
            0x0u8
        } else if n == 1 {
            0x8u8
        } else if n == 2 {
            0x4u8
        } else if n == 3 {
            0xcu8
        } else if n == 4 {
            0x2u8
        } else if n == 5 {
            0xau8
        } else if n == 6 {
            0x6u8
        } else if n == 7 {
            0xeu8
        } else if n == 8 {
            0x1u8
        } else if n == 9 {
            0x9u8
        } else if n == 10 {
            0x5u8
        } else if n == 11 {
            0xdu8
        } else if n == 12 {
            0x3u8
        } else if n == 13 {
            0xbu8
        } else if n == 14 {
            0x7u8
        } else {
            0xfu8
        }),
{
}

proof fn lemma_reverse_by_nibbles(b: u8)
    by (bit_vector)
    ensures
        b & 0x0f < 16,
        b >> 4 < 16,
        (spec_nibble_reverse(b & 0x0f) << 4) | spec_nibble_reverse(b >> 4) == spec_bit_reverse(b),
{
}

/// Reverses the order of the bits of a byte.
pub fn bit_reverse(byte: u8) -> (r: u8)
    ensures
        r == spec_bit_reverse(byte),
{
    let lut: [u8; 16] = [
        0x0, 0x8, 0x4, 0xc, 0x2, 0xa, 0x6, 0xe, 0x1, 0x9, 0x5, 0xd, 0x3, 0xb, 0x7, 0xf,
    ];
    let lo: u8 = byte & 0x0f;
    let hi: u8 = byte >> 4;
    proof {
        lemma_reverse_by_nibbles(byte);
        lemma_nibble_table(lo);
        lemma_nibble_table(hi);
    }
    (lut[lo as usize] << 4) | lut[hi as usize]
}

/// Reversing the bits of a byte twice gives the byte back.
pub proof fn lemma_bit_reverse_involution(b: u8)
    by (bit_vector)
    ensures
        spec_bit_reverse(spec_bit_reverse(b)) == b,
{
}

/// Bit `i` of the reversed byte is bit `7 - i` of the byte.
pub proof fn lemma_bit_reverse_mirrors(b: u8, i: u8)
    by (bit_vector)
    requires
        i < 8,
    ensures
        (spec_bit_reverse(b) >> i) & 1 == (b >> (7 - i) as u8) & 1,
{
}

} // verus!
