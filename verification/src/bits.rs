//! Facts that tie the bitwise operators used by the emulator to arithmetic.

use vstd::prelude::*;

verus! {

/// Whether the bit of weight `weight`, a power of two, is set in `x`.
pub open spec fn has_bit(x: u8, weight: int) -> bool {
    (x as int / weight) % 2 == 1
}

/// Masks, shifts and single-bit tests on a byte, in terms of `/` and `%`.
pub proof fn lemma_byte_bits()
    by (bit_vector)
    ensures
        forall|x: u8| #[trigger] (x & 0x0f) == x % 16,
        forall|x: u8| #[trigger] (x & 0xf0) == x - x % 16,
        forall|x: u8| #[trigger] (x >> 4) == x / 16,
        forall|x: u8| #[trigger] (x >> 7) == x / 128,
        forall|x: u8| #[trigger] (x >> 1) == x / 2,
        forall|x: u8| #[trigger] (x << 1) == (x % 128) * 2,
        forall|x: u8| #[trigger] (x << 4) == (x % 16) * 16,
        forall|x: u8| #[trigger] (x & 0x80) == (x / 128) * 128,
        forall|x: u8| #[trigger] (x & 0x40) == (x / 64 % 2) * 64,
        forall|x: u8| #[trigger] (x & 0x20) == (x / 32 % 2) * 32,
        forall|x: u8| #[trigger] (x & 0x10) == (x / 16 % 2) * 16,
        forall|x: u8| #[trigger] (x & 0x08) == (x / 8 % 2) * 8,
        forall|x: u8| #[trigger] (x & 0x04) == (x / 4 % 2) * 4,
        forall|x: u8| #[trigger] (x & 0x02) == (x / 2 % 2) * 2,
        forall|x: u8| #[trigger] (x & 0x01) == x % 2,
        forall|x: u8| #[trigger] (x & 0x03) == x % 4,
        forall|x: u8| #[trigger] (x & 0x1f) == x % 32,
        forall|x: u8| #[trigger] (x & 0x3f) == x % 64,
        forall|x: u8| #[trigger] (x & 0x0a) == (x / 8 % 2) * 8 + (x / 2 % 2) * 2,
        forall|x: u8| #[trigger] (x & 0x78) == x % 128 - x % 8,
        forall|x: u8| #[trigger] (x & 0x7f) == x % 128,
        forall|x: u8| #[trigger] (!x) == 255 - x,
{
}

/// Splitting a 16-bit word into bytes and joining it again.
pub proof fn lemma_word_bits()
    by (bit_vector)
    ensures
        forall|x: u16| #[trigger] (x >> 8) == x / 256,
        forall|x: u16| #[trigger] (x & 0xff) == x % 256,
        forall|x: u16| #[trigger] (x & 0xfff0) == x - x % 16,
        forall|x: u16| #[trigger] (x & 0x1fff) == x % 0x2000,
        forall|x: u16| #[trigger] (x & 0x3fff) == x % 0x4000,
        forall|x: u16| #[trigger] (x & 0x007f) == x % 128,
        forall|x: u16| #[trigger] (x & 0x0fff) == x % 4096,
        forall|x: u16| #[trigger] (x & 0x000f) == x % 16,
        forall|h: u8, l: u8| #[trigger] (((h as u16) << 8) | (l as u16)) == h * 256 + l,
{
}

} // verus!
