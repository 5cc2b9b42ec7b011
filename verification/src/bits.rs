use vstd::prelude::*;

verus! {

/// Shifts and masks of a byte as arithmetic.
pub proof fn lemma_u8_bits(x: u8)
    ensures
        x >> 0u8 == x,
        x >> 3u8 == x / 8,
        x & 7u8 == x % 8,
        x & 3u8 == x % 4,
        x & 0x7fu8 == x % 128,
        (x >> 2u8) & 3u8 == (x / 4) % 4,
        (x & 0x80u8 != 0) == (x >= 0x80),
        x | 0u8 == x,
{
    assert(x >> 0u8 == x && x >> 3u8 == x / 8 && x & 7u8 == x % 8 && x & 3u8 == x % 4 && x & 0x7fu8 == x % 128
        && (x >> 2u8) & 3u8 == (x / 4) % 4 && (x & 0x80u8 != 0) == (x >= 0x80) && x | 0u8 == x) by (bit_vector);
}

/// Right shifts of a 16-bit value as divisions.
pub proof fn lemma_u16_shifts(x: u16)
    ensures
        x >> 1u16 == x / 2,
        x >> 2u16 == x / 4,
        x >> 8u16 == x / 256,
{
    assert(x >> 1u16 == x / 2 && x >> 2u16 == x / 4 && x >> 8u16 == x / 256) by (bit_vector);
}

/// Shifts and masks of a machine word as arithmetic.
pub proof fn lemma_usize_bits(x: usize)
    ensures
        x >> 3usize == x / 8,
        x & 7usize == x % 8,
        x & 0x7fusize == x % 128,
{
    assert(x >> 3usize == x / 8 && x & 7usize == x % 8 && x & 0x7fusize == x % 128) by (bit_vector);
}

/// A right shift by 6 of a 32-bit value as a division.
pub proof fn lemma_u32_shr6(x: u32)
    ensures
        x >> 6u32 == x / 64,
{
    assert(x >> 6u32 == x / 64) by (bit_vector);
}

/// Three bytes packed by shifts and ors are their weighted sum.
pub proof fn lemma_pack_bytes(r: u32, g: u32, b: u32)
    requires
        r < 256,
        g < 256,
        b < 256,
    ensures
        (r << 16u32) | (g << 8u32) | b == r * 65536 + g * 256 + b,
        (r << 8u32) | b == r * 256 + b,
        (r << 16u32) | b == r * 65536 + b,
        (r << 16u32) | (g << 8u32) == r * 65536 + g * 256,
{
    assert((r << 16u32) | (g << 8u32) | b == r * 65536 + g * 256 + b && (r << 8u32) | b == r * 256 + b
        && (r << 16u32) | b == r * 65536 + b && (r << 16u32) | (g << 8u32) == r * 65536 + g * 256) by (bit_vector)
        requires
            r < 256,
            g < 256,
            b < 256,
    ;
}

} // verus!
