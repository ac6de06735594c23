//! Facts about bit operations on fixed-width integers, proved once with the bit-vector solver
//! and used by the proofs of the CPU cores.
use vstd::prelude::*;

verus! {

/// Fields extracted from a 32-bit value are in range.
pub proof fn lemma_u32_fields(x: u32)
    ensures
        x & 3 <= 3,
        x & 0xF < 16,
        x & 0xE <= 14,
        x & 0xC <= 12,
        (x >> 2) & 3 < 4,
        (x >> 4) & 0xF < 16,
        (x >> 4) & 0x3F < 64,
        (x & 0x1FFFFFFF) >> 10 < 0x80000,
        x & 0xFFF < 4096,
        x & 0xFFE <= 4094,
        x & 0xFFC <= 4092,
        (x >> 10) & 3 <= 3,
        (x >> 12) & 3 <= 3,
        (x >> 14) & 3 <= 3,
        x & 0xFFFF <= 0xFFFF,
{
    assert(x & 3 <= 3 && x & 0xF < 16 && x & 0xE <= 14 && x & 0xC <= 12 && (x >> 2) & 3 < 4 && (x
        >> 4) & 0xF < 16 && (x >> 4) & 0x3F < 64 && (x & 0x1FFFFFFF) >> 10 < 0x80000 && x & 0xFFF
        < 4096 && x & 0xFFE <= 4094 && x & 0xFFC <= 4092 && (x >> 10) & 3 <= 3 && (x >> 12) & 3 <= 3
        && (x >> 14) & 3 <= 3 && x & 0xFFFF <= 0xFFFF) by (bit_vector);
}

/// Fields extracted from a 16-bit value are in range; masking the low byte is a remainder.
pub proof fn lemma_u16_fields(x: u16)
    ensures
        (x >> 8) & 0xF < 16,
        (x >> 4) & 0xF < 16,
        x & 0xFFF <= 0xFFF,
        x & 0xFF == x % 256,
        x & 7 < 8,
        (x & 0xF0FF) & 0xF00F == x & 0xF00F,
{
    assert((x >> 8) & 0xF < 16 && (x >> 4) & 0xF < 16 && x & 0xFFF <= 0xFFF && x & 0xFF == x % 256
        && x & 7 < 8 && (x & 0xF0FF) & 0xF00F == x & 0xF00F) by (bit_vector);
}

/// Fields of a 32-bit opcode or data word: register numbers and small fields are in range, and
/// the sign bit and the low bits read arithmetically.
pub proof fn lemma_word_fields(x: u32)
    ensures
        x & 0xF < 16,
        (x >> 8) & 0xF < 16,
        (x >> 12) & 0xF < 16,
        (x >> 16) & 0xF < 16,
        (x >> 7) & 0x1F < 32,
        x & 0xFF <= 0xFF,
        x & 0xFFFF <= 0xFFFF,
        x & 3 <= 3,
        x & 1 <= 1,
        ((x >> 8) & 0xF) << 1 <= 30,
        (x & 0x1F) & 0x1F == x & 0x1F,
        x & 0x7FFF_FFFF == x % 0x8000_0000,
        ((x >> 31) & 1 == 1) == (x >= 0x8000_0000),
        ((x >> 0) & 1 == 1) == (x & 1 == 1),
        x >> 31 <= 1,
        x & 1 <= 1,
        ((((x << 1) | (x >> 31)) >> 1) | (((x << 1) | (x >> 31)) << 31)) == x,
        ((((x >> 1) | (x << 31)) << 1) | (((x >> 1) | (x << 31)) >> 31)) == x,
        ((((x << 1) | 1) >> 1) | ((x >> 31) << 31)) == x,
        ((((x << 1) | 0) >> 1) | ((x >> 31) << 31)) == x,
        ((((x >> 1) | 0x8000_0000) << 1) | (x & 1)) == x,
        ((((x >> 1) | 0) << 1) | (x & 1)) == x,
        ((x >> 1) | 0x8000_0000) >> 31 == 1,
        (x >> 1) >> 31 == 0,
        ((x << 1) | 1) & 1 == 1,
        ((x << 1) | 0) & 1 == 0,
        1u32 << 31 == 0x8000_0000,
        0u32 << 31 == 0,
        ((x >> 1) | 0) == x >> 1,
        ((x << 1) | 0) == x << 1,
{
    assert(x & 0xF < 16 && (x >> 8) & 0xF < 16 && (x >> 12) & 0xF < 16 && (x >> 16) & 0xF < 16 && (x
        >> 7) & 0x1F < 32 && x & 0xFF <= 0xFF && x & 0xFFFF <= 0xFFFF && x & 3 <= 3 && x & 1 <= 1 && ((
    x >> 8) & 0xF) << 1 <= 30 && (x & 0x1F) & 0x1F == x & 0x1F && x & 0x7FFF_FFFF == x % 0x8000_0000
        && ((x >> 31) & 1 == 1) == (x >= 0x8000_0000) && ((x >> 0) & 1 == 1) == (x & 1 == 1) && x
        >> 31 <= 1 && x & 1 <= 1 && ((((x << 1) | (x >> 31)) >> 1) | (((x << 1) | (x >> 31)) << 31))
        == x && ((((x >> 1) | (x << 31)) << 1) | (((x >> 1) | (x << 31)) >> 31)) == x && ((((x << 1)
        | 1) >> 1) | ((x >> 31) << 31)) == x && ((((x << 1) | 0) >> 1) | ((x >> 31) << 31)) == x
        && ((((x >> 1) | 0x8000_0000) << 1) | (x & 1)) == x && ((((x >> 1) | 0) << 1) | (x & 1)) == x
        && ((x >> 1) | 0x8000_0000) >> 31 == 1 && (x >> 1) >> 31 == 0 && ((x << 1) | 1) & 1 == 1 && ((x
        << 1) | 0) & 1 == 0 && 1u32 << 31 == 0x8000_0000 && 0u32 << 31 == 0 && ((x >> 1) | 0) == x >> 1 && ((x << 1)
        | 0) == x << 1) by (bit_vector);
}

/// Fields extracted from an 8-bit value are in range.
pub proof fn lemma_u8_fields(x: u8)
    ensures
        x & 3 <= 3,
        x & 7 <= 7,
{
    assert(x & 3 <= 3 && x & 7 <= 7) by (bit_vector);
}

/// Setting or clearing bit `idx` of a 64-bit value changes only that bit.
pub proof fn lemma_u64_bit_update(b: u64, idx: u64, x: u64)
    requires
        idx < 64,
        x < 64,
    ensures
        (((b | (1u64 << idx)) >> x) & 1 == 1) == (x == idx || (b >> x) & 1 == 1),
        (((b & !(1u64 << idx)) >> x) & 1 == 1) == (x != idx && (b >> x) & 1 == 1),
        b & 0xFF == b % 256,
{
    assert((((b | (1u64 << idx)) >> x) & 1 == 1) == (x == idx || (b >> x) & 1 == 1) && (((b & !(1u64
        << idx)) >> x) & 1 == 1) == (x != idx && (b >> x) & 1 == 1) && b & 0xFF == b % 256)
        by (bit_vector)
        requires
            idx < 64,
            x < 64,
    ;
}

/// Facts about constants used by the peripherals' register decoding.
pub proof fn lemma_constants()
    ensures
        0x4001u16 & 0xF00F == 0x4001,
        0x4009u16 & 0xF00F == 0x4009,
        0x4019u16 & 0xF00F == 0x4009,
        0x4029u16 & 0xF00F == 0x4009,
        0x4010u16 & 0xF00F == 0x4000,
        0x4004u16 & 0xF00F == 0x4004,
        0x4005u16 & 0xF00F == 0x4005,
        0x4024u16 & 0xF00F == 0x4004,
        0x4025u16 & 0xF00F == 0x4005,
        0u8 & 7 == 0,
        0u64 < (1u64 << 1u8),
        0u64 < (1u64 << (5 * 0u64)),
        0u32 < (1u32 << (4 * 0u32)),
        (1u32 << (4 * 5u32)) == 0x10_0000,
        (1u32 << (4 * 4u32)) == 0x10000,
        (1u32 << (4 * 3u32)) == 0x1000,
        (1u32 << (4 * 2u32)) == 0x100,
        0xFFFFFF80u32 & 0xF == 0,
        0xFFFFFF84u32 & 0xF == 4,
        0xFFFFFF88u32 & 0xF == 8,
        0xFFFFFF8Cu32 & 0xF == 0xC,
        0xFFFFFF90u32 & 0xF == 0,
        0xFFFFFF94u32 & 0xF == 4,
        0xFFFFFF98u32 & 0xF == 8,
        0xFFFFFF9Cu32 & 0xF == 0xC,
{
    assert(0u8 & 7 == 0 && 0u64 < (1u64 << 1u8) && 0u64 < (1u64 << (5 * 0u64)) && 0u32 < (1u32 << (4
        * 0u32)) && (1u32 << (4 * 5u32)) == 0x10_0000 && (1u32 << (4 * 4u32)) == 0x10000 && (1u32 << (4
        * 3u32)) == 0x1000 && (1u32 << (4 * 2u32)) == 0x100 && 0xFFFFFF80u32
        & 0xF == 0 && 0xFFFFFF84u32 & 0xF == 4 && 0xFFFFFF88u32 & 0xF == 8 && 0xFFFFFF8Cu32 & 0xF
        == 0xC && 0xFFFFFF90u32 & 0xF == 0 && 0xFFFFFF94u32 & 0xF == 4 && 0xFFFFFF98u32 & 0xF == 8
        && 0xFFFFFF9Cu32 & 0xF == 0xC && 0x4001u16 & 0xF00F == 0x4001 && 0x4009u16 & 0xF00F == 0x4009 && 0x4019u16 & 0xF00F == 0x4009 && 0x4029u16 & 0xF00F == 0x4009 && 0x4010u16 & 0xF00F == 0x4000 && 0x4004u16 & 0xF00F == 0x4004 && 0x4005u16 & 0xF00F == 0x4005 && 0x4024u16 & 0xF00F == 0x4004 && 0x4025u16 & 0xF00F == 0x4005) by (bit_vector);
}

} // verus!
