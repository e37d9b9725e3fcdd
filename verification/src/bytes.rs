//! Little- and big-endian byte codecs for the wire payloads, together with
//! the signed/unsigned reinterpretations the protocols use, and the
//! round-trip lemmas the message codecs are proved against.

use vstd::prelude::*;

verus! {

// ---------------------------------------------------------------------------
// Mathematical byte composition
// ---------------------------------------------------------------------------

pub open spec fn u16_of_le(b0: u8, b1: u8) -> u16 {
    (b0 + b1 * 0x100) as u16
}

pub open spec fn u16_of_be(b0: u8, b1: u8) -> u16 {
    (b0 * 0x100 + b1) as u16
}

pub open spec fn u32_of_le(b0: u8, b1: u8, b2: u8, b3: u8) -> u32 {
    (b0 + b1 * 0x100 + b2 * 0x1_0000 + b3 * 0x100_0000) as u32
}

pub open spec fn u64_of_le(b: Seq<u8>) -> u64
    recommends
        b.len() == 8,
{
    (b[0] + b[1] * 0x100 + b[2] * 0x1_0000 + b[3] * 0x100_0000 + b[4] * 0x1_0000_0000
        + b[5] * 0x100_0000_0000 + b[6] * 0x1_0000_0000_0000 + b[7] * 0x100_0000_0000_0000) as u64
}

pub open spec fn u64_of_be(b: Seq<u8>) -> u64
    recommends
        b.len() == 8,
{
    (b[7] + b[6] * 0x100 + b[5] * 0x1_0000 + b[4] * 0x100_0000 + b[3] * 0x1_0000_0000
        + b[2] * 0x100_0000_0000 + b[1] * 0x1_0000_0000_0000 + b[0] * 0x100_0000_0000_0000) as u64
}

// ---------------------------------------------------------------------------
// Mathematical byte extraction
// ---------------------------------------------------------------------------

pub open spec fn lo16(v: u16) -> u8 {
    (v % 0x100) as u8
}

pub open spec fn hi16(v: u16) -> u8 {
    (v / 0x100) as u8
}

pub open spec fn le32_byte(v: u32, k: int) -> u8
    recommends
        0 <= k < 4,
{
    ((v / byte_shift(k)) % 0x100) as u8
}

pub open spec fn le64_byte(v: u64, k: int) -> u8
    recommends
        0 <= k < 8,
{
    ((v / byte_shift64(k)) % 0x100) as u8
}

pub open spec fn be64_byte(v: u64, k: int) -> u8
    recommends
        0 <= k < 8,
{
    ((v / byte_shift64(7 - k)) % 0x100) as u8
}

/// The value of one byte position: 0x100 to the `k`-th power.
pub open spec fn byte_shift(k: int) -> u32
    recommends
        0 <= k < 4,
{
    if k <= 0 {
        1
    } else if k == 1 {
        0x100
    } else if k == 2 {
        0x1_0000
    } else {
        0x100_0000
    }
}

// The 64-bit extraction functions use shifts past the u32 range; spell the
// high positions out instead of widening `byte_shift`.
pub open spec fn byte_shift64(k: int) -> u64
    recommends
        0 <= k < 8,
{
    if k <= 3 {
        byte_shift(k) as u64
    } else if k == 4 {
        0x1_0000_0000
    } else if k == 5 {
        0x100_0000_0000
    } else if k == 6 {
        0x1_0000_0000_0000
    } else {
        0x100_0000_0000_0000
    }
}

// ---------------------------------------------------------------------------
// Signed/unsigned reinterpretation (two's complement, spelled in arithmetic)
// ---------------------------------------------------------------------------

pub open spec fn i8_of_bits(u: u8) -> i8 {
    if u < 0x80 {
        u as i8
    } else {
        (u - 0x100) as i8
    }
}

pub open spec fn bits_of_i8(v: i8) -> u8 {
    if v >= 0 {
        v as u8
    } else {
        (v + 0x100) as u8
    }
}

pub open spec fn i16_of_bits(u: u16) -> i16 {
    if u < 0x8000 {
        u as i16
    } else {
        (u - 0x1_0000) as i16
    }
}

pub open spec fn bits_of_i16(v: i16) -> u16 {
    if v >= 0 {
        v as u16
    } else {
        (v + 0x1_0000) as u16
    }
}

pub open spec fn i32_of_bits(u: u32) -> i32 {
    if u < 0x8000_0000 {
        u as i32
    } else {
        (u - 0x1_0000_0000) as i32
    }
}

pub open spec fn bits_of_i32(v: i32) -> u32 {
    if v >= 0 {
        v as u32
    } else {
        (v + 0x1_0000_0000) as u32
    }
}

pub open spec fn i64_of_bits(u: u64) -> i64 {
    if u < 0x8000_0000_0000_0000 {
        u as i64
    } else {
        (u - 0x1_0000_0000_0000_0000) as i64
    }
}

pub open spec fn bits_of_i64(v: i64) -> u64 {
    if v >= 0 {
        v as u64
    } else {
        (v + 0x1_0000_0000_0000_0000) as u64
    }
}

// ---------------------------------------------------------------------------
// Executable conversions
// ---------------------------------------------------------------------------

pub fn u16_from_le(b0: u8, b1: u8) -> (v: u16)
    ensures
        v == u16_of_le(b0, b1),
{
    b0 as u16 + (b1 as u16) * 0x100
}

pub fn u16_from_be(b0: u8, b1: u8) -> (v: u16)
    ensures
        v == u16_of_be(b0, b1),
{
    (b0 as u16) * 0x100 + b1 as u16
}

pub fn u16_le_lo(v: u16) -> (b: u8)
    ensures
        b == lo16(v),
{
    (v % 0x100) as u8
}

pub fn u16_le_hi(v: u16) -> (b: u8)
    ensures
        b == hi16(v),
{
    (v / 0x100) as u8
}

pub fn u32_from_le(b0: u8, b1: u8, b2: u8, b3: u8) -> (v: u32)
    ensures
        v == u32_of_le(b0, b1, b2, b3),
{
    b0 as u32 + (b1 as u32) * 0x100 + (b2 as u32) * 0x1_0000 + (b3 as u32) * 0x100_0000
}

pub fn u32_le_part(v: u32, k: usize) -> (b: u8)
    requires
        k < 4,
    ensures
        b == le32_byte(v, k as int),
{
    let shift: u32 = if k == 0 {
        1
    } else if k == 1 {
        0x100
    } else if k == 2 {
        0x1_0000
    } else {
        0x100_0000
    };
    ((v / shift) % 0x100) as u8
}

pub fn u64_le_part(v: u64, k: usize) -> (b: u8)
    requires
        k < 8,
    ensures
        b == le64_byte(v, k as int),
{
    let shift: u64 = u64_shift(k);
    ((v / shift) % 0x100) as u8
}

pub fn u64_be_part(v: u64, k: usize) -> (b: u8)
    requires
        k < 8,
    ensures
        b == be64_byte(v, k as int),
{
    u64_le_part(v, 7 - k)
}

fn u64_shift(k: usize) -> (s: u64)
    requires
        k < 8,
    ensures
        s == byte_shift64(k as int),
{
    if k == 0 {
        1
    } else if k == 1 {
        0x100
    } else if k == 2 {
        0x1_0000
    } else if k == 3 {
        0x100_0000
    } else if k == 4 {
        0x1_0000_0000
    } else if k == 5 {
        0x100_0000_0000
    } else if k == 6 {
        0x1_0000_0000_0000
    } else {
        0x100_0000_0000_0000
    }
}

pub fn u64_from_le_slice(b: &[u8]) -> (v: u64)
    requires
        b@.len() == 8,
    ensures
        v == u64_of_le(b@),
{
    b[0] as u64 + (b[1] as u64) * 0x100 + (b[2] as u64) * 0x1_0000 + (b[3] as u64) * 0x100_0000
        + (b[4] as u64) * 0x1_0000_0000 + (b[5] as u64) * 0x100_0000_0000
        + (b[6] as u64) * 0x1_0000_0000_0000 + (b[7] as u64) * 0x100_0000_0000_0000
}

pub fn u64_from_be_slice(b: &[u8]) -> (v: u64)
    requires
        b@.len() == 8,
    ensures
        v == u64_of_be(b@),
{
    b[7] as u64 + (b[6] as u64) * 0x100 + (b[5] as u64) * 0x1_0000 + (b[4] as u64) * 0x100_0000
        + (b[3] as u64) * 0x1_0000_0000 + (b[2] as u64) * 0x100_0000_0000
        + (b[1] as u64) * 0x1_0000_0000_0000 + (b[0] as u64) * 0x100_0000_0000_0000
}

pub fn i8_from_bits(u: u8) -> (v: i8)
    ensures
        v == i8_of_bits(u),
{
    if u < 0x80 {
        u as i8
    } else {
        ((u as i16) - 0x100) as i8
    }
}

pub fn i8_to_bits(v: i8) -> (u: u8)
    ensures
        u == bits_of_i8(v),
{
    if v >= 0 {
        v as u8
    } else {
        ((v as i16) + 0x100) as u8
    }
}

pub fn i16_from_bits(u: u16) -> (v: i16)
    ensures
        v == i16_of_bits(u),
{
    if u < 0x8000 {
        u as i16
    } else {
        ((u as i32) - 0x1_0000) as i16
    }
}

pub fn i16_to_bits(v: i16) -> (u: u16)
    ensures
        u == bits_of_i16(v),
{
    if v >= 0 {
        v as u16
    } else {
        ((v as i32) + 0x1_0000) as u16
    }
}

pub fn i32_from_bits(u: u32) -> (v: i32)
    ensures
        v == i32_of_bits(u),
{
    if u < 0x8000_0000 {
        u as i32
    } else {
        ((u as i64) - 0x1_0000_0000) as i32
    }
}

pub fn i32_to_bits(v: i32) -> (u: u32)
    ensures
        u == bits_of_i32(v),
{
    if v >= 0 {
        v as u32
    } else {
        ((v as i64) + 0x1_0000_0000) as u32
    }
}

pub fn i64_from_bits(u: u64) -> (v: i64)
    ensures
        v == i64_of_bits(u),
{
    if u < 0x8000_0000_0000_0000 {
        u as i64
    } else {
        // Bring the value into the signed range without a truncating cast:
        // shift down by 2^63 first, then move the sign.
        let d: u64 = u - 0x8000_0000_0000_0000;
        (d as i64) + (-0x8000_0000_0000_0000i64)
    }
}

pub fn i64_to_bits(v: i64) -> (u: u64)
    ensures
        u == bits_of_i64(v),
{
    if v >= 0 {
        v as u64
    } else {
        let d: i64 = v + 0x4000_0000_0000_0000 + 0x4000_0000_0000_0000;
        d as u64 + 0x8000_0000_0000_0000
    }
}

// ---------------------------------------------------------------------------
// Round-trip lemmas
// ---------------------------------------------------------------------------

/// A 16-bit value split into its little-endian bytes recomposes to itself.
pub proof fn lemma_u16_le_round_trip(v: u16)
    by (bit_vector)
    ensures
        u16_of_le(lo16(v), hi16(v)) == v,
{
}

/// A 16-bit value split into its big-endian bytes recomposes to itself.
pub proof fn lemma_u16_be_round_trip(v: u16)
    by (bit_vector)
    ensures
        u16_of_be(hi16(v), lo16(v)) == v,
{
}

/// A 32-bit value split into its little-endian bytes recomposes to itself.
pub proof fn lemma_u32_le_round_trip(v: u32)
    by (bit_vector)
    ensures
        u32_of_le(le32_byte(v, 0), le32_byte(v, 1), le32_byte(v, 2), le32_byte(v, 3)) == v,
{
}

/// A 64-bit value split into its little-endian bytes recomposes to itself.
pub proof fn lemma_u64_le_round_trip(v: u64)
    ensures
        u64_of_le(
            seq![le64_byte(v, 0), le64_byte(v, 1), le64_byte(v, 2), le64_byte(v, 3),
                le64_byte(v, 4), le64_byte(v, 5), le64_byte(v, 6), le64_byte(v, 7)],
        ) == v,
{
    let s = seq![le64_byte(v, 0), le64_byte(v, 1), le64_byte(v, 2), le64_byte(v, 3),
        le64_byte(v, 4), le64_byte(v, 5), le64_byte(v, 6), le64_byte(v, 7)];
    assert(u64_of_le(s) == (le64_byte(v, 0) + le64_byte(v, 1) * 0x100 + le64_byte(v, 2) * 0x1_0000
        + le64_byte(v, 3) * 0x100_0000 + le64_byte(v, 4) * 0x1_0000_0000
        + le64_byte(v, 5) * 0x100_0000_0000 + le64_byte(v, 6) * 0x1_0000_0000_0000
        + le64_byte(v, 7) * 0x100_0000_0000_0000) as u64);
    assert((le64_byte(v, 0) + le64_byte(v, 1) * 0x100 + le64_byte(v, 2) * 0x1_0000
        + le64_byte(v, 3) * 0x100_0000 + le64_byte(v, 4) * 0x1_0000_0000
        + le64_byte(v, 5) * 0x100_0000_0000 + le64_byte(v, 6) * 0x1_0000_0000_0000
        + le64_byte(v, 7) * 0x100_0000_0000_0000) as u64 == v) by (bit_vector);
}

/// A 64-bit value split into its big-endian bytes recomposes to itself.
pub proof fn lemma_u64_be_round_trip(v: u64)
    ensures
        u64_of_be(
            seq![be64_byte(v, 0), be64_byte(v, 1), be64_byte(v, 2), be64_byte(v, 3),
                be64_byte(v, 4), be64_byte(v, 5), be64_byte(v, 6), be64_byte(v, 7)],
        ) == v,
{
    let s = seq![be64_byte(v, 0), be64_byte(v, 1), be64_byte(v, 2), be64_byte(v, 3),
        be64_byte(v, 4), be64_byte(v, 5), be64_byte(v, 6), be64_byte(v, 7)];
    assert(u64_of_be(s) == (be64_byte(v, 7) + be64_byte(v, 6) * 0x100 + be64_byte(v, 5) * 0x1_0000
        + be64_byte(v, 4) * 0x100_0000 + be64_byte(v, 3) * 0x1_0000_0000
        + be64_byte(v, 2) * 0x100_0000_0000 + be64_byte(v, 1) * 0x1_0000_0000_0000
        + be64_byte(v, 0) * 0x100_0000_0000_0000) as u64);
    assert((be64_byte(v, 7) + be64_byte(v, 6) * 0x100 + be64_byte(v, 5) * 0x1_0000
        + be64_byte(v, 4) * 0x100_0000 + be64_byte(v, 3) * 0x1_0000_0000
        + be64_byte(v, 2) * 0x100_0000_0000 + be64_byte(v, 1) * 0x1_0000_0000_0000
        + be64_byte(v, 0) * 0x100_0000_0000_0000) as u64 == v) by (bit_vector);
}

/// The signed reinterpretations are mutually inverse.
pub proof fn lemma_i8_bits_round_trip(v: i8)
    ensures
        i8_of_bits(bits_of_i8(v)) == v,
{
}

pub proof fn lemma_i16_bits_round_trip(v: i16)
    ensures
        i16_of_bits(bits_of_i16(v)) == v,
{
}

pub proof fn lemma_i32_bits_round_trip(v: i32)
    ensures
        i32_of_bits(bits_of_i32(v)) == v,
{
}

pub proof fn lemma_i64_bits_round_trip(v: i64)
    ensures
        i64_of_bits(bits_of_i64(v)) == v,
{
}

} // verus!
