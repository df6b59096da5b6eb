//! Big-endian wire arithmetic shared by the CAN and Modbus codecs:
//! byte pairs, two's-complement 16-bit values, and saturating clamps.

use vstd::prelude::*;

verus! {

/// High byte of a 16-bit big-endian value.
pub open spec fn be_hi(x: int) -> u8
    recommends
        0 <= x < 0x10000,
{
    (x / 256) as u8
}

/// Low byte of a 16-bit big-endian value.
pub open spec fn be_lo(x: int) -> u8
    recommends
        0 <= x < 0x10000,
{
    (x % 256) as u8
}

/// The value encoded by a big-endian byte pair.
pub open spec fn be_val(hi: u8, lo: u8) -> int {
    hi * 256 + lo
}

/// The unsigned 16-bit wire image of a signed 16-bit value
/// (two's complement).
pub open spec fn wire_of_i16(v: int) -> int
    recommends
        -0x8000 <= v < 0x8000,
{
    if v >= 0 {
        v
    } else {
        v + 0x10000
    }
}

/// The signed value encoded by an unsigned 16-bit wire image
/// (two's complement).
pub open spec fn i16_of_wire(w: int) -> int
    recommends
        0 <= w < 0x10000,
{
    if w < 0x8000 {
        w
    } else {
        w - 0x10000
    }
}

/// `x` clamped to the closed interval `[lo, hi]`.
pub open spec fn clamp_spec(x: int, lo: int, hi: int) -> int
    recommends
        lo <= hi,
{
    if x < lo {
        lo
    } else if x > hi {
        hi
    } else {
        x
    }
}

/// Round-tripping a 16-bit value through its big-endian bytes is the identity.
pub proof fn lemma_be_round_trip(x: int)
    requires
        0 <= x < 0x10000,
    ensures
        be_val(be_hi(x), be_lo(x)) == x,
{
}

/// Round-tripping a signed 16-bit value through its wire image is the identity.
pub proof fn lemma_i16_wire_round_trip(v: int)
    requires
        -0x8000 <= v < 0x8000,
    ensures
        i16_of_wire(wire_of_i16(v)) == v,
{
}

/// Splits a 16-bit value into its big-endian byte pair.
pub fn be_split(x: u16) -> (r: (u8, u8))
    ensures
        r.0 == be_hi(x as int),
        r.1 == be_lo(x as int),
        be_val(r.0, r.1) == x,
{
    ((x / 256) as u8, (x % 256) as u8)
}

/// Joins a big-endian byte pair into the 16-bit value it encodes.
pub fn be_join(hi: u8, lo: u8) -> (r: u16)
    ensures
        r == be_val(hi, lo),
{
    (hi as u16) * 256 + (lo as u16)
}

/// The unsigned wire image of a signed 16-bit value.
pub fn u16_of_i16(v: i16) -> (r: u16)
    ensures
        r == wire_of_i16(v as int),
{
    if v >= 0 {
        v as u16
    } else {
        ((v as i32) + 0x10000) as u16
    }
}

/// The signed 16-bit value behind an unsigned wire image.
pub fn i16_of_u16(w: u16) -> (r: i16)
    ensures
        r == i16_of_wire(w as int),
{
    if w < 0x8000 {
        w as i16
    } else {
        ((w as i32) - 0x10000) as i16
    }
}

/// Clamps a `u16` to `[lo, hi]`.
pub fn clamp_u16(x: u16, lo: u16, hi: u16) -> (r: u16)
    requires
        lo <= hi,
    ensures
        r == clamp_spec(x as int, lo as int, hi as int),
{
    if x < lo {
        lo
    } else if x > hi {
        hi
    } else {
        x
    }
}

/// Clamps an `i16` to `[lo, hi]`.
pub fn clamp_i16(x: i16, lo: i16, hi: i16) -> (r: i16)
    requires
        lo <= hi,
    ensures
        r == clamp_spec(x as int, lo as int, hi as int),
{
    if x < lo {
        lo
    } else if x > hi {
        hi
    } else {
        x
    }
}

/// Clamps an `i32` to `[lo, hi]`.
pub fn clamp_i32(x: i32, lo: i32, hi: i32) -> (r: i32)
    requires
        lo <= hi,
    ensures
        r == clamp_spec(x as int, lo as int, hi as int),
{
    if x < lo {
        lo
    } else if x > hi {
        hi
    } else {
        x
    }
}

/// Clamps an `i64` to `[lo, hi]`.
pub fn clamp_i64(x: i64, lo: i64, hi: i64) -> (r: i64)
    requires
        lo <= hi,
    ensures
        r == clamp_spec(x as int, lo as int, hi as int),
{
    if x < lo {
        lo
    } else if x > hi {
        hi
    } else {
        x
    }
}

/// Joins two 16-bit register words into the 32-bit value they encode,
/// high word first.
pub fn u32_of_word_pair(hi: u16, lo: u16) -> (r: u32)
    ensures
        r == hi * 0x10000 + lo,
{
    (hi as u32) * 0x10000 + (lo as u32)
}

/// Joins four big-endian bytes into the 32-bit value they encode.
pub fn u32_of_be_bytes(b0: u8, b1: u8, b2: u8, b3: u8) -> (r: u32)
    ensures
        r == b0 * 0x1000000 + b1 * 0x10000 + b2 * 256 + b3,
{
    (b0 as u32) * 0x1000000 + (b1 as u32) * 0x10000 + (b2 as u32) * 256 + (b3 as u32)
}

/// Splits a 32-bit value into its four big-endian bytes.
pub fn be_split_u32(x: u32) -> (r: (u8, u8, u8, u8))
    ensures
        x == r.0 * 0x1000000 + r.1 * 0x10000 + r.2 * 256 + r.3,
        r.0 == x / 0x1000000,
        r.1 == (x / 0x10000) % 256,
        r.2 == (x / 256) % 256,
        r.3 == x % 256,
{
    (
        (x / 0x1000000) as u8,
        ((x / 0x10000) % 256) as u8,
        ((x / 256) % 256) as u8,
        (x % 256) as u8,
    )
}

} // verus!
