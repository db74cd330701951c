//! Little-endian decoding of the fixed-width numbers a PMX file is made of.
use vstd::prelude::*;

verus! {

/// `n` bytes starting at `p` lie inside `d`.
pub open spec fn fits(d: Seq<u8>, p: int, n: int) -> bool {
    0 <= p && 0 <= n && p + n <= d.len()
}

/// The byte at `p` read as a signed 8-bit number.
pub open spec fn i8_at(d: Seq<u8>, p: int) -> int {
    if d[p] < 128 {
        d[p] as int
    } else {
        d[p] - 256
    }
}

/// The unsigned value of the two bytes at `p`, least significant first.
pub open spec fn u16_at(d: Seq<u8>, p: int) -> int {
    d[p] + 256 * d[p + 1]
}

/// The two bytes at `p` read as a signed 16-bit number (two's complement).
pub open spec fn i16_at(d: Seq<u8>, p: int) -> int {
    if u16_at(d, p) < 0x8000 {
        u16_at(d, p)
    } else {
        u16_at(d, p) - 0x1_0000
    }
}

/// The unsigned value of the four bytes at `p`, least significant first.
pub open spec fn u32_at(d: Seq<u8>, p: int) -> int {
    d[p] + 256 * d[p + 1] + 65536 * d[p + 2] + 16777216 * d[p + 3]
}

/// The four bytes at `p` read as a signed 32-bit number (two's complement).
pub open spec fn i32_at(d: Seq<u8>, p: int) -> int {
    if u32_at(d, p) < 0x8000_0000 {
        u32_at(d, p)
    } else {
        u32_at(d, p) - 0x1_0000_0000
    }
}

/// Two single-precision numbers at `p`, as the bit patterns stored in `a`.
pub open spec fn vec2_is(a: [u32; 2], d: Seq<u8>, p: int) -> bool {
    a[0] == u32_at(d, p) && a[1] == u32_at(d, p + 4)
}

/// Three single-precision numbers at `p`, as the bit patterns stored in `a`.
pub open spec fn vec3_is(a: [u32; 3], d: Seq<u8>, p: int) -> bool {
    a[0] == u32_at(d, p) && a[1] == u32_at(d, p + 4) && a[2] == u32_at(d, p + 8)
}

/// Four single-precision numbers at `p`, as the bit patterns stored in `a`.
pub open spec fn vec4_is(a: [u32; 4], d: Seq<u8>, p: int) -> bool {
    a[0] == u32_at(d, p) && a[1] == u32_at(d, p + 4) && a[2] == u32_at(d, p + 8) && a[3]
        == u32_at(d, p + 12)
}

/// All three components are the bit pattern of `0.0`.
pub open spec fn vec3_zero(a: [u32; 3]) -> bool {
    a[0] == 0 && a[1] == 0 && a[2] == 0
}

/// All four components are the bit pattern of `0.0`.
pub open spec fn vec4_zero(a: [u32; 4]) -> bool {
    a[0] == 0 && a[1] == 0 && a[2] == 0 && a[3] == 0
}

/// The value of two bytes, least significant first.
pub fn le_u16(b0: u8, b1: u8) -> (r: u16)
    ensures
        r == b0 + 256 * b1,
{
    b0 as u16 + (b1 as u16) * 256
}

/// The value of four bytes, least significant first.
pub fn le_u32(b0: u8, b1: u8, b2: u8, b3: u8) -> (r: u32)
    ensures
        r == b0 + 256 * b1 + 65536 * b2 + 16777216 * b3,
{
    b0 as u32 + (b1 as u32) * 256 + (b2 as u32) * 65536 + (b3 as u32) * 16777216
}

/// Reinterprets the bits of an unsigned 8-bit number as a signed one.
pub fn u8_to_i8(u: u8) -> (r: i8)
    ensures
        r == (if u < 128 { u as int } else { u - 256 }),
{
    if u < 128 {
        u as i8
    } else {
        (u - 128) as i8 + i8::MIN
    }
}

/// Reinterprets the bits of an unsigned 16-bit number as a signed one.
pub fn u16_to_i16(u: u16) -> (r: i16)
    ensures
        r == (if u < 0x8000 { u as int } else { u - 0x1_0000 }),
{
    if u < 0x8000 {
        u as i16
    } else {
        (u - 0x8000) as i16 + i16::MIN
    }
}

/// Reinterprets the bits of an unsigned 32-bit number as a signed one.
pub fn u32_to_i32(u: u32) -> (r: i32)
    ensures
        r == (if u < 0x8000_0000 { u as int } else { u - 0x1_0000_0000 }),
{
    if u < 0x8000_0000 {
        u as i32
    } else {
        (u - 0x8000_0000) as i32 + i32::MIN
    }
}

} // verus!
