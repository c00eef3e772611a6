//! Sample-format conversion.
//!
//! The library's canonical sample is a fixed-point amplitude: an `i32` code
//! in `[-CODE_ONE, CODE_ONE]` standing for a value in `[-1, 1]`, with
//! `CODE_ONE` as full scale.  Each conversion maps that range onto the full
//! native range of one integer sample format: `-1` to the format's minimum,
//! `0` to its zero (the midpoint, for unsigned formats), and `1` to its
//! maximum.  Floating-point output formats need no conversion beyond the
//! fixed-point scaling itself, which the caller performs.

use vstd::prelude::*;

verus! {

/// Canonical full-scale amplitude: canonical sample codes are fixed-point
/// values in `[-CODE_ONE, CODE_ONE]`, standing for amplitudes in `[-1, 1]`.
pub const CODE_ONE: i32 = 0x100_0000;

/// A canonical sample code: a fixed-point amplitude in `[-1, 1]`.
pub open spec fn is_code(c: int) -> bool {
    -(CODE_ONE as int) <= c <= CODE_ONE as int
}

/// The unsigned 8-bit sample for code `c`: the biased code scaled down to
/// `[0, 255]`, with full positive scale saturating at the maximum.
pub open spec fn u8_of_code(c: int) -> int {
    if (c + CODE_ONE) / 0x20000 < 255 {
        (c + CODE_ONE) / 0x20000
    } else {
        255
    }
}

/// The signed 8-bit sample for code `c`: the unsigned sample recentered on
/// zero.
pub open spec fn i8_of_code(c: int) -> int {
    u8_of_code(c) - 128
}

/// The unsigned 16-bit sample for code `c`.
pub open spec fn u16_of_code(c: int) -> int {
    if (c + CODE_ONE) / 0x200 < 0xffff {
        (c + CODE_ONE) / 0x200
    } else {
        0xffff
    }
}

/// The signed 16-bit sample for code `c`.
pub open spec fn i16_of_code(c: int) -> int {
    u16_of_code(c) - 0x8000
}

/// The unsigned 32-bit sample for code `c`: the biased code scaled up, with
/// full positive scale saturating at the maximum.
pub open spec fn u32_of_code(c: int) -> int {
    if (c + CODE_ONE) * 0x80 < 0xffff_ffff {
        (c + CODE_ONE) * 0x80
    } else {
        0xffff_ffff
    }
}

/// The signed 32-bit sample for code `c`.
pub open spec fn i32_of_code(c: int) -> int {
    u32_of_code(c) - 0x8000_0000
}

/// The unsigned 64-bit sample for code `c`.
pub open spec fn u64_of_code(c: int) -> int {
    if c == CODE_ONE {
        0xffff_ffff_ffff_ffff
    } else {
        (c + CODE_ONE) * 0x80_0000_0000
    }
}

/// The signed 64-bit sample for code `c`.
pub open spec fn i64_of_code(c: int) -> int {
    u64_of_code(c) - 0x8000_0000_0000_0000
}

/// Convert a canonical code to an unsigned 8-bit sample.
pub fn code_to_u8(c: i32) -> (s: u8)
    requires
        is_code(c as int),
    ensures
        s == u8_of_code(c as int),
{
    let biased: u32 = (c + CODE_ONE) as u32;
    let scaled: u32 = biased / 0x20000;
    if scaled < 255 {
        scaled as u8
    } else {
        255
    }
}

/// Convert a canonical code to a signed 8-bit sample.
pub fn code_to_i8(c: i32) -> (s: i8)
    requires
        is_code(c as int),
    ensures
        s == i8_of_code(c as int),
{
    (code_to_u8(c) as i16 - 128) as i8
}

/// Convert a canonical code to an unsigned 16-bit sample.
pub fn code_to_u16(c: i32) -> (s: u16)
    requires
        is_code(c as int),
    ensures
        s == u16_of_code(c as int),
{
    let biased: u32 = (c + CODE_ONE) as u32;
    let scaled: u32 = biased / 0x200;
    if scaled < 0xffff {
        scaled as u16
    } else {
        0xffff
    }
}

/// Convert a canonical code to a signed 16-bit sample.
pub fn code_to_i16(c: i32) -> (s: i16)
    requires
        is_code(c as int),
    ensures
        s == i16_of_code(c as int),
{
    (code_to_u16(c) as i32 - 0x8000) as i16
}

/// Convert a canonical code to an unsigned 32-bit sample.
pub fn code_to_u32(c: i32) -> (s: u32)
    requires
        is_code(c as int),
    ensures
        s == u32_of_code(c as int),
{
    let scaled: u64 = ((c + CODE_ONE) as u64) * 0x80;
    if scaled < 0xffff_ffff {
        scaled as u32
    } else {
        0xffff_ffff
    }
}

/// Convert a canonical code to a signed 32-bit sample.
pub fn code_to_i32(c: i32) -> (s: i32)
    requires
        is_code(c as int),
    ensures
        s == i32_of_code(c as int),
{
    (code_to_u32(c) as i64 - 0x8000_0000) as i32
}

/// Convert a canonical code to an unsigned 64-bit sample.
pub fn code_to_u64(c: i32) -> (s: u64)
    requires
        is_code(c as int),
    ensures
        s == u64_of_code(c as int),
{
    if c == CODE_ONE {
        0xffff_ffff_ffff_ffff
    } else {
        ((c + CODE_ONE) as u64) * 0x80_0000_0000
    }
}

/// Convert a canonical code to a signed 64-bit sample.
pub fn code_to_i64(c: i32) -> (s: i64)
    requires
        is_code(c as int),
    ensures
        s == i64_of_code(c as int),
{
    if c == CODE_ONE {
        0x7fff_ffff_ffff_ffff
    } else {
        (c as i64) * 0x80_0000_0000
    }
}

} // verus!
