//! Saturating and clamping integer helpers shared by the geometry code.
use vstd::prelude::*;

verus! {

/// The integer `v` clamped into the range of `i32`.
pub open spec fn clamp_i32(v: int) -> int {
    if v < i32::MIN {
        i32::MIN as int
    } else if v > i32::MAX {
        i32::MAX as int
    } else {
        v
    }
}

/// The integer `v` clamped into the range of `u32`.
pub open spec fn clamp_u32(v: int) -> int {
    if v < 0 {
        0
    } else if v > u32::MAX {
        u32::MAX as int
    } else {
        v
    }
}

pub open spec fn min_int(a: int, b: int) -> int {
    if a <= b {
        a
    } else {
        b
    }
}

pub open spec fn max_int(a: int, b: int) -> int {
    if a >= b {
        a
    } else {
        b
    }
}

/// `a + b` saturating at the bounds of `i32`.
pub fn saturating_add_i32(a: i32, b: i32) -> (r: i32)
    ensures
        r == clamp_i32(a + b),
{
    let wide: i64 = a as i64 + b as i64;
    clamp_i64_to_i32(wide)
}

/// `a - b` saturating at the bounds of `i32`.
pub fn saturating_sub_i32(a: i32, b: i32) -> (r: i32)
    ensures
        r == clamp_i32(a - b),
{
    let wide: i64 = a as i64 - b as i64;
    clamp_i64_to_i32(wide)
}

/// `v` converted to `i32`, saturating at `i32::MAX`.
pub fn u32_to_i32_saturating(v: u32) -> (r: i32)
    ensures
        r == clamp_i32(v as int),
{
    if v > i32::MAX as u32 {
        i32::MAX
    } else {
        v as i32
    }
}

/// `v` converted to `i32`, saturating at the bounds of `i32`.
pub fn clamp_i64_to_i32(v: i64) -> (r: i32)
    ensures
        r == clamp_i32(v as int),
{
    if v < i32::MIN as i64 {
        i32::MIN
    } else if v > i32::MAX as i64 {
        i32::MAX
    } else {
        v as i32
    }
}

/// `v` converted to `u32`, saturating at the bounds of `u32`.
pub fn clamp_i64_to_u32(v: i64) -> (r: u32)
    ensures
        r == clamp_u32(v as int),
{
    if v < 0 {
        0
    } else if v > u32::MAX as i64 {
        u32::MAX
    } else {
        v as u32
    }
}

/// The exact product of two `u32` values.
pub fn mul_wide(a: u32, b: u32) -> (r: u64)
    ensures
        r == a * b,
        r <= 0xffff_fffe_0000_0001u64,
{
    assert(a * b <= u32::MAX * u32::MAX) by (nonlinear_arith)
        requires
            a <= u32::MAX,
            b <= u32::MAX,
    ;
    a as u64 * b as u64
}

} // verus!
