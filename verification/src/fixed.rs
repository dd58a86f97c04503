//! Pointer coordinates in the wayland wire format: signed 24.8 fixed point.
use vstd::prelude::*;

verus! {

/// Number of fixed-point units in one logical pixel.
pub const FIXED_ONE: i32 = 256;

/// A coordinate in units of 1/256 logical pixel, as `wl_fixed` carries it.
#[derive(Debug, Clone, Copy, PartialEq, Eq, Structural)]
pub struct Fixed {
    pub raw: i32,
}

impl Fixed {
    pub fn from_raw(raw: i32) -> (r: Fixed)
        ensures
            r.raw == raw,
    {
        Fixed { raw }
    }

    /// A whole number of pixels; `pixels` must be representable.
    pub fn from_int(pixels: i32) -> (r: Fixed)
        requires
            -8388608 <= pixels < 8388608,
        ensures
            r.raw == pixels * 256,
    {
        Fixed { raw: pixels * FIXED_ONE }
    }

    /// The distance `to - from` rounded to the nearest whole pixel, halves away from zero.
    pub fn rounded_delta(from: Fixed, to: Fixed) -> (r: i32)
        ensures
            r == spec_round_div(to.raw - from.raw),
    {
        let d: i64 = to.raw as i64 - from.raw as i64;
        let r: i64 = if d >= 0 {
            (d + 128) / 256
        } else {
            -((-d + 128) / 256)
        };
        r as i32
    }
}

/// `d / 256` rounded to the nearest integer, halves away from zero.
pub open spec fn spec_round_div(d: int) -> int {
    if d >= 0 {
        (d + 128) / 256
    } else {
        -((-d + 128) / 256)
    }
}

} // verus!
