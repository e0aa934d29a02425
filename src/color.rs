//! Conversion of a shaded color into an 8-bit RGBA pixel.
use vstd::prelude::*;

verus! {

/// The largest value of an 8-bit channel.
pub const CHANNEL_MAX: i64 = 255;

/// A color scaled to channel units (1.0 of intensity is 255), before clamping.
/// Values below zero or above 255 are allowed: shading may overshoot.
#[derive(Clone, Copy, Debug, PartialEq, Eq, Structural)]
pub struct ScaledColor {
    pub r: i64,
    pub g: i64,
    pub b: i64,
}

/// The channel value that `v` becomes: `v` limited to `[0, 255]`.
pub open spec fn clamp_spec(v: i64) -> u8 {
    if v < 0 {
        0u8
    } else if v > 255 {
        255u8
    } else {
        v as u8
    }
}

/// The opaque pixel that a scaled color becomes.
pub open spec fn rgba_spec(c: ScaledColor) -> [u8; 4] {
    [clamp_spec(c.r), clamp_spec(c.g), clamp_spec(c.b), 255u8]
}

/// Limits a scaled channel to `[0, 255]`, whatever its sign or size.
pub fn clamp_channel(v: i64) -> (r: u8)
    ensures
        r == clamp_spec(v),
        0 <= v <= 255 ==> r as i64 == v,
        v < 0 ==> r == 0,
        v > 255 ==> r == 255,
{
    if v < 0 {
        0
    } else if v > CHANNEL_MAX {
        255
    } else {
        v as u8
    }
}

/// The pixel for a scaled color: each color channel clamped, alpha fully opaque.
pub fn to_rgba(c: ScaledColor) -> (r: [u8; 4])
    ensures
        r == rgba_spec(c),
{
    let px = [clamp_channel(c.r), clamp_channel(c.g), clamp_channel(c.b), 255u8];
    proof {
        assert(px =~= rgba_spec(c));
    }
    px
}

} // verus!
