//! Per-pixel BT.601 color math in fixed-point integer arithmetic.
//!
//! All coefficients are scaled by 1_000_000 (millionths), so a channel value
//! `v` corresponds to the fixed-point quantity `v * 1_000_000`. Results are
//! clamped to a byte and truncated toward zero, matching the usual
//! float-then-cast formulation within one unit.

use vstd::prelude::*;

verus! {

/// Clamps a fixed-point value (scaled by 1_000_000) into a byte.
pub open spec fn spec_clamp_to_byte(v: int) -> u8 {
    if v < 0 {
        0u8
    } else if v > 255_000_000 {
        255u8
    } else {
        (v / 1_000_000) as u8
    }
}

/// Clamps a fixed-point value (scaled by 1_000_000) into a byte.
pub fn clamp_to_byte(v: i64) -> (r: u8)
    requires
        -1_000_000_000_000 <= v <= 1_000_000_000_000,
    ensures
        r == spec_clamp_to_byte(v as int),
{
    if v < 0 {
        0
    } else if v > 255_000_000 {
        255
    } else {
        (v / 1_000_000) as u8
    }
}

/// Red channel: `R = Y + 1.402 * (V - 128)`, clamped to a byte.
pub open spec fn spec_rgb_r(y: u8, v: u8) -> u8 {
    spec_clamp_to_byte(y * 1_000_000 + 1_402_000 * (v - 128))
}

/// Green channel: `G = Y - 0.344136 * (U - 128) - 0.714136 * (V - 128)`,
/// clamped to a byte.
pub open spec fn spec_rgb_g(y: u8, u: u8, v: u8) -> u8 {
    spec_clamp_to_byte(y * 1_000_000 - 344_136 * (u - 128) - 714_136 * (v - 128))
}

/// Blue channel: `B = Y + 1.772 * (U - 128)`, clamped to a byte.
pub open spec fn spec_rgb_b(y: u8, u: u8) -> u8 {
    spec_clamp_to_byte(y * 1_000_000 + 1_772_000 * (u - 128))
}

/// Converts one 4:2:0 sample triple to an RGB triple by the BT.601 transform.
pub fn yuv_to_rgb_pixel(y: u8, u: u8, v: u8) -> (rgb: (u8, u8, u8))
    ensures
        rgb.0 == spec_rgb_r(y, v),
        rgb.1 == spec_rgb_g(y, u, v),
        rgb.2 == spec_rgb_b(y, u),
{
    let yf: i64 = (y as i64) * 1_000_000;
    let uf: i64 = (u as i64) - 128;
    let vf: i64 = (v as i64) - 128;
    let r = clamp_to_byte(yf + 1_402_000 * vf);
    let g = clamp_to_byte(yf - 344_136 * uf - 714_136 * vf);
    let b = clamp_to_byte(yf + 1_772_000 * uf);
    (r, g, b)
}

/// Luma from RGB: `Y = 0.299 * R + 0.587 * G + 0.114 * B`. The coefficients
/// sum to one, so the result is already a byte and needs no clamping.
pub open spec fn spec_yuv_y(r: u8, g: u8, b: u8) -> u8 {
    ((299_000 * r + 587_000 * g + 114_000 * b) / 1_000_000) as u8
}

/// Blue-difference chroma from RGB:
/// `U = 128 - 0.168736 * R - 0.331264 * G + 0.5 * B`, clamped to a byte.
pub open spec fn spec_yuv_u(r: u8, g: u8, b: u8) -> u8 {
    spec_clamp_to_byte(128_000_000 - 168_736 * r - 331_264 * g + 500_000 * b)
}

/// Red-difference chroma from RGB:
/// `V = 128 + 0.5 * R - 0.418688 * G - 0.081312 * B`, clamped to a byte.
pub open spec fn spec_yuv_v(r: u8, g: u8, b: u8) -> u8 {
    spec_clamp_to_byte(128_000_000 + 500_000 * r - 418_688 * g - 81_312 * b)
}

/// Neutral chroma leaves luma untouched: for `U == V == 128` the transform
/// is the identity on every channel, so gray stays gray.
pub proof fn lemma_neutral_chroma_identity(y: u8)
    ensures
        spec_rgb_r(y, 128) == y,
        spec_rgb_g(y, 128, 128) == y,
        spec_rgb_b(y, 128) == y,
{
    assert((y as int) * 1_000_000 / 1_000_000 == y as int) by (nonlinear_arith);
}

/// Converts one RGB triple to a YUV triple by the BT.601 transform.
pub fn rgb_to_yuv_pixel(r: u8, g: u8, b: u8) -> (yuv: (u8, u8, u8))
    ensures
        yuv.0 == spec_yuv_y(r, g, b),
        yuv.1 == spec_yuv_u(r, g, b),
        yuv.2 == spec_yuv_v(r, g, b),
{
    let rf: i64 = r as i64;
    let gf: i64 = g as i64;
    let bf: i64 = b as i64;
    let y_num: i64 = 299_000 * rf + 587_000 * gf + 114_000 * bf;
    let y = (y_num / 1_000_000) as u8;
    let u = clamp_to_byte(128_000_000 - 168_736 * rf - 331_264 * gf + 500_000 * bf);
    let v = clamp_to_byte(128_000_000 + 500_000 * rf - 418_688 * gf - 81_312 * bf);
    (y, u, v)
}

} // verus!
