//! Frame-level 4:2:0 to RGB conversion: the mathematical model of a converted
//! frame, and the verified reference implementation every other path is
//! measured against.

use vstd::prelude::*;
use vstd::arithmetic::div_mod::{
    lemma_fundamental_div_mod_converse_div, lemma_fundamental_div_mod_converse_mod,
};
use vstd::arithmetic::mul::lemma_mul_inequality;
use crate::frame::{spec_dims_ok, spec_y_len, spec_uv_len, FrameData};
use crate::pixel::{spec_rgb_r, spec_rgb_g, spec_rgb_b, yuv_to_rgb_pixel};

verus! {

/// Index into a quarter-resolution chroma plane for full-resolution pixel
/// `p` of a frame `w` pixels wide: the chroma sample is shared by a 2x2
/// block of luma pixels.
pub open spec fn spec_uv_index(w: int, p: int) -> int {
    ((p / w) / 2) * (w / 2) + (p % w) / 2
}

/// Byte `k` of a converted frame: output is pixel-major, three bytes per
/// pixel in R, G, B order.
pub open spec fn spec_rgb_byte(y: Seq<u8>, u: Seq<u8>, v: Seq<u8>, w: int, k: int) -> u8 {
    let p = k / 3;
    let uvi = spec_uv_index(w, p);
    if k % 3 == 0 {
        spec_rgb_r(y[p], v[uvi])
    } else if k % 3 == 1 {
        spec_rgb_g(y[p], u[uvi], v[uvi])
    } else {
        spec_rgb_b(y[p], u[uvi])
    }
}

/// The full converted frame for the given planes.
pub open spec fn spec_rgb_bytes(y: Seq<u8>, u: Seq<u8>, v: Seq<u8>, w: int, h: int) -> Seq<u8>
    recommends
        0 < w,
        0 < h,
{
    Seq::new((3 * w * h) as nat, |k: int| spec_rgb_byte(y, u, v, w, k))
}

/// The three planes of a 4:2:0 frame, in the order they sit in `data`.
pub open spec fn spec_frame_y(f: FrameData) -> Seq<u8> {
    f.data@.subrange(0, spec_y_len(f.width as int, f.height as int))
}

/// Second plane: blue-difference chroma.
pub open spec fn spec_frame_u(f: FrameData) -> Seq<u8> {
    let ylen = spec_y_len(f.width as int, f.height as int);
    let uvlen = spec_uv_len(f.width as int, f.height as int);
    f.data@.subrange(ylen, ylen + uvlen)
}

/// Third plane: red-difference chroma.
pub open spec fn spec_frame_v(f: FrameData) -> Seq<u8> {
    let ylen = spec_y_len(f.width as int, f.height as int);
    let uvlen = spec_uv_len(f.width as int, f.height as int);
    f.data@.subrange(ylen + uvlen, ylen + 2 * uvlen)
}

/// The RGB bytes the reference transform produces for a convertible frame.
pub open spec fn spec_frame_rgb(f: FrameData) -> Seq<u8> {
    spec_rgb_bytes(spec_frame_y(f), spec_frame_u(f), spec_frame_v(f), f.width as int, f.height as int)
}

/// Every converted frame holds exactly `width * height * 3` bytes, whatever
/// its pixel values are.
pub proof fn lemma_rgb_bytes_len(y: Seq<u8>, u: Seq<u8>, v: Seq<u8>, w: int, h: int)
    requires
        0 < w,
        0 < h,
    ensures
        spec_rgb_bytes(y, u, v, w, h).len() == 3 * w * h,
{
    assert(3 * w * h >= 0) by (nonlinear_arith)
        requires
            0 < w,
            0 < h,
    ;
}

/// A pixel's byte triple sits inside the three-bytes-per-pixel buffer.
pub proof fn lemma_rgb_index_bounds(w: int, h: int, row: int, col: int)
    requires
        0 < w,
        0 < h,
        0 <= row < h,
        0 <= col < w,
    ensures
        0 <= row * w + col < w * h,
        3 * (row * w + col) + 2 < 3 * (w * h),
        3 * (w * h) == 3 * w * h,
{
    lemma_mul_inequality(row, h - 1, w);
    assert((h - 1) * w == h * w - w && h * w == w * h) by (nonlinear_arith);
    assert(3 * (row * w + col) + 2 < 3 * (w * h)) by (nonlinear_arith)
        requires
            row * w + col < w * h,
    ;
    assert(3 * (w * h) == 3 * w * h) by (nonlinear_arith);
}

/// Index facts for one pixel of a frame with even dimensions: the pixel
/// index is in range, recovering pixel and channel from a byte index works,
/// and the shared chroma sample index is in range.
proof fn lemma_pixel_indices(w: int, h: int, row: int, col: int, c: int)
    requires
        0 < w,
        0 < h,
        w % 2 == 0,
        h % 2 == 0,
        0 <= row < h,
        0 <= col < w,
        0 <= c < 3,
    ensures
        0 <= row * w + col < w * h,
        (3 * (row * w + col) + c) / 3 == row * w + col,
        (3 * (row * w + col) + c) % 3 == c,
        spec_uv_index(w, row * w + col) == (row / 2) * (w / 2) + col / 2,
        0 <= (row / 2) * (w / 2) + col / 2 < (w * h) / 4,
{
    let p = row * w + col;
    lemma_mul_inequality(row, h - 1, w);
    assert((h - 1) * w == h * w - w) by (nonlinear_arith);
    assert(w * h == h * w) by (nonlinear_arith);
    assert(0 <= p < w * h);

    lemma_fundamental_div_mod_converse_div(p, w, row, col);
    lemma_fundamental_div_mod_converse_mod(p, w, row, col);
    let k = 3 * p + c;
    assert(k == p * 3 + c);
    lemma_fundamental_div_mod_converse_div(k, 3, p, c);
    lemma_fundamental_div_mod_converse_mod(k, 3, p, c);

    let wa = w / 2;
    let hb = h / 2;
    // Even dimensions split exactly in half.
    assert(w == 2 * wa && h == 2 * hb);
    // Halved row and column stay inside the halved grid.
    assert(row / 2 < hb) by (nonlinear_arith)
        requires
            0 <= row < h,
            h == 2 * hb,
    ;
    assert(col / 2 < wa) by (nonlinear_arith)
        requires
            0 <= col < w,
            w == 2 * wa,
    ;
    let hr = row / 2;
    let hc = col / 2;
    lemma_mul_inequality(hr, hb - 1, wa);
    assert((hb - 1) * wa == hb * wa - wa) by (nonlinear_arith);
    assert((w * h) / 4 == wa * hb) by (nonlinear_arith)
        requires
            w == 2 * wa,
            h == 2 * hb,
            0 <= wa,
            0 <= hb,
    ;
    assert(hb * wa == wa * hb) by (nonlinear_arith);
    assert(0 <= hr * wa + hc < (w * h) / 4);
}

/// Converts the three 4:2:0 planes found at the given offsets into packed
/// RGB bytes by the reference BT.601 transform. This is the pixel loop the
/// device kernel mirrors: one invocation per pixel, chroma shared 2x2.
pub fn yuv420_planes_to_rgb(
    y: &Vec<u8>,
    y_off: usize,
    u: &Vec<u8>,
    u_off: usize,
    v: &Vec<u8>,
    v_off: usize,
    width: u32,
    height: u32,
) -> (rgb: Vec<u8>)
    requires
        spec_dims_ok(width, height),
        y_off + spec_y_len(width as int, height as int) <= y@.len(),
        u_off + spec_uv_len(width as int, height as int) <= u@.len(),
        v_off + spec_uv_len(width as int, height as int) <= v@.len(),
    ensures
        rgb@ == spec_rgb_bytes(
            y@.subrange(y_off as int, y_off + spec_y_len(width as int, height as int)),
            u@.subrange(u_off as int, u_off + spec_uv_len(width as int, height as int)),
            v@.subrange(v_off as int, v_off + spec_uv_len(width as int, height as int)),
            width as int,
            height as int,
        ),
{
    let w = width as usize;
    let h = height as usize;
    proof {
        assert(w * h <= 16384 * 16384) by (nonlinear_arith)
            requires
                0 < w <= 16384,
                0 < h <= 16384,
        ;
    }
    let y_avail = y.len();
    let u_avail = u.len();
    let v_avail = v.len();
    let half_w = w / 2;
    let ghost ys = y@.subrange(y_off as int, y_off + spec_y_len(width as int, height as int));
    let ghost us = u@.subrange(u_off as int, u_off + spec_uv_len(width as int, height as int));
    let ghost vs = v@.subrange(v_off as int, v_off + spec_uv_len(width as int, height as int));
    let mut rgb: Vec<u8> = Vec::new();
    let mut row: usize = 0;
    while row < h
        invariant
            w == width as int,
            h == height as int,
            spec_dims_ok(width, height),
            w * h <= 16384 * 16384,
            half_w == w / 2,
            y_off + spec_y_len(w as int, h as int) <= y@.len(),
            u_off + spec_uv_len(w as int, h as int) <= u@.len(),
            v_off + spec_uv_len(w as int, h as int) <= v@.len(),
            y@.len() == y_avail,
            u@.len() == u_avail,
            v@.len() == v_avail,
            ys == y@.subrange(y_off as int, y_off + spec_y_len(w as int, h as int)),
            us == u@.subrange(u_off as int, u_off + spec_uv_len(w as int, h as int)),
            vs == v@.subrange(v_off as int, v_off + spec_uv_len(w as int, h as int)),
            row <= h,
            rgb@.len() == 3 * (row * w),
            forall|k: int| 0 <= k < rgb@.len() ==> rgb@[k] == spec_rgb_byte(ys, us, vs, w as int, k),
        decreases h - row,
    {
        let mut col: usize = 0;
        proof {
            assert(row * w + w <= h * w) by (nonlinear_arith)
                requires
                    0 <= row < h,
                    0 < w,
            ;
            assert(h * w == w * h) by (nonlinear_arith);
        }
        while col < w
            invariant
                w == width as int,
                h == height as int,
                spec_dims_ok(width, height),
                w * h <= 16384 * 16384,
                half_w == w / 2,
                y_off + spec_y_len(w as int, h as int) <= y@.len(),
                u_off + spec_uv_len(w as int, h as int) <= u@.len(),
                v_off + spec_uv_len(w as int, h as int) <= v@.len(),
                y@.len() == y_avail,
                u@.len() == u_avail,
                v@.len() == v_avail,
                ys == y@.subrange(y_off as int, y_off + spec_y_len(w as int, h as int)),
                us == u@.subrange(u_off as int, u_off + spec_uv_len(w as int, h as int)),
                vs == v@.subrange(v_off as int, v_off + spec_uv_len(w as int, h as int)),
                row < h,
                col <= w,
                row * w + w <= w * h,
                rgb@.len() == 3 * (row * w + col),
                forall|k: int| 0 <= k < rgb@.len() ==> rgb@[k] == spec_rgb_byte(ys, us, vs, w as int, k),
            decreases w - col,
        {
            proof {
                lemma_pixel_indices(w as int, h as int, row as int, col as int, 0);
                lemma_pixel_indices(w as int, h as int, row as int, col as int, 1);
                lemma_pixel_indices(w as int, h as int, row as int, col as int, 2);
            }
            let p = row * w + col;
            let uvi = (row / 2) * half_w + col / 2;
            let yv = y[y_off + p];
            let uv = u[u_off + uvi];
            let vv = v[v_off + uvi];
            let (r, g, b) = yuv_to_rgb_pixel(yv, uv, vv);
            rgb.push(r);
            rgb.push(g);
            rgb.push(b);
            proof {
                assert(ys[p as int] == yv);
                assert(us[uvi as int] == uv);
                assert(vs[uvi as int] == vv);
            }
            col += 1;
        }
        proof {
            assert(row * w + w == (row + 1) * w) by (nonlinear_arith);
        }
        row += 1;
    }
    proof {
        assert(3 * ((h as int) * (w as int)) == 3 * (w as int) * (h as int) && 0 <= w * h)
            by (nonlinear_arith)
            requires
                0 < w,
                0 < h,
        ;
        assert(rgb@.len() == 3 * (w as int) * (h as int));
        assert(spec_rgb_bytes(ys, us, vs, w as int, h as int).len() == 3 * (w as int) * (h as int));
        assert(rgb@ =~= spec_rgb_bytes(ys, us, vs, w as int, h as int));
    }
    rgb
}

} // verus!
