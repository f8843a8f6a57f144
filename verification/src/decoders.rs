//! The decoder side of the pipeline: the selectable decoder kinds, and the
//! RGB-to-4:2:0 repacking the MP4 decoding path performs on every decoded
//! image before it enters the conversion pipeline.

use vstd::prelude::*;
use vstd::arithmetic::div_mod::{
    lemma_fundamental_div_mod_converse_div, lemma_fundamental_div_mod_converse_mod,
};
use vstd::arithmetic::mul::lemma_mul_inequality;
use crate::frame::{spec_dims_ok, ConvertError};
use crate::pixel::{spec_yuv_y, spec_yuv_u, spec_yuv_v, rgb_to_yuv_pixel};
use crate::pool::FrameDataPool;

verus! {

/// The decoder implementations the tool can extract frames with.
#[derive(Clone, Copy, Debug, PartialEq, Eq, Hash, Structural)]
pub enum DecoderType {
    /// Decode through the FFmpeg libraries.
    FFmpeg,
    /// Decode through the OpenCV library.
    OpenCV,
}

impl DecoderType {
    /// The short name used on the command line; one per decoder, so the
    /// name identifies the decoder.
    pub fn as_str(&self) -> (r: &'static str)
        ensures
            self is FFmpeg ==> r@ == "ffmpeg"@,
            self is OpenCV ==> r@ == "opencv"@,
    {
        match self {
            DecoderType::FFmpeg => "ffmpeg",
            DecoderType::OpenCV => "opencv",
        }
    }

    /// A one-line description of the decoder.
    pub fn description(&self) -> (r: &'static str)
        ensures
            self is FFmpeg ==> r@ == "video decoding through the FFmpeg libraries"@,
            self is OpenCV ==> r@ == "video decoding through the OpenCV library"@,
    {
        match self {
            DecoderType::FFmpeg => "video decoding through the FFmpeg libraries",
            DecoderType::OpenCV => "video decoding through the OpenCV library",
        }
    }
}

/// Chooses decoders; the set is closed.
pub struct DecoderFactory;

impl DecoderFactory {
    /// Every decoder the build offers, in the order they are reported.
    pub fn available_decoders() -> (r: Vec<DecoderType>)
        ensures
            r@ == seq![DecoderType::FFmpeg, DecoderType::OpenCV],
    {
        let decoders = vec![DecoderType::FFmpeg, DecoderType::OpenCV];
        proof {
            assert(decoders@ =~= seq![DecoderType::FFmpeg, DecoderType::OpenCV]);
        }
        decoders
    }
}

/// Luma plane of the 4:2:0 repacking of an RGB image: one sample per pixel.
pub open spec fn spec_yuv_y_plane(rgb: Seq<u8>, w: int, h: int) -> Seq<u8> {
    Seq::new((w * h) as nat, |p: int| spec_yuv_y(rgb[3 * p], rgb[3 * p + 1], rgb[3 * p + 2]))
}

/// The full-resolution pixel index sampled for entry `q` of a quarter-
/// resolution chroma plane: the top-left pixel of the 2x2 block.
pub open spec fn spec_chroma_pixel(w: int, q: int) -> int {
    2 * (q / (w / 2)) * w + 2 * (q % (w / 2))
}

/// Blue-difference chroma plane: one sample per 2x2 block.
pub open spec fn spec_yuv_u_plane(rgb: Seq<u8>, w: int, h: int) -> Seq<u8> {
    Seq::new(((w * h) / 4) as nat, |q: int| {
        let p = spec_chroma_pixel(w, q);
        spec_yuv_u(rgb[3 * p], rgb[3 * p + 1], rgb[3 * p + 2])
    })
}

/// Red-difference chroma plane: one sample per 2x2 block.
pub open spec fn spec_yuv_v_plane(rgb: Seq<u8>, w: int, h: int) -> Seq<u8> {
    Seq::new(((w * h) / 4) as nat, |q: int| {
        let p = spec_chroma_pixel(w, q);
        spec_yuv_v(rgb[3 * p], rgb[3 * p + 1], rgb[3 * p + 2])
    })
}

/// The 4:2:0 repacking of an RGB image: Y plane, then U, then V.
pub open spec fn spec_yuv_bytes(rgb: Seq<u8>, w: int, h: int) -> Seq<u8> {
    spec_yuv_y_plane(rgb, w, h) + spec_yuv_u_plane(rgb, w, h) + spec_yuv_v_plane(rgb, w, h)
}

/// Index facts for entry `q` of a quarter-resolution chroma plane.
proof fn lemma_chroma_indices(w: int, h: int, qr: int, qc: int)
    requires
        0 < w,
        0 < h,
        w % 2 == 0,
        h % 2 == 0,
        0 <= qr < h / 2,
        0 <= qc < w / 2,
    ensures
        0 <= qr * (w / 2) + qc < (w * h) / 4,
        spec_chroma_pixel(w, qr * (w / 2) + qc) == 2 * qr * w + 2 * qc,
        0 <= 2 * qr * w + 2 * qc,
        2 * qr * w + 2 * qc + w <= w * h,
        3 * (2 * qr * w + 2 * qc) + 2 < 3 * (w * h),
        3 * (w * h) == 3 * w * h,
{
    assert(3 * (w * h) == 3 * w * h) by (nonlinear_arith);
    let wa = w / 2;
    let hb = h / 2;
    let q = qr * wa + qc;
    lemma_fundamental_div_mod_converse_div(q, wa, qr, qc);
    lemma_fundamental_div_mod_converse_mod(q, wa, qr, qc);
    lemma_mul_inequality(qr, hb - 1, wa);
    assert((hb - 1) * wa == hb * wa - wa) by (nonlinear_arith);
    assert(w == 2 * wa && h == 2 * hb);
    assert((w * h) / 4 == wa * hb && wa * hb == hb * wa) by (nonlinear_arith)
        requires
            w == 2 * wa,
            h == 2 * hb,
            0 <= wa,
            0 <= hb,
    ;
    assert(0 <= qr * wa) by (nonlinear_arith)
        requires
            0 <= qr,
            0 <= wa,
    ;
    // The sampled pixel sits inside the image.
    let p = 2 * qr * w + 2 * qc;
    assert(p + w <= w * h && 0 <= p) by (nonlinear_arith)
        requires
            p == 2 * qr * w + 2 * qc,
            0 <= qr,
            qr <= hb - 1,
            0 <= qc < wa,
            w == 2 * wa,
            h == 2 * hb,
            0 < w,
    ;
    assert(3 * (p + 1) <= 3 * (w * h)) by (nonlinear_arith)
        requires
            p + 1 <= w * h,
    ;
}

/// Repacks a row-major RGB image into the three 4:2:0 planes, appending to
/// an empty output buffer: every pixel contributes a luma sample; every 2x2
/// block contributes one U and one V sample, taken from its top-left pixel.
pub fn rgb_to_yuv420_planes(rgb: &Vec<u8>, width: u32, height: u32, out: &mut Vec<u8>)
    requires
        spec_dims_ok(width, height),
        rgb@.len() >= 3 * (width as int) * (height as int),
        old(out)@.len() == 0,
    ensures
        final(out)@ == spec_yuv_bytes(rgb@, width as int, height as int),
{
    let w = width as usize;
    let h = height as usize;
    proof {
        assert(w * h <= 16384 * 16384 && 3 * ((w as int) * (h as int)) == 3 * (w as int) * (
        h as int)) by (nonlinear_arith)
            requires
                0 < w <= 16384,
                0 < h <= 16384,
        ;
    }
    let rgb_avail = rgb.len();
    let half_w = w / 2;
    let half_h = h / 2;
    // Luma plane: one sample per pixel, row-major.
    let mut row: usize = 0;
    while row < h
        invariant
            w == width as int,
            h == height as int,
            spec_dims_ok(width, height),
            w * h <= 16384 * 16384,
            rgb_avail == rgb@.len(),
            rgb@.len() >= 3 * (w as int) * (h as int),
            row <= h,
            out@.len() == row * w,
            forall|p: int| 0 <= p < out@.len() ==> out@[p] == spec_yuv_y_plane(
                rgb@,
                w as int,
                h as int,
            )[p],
        decreases h - row,
    {
        let mut col: usize = 0;
        proof {
            assert(row * w + w <= h * w && h * w == w * h) by (nonlinear_arith)
                requires
                    0 <= row < h,
                    0 < w,
            ;
        }
        while col < w
            invariant
                w == width as int,
                h == height as int,
                spec_dims_ok(width, height),
                w * h <= 16384 * 16384,
                rgb_avail == rgb@.len(),
                rgb@.len() >= 3 * (w as int) * (h as int),
                row < h,
                col <= w,
                row * w + w <= w * h,
                out@.len() == row * w + col,
                forall|p: int| 0 <= p < out@.len() ==> out@[p] == spec_yuv_y_plane(
                    rgb@,
                    w as int,
                    h as int,
                )[p],
            decreases w - col,
        {
            proof {
                crate::convert::lemma_rgb_index_bounds(w as int, h as int, row as int, col as int);
            }
            let p = row * w + col;
            let rgb_idx = 3 * p;
            let (y, _u, _v) = rgb_to_yuv_pixel(rgb[rgb_idx], rgb[rgb_idx + 1], rgb[rgb_idx + 2]);
            out.push(y);
            col += 1;
        }
        proof {
            assert(row * w + w == (row + 1) * w) by (nonlinear_arith);
        }
        row += 1;
    }
    proof {
        assert(h * w == w * h) by (nonlinear_arith);
    }
    let ghost y_done = out@;
    proof {
        assert(y_done =~= spec_yuv_y_plane(rgb@, w as int, h as int));
    }
    // Blue-difference chroma: one sample per 2x2 block, top-left pixel.
    let mut qr: usize = 0;
    while qr < half_h
        invariant
            w == width as int,
            h == height as int,
            spec_dims_ok(width, height),
            w * h <= 16384 * 16384,
            rgb_avail == rgb@.len(),
            rgb@.len() >= 3 * (w as int) * (h as int),
            half_w == w / 2,
            half_h == h / 2,
            qr <= half_h,
            y_done == spec_yuv_y_plane(rgb@, w as int, h as int),
            out@.len() == y_done.len() + qr * half_w,
            out@.subrange(0, y_done.len() as int) == y_done,
            forall|q: int| 0 <= q < qr * half_w ==> out@[y_done.len() + q] == spec_yuv_u_plane(
                rgb@,
                w as int,
                h as int,
            )[q],
        decreases half_h - qr,
    {
        let mut qc: usize = 0;
        proof {
            assert(qr * half_w + half_w <= half_h * half_w && half_h * half_w <= w * h)
                by (nonlinear_arith)
                requires
                    0 <= qr < half_h,
                    0 < half_w,
                    half_w == w / 2,
                    half_h == h / 2,
                    0 < w,
                    0 < h,
            ;
        }
        while qc < half_w
            invariant
                w == width as int,
                h == height as int,
                spec_dims_ok(width, height),
                w * h <= 16384 * 16384,
                rgb_avail == rgb@.len(),
                rgb@.len() >= 3 * (w as int) * (h as int),
                half_w == w / 2,
                half_h == h / 2,
                qr < half_h,
                qc <= half_w,
                qr * half_w + half_w <= w * h,
                y_done == spec_yuv_y_plane(rgb@, w as int, h as int),
                out@.len() == y_done.len() + qr * half_w + qc,
                out@.subrange(0, y_done.len() as int) == y_done,
                forall|q: int| 0 <= q < qr * half_w + qc ==> out@[y_done.len() + q]
                    == spec_yuv_u_plane(rgb@, w as int, h as int)[q],
            decreases half_w - qc,
        {
            proof {
                lemma_chroma_indices(w as int, h as int, qr as int, qc as int);
            }
            let p = 2 * qr * w + 2 * qc;
            let rgb_idx = 3 * p;
            let (_y, u, _v) = rgb_to_yuv_pixel(rgb[rgb_idx], rgb[rgb_idx + 1], rgb[rgb_idx + 2]);
            out.push(u);
            qc += 1;
        }
        proof {
            assert(qr * half_w + half_w == (qr + 1) * half_w) by (nonlinear_arith);
        }
        qr += 1;
    }
    let ghost u_done = out@;
    proof {
        lemma_uv_len_halves(w as int, h as int);
        assert(u_done =~= spec_yuv_y_plane(rgb@, w as int, h as int) + spec_yuv_u_plane(
            rgb@,
            w as int,
            h as int,
        ));
    }
    // Red-difference chroma: same sampling, V transform.
    let mut vr: usize = 0;
    while vr < half_h
        invariant
            w == width as int,
            h == height as int,
            spec_dims_ok(width, height),
            w * h <= 16384 * 16384,
            rgb_avail == rgb@.len(),
            rgb@.len() >= 3 * (w as int) * (h as int),
            half_w == w / 2,
            half_h == h / 2,
            vr <= half_h,
            u_done == spec_yuv_y_plane(rgb@, w as int, h as int) + spec_yuv_u_plane(
                rgb@,
                w as int,
                h as int,
            ),
            out@.len() == u_done.len() + vr * half_w,
            out@.subrange(0, u_done.len() as int) == u_done,
            forall|q: int| 0 <= q < vr * half_w ==> out@[u_done.len() + q] == spec_yuv_v_plane(
                rgb@,
                w as int,
                h as int,
            )[q],
        decreases half_h - vr,
    {
        let mut qc: usize = 0;
        proof {
            assert(vr * half_w + half_w <= half_h * half_w && half_h * half_w <= w * h)
                by (nonlinear_arith)
                requires
                    0 <= vr < half_h,
                    0 < half_w,
                    half_w == w / 2,
                    half_h == h / 2,
                    0 < w,
                    0 < h,
            ;
        }
        while qc < half_w
            invariant
                w == width as int,
                h == height as int,
                spec_dims_ok(width, height),
                w * h <= 16384 * 16384,
                rgb_avail == rgb@.len(),
                rgb@.len() >= 3 * (w as int) * (h as int),
                half_w == w / 2,
                half_h == h / 2,
                vr < half_h,
                qc <= half_w,
                vr * half_w + half_w <= w * h,
                u_done == spec_yuv_y_plane(rgb@, w as int, h as int) + spec_yuv_u_plane(
                    rgb@,
                    w as int,
                    h as int,
                ),
                out@.len() == u_done.len() + vr * half_w + qc,
                out@.subrange(0, u_done.len() as int) == u_done,
                forall|q: int| 0 <= q < vr * half_w + qc ==> out@[u_done.len() + q]
                    == spec_yuv_v_plane(rgb@, w as int, h as int)[q],
            decreases half_w - qc,
        {
            proof {
                lemma_chroma_indices(w as int, h as int, vr as int, qc as int);
            }
            let p = 2 * vr * w + 2 * qc;
            let rgb_idx = 3 * p;
            let (_y, _u, v) = rgb_to_yuv_pixel(rgb[rgb_idx], rgb[rgb_idx + 1], rgb[rgb_idx + 2]);
            out.push(v);
            qc += 1;
        }
        proof {
            assert(vr * half_w + half_w == (vr + 1) * half_w) by (nonlinear_arith);
        }
        vr += 1;
    }
    proof {
        lemma_uv_len_halves(w as int, h as int);
        assert(out@ =~= spec_yuv_bytes(rgb@, w as int, h as int));
    }
}

/// One plane copied out of a strided decoder buffer: row `r` of the result
/// comes from the `w` bytes at offset `r * stride` of the source.
pub open spec fn spec_strided_plane(data: Seq<u8>, stride: int, w: int, h: int) -> Seq<u8> {
    Seq::new((w * h) as nat, |p: int| data[(p / w) * stride + (p % w)])
}

/// Index facts for one byte of a strided plane copy.
proof fn lemma_strided_index(stride: int, w: int, h: int, row: int, col: int, avail: int)
    requires
        0 < w,
        0 < h,
        0 <= row < h,
        0 <= col < w,
        w <= stride,
        (h - 1) * stride + w <= avail,
    ensures
        0 <= row * w + col < w * h,
        0 <= row * stride + col < avail,
        (row * w + col) / w == row,
        (row * w + col) % w == col,
{
    lemma_mul_inequality(row, h - 1, w);
    assert((h - 1) * w == h * w - w && h * w == w * h) by (nonlinear_arith);
    lemma_mul_inequality(row, h - 1, stride);
    assert(0 <= row * stride) by (nonlinear_arith)
        requires
            0 <= row,
            0 <= stride,
    ;
    lemma_fundamental_div_mod_converse_div(row * w + col, w, row, col);
    lemma_fundamental_div_mod_converse_mod(row * w + col, w, row, col);
}

/// Copies one plane of `w` by `h` samples out of a strided buffer, appending
/// to the output row by row.
fn copy_strided_plane(data: &Vec<u8>, stride: usize, w: usize, h: usize, out: &mut Vec<u8>)
    requires
        0 < w,
        0 < h,
        w <= stride,
        (h - 1) * stride + w <= data@.len(),
        w * h <= 0x1000_0000,
    ensures
        final(out)@ == old(out)@ + spec_strided_plane(data@, stride as int, w as int, h as int),
{
    let ghost base = out@;
    let avail = data.len();
    let mut row: usize = 0;
    while row < h
        invariant
            0 < w,
            0 < h,
            w <= stride,
            (h - 1) * stride + w <= avail,
            avail == data@.len(),
            w * h <= 0x1000_0000,
            row <= h,
            out@.len() == base.len() + row * w,
            out@.subrange(0, base.len() as int) == base,
            forall|p: int| 0 <= p < row * w ==> out@[base.len() + p] == spec_strided_plane(
                data@,
                stride as int,
                w as int,
                h as int,
            )[p],
        decreases h - row,
    {
        let mut col: usize = 0;
        proof {
            lemma_mul_inequality(row as int, h - 1, stride as int);
            assert(row * w + w <= h * w && h * w == w * h) by (nonlinear_arith)
                requires
                    0 <= row < h,
                    0 < w,
            ;
        }
        while col < w
            invariant
                0 < w,
                0 < h,
                w <= stride,
                (h - 1) * stride + w <= avail,
                avail == data@.len(),
                w * h <= 0x1000_0000,
                row < h,
                col <= w,
                row * stride <= (h - 1) * stride,
                row * w + w <= w * h,
                out@.len() == base.len() + row * w + col,
                out@.subrange(0, base.len() as int) == base,
                forall|p: int| 0 <= p < row * w + col ==> out@[base.len() + p]
                    == spec_strided_plane(data@, stride as int, w as int, h as int)[p],
            decreases w - col,
        {
            proof {
                lemma_strided_index(
                    stride as int,
                    w as int,
                    h as int,
                    row as int,
                    col as int,
                    avail as int,
                );
            }
            let b = data[row * stride + col];
            out.push(b);
            col += 1;
        }
        proof {
            assert(row * w + w == (row + 1) * w) by (nonlinear_arith);
        }
        row += 1;
    }
    proof {
        assert(h * w == w * h && 0 <= w * h) by (nonlinear_arith)
            requires
                0 < w,
                0 < h,
        ;
        assert(out@ =~= base + spec_strided_plane(data@, stride as int, w as int, h as int));
    }
}

/// Repacks a decoded frame's three strided planes into the contiguous
/// Y-then-U-then-V layout the converters take, drawing the buffer from the
/// pool. Succeeds exactly when the dimensions are valid, each stride covers
/// its plane's row, and each source buffer holds its last row.
pub fn extract_yuv_data_optimized(
    y: &Vec<u8>,
    y_stride: usize,
    u: &Vec<u8>,
    u_stride: usize,
    v: &Vec<u8>,
    v_stride: usize,
    width: u32,
    height: u32,
    pool: &mut FrameDataPool,
) -> (r: Result<Vec<u8>, ConvertError>)
    requires
        old(pool).wf(),
    ensures
        final(pool).wf(),
        r is Ok <==> spec_dims_ok(width, height) && {
            let w = width as int;
            let h = height as int;
            &&& w <= y_stride && (h - 1) * y_stride + w <= y@.len()
            &&& w / 2 <= u_stride && (h / 2 - 1) * u_stride + w / 2 <= u@.len()
            &&& w / 2 <= v_stride && (h / 2 - 1) * v_stride + w / 2 <= v@.len()
        },
        r is Ok ==> r->Ok_0@ == spec_strided_plane(
            y@,
            y_stride as int,
            width as int,
            height as int,
        ) + spec_strided_plane(u@, u_stride as int, width as int / 2, height as int / 2)
            + spec_strided_plane(v@, v_stride as int, width as int / 2, height as int / 2),
        r is Err ==> r->Err_0 == if !spec_dims_ok(width, height) {
            ConvertError::InvalidDimensions
        } else {
            ConvertError::InvalidDataSize
        },
{
    if width == 0 || height == 0 || width > crate::frame::MAX_DIM || height
        > crate::frame::MAX_DIM || width % 2 != 0 || height % 2 != 0 {
        return Err(ConvertError::InvalidDimensions);
    }
    proof {
        assert((width as int) * (height as int) <= 16384 * 16384) by (nonlinear_arith)
            requires
                0 < width <= 16384,
                0 < height <= 16384,
        ;
        lemma_uv_len_halves(width as int, height as int);
        assert((width as int / 2) * (height as int / 2) <= (width as int) * (height as int))
            by (nonlinear_arith)
            requires
                0 < width,
                0 < height,
        ;
    }
    let w = width as usize;
    let h = height as usize;
    let half_w = w / 2;
    let half_h = h / 2;
    // The last row of each plane must sit inside its buffer; the bounds are
    // checked in wide arithmetic so no stride can overflow the check.
    proof {
        assert((h as int - 1) * (y_stride as int) <= 0x4000 * 0xFFFF_FFFF_FFFF_FFFF && 0 <= (
        h as int - 1) * (y_stride as int)) by (nonlinear_arith)
            requires
                0 < h <= 0x4000,
                0 <= y_stride <= 0xFFFF_FFFF_FFFF_FFFF,
        ;
        assert((half_h as int - 1) * (u_stride as int) <= 0x4000 * 0xFFFF_FFFF_FFFF_FFFF && 0 <= (
        half_h as int - 1) * (u_stride as int)) by (nonlinear_arith)
            requires
                0 < half_h <= 0x4000,
                0 <= u_stride <= 0xFFFF_FFFF_FFFF_FFFF,
        ;
        assert((half_h as int - 1) * (v_stride as int) <= 0x4000 * 0xFFFF_FFFF_FFFF_FFFF && 0 <= (
        half_h as int - 1) * (v_stride as int)) by (nonlinear_arith)
            requires
                0 < half_h <= 0x4000,
                0 <= v_stride <= 0xFFFF_FFFF_FFFF_FFFF,
        ;
    }
    let y_needed: u128 = (h as u128 - 1) * (y_stride as u128) + (w as u128);
    let u_needed: u128 = (half_h as u128 - 1) * (u_stride as u128) + (half_w as u128);
    let v_needed: u128 = (half_h as u128 - 1) * (v_stride as u128) + (half_w as u128);
    if y_stride < w || (y.len() as u128) < y_needed {
        return Err(ConvertError::InvalidDataSize);
    }
    if u_stride < half_w || (u.len() as u128) < u_needed {
        return Err(ConvertError::InvalidDataSize);
    }
    if v_stride < half_w || (v.len() as u128) < v_needed {
        return Err(ConvertError::InvalidDataSize);
    }
    let y_len: usize = w * h;
    let total_size: usize = y_len + 2 * (y_len / 4);
    let mut frame_data = pool.get_buffer(total_size);
    copy_strided_plane(y, y_stride, w, h, &mut frame_data);
    copy_strided_plane(u, u_stride, half_w, half_h, &mut frame_data);
    copy_strided_plane(v, v_stride, half_w, half_h, &mut frame_data);
    proof {
        assert(frame_data@ =~= spec_strided_plane(y@, y_stride as int, w as int, h as int)
            + spec_strided_plane(u@, u_stride as int, half_w as int, half_h as int)
            + spec_strided_plane(v@, v_stride as int, half_w as int, half_h as int));
    }
    Ok(frame_data)
}

/// The quarter-resolution plane length equals the halved grid's area.
proof fn lemma_uv_len_halves(w: int, h: int)
    requires
        0 < w,
        0 < h,
        w % 2 == 0,
        h % 2 == 0,
    ensures
        (w * h) / 4 == (h / 2) * (w / 2),
        (w * h) / 4 == (w / 2) * (h / 2),
{
    let wa = w / 2;
    let hb = h / 2;
    assert(w == 2 * wa && h == 2 * hb);
    assert((w * h) / 4 == wa * hb && wa * hb == hb * wa) by (nonlinear_arith)
        requires
            w == 2 * wa,
            h == 2 * hb,
            0 <= wa,
            0 <= hb,
    ;
}

/// The decoder that reads MP4 containers, repacking each decoded RGB image
/// into 4:2:0 planes through a buffer pool.
pub struct Mp4Decoder {
    /// Reusable buffers for the repacked frames.
    pub pool: FrameDataPool,
}

impl Mp4Decoder {
    /// A decoder with a ring of sixteen buffers, each sized for one 4K
    /// 4:2:0 frame.
    pub fn new() -> (r: Self)
        ensures
            r.pool.wf(),
            r.pool.buffers@.len() == 16,
            r.pool.current_index == 0,
    {
        let estimated_frame_size: usize = 3840 * 2160 * 3 / 2;
        Mp4Decoder { pool: FrameDataPool::new(16, estimated_frame_size) }
    }

    /// Repacks one decoded RGB image into the three 4:2:0 planes, drawing
    /// the output buffer from the pool. Succeeds exactly when the
    /// dimensions are valid and the image holds three bytes per pixel.
    pub fn convert_rgb_to_yuv(&mut self, rgb_data: &Vec<u8>, width: u32, height: u32) -> (r: Result<
        Vec<u8>,
        ConvertError,
    >)
        requires
            old(self).pool.wf(),
        ensures
            final(self).pool.wf(),
            r is Ok <==> spec_dims_ok(width, height) && rgb_data@.len() >= 3 * (width as int) * (
            height as int),
            r is Ok ==> r->Ok_0@ == spec_yuv_bytes(rgb_data@, width as int, height as int),
            r is Err ==> r->Err_0 == if !spec_dims_ok(width, height) {
                ConvertError::InvalidDimensions
            } else {
                ConvertError::InvalidDataSize
            },
    {
        if width == 0 || height == 0 || width > crate::frame::MAX_DIM || height
            > crate::frame::MAX_DIM || width % 2 != 0 || height % 2 != 0 {
            return Err(ConvertError::InvalidDimensions);
        }
        proof {
            assert(width * height <= 16384 * 16384 && 3 * ((width as int) * (height as int)) == 3
                * (width as int) * (height as int)) by (nonlinear_arith)
                requires
                    0 < width <= 16384,
                    0 < height <= 16384,
            ;
        }
        let y_len: usize = (width as usize) * (height as usize);
        let total_size: usize = y_len + 2 * (y_len / 4);
        if rgb_data.len() < 3 * y_len {
            return Err(ConvertError::InvalidDataSize);
        }
        let mut yuv_data = self.pool.get_buffer(total_size);
        rgb_to_yuv420_planes(rgb_data, width, height, &mut yuv_data);
        Ok(yuv_data)
    }
}

/// The decoder that reads containers through the OpenCV library.
pub struct OpenCVDecoder {
    /// Reusable buffers for extracted frames.
    pub pool: FrameDataPool,
}

impl OpenCVDecoder {
    /// A decoder with a ring of sixteen buffers, each sized for one 4K
    /// 4:2:0 frame.
    pub fn new() -> (r: Self)
        ensures
            r.pool.wf(),
            r.pool.buffers@.len() == 16,
            r.pool.current_index == 0,
    {
        let estimated_frame_size: usize = 3840 * 2160 * 3 / 2;
        OpenCVDecoder { pool: FrameDataPool::new(16, estimated_frame_size) }
    }
}

} // verus!
