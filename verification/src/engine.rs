//! The batched conversion engine's resource model: the device buffer-size
//! budget, splitting of oversized batches, buffer reuse across batches, and
//! the host-side packing and unpacking around the device kernel.
//!
//! The device itself (adapter, queue, kernel dispatch, readback) lives
//! outside the verified library; everything the engine decides — how a batch
//! is split, when buffers are reallocated, what bytes are uploaded and how
//! the readback is unpacked — is verified here.

use vstd::prelude::*;
use vstd::arithmetic::div_mod::{
    lemma_fundamental_div_mod_converse_div, lemma_fundamental_div_mod_converse_mod,
};
use crate::frame::{
    spec_dims_ok, spec_frame_convertible, spec_frame_error, spec_y_len, spec_uv_len, ConvertError,
    FrameData, RgbFrame,
};
use crate::convert::{spec_frame_rgb, yuv420_planes_to_rgb};

verus! {

/// One frame as buffered for batch conversion: the planes and their shape,
/// without the stream bookkeeping.
#[derive(Clone, Debug)]
pub struct BatchFrameData {
    pub width: u32,
    pub height: u32,
    pub data: Vec<u8>,
}

impl From<FrameData> for BatchFrameData {
    fn from(frame_data: FrameData) -> (r: Self) {
        BatchFrameData {
            width: frame_data.width,
            height: frame_data.height,
            data: frame_data.data,
        }
    }
}

impl vstd::std_specs::convert::FromSpecImpl<FrameData> for BatchFrameData {
    open spec fn obeys_from_spec() -> bool {
        true
    }

    open spec fn from_spec(frame_data: FrameData) -> Self {
        BatchFrameData {
            width: frame_data.width,
            height: frame_data.height,
            data: frame_data.data,
        }
    }
}

/// The sizes, in bytes, of the five device buffers backing one batch shape:
/// the three input planes (padded to the four-byte element alignment), and
/// the RGBA output buffer, which the host-readable staging copy mirrors.
#[derive(Clone, Copy, Debug, PartialEq, Eq, Structural)]
pub struct DeviceBufferSizes {
    pub y_bytes: u64,
    pub uv_bytes: u64,
    pub rgba_bytes: u64,
}

/// Default device buffer-size ceiling: 128 MiB.
pub const DEFAULT_BUFFER_LIMIT: u64 = 134217728;

/// Default safety factor, as a fraction: nine tenths of the ceiling, leaving
/// headroom for the input planes and the parameter buffer.
pub const DEFAULT_SAFETY_NUM: u64 = 9;

/// Denominator of the default safety factor.
pub const DEFAULT_SAFETY_DEN: u64 = 10;

/// `n` rounded up to the next multiple of four.
pub open spec fn spec_pad4(n: int) -> int {
    n + ((4 - n % 4) % 4)
}

/// Rounds a byte count up to the four-byte device element alignment.
pub fn pad_size(size: u64) -> (r: u64)
    requires
        size <= 0x1000_0000_0000_0000,
    ensures
        r == spec_pad4(size as int),
        r % 4 == 0,
        size <= r < size + 4,
{
    let rem = size % 4;
    if rem == 0 {
        size
    } else {
        size + (4 - rem)
    }
}

/// The engine's resource state: the configured budget and the shape of the
/// device buffers currently allocated, if any. The device handles themselves
/// are owned by the caller that performs the device work; this state decides
/// when they must be recreated.
pub struct GpuImageProcessor {
    /// Hard ceiling on any single device buffer, in bytes.
    pub buffer_limit: u64,
    /// Numerator of the safety factor applied to the frame budget.
    pub safety_num: u64,
    /// Denominator of the safety factor.
    pub safety_den: u64,
    /// The (width, height) the cached buffers were sized for, if allocated.
    pub cached_size: Option<(u32, u32)>,
    /// The batch size the cached buffers can hold.
    pub capacity: usize,
    /// How many times buffers have been (re)allocated over this engine's life.
    pub alloc_count: u64,
}

impl GpuImageProcessor {
    /// Configuration sanity: a positive ceiling no larger than one GiB (so
    /// every derived byte count fits comfortably in a machine word) and a
    /// safety factor that is a fraction of at most one.
    pub open spec fn wf(self) -> bool {
        &&& 0 < self.buffer_limit <= 0x4000_0000
        &&& 0 < self.safety_den <= 1000
        &&& self.safety_num <= self.safety_den
    }

    /// A fresh engine with the default budget and nothing allocated.
    pub fn new() -> (r: Self)
        ensures
            r.wf(),
            r.buffer_limit == DEFAULT_BUFFER_LIMIT,
            r.safety_num == DEFAULT_SAFETY_NUM,
            r.safety_den == DEFAULT_SAFETY_DEN,
            r.cached_size is None,
            r.capacity == 0,
            r.alloc_count == 0,
    {
        GpuImageProcessor {
            buffer_limit: DEFAULT_BUFFER_LIMIT,
            safety_num: DEFAULT_SAFETY_NUM,
            safety_den: DEFAULT_SAFETY_DEN,
            cached_size: None,
            capacity: 0,
            alloc_count: 0,
        }
    }

    /// A fresh engine with an explicit budget and safety factor. The bounds
    /// keep all derived byte counts within machine limits.
    pub fn with_config(buffer_limit: u64, safety_num: u64, safety_den: u64) -> (r: Self)
        requires
            0 < buffer_limit <= 0x4000_0000,
            0 < safety_den <= 1000,
            safety_num <= safety_den,
        ensures
            r.wf(),
            r.buffer_limit == buffer_limit,
            r.safety_num == safety_num,
            r.safety_den == safety_den,
            r.cached_size is None,
            r.capacity == 0,
            r.alloc_count == 0,
    {
        GpuImageProcessor {
            buffer_limit,
            safety_num,
            safety_den,
            cached_size: None,
            capacity: 0,
            alloc_count: 0,
        }
    }

    /// The most frames one device submission may hold for this resolution:
    /// the ceiling divided by the per-frame RGBA output footprint, scaled
    /// down by the safety factor.
    pub open spec fn spec_max_single_batch(self, width: u32, height: u32) -> int {
        ((self.buffer_limit as int) / (4 * width * height)) * (self.safety_num as int)
            / (self.safety_den as int)
    }

    /// Computes the largest single-submission batch for a resolution.
    pub fn max_single_batch(&self, width: u32, height: u32) -> (r: usize)
        requires
            self.wf(),
            spec_dims_ok(width, height),
        ensures
            r == self.spec_max_single_batch(width, height),
            r <= self.buffer_limit,
    {
        proof {
            assert(4 * (width as int) * (height as int) <= 0x4_0000_0000 && 0 < 4 * (width as int) * (height as int))
                by (nonlinear_arith)
                requires
                    0 < width <= 16384,
                    0 < height <= 16384,
            ;
        }
        let per_frame: u64 = 4u64 * (width as u64) * (height as u64);
        let budget: u64 = self.buffer_limit / per_frame;
        proof {
            assert(budget <= self.buffer_limit);
            assert((budget as int) * (self.safety_num as int) <= 0x4000_0000 * 1000)
                by (nonlinear_arith)
                requires
                    budget <= 0x4000_0000,
                    self.safety_num <= 1000,
            ;
            assert((budget as int) * (self.safety_num as int) / (self.safety_den as int) <= budget)
                by (nonlinear_arith)
                requires
                    self.safety_num <= self.safety_den,
                    0 < self.safety_den,
                    0 <= budget,
            ;
        }
        let scaled: u64 = budget * self.safety_num / self.safety_den;
        scaled as usize
    }

    /// Whether the buffers currently allocated can serve a batch of this
    /// shape without reallocation.
    pub open spec fn spec_buffers_fit(self, batch_size: int, width: u32, height: u32) -> bool {
        &&& self.capacity >= batch_size
        &&& self.cached_size == Some((width, height))
    }

    /// The padded byte sizes of the device buffers for a batch shape.
    pub open spec fn spec_buffer_sizes(batch_size: int, width: u32, height: u32) -> DeviceBufferSizes {
        DeviceBufferSizes {
            y_bytes: spec_pad4(batch_size * spec_y_len(width as int, height as int)) as u64,
            uv_bytes: spec_pad4(batch_size * spec_uv_len(width as int, height as int)) as u64,
            rgba_bytes: (batch_size * 4 * spec_y_len(width as int, height as int)) as u64,
        }
    }

    /// Decides whether the cached device buffers fit a batch of the given
    /// shape. When they do, nothing changes and nothing is returned; when
    /// they do not, the cached shape is replaced, the allocation counter
    /// advances by one, and the byte sizes the caller must allocate are
    /// returned.
    pub fn ensure_buffers(&mut self, batch_size: usize, width: u32, height: u32) -> (r: Option<
        DeviceBufferSizes,
    >)
        requires
            old(self).wf(),
            spec_dims_ok(width, height),
            0 < batch_size,
            batch_size <= old(self).spec_max_single_batch(width, height),
            old(self).spec_buffers_fit(batch_size as int, width, height) || old(self).alloc_count
                < u64::MAX,
        ensures
            final(self).buffer_limit == old(self).buffer_limit,
            final(self).safety_num == old(self).safety_num,
            final(self).safety_den == old(self).safety_den,
            old(self).spec_buffers_fit(batch_size as int, width, height) ==> {
                &&& *final(self) == *old(self)
                &&& r is None
            },
            !old(self).spec_buffers_fit(batch_size as int, width, height) ==> {
                &&& final(self).capacity == batch_size
                &&& final(self).cached_size == Some((width, height))
                &&& final(self).alloc_count == old(self).alloc_count + 1
                &&& r == Some(Self::spec_buffer_sizes(batch_size as int, width, height))
            },
            final(self).spec_buffers_fit(batch_size as int, width, height),
    {
        let fits = match self.cached_size {
            Some((cw, ch)) => self.capacity >= batch_size && cw == width && ch == height,
            None => false,
        };
        if fits {
            return None;
        }
        proof {
            lemma_batch_bytes_bounds(*self, batch_size as int, width, height);
            lemma_uv_quarter(width as int, height as int, batch_size as int);
            assert((batch_size as int) * (width as int) <= (batch_size as int) * (width as int) * (
            height as int)) by (nonlinear_arith)
                requires
                    0 < height,
                    0 <= batch_size,
                    0 <= width,
            ;
        }
        let y_total: u64 = (batch_size as u64) * (width as u64) * (height as u64);
        let uv_total: u64 = y_total / 4;
        let sizes = DeviceBufferSizes {
            y_bytes: pad_size(y_total),
            uv_bytes: pad_size(uv_total),
            rgba_bytes: 4 * y_total,
        };
        self.capacity = batch_size;
        self.cached_size = Some((width, height));
        self.alloc_count = self.alloc_count + 1;
        proof {
            assert(4 * ((batch_size as int) * ((width as int) * (height as int))) == (
            batch_size as int) * 4 * ((width as int) * (height as int))) by (nonlinear_arith);
        }
        Some(sizes)
    }
}

/// Sizes of the consecutive sub-batches an oversized batch is split into:
/// full sub-batches of `max` frames, with whatever remains at the end.
pub open spec fn spec_split_sizes(total: int, max: int) -> Seq<int>
    decreases total,
{
    if total <= 0 || max <= 0 {
        Seq::empty()
    } else if total <= max {
        seq![total]
    } else {
        seq![max] + spec_split_sizes(total - max, max)
    }
}

/// Sum of a sequence of sizes.
pub open spec fn spec_sum(s: Seq<int>) -> int
    decreases s.len(),
{
    if s.len() == 0 {
        0
    } else {
        s[0] + spec_sum(s.subrange(1, s.len() as int))
    }
}

/// Splitting covers the batch exactly: the sub-batch sizes add up to the
/// total, every sub-batch is within the budget, all but the last are full,
/// and there are exactly ceiling(total / max) of them.
pub proof fn lemma_split_sizes(total: int, max: int)
    requires
        0 < max,
        0 <= total,
    ensures
        spec_sum(spec_split_sizes(total, max)) == total,
        forall|i: int| 0 <= i < spec_split_sizes(total, max).len() ==> 0 < #[trigger] spec_split_sizes(
            total,
            max,
        )[i] <= max,
        forall|i: int| 0 <= i < spec_split_sizes(total, max).len() - 1 ==> #[trigger] spec_split_sizes(
            total,
            max,
        )[i] == max,
        total > 0 ==> spec_split_sizes(total, max).len() == (total + max - 1) / max,
        total == 0 ==> spec_split_sizes(total, max).len() == 0,
    decreases total,
{
    let s = spec_split_sizes(total, max);
    if total <= 0 {
        assert(s =~= Seq::<int>::empty());
    } else if total <= max {
        assert(s =~= seq![total]);
        assert(s.subrange(1, 1) =~= Seq::<int>::empty());
        assert(spec_sum(Seq::<int>::empty()) == 0);
        assert(spec_sum(s) == total);
        assert((total + max - 1) / max == 1) by (nonlinear_arith)
            requires
                0 < total <= max,
                0 < max,
        ;
    } else {
        lemma_split_sizes(total - max, max);
        let rest = spec_split_sizes(total - max, max);
        assert(s == seq![max] + rest);
        assert(s.subrange(1, s.len() as int) =~= rest);
        assert(spec_sum(s) == max + spec_sum(rest));
        assert forall|i: int| 0 <= i < s.len() implies 0 < #[trigger] s[i] <= max by {
            if i >= 1 {
                assert(s[i] == rest[i - 1]);
            }
        }
        assert forall|i: int| 0 <= i < s.len() - 1 implies #[trigger] s[i] == max by {
            if i >= 1 {
                assert(s[i] == rest[i - 1]);
            }
        }
        assert((total + max - 1) / max == (total - max + max - 1) / max + 1) by (nonlinear_arith)
            requires
                0 < max,
                total > max,
        ;
    }
}

/// Computes the sub-batch sizes for a batch of `total` frames under a
/// per-submission budget of `max` frames.
pub fn split_batch_sizes(total: usize, max: usize) -> (r: Vec<usize>)
    requires
        0 < max,
    ensures
        r@.map_values(|x: usize| x as int) == spec_split_sizes(total as int, max as int),
{
    let mut r: Vec<usize> = Vec::new();
    let mut remaining: usize = total;
    while remaining > max
        invariant
            0 < max,
            remaining <= total,
            r@.map_values(|x: usize| x as int) + spec_split_sizes(remaining as int, max as int)
                =~= spec_split_sizes(total as int, max as int),
        decreases remaining,
    {
        let ghost before = r@;
        r.push(max);
        remaining = remaining - max;
        proof {
            assert(r@.map_values(|x: usize| x as int) =~= before.map_values(|x: usize| x as int)
                + seq![max as int]);
            assert(seq![max as int] + spec_split_sizes(remaining as int, max as int)
                =~= spec_split_sizes(remaining as int + max as int, max as int));
            assert(r@.map_values(|x: usize| x as int) + spec_split_sizes(
                remaining as int,
                max as int,
            ) =~= spec_split_sizes(total as int, max as int));
        }
    }
    if remaining > 0 {
        let ghost before = r@;
        r.push(remaining);
        proof {
            assert(spec_split_sizes(remaining as int, max as int) =~= seq![remaining as int]);
            assert(r@.map_values(|x: usize| x as int) =~= before.map_values(|x: usize| x as int)
                + seq![remaining as int]);
        }
    }
    proof {
        assert(r@.map_values(|x: usize| x as int) =~= spec_split_sizes(total as int, max as int));
    }
    r
}

/// The dispatch grid for one sub-batch: the two spatial axes are tiled
/// sixteen by sixteen, the third axis indexes the frame within the batch.
pub fn workgroup_counts(width: u32, height: u32, batch_size: usize) -> (r: (u32, u32, u32))
    requires
        spec_dims_ok(width, height),
        batch_size <= u32::MAX,
    ensures
        r.0 == ((width + 15) / 16) as u32,
        r.1 == ((height + 15) / 16) as u32,
        r.2 == batch_size as u32,
{
    ((width + 15) / 16, (height + 15) / 16, batch_size as u32)
}

/// Even dimensions make the pixel count a multiple of four, so the chroma
/// plane length distributes over a batch.
proof fn lemma_uv_quarter(w: int, h: int, n: int)
    requires
        0 < w,
        0 < h,
        w % 2 == 0,
        h % 2 == 0,
        0 <= n,
    ensures
        (w * h) % 4 == 0,
        n * ((w * h) / 4) == (n * (w * h)) / 4,
        n * w * h == n * (w * h),
{
    let wa = w / 2;
    let hb = h / 2;
    assert(w == 2 * wa && h == 2 * hb);
    assert(w * h == 4 * (wa * hb) && (w * h) / 4 == wa * hb) by (nonlinear_arith)
        requires
            w == 2 * wa,
            h == 2 * hb,
            0 <= wa,
            0 <= hb,
    ;
    assert(n * (w * h) == 4 * (n * (wa * hb))) by (nonlinear_arith)
        requires
            w * h == 4 * (wa * hb),
    ;
    vstd::arithmetic::div_mod::lemma_div_multiples_vanish(n * (wa * hb), 4);
    assert(n * ((w * h) / 4) == n * (wa * hb)) by (nonlinear_arith)
        requires
            (w * h) / 4 == wa * hb,
    ;
    assert((w * h) % 4 == 0) by (nonlinear_arith)
        requires
            w * h == 4 * (wa * hb),
    ;
    assert(n * w * h == n * (w * h)) by (nonlinear_arith);
}

/// For a batch within the engine's budget, every derived byte count stays
/// far inside a 64-bit word, and the whole batch's luma bytes stay within
/// the configured ceiling.
proof fn lemma_batch_bytes_bounds(s: GpuImageProcessor, batch_size: int, width: u32, height: u32)
    requires
        s.wf(),
        spec_dims_ok(width, height),
        0 < batch_size,
        batch_size <= s.spec_max_single_batch(width, height),
    ensures
        batch_size * (width as int) * (height as int) <= 0x1000_0000,
        batch_size * 4 * ((width as int) * (height as int)) <= 0x4000_0000,
        batch_size * ((width as int) * (height as int)) <= 0x1000_0000,
        batch_size <= 0x4000_0000,
{
    let w = width as int;
    let h = height as int;
    let per = 4 * w * h;
    let budget = (s.buffer_limit as int) / per;
    assert(0 < per <= 0x4_0000_0000) by (nonlinear_arith)
        requires
            per == 4 * w * h,
            0 < w <= 16384,
            0 < h <= 16384,
    ;
    assert(0 <= budget <= s.buffer_limit) by (nonlinear_arith)
        requires
            budget == (s.buffer_limit as int) / per,
            0 < per,
            0 < s.buffer_limit,
    ;
    // The safety factor only shrinks the budget.
    assert(budget * (s.safety_num as int) / (s.safety_den as int) <= budget) by (nonlinear_arith)
        requires
            s.safety_num <= s.safety_den,
            0 < s.safety_den,
            0 <= budget,
    ;
    assert(batch_size <= budget);
    // A budget's worth of frames fits under the ceiling.
    assert(budget * per <= s.buffer_limit) by (nonlinear_arith)
        requires
            budget == (s.buffer_limit as int) / per,
            0 < per,
            0 <= s.buffer_limit,
    ;
    assert(batch_size * per <= budget * per) by (nonlinear_arith)
        requires
            batch_size <= budget,
            0 < per,
    ;
    assert(batch_size * 4 * (w * h) == batch_size * per && batch_size * w * h == batch_size * (w
        * h) && 4 * (batch_size * (w * h)) == batch_size * per) by (nonlinear_arith)
        requires
            per == 4 * w * h,
    ;
    assert(batch_size * (w * h) <= 0x1000_0000) by (nonlinear_arith)
        requires
            4 * (batch_size * (w * h)) <= 0x4000_0000,
    ;
}

/// Recovering the pixel and channel from a byte index of a three-byte-per-
/// pixel buffer.
proof fn lemma_triple_index(p: int, c: int)
    requires
        0 <= p,
        0 <= c < 3,
    ensures
        (3 * p + c) / 3 == p,
        (3 * p + c) % 3 == c,
{
    lemma_fundamental_div_mod_converse_div(3 * p + c, 3, p, c);
    lemma_fundamental_div_mod_converse_mod(3 * p + c, 3, p, c);
}

/// A byte sequence padded with zeros to the next multiple of four.
pub open spec fn spec_pad4_bytes(s: Seq<u8>) -> Seq<u8> {
    s + Seq::new((spec_pad4(s.len() as int) - s.len()) as nat, |i: int| 0u8)
}

/// Copies the data and pads it with zero bytes to the four-byte device
/// element alignment. The pad bytes are never read by the kernel, which
/// indexes by the explicit plane sizes it receives as parameters.
pub fn pad_data(data: &Vec<u8>) -> (r: Vec<u8>)
    ensures
        r@ == spec_pad4_bytes(data@),
        r@.len() == spec_pad4(data@.len() as int),
        r@.len() % 4 == 0,
{
    let mut r: Vec<u8> = Vec::new();
    r.extend_from_slice(data.as_slice());
    while r.len() % 4 != 0
        invariant
            data@.len() <= r@.len() <= spec_pad4(data@.len() as int),
            r@.subrange(0, data@.len() as int) == data@,
            forall|i: int| data@.len() <= i < r@.len() ==> r@[i] == 0u8,
        decreases spec_pad4(data@.len() as int) - r@.len(),
    {
        r.push(0u8);
    }
    proof {
        assert(r@ =~= spec_pad4_bytes(data@));
    }
    r
}

/// The bytes of one plane of each of `count` frames, starting at frame
/// `start`, concatenated in frame order. Each frame contributes the `len`
/// bytes found at `off` in its data.
pub open spec fn spec_concat_plane(
    frames: Seq<FrameData>,
    start: int,
    count: int,
    off: int,
    len: int,
) -> Seq<u8>
    decreases count,
{
    if count <= 0 {
        Seq::empty()
    } else {
        spec_concat_plane(frames, start, count - 1, off, len) + frames[start + count - 1].data@
            .subrange(off, off + len)
    }
}

/// Concatenates one plane of `count` frames into a flat buffer.
fn concat_plane(frames: &Vec<FrameData>, start: usize, count: usize, off: usize, len: usize) -> (r:
    Vec<u8>)
    requires
        start + count <= frames@.len(),
        forall|i: int| start <= i < start + count ==> off + len <= #[trigger] frames@[i].data@.len(),
        count * len <= 0x4000_0000,
    ensures
        r@ == spec_concat_plane(frames@, start as int, count as int, off as int, len as int),
{
    let n = frames.len();
    let mut r: Vec<u8> = Vec::new();
    let mut i: usize = 0;
    while i < count
        invariant
            n == frames@.len(),
            start + count <= n,
            forall|k: int| start <= k < start + count ==> off + len <= #[trigger] frames@[k].data@.len(),
            i <= count,
            r@ == spec_concat_plane(frames@, start as int, i as int, off as int, len as int),
        decreases count - i,
    {
        let f = &frames[start + i];
        let avail = f.data.len();
        let mut j: usize = 0;
        while j < len
            invariant
                start + i < frames@.len(),
                f == frames@[start + i as int],
                off + len <= avail,
                avail == f.data@.len(),
                j <= len,
                r@ == spec_concat_plane(frames@, start as int, i as int, off as int, len as int)
                    + f.data@.subrange(off as int, off + j as int),
            decreases len - j,
        {
            let b = f.data[off + j];
            r.push(b);
            proof {
                assert(f.data@.subrange(off as int, off + j as int).push(b) =~= f.data@.subrange(
                    off as int,
                    off + j + 1 as int,
                ));
                assert(r@ =~= spec_concat_plane(frames@, start as int, i as int, off as int, len as int)
                    + f.data@.subrange(off as int, off + j + 1 as int));
            }
            j += 1;
        }
        proof {
            assert(r@ =~= spec_concat_plane(
                frames@,
                start as int,
                i + 1 as int,
                off as int,
                len as int,
            ));
        }
        i += 1;
    }
    proof {
        assert(r@ =~= spec_concat_plane(frames@, start as int, i as int, off as int, len as int));
    }
    r
}

/// The flat host buffers uploaded for one sub-batch, with the uniform
/// parameters the kernel receives: all frames' luma planes concatenated,
/// then all U planes, then all V planes, each padded to the four-byte
/// element alignment.
pub struct PackedBatch {
    pub y_data: Vec<u8>,
    pub u_data: Vec<u8>,
    pub v_data: Vec<u8>,
    pub width: u32,
    pub height: u32,
    pub batch_size: usize,
    /// Total unpadded luma bytes across the sub-batch, as the kernel sees it.
    pub y_total: u32,
    /// Total unpadded bytes of each chroma plane across the sub-batch.
    pub uv_total: u32,
}

/// Packs the frames `start .. start + count` for upload: per-plane
/// concatenation in frame order, padded to the device element alignment.
pub fn pack_sub_batch(frames: &Vec<FrameData>, start: usize, count: usize, width: u32, height: u32)
    -> (r: PackedBatch)
    requires
        spec_dims_ok(width, height),
        0 < count,
        start + count <= frames@.len(),
        forall|i: int| start <= i < start + count ==> {
            &&& (#[trigger] frames@[i]).width == width
            &&& frames@[i].height == height
            &&& spec_frame_convertible(frames@[i])
        },
        count * spec_y_len(width as int, height as int) <= 0x4000_0000,
    ensures
        r.y_data@ == spec_pad4_bytes(spec_concat_plane(
            frames@,
            start as int,
            count as int,
            0,
            spec_y_len(width as int, height as int),
        )),
        r.u_data@ == spec_pad4_bytes(spec_concat_plane(
            frames@,
            start as int,
            count as int,
            spec_y_len(width as int, height as int),
            spec_uv_len(width as int, height as int),
        )),
        r.v_data@ == spec_pad4_bytes(spec_concat_plane(
            frames@,
            start as int,
            count as int,
            spec_y_len(width as int, height as int) + spec_uv_len(width as int, height as int),
            spec_uv_len(width as int, height as int),
        )),
        r.width == width,
        r.height == height,
        r.batch_size == count,
        r.y_total == count * spec_y_len(width as int, height as int),
        r.uv_total == count * spec_uv_len(width as int, height as int),
{
    proof {
        assert((width as int) * (height as int) <= 16384 * 16384) by (nonlinear_arith)
            requires
                0 < width <= 16384,
                0 < height <= 16384,
        ;
        lemma_uv_quarter(width as int, height as int, count as int);
        assert((count as int) * (((width as int) * (height as int)) / 4) <= (count as int) * ((
        width as int) * (height as int))) by (nonlinear_arith)
            requires
                0 <= count,
                0 <= (width as int) * (height as int),
        ;
    }
    let y_len: usize = (width as usize) * (height as usize);
    let uv_len: usize = y_len / 4;
    let y_concat = concat_plane(frames, start, count, 0, y_len);
    let u_concat = concat_plane(frames, start, count, y_len, uv_len);
    let v_concat = concat_plane(frames, start, count, y_len + uv_len, uv_len);
    let y_data = pad_data(&y_concat);
    let u_data = pad_data(&u_concat);
    let v_data = pad_data(&v_concat);
    let y_total: u32 = ((count * y_len) as u64) as u32;
    let uv_total: u32 = ((count * uv_len) as u64) as u32;
    proof {
        assert(count * y_len as int <= 0x4000_0000);
    }
    PackedBatch { y_data, u_data, v_data, width, height, batch_size: count, y_total, uv_total }
}

/// The RGB bytes of frame `f` of an unpacked readback buffer: the staging
/// buffer holds one four-byte RGBA word per pixel, little-endian, frame
/// after frame; unpacking keeps the first three bytes of each word and
/// drops the alpha byte.
pub open spec fn spec_unpacked_frame(data: Seq<u8>, width: u32, height: u32, f: int) -> Seq<u8> {
    Seq::new((3 * (width as int) * (height as int)) as nat, |k: int|
        data[4 * (f * spec_y_len(width as int, height as int)) + 4 * (k / 3) + (k % 3)])
}

/// Unpacks the staging buffer read back from the device into one RGB frame
/// per batched input frame, in batch order. Succeeds exactly when the
/// buffer holds one RGBA word per pixel of every frame.
pub fn unpack_rgba_batch(data: &Vec<u8>, count: usize, width: u32, height: u32) -> (r: Result<
    Vec<RgbFrame>,
    ConvertError,
>)
    requires
        spec_dims_ok(width, height),
        count * 4 * spec_y_len(width as int, height as int) <= 0x4000_0000,
    ensures
        r is Ok <==> data@.len() == count * 4 * spec_y_len(width as int, height as int),
        r is Err ==> r->Err_0 == ConvertError::InvalidReadbackSize,
        r is Ok ==> {
            &&& r->Ok_0@.len() == count
            &&& forall|f: int| 0 <= f < count ==> {
                &&& (#[trigger] r->Ok_0@[f]).width == width
                &&& r->Ok_0@[f].height == height
                &&& r->Ok_0@[f].data@ == spec_unpacked_frame(data@, width, height, f)
            }
        },
{
    proof {
        assert((width as int) * (height as int) <= 16384 * 16384 && 0 < (width as int) * (
        height as int)) by (nonlinear_arith)
            requires
                0 < width <= 16384,
                0 < height <= 16384,
        ;
        assert((count as int) * 4 * ((width as int) * (height as int)) == (count as int) * (4 * ((
        width as int) * (height as int)))) by (nonlinear_arith);
        assert((count as int) <= (count as int) * 4 * ((width as int) * (height as int)))
            by (nonlinear_arith)
            requires
                0 < (width as int) * (height as int),
                0 <= count,
        ;
    }
    let y_len: usize = (width as usize) * (height as usize);
    let rgba_frame: usize = 4 * y_len;
    let expected: usize = count * rgba_frame;
    if data.len() != expected {
        return Err(ConvertError::InvalidReadbackSize);
    }
    let mut results: Vec<RgbFrame> = Vec::new();
    let mut f: usize = 0;
    while f < count
        invariant
            y_len == spec_y_len(width as int, height as int),
            rgba_frame == 4 * y_len,
            expected == count * rgba_frame,
            data@.len() == expected,
            spec_dims_ok(width, height),
            f <= count,
            results@.len() == f,
            forall|g: int| 0 <= g < f ==> {
                &&& (#[trigger] results@[g]).width == width
                &&& results@[g].height == height
                &&& results@[g].data@ == spec_unpacked_frame(data@, width, height, g)
            },
        decreases count - f,
    {
        proof {
            assert((f as int) * (4 * y_len as int) + 4 * y_len as int <= (count as int) * (4
                * y_len as int)) by (nonlinear_arith)
                requires
                    0 <= f < count,
                    0 <= y_len,
            ;
            assert((f as int) * (4 * y_len as int) == 4 * ((f as int) * (y_len as int)))
                by (nonlinear_arith);
        }
        let base: usize = f * rgba_frame;
        let mut rgb: Vec<u8> = Vec::new();
        let mut p: usize = 0;
        while p < y_len
            invariant
                y_len == spec_y_len(width as int, height as int),
                rgba_frame == 4 * y_len,
                expected == count * rgba_frame,
                data@.len() == expected,
                0 <= f < count,
                base == f * rgba_frame,
                base as int == 4 * ((f as int) * (y_len as int)),
                base + rgba_frame <= data@.len(),
                p <= y_len,
                rgb@.len() == 3 * p,
                forall|k: int| 0 <= k < rgb@.len() ==> rgb@[k] == data@[base + 4 * (k / 3) + (k
                    % 3)],
            decreases y_len - p,
        {
            let word_off: usize = base + 4 * p;
            let b0 = data[word_off];
            let b1 = data[word_off + 1];
            let b2 = data[word_off + 2];
            rgb.push(b0);
            rgb.push(b1);
            rgb.push(b2);
            proof {
                lemma_triple_index(p as int, 0);
                lemma_triple_index(p as int, 1);
                lemma_triple_index(p as int, 2);
            }
            p += 1;
        }
        let frame = RgbFrame { width, height, data: rgb };
        results.push(frame);
        proof {
            assert(3 * ((width as int) * (height as int)) == 3 * (width as int) * (height as int))
                by (nonlinear_arith);
            assert(results@[f as int].data@ =~= spec_unpacked_frame(data@, width, height, f as int));
        }
        f += 1;
    }
    Ok(results)
}

/// The first error a scan of a batch reports, in frame order: a frame whose
/// resolution differs from the batch's, or a frame no converter accepts.
pub open spec fn spec_batch_scan(
    frames: Seq<FrameData>,
    width: u32,
    height: u32,
    i: int,
) -> Option<ConvertError>
    decreases frames.len() - i,
{
    if i < 0 || i >= frames.len() {
        None
    } else if frames[i].width != width || frames[i].height != height {
        Some(ConvertError::MixedResolutions)
    } else if !spec_frame_convertible(frames[i]) {
        Some(spec_frame_error(frames[i]))
    } else {
        spec_batch_scan(frames, width, height, i + 1)
    }
}

/// The size of the first sub-batch a batch of `total` frames is split into.
pub open spec fn spec_first_sub_batch(total: int, max: int) -> int {
    if total <= max {
        total
    } else {
        max
    }
}

impl GpuImageProcessor {
    /// Converts a whole batch on the host by the reference transform,
    /// with exactly the batching, splitting and buffer bookkeeping of the
    /// device path: the batch is validated as one, split against the budget,
    /// and each sub-batch passes through the buffer cache before its frames
    /// are converted, in order.
    ///
    /// An empty batch yields an empty result. A batch whose single-frame
    /// output exceeds the budget is refused whole. On any error the engine
    /// state is untouched; on success the buffers are reallocated at most
    /// once, and not at all if the cached shape already fits.
    pub fn convert_batch_host(&mut self, frames: &Vec<FrameData>) -> (r: Result<
        Vec<RgbFrame>,
        ConvertError,
    >)
        requires
            old(self).wf(),
            old(self).alloc_count < u64::MAX,
        ensures
            final(self).buffer_limit == old(self).buffer_limit,
            final(self).safety_num == old(self).safety_num,
            final(self).safety_den == old(self).safety_den,
            frames@.len() == 0 ==> r is Ok && r->Ok_0@.len() == 0 && *final(self) == *old(self),
            r is Err ==> *final(self) == *old(self),
            frames@.len() > 0 ==> {
                let width = frames@[0].width;
                let height = frames@[0].height;
                let scan = spec_batch_scan(frames@, width, height, 0);
                &&& (r is Ok <==> scan is None && old(self).spec_max_single_batch(width, height)
                    > 0)
                &&& (r is Err ==> r->Err_0 == if scan is Some {
                    scan->Some_0
                } else {
                    ConvertError::FrameTooLarge
                })
            },
            r is Ok ==> {
                &&& r->Ok_0@.len() == frames@.len()
                &&& forall|i: int| 0 <= i < frames@.len() ==> {
                    &&& (#[trigger] r->Ok_0@[i]).width == frames@[i].width
                    &&& r->Ok_0@[i].height == frames@[i].height
                    &&& r->Ok_0@[i].data@ == spec_frame_rgb(frames@[i])
                }
            },
            r is Ok && frames@.len() > 0 ==> {
                let width = frames@[0].width;
                let height = frames@[0].height;
                let s1 = spec_first_sub_batch(
                    frames@.len() as int,
                    old(self).spec_max_single_batch(width, height),
                );
                if old(self).spec_buffers_fit(s1, width, height) {
                    *final(self) == *old(self)
                } else {
                    &&& final(self).capacity == s1
                    &&& final(self).cached_size == Some((width, height))
                    &&& final(self).alloc_count == old(self).alloc_count + 1
                }
            },
    {
        if frames.len() == 0 {
            return Ok(Vec::new());
        }
        let width = frames[0].width;
        let height = frames[0].height;
        let total = frames.len();
        let mut i: usize = 0;
        while i < total
            invariant
                total == frames@.len(),
                0 < total,
                width == frames@[0].width,
                height == frames@[0].height,
                i <= total,
                spec_batch_scan(frames@, width, height, 0) == spec_batch_scan(
                    frames@,
                    width,
                    height,
                    i as int,
                ),
                forall|j: int| 0 <= j < i ==> {
                    &&& (#[trigger] frames@[j]).width == width
                    &&& frames@[j].height == height
                    &&& spec_frame_convertible(frames@[j])
                },
            decreases total - i,
        {
            let f = &frames[i];
            if f.width != width || f.height != height {
                return Err(ConvertError::MixedResolutions);
            }
            match crate::frame::validate_frame(f) {
                Ok(()) => {},
                Err(e) => {
                    return Err(e);
                },
            }
            i += 1;
        }
        let max_single = self.max_single_batch(width, height);
        if max_single == 0 {
            return Err(ConvertError::FrameTooLarge);
        }
        let ghost s1 = spec_first_sub_batch(total as int, max_single as int);
        let ghost fit0 = old(self).spec_buffers_fit(s1, width, height);
        let ghost start_state = *old(self);
        let mut results: Vec<RgbFrame> = Vec::new();
        let mut start: usize = 0;
        while start < total
            invariant
                total == frames@.len(),
                0 < total,
                width == frames@[0].width,
                height == frames@[0].height,
                spec_dims_ok(width, height),
                forall|j: int| 0 <= j < total ==> {
                    &&& (#[trigger] frames@[j]).width == width
                    &&& frames@[j].height == height
                    &&& spec_frame_convertible(frames@[j])
                },
                self.wf(),
                self.buffer_limit == start_state.buffer_limit,
                self.safety_num == start_state.safety_num,
                self.safety_den == start_state.safety_den,
                start_state.alloc_count < u64::MAX,
                0 < max_single == start_state.spec_max_single_batch(width, height),
                s1 == spec_first_sub_batch(total as int, max_single as int),
                fit0 == start_state.spec_buffers_fit(s1, width, height),
                start <= total,
                start == 0 ==> *self == start_state,
                start > 0 ==> self.spec_buffers_fit(s1, width, height),
                start > 0 && fit0 ==> *self == start_state,
                start > 0 && !fit0 ==> {
                    &&& self.capacity == s1
                    &&& self.cached_size == Some((width, height))
                    &&& self.alloc_count == start_state.alloc_count + 1
                },
                results@.len() == start,
                forall|j: int| 0 <= j < start ==> {
                    &&& (#[trigger] results@[j]).width == frames@[j].width
                    &&& results@[j].height == frames@[j].height
                    &&& results@[j].data@ == spec_frame_rgb(frames@[j])
                },
            decreases total - start,
        {
            let remaining = total - start;
            let size = if remaining <= max_single {
                remaining
            } else {
                max_single
            };
            proof {
                assert(size <= s1);
            }
            let _ = self.ensure_buffers(size, width, height);
            let mut j: usize = 0;
            proof {
                assert((width as int) * (height as int) <= 16384 * 16384) by (nonlinear_arith)
                    requires
                        0 < width <= 16384,
                        0 < height <= 16384,
                ;
            }
            let y_len: usize = (width as usize) * (height as usize);
            let uv_len: usize = y_len / 4;
            while j < size
                invariant
                    total == frames@.len(),
                    width == frames@[0].width,
                    height == frames@[0].height,
                    spec_dims_ok(width, height),
                    forall|k: int| 0 <= k < total ==> {
                        &&& (#[trigger] frames@[k]).width == width
                        &&& frames@[k].height == height
                        &&& spec_frame_convertible(frames@[k])
                    },
                    start + size <= total,
                    j <= size,
                    y_len == spec_y_len(width as int, height as int),
                    uv_len == spec_uv_len(width as int, height as int),
                    y_len <= 0x1000_0000,
                    results@.len() == start + j,
                    forall|k: int| 0 <= k < start + j ==> {
                        &&& (#[trigger] results@[k]).width == frames@[k].width
                        &&& results@[k].height == frames@[k].height
                        &&& results@[k].data@ == spec_frame_rgb(frames@[k])
                    },
                decreases size - j,
            {
                let f = &frames[start + j];
                let rgb = yuv420_planes_to_rgb(
                    &f.data,
                    0,
                    &f.data,
                    y_len,
                    &f.data,
                    y_len + uv_len,
                    width,
                    height,
                );
                let out = RgbFrame { width, height, data: rgb };
                results.push(out);
                j += 1;
            }
            start += size;
        }
        Ok(results)
    }
}

} // verus!


