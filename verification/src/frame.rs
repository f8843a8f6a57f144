//! Frame data model: planar 4:2:0 input frames, RGB output frames, and the
//! validity conditions every converter enforces.

use vstd::prelude::*;

verus! {

/// Pixel layout of a decoded frame. Only planar 4:2:0 content is convertible;
/// anything else is rejected by every converter.
#[derive(Clone, Copy, Debug, PartialEq, Eq, Structural)]
pub enum PixelFormat {
    /// One full-resolution luma plane followed by two quarter-resolution
    /// chroma planes, contiguous, no row padding.
    Yuv420p,
    /// Any other layout; carried through unconverted and rejected on convert.
    Other,
}

/// Why a conversion was refused.
#[derive(Clone, Copy, Debug, PartialEq, Eq, Structural)]
pub enum ConvertError {
    /// The frame's pixel format is not planar 4:2:0.
    UnsupportedPixelFormat,
    /// Width or height is zero, odd, or beyond the supported maximum.
    InvalidDimensions,
    /// The data buffer is shorter than the three planes require.
    InvalidDataSize,
    /// A batch mixes frames of different resolutions.
    MixedResolutions,
    /// A batch holds no frames where one is required.
    EmptyBatch,
    /// One frame's RGBA output alone exceeds the device buffer ceiling.
    FrameTooLarge,
    /// The staging buffer read back from the device has the wrong length.
    InvalidReadbackSize,
    /// A delegated conversion library reported a failure.
    ExternalConversionFailed,
}

impl ConvertError {
    /// A short description of the error; one per variant, so the text
    /// identifies the error.
    pub fn message(&self) -> (r: &'static str)
        ensures
            self is UnsupportedPixelFormat ==> r@
                == "converter only supports the planar 4:2:0 pixel format"@,
            self is InvalidDimensions ==> r@
                == "frame dimensions must be even, non-zero and within the supported maximum"@,
            self is InvalidDataSize ==> r@
                == "frame data is shorter than the three 4:2:0 planes require"@,
            self is MixedResolutions ==> r@
                == "all frames of a batch must share one resolution"@,
            self is EmptyBatch ==> r@ == "batch holds no frames"@,
            self is FrameTooLarge ==> r@
                == "one frame's output exceeds the device buffer ceiling"@,
            self is InvalidReadbackSize ==> r@
                == "device readback buffer has the wrong length"@,
            self is ExternalConversionFailed ==> r@
                == "delegated conversion library reported a failure"@,
    {
        match self {
            ConvertError::UnsupportedPixelFormat => "converter only supports the planar 4:2:0 pixel format",
            ConvertError::InvalidDimensions => "frame dimensions must be even, non-zero and within the supported maximum",
            ConvertError::InvalidDataSize => "frame data is shorter than the three 4:2:0 planes require",
            ConvertError::MixedResolutions => "all frames of a batch must share one resolution",
            ConvertError::EmptyBatch => "batch holds no frames",
            ConvertError::FrameTooLarge => "one frame's output exceeds the device buffer ceiling",
            ConvertError::InvalidReadbackSize => "device readback buffer has the wrong length",
            ConvertError::ExternalConversionFailed => "delegated conversion library reported a failure",
        }
    }
}

/// Largest accepted width or height. Keeps every per-frame byte count well
/// inside `usize` on any platform: `MAX_DIM * MAX_DIM * 4 == 2^30`.
pub const MAX_DIM: u32 = 16384;

/// A decoded planar frame as produced by the extraction stage.
#[derive(Clone, Debug)]
pub struct FrameData {
    pub frame_number: u32,
    pub width: u32,
    pub height: u32,
    pub data: Vec<u8>,
    pub format: PixelFormat,
}

/// The same frame as it travels through the bounded channel between the
/// extraction stage and the conversion stage.
#[derive(Clone, Debug)]
pub struct ChannelFrameData {
    pub frame_number: u32,
    pub width: u32,
    pub height: u32,
    pub yuv_data: Vec<u8>,
    pub format: PixelFormat,
}

/// A converted frame: row-major bytes, channel order R, G, B, no padding.
#[derive(Clone, Debug)]
pub struct RgbFrame {
    pub width: u32,
    pub height: u32,
    pub data: Vec<u8>,
}

/// Luma plane length of a 4:2:0 frame.
pub open spec fn spec_y_len(width: int, height: int) -> int {
    width * height
}

/// Length of each chroma plane of a 4:2:0 frame.
pub open spec fn spec_uv_len(width: int, height: int) -> int {
    (width * height) / 4
}

/// Least data length a valid 4:2:0 frame must carry: Y, then U, then V.
pub open spec fn spec_yuv420_min_len(width: int, height: int) -> int {
    spec_y_len(width, height) + 2 * spec_uv_len(width, height)
}

/// Dimensions every converter accepts: non-zero, even (4:2:0 subsampling
/// halves each axis) and within the machine-imposed maximum.
pub open spec fn spec_dims_ok(width: u32, height: u32) -> bool {
    &&& 0 < width <= MAX_DIM
    &&& 0 < height <= MAX_DIM
    &&& width % 2 == 0
    &&& height % 2 == 0
}

/// A frame every converter accepts: 4:2:0 format, valid dimensions, and
/// data at least as long as the three planes require.
pub open spec fn spec_frame_convertible(f: FrameData) -> bool {
    &&& f.format == PixelFormat::Yuv420p
    &&& spec_dims_ok(f.width, f.height)
    &&& f.data@.len() >= spec_yuv420_min_len(f.width as int, f.height as int)
}

/// The one error a rejected frame produces, checked in this order:
/// format first, then dimensions, then data length.
pub open spec fn spec_frame_error(f: FrameData) -> ConvertError {
    if f.format != PixelFormat::Yuv420p {
        ConvertError::UnsupportedPixelFormat
    } else if !spec_dims_ok(f.width, f.height) {
        ConvertError::InvalidDimensions
    } else {
        ConvertError::InvalidDataSize
    }
}

/// Checks that a frame is convertible, returning the error of
/// `spec_frame_error` when it is not.
pub fn validate_frame(f: &FrameData) -> (r: Result<(), ConvertError>)
    ensures
        r is Ok <==> spec_frame_convertible(*f),
        r is Err ==> r->Err_0 == spec_frame_error(*f),
{
    if f.format != PixelFormat::Yuv420p {
        return Err(ConvertError::UnsupportedPixelFormat);
    }
    if f.width == 0 || f.height == 0 || f.width > MAX_DIM || f.height > MAX_DIM
        || f.width % 2 != 0 || f.height % 2 != 0 {
        return Err(ConvertError::InvalidDimensions);
    }
    proof {
        assert(f.width * f.height <= MAX_DIM * MAX_DIM) by (nonlinear_arith)
            requires
                0 < f.width <= MAX_DIM,
                0 < f.height <= MAX_DIM,
        ;
    }
    let y_len: usize = (f.width as usize) * (f.height as usize);
    let uv_len: usize = y_len / 4;
    if f.data.len() < y_len + 2 * uv_len {
        return Err(ConvertError::InvalidDataSize);
    }
    Ok(())
}

impl From<FrameData> for ChannelFrameData {
    fn from(frame_data: FrameData) -> (r: Self) {
        ChannelFrameData {
            frame_number: frame_data.frame_number,
            width: frame_data.width,
            height: frame_data.height,
            yuv_data: frame_data.data,
            format: frame_data.format,
        }
    }
}

impl vstd::std_specs::convert::FromSpecImpl<FrameData> for ChannelFrameData {
    open spec fn obeys_from_spec() -> bool {
        true
    }

    open spec fn from_spec(frame_data: FrameData) -> Self {
        ChannelFrameData {
            frame_number: frame_data.frame_number,
            width: frame_data.width,
            height: frame_data.height,
            yuv_data: frame_data.data,
            format: frame_data.format,
        }
    }
}

impl From<ChannelFrameData> for FrameData {
    fn from(channel_frame_data: ChannelFrameData) -> (r: Self) {
        FrameData {
            frame_number: channel_frame_data.frame_number,
            width: channel_frame_data.width,
            height: channel_frame_data.height,
            data: channel_frame_data.yuv_data,
            format: channel_frame_data.format,
        }
    }
}

impl vstd::std_specs::convert::FromSpecImpl<ChannelFrameData> for FrameData {
    open spec fn obeys_from_spec() -> bool {
        true
    }

    open spec fn from_spec(channel_frame_data: ChannelFrameData) -> Self {
        FrameData {
            frame_number: channel_frame_data.frame_number,
            width: channel_frame_data.width,
            height: channel_frame_data.height,
            data: channel_frame_data.yuv_data,
            format: channel_frame_data.format,
        }
    }
}

} // verus!
