//! The interchangeable single-frame converters and the mode they are
//! selected by. All converters share one validation rule and one output
//! shape: `width * height * 3` RGB bytes for a convertible 4:2:0 frame.

use vstd::prelude::*;
use crate::frame::{spec_frame_convertible, spec_frame_error, ConvertError, FrameData};
use crate::convert::{spec_frame_rgb, yuv420_planes_to_rgb};

verus! {

/// The closed set of conversion implementations the tool can benchmark.
#[derive(Clone, Copy, Debug, PartialEq, Eq, Hash, Structural)]
pub enum ConversionMode {
    /// FFmpeg's software scaler, run on the CPU.
    Ffmpeg,
    /// The compute-kernel path on the GPU.
    Wgpu,
    /// The SIMD-optimized pure-Rust conversion library.
    Yuvutils,
    /// The computer-vision library's color conversion.
    Opencv,
    /// The explicit fixed-point reference implementation.
    Manual,
}

impl ConversionMode {
    /// The short name used in filenames and on the command line; one per
    /// mode, so the name identifies the mode.
    pub fn as_str(&self) -> (r: &'static str)
        ensures
            self is Ffmpeg ==> r@ == "ffmpeg"@,
            self is Wgpu ==> r@ == "wgpu"@,
            self is Yuvutils ==> r@ == "yuvutils"@,
            self is Opencv ==> r@ == "opencv"@,
            self is Manual ==> r@ == "manual"@,
    {
        match self {
            ConversionMode::Ffmpeg => "ffmpeg",
            ConversionMode::Wgpu => "wgpu",
            ConversionMode::Yuvutils => "yuvutils",
            ConversionMode::Opencv => "opencv",
            ConversionMode::Manual => "manual",
        }
    }

    /// A one-line description of the implementation.
    pub fn description(&self) -> (r: &'static str)
        ensures
            self is Ffmpeg ==> r@ == "CPU conversion through FFmpeg's software scaler"@,
            self is Wgpu ==> r@ == "GPU-accelerated conversion through a compute kernel"@,
            self is Yuvutils ==> r@ == "SIMD-optimized CPU conversion through the yuvutils library"@,
            self is Opencv ==> r@ == "CPU conversion through the OpenCV library"@,
            self is Manual ==> r@ == "explicit fixed-point reference conversion"@,
    {
        match self {
            ConversionMode::Ffmpeg => "CPU conversion through FFmpeg's software scaler",
            ConversionMode::Wgpu => "GPU-accelerated conversion through a compute kernel",
            ConversionMode::Yuvutils => "SIMD-optimized CPU conversion through the yuvutils library",
            ConversionMode::Opencv => "CPU conversion through the OpenCV library",
            ConversionMode::Manual => "explicit fixed-point reference conversion",
        }
    }
}

/// Chooses converters; the set of modes is closed.
pub struct ConverterFactory;

impl ConverterFactory {
    /// Every mode the build offers, in the order they are reported.
    pub fn available_modes() -> (r: Vec<ConversionMode>)
        ensures
            r@ == seq![
                ConversionMode::Ffmpeg,
                ConversionMode::Opencv,
                ConversionMode::Manual,
                ConversionMode::Wgpu,
                ConversionMode::Yuvutils,
            ],
    {
        let modes = vec![
            ConversionMode::Ffmpeg,
            ConversionMode::Opencv,
            ConversionMode::Manual,
            ConversionMode::Wgpu,
            ConversionMode::Yuvutils,
        ];
        proof {
            assert(modes@ =~= seq![
                ConversionMode::Ffmpeg,
                ConversionMode::Opencv,
                ConversionMode::Manual,
                ConversionMode::Wgpu,
                ConversionMode::Yuvutils,
            ]);
        }
        modes
    }
}

/// The reference converter: the explicit per-pixel BT.601 transform.
pub struct ManualConverter;

impl ManualConverter {
    /// The converter is stateless.
    pub fn new() -> (r: Self) {
        ManualConverter
    }

    /// The mode this converter implements.
    pub fn get_mode(&self) -> (r: ConversionMode)
        ensures
            r == ConversionMode::Manual,
    {
        ConversionMode::Manual
    }

    /// Converts one 4:2:0 frame to packed RGB bytes by the reference
    /// transform. Succeeds exactly on convertible frames and returns the
    /// reference result, `width * height * 3` bytes.
    pub fn convert(&self, frame_data: &FrameData) -> (r: Result<Vec<u8>, ConvertError>)
        ensures
            r is Ok <==> spec_frame_convertible(*frame_data),
            r is Ok ==> r->Ok_0@ == spec_frame_rgb(*frame_data),
            r is Err ==> r->Err_0 == spec_frame_error(*frame_data),
    {
        crate::frame::validate_frame(frame_data)?;
        let w = frame_data.width;
        let h = frame_data.height;
        proof {
            assert(w * h <= 16384 * 16384) by (nonlinear_arith)
                requires
                    0 < w <= 16384,
                    0 < h <= 16384,
            ;
        }
        let y_len: usize = (w as usize) * (h as usize);
        let uv_len: usize = y_len / 4;
        let rgb = yuv420_planes_to_rgb(
            &frame_data.data,
            0,
            &frame_data.data,
            y_len,
            &frame_data.data,
            y_len + uv_len,
            w,
            h,
        );
        Ok(rgb)
    }
}

/// Relies on yuvutils' `yuv420_to_rgb`: writes the converted RGB bytes into
/// `rgb` and returns `Ok` exactly when the plane and destination lengths
/// match the dimensions and strides (its `check_constraints` and
/// `check_rgba_destination`); on a length mismatch it returns an error
/// without touching `rgb`. The pixel values themselves are the library's:
/// it selects its kernel by the machine's vector units, and the kernels'
/// rounding differs, so no clause fixes them.
#[verifier::external_body]
fn yuv420_to_rgb_call(
    data: &Vec<u8>,
    y_off: usize,
    y_end: usize,
    u_off: usize,
    u_end: usize,
    v_off: usize,
    v_end: usize,
    width: u32,
    height: u32,
    y_stride: u32,
    uv_stride: u32,
    rgb_stride: u32,
    rgb: &mut Vec<u8>,
    full_range: bool,
    bt709: bool,
) -> (r: Result<(), ()>)
    requires
        y_off <= y_end <= data@.len(),
        u_off <= u_end <= data@.len(),
        v_off <= v_end <= data@.len(),
    ensures
        final(rgb)@.len() == old(rgb)@.len(),
        ({
            &&& 0 < width <= 16384
            &&& 0 < height <= 16384
            &&& width % 2 == 0
            &&& height % 2 == 0
            &&& y_stride == width
            &&& uv_stride == width / 2
            &&& rgb_stride == 3 * width
            &&& y_end - y_off == width * height
            &&& u_end - u_off == (width * height) / 4
            &&& v_end - v_off == (width * height) / 4
            &&& old(rgb)@.len() == 3 * width * height
        }) ==> r is Ok,
        r is Err ==> final(rgb)@ == old(rgb)@,
{
    let image = yuvutils_rs::YuvPlanarImage {
        y_plane: &data[y_off..y_end],
        y_stride,
        u_plane: &data[u_off..u_end],
        u_stride: uv_stride,
        v_plane: &data[v_off..v_end],
        v_stride: uv_stride,
        width,
        height,
    };
    let range = if full_range { yuvutils_rs::YuvRange::Full } else { yuvutils_rs::YuvRange::Limited };
    let matrix = if bt709 { yuvutils_rs::YuvStandardMatrix::Bt709 } else { yuvutils_rs::YuvStandardMatrix::Bt601 };
    yuvutils_rs::yuv420_to_rgb(&image, rgb.as_mut_slice(), rgb_stride, range, matrix).map_err(|_| ())
}

/// The SIMD-library converter, delegating the pixel math to yuvutils.
pub struct YuvutilsConverter;

impl YuvutilsConverter {
    /// The converter is stateless.
    pub fn new() -> (r: Self) {
        YuvutilsConverter
    }

    /// The mode this converter implements.
    pub fn get_mode(&self) -> (r: ConversionMode)
        ensures
            r == ConversionMode::Yuvutils,
    {
        ConversionMode::Yuvutils
    }

    /// Converts one 4:2:0 frame through the SIMD library with the given
    /// range and matrix. Succeeds exactly on convertible frames; the result
    /// is the library's conversion, `width * height * 3` bytes. The pixel
    /// values are the library's and are held to the reference only by
    /// tolerance, not by contract.
    pub fn convert_with(&self, frame_data: &FrameData, full_range: bool, bt709: bool) -> (r: Result<
        Vec<u8>,
        ConvertError,
    >)
        ensures
            r is Ok <==> spec_frame_convertible(*frame_data),
            r is Ok ==> r->Ok_0@.len() == 3 * frame_data.width * frame_data.height,
            r is Err ==> r->Err_0 == spec_frame_error(*frame_data),
    {
        crate::frame::validate_frame(frame_data)?;
        let w = frame_data.width;
        let h = frame_data.height;
        proof {
            assert(w * h <= 16384 * 16384 && w * h * 3 == 3 * w * h) by (nonlinear_arith)
                requires
                    0 < w <= 16384,
                    0 < h <= 16384,
            ;
        }
        let y_len: usize = (w as usize) * (h as usize);
        let uv_len: usize = y_len / 4;
        let mut rgb: Vec<u8> = Vec::new();
        rgb.resize(3 * y_len, 0u8);
        let call = yuv420_to_rgb_call(
            &frame_data.data,
            0,
            y_len,
            y_len,
            y_len + uv_len,
            y_len + uv_len,
            y_len + 2 * uv_len,
            w,
            h,
            w,
            w / 2,
            3 * w,
            &mut rgb,
            full_range,
            bt709,
        );
        match call {
            Ok(()) => Ok(rgb),
            Err(()) => Err(ConvertError::ExternalConversionFailed),
        }
    }

    /// Converts one 4:2:0 frame with the settings the tool uses by default:
    /// limited (studio) range and the BT.709 matrix.
    pub fn convert(&self, frame_data: &FrameData) -> (r: Result<Vec<u8>, ConvertError>)
        ensures
            r is Ok <==> spec_frame_convertible(*frame_data),
            r is Ok ==> r->Ok_0@.len() == 3 * frame_data.width * frame_data.height,
            r is Err ==> r->Err_0 == spec_frame_error(*frame_data),
    {
        self.convert_with(frame_data, false, true)
    }
}

/// The computer-vision-library converter. The conversion call itself lives
/// outside the verified library; what is verified is the shared validation
/// and output-shape rule, which this type re-exposes.
pub struct OpencvConverter;

impl OpencvConverter {
    /// The converter is stateless.
    pub fn new() -> (r: Self) {
        OpencvConverter
    }

    /// The mode this converter implements.
    pub fn get_mode(&self) -> (r: ConversionMode)
        ensures
            r == ConversionMode::Opencv,
    {
        ConversionMode::Opencv
    }

    /// The validation the vision-library path applies before its external
    /// call, and the exact length that call must produce.
    pub fn check_frame(&self, frame_data: &FrameData) -> (r: Result<usize, ConvertError>)
        ensures
            r is Ok <==> spec_frame_convertible(*frame_data),
            r is Ok ==> r->Ok_0 == 3 * frame_data.width * frame_data.height,
            r is Err ==> r->Err_0 == spec_frame_error(*frame_data),
    {
        crate::frame::validate_frame(frame_data)?;
        let w = frame_data.width;
        let h = frame_data.height;
        proof {
            assert(w * h <= 16384 * 16384 && 3 * (w * h) == 3 * w * h) by (nonlinear_arith)
                requires
                    0 < w <= 16384,
                    0 < h <= 16384,
            ;
        }
        Ok(3 * (w as usize) * (h as usize))
    }
}

} // verus!
