use subsnap::converters::{ConversionMode, ConverterFactory, ManualConverter, OpencvConverter, YuvutilsConverter};
use subsnap::frame::{ConvertError, FrameData, PixelFormat};

fn frame_with_planes(frame_number: u32, width: u32, height: u32, y: &[u8], u: &[u8], v: &[u8]) -> FrameData {
    let mut data = Vec::new();
    data.extend_from_slice(y);
    data.extend_from_slice(u);
    data.extend_from_slice(v);
    FrameData { frame_number, width, height, data, format: PixelFormat::Yuv420p }
}

fn gray_frame(width: u32, height: u32, luma: u8) -> FrameData {
    let y_len = (width * height) as usize;
    let uv_len = y_len / 4;
    let y = vec![luma; y_len];
    let u = vec![128u8; uv_len];
    let v = vec![128u8; uv_len];
    frame_with_planes(1, width, height, &y, &u, &v)
}

#[test]
fn reference_pixel_math_exact() {
    // One 2x2 block sharing U = 178, V = 108.
    let frame = frame_with_planes(1, 2, 2, &[100, 150, 200, 50], &[178], &[108]);
    let converter = ManualConverter::new();
    let rgb = converter.convert(&frame).unwrap();
    // R = y - 28.04, G = y - 2.92408, B = y + 88.6, truncated and clamped.
    let expected = [
        71u8, 97, 188, // y = 100
        121, 147, 238, // y = 150
        171, 197, 255, // y = 200, blue clamps at 255
        21, 47, 138, // y = 50
    ];
    assert_eq!(rgb, expected);
}

#[test]
fn gray_frame_converts_to_equal_channels() {
    // Neutral chroma leaves luma untouched on every channel.
    let frame = gray_frame(4, 4, 235);
    let converter = ManualConverter::new();
    let rgb = converter.convert(&frame).unwrap();
    assert_eq!(rgb.len(), 4 * 4 * 3);
    assert!(rgb.iter().all(|&b| b == 235));
}

#[test]
fn output_length_is_three_bytes_per_pixel() {
    let frame = gray_frame(6, 4, 90);
    let manual = ManualConverter::new().convert(&frame).unwrap();
    assert_eq!(manual.len(), 6 * 4 * 3);
    let yuvutils = YuvutilsConverter::new().convert(&frame).unwrap();
    assert_eq!(yuvutils.len(), 6 * 4 * 3);
}

#[test]
fn unsupported_format_is_rejected() {
    let mut frame = gray_frame(4, 2, 60);
    frame.format = PixelFormat::Other;
    assert_eq!(
        ManualConverter::new().convert(&frame),
        Err(ConvertError::UnsupportedPixelFormat)
    );
    assert_eq!(
        YuvutilsConverter::new().convert(&frame),
        Err(ConvertError::UnsupportedPixelFormat)
    );
}

#[test]
fn odd_dimensions_are_rejected() {
    let mut frame = gray_frame(4, 2, 60);
    frame.width = 3;
    assert_eq!(
        ManualConverter::new().convert(&frame),
        Err(ConvertError::InvalidDimensions)
    );
}

#[test]
fn short_data_is_rejected() {
    let mut frame = gray_frame(4, 2, 60);
    frame.data.pop();
    assert_eq!(
        ManualConverter::new().convert(&frame),
        Err(ConvertError::InvalidDataSize)
    );
}

#[test]
fn opencv_check_reports_expected_length() {
    let frame = gray_frame(8, 6, 10);
    let checker = OpencvConverter::new();
    assert_eq!(checker.check_frame(&frame), Ok(8 * 6 * 3));
    let mut bad = gray_frame(8, 6, 10);
    bad.data.truncate(3);
    assert_eq!(checker.check_frame(&bad), Err(ConvertError::InvalidDataSize));
}

#[test]
fn factory_lists_all_modes() {
    let modes = ConverterFactory::available_modes();
    assert_eq!(
        modes,
        vec![
            ConversionMode::Ffmpeg,
            ConversionMode::Opencv,
            ConversionMode::Manual,
            ConversionMode::Wgpu,
            ConversionMode::Yuvutils,
        ]
    );
    assert_eq!(ConversionMode::Manual.as_str(), "manual");
    assert_eq!(ConversionMode::Wgpu.as_str(), "wgpu");
    assert!(ConversionMode::Yuvutils.description().contains("yuvutils"));
}
