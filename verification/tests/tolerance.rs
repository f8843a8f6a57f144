use subsnap::converters::{ManualConverter, YuvutilsConverter};
use subsnap::frame::{FrameData, PixelFormat};

/// A synthetic gradient: luma rises along rows, chroma drifts along both
/// axes, exercising the whole clamping range.
fn gradient_frame(width: u32, height: u32) -> FrameData {
    let w = width as usize;
    let h = height as usize;
    let mut data = Vec::new();
    for row in 0..h {
        for col in 0..w {
            data.push(((row * 4 + col * 2) % 256) as u8);
        }
    }
    for row in 0..h / 2 {
        for col in 0..w / 2 {
            data.push(((64 + row * 3 + col) % 256) as u8);
        }
    }
    for row in 0..h / 2 {
        for col in 0..w / 2 {
            data.push(((192 + row + col * 3) % 256) as u8);
        }
    }
    FrameData { frame_number: 1, width, height, data, format: PixelFormat::Yuv420p }
}

#[test]
fn reference_and_simd_library_agree_within_tolerance() {
    let frame = gradient_frame(64, 64);
    let reference = ManualConverter::new().convert(&frame).unwrap();
    // Full-range BT.601: the same matrix the reference math implements.
    let delegated = YuvutilsConverter::new().convert_with(&frame, true, false).unwrap();
    assert_eq!(reference.len(), delegated.len());
    // The delegated result is a real conversion, not a zeroed buffer.
    assert!(delegated.iter().any(|&b| b > 16));
    let pixels = (64 * 64) as usize;
    let mut agreeing = 0usize;
    for p in 0..pixels {
        let close = (0..3).all(|c| {
            let a = reference[3 * p + c] as i32;
            let b = delegated[3 * p + c] as i32;
            (a - b).abs() <= 2
        });
        if close {
            agreeing += 1;
        }
    }
    // At least 95 of every 100 pixels agree within two per channel.
    assert!(
        agreeing * 100 >= pixels * 95,
        "only {agreeing} of {pixels} pixels within tolerance"
    );
}

#[test]
fn default_library_conversion_produces_plausible_output() {
    // The tool's default settings (limited range, BT.709) still produce a
    // full-size, non-degenerate result for the same gradient.
    let frame = gradient_frame(32, 32);
    let rgb = YuvutilsConverter::new().convert(&frame).unwrap();
    assert_eq!(rgb.len(), 32 * 32 * 3);
    assert!(rgb.iter().any(|&b| b != 0));
}
