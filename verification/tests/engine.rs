use subsnap::engine::{
    pad_data, pad_size, split_batch_sizes, unpack_rgba_batch, pack_sub_batch, workgroup_counts,
    GpuImageProcessor,
};
use subsnap::frame::{ConvertError, FrameData, PixelFormat};

fn gray_frame(frame_number: u32, width: u32, height: u32, luma: u8) -> FrameData {
    let y_len = (width * height) as usize;
    let uv_len = y_len / 4;
    let mut data = vec![luma; y_len];
    data.extend_from_slice(&vec![128u8; 2 * uv_len]);
    FrameData { frame_number, width, height, data, format: PixelFormat::Yuv420p }
}

/// A ceiling that admits exactly five 64x64 frames per submission:
/// floor(98304 / 16384) * 9 / 10 == 5.
fn five_frame_engine() -> GpuImageProcessor {
    GpuImageProcessor::with_config(98304, 9, 10)
}

#[test]
fn budget_splitting_five_five_two() {
    let engine = five_frame_engine();
    assert_eq!(engine.max_single_batch(64, 64), 5);
    assert_eq!(split_batch_sizes(12, 5), vec![5, 5, 2]);
    assert_eq!(split_batch_sizes(5, 5), vec![5]);
    assert_eq!(split_batch_sizes(0, 5), Vec::<usize>::new());
}

#[test]
fn oversized_batch_is_split_and_concatenated_in_order() {
    let mut engine = five_frame_engine();
    let frames: Vec<FrameData> =
        (1..=12).map(|i| gray_frame(i, 64, 64, (i * 10) as u8)).collect();
    let results = engine.convert_batch_host(&frames).unwrap();
    assert_eq!(results.len(), 12);
    // Gray input converts to equal channels, so the first byte identifies
    // the source frame: order must be exactly the input order.
    for (i, rgb) in results.iter().enumerate() {
        assert_eq!(rgb.data.len(), 64 * 64 * 3);
        assert_eq!(rgb.data[0] as usize, (i + 1) * 10);
    }
    // Twelve frames with a budget of five means one allocation sized for
    // the first sub-batch, reused by the rest.
    assert_eq!(engine.alloc_count, 1);
    assert_eq!(engine.capacity, 5);
}

#[test]
fn buffer_reuse_and_reallocation() {
    let mut engine = GpuImageProcessor::new();
    let batch: Vec<FrameData> = (1..=3).map(|i| gray_frame(i, 32, 16, 80)).collect();
    engine.convert_batch_host(&batch).unwrap();
    assert_eq!(engine.alloc_count, 1);
    // Same shape again: the cached buffers are reused, no reallocation.
    engine.convert_batch_host(&batch).unwrap();
    assert_eq!(engine.alloc_count, 1);
    // A different width forces reallocation.
    let wider: Vec<FrameData> = (1..=3).map(|i| gray_frame(i, 64, 16, 80)).collect();
    engine.convert_batch_host(&wider).unwrap();
    assert_eq!(engine.alloc_count, 2);
    assert_eq!(engine.cached_size, Some((64, 16)));
}

#[test]
fn ensure_buffers_decides_by_shape_and_capacity() {
    let mut engine = GpuImageProcessor::new();
    let first = engine.ensure_buffers(4, 64, 64);
    assert!(first.is_some());
    let sizes = first.unwrap();
    assert_eq!(sizes.y_bytes, 4 * 64 * 64);
    assert_eq!(sizes.uv_bytes, 4 * 64 * 64 / 4);
    assert_eq!(sizes.rgba_bytes, 4 * 4 * 64 * 64);
    assert!(engine.ensure_buffers(4, 64, 64).is_none());
    assert!(engine.ensure_buffers(2, 64, 64).is_none());
    assert!(engine.ensure_buffers(4, 32, 64).is_some());
    assert_eq!(engine.alloc_count, 2);
}

#[test]
fn mixed_resolutions_abort_the_batch() {
    let mut engine = GpuImageProcessor::new();
    let frames = vec![gray_frame(1, 32, 16, 80), gray_frame(2, 64, 16, 80)];
    assert!(matches!(
        engine.convert_batch_host(&frames),
        Err(ConvertError::MixedResolutions)
    ));
    // The engine state is untouched by a refused batch.
    assert_eq!(engine.alloc_count, 0);
}

#[test]
fn empty_batch_yields_empty_result() {
    let mut engine = GpuImageProcessor::new();
    let results = engine.convert_batch_host(&Vec::new()).unwrap();
    assert!(results.is_empty());
}

#[test]
fn frame_too_large_for_ceiling_is_refused_whole() {
    // A ceiling below one frame's RGBA output: 64x64x4 bytes needed.
    let mut engine = GpuImageProcessor::with_config(1024, 9, 10);
    let frames = vec![gray_frame(1, 64, 64, 80)];
    assert!(matches!(
        engine.convert_batch_host(&frames),
        Err(ConvertError::FrameTooLarge)
    ));
}

#[test]
fn padding_rounds_up_to_four_bytes() {
    assert_eq!(pad_size(0), 0);
    assert_eq!(pad_size(5), 8);
    assert_eq!(pad_size(8), 8);
    let padded = pad_data(&vec![1u8, 2, 3, 4, 5]);
    assert_eq!(padded, vec![1, 2, 3, 4, 5, 0, 0, 0]);
}

#[test]
fn packing_concatenates_planes_in_frame_order() {
    // Two 2x2 frames: four luma bytes and one byte per chroma plane each.
    let a = FrameData {
        frame_number: 1,
        width: 2,
        height: 2,
        data: vec![1, 2, 3, 4, 50, 60],
        format: PixelFormat::Yuv420p,
    };
    let b = FrameData {
        frame_number: 2,
        width: 2,
        height: 2,
        data: vec![5, 6, 7, 8, 51, 61],
        format: PixelFormat::Yuv420p,
    };
    let frames = vec![a, b];
    let packed = pack_sub_batch(&frames, 0, 2, 2, 2);
    assert_eq!(packed.y_data, vec![1, 2, 3, 4, 5, 6, 7, 8]);
    // Two chroma bytes padded to the four-byte alignment.
    assert_eq!(packed.u_data, vec![50, 51, 0, 0]);
    assert_eq!(packed.v_data, vec![60, 61, 0, 0]);
    assert_eq!(packed.y_total, 8);
    assert_eq!(packed.uv_total, 2);
    assert_eq!(packed.batch_size, 2);
}

#[test]
fn unpacking_drops_alpha_and_keeps_order() {
    // Two 2x2 frames of RGBA words.
    let mut data = Vec::new();
    for word in 0u8..8 {
        data.extend_from_slice(&[word * 10, word * 10 + 1, word * 10 + 2, 255]);
    }
    let frames = unpack_rgba_batch(&data, 2, 2, 2).unwrap();
    assert_eq!(frames.len(), 2);
    assert_eq!(frames[0].data, vec![0, 1, 2, 10, 11, 12, 20, 21, 22, 30, 31, 32]);
    assert_eq!(frames[1].data, vec![40, 41, 42, 50, 51, 52, 60, 61, 62, 70, 71, 72]);
    // A short staging buffer is refused.
    assert!(matches!(
        unpack_rgba_batch(&data, 3, 2, 2),
        Err(ConvertError::InvalidReadbackSize)
    ));
}

#[test]
fn workgroups_tile_sixteen_by_sixteen() {
    assert_eq!(workgroup_counts(64, 64, 5), (4, 4, 5));
    assert_eq!(workgroup_counts(66, 2, 1), (5, 1, 1));
}
