use subsnap::decoders::{
    extract_yuv_data_optimized, DecoderFactory, DecoderType, Mp4Decoder, OpenCVDecoder,
};
use subsnap::frame::ConvertError;
use subsnap::pool::FrameDataPool;
use subsnap::sampler::{target_frame_count, FrameSampler};

#[test]
fn sampling_follows_the_clock_not_the_frame_count() {
    // Two frames per second: the threshold advances by half a second per
    // emission, whatever cadence the decoded timestamps arrive at.
    let mut sampler = FrameSampler::new(0, 2, 10_000_000);
    assert_eq!(sampler.interval_us, 500_000);
    assert!(sampler.should_emit(0));
    assert!(!sampler.should_emit(200_000));
    assert!(!sampler.should_emit(400_000));
    assert!(sampler.should_emit(500_000));
    assert!(!sampler.should_emit(600_000));
    assert!(sampler.should_emit(1_000_000));
    assert_eq!(sampler.emitted, 3);
}

#[test]
fn frame_budget_stops_emission() {
    let mut sampler = FrameSampler::new(2, 0, 0);
    // No sampling rate: every decoded frame is emitted until the budget.
    assert!(sampler.should_emit(0));
    assert!(sampler.should_emit(1));
    assert!(!sampler.should_emit(2));
    assert!(sampler.is_done());
}

#[test]
fn budget_without_rate_spreads_over_the_duration() {
    // Ten seconds for five frames: one every two seconds.
    let sampler = FrameSampler::new(5, 0, 10_000_000);
    assert_eq!(sampler.interval_us, 2_000_000);
}

#[test]
fn target_count_prefers_explicit_budget() {
    assert_eq!(target_frame_count(7, 30, 10_000_000, 300), 7);
    // Ten seconds at three frames per second.
    assert_eq!(target_frame_count(0, 3, 10_000_000, 300), 30);
    assert_eq!(target_frame_count(0, 0, 10_000_000, 300), 300);
}

#[test]
fn pool_hands_out_cleared_buffers_round_robin() {
    let mut pool = FrameDataPool::new(2, 16);
    assert_eq!(pool.current_index, 0);
    let a = pool.get_buffer(8);
    assert!(a.is_empty());
    assert_eq!(pool.current_index, 1);
    let b = pool.get_buffer(8);
    assert!(b.is_empty());
    // The cursor wraps around the ring.
    assert_eq!(pool.current_index, 0);
    let c = pool.get_buffer(32);
    assert!(c.is_empty());
    assert_eq!(pool.current_index, 1);
}

#[test]
fn strided_planes_are_repacked_contiguously() {
    // A 2x2 frame whose decoder rows carry one pad byte each: the pad bytes
    // (99) must not reach the packed output.
    let y = vec![1u8, 2, 99, 3, 4, 99];
    let u = vec![50u8, 99];
    let v = vec![60u8];
    let mut pool = FrameDataPool::new(2, 8);
    let data = extract_yuv_data_optimized(&y, 3, &u, 2, &v, 1, 2, 2, &mut pool).unwrap();
    assert_eq!(data, vec![1, 2, 3, 4, 50, 60]);
    // A luma stride shorter than the row is refused.
    assert!(matches!(
        extract_yuv_data_optimized(&y, 1, &u, 2, &v, 1, 2, 2, &mut pool),
        Err(ConvertError::InvalidDataSize)
    ));
}

#[test]
fn decoder_factory_lists_both_decoders() {
    assert_eq!(
        DecoderFactory::available_decoders(),
        vec![DecoderType::FFmpeg, DecoderType::OpenCV]
    );
    assert_eq!(DecoderType::FFmpeg.as_str(), "ffmpeg");
    assert_eq!(DecoderType::OpenCV.as_str(), "opencv");
    assert!(DecoderType::OpenCV.description().contains("OpenCV"));
}

#[test]
fn decoders_start_with_a_sixteen_slot_pool() {
    let mp4 = Mp4Decoder::new();
    assert_eq!(mp4.pool.buffers.len(), 16);
    let opencv = OpenCVDecoder::new();
    assert_eq!(opencv.pool.buffers.len(), 16);
}
