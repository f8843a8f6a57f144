use subsnap::batch::{WgpuBatchConverter, WgpuBatchPool};
use subsnap::channel::{FrameChannel, SendOutcome};
use subsnap::frame::{ChannelFrameData, ConvertError, FrameData, PixelFormat};

fn gray_frame(frame_number: u32, width: u32, height: u32, luma: u8) -> FrameData {
    let y_len = (width * height) as usize;
    let uv_len = y_len / 4;
    let mut data = vec![luma; y_len];
    data.extend_from_slice(&vec![128u8; 2 * uv_len]);
    FrameData { frame_number, width, height, data, format: PixelFormat::Yuv420p }
}

fn channel_frame(frame_number: u32) -> ChannelFrameData {
    ChannelFrameData {
        frame_number,
        width: 2,
        height: 2,
        yuv_data: vec![0; 6],
        format: PixelFormat::Yuv420p,
    }
}

#[test]
fn order_preserved_across_batch_boundaries() {
    // Twelve frames through a batch target of five: batches of 5, 5 and a
    // flushed remainder of 2, concatenated in input order.
    let mut pool = WgpuBatchPool::new(5, 1000);
    let frames: Vec<FrameData> = (1..=12).map(|i| gray_frame(i, 4, 4, 100)).collect();
    let results = pool.process_stream(frames);
    let numbers: Vec<u32> = results.iter().map(|(n, _)| *n).collect();
    assert_eq!(numbers, (1..=12).collect::<Vec<u32>>());
    for (_, rgb) in &results {
        assert_eq!(rgb.data.len(), 4 * 4 * 3);
    }
}

#[test]
fn accumulator_triggers_on_batch_target() {
    let mut pool = WgpuBatchPool::new(3, 1000);
    assert!(pool.add_frame(gray_frame(1, 4, 4, 10), 0).unwrap().is_none());
    assert!(pool.add_frame(gray_frame(2, 4, 4, 20), 0).unwrap().is_none());
    let batch = pool.add_frame(gray_frame(3, 4, 4, 30), 0).unwrap().unwrap();
    assert_eq!(batch.len(), 3);
    assert_eq!(batch[0].data[0], 10);
    assert_eq!(batch[1].data[0], 20);
    assert_eq!(batch[2].data[0], 30);
    // The buffer is empty again; a flush has nothing to do.
    assert!(pool.flush().unwrap().is_none());
}

#[test]
fn accumulator_triggers_on_deadline() {
    let mut pool = WgpuBatchPool::new(8, 100);
    assert!(pool.add_frame(gray_frame(1, 4, 4, 10), 0).unwrap().is_none());
    // The second frame arrives after the oldest has waited past the
    // deadline: the pending batch is forced out with both frames.
    let batch = pool.add_frame(gray_frame(2, 4, 4, 20), 150).unwrap().unwrap();
    assert_eq!(batch.len(), 2);
}

#[test]
fn accumulator_rejects_mixed_resolutions() {
    let mut pool = WgpuBatchPool::new(4, 1000);
    pool.add_frame(gray_frame(1, 4, 4, 10), 0).unwrap();
    let mixed = pool.add_frame(gray_frame(2, 8, 4, 10), 0);
    assert!(matches!(mixed, Err(ConvertError::MixedResolutions)));
    // The refused frame changed nothing: flushing yields the first alone.
    let batch = pool.flush().unwrap().unwrap();
    assert_eq!(batch.len(), 1);
}

#[test]
fn single_frame_contract_over_batched_backend() {
    let mut converter = WgpuBatchConverter::new(8, 1000);
    let frame = gray_frame(7, 4, 4, 210);
    let rgb = converter.convert(frame).unwrap();
    assert_eq!(rgb.len(), 4 * 4 * 3);
    assert!(rgb.iter().all(|&b| b == 210));
    let bad = FrameData {
        frame_number: 8,
        width: 4,
        height: 4,
        data: vec![0; 2],
        format: PixelFormat::Yuv420p,
    };
    assert!(matches!(converter.convert(bad), Err(ConvertError::InvalidDataSize)));
}

#[test]
fn full_channel_blocks_instead_of_dropping() {
    // Capacity one and a consumer that never reads: the first frame is
    // accepted, every further send reports that the producer must block.
    let mut channel = FrameChannel::new(1);
    assert_eq!(channel.try_send(channel_frame(1)), SendOutcome::Sent);
    assert_eq!(channel.try_send(channel_frame(2)), SendOutcome::WouldBlock);
    assert_eq!(channel.try_send(channel_frame(3)), SendOutcome::WouldBlock);
    // Nothing was dropped: the one queued frame is the first one.
    assert_eq!(channel.len(), 1);
    let received = channel.try_recv().unwrap();
    assert_eq!(received.frame_number, 1);
    assert!(channel.try_recv().is_none());
}

#[test]
fn channel_is_first_in_first_out() {
    let mut channel = FrameChannel::new(3);
    for i in 1..=3 {
        assert_eq!(channel.try_send(channel_frame(i)), SendOutcome::Sent);
    }
    for i in 1..=3 {
        assert_eq!(channel.try_recv().unwrap().frame_number, i);
    }
}
