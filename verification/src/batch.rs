//! The batch accumulator: bridges the per-frame streaming interface to the
//! batch-oriented engine. Frames are buffered until the batch target is
//! reached or the caller has waited long enough, then converted as one
//! batch; a flush converts whatever is pending.

use vstd::prelude::*;
use crate::engine::{spec_batch_scan, GpuImageProcessor};
use crate::frame::{
    spec_frame_convertible, spec_frame_error, ConvertError, FrameData, RgbFrame,
};
use crate::convert::spec_frame_rgb;

verus! {

/// A batch accumulator in front of one conversion engine. It only ever
/// holds frames of one resolution, fewer than the batch target.
pub struct WgpuBatchPool {
    /// The engine whose budget and buffers the batches run through.
    pub engine: GpuImageProcessor,
    /// The frames accumulated since the last batch, in arrival order.
    pub frame_buffer: Vec<FrameData>,
    /// How many frames trigger a batch.
    pub batch_size: usize,
    /// How long the oldest buffered frame may wait before a batch is forced.
    pub max_wait_ms: u64,
}

impl WgpuBatchPool {
    /// The accumulator's invariant: a sane engine, a positive batch target,
    /// and a buffer of convertible same-resolution frames that has not yet
    /// reached the target.
    pub open spec fn wf(self) -> bool {
        &&& self.engine.wf()
        &&& 0 < self.batch_size
        &&& self.frame_buffer@.len() < self.batch_size
        &&& forall|i: int| 0 <= i < self.frame_buffer@.len() ==> spec_frame_convertible(
            #[trigger] self.frame_buffer@[i],
        )
        &&& forall|i: int| 0 <= i < self.frame_buffer@.len() ==> (#[trigger] self.frame_buffer@[i]).width
            == self.frame_buffer@[0].width && self.frame_buffer@[i].height
            == self.frame_buffer@[0].height
    }

    /// A fresh accumulator around a default engine.
    pub fn new(batch_size: usize, max_wait_ms: u64) -> (r: Self)
        requires
            0 < batch_size,
        ensures
            r.wf(),
            r.frame_buffer@.len() == 0,
            r.batch_size == batch_size,
            r.max_wait_ms == max_wait_ms,
            r.engine.alloc_count == 0,
    {
        WgpuBatchPool {
            engine: GpuImageProcessor::new(),
            frame_buffer: Vec::new(),
            batch_size,
            max_wait_ms,
        }
    }

    /// What the batch of buffered frames converts to: one RGB frame per
    /// buffered frame, in order, each the reference conversion.
    pub open spec fn spec_batch_results(batch: Seq<FrameData>, results: Seq<RgbFrame>) -> bool {
        &&& results.len() == batch.len()
        &&& forall|i: int| 0 <= i < batch.len() ==> {
            &&& (#[trigger] results[i]).width == batch[i].width
            &&& results[i].height == batch[i].height
            &&& results[i].data@ == spec_frame_rgb(batch[i])
        }
    }

    /// Adds one frame. A frame no converter accepts, or one whose resolution
    /// differs from the buffered frames', is refused and nothing changes.
    /// Otherwise the frame joins the buffer; when that reaches the batch
    /// target, or the caller reports having waited past the deadline, the
    /// whole buffer is converted as one batch, in arrival order.
    pub fn add_frame(&mut self, frame_data: FrameData, waited_ms: u64) -> (r: Result<
        Option<Vec<RgbFrame>>,
        ConvertError,
    >)
        requires
            old(self).wf(),
            old(self).engine.alloc_count < u64::MAX,
        ensures
            final(self).wf(),
            final(self).batch_size == old(self).batch_size,
            final(self).max_wait_ms == old(self).max_wait_ms,
            final(self).engine.buffer_limit == old(self).engine.buffer_limit,
            final(self).engine.safety_num == old(self).engine.safety_num,
            final(self).engine.safety_den == old(self).engine.safety_den,
            final(self).engine.alloc_count <= old(self).engine.alloc_count + 1,
            !spec_frame_convertible(frame_data) ==> r == Result::<
                Option<Vec<RgbFrame>>,
                ConvertError,
            >::Err(spec_frame_error(frame_data)) && *final(self) == *old(self),
            spec_frame_convertible(frame_data) && old(self).frame_buffer@.len() > 0 && !(frame_data.width
                == old(self).frame_buffer@[0].width && frame_data.height == old(
                self,
            ).frame_buffer@[0].height) ==> r == Result::<
                Option<Vec<RgbFrame>>,
                ConvertError,
            >::Err(ConvertError::MixedResolutions) && *final(self) == *old(self),
            spec_frame_convertible(frame_data) && (old(self).frame_buffer@.len() == 0 || (
            frame_data.width == old(self).frame_buffer@[0].width && frame_data.height == old(
                self,
            ).frame_buffer@[0].height)) ==> {
                let buffered = old(self).frame_buffer@.push(frame_data);
                let trigger = buffered.len() >= old(self).batch_size || waited_ms >= old(
                    self,
                ).max_wait_ms;
                &&& !trigger ==> {
                    &&& r is Ok && r->Ok_0 is None
                    &&& final(self).frame_buffer@ == buffered
                    &&& final(self).engine == old(self).engine
                }
                &&& trigger ==> {
                    &&& final(self).frame_buffer@.len() == 0
                    &&& (old(self).engine.spec_max_single_batch(frame_data.width, frame_data.height)
                        > 0 ==> r is Ok && r->Ok_0 is Some && Self::spec_batch_results(
                        buffered,
                        r->Ok_0->Some_0@,
                    ))
                    &&& (old(self).engine.spec_max_single_batch(frame_data.width, frame_data.height)
                        <= 0 ==> r == Result::<Option<Vec<RgbFrame>>, ConvertError>::Err(
                        ConvertError::FrameTooLarge,
                    ))
                }
            },
    {
        match crate::frame::validate_frame(&frame_data) {
            Ok(()) => {},
            Err(e) => {
                return Err(e);
            },
        }
        if self.frame_buffer.len() > 0 {
            let first_w = self.frame_buffer[0].width;
            let first_h = self.frame_buffer[0].height;
            if frame_data.width != first_w || frame_data.height != first_h {
                return Err(ConvertError::MixedResolutions);
            }
        }
        let ghost frame_ghost = frame_data;
        self.frame_buffer.push(frame_data);
        let should_process = self.frame_buffer.len() >= self.batch_size || waited_ms
            >= self.max_wait_ms;
        if should_process {
            let r = self.process_pending();
            match r {
                Ok(Some(results)) => Ok(Some(results)),
                Ok(None) => Ok(None),
                Err(e) => Err(e),
            }
        } else {
            Ok(None)
        }
    }

    /// Converts whatever is buffered, if anything, as one batch.
    pub fn flush(&mut self) -> (r: Result<Option<Vec<RgbFrame>>, ConvertError>)
        requires
            old(self).wf(),
            old(self).engine.alloc_count < u64::MAX,
        ensures
            final(self).wf(),
            final(self).batch_size == old(self).batch_size,
            final(self).max_wait_ms == old(self).max_wait_ms,
            final(self).engine.buffer_limit == old(self).engine.buffer_limit,
            final(self).engine.safety_num == old(self).engine.safety_num,
            final(self).engine.safety_den == old(self).engine.safety_den,
            final(self).engine.alloc_count <= old(self).engine.alloc_count + 1,
            old(self).frame_buffer@.len() == 0 ==> r is Ok && r->Ok_0 is None && *final(self)
                == *old(self),
            old(self).frame_buffer@.len() > 0 ==> {
                let buffered = old(self).frame_buffer@;
                &&& final(self).frame_buffer@.len() == 0
                &&& (old(self).engine.spec_max_single_batch(buffered[0].width, buffered[0].height)
                    > 0 ==> r is Ok && r->Ok_0 is Some && Self::spec_batch_results(
                    buffered,
                    r->Ok_0->Some_0@,
                ))
                &&& (old(self).engine.spec_max_single_batch(buffered[0].width, buffered[0].height)
                    <= 0 ==> r == Result::<Option<Vec<RgbFrame>>, ConvertError>::Err(
                    ConvertError::FrameTooLarge,
                ))
            },
    {
        if self.frame_buffer.len() == 0 {
            return Ok(None);
        }
        self.process_pending()
    }

    /// Drains the buffer and converts it as one batch through the engine.
    fn process_pending(&mut self) -> (r: Result<Option<Vec<RgbFrame>>, ConvertError>)
        requires
            old(self).engine.wf(),
            old(self).engine.alloc_count < u64::MAX,
            0 < old(self).batch_size,
            old(self).frame_buffer@.len() > 0,
            forall|i: int| 0 <= i < old(self).frame_buffer@.len() ==> spec_frame_convertible(
                #[trigger] old(self).frame_buffer@[i],
            ),
            forall|i: int| 0 <= i < old(self).frame_buffer@.len() ==> (#[trigger] old(
                self,
            ).frame_buffer@[i]).width == old(self).frame_buffer@[0].width && old(
                self,
            ).frame_buffer@[i].height == old(self).frame_buffer@[0].height,
        ensures
            final(self).wf(),
            final(self).frame_buffer@.len() == 0,
            final(self).batch_size == old(self).batch_size,
            final(self).max_wait_ms == old(self).max_wait_ms,
            final(self).engine.buffer_limit == old(self).engine.buffer_limit,
            final(self).engine.safety_num == old(self).engine.safety_num,
            final(self).engine.safety_den == old(self).engine.safety_den,
            final(self).engine.alloc_count <= old(self).engine.alloc_count + 1,
            old(self).engine.spec_max_single_batch(
                old(self).frame_buffer@[0].width,
                old(self).frame_buffer@[0].height,
            ) > 0 ==> r is Ok && r->Ok_0 is Some && Self::spec_batch_results(
                old(self).frame_buffer@,
                r->Ok_0->Some_0@,
            ),
            old(self).engine.spec_max_single_batch(
                old(self).frame_buffer@[0].width,
                old(self).frame_buffer@[0].height,
            ) <= 0 ==> r == Result::<Option<Vec<RgbFrame>>, ConvertError>::Err(
                ConvertError::FrameTooLarge,
            ),
    {
        let mut batch: Vec<FrameData> = Vec::new();
        core::mem::swap(&mut batch, &mut self.frame_buffer);
        proof {
            let frames = batch@;
            assert(spec_batch_scan(frames, frames[0].width, frames[0].height, 0) is None) by {
                lemma_scan_clean(frames, frames[0].width, frames[0].height, 0);
            }
        }
        let converted = self.engine.convert_batch_host(&batch);
        match converted {
            Ok(results) => Ok(Some(results)),
            Err(e) => Err(e),
        }
    }
}

/// A scan over convertible frames of one resolution reports no error.
proof fn lemma_scan_clean(frames: Seq<FrameData>, width: u32, height: u32, i: int)
    requires
        0 <= i <= frames.len(),
        forall|j: int| 0 <= j < frames.len() ==> spec_frame_convertible(#[trigger] frames[j]),
        forall|j: int| 0 <= j < frames.len() ==> (#[trigger] frames[j]).width == width
            && frames[j].height == height,
    ensures
        spec_batch_scan(frames, width, height, i) is None,
    decreases frames.len() - i,
{
    if i < frames.len() {
        lemma_scan_clean(frames, width, height, i + 1);
    }
}

/// The single-frame converter over the batched backend: every call adds the
/// frame and forces a flush if no batch was produced, so one frame in always
/// means one result out.
pub struct WgpuBatchConverter {
    /// The accumulator the frames run through.
    pub pool: WgpuBatchPool,
}

impl WgpuBatchConverter {
    /// A fresh converter around its own accumulator.
    pub fn new(batch_size: usize, max_wait_ms: u64) -> (r: Self)
        requires
            0 < batch_size,
        ensures
            r.pool.wf(),
            r.pool.frame_buffer@.len() == 0,
            r.pool.batch_size == batch_size,
            r.pool.max_wait_ms == max_wait_ms,
    {
        WgpuBatchConverter { pool: WgpuBatchPool::new(batch_size, max_wait_ms) }
    }

    /// Adds one frame to the underlying accumulator, reporting no waiting
    /// time: a rejected frame changes nothing, an accepted one joins the
    /// buffer, and reaching the batch target converts the whole buffer as
    /// one batch, in arrival order.
    pub fn add_frame(&mut self, frame_data: FrameData) -> (r: Result<
        Option<Vec<RgbFrame>>,
        ConvertError,
    >)
        requires
            old(self).pool.wf(),
            old(self).pool.engine.alloc_count < u64::MAX,
            0 < old(self).pool.max_wait_ms,
        ensures
            final(self).pool.wf(),
            final(self).pool.batch_size == old(self).pool.batch_size,
            final(self).pool.max_wait_ms == old(self).pool.max_wait_ms,
            !spec_frame_convertible(frame_data) ==> r == Result::<
                Option<Vec<RgbFrame>>,
                ConvertError,
            >::Err(spec_frame_error(frame_data)) && *final(self) == *old(self),
            spec_frame_convertible(frame_data) && old(self).pool.frame_buffer@.len() > 0 && !(
            frame_data.width == old(self).pool.frame_buffer@[0].width && frame_data.height == old(
                self,
            ).pool.frame_buffer@[0].height) ==> r == Result::<
                Option<Vec<RgbFrame>>,
                ConvertError,
            >::Err(ConvertError::MixedResolutions) && *final(self) == *old(self),
            spec_frame_convertible(frame_data) && (old(self).pool.frame_buffer@.len() == 0 || (
            frame_data.width == old(self).pool.frame_buffer@[0].width && frame_data.height == old(
                self,
            ).pool.frame_buffer@[0].height)) ==> {
                let buffered = old(self).pool.frame_buffer@.push(frame_data);
                &&& buffered.len() < old(self).pool.batch_size ==> {
                    &&& r is Ok && r->Ok_0 is None
                    &&& final(self).pool.frame_buffer@ == buffered
                    &&& final(self).pool.engine == old(self).pool.engine
                }
                &&& buffered.len() >= old(self).pool.batch_size ==> {
                    &&& final(self).pool.frame_buffer@.len() == 0
                    &&& (old(self).pool.engine.spec_max_single_batch(
                        frame_data.width,
                        frame_data.height,
                    ) > 0 ==> r is Ok && r->Ok_0 is Some && WgpuBatchPool::spec_batch_results(
                        buffered,
                        r->Ok_0->Some_0@,
                    ))
                    &&& (old(self).pool.engine.spec_max_single_batch(
                        frame_data.width,
                        frame_data.height,
                    ) <= 0 ==> r == Result::<Option<Vec<RgbFrame>>, ConvertError>::Err(
                        ConvertError::FrameTooLarge,
                    ))
                }
            },
    {
        self.pool.add_frame(frame_data, 0)
    }

    /// Converts whatever is pending in the accumulator, if anything, as one
    /// batch in arrival order.
    pub fn flush(&mut self) -> (r: Result<Option<Vec<RgbFrame>>, ConvertError>)
        requires
            old(self).pool.wf(),
            old(self).pool.engine.alloc_count < u64::MAX,
        ensures
            final(self).pool.wf(),
            final(self).pool.batch_size == old(self).pool.batch_size,
            final(self).pool.max_wait_ms == old(self).pool.max_wait_ms,
            final(self).pool.frame_buffer@.len() == 0,
            old(self).pool.frame_buffer@.len() == 0 ==> r is Ok && r->Ok_0 is None && *final(self)
                == *old(self),
            old(self).pool.frame_buffer@.len() > 0 ==> {
                let buffered = old(self).pool.frame_buffer@;
                &&& (old(self).pool.engine.spec_max_single_batch(
                    buffered[0].width,
                    buffered[0].height,
                ) > 0 ==> r is Ok && r->Ok_0 is Some && WgpuBatchPool::spec_batch_results(
                    buffered,
                    r->Ok_0->Some_0@,
                ))
                &&& (old(self).pool.engine.spec_max_single_batch(
                    buffered[0].width,
                    buffered[0].height,
                ) <= 0 ==> r == Result::<Option<Vec<RgbFrame>>, ConvertError>::Err(
                    ConvertError::FrameTooLarge,
                ))
            },
    {
        self.pool.flush()
    }

    /// Converts one frame synchronously: the frame is added, and if the
    /// batch target was not reached, the pending batch is flushed at once.
    /// The last result of the produced batch is this frame's conversion.
    pub fn convert(&mut self, frame_data: FrameData) -> (r: Result<Vec<u8>, ConvertError>)
        requires
            old(self).pool.wf(),
            old(self).pool.engine.alloc_count < u64::MAX,
            0 < old(self).pool.max_wait_ms,
        ensures
            final(self).pool.wf(),
            final(self).pool.batch_size == old(self).pool.batch_size,
            final(self).pool.max_wait_ms == old(self).pool.max_wait_ms,
            !spec_frame_convertible(frame_data) ==> r == Result::<Vec<u8>, ConvertError>::Err(
                spec_frame_error(frame_data),
            ),
            spec_frame_convertible(frame_data) && (old(self).pool.frame_buffer@.len() == 0 || (
            frame_data.width == old(self).pool.frame_buffer@[0].width && frame_data.height == old(
                self,
            ).pool.frame_buffer@[0].height)) && old(self).pool.engine.spec_max_single_batch(
                frame_data.width,
                frame_data.height,
            ) > 0 ==> r is Ok,
            r is Ok ==> r->Ok_0@ == spec_frame_rgb(frame_data),
    {
        let ghost frame_ghost = frame_data;
        let width = frame_data.width;
        let height = frame_data.height;
        let added = self.pool.add_frame(frame_data, 0);
        match added {
            Err(e) => Err(e),
            Ok(Some(mut results)) => {
                // The added frame is the last of the batch just converted.
                let last = results.pop();
                match last {
                    Some(rgb_frame) => Ok(rgb_frame.data),
                    None => Err(ConvertError::EmptyBatch),
                }
            },
            Ok(None) => {
                let flushed = self.pool.flush();
                match flushed {
                    Err(e) => Err(e),
                    Ok(Some(mut results)) => {
                        let last = results.pop();
                        match last {
                            Some(rgb_frame) => Ok(rgb_frame.data),
                            None => Err(ConvertError::EmptyBatch),
                        }
                    },
                    Ok(None) => Err(ConvertError::EmptyBatch),
                }
            },
        }
    }
}

} // verus!
