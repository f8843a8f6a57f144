//! The batched conversion pipeline end to end: a stream of numbered frames
//! runs through the accumulator and the engine, and the results come out
//! paired with their frame numbers, in exactly the input order — filenames
//! and indices downstream depend on it.

use vstd::prelude::*;
use vstd::pervasive::unreached;
use crate::batch::WgpuBatchPool;
use crate::frame::{spec_frame_convertible, FrameData, RgbFrame};
use crate::convert::spec_frame_rgb;

verus! {

impl WgpuBatchPool {
    /// Feeds the frames through the accumulator in order, converting a
    /// batch whenever the target is reached and flushing the remainder at
    /// the end. The output holds one converted frame per input frame, in
    /// input order, each paired with its frame number.
    pub fn process_stream(&mut self, frames: Vec<FrameData>) -> (r: Vec<(u32, RgbFrame)>)
        requires
            old(self).wf(),
            old(self).frame_buffer@.len() == 0,
            old(self).engine.alloc_count < u64::MAX - 0x4000_0000,
            0 < old(self).max_wait_ms,
            forall|i: int| 0 <= i < frames@.len() ==> spec_frame_convertible(
                #[trigger] frames@[i],
            ),
            forall|i: int| 0 <= i < frames@.len() ==> (#[trigger] frames@[i]).width
                == frames@[0].width && frames@[i].height == frames@[0].height,
            frames@.len() > 0 ==> old(self).engine.spec_max_single_batch(
                frames@[0].width,
                frames@[0].height,
            ) > 0,
            frames@.len() < 0x4000_0000,
        ensures
            final(self).wf(),
            r@.len() == frames@.len(),
            forall|i: int| 0 <= i < frames@.len() ==> {
                &&& (#[trigger] r@[i]).0 == frames@[i].frame_number
                &&& r@[i].1.width == frames@[i].width
                &&& r@[i].1.height == frames@[i].height
                &&& r@[i].1.data@ == spec_frame_rgb(frames@[i])
            },
    {
        let ghost frames0 = frames@;
        let mut frames = frames;
        let mut numbers: Vec<u32> = Vec::new();
        let mut out: Vec<(u32, RgbFrame)> = Vec::new();
        while frames.len() > 0
            invariant
                self.wf(),
                0 < self.max_wait_ms == old(self).max_wait_ms,
                self.batch_size == old(self).batch_size,
                self.engine.alloc_count < u64::MAX,
                self.engine.buffer_limit == old(self).engine.buffer_limit,
                self.engine.safety_num == old(self).engine.safety_num,
                self.engine.safety_den == old(self).engine.safety_den,
                self.engine.alloc_count <= old(self).engine.alloc_count + out@.len(),
                old(self).engine.alloc_count < u64::MAX - 0x4000_0000,
                frames0.len() < 0x4000_0000,
                out@.len() + numbers@.len() + frames@.len() == frames0.len(),
                frames@ == frames0.subrange(
                    (out@.len() + numbers@.len()) as int,
                    frames0.len() as int,
                ),
                self.frame_buffer@ == frames0.subrange(
                    out@.len() as int,
                    (out@.len() + numbers@.len()) as int,
                ),
                numbers@.len() == self.frame_buffer@.len(),
                forall|k: int| 0 <= k < numbers@.len() ==> #[trigger] numbers@[k]
                    == self.frame_buffer@[k].frame_number,
                forall|i: int| 0 <= i < frames0.len() ==> spec_frame_convertible(
                    #[trigger] frames0[i],
                ),
                forall|i: int| 0 <= i < frames0.len() ==> (#[trigger] frames0[i]).width
                    == frames0[0].width && frames0[i].height == frames0[0].height,
                frames0.len() > 0 ==> self.engine.spec_max_single_batch(
                    frames0[0].width,
                    frames0[0].height,
                ) > 0,
                forall|i: int| 0 <= i < out@.len() ==> {
                    &&& (#[trigger] out@[i]).0 == frames0[i].frame_number
                    &&& out@[i].1.width == frames0[i].width
                    &&& out@[i].1.height == frames0[i].height
                    &&& out@[i].1.data@ == spec_frame_rgb(frames0[i])
                },
            decreases frames@.len(),
        {
            let frame = frames.remove(0);
            let number = frame.frame_number;
            let ghost consumed: int = (out@.len() + numbers@.len()) as int;
            proof {
                assert(frame == frames0[consumed as int]);
            }
            numbers.push(number);
            let added = self.add_frame(frame, 0);
            match added {
                Ok(None) => {
                    proof {
                        assert(self.frame_buffer@ =~= frames0.subrange(
                            out@.len() as int,
                            (out@.len() + numbers@.len()) as int,
                        ));
                    }
                },
                Ok(Some(results)) => {
                    let ghost batch = frames0.subrange(out@.len() as int, consumed + 1 as int);
                    proof {
                        assert(frames0.subrange(out@.len() as int, consumed as int).push(
                            frames0[consumed as int],
                        ) =~= batch);
                    }
                    let count = results.len();
                    let mut j: usize = 0;
                    let mut results = results;
                    let ghost results0 = results@;
                    let ghost out_base = out@.len() as int;
                    while j < count
                        invariant
                            j <= count,
                            count == results0.len(),
                            count == numbers@.len(),
                            results@ == results0.subrange(j as int, count as int),
                            0 <= out_base,
                            out@.len() == out_base + j,
                            forall|k: int| 0 <= k < count ==> #[trigger] results0[k].width
                                == batch[k].width && results0[k].height == batch[k].height
                                && results0[k].data@ == spec_frame_rgb(batch[k]),
                            batch == frames0.subrange(out_base, out_base + count),
                            out_base + count <= frames0.len(),
                            forall|k: int| 0 <= k < count ==> #[trigger] numbers@[k]
                                == batch[k].frame_number,
                            forall|i: int| 0 <= i < out@.len() ==> {
                                &&& (#[trigger] out@[i]).0 == frames0[i].frame_number
                                &&& out@[i].1.width == frames0[i].width
                                &&& out@[i].1.height == frames0[i].height
                                &&& out@[i].1.data@ == spec_frame_rgb(frames0[i])
                            },
                        decreases count - j,
                    {
                        let rgb_frame = results.remove(0);
                        proof {
                            assert(rgb_frame == results0[j as int]);
                            assert(results@ =~= results0.subrange(j + 1 as int, count as int));
                        }
                        let num_j = numbers[j];
                        out.push((num_j, rgb_frame));
                        proof {
                            assert(frames0.subrange(out_base, out_base + count as int)[j as int]
                                == frames0[out_base + j as int]);
                            assert(batch[j as int] == frames0[out_base + j as int]);
                            assert(out@[out_base + j as int] == (num_j, rgb_frame));
                        }
                        j += 1;
                    }
                    numbers.clear();
                    proof {
                        assert(self.frame_buffer@ =~= frames0.subrange(
                            out@.len() as int,
                            out@.len() as int,
                        ));
                    }
                },
                Err(_) => {
                    proof {
                        assert(false);
                    }
                    unreached()
                },
            }
            proof {
                assert(frames@ =~= frames0.subrange(
                    (out@.len() + numbers@.len()) as int,
                    frames0.len() as int,
                ));
            }
        }
        let flushed = self.flush();
        match flushed {
            Ok(None) => {
                proof {
                    assert(numbers@.len() == 0);
                    assert(out@.len() == frames0.len());
                }
                out
            },
            Ok(Some(results)) => {
                let ghost batch = frames0.subrange(out@.len() as int, frames0.len() as int);
                let count = results.len();
                let mut j: usize = 0;
                let mut results = results;
                let ghost results0 = results@;
                let ghost out_base = out@.len() as int;
                while j < count
                    invariant
                        j <= count,
                        count == results0.len(),
                        count == numbers@.len(),
                        results@ == results0.subrange(j as int, count as int),
                        0 <= out_base,
                        out@.len() == out_base + j,
                        forall|k: int| 0 <= k < count ==> #[trigger] results0[k].width
                            == batch[k].width && results0[k].height == batch[k].height
                            && results0[k].data@ == spec_frame_rgb(batch[k]),
                        batch == frames0.subrange(out_base, out_base + count),
                        out_base + count == frames0.len(),
                        forall|k: int| 0 <= k < count ==> #[trigger] numbers@[k]
                            == batch[k].frame_number,
                        forall|i: int| 0 <= i < out@.len() ==> {
                            &&& (#[trigger] out@[i]).0 == frames0[i].frame_number
                            &&& out@[i].1.width == frames0[i].width
                            &&& out@[i].1.height == frames0[i].height
                            &&& out@[i].1.data@ == spec_frame_rgb(frames0[i])
                        },
                    decreases count - j,
                {
                    let rgb_frame = results.remove(0);
                    proof {
                        assert(rgb_frame == results0[j as int]);
                        assert(results@ =~= results0.subrange(j + 1 as int, count as int));
                    }
                    let num_j = numbers[j];
                    out.push((num_j, rgb_frame));
                    proof {
                        assert(frames0.subrange(out_base, out_base + count as int)[j as int]
                            == frames0[out_base + j as int]);
                        assert(batch[j as int] == frames0[out_base + j as int]);
                        assert(out@[out_base + j as int] == (num_j, rgb_frame));
                    }
                    j += 1;
                }
                out
            },
            Err(_) => {
                proof {
                    assert(false);
                }
                unreached()
            },
        }
    }
}

} // verus!
