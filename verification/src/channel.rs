//! The bounded, ordered channel between the extraction stage and the
//! conversion stage — modeled as a FIFO queue with a hard capacity. A full
//! queue refuses the frame rather than dropping it: the producer must
//! suspend and try again, which is the single backpressure point of the
//! pipeline.

use vstd::prelude::*;
use crate::frame::ChannelFrameData;

verus! {

/// What `try_send` did with the frame.
#[derive(Clone, Copy, Debug, PartialEq, Eq, Structural)]
pub enum SendOutcome {
    /// The frame was enqueued.
    Sent,
    /// The queue is at capacity; the frame was not enqueued and nothing was
    /// dropped. The producer must suspend until space frees up.
    WouldBlock,
}

/// A bounded FIFO queue of frames.
pub struct FrameChannel {
    /// Queued frames, oldest first.
    pub queue: Vec<ChannelFrameData>,
    /// The hard bound on how many frames may be queued at once.
    pub capacity: usize,
}

impl FrameChannel {
    /// The queue never exceeds its capacity.
    pub open spec fn wf(self) -> bool {
        self.queue@.len() <= self.capacity
    }

    /// An empty channel with the given capacity.
    pub fn new(capacity: usize) -> (r: Self)
        requires
            0 < capacity,
        ensures
            r.wf(),
            r.queue@.len() == 0,
            r.capacity == capacity,
    {
        FrameChannel { queue: Vec::new(), capacity }
    }

    /// How many frames are queued.
    pub fn len(&self) -> (r: usize)
        ensures
            r == self.queue@.len(),
    {
        self.queue.len()
    }

    /// Enqueues the frame if the queue is below capacity; a full queue
    /// refuses it, unchanged — no frame is ever dropped.
    pub fn try_send(&mut self, frame: ChannelFrameData) -> (r: SendOutcome)
        requires
            old(self).wf(),
        ensures
            final(self).wf(),
            final(self).capacity == old(self).capacity,
            old(self).queue@.len() < old(self).capacity ==> r == SendOutcome::Sent
                && final(self).queue@ == old(self).queue@.push(frame),
            old(self).queue@.len() >= old(self).capacity ==> r == SendOutcome::WouldBlock
                && final(self).queue@ == old(self).queue@,
    {
        if self.queue.len() < self.capacity {
            self.queue.push(frame);
            SendOutcome::Sent
        } else {
            SendOutcome::WouldBlock
        }
    }

    /// Dequeues the oldest frame, if any: frames leave in the order they
    /// arrived.
    pub fn try_recv(&mut self) -> (r: Option<ChannelFrameData>)
        requires
            old(self).wf(),
        ensures
            final(self).wf(),
            final(self).capacity == old(self).capacity,
            old(self).queue@.len() == 0 ==> r is None && final(self).queue@ == old(self).queue@,
            old(self).queue@.len() > 0 ==> r is Some && r->0 == old(self).queue@[0]
                && final(self).queue@ == old(self).queue@.subrange(
                1,
                old(self).queue@.len() as int,
            ),
    {
        if self.queue.len() == 0 {
            None
        } else {
            let frame = self.queue.remove(0);
            Some(frame)
        }
    }
}

} // verus!
