//! A small fixed ring of reusable byte buffers: the extraction stage draws
//! cleared buffers from it round-robin instead of allocating one per frame.

use vstd::prelude::*;

verus! {

/// The ring of buffers and the round-robin cursor.
pub struct FrameDataPool {
    /// The reusable buffers.
    pub buffers: Vec<Vec<u8>>,
    /// The slot the next request is served from.
    pub current_index: usize,
}

impl FrameDataPool {
    /// The cursor always points at a slot.
    pub open spec fn wf(self) -> bool {
        &&& self.buffers@.len() > 0
        &&& self.current_index < self.buffers@.len()
    }

    /// A pool of `capacity` empty buffers, each with room for `buffer_size`
    /// bytes before it first grows.
    pub fn new(capacity: usize, buffer_size: usize) -> (r: Self)
        requires
            0 < capacity,
        ensures
            r.wf(),
            r.buffers@.len() == capacity,
            r.current_index == 0,
            forall|i: int| 0 <= i < capacity ==> (#[trigger] r.buffers@[i])@.len() == 0,
    {
        let mut buffers: Vec<Vec<u8>> = Vec::new();
        let mut i: usize = 0;
        while i < capacity
            invariant
                i <= capacity,
                buffers@.len() == i,
                forall|j: int| 0 <= j < i ==> (#[trigger] buffers@[j])@.len() == 0,
            decreases capacity - i,
        {
            buffers.push(Vec::with_capacity(buffer_size));
            i += 1;
        }
        FrameDataPool { buffers, current_index: 0 }
    }

    /// Takes the buffer at the cursor, cleared and grown to hold at least
    /// `required_size` bytes, and advances the cursor one slot round-robin.
    /// The vacated slot holds a fresh empty buffer. Never blocks, never
    /// fails.
    pub fn get_buffer(&mut self, required_size: usize) -> (r: Vec<u8>)
        requires
            old(self).wf(),
        ensures
            final(self).wf(),
            r@.len() == 0,
            final(self).buffers@.len() == old(self).buffers@.len(),
            final(self).current_index == ((old(self).current_index + 1) as int % old(
                self,
            ).buffers@.len() as int) as usize,
            (final(self).buffers@[old(self).current_index as int])@.len() == 0,
            forall|j: int| 0 <= j < old(self).buffers@.len() && j != old(self).current_index
                ==> final(self).buffers@[j] == old(self).buffers@[j],
    {
        let current_idx = self.current_index;
        let n = self.buffers.len();
        self.current_index = (current_idx + 1) % n;
        let mut buffer: Vec<u8> = Vec::new();
        let slot = vstd::std_specs::vec::vec_index_mut(&mut self.buffers, current_idx);
        core::mem::swap(&mut buffer, slot);
        buffer.clear();
        buffer.reserve(required_size);
        buffer
    }
}

} // verus!
