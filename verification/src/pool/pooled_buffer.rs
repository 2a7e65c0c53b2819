//! Handles to buffers lent out by a pool.

use vstd::prelude::*;
use vstd::rwlock::RwLock;
use std::sync::Arc;
use std::sync::mpsc::Sender;
use crate::buffer::PinnedBuffer;
use crate::channel::send;
use super::{PoolInner, PoolInvariant};

verus! {

/// A buffer lent out by a pool; dropping the handle returns the buffer.
pub struct PooledBuffer {
    buffer: PinnedBuffer,
    /// An empty buffer that takes the lent one's place when it goes back;
    /// `None` once the buffer went back or was detached.
    stand_in: Option<PinnedBuffer>,
    size: usize,
    pool: Arc<RwLock<PoolInner, PoolInvariant>>,
    returns: Arc<Sender<PinnedBuffer>>,
}

impl PooledBuffer {
    /// The handle is consistent: it knows its pool's buffer size.
    pub closed spec fn wf(&self) -> bool {
        self.pool.pred().buffer_size == self.size
    }

    /// The pool the buffer belongs to.
    pub closed spec fn pool(&self) -> RwLock<PoolInner, PoolInvariant> {
        *self.pool
    }

    /// The buffer's bytes.
    pub closed spec fn bytes(&self) -> Seq<u8> {
        self.buffer.bytes()
    }

    /// The empty buffer kept to take the lent one's place.
    pub closed spec fn stand_in_spec(&self) -> Option<PinnedBuffer> {
        self.stand_in
    }

    /// Whether the buffer no longer goes back to the pool when the handle
    /// goes: it was detached or already given back.
    pub closed spec fn released(&self) -> bool {
        self.stand_in is None
    }

    pub(crate) fn new(
        buffer: PinnedBuffer,
        size: usize,
        pool: Arc<RwLock<PoolInner, PoolInvariant>>,
        returns: Arc<Sender<PinnedBuffer>>,
    ) -> (r: Self)
        requires
            pool.pred().buffer_size == size,
        ensures
            r.pool() == *pool,
            r.bytes() == buffer.bytes(),
            r.wf(),
            !r.released(),
    {
        let stand_in = PinnedBuffer::with_capacity(0);
        PooledBuffer { buffer, stand_in: Some(stand_in), size, pool, returns }
    }

    /// The lent buffer.
    pub fn buffer(&self) -> (r: &PinnedBuffer)
        ensures
            r.bytes() == self.bytes(),
    {
        &self.buffer
    }

    /// The lent buffer, for writing.
    pub fn buffer_mut(&mut self) -> (r: &mut PinnedBuffer)
        ensures
            r.bytes() == old(self).bytes(),
            final(r).bytes() == final(self).bytes(),
            final(self).pool() == old(self).pool(),
            final(self).wf() == old(self).wf(),
            final(self).released() == old(self).released(),
    {
        &mut self.buffer
    }

    /// The buffer's bytes, for writing.
    pub fn as_mut_slice(&mut self) -> (r: &mut [u8])
        ensures
            r@ == old(self).bytes(),
            final(r)@ == final(self).bytes(),
            final(self).pool() == old(self).pool(),
            final(self).wf() == old(self).wf(),
    {
        self.buffer_mut().as_mut_slice()
    }

    /// The buffer's bytes.
    pub fn as_slice(&self) -> (r: &[u8])
        ensures
            r@ == self.bytes(),
    {
        self.buffer.as_slice()
    }

    /// The number of bytes in the buffer.
    pub fn len(&self) -> (r: usize)
        ensures
            r == self.bytes().len(),
    {
        self.buffer.len()
    }

    /// Whether the buffer holds no bytes.
    pub fn is_empty(&self) -> (r: bool)
        ensures
            r == (self.bytes().len() == 0),
    {
        self.buffer.is_empty()
    }

    /// Takes the buffer out of the pool for good: it stays counted as in use
    /// and is not returned when the handle goes.
    pub fn detach(self) -> (r: PinnedBuffer)
        ensures
            r.bytes() == self.bytes(),
    {
        let mut this = self;
        let mut taken = PinnedBuffer::with_capacity(0);
        std::mem::swap(&mut taken, this.buffer_mut());
        this.stand_in = None;
        taken
    }

    /// Sends the buffer back to its pool, unless it was detached or already
    /// sent; the pool takes it in the next time it is used. The empty
    /// stand-in takes its place in the handle. Sending takes no lock, so a
    /// drop can do it.
    fn give_back(&mut self)
        ensures
            final(self).released(),
            final(self).pool() == old(self).pool(),
            final(self).wf() == old(self).wf(),
            match old(self).stand_in_spec() {
                Some(empty) => final(self).bytes() == empty.bytes(),
                None => final(self).bytes() == old(self).bytes(),
            },
        opens_invariants none
        no_unwind
    {
        let mut slot: Option<PinnedBuffer> = None;
        std::mem::swap(&mut slot, &mut self.stand_in);
        match slot {
            Some(mut lent) => {
                std::mem::swap(&mut lent, &mut self.buffer);
                send(&self.returns, lent);
            },
            None => {},
        }
    }
}

impl Drop for PooledBuffer {
    /// Sends the buffer back to its pool.
    fn drop(&mut self)
        opens_invariants none
        no_unwind
    {
        self.give_back();
    }
}

} // verus!
