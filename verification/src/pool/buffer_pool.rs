//! Thread-safe buffer pool implementation.

use vstd::prelude::*;
use vstd::rwlock::RwLock;
use std::collections::VecDeque;
use std::sync::Arc;
use std::sync::mpsc::Sender;
use crate::buffer::PinnedBuffer;
use crate::channel::{channel, try_receive};
use crate::error::SaferRingError;
use crate::ownership::share;
use super::{pool_consistent, PoolInner, PoolInvariant, PoolStats, PooledBuffer};

verus! {

/// Thread-safe pool of pre-allocated pinned buffers.
pub struct BufferPool {
    inner: Arc<RwLock<PoolInner, PoolInvariant>>,
    returns: Arc<Sender<PinnedBuffer>>,
    capacity: usize,
    buffer_size: usize,
}

/// Takes back into the pool the buffers dropped handles sent: each one of
/// the pool's size goes to the back of the available buffers while some
/// buffer is counted as lent; any other is discarded. At most `capacity`
/// are taken per call (no more can be lent out).
fn collect_returns(inner: &mut PoolInner, capacity: usize, buffer_size: usize)
    requires
        pool_consistent(*old(inner), capacity, buffer_size),
    ensures
        pool_consistent(*final(inner), capacity, buffer_size),
        final(inner).total_allocations == old(inner).total_allocations,
        final(inner).failed_allocations == old(inner).failed_allocations,
{
    let mut i: usize = 0;
    let mut done = false;
    while i < capacity && !done
        invariant
            pool_consistent(*inner, capacity, buffer_size),
            inner.total_allocations == old(inner).total_allocations,
            inner.failed_allocations == old(inner).failed_allocations,
        decreases capacity - i,
    {
        match try_receive(&inner.returned) {
            Some(buffer) => {
                inner.put_back(buffer, capacity, buffer_size);
            },
            None => {
                done = true;
            },
        }
        i = i + 1;
    }
}

impl BufferPool {
    #[verifier::type_invariant]
    spec fn wf(&self) -> bool {
        &&& self.inner.pred().capacity == self.capacity
        &&& self.inner.pred().buffer_size == self.buffer_size
    }

    /// The number of buffers the pool manages.
    pub closed spec fn capacity_spec(&self) -> usize {
        self.capacity
    }

    /// The pool's shared state.
    pub closed spec fn shared(&self) -> RwLock<PoolInner, PoolInvariant> {
        *self.inner
    }

    /// The size of each buffer in bytes.
    pub closed spec fn buffer_size_spec(&self) -> usize {
        self.buffer_size
    }

    /// Creates a pool of `capacity` zeroed buffers of `buffer_size` bytes,
    /// all available. Both must be nonzero.
    pub fn new(capacity: usize, buffer_size: usize) -> (r: Self)
        requires
            capacity > 0,
            buffer_size > 0,
        ensures
            r.capacity_spec() == capacity,
            r.buffer_size_spec() == buffer_size,
    {
        let mut available: VecDeque<PinnedBuffer> = VecDeque::new();
        let mut i: usize = 0;
        while i < capacity
            invariant
                i <= capacity,
                available@.len() == i,
                forall|k: int| 0 <= k < i ==> (#[trigger] available@[k]).bytes().len() == buffer_size,
            decreases capacity - i,
        {
            available.push_back(PinnedBuffer::with_capacity(buffer_size));
            i = i + 1;
        }
        let (sender, receiver) = channel();
        let inner = PoolInner {
            available,
            in_use: 0,
            total_allocations: 0,
            failed_allocations: 0,
            returned: receiver,
        };
        let lock = RwLock::new(inner, Ghost(PoolInvariant { capacity, buffer_size }));
        BufferPool { inner: Arc::new(lock), returns: Arc::new(sender), capacity, buffer_size }
    }

    /// Creates a pool of `capacity` buffers made by the factory, all
    /// available; the pool's buffer size is that of the buffers, which must
    /// all have the same size.
    pub fn with_factory<F: Fn() -> PinnedBuffer>(capacity: usize, buffer_factory: F) -> (r: Self)
        requires
            capacity > 0,
            call_requires(buffer_factory, ()),
            forall|a: PinnedBuffer, b: PinnedBuffer|
                call_ensures(buffer_factory, (), a) && call_ensures(buffer_factory, (), b) ==> a.bytes().len()
                    == b.bytes().len(),
        ensures
            r.capacity_spec() == capacity,
            forall|b: PinnedBuffer| call_ensures(buffer_factory, (), b) ==> r.buffer_size_spec() == b.bytes().len(),
    {
        let mut available: VecDeque<PinnedBuffer> = VecDeque::new();
        let first = buffer_factory();
        let buffer_size = first.len();
        available.push_back(first);
        let mut i: usize = 1;
        while i < capacity
            invariant
                1 <= i <= capacity,
                available@.len() == i,
                call_requires(buffer_factory, ()),
                forall|a: PinnedBuffer| call_ensures(buffer_factory, (), a) ==> a.bytes().len() == buffer_size,
                forall|k: int| 0 <= k < i ==> (#[trigger] available@[k]).bytes().len() == buffer_size,
            decreases capacity - i,
        {
            let buffer = buffer_factory();
            available.push_back(buffer);
            i = i + 1;
        }
        let (sender, receiver) = channel();
        let inner = PoolInner {
            available,
            in_use: 0,
            total_allocations: 0,
            failed_allocations: 0,
            returned: receiver,
        };
        let lock = RwLock::new(inner, Ghost(PoolInvariant { capacity, buffer_size }));
        BufferPool { inner: Arc::new(lock), returns: Arc::new(sender), capacity, buffer_size }
    }

    /// Takes an available buffer, or `None` (counting a failed attempt) when
    /// all are in use. The buffer returns to the pool when the handle drops.
    pub fn try_get(&self) -> (r: Result<Option<PooledBuffer>, SaferRingError>)
        ensures
            r matches Ok(o) && (o matches Some(b) ==> b.pool() == self.shared() && b.wf() && b.bytes().len()
                == self.buffer_size_spec()),
    {
        proof {
            use_type_invariant(self);
        }
        let (mut inner, handle) = self.inner.acquire_write();
        collect_returns(&mut inner, self.capacity, self.buffer_size);
        let taken = inner.take(self.capacity, self.buffer_size);
        handle.release_write(inner);
        match taken {
            Some(buffer) => Ok(
                Some(PooledBuffer::new(buffer, self.buffer_size, share(&self.inner), share(&self.returns))),
            ),
            None => Ok(None),
        }
    }

    /// The number of available buffers.
    pub fn available(&self) -> (r: Result<usize, SaferRingError>)
        ensures
            r matches Ok(n) && n <= self.capacity_spec(),
    {
        proof {
            use_type_invariant(self);
        }
        let (mut inner, handle) = self.inner.acquire_write();
        collect_returns(&mut inner, self.capacity, self.buffer_size);
        let n = inner.available.len();
        handle.release_write(inner);
        Ok(n)
    }

    /// The number of buffers lent out.
    pub fn in_use(&self) -> (r: Result<usize, SaferRingError>)
        ensures
            r matches Ok(n) && n <= self.capacity_spec(),
    {
        proof {
            use_type_invariant(self);
        }
        let (mut inner, handle) = self.inner.acquire_write();
        collect_returns(&mut inner, self.capacity, self.buffer_size);
        let n = inner.in_use;
        handle.release_write(inner);
        Ok(n)
    }

    /// Whether every buffer is lent out.
    pub fn is_empty(&self) -> (r: Result<bool, SaferRingError>)
        ensures
            r is Ok,
    {
        proof {
            use_type_invariant(self);
        }
        let (mut inner, handle) = self.inner.acquire_write();
        collect_returns(&mut inner, self.capacity, self.buffer_size);
        let e = inner.available.len() == 0;
        handle.release_write(inner);
        Ok(e)
    }

    /// Whether every buffer is available.
    pub fn is_full(&self) -> (r: Result<bool, SaferRingError>)
        ensures
            r is Ok,
    {
        proof {
            use_type_invariant(self);
        }
        let (mut inner, handle) = self.inner.acquire_write();
        collect_returns(&mut inner, self.capacity, self.buffer_size);
        let f = inner.available.len() == self.capacity;
        handle.release_write(inner);
        Ok(f)
    }

    /// The available count, the lent count, whether the pool is empty and
    /// whether it is full, all read at one moment: the two counts add up to
    /// the capacity.
    pub fn snapshot(&self) -> (r: Result<(usize, usize, bool, bool), SaferRingError>)
        ensures
            r matches Ok(t) && t.0 + t.1 == self.capacity_spec() && t.2 == (t.0 == 0) && t.3 == (t.0
                == self.capacity_spec()),
    {
        proof {
            use_type_invariant(self);
        }
        let (mut inner, handle) = self.inner.acquire_write();
        collect_returns(&mut inner, self.capacity, self.buffer_size);
        let available = inner.available.len();
        let in_use = inner.in_use;
        let is_empty = available == 0;
        let is_full = available == self.capacity;
        handle.release_write(inner);
        Ok((available, in_use, is_empty, is_full))
    }

    /// The pool's counts, all read at one moment.
    pub fn stats(&self) -> (r: Result<PoolStats, SaferRingError>)
        ensures
            r matches Ok(s) && s.capacity == self.capacity_spec() && s.buffer_size == self.buffer_size_spec()
                && s.available + s.in_use == s.capacity && s.total_buffers == s.capacity
                && s.available_buffers == s.available && s.in_use_buffers == s.in_use,
    {
        proof {
            use_type_invariant(self);
        }
        let (mut inner, handle) = self.inner.acquire_write();
        collect_returns(&mut inner, self.capacity, self.buffer_size);
        let stats = PoolStats {
            capacity: self.capacity,
            available: inner.available.len(),
            in_use: inner.in_use,
            buffer_size: self.buffer_size,
            total_allocations: inner.total_allocations,
            failed_allocations: inner.failed_allocations,
            total_buffers: self.capacity,
            available_buffers: inner.available.len(),
            in_use_buffers: inner.in_use,
        };
        handle.release_write(inner);
        Ok(stats)
    }

    /// The number of buffers the pool manages.
    pub fn capacity(&self) -> (r: usize)
        ensures
            r == self.capacity_spec(),
    {
        self.capacity
    }

    /// The size of each buffer in bytes.
    pub fn buffer_size(&self) -> (r: usize)
        ensures
            r == self.buffer_size_spec(),
    {
        self.buffer_size
    }
}

/// The wait before the next attempt of a blocking get: twice the last
/// one, at most a millisecond (in microseconds).
pub open spec fn next_backoff_spec(backoff_us: u64) -> u64 {
    if backoff_us * 2 < 1000 {
        (backoff_us * 2) as u64
    } else {
        1000
    }
}

/// The wait in microseconds before the next attempt of a blocking get,
/// after one of `backoff_us`: exponential backoff capped at a millisecond.
pub fn next_backoff(backoff_us: u64) -> (r: u64)
    ensures
        r == next_backoff_spec(backoff_us),
{
    if backoff_us < 500 {
        backoff_us * 2
    } else {
        1000
    }
}

} // verus!
