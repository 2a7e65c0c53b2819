//! Buffer pool for efficient buffer reuse.
//!
//! A pool pre-allocates its buffers and lends them out; a lent buffer goes
//! back to the pool when its handle is dropped. Every buffer of the pool is
//! either available or lent, so the two counts always add up to the
//! pool's capacity.

pub mod buffer_pool;
pub mod pooled_buffer;
pub mod stats;

use vstd::prelude::*;
use vstd::rwlock::RwLockPredicate;
use std::collections::VecDeque;
use std::sync::mpsc::Receiver;
use crate::buffer::PinnedBuffer;

pub use buffer_pool::BufferPool;
pub use pooled_buffer::PooledBuffer;
pub use stats::PoolStats;

verus! {

/// The pool's shared state.
pub struct PoolInner {
    /// Available buffers, lent out first in first out
    pub available: VecDeque<PinnedBuffer>,
    /// Number of buffers currently lent out
    pub in_use: usize,
    /// Total successful allocations (for monitoring)
    pub total_allocations: u64,
    /// Total failed allocation attempts (for monitoring)
    pub failed_allocations: u64,
    /// Buffers handed back by dropped handles, not yet collected
    pub returned: Receiver<PinnedBuffer>,
}

/// The pool's invariant: the available and the lent buffers add up to the
/// capacity, and every available buffer has the pool's buffer size.
pub struct PoolInvariant {
    /// The number of buffers the pool manages.
    pub capacity: usize,
    /// The size of each buffer in bytes.
    pub buffer_size: usize,
}

/// The pool's accounting holds of a state: the available and the lent
/// buffers add up to the capacity, and each available buffer has the size.
pub open spec fn pool_consistent(inner: PoolInner, capacity: usize, buffer_size: usize) -> bool {
    &&& inner.available@.len() + inner.in_use == capacity
    &&& forall|i: int| 0 <= i < inner.available@.len() ==> (#[trigger] inner.available@[i]).bytes().len() == buffer_size
}

impl RwLockPredicate<PoolInner> for PoolInvariant {
    open spec fn inv(self, v: PoolInner) -> bool {
        pool_consistent(v, self.capacity, self.buffer_size)
    }
}


/// A counter after one more event; it wraps to 0 after `u64::MAX`.
pub open spec fn count_up(n: u64) -> u64 {
    if n == u64::MAX {
        0
    } else {
        (n + 1) as u64
    }
}

fn count_up_exec(n: u64) -> (r: u64)
    ensures
        r == count_up(n),
{
    if n == u64::MAX {
        0
    } else {
        n + 1
    }
}

impl PoolInner {
    /// Lends the oldest available buffer, if there is one: it leaves the
    /// front of the available buffers, one more buffer counts as lent and
    /// the successful allocations go up by one. With none available nothing
    /// is lent and the failed attempts go up by one instead.
    pub fn take(&mut self, capacity: usize, buffer_size: usize) -> (r: Option<PinnedBuffer>)
        requires
            pool_consistent(*old(self), capacity, buffer_size),
        ensures
            pool_consistent(*final(self), capacity, buffer_size),
            final(self).returned == old(self).returned,
            old(self).available@.len() > 0 ==> {
                &&& r == Some(old(self).available@[0])
                &&& final(self).available@ == old(self).available@.drop_first()
                &&& final(self).in_use == old(self).in_use + 1
                &&& final(self).total_allocations == count_up(old(self).total_allocations)
                &&& final(self).failed_allocations == old(self).failed_allocations
            },
            old(self).available@.len() == 0 ==> {
                &&& r is None
                &&& final(self).available@ == old(self).available@
                &&& final(self).in_use == old(self).in_use
                &&& final(self).total_allocations == old(self).total_allocations
                &&& final(self).failed_allocations == count_up(old(self).failed_allocations)
            },
    {
        let ghost before = self.available@;
        let taken = self.available.pop_front();
        match taken {
            Some(buffer) => {
                self.in_use = self.in_use + 1;
                self.total_allocations = count_up_exec(self.total_allocations);
                proof {
                    assert(self.available@ =~= before.drop_first());
                    assert forall|i: int| 0 <= i < self.available@.len() implies (
                    #[trigger] self.available@[i]).bytes().len() == buffer_size by {
                        assert(self.available@[i] == before[i + 1]);
                    }
                }
                Some(buffer)
            },
            None => {
                self.failed_allocations = count_up_exec(self.failed_allocations);
                None
            },
        }
    }

    /// Takes a lent buffer back: while some buffer counts as lent, a buffer
    /// of the pool's size goes to the back of the available buffers and one
    /// fewer counts as lent; any other buffer is discarded and nothing
    /// changes. The allocation counters never change.
    pub fn put_back(&mut self, buffer: PinnedBuffer, capacity: usize, buffer_size: usize)
        requires
            pool_consistent(*old(self), capacity, buffer_size),
        ensures
            pool_consistent(*final(self), capacity, buffer_size),
            final(self).returned == old(self).returned,
            final(self).total_allocations == old(self).total_allocations,
            final(self).failed_allocations == old(self).failed_allocations,
            if old(self).in_use > 0 && buffer.bytes().len() == buffer_size {
                &&& final(self).available@ == old(self).available@.push(buffer)
                &&& final(self).in_use == old(self).in_use - 1
            } else {
                &&& final(self).available@ == old(self).available@
                &&& final(self).in_use == old(self).in_use
            },
    {
        if self.in_use > 0 && buffer.len() == buffer_size {
            let ghost before = self.available@;
            self.available.push_back(buffer);
            self.in_use = self.in_use - 1;
            proof {
                assert forall|k: int| 0 <= k < self.available@.len() implies (
                #[trigger] self.available@[k]).bytes().len() == buffer_size by {
                    if k < before.len() {
                        assert(self.available@[k] == before[k]);
                    }
                }
            }
        }
    }
}

} // verus!
