//! Pool statistics and monitoring.

use vstd::prelude::*;

verus! {

/// A consistent snapshot of a pool's counts.
#[derive(Debug, Clone, Copy, PartialEq, Eq, Structural)]
pub struct PoolStats {
    /// Total number of buffers in the pool
    pub capacity: usize,
    /// Number of buffers currently available
    pub available: usize,
    /// Number of buffers currently in use
    pub in_use: usize,
    /// Size of each buffer in bytes
    pub buffer_size: usize,
    /// Total successful allocations since creation
    pub total_allocations: u64,
    /// Total failed allocation attempts since creation
    pub failed_allocations: u64,
    /// Total number of buffers (the capacity)
    pub total_buffers: usize,
    /// Number of available buffers
    pub available_buffers: usize,
    /// Number of buffers in use
    pub in_use_buffers: usize,
}

impl PoolStats {
    /// Total memory managed by the pool in bytes.
    pub fn total_memory_bytes(&self) -> (r: usize)
        requires
            self.capacity * self.buffer_size <= usize::MAX,
        ensures
            r == self.capacity * self.buffer_size,
    {
        self.capacity * self.buffer_size
    }

    /// Memory currently in use in bytes.
    pub fn memory_in_use_bytes(&self) -> (r: usize)
        requires
            self.in_use * self.buffer_size <= usize::MAX,
        ensures
            r == self.in_use * self.buffer_size,
    {
        self.in_use * self.buffer_size
    }

    /// Whether any allocation attempt has failed.
    pub fn has_allocation_failures(&self) -> (r: bool)
        ensures
            r == (self.failed_allocations > 0),
    {
        self.failed_allocations > 0
    }
}

} // verus!
