//! Buffer group management for provided buffers.

use vstd::prelude::*;
use std::collections::VecDeque;
use crate::error::{IoErrorKind, SaferRingError};

verus! {

/// Buffer selection group for managing provided buffers.
///
/// Allows the kernel to select buffers from a pre-registered pool,
/// enabling zero-copy operations and reducing buffer management overhead.
#[derive(Debug)]
pub struct BufferGroup {
    /// Group ID for this buffer set
    pub group_id: u16,
    /// Number of buffers in the group
    pub buffer_count: u32,
    /// Size of each buffer in bytes
    pub buffer_size: u32,
    /// Pre-allocated buffer storage
    buffers: Vec<Vec<u8>>,
    /// Available buffer indices, first to be handed out first
    available_buffers: VecDeque<u16>,
}

/// The indices a group of `count` buffers starts with: `0` up to the count
/// taken as a 16-bit index.
pub open spec fn initial_indices(count: u32) -> Seq<u16> {
    Seq::new((count as u16) as nat, |i: int| i as u16)
}

impl BufferGroup {
    /// The available buffer indices, in the order they will be handed out.
    pub closed spec fn available(&self) -> Seq<u16> {
        self.available_buffers@
    }

    /// The group's identifier.
    pub closed spec fn gid(&self) -> u16 {
        self.group_id
    }

    /// The number of buffers in the group.
    pub closed spec fn count(&self) -> u32 {
        self.buffer_count
    }

    /// The size of each buffer in bytes.
    pub closed spec fn size(&self) -> u32 {
        self.buffer_size
    }

    /// The sizes of the pre-allocated buffers.
    pub closed spec fn buffer_sizes(&self) -> Seq<nat> {
        self.buffers@.map_values(|b: Vec<u8>| b@.len())
    }

    /// Every available index names a buffer of the group.
    pub closed spec fn wf(&self) -> bool {
        forall|k: int| 0 <= k < self.available().len() ==> #[trigger] self.available()[k] < (self.buffer_count as u16)
    }

    /// Create a new buffer group of `buffer_count` zeroed buffers of
    /// `buffer_size` bytes each, all available.
    ///
    /// # Errors
    ///
    /// Returns an `InvalidInput` I/O error when the count or the size is 0.
    pub fn new(group_id: u16, buffer_count: u32, buffer_size: u32) -> (r: Result<Self, SaferRingError>)
        ensures
            buffer_count == 0 ==> (r matches Err(SaferRingError::Io(e)) && e.kind == IoErrorKind::InvalidInput
                && e.message@ == "Buffer count must be greater than 0"@),
            buffer_count != 0 && buffer_size == 0 ==> (r matches Err(SaferRingError::Io(e)) && e.kind
                == IoErrorKind::InvalidInput && e.message@ == "Buffer size must be greater than 0"@),
            buffer_count != 0 && buffer_size != 0 ==> (r matches Ok(g) && g.gid() == group_id
                && g.count() == buffer_count && g.size() == buffer_size && g.available()
                == initial_indices(buffer_count) && g.buffer_sizes() == Seq::new(
                buffer_count as nat,
                |i: int| buffer_size as nat,
            ) && g.wf()),
    {
        if buffer_count == 0 {
            return Err(SaferRingError::io(IoErrorKind::InvalidInput, "Buffer count must be greater than 0"));
        }
        if buffer_size == 0 {
            return Err(SaferRingError::io(IoErrorKind::InvalidInput, "Buffer size must be greater than 0"));
        }
        let mut buffers: Vec<Vec<u8>> = Vec::new();
        let mut i: u32 = 0;
        while i < buffer_count
            invariant
                i <= buffer_count,
                buffers@.len() == i,
                forall|k: int| 0 <= k < i ==> (#[trigger] buffers@[k])@.len() == buffer_size,
            decreases buffer_count - i,
        {
            buffers.push(vec![0u8; buffer_size as usize]);
            i = i + 1;
        }
        let n: u16 = buffer_count as u16;
        let mut available_buffers: VecDeque<u16> = VecDeque::new();
        let mut j: u16 = 0;
        while j < n
            invariant
                j <= n,
                n == buffer_count as u16,
                available_buffers@ == Seq::new(j as nat, |k: int| k as u16),
            decreases n - j,
        {
            available_buffers.push_back(j);
            j = j + 1;
            proof {
                assert(available_buffers@ =~= Seq::new(j as nat, |k: int| k as u16));
            }
        }
        let g = BufferGroup { group_id, buffer_count, buffer_size, buffers, available_buffers };
        proof {
            assert(g.buffer_sizes() =~= Seq::new(buffer_count as nat, |k: int| buffer_size as nat));
        }
        Ok(g)
    }

    /// Get the next available buffer index, or `None` when none is available.
    pub fn get_buffer(&mut self) -> (r: Option<u16>)
        ensures
            old(self).available().len() == 0 ==> r is None && final(self).available() == old(self).available(),
            old(self).available().len() > 0 ==> r == Some(old(self).available()[0])
                && final(self).available() == old(self).available().drop_first(),
            final(self).gid() == old(self).gid(),
            final(self).count() == old(self).count(),
            final(self).size() == old(self).size(),
            final(self).buffer_sizes() == old(self).buffer_sizes(),
            old(self).wf() ==> final(self).wf() && (r matches Some(id) ==> id < (old(self).count() as u16)),
    {
        let r = self.available_buffers.pop_front();
        proof {
            if old(self).available().len() > 0 {
                assert(self.available() =~= old(self).available().drop_first());
                if old(self).wf() {
                    assert(old(self).available()[0] < (old(self).buffer_count as u16));
                    assert forall|k: int| 0 <= k < self.available().len() implies #[trigger] self.available()[k]
                        < (self.buffer_count as u16) by {
                        assert(self.available()[k] == old(self).available()[k + 1]);
                    }
                }
            }
        }
        r
    }

    /// Return a buffer to the back of the available pool.
    ///
    /// The index must name a buffer of the group; any other index is a
    /// programming error.
    pub fn return_buffer(&mut self, buffer_id: u16)
        requires
            buffer_id < (old(self).count() as u16),
        ensures
            final(self).available() == old(self).available().push(buffer_id),
            final(self).gid() == old(self).gid(),
            final(self).count() == old(self).count(),
            final(self).size() == old(self).size(),
            final(self).buffer_sizes() == old(self).buffer_sizes(),
            old(self).wf() ==> final(self).wf(),
    {
        if buffer_id < self.buffer_count as u16 {
            self.available_buffers.push_back(buffer_id);
        }
        proof {
            if old(self).wf() {
                assert forall|k: int| 0 <= k < self.available().len() implies #[trigger] self.available()[k]
                    < (self.buffer_count as u16) by {
                    if k < old(self).available().len() {
                        assert(self.available()[k] == old(self).available()[k]);
                    }
                }
            }
        }
    }

    /// Get the number of available buffers.
    pub fn available_count(&self) -> (r: usize)
        ensures
            r == self.available().len(),
    {
        self.available_buffers.len()
    }

    /// Check if any buffers are available.
    pub fn has_available(&self) -> (r: bool)
        ensures
            r == (self.available().len() > 0),
    {
        self.available_buffers.len() != 0
    }
}

/// Taking a buffer and returning it leaves as many available buffers, with
/// the same indices, the returned one now last.
pub proof fn lemma_get_then_return(available: Seq<u16>)
    requires
        available.len() > 0,
    ensures
        available.drop_first().push(available[0]).len() == available.len(),
        forall|id: u16| available.drop_first().push(available[0]).contains(id) <==> available.contains(id),
{
    let after = available.drop_first().push(available[0]);
    assert forall|id: u16| after.contains(id) <==> available.contains(id) by {
        if after.contains(id) {
            let k = choose|k: int| 0 <= k < after.len() && after[k] == id;
            if k < after.len() - 1 {
                assert(available[k + 1] == id);
            } else {
                assert(available[0] == id);
            }
        }
        if available.contains(id) {
            let k = choose|k: int| 0 <= k < available.len() && available[k] == id;
            if k == 0 {
                assert(after[after.len() - 1] == id);
            } else {
                assert(after[k - 1] == id);
            }
        }
    }
}

} // verus!
