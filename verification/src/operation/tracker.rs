//! Bookkeeping of the operations a ring has in flight.
//!
//! Every submitted operation is registered under a fresh identifier and
//! stays registered until its completion is processed, so a ring can tell
//! whether the kernel may still touch memory it was handed.

use std::collections::HashMap;

use super::types::OperationType;
use vstd::std_specs::iter::IteratorSpec;
use vstd::prelude::*;

verus! {

broadcast use vstd::std_specs::hash::group_hash_axioms;

/// Buffers handed over with an operation, returned when it completes.
#[derive(Debug)]
pub enum BufferOwnership {
    /// One owned buffer.
    Single(Vec<u8>),
    /// Several owned buffers for vectored I/O.
    Vectored(Vec<Vec<u8>>),
}

/// What the tracker keeps of one in-flight operation.
#[derive(Debug)]
pub struct OperationHandle {
    /// The identifier the operation was registered under.
    pub id: u64,
    /// The kind of operation.
    pub op_type: OperationType,
    /// The file descriptor it works on.
    pub fd: i32,
    /// The buffers it owns, if any.
    pub buffer: Option<BufferOwnership>,
}

/// The in-flight operations of a ring, by identifier.
#[derive(Debug)]
pub struct OperationTracker {
    in_flight: HashMap<u64, OperationHandle>,
    next_id: u64,
}

/// The identifier that follows `id`, wrapping to 0 after `u64::MAX`.
pub open spec fn following_id(id: u64) -> u64 {
    if id == u64::MAX {
        0
    } else {
        (id + 1) as u64
    }
}

/// The summary `debug_info` gives of one handle.
pub open spec fn handle_info(h: OperationHandle) -> (u64, OperationType, i32) {
    (h.id, h.op_type, h.fd)
}

/// Whether `info` is the summary of some handle in `in_flight`.
pub open spec fn summarises(
    in_flight: Map<u64, OperationHandle>,
    info: (u64, OperationType, i32),
) -> bool {
    exists|k: u64| #[trigger] in_flight.contains_key(k) && info == handle_info(in_flight[k])
}

impl OperationTracker {
    /// Every handle is filed under its own identifier.
    #[verifier::type_invariant]
    spec fn filed_by_id(&self) -> bool {
        forall|k: u64| #[trigger] self.in_flight@.contains_key(k) ==> self.in_flight@[k].id == k
    }

    /// The in-flight operations, by identifier.
    pub closed spec fn in_flight_spec(&self) -> Map<u64, OperationHandle> {
        self.in_flight@
    }

    /// The identifier the next registration receives.
    pub closed spec fn next_id_spec(&self) -> u64 {
        self.next_id
    }

    /// An empty tracker; identifiers start at 1 (0 is kept back until the
    /// counter wraps).
    pub fn new() -> (r: Self)
        ensures
            r.in_flight_spec() == Map::<u64, OperationHandle>::empty(),
            r.next_id_spec() == 1,
    {
        OperationTracker { in_flight: HashMap::new(), next_id: 1 }
    }

    /// An empty tracker whose first registration receives `next_id`.
    pub fn starting_at(next_id: u64) -> (r: Self)
        ensures
            r.in_flight_spec() == Map::<u64, OperationHandle>::empty(),
            r.next_id_spec() == next_id,
    {
        OperationTracker { in_flight: HashMap::new(), next_id }
    }

    /// Registers an operation that owns no buffer and returns its identifier.
    pub fn register_operation(&mut self, op_type: OperationType, fd: i32) -> (id: u64)
        ensures
            id == old(self).next_id_spec(),
            final(self).next_id_spec() == following_id(id),
            final(self).in_flight_spec() == old(self).in_flight_spec().insert(
                id,
                final(self).in_flight_spec()[id],
            ),
            final(self).in_flight_spec()[id].id == id,
            final(self).in_flight_spec()[id].op_type == op_type,
            final(self).in_flight_spec()[id].fd == fd,
            final(self).in_flight_spec()[id].buffer is None,
    {
        self.register_operation_with_buffer(op_type, fd, None)
    }

    /// Registers an operation with the buffers it owns and returns its
    /// identifier; the counter moves on, wrapping after `u64::MAX`. An
    /// operation still registered under the same identifier (possible only
    /// after wrapping) is replaced.
    pub fn register_operation_with_buffer(
        &mut self,
        op_type: OperationType,
        fd: i32,
        buffer: Option<BufferOwnership>,
    ) -> (id: u64)
        ensures
            id == old(self).next_id_spec(),
            final(self).next_id_spec() == following_id(id),
            final(self).in_flight_spec() == old(self).in_flight_spec().insert(
                id,
                final(self).in_flight_spec()[id],
            ),
            final(self).in_flight_spec()[id].id == id,
            final(self).in_flight_spec()[id].op_type == op_type,
            final(self).in_flight_spec()[id].fd == fd,
            final(self).in_flight_spec()[id].buffer == buffer,
    {
        proof {
            use_type_invariant(&*self);
        }
        let id = self.next_id;
        self.next_id = self.next_id.wrapping_add(1);
        let handle = OperationHandle { id, op_type, fd, buffer };
        let mut in_flight = HashMap::new();
        std::mem::swap(&mut in_flight, &mut self.in_flight);
        in_flight.insert(id, handle);
        self.in_flight = in_flight;
        id
    }

    /// Removes the operation registered under `id` and returns its handle,
    /// or `None` when nothing is registered under it.
    pub fn complete_operation(&mut self, id: u64) -> (r: Option<OperationHandle>)
        ensures
            final(self).in_flight_spec() == old(self).in_flight_spec().remove(id),
            final(self).next_id_spec() == old(self).next_id_spec(),
            r == (if old(self).in_flight_spec().contains_key(id) {
                Some(old(self).in_flight_spec()[id])
            } else {
                None
            }),
    {
        proof {
            use_type_invariant(&*self);
        }
        let mut in_flight = HashMap::new();
        std::mem::swap(&mut in_flight, &mut self.in_flight);
        let r = in_flight.remove(&id);
        self.in_flight = in_flight;
        r
    }

    /// Whether an operation is registered under `id`.
    pub fn is_operation_tracked(&self, id: u64) -> (r: bool)
        ensures
            r == self.in_flight_spec().contains_key(id),
    {
        self.in_flight.contains_key(&id)
    }

    /// How many operations are in flight.
    pub fn count(&self) -> (r: usize)
        ensures
            r == self.in_flight_spec().len(),
    {
        self.in_flight.len()
    }

    /// Whether any operation is in flight.
    pub fn has_operations(&self) -> (r: bool)
        ensures
            r == (self.in_flight_spec().len() > 0),
    {
        !self.in_flight.is_empty()
    }

    /// Identifier, kind and descriptor of every in-flight operation, once
    /// each, in no particular order.
    pub fn debug_info(&self) -> (r: Vec<(u64, OperationType, i32)>)
        ensures
            r@.len() == self.in_flight_spec().len(),
            forall|k: u64| #[trigger]
                self.in_flight_spec().contains_key(k) ==> r@.contains(
                    handle_info(self.in_flight_spec()[k]),
                ),
            forall|i: int| 0 <= i < r@.len() ==> summarises(self.in_flight_spec(), #[trigger] r@[i]),
    {
        let mut out: Vec<(u64, OperationType, i32)> = Vec::new();
        let values = self.in_flight.values();
        let ghost s = values.remaining();
        for h in it: values
            invariant
                it.seq() == s,
                out@.len() == it.index(),
                forall|i: int| 0 <= i < it.index() ==> #[trigger] out@[i] == handle_info(*it.seq()[i]),
        {
            out.push((h.id, h.op_type, h.fd));
        }
        proof {
            let m = self.in_flight@;
            assert(s.unref().to_set() == m.values());
            assert forall|k: u64| #[trigger] m.contains_key(k) implies out@.contains(handle_info(m[k])) by {
                assert(m.values().contains(m[k]));
                assert(s.unref().to_set().contains(m[k]));
                let i = choose|i: int| 0 <= i < s.unref().len() && s.unref()[i] == m[k];
                assert(out@[i] == handle_info(m[k]));
            }
            assert forall|i: int| 0 <= i < out@.len() implies summarises(m, #[trigger] out@[i]) by {
                assert(s.unref()[i] == *s[i]);
                assert(s.unref().to_set().contains(s.unref()[i]));
                assert(m.values().contains(s.unref()[i]));
            }
        }
        out
    }
}

/// Completing an operation right after registering it under an identifier
/// that was free hands back exactly the registered handle and leaves the
/// in-flight operations as they were.
pub proof fn lemma_register_then_complete(
    before: Map<u64, OperationHandle>,
    id: u64,
    handle: OperationHandle,
)
    requires
        before.dom().finite(),
        !before.contains_key(id),
    ensures
        before.insert(id, handle).contains_key(id),
        before.insert(id, handle)[id] == handle,
        before.insert(id, handle).remove(id) == before,
        before.insert(id, handle).len() == before.len() + 1,
{
    assert(before.insert(id, handle).remove(id) =~= before);
}

} // verus!
