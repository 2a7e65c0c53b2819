//! The decisions of the io_uring backend.
//!
//! The ring itself (its queues and the system calls that drive them) is
//! held by the caller; this module decides what each operation becomes on
//! the submission queue, keeps the identifiers in flight, and turns a
//! completion's result field into a result.

use std::collections::HashMap;

use crate::error::{IoErrorKind, SaferRingError};
use crate::opcodes::{opcode_accept, opcode_read, opcode_recv, opcode_send, opcode_write};
use crate::operation::OperationType;
use vstd::prelude::*;
use vstd::string::*;

verus! {

broadcast use vstd::std_specs::hash::group_hash_axioms;

/// A submission queue entry as the backend builds it.
#[derive(Debug, Clone, Copy, PartialEq, Eq, Structural)]
pub struct UringEntry {
    /// The io_uring opcode.
    pub opcode: u8,
    /// The descriptor the entry works on.
    pub fd: i32,
    /// The buffer address (for accept: where the peer address goes).
    pub addr: usize,
    /// The buffer length, truncated to 32 bits (0 for accept).
    pub len: u32,
    /// The file offset (0 where the opcode takes none).
    pub offset: u64,
    /// The identifier the completion is reported under.
    pub user_data: u64,
}

/// The entry for an operation, or `None` for the vectored kinds, which
/// this backend does not submit.
pub open spec fn entry_spec(
    op_type: OperationType,
    fd: i32,
    offset: u64,
    buffer_addr: usize,
    buffer_len: usize,
    user_data: u64,
) -> Option<UringEntry> {
    let len = buffer_len as u32;
    match op_type {
        OperationType::Read => Some(
            UringEntry { opcode: 22, fd, addr: buffer_addr, len, offset, user_data },
        ),
        OperationType::Write => Some(
            UringEntry { opcode: 23, fd, addr: buffer_addr, len, offset, user_data },
        ),
        OperationType::Accept => Some(
            UringEntry { opcode: 13, fd, addr: buffer_addr, len: 0, offset: 0, user_data },
        ),
        OperationType::Send => Some(
            UringEntry { opcode: 26, fd, addr: buffer_addr, len, offset: 0, user_data },
        ),
        OperationType::Recv => Some(
            UringEntry { opcode: 27, fd, addr: buffer_addr, len, offset: 0, user_data },
        ),
        _ => None,
    }
}

/// The message of the error for a kind this backend does not submit.
pub open spec fn unsupported_message(op_type: OperationType) -> Seq<char> {
    if op_type is ReadVectored {
        "Operation ReadVectored not yet implemented in io_uring backend"@
    } else {
        "Operation WriteVectored not yet implemented in io_uring backend"@
    }
}

/// The submission entry for an operation: reads and writes carry the
/// offset, accept hands the buffer over for the peer address, send and
/// receive take no offset. Vectored operations are refused as unsupported.
pub fn submission_entry(
    op_type: OperationType,
    fd: i32,
    offset: u64,
    buffer_addr: usize,
    buffer_len: usize,
    user_data: u64,
) -> (r: Result<UringEntry, SaferRingError>)
    ensures
        match entry_spec(op_type, fd, offset, buffer_addr, buffer_len, user_data) {
            Some(entry) => r == Ok::<UringEntry, SaferRingError>(entry),
            None => r matches Err(SaferRingError::Io(e)) && e.kind == IoErrorKind::Unsupported
                && e.message@ == unsupported_message(op_type),
        },
{
    let len = buffer_len as u32;
    match op_type {
        OperationType::Read => Ok(
            UringEntry { opcode: opcode_read(), fd, addr: buffer_addr, len, offset, user_data },
        ),
        OperationType::Write => Ok(
            UringEntry { opcode: opcode_write(), fd, addr: buffer_addr, len, offset, user_data },
        ),
        OperationType::Accept => Ok(
            UringEntry {
                opcode: opcode_accept(),
                fd,
                addr: buffer_addr,
                len: 0,
                offset: 0,
                user_data,
            },
        ),
        OperationType::Send => Ok(
            UringEntry { opcode: opcode_send(), fd, addr: buffer_addr, len, offset: 0, user_data },
        ),
        OperationType::Recv => Ok(
            UringEntry { opcode: opcode_recv(), fd, addr: buffer_addr, len, offset: 0, user_data },
        ),
        OperationType::ReadVectored => Err(
            SaferRingError::io(
                IoErrorKind::Unsupported,
                "Operation ReadVectored not yet implemented in io_uring backend",
            ),
        ),
        OperationType::WriteVectored => Err(
            SaferRingError::io(
                IoErrorKind::Unsupported,
                "Operation WriteVectored not yet implemented in io_uring backend",
            ),
        ),
    }
}

/// The result a completion's result field stands for: a negative value is
/// the negated error number, anything else the count of bytes moved (or
/// the accepted descriptor).
pub fn completion_result(res: i32) -> (r: Result<i32, i32>)
    requires
        res > i32::MIN,
    ensures
        res < 0 ==> r == Err::<i32, i32>(-res as i32),
        res >= 0 ==> r == Ok::<i32, i32>(res),
{
    if res < 0 {
        Err(-res)
    } else {
        Ok(res)
    }
}

/// The state of the io_uring backend: the sizes of its queues and the
/// identifiers of the operations it has in flight.
#[derive(Debug)]
pub struct IoUringBackend {
    in_flight: HashMap<u64, ()>,
    sq_entries: u32,
    cq_entries: u32,
}

impl IoUringBackend {
    /// The identifiers in flight.
    pub closed spec fn in_flight_spec(&self) -> Set<u64> {
        self.in_flight@.dom()
    }

    /// The size of the submission queue.
    pub closed spec fn sq_entries_spec(&self) -> u32 {
        self.sq_entries
    }

    /// The size of the completion queue.
    pub closed spec fn cq_entries_spec(&self) -> u32 {
        self.cq_entries
    }

    /// A backend over a ring with the given queue sizes, nothing in flight.
    pub fn new(sq_entries: u32, cq_entries: u32) -> (r: Self)
        ensures
            r.in_flight_spec() == Set::<u64>::empty(),
            r.sq_entries_spec() == sq_entries,
            r.cq_entries_spec() == cq_entries,
    {
        IoUringBackend { in_flight: HashMap::new(), sq_entries, cq_entries }
    }

    /// Records an entry that was placed on the submission queue.
    pub fn record_submission(&mut self, user_data: u64)
        ensures
            final(self).in_flight_spec() == old(self).in_flight_spec().insert(user_data),
            final(self).sq_entries_spec() == old(self).sq_entries_spec(),
            final(self).cq_entries_spec() == old(self).cq_entries_spec(),
    {
        self.in_flight.insert(user_data, ());
    }

    /// Records a completion taken off the completion queue and gives the
    /// identifier with its result.
    pub fn record_completion(&mut self, user_data: u64, res: i32) -> (r: (u64, Result<i32, i32>))
        requires
            res > i32::MIN,
        ensures
            final(self).in_flight_spec() == old(self).in_flight_spec().remove(user_data),
            final(self).sq_entries_spec() == old(self).sq_entries_spec(),
            final(self).cq_entries_spec() == old(self).cq_entries_spec(),
            r.0 == user_data,
            res < 0 ==> r.1 == Err::<i32, i32>(-res as i32),
            res >= 0 ==> r.1 == Ok::<i32, i32>(res),
    {
        self.in_flight.remove(&user_data);
        proof {
            assert(self.in_flight@.dom() =~= old(self).in_flight@.dom().remove(user_data));
        }
        (user_data, completion_result(res))
    }

    /// Waiting needs an operation in flight.
    pub fn check_wait(&self) -> (r: Result<(), SaferRingError>)
        ensures
            match r {
                Ok(_) => self.in_flight_spec().len() > 0,
                Err(SaferRingError::Io(e)) => {
                    &&& self.in_flight_spec().len() == 0
                    &&& e.kind == IoErrorKind::InvalidInput
                    &&& e.message@ == "No operations in flight to wait for"@
                },
                Err(_) => false,
            },
    {
        if self.in_flight.is_empty() {
            Err(SaferRingError::io(IoErrorKind::InvalidInput, "No operations in flight to wait for"))
        } else {
            Ok(())
        }
    }

    /// Files are registered from index 0; an empty list is refused.
    pub fn check_register_files(&self, fds: &[i32]) -> (r: Result<u32, SaferRingError>)
        ensures
            match r {
                Ok(index) => fds@.len() > 0 && index == 0,
                Err(SaferRingError::Io(e)) => {
                    &&& fds@.len() == 0
                    &&& e.kind == IoErrorKind::InvalidInput
                    &&& e.message@ == "Cannot register empty file descriptor list"@
                },
                Err(_) => false,
            },
    {
        if fds.len() == 0 {
            Err(
                SaferRingError::io(
                    IoErrorKind::InvalidInput,
                    "Cannot register empty file descriptor list",
                ),
            )
        } else {
            Ok(0)
        }
    }

    /// Buffers are registered from index 0; an empty list is refused.
    pub fn check_register_buffers(&self, count: usize) -> (r: Result<u32, SaferRingError>)
        ensures
            match r {
                Ok(index) => count > 0 && index == 0,
                Err(SaferRingError::Io(e)) => {
                    &&& count == 0
                    &&& e.kind == IoErrorKind::InvalidInput
                    &&& e.message@ == "Cannot register empty buffer list"@
                },
                Err(_) => false,
            },
    {
        if count == 0 {
            Err(SaferRingError::io(IoErrorKind::InvalidInput, "Cannot register empty buffer list"))
        } else {
            Ok(0)
        }
    }

    /// How many operations are in flight.
    pub fn operations_in_flight(&self) -> (r: usize)
        ensures
            r == self.in_flight_spec().len(),
    {
        proof {
            assert(self.in_flight@.dom().len() == self.in_flight@.len());
        }
        self.in_flight.len()
    }

    /// The backend's name.
    pub fn name(&self) -> (r: &'static str)
        ensures
            r@ == "io_uring"@,
    {
        "io_uring"
    }

    /// The size of the submission queue.
    pub fn capacity(&self) -> (r: u32)
        ensures
            r == self.sq_entries_spec(),
    {
        self.sq_entries
    }

    /// Ready completions (as counted on the completion queue) against the
    /// size of that queue.
    pub fn completion_queue_stats(&self, ready: usize) -> (r: (usize, usize))
        ensures
            r == (ready, self.cq_entries_spec() as usize),
    {
        (ready, self.cq_entries as usize)
    }
}

} // verus!
