//! The decisions of the epoll fallback backend.
//!
//! Where io_uring is unavailable, an operation waits until epoll reports its
//! descriptor ready and is then run as an ordinary system call. This module
//! keeps the operations that wait, chooses the readiness each one waits for
//! and the call that runs it, and turns the call's return value into a
//! result; the calls themselves are made by the caller.

use std::collections::HashMap;

use crate::error::{IoError, IoErrorKind, SaferRingError};
use crate::operation::OperationType;
use vstd::prelude::*;
use vstd::string::*;

verus! {

broadcast use vstd::std_specs::hash::group_hash_axioms;

/// `libc::EPOLLIN`: libc defines it as 0x1 on Linux.
#[verifier::external_body]
fn epoll_in() -> (r: i32)
    ensures
        r == 0x1,
{
    libc::EPOLLIN
}

/// `libc::EPOLLOUT`: libc defines it as 0x4 on Linux.
#[verifier::external_body]
fn epoll_out() -> (r: i32)
    ensures
        r == 0x4,
{
    libc::EPOLLOUT
}

/// `libc::EPOLLONESHOT`: libc defines it as 0x40000000 on Linux.
#[verifier::external_body]
fn epoll_oneshot() -> (r: i32)
    ensures
        r == 0x4000_0000,
{
    libc::EPOLLONESHOT
}

/// An operation waiting for its descriptor to become ready.
#[derive(Debug, Clone, Copy, PartialEq, Eq, Structural)]
pub struct PendingOperation {
    /// The kind of operation.
    pub op_type: OperationType,
    /// The descriptor it works on.
    pub fd: i32,
    /// The file offset (0 means the current position).
    pub offset: u64,
    /// Address of the buffer the call reads into or writes from.
    pub buffer_addr: usize,
    /// Length of that buffer in bytes.
    pub buffer_len: usize,
    /// The identifier the completion is reported under.
    pub user_data: u64,
}

/// The system call that carries out a ready operation.
#[derive(Debug, Clone, Copy, PartialEq, Eq, Structural)]
pub enum Syscall {
    /// `read` at the current position.
    Read,
    /// `pread` at the operation's offset.
    PRead,
    /// `write` at the current position.
    Write,
    /// `pwrite` at the operation's offset.
    PWrite,
    /// `recv` without flags.
    Recv,
    /// `send` without flags.
    Send,
    /// `accept` without a peer address.
    Accept,
}

/// Whether an operation of this kind waits for its descriptor to become
/// readable (otherwise it waits until it is writable).
pub open spec fn waits_readable(op_type: OperationType) -> bool {
    op_type.is_read_like_spec() || op_type is Accept
}

/// The epoll event mask of an operation: readable or writable, one-shot.
pub open spec fn events_spec(op_type: OperationType) -> u32 {
    if waits_readable(op_type) {
        0x4000_0001
    } else {
        0x4000_0004
    }
}

/// The call for an operation: reads and writes (vectored ones as a single
/// buffer) use the positioned form when the offset is not zero.
pub open spec fn syscall_spec(op_type: OperationType, offset: u64) -> Syscall {
    match op_type {
        OperationType::Read | OperationType::ReadVectored => if offset > 0 {
            Syscall::PRead
        } else {
            Syscall::Read
        },
        OperationType::Write | OperationType::WriteVectored => if offset > 0 {
            Syscall::PWrite
        } else {
            Syscall::Write
        },
        OperationType::Recv => Syscall::Recv,
        OperationType::Send => Syscall::Send,
        OperationType::Accept => Syscall::Accept,
    }
}

/// The epoll event mask an operation of this kind registers with.
pub fn epoll_events(op_type: OperationType) -> (r: u32)
    ensures
        r == events_spec(op_type),
{
    let oneshot = epoll_oneshot();
    let readable = matches!(op_type, OperationType::Read | OperationType::ReadVectored
        | OperationType::Recv | OperationType::Accept);
    let interest = if readable {
        epoll_in()
    } else {
        epoll_out()
    };
    let mask: i32 = interest | oneshot;
    assert((0x1i32 | 0x4000_0000i32) == 0x4000_0001i32) by (bit_vector);
    assert((0x4i32 | 0x4000_0000i32) == 0x4000_0004i32) by (bit_vector);
    mask as u32
}

/// The system call that runs a ready operation.
pub fn syscall_for(op: &PendingOperation) -> (r: Syscall)
    ensures
        r == syscall_spec(op.op_type, op.offset),
{
    match op.op_type {
        OperationType::Read | OperationType::ReadVectored => if op.offset > 0 {
            Syscall::PRead
        } else {
            Syscall::Read
        },
        OperationType::Write | OperationType::WriteVectored => if op.offset > 0 {
            Syscall::PWrite
        } else {
            Syscall::Write
        },
        OperationType::Recv => Syscall::Recv,
        OperationType::Send => Syscall::Send,
        OperationType::Accept => Syscall::Accept,
    }
}

/// The result of a call that returned `ret`, with `last_error` the error
/// the system reported right after it. A return of -1 is a failure: one
/// that would block (which epoll readiness should have ruled out) is
/// reported as such with its own message, any other as reported. Any other
/// return is the count of bytes moved (or the accepted descriptor),
/// truncated to `i32`.
pub fn syscall_outcome(ret: isize, last_error: IoError) -> (r: Result<i32, IoError>)
    ensures
        ret == -1 && last_error.kind == IoErrorKind::WouldBlock ==> (r matches Err(e) && e.kind
            == IoErrorKind::WouldBlock && e.message@ == "Operation would block unexpectedly"@),
        ret == -1 && last_error.kind != IoErrorKind::WouldBlock ==> r == Err::<i32, IoError>(
            last_error,
        ),
        ret != -1 ==> r == Ok::<i32, IoError>(ret as i32),
{
    if ret == -1 {
        if matches!(last_error.kind, IoErrorKind::WouldBlock) {
            Err(IoError::new(IoErrorKind::WouldBlock, "Operation would block unexpectedly"))
        } else {
            Err(last_error)
        }
    } else {
        Ok(ret as i32)
    }
}

/// Hands out the pending operations named by the ready identifiers, in the
/// order they are named; identifiers with nothing pending are passed over.
pub open spec fn take_ready_spec(pending: Map<u64, PendingOperation>, ready: Seq<u64>) -> (Map<
    u64,
    PendingOperation,
>, Seq<PendingOperation>)
    decreases ready.len(),
{
    if ready.len() == 0 {
        (pending, Seq::empty())
    } else {
        let (left, taken) = take_ready_spec(pending, ready.drop_last());
        let id = ready.last();
        if left.contains_key(id) {
            (left.remove(id), taken.push(left[id]))
        } else {
            (left, taken)
        }
    }
}

/// The state of the epoll backend: its epoll instance and the operations
/// waiting on it, by identifier.
#[derive(Debug)]
pub struct EpollBackend {
    epoll_fd: i32,
    pending_operations: HashMap<u64, PendingOperation>,
    next_operation_id: u64,
}

impl EpollBackend {
    /// The operations waiting, by identifier.
    pub closed spec fn pending_spec(&self) -> Map<u64, PendingOperation> {
        self.pending_operations@
    }

    /// The epoll instance.
    pub closed spec fn epoll_fd_spec(&self) -> i32 {
        self.epoll_fd
    }

    /// A backend over the epoll instance `epoll_fd`, with nothing pending.
    pub fn new(epoll_fd: i32) -> (r: Self)
        ensures
            r.epoll_fd_spec() == epoll_fd,
            r.pending_spec() == Map::<u64, PendingOperation>::empty(),
    {
        EpollBackend { epoll_fd, pending_operations: HashMap::new(), next_operation_id: 1 }
    }

    /// The epoll instance.
    pub fn epoll_fd(&self) -> (r: i32)
        ensures
            r == self.epoll_fd_spec(),
    {
        self.epoll_fd
    }

    /// Records an operation whose descriptor was registered with epoll; it
    /// replaces any operation pending under the same identifier.
    pub fn record_submission(&mut self, op: PendingOperation)
        ensures
            final(self).pending_spec() == old(self).pending_spec().insert(op.user_data, op),
            final(self).epoll_fd_spec() == old(self).epoll_fd_spec(),
    {
        self.pending_operations.insert(op.user_data, op);
    }

    /// Takes the operations named by the identifiers epoll reported ready,
    /// in that order, leaving the others pending.
    pub fn take_ready(&mut self, ready: &[u64]) -> (r: Vec<PendingOperation>)
        ensures
            (final(self).pending_spec(), r@) == take_ready_spec(old(self).pending_spec(), ready@),
            final(self).epoll_fd_spec() == old(self).epoll_fd_spec(),
    {
        let mut taken: Vec<PendingOperation> = Vec::new();
        let mut i: usize = 0;
        while i < ready.len()
            invariant
                0 <= i <= ready@.len(),
                self.epoll_fd_spec() == old(self).epoll_fd_spec(),
                (self.pending_spec(), taken@) == take_ready_spec(
                    old(self).pending_spec(),
                    ready@.take(i as int),
                ),
            decreases ready@.len() - i,
        {
            let id = ready[i];
            proof {
                assert(ready@.take(i + 1).drop_last() == ready@.take(i as int));
            }
            match self.pending_operations.remove(&id) {
                Some(op) => {
                    taken.push(op);
                },
                None => {},
            }
            i = i + 1;
        }
        proof {
            assert(ready@.take(ready@.len() as int) == ready@);
        }
        taken
    }

    /// Waiting needs something to wait for.
    pub fn check_wait(&self) -> (r: Result<(), SaferRingError>)
        ensures
            match r {
                Ok(_) => self.pending_spec().len() > 0,
                Err(SaferRingError::Io(e)) => {
                    &&& self.pending_spec().len() == 0
                    &&& e.kind == IoErrorKind::InvalidInput
                    &&& e.message@ == "No operations to wait for"@
                },
                Err(_) => false,
            },
    {
        if self.pending_operations.is_empty() {
            Err(SaferRingError::io(IoErrorKind::InvalidInput, "No operations to wait for"))
        } else {
            Ok(())
        }
    }

    /// How many operations are waiting.
    pub fn operations_in_flight(&self) -> (r: usize)
        ensures
            r == self.pending_spec().len(),
    {
        self.pending_operations.len()
    }

    /// The backend's name.
    pub fn name(&self) -> (r: &'static str)
        ensures
            r@ == "epoll"@,
    {
        "epoll"
    }

    /// epoll has no file table: registration succeeds at index 0 and does
    /// nothing.
    pub fn register_files(&mut self, fds: &[i32]) -> (r: Result<u32, SaferRingError>)
        ensures
            r == Ok::<u32, SaferRingError>(0),
            final(self).pending_spec() == old(self).pending_spec(),
            final(self).epoll_fd_spec() == old(self).epoll_fd_spec(),
    {
        Ok(0)
    }

    /// Nothing to unregister.
    pub fn unregister_files(&mut self) -> (r: Result<(), SaferRingError>)
        ensures
            r is Ok,
            final(self).pending_spec() == old(self).pending_spec(),
            final(self).epoll_fd_spec() == old(self).epoll_fd_spec(),
    {
        Ok(())
    }

    /// epoll has no buffer table: registration succeeds at index 0 and does
    /// nothing.
    pub fn register_buffers(&mut self, buffers: &[Vec<u8>]) -> (r: Result<u32, SaferRingError>)
        ensures
            r == Ok::<u32, SaferRingError>(0),
            final(self).pending_spec() == old(self).pending_spec(),
            final(self).epoll_fd_spec() == old(self).epoll_fd_spec(),
    {
        Ok(0)
    }

    /// Nothing to unregister.
    pub fn unregister_buffers(&mut self) -> (r: Result<(), SaferRingError>)
        ensures
            r is Ok,
            final(self).pending_spec() == old(self).pending_spec(),
            final(self).epoll_fd_spec() == old(self).epoll_fd_spec(),
    {
        Ok(())
    }

    /// epoll has no submission queue; this is the nominal size.
    pub fn capacity(&self) -> (r: u32)
        ensures
            r == 1024,
    {
        1024
    }

    /// The waiting operations stand in for ready completions, against the
    /// nominal queue size.
    pub fn completion_queue_stats(&mut self) -> (r: (usize, usize))
        ensures
            r == (old(self).pending_spec().len() as usize, 1024usize),
            final(self).pending_spec() == old(self).pending_spec(),
            final(self).epoll_fd_spec() == old(self).epoll_fd_spec(),
    {
        (self.pending_operations.len(), 1024)
    }
}


/// How the fallback moves data: a read or vectored read reads and a write
/// or vectored write writes, at the operation's offset exactly when that
/// offset is positive and at the current position otherwise; socket
/// operations use their own call and never an offset.
pub proof fn lemma_syscall_choice(op_type: OperationType, offset: u64)
    ensures
        (syscall_spec(op_type, offset) is Read || syscall_spec(op_type, offset) is PRead)
            <==> (op_type is Read || op_type is ReadVectored),
        (syscall_spec(op_type, offset) is Write || syscall_spec(op_type, offset) is PWrite)
            <==> (op_type is Write || op_type is WriteVectored),
        (syscall_spec(op_type, offset) is PRead || syscall_spec(op_type, offset) is PWrite)
            <==> (offset > 0 && (op_type is Read || op_type is ReadVectored || op_type is Write
            || op_type is WriteVectored)),
        (syscall_spec(op_type, offset) is Recv) <==> (op_type is Recv),
        (syscall_spec(op_type, offset) is Send) <==> (op_type is Send),
        (syscall_spec(op_type, offset) is Accept) <==> (op_type is Accept),
{
}

} // verus!
