//! Buffer ownership management for safe io_uring operations.
//!
//! A buffer is owned either by userspace or by the kernel. While the kernel
//! owns it (for the duration of an operation) userspace cannot reach its
//! bytes; the kernel hands it back when the operation completes (the "hot
//! potato" pattern). The transitions are the functions on
//! [`BufferOwnership`]; [`OwnedBuffer`] applies them to state that its
//! handles share under a lock.

use vstd::prelude::*;
use vstd::rwlock::{RwLock, RwLockPredicate};
use vstd::string::*;
use std::sync::Arc;
use std::sync::mpsc::{Receiver, Sender};
use crate::buffer::generation::{next_generation, GenerationCounter};
use crate::error::{IoError, IoErrorKind, SaferRingError};
use crate::channel::{channel, send, try_receive};
use crate::text::{decimal, push_decimal};

verus! {

/// `Arc::clone`: the new handle points to the same allocation, so it holds
/// the same value.
#[verifier::external_body]
pub(crate) fn share<T>(a: &Arc<T>) -> (r: Arc<T>)
    ensures
        r == *a,
{
    Arc::clone(a)
}

/// Who owns a buffer's bytes.
#[derive(Debug)]
pub enum BufferOwnership {
    /// Userspace owns the buffer and may access it.
    User(Vec<u8>),
    /// The kernel owns the buffer for the operation with this submission ID.
    Kernel(Vec<u8>, u64),
    /// The bytes are out on loan to an access guard.
    Returning,
}

/// The message of the error for a second hand-over to the kernel.
pub open spec fn already_owned_message(existing: u64) -> Seq<char> {
    "Buffer already owned by kernel (operation "@ + decimal(existing as nat) + ")"@
}

/// What handing a buffer in the given state to the kernel for the given
/// submission leads to, and what the caller is told: the buffer's length,
/// or why it cannot be handed over.
pub open spec fn give_spec(s: BufferOwnership, submission_id: u64) -> (BufferOwnership, Result<nat, (IoErrorKind, Seq<char>)>) {
    match s {
        BufferOwnership::User(b) => (BufferOwnership::Kernel(b, submission_id), Ok(b@.len())),
        BufferOwnership::Kernel(b, existing) => (
            BufferOwnership::Kernel(b, existing),
            Err((IoErrorKind::WouldBlock, already_owned_message(existing))),
        ),
        BufferOwnership::Returning => (
            BufferOwnership::Returning,
            Err((IoErrorKind::WouldBlock, "Buffer ownership is currently transitioning"@)),
        ),
    }
}

/// Whether the kernel holds the buffer for this submission.
pub open spec fn held_for(s: BufferOwnership, submission_id: u64) -> bool {
    s matches BufferOwnership::Kernel(_, id) && id == submission_id
}

/// What taking the buffer back from the kernel for a submission leads to,
/// and whether it happened: only the submission that holds it returns it.
pub open spec fn take_back_spec(s: BufferOwnership, submission_id: u64) -> (BufferOwnership, bool) {
    match s {
        BufferOwnership::Kernel(b, id) => if id == submission_id {
            (BufferOwnership::User(b), true)
        } else {
            (s, false)
        },
        _ => (s, false),
    }
}

/// An error's kind and message.
pub open spec fn error_parts(e: SaferRingError) -> Option<(IoErrorKind, Seq<char>)> {
    match e {
        SaferRingError::Io(io) => Some((io.kind, io.message@)),
        _ => None,
    }
}

impl BufferOwnership {
    /// The buffer's bytes, wherever they are held; none while on loan.
    pub open spec fn bytes(&self) -> Option<Seq<u8>> {
        match self {
            BufferOwnership::User(b) => Some(b@),
            BufferOwnership::Kernel(b, _) => Some(b@),
            BufferOwnership::Returning => None,
        }
    }

    /// Hands the buffer to the kernel for the given submission: only a
    /// buffer that userspace owns can be handed over.
    pub fn give(self, submission_id: u64) -> (r: (BufferOwnership, Result<usize, SaferRingError>))
        ensures
            r.0 == give_spec(self, submission_id).0,
            match give_spec(self, submission_id).1 {
                Ok(n) => r.1 == Ok::<usize, SaferRingError>(n as usize),
                Err(parts) => r.1 matches Err(e) && error_parts(e) == Some(parts),
            },
    {
        match self {
            BufferOwnership::User(b) => {
                let n = b.len();
                (BufferOwnership::Kernel(b, submission_id), Ok(n))
            },
            BufferOwnership::Kernel(b, existing) => {
                let mut message = String::from_str("Buffer already owned by kernel (operation ");
                push_decimal(&mut message, existing);
                message.append(")");
                (
                    BufferOwnership::Kernel(b, existing),
                    Err(SaferRingError::Io(IoError { kind: IoErrorKind::WouldBlock, message })),
                )
            },
            BufferOwnership::Returning => (
                BufferOwnership::Returning,
                Err(SaferRingError::io(IoErrorKind::WouldBlock, "Buffer ownership is currently transitioning")),
            ),
        }
    }

    /// Takes the buffer back from the kernel once the submission that holds
    /// it completes. A state in which the kernel does not hold the buffer for
    /// that submission is left as it is, and `false` is returned.
    pub fn take_back(self, submission_id: u64) -> (r: (BufferOwnership, bool))
        ensures
            r == take_back_spec(self, submission_id),
            held_for(self, submission_id) ==> r.1,
            !held_for(self, submission_id) ==> !r.1 && r.0 == self,
    {
        match self {
            BufferOwnership::Kernel(b, id) => {
                if id == submission_id {
                    (BufferOwnership::User(b), true)
                } else {
                    (BufferOwnership::Kernel(b, id), false)
                }
            },
            other => (other, false),
        }
    }

    /// Lends the bytes of a buffer that userspace owns, leaving the state
    /// marked as on loan; any other state is left as it is and lends nothing.
    pub fn lend(self) -> (r: (BufferOwnership, Option<Vec<u8>>))
        ensures
            self matches BufferOwnership::User(b) ==> (r.0 matches BufferOwnership::Returning && r.1
                matches Some(v) && v@ == b@),
            !(self matches BufferOwnership::User(_)) ==> r.0 == self && r.1 is None,
    {
        match self {
            BufferOwnership::User(b) => (BufferOwnership::Returning, Some(b)),
            other => (other, None),
        }
    }

    /// Whether userspace owns the buffer.
    pub fn is_user(&self) -> (r: bool)
        ensures
            r == (self matches BufferOwnership::User(_)),
    {
        match self {
            BufferOwnership::User(_) => true,
            _ => false,
        }
    }

    /// The submission for which the kernel holds the buffer, if it does.
    pub fn kernel_id(&self) -> (r: Option<u64>)
        ensures
            r == match self {
                BufferOwnership::Kernel(_, id) => Some(*id),
                _ => None::<u64>,
            },
    {
        match self {
            BufferOwnership::Kernel(_, id) => Some(*id),
            _ => None,
        }
    }

    /// The length of the bytes userspace owns; 0 in any other state.
    pub fn user_len(&self) -> (r: usize)
        ensures
            r == match self {
                BufferOwnership::User(b) => b@.len(),
                _ => 0,
            },
    {
        match self {
            BufferOwnership::User(b) => b.len(),
            _ => 0,
        }
    }
}

/// What a buffer's handles share under their lock: who owns the bytes, and
/// the channel on which a dropped guard sends the bytes it borrowed.
pub struct OwnershipCell {
    /// Who owns the bytes.
    pub state: BufferOwnership,
    returned: Receiver<Vec<u8>>,
}

/// The lock's invariant: the bytes, wherever they are held, have the
/// buffer's size.
pub struct SizeInvariant {
    /// The buffer's size in bytes.
    pub size: usize,
}

impl RwLockPredicate<OwnershipCell> for SizeInvariant {
    closed spec fn inv(self, v: OwnershipCell) -> bool {
        match v.state.bytes() {
            Some(b) => b.len() == self.size,
            None => true,
        }
    }
}

/// Takes back the bytes a dropped guard sent, if the buffer is waiting for
/// them and they have the buffer's size; otherwise the state is unchanged.
/// At most one guard is out at a time, so one look at the channel suffices.
fn collect_return(cell: OwnershipCell, size: usize) -> (r: OwnershipCell)
    requires
        (SizeInvariant { size }).inv(cell),
    ensures
        (SizeInvariant { size }).inv(r),
        r.state == cell.state || (cell.state matches BufferOwnership::Returning && r.state matches BufferOwnership::User(_)),
{
    let OwnershipCell { state, returned } = cell;
    let waiting = match &state {
        BufferOwnership::Returning => true,
        _ => false,
    };
    match try_receive(&returned) {
        Some(bytes) => {
            if waiting && bytes.len() == size {
                OwnershipCell { state: BufferOwnership::User(bytes), returned }
            } else {
                OwnershipCell { state, returned }
            }
        },
        None => OwnershipCell { state, returned },
    }
}

/// A buffer whose ownership moves between userspace and the kernel.
///
/// Handles made by [`OwnedBuffer::clone_handle`] share the buffer: a
/// transition through one is seen through all.
pub struct OwnedBuffer {
    inner: Arc<RwLock<OwnershipCell, SizeInvariant>>,
    returns: Arc<Sender<Vec<u8>>>,
    size: usize,
    generation: u64,
}

impl OwnedBuffer {
    /// The buffer's size in bytes.
    pub closed spec fn size_spec(&self) -> usize {
        self.size
    }

    /// The buffer's generation.
    pub closed spec fn generation_spec(&self) -> u64 {
        self.generation
    }

    /// The shared state this handle refers to.
    pub closed spec fn shared(&self) -> RwLock<OwnershipCell, SizeInvariant> {
        *self.inner
    }

    /// The handle is consistent: its lock keeps the bytes at its size.
    #[verifier::type_invariant]
    spec fn wf(&self) -> bool {
        self.inner.pred().size == self.size
    }

    /// A buffer owned by userspace holding the given bytes, with the next
    /// generation `generations` hands out.
    fn with_bytes(buffer: Vec<u8>, generations: &mut GenerationCounter) -> (r: Self)
        ensures
            r.size_spec() == buffer@.len(),
            r.generation_spec() == old(generations)@,
            final(generations)@ == next_generation(old(generations)@),
    {
        let generation = generations.get();
        generations.increment();
        let size = buffer.len();
        let (sender, receiver) = channel();
        let cell = OwnershipCell { state: BufferOwnership::User(buffer), returned: receiver };
        let lock = RwLock::new(cell, Ghost(SizeInvariant { size }));
        OwnedBuffer { inner: Arc::new(lock), returns: Arc::new(sender), size, generation }
    }

    /// Creates a buffer of `size` zero bytes, owned by userspace. Its
    /// generation is the next one `generations` hands out, so buffers made
    /// from one counter have distinct generations.
    pub fn new(size: usize, generations: &mut GenerationCounter) -> (r: Self)
        ensures
            r.size_spec() == size,
            r.generation_spec() == old(generations)@,
            final(generations)@ == next_generation(old(generations)@),
    {
        let buffer: Vec<u8> = vec![0u8; size];
        OwnedBuffer::with_bytes(buffer, generations)
    }

    /// Creates a buffer holding a copy of the given bytes, owned by
    /// userspace, with the next generation `generations` hands out.
    pub fn from_slice(data: &[u8], generations: &mut GenerationCounter) -> (r: Self)
        ensures
            r.size_spec() == data@.len(),
            r.generation_spec() == old(generations)@,
            final(generations)@ == next_generation(old(generations)@),
    {
        let buffer = vstd::slice::slice_to_vec(data);
        OwnedBuffer::with_bytes(buffer, generations)
    }

    /// The buffer's size in bytes.
    pub fn size(&self) -> (r: usize)
        ensures
            r == self.size_spec(),
    {
        self.size
    }

    /// The buffer's generation, for lifecycle tracking.
    pub fn generation(&self) -> (r: u64)
        ensures
            r == self.generation_spec(),
    {
        self.generation
    }

    /// Borrows the bytes while userspace owns the buffer; `None` while the
    /// kernel owns it or another guard has it. The guard hands the bytes
    /// back when dropped.
    pub fn try_access(&self) -> (r: Option<BufferAccessGuard>)
        ensures
            r matches Some(g) ==> {
                &&& g.bytes().len() == self.size_spec()
                &&& g.owner() == self.shared()
                &&& g.wf()
                &&& g.stand_in_spec() == Some(Seq::<u8>::empty())
            },
    {
        proof {
            use_type_invariant(self);
        }
        let (cell, handle) = self.inner.acquire_write();
        let OwnershipCell { state, returned } = collect_return(cell, self.size);
        let (next, lent) = state.lend();
        handle.release_write(OwnershipCell { state: next, returned });
        match lent {
            Some(buffer) => Some(
                BufferAccessGuard {
                    buffer,
                    stand_in: Some(Vec::new()),
                    size: self.size,
                    ownership: share(&self.inner),
                    returns: share(&self.returns),
                },
            ),
            None => None,
        }
    }

    /// Hands the buffer to the kernel for the given submission and returns
    /// its length; fails with `WouldBlock` while the kernel or a guard holds it.
    pub fn give_to_kernel(&self, submission_id: u64) -> (r: Result<usize, SaferRingError>)
        ensures
            r matches Ok(n) ==> n == self.size_spec(),
            r matches Err(e) ==> (error_parts(e) matches Some(p) && p.0 == IoErrorKind::WouldBlock),
    {
        proof {
            use_type_invariant(self);
        }
        let (cell, handle) = self.inner.acquire_write();
        let OwnershipCell { state, returned } = collect_return(cell, self.size);
        let (next, result) = state.give(submission_id);
        handle.release_write(OwnershipCell { state: next, returned });
        result
    }

    /// Takes the buffer back from the kernel when the submission that holds
    /// it completes.
    ///
    /// # Errors
    ///
    /// Returns `InvalidStateTransition`, changing nothing, when the kernel
    /// does not hold the buffer for that submission.
    pub fn return_from_kernel(&self, submission_id: u64) -> (r: Result<(), SaferRingError>)
        ensures
            r matches Err(e) ==> e matches SaferRingError::InvalidStateTransition,
    {
        proof {
            use_type_invariant(self);
        }
        let (cell, handle) = self.inner.acquire_write();
        let OwnershipCell { state, returned } = collect_return(cell, self.size);
        let (next, done) = state.take_back(submission_id);
        handle.release_write(OwnershipCell { state: next, returned });
        if done {
            Ok(())
        } else {
            Err(SaferRingError::InvalidStateTransition)
        }
    }

    /// Whether userspace owns the buffer.
    pub fn is_user_owned(&self) -> (r: bool) {
        proof {
            use_type_invariant(self);
        }
        let (cell, handle) = self.inner.acquire_write();
        let cell = collect_return(cell, self.size);
        let r = cell.state.is_user();
        handle.release_write(cell);
        r
    }

    /// The submission for which the kernel holds the buffer, if it does.
    pub fn kernel_owner(&self) -> (r: Option<u64>) {
        proof {
            use_type_invariant(self);
        }
        let (cell, handle) = self.inner.acquire_write();
        let cell = collect_return(cell, self.size);
        let r = cell.state.kernel_id();
        handle.release_write(cell);
        r
    }

    /// Another handle to the same buffer.
    pub fn clone_handle(&self) -> (r: Self)
        ensures
            r.shared() == self.shared(),
            r.size_spec() == self.size_spec(),
            r.generation_spec() == self.generation_spec(),
    {
        proof {
            use_type_invariant(self);
        }
        OwnedBuffer {
            inner: share(&self.inner),
            returns: share(&self.returns),
            size: self.size,
            generation: self.generation,
        }
    }

    /// The length of the bytes userspace can hand over: the buffer's size
    /// while userspace owns it, 0 otherwise.
    pub fn as_ptr_and_len(&self) -> (r: usize)
        ensures
            r == 0 || r == self.size_spec(),
    {
        proof {
            use_type_invariant(self);
        }
        let (cell, handle) = self.inner.acquire_write();
        let cell = collect_return(cell, self.size);
        let r = cell.state.user_len();
        handle.release_write(cell);
        r
    }
}

/// Access to a buffer's bytes while userspace owns them; dropping the guard
/// hands the bytes back to the buffer.
pub struct BufferAccessGuard {
    buffer: Vec<u8>,
    /// An empty buffer that takes the borrowed one's place when it goes
    /// back; `None` once it went back.
    stand_in: Option<Vec<u8>>,
    size: usize,
    ownership: Arc<RwLock<OwnershipCell, SizeInvariant>>,
    returns: Arc<Sender<Vec<u8>>>,
}

impl BufferAccessGuard {
    /// The guard is consistent: its size is the one its buffer's lock keeps.
    pub closed spec fn wf(&self) -> bool {
        self.ownership.pred().size == self.size
    }

    /// The borrowed bytes.
    pub closed spec fn bytes(&self) -> Seq<u8> {
        self.buffer@
    }

    /// The shared state the bytes belong to.
    pub closed spec fn owner(&self) -> RwLock<OwnershipCell, SizeInvariant> {
        *self.ownership
    }

    /// The bytes kept to take the borrowed ones' place, while the borrowed
    /// ones have not gone back.
    pub closed spec fn stand_in_spec(&self) -> Option<Seq<u8>> {
        match self.stand_in {
            Some(v) => Some(v@),
            None => None,
        }
    }

    /// Whether the borrowed bytes went back to the buffer already.
    pub closed spec fn released(&self) -> bool {
        self.stand_in is None
    }

    /// The number of borrowed bytes.
    pub fn len(&self) -> (r: usize)
        ensures
            r == self.bytes().len(),
    {
        self.buffer.len()
    }

    /// Whether no bytes are borrowed.
    pub fn is_empty(&self) -> (r: bool)
        ensures
            r == (self.bytes().len() == 0),
    {
        self.buffer.len() == 0
    }

    /// The borrowed bytes.
    pub fn as_slice(&self) -> (r: &[u8])
        ensures
            r@ == self.bytes(),
    {
        self.buffer.as_slice()
    }

    /// The borrowed bytes, for writing.
    pub fn as_mut_slice(&mut self) -> (r: &mut [u8])
        ensures
            r@ == old(self).bytes(),
            final(r)@ == final(self).bytes(),
            final(self).owner() == old(self).owner(),
            final(self).wf() == old(self).wf(),
            final(self).stand_in_spec() == old(self).stand_in_spec(),
    {
        self.buffer.as_mut_slice()
    }

    /// Hands the bytes back to the buffer, unless they went back already;
    /// the empty stand-in takes their place in the guard. The bytes are
    /// sent, which takes no lock, so a drop can do it; the buffer takes
    /// them in the next time one of its handles is used, and is owned by
    /// userspace again from then on.
    pub fn restore(&mut self)
        ensures
            final(self).released(),
            final(self).owner() == old(self).owner(),
            final(self).wf() == old(self).wf(),
            match old(self).stand_in_spec() {
                Some(empty) => final(self).bytes() == empty,
                None => final(self).bytes() == old(self).bytes(),
            },
        opens_invariants none
        no_unwind
    {
        let mut slot: Option<Vec<u8>> = None;
        std::mem::swap(&mut slot, &mut self.stand_in);
        match slot {
            Some(mut borrowed) => {
                std::mem::swap(&mut borrowed, &mut self.buffer);
                send(&self.returns, borrowed);
            },
            None => {},
        }
    }
}

impl Drop for BufferAccessGuard {
    /// Hands the bytes back to the buffer.
    fn drop(&mut self)
        opens_invariants none
        no_unwind
    {
        self.restore();
    }
}

impl std::ops::Deref for BufferAccessGuard {
    type Target = [u8];

    fn deref(&self) -> (r: &[u8])
        ensures
            r@ == self.bytes(),
    {
        self.buffer.as_slice()
    }
}

/// A buffer that can be handed to the kernel and taken back.
pub trait SafeBuffer {
    /// The buffer's size in bytes, as the proofs see it.
    spec fn buffer_size(&self) -> usize;

    /// The buffer's size in bytes.
    fn size(&self) -> (r: usize)
        ensures
            r == self.buffer_size(),
    ;

    /// Hands the buffer to the kernel for the given submission and returns
    /// its length; fails with `WouldBlock` while userspace does not own it.
    fn give_to_kernel(&self, submission_id: u64) -> (r: Result<usize, SaferRingError>)
        ensures
            r matches Ok(n) ==> n == self.buffer_size(),
            r matches Err(e) ==> (error_parts(e) matches Some(p) && p.0 == IoErrorKind::WouldBlock),
    ;

    /// Takes the buffer back from the kernel when the submission completes;
    /// fails with `InvalidStateTransition` when the kernel does not hold it
    /// for that submission.
    fn return_from_kernel(&self, submission_id: u64) -> (r: Result<(), SaferRingError>)
        ensures
            r matches Err(e) ==> e matches SaferRingError::InvalidStateTransition,
    ;
}

impl SafeBuffer for OwnedBuffer {
    open spec fn buffer_size(&self) -> usize {
        self.size_spec()
    }

    fn size(&self) -> (r: usize) {
        OwnedBuffer::size(self)
    }

    fn give_to_kernel(&self, submission_id: u64) -> (r: Result<usize, SaferRingError>) {
        OwnedBuffer::give_to_kernel(self, submission_id)
    }

    fn return_from_kernel(&self, submission_id: u64) -> (r: Result<(), SaferRingError>) {
        OwnedBuffer::return_from_kernel(self, submission_id)
    }
}

/// The hot-potato protocol: a buffer userspace owns goes to the kernel for
/// one submission, cannot be handed over again or lent while the kernel
/// holds it, and comes back to userspace with the same bytes when that
/// submission returns it.
pub proof fn lemma_hot_potato(b: Vec<u8>, submission_id: u64, other_id: u64)
    ensures
        ({
            let (given, told) = give_spec(BufferOwnership::User(b), submission_id);
            &&& given == BufferOwnership::Kernel(b, submission_id)
            &&& told == Ok::<nat, (IoErrorKind, Seq<char>)>(b@.len())
            &&& held_for(given, submission_id)
            &&& give_spec(given, other_id).0 == given
            &&& give_spec(given, other_id).1 is Err
            &&& !(given matches BufferOwnership::User(_))
            &&& given.bytes() == Some(b@)
            &&& take_back_spec(given, other_id) == (if other_id == submission_id {
                (BufferOwnership::User(b), true)
            } else {
                (given, false)
            })
            &&& take_back_spec(given, submission_id) == (BufferOwnership::User(b), true)
        }),
{
}

/// Buffers made one after another from the same counter have distinct
/// generations: a generation is never followed by itself, and within fewer
/// than 2^64 buffers no generation comes back.
pub proof fn lemma_generations_differ(g: u64, steps: nat)
    requires
        0 < steps < 0x1_0000_0000_0000_0000,
    ensures
        next_generation(g) != g,
        generation_after(g, steps) != g,
{
    lemma_generation_after(g, steps);
}

/// The generation a counter at `g` reaches after `steps` buffers.
pub open spec fn generation_after(g: u64, steps: nat) -> u64
    decreases steps,
{
    if steps == 0 {
        g
    } else {
        next_generation(generation_after(g, (steps - 1) as nat))
    }
}

/// After `steps` buffers the counter has moved on by `steps`, modulo 2^64.
proof fn lemma_generation_after(g: u64, steps: nat)
    ensures
        generation_after(g, steps) as int == (g + steps) % 0x1_0000_0000_0000_0000,
    decreases steps,
{
    if steps > 0 {
        lemma_generation_after(g, (steps - 1) as nat);
    }
}

} // verus!
