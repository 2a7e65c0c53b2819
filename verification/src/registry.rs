//! Registration of file descriptors and buffers with the kernel.
//!
//! Registered resources are addressed by slot index. A slot freed by
//! unregistering is reused by the next registration; a resource marked in
//! use by an operation cannot be unregistered.

use vstd::prelude::*;
use vstd::string::*;
use std::collections::HashSet;
use crate::error::{IoError, IoErrorKind, SaferRingError};
use crate::ownership::OwnedBuffer;
use crate::text::{decimal, push_decimal, push_signed_decimal, signed_decimal};

verus! {

broadcast use vstd::std_specs::hash::group_hash_axioms;

/// The first free slot, or the number of slots when all are taken.
pub open spec fn first_free<T>(s: Seq<Option<T>>) -> int
    decreases s.len(),
{
    if s.len() == 0 {
        0
    } else if s[0] is None {
        0
    } else {
        1 + first_free(s.drop_first())
    }
}

/// The slots after storing a value in the first free slot, or in a new
/// slot at the end when all are taken.
pub open spec fn place<T>(s: Seq<Option<T>>, v: T) -> Seq<Option<T>> {
    if first_free(s) < s.len() {
        s.update(first_free(s), Some(v))
    } else {
        s.push(Some(v))
    }
}

/// The number of taken slots.
pub open spec fn count_some<T>(s: Seq<Option<T>>) -> nat
    decreases s.len(),
{
    if s.len() == 0 {
        0
    } else {
        count_some(s.drop_last()) + if s.last() is Some { 1nat } else { 0nat }
    }
}

/// The taken slots' values, in slot order.
pub open spec fn values_of<T>(s: Seq<Option<T>>) -> Seq<T>
    decreases s.len(),
{
    if s.len() == 0 {
        Seq::empty()
    } else {
        let rest = values_of(s.drop_last());
        match s.last() {
            Some(v) => rest.push(v),
            None => rest,
        }
    }
}

proof fn lemma_first_free_bounds<T>(s: Seq<Option<T>>)
    ensures
        0 <= first_free(s) <= s.len(),
        first_free(s) < s.len() ==> s[first_free(s)] is None,
        forall|i: int| 0 <= i < first_free(s) ==> s[i] is Some,
    decreases s.len(),
{
    if s.len() > 0 && s[0] is Some {
        lemma_first_free_bounds(s.drop_first());
        assert forall|i: int| 0 <= i < first_free(s) implies s[i] is Some by {
            if i > 0 {
                assert(s[i] == s.drop_first()[i - 1]);
            }
        }
    }
}

proof fn lemma_first_free_is<T>(s: Seq<Option<T>>, k: int)
    requires
        0 <= k <= s.len(),
        k < s.len() ==> s[k] is None,
        forall|i: int| 0 <= i < k ==> s[i] is Some,
    ensures
        first_free(s) == k,
    decreases s.len(),
{
    if s.len() > 0 && k > 0 {
        assert(s[0] is Some);
        assert forall|i: int| 0 <= i < k - 1 implies s.drop_first()[i] is Some by {
            assert(s.drop_first()[i] == s[i + 1]);
        }
        if k - 1 < s.drop_first().len() {
            assert(s.drop_first()[k - 1] == s[k]);
        }
        lemma_first_free_is(s.drop_first(), k - 1);
    }
}

proof fn lemma_count_update<T>(s: Seq<Option<T>>, i: int, v: Option<T>)
    requires
        0 <= i < s.len(),
    ensures
        count_some(s.update(i, v)) + (if s[i] is Some { 1int } else { 0int }) == count_some(s) + (if v is Some {
            1int
        } else {
            0int
        }),
    decreases s.len(),
{
    let t = s.update(i, v);
    if i == s.len() - 1 {
        assert(t.drop_last() =~= s.drop_last());
    } else {
        assert(t.drop_last() =~= s.drop_last().update(i, v));
        lemma_count_update(s.drop_last(), i, v);
    }
}

proof fn lemma_count_push<T>(s: Seq<Option<T>>, v: Option<T>)
    ensures
        count_some(s.push(v)) == count_some(s) + if v is Some { 1nat } else { 0nat },
{
    assert(s.push(v).drop_last() =~= s);
}

/// Registering a value and then unregistering its slot leaves as many
/// taken slots as before, and a freed slot is the next one filled.
pub proof fn lemma_place_then_free<T>(s: Seq<Option<T>>, v: T, w: T)
    ensures
        first_free(s) < place(s, v).len(),
        place(s, v)[first_free(s)] == Some(v),
        count_some(place(s, v)) == count_some(s) + 1,
        count_some(place(s, v).update(first_free(s), None)) == count_some(s),
        first_free(place(s, v).update(first_free(s), None)) == first_free(s),
        place(place(s, v).update(first_free(s), None), w) == place(s, w),
{
    lemma_first_free_bounds(s);
    let k = first_free(s);
    let p = place(s, v);
    if k < s.len() {
        lemma_count_update(s, k, Some(v));
        lemma_count_update(p, k, None);
        assert(p.update(k, None) =~= s);
    } else {
        lemma_count_push(s, Some(v));
        lemma_count_update(p, k, None);
        assert(p.update(k, None) =~= s.push(None));
        lemma_count_push(s, None);
        assert forall|i: int| 0 <= i < k implies s.push(None)[i] is Some by {
            assert(s.push(None)[i] == s[i]);
        }
        lemma_first_free_is(s.push(None), k);
        assert(s.push(None).update(k, Some(w)) =~= s.push(Some(w)));
    }
}

fn free_slot<T>(v: &Vec<Option<T>>) -> (r: usize)
    ensures
        r == first_free(v@),
{
    proof {
        lemma_first_free_bounds(v@);
    }
    let mut i: usize = 0;
    while i < v.len()
        invariant
            i <= v.len(),
            forall|k: int| 0 <= k < i ==> v@[k] is Some,
        decreases v.len() - i,
    {
        match &v[i] {
            None => {
                proof {
                    lemma_first_free_is(v@, i as int);
                }
                return i;
            },
            Some(_) => {},
        }
        i = i + 1;
    }
    proof {
        lemma_first_free_is(v@, i as int);
    }
    i
}

fn count_taken<T>(v: &Vec<Option<T>>) -> (r: usize)
    ensures
        r == count_some(v@),
{
    let mut n: usize = 0;
    let mut i: usize = 0;
    proof {
        assert(v@.subrange(0, 0) =~= Seq::<Option<T>>::empty());
    }
    while i < v.len()
        invariant
            i <= v.len(),
            n == count_some(v@.subrange(0, i as int)),
            n <= i,
        decreases v.len() - i,
    {
        proof {
            assert(v@.subrange(0, i + 1).drop_last() =~= v@.subrange(0, i as int));
        }
        match &v[i] {
            Some(_) => {
                n = n + 1;
            },
            None => {},
        }
        i = i + 1;
    }
    proof {
        assert(v@.subrange(0, v.len() as int) =~= v@);
    }
    n
}

/// A registered file descriptor.
#[derive(Debug)]
pub struct RegisteredFd {
    index: u32,
    fd: i32,
}

/// A registered buffer.
#[derive(Debug)]
pub struct RegisteredBuffer {
    index: u32,
    size: usize,
}

/// A file registered in the fixed-file table.
#[derive(Debug, Clone, PartialEq, Eq)]
pub struct FixedFile {
    index: u32,
    fd: i32,
}

/// A buffer slot registered for kernel use.
#[derive(Debug)]
pub struct RegisteredBufferSlot {
    index: u32,
    size: usize,
    in_use: bool,
}

impl RegisteredFd {
    /// A handle naming a slot and the descriptor it should hold; the
    /// registry checks it against the slot whenever it is used.
    pub fn new(index: u32, fd: i32) -> (r: Self)
        ensures
            r.index_spec() == index,
            r.fd_spec() == fd,
    {
        RegisteredFd { index, fd }
    }

    /// The slot index.
    pub closed spec fn index_spec(&self) -> u32 {
        self.index
    }

    /// The descriptor.
    pub closed spec fn fd_spec(&self) -> i32 {
        self.fd
    }

    /// The slot index.
    pub fn index(&self) -> (r: u32)
        ensures
            r == self.index_spec(),
    {
        self.index
    }

    /// The descriptor.
    pub fn raw_fd(&self) -> (r: i32)
        ensures
            r == self.fd_spec(),
    {
        self.fd
    }
}

impl RegisteredBuffer {
    /// A handle naming a slot and the size of the buffer it should hold;
    /// the registry checks it against the slot whenever it is used.
    pub fn new(index: u32, size: usize) -> (r: Self)
        ensures
            r.index_spec() == index,
            r.size_spec() == size,
    {
        RegisteredBuffer { index, size }
    }

    /// The slot index.
    pub closed spec fn index_spec(&self) -> u32 {
        self.index
    }

    /// The buffer's size.
    pub closed spec fn size_spec(&self) -> usize {
        self.size
    }

    /// The slot index.
    pub fn index(&self) -> (r: u32)
        ensures
            r == self.index_spec(),
    {
        self.index
    }

    /// The buffer's size.
    pub fn size(&self) -> (r: usize)
        ensures
            r == self.size_spec(),
    {
        self.size
    }
}

impl FixedFile {
    /// The slot index.
    pub closed spec fn index_spec(&self) -> u32 {
        self.index
    }

    /// The descriptor.
    pub closed spec fn fd_spec(&self) -> i32 {
        self.fd
    }

    /// The slot index.
    pub fn index(&self) -> (r: u32)
        ensures
            r == self.index_spec(),
    {
        self.index
    }

    /// The descriptor.
    pub fn raw_fd(&self) -> (r: i32)
        ensures
            r == self.fd_spec(),
    {
        self.fd
    }
}

impl RegisteredBufferSlot {
    /// The slot index.
    pub closed spec fn index_spec(&self) -> u32 {
        self.index
    }

    /// The buffer's size.
    pub closed spec fn size_spec(&self) -> usize {
        self.size
    }

    /// Whether the slot was in use when the handle was made.
    pub closed spec fn in_use_spec(&self) -> bool {
        self.in_use
    }

    /// The slot index.
    pub fn index(&self) -> (r: u32)
        ensures
            r == self.index_spec(),
    {
        self.index
    }

    /// The buffer's size.
    pub fn size(&self) -> (r: usize)
        ensures
            r == self.size_spec(),
    {
        self.size
    }

    /// Whether the slot was in use when the handle was made.
    pub fn is_in_use(&self) -> (r: bool)
        ensures
            r == self.in_use_spec(),
    {
        self.in_use
    }
}

/// The text of each optional buffer.
pub open spec fn buffer_slots_view(s: Seq<Option<Vec<u8>>>) -> Seq<Option<Seq<u8>>> {
    s.map_values(|o: Option<Vec<u8>>| match o {
        Some(b) => Some(b@),
        None => None,
    })
}

/// The size of each optional owned buffer.
pub open spec fn owned_slots_view(s: Seq<Option<OwnedBuffer>>) -> Seq<Option<usize>> {
    s.map_values(|o: Option<OwnedBuffer>| match o {
        Some(b) => Some(b.size_spec()),
        None => None,
    })
}

/// Registry of file descriptors, buffers, fixed files and buffer slots.
pub struct Registry {
    registered_fds: Vec<Option<i32>>,
    registered_buffers: Vec<Option<Vec<u8>>>,
    fixed_files: Vec<Option<i32>>,
    registered_buffer_slots: Vec<Option<OwnedBuffer>>,
    fds_in_use: HashSet<u32>,
    buffers_in_use: HashSet<u32>,
    fixed_files_in_use: HashSet<u32>,
    buffer_slots_in_use: HashSet<u32>,
}

/// The error for a registration the registry refuses as invalid.
pub open spec fn invalid_input(e: SaferRingError, msg: Seq<char>) -> bool {
    e matches SaferRingError::Io(io) && io.kind == IoErrorKind::InvalidInput && io.message@ == msg
}

/// What the registry reports of resources still marked in use when it goes
/// away: the number of each kind.
pub open spec fn in_use_message(fds: nat, buffers: nat, fixed: nat, slots: nat) -> Seq<char> {
    "Registry dropped with resources in use: "@ + decimal(fds) + " fds, "@ + decimal(buffers)
        + " buffers, "@ + decimal(fixed) + " fixed_files, "@ + decimal(slots) + " buffer_slots"@
}

impl Registry {
    /// The file descriptor slots.
    pub closed spec fn fds(&self) -> Seq<Option<i32>> {
        self.registered_fds@
    }

    /// The buffer slots, as their bytes.
    pub closed spec fn buffers(&self) -> Seq<Option<Seq<u8>>> {
        buffer_slots_view(self.registered_buffers@)
    }

    /// The fixed-file slots.
    pub closed spec fn fixed(&self) -> Seq<Option<i32>> {
        self.fixed_files@
    }

    /// The buffer-slot table, as the sizes of its buffers.
    pub closed spec fn slots(&self) -> Seq<Option<usize>> {
        owned_slots_view(self.registered_buffer_slots@)
    }

    /// The descriptor slots marked in use.
    pub closed spec fn fds_busy(&self) -> Set<u32> {
        self.fds_in_use@
    }

    /// The buffer slots marked in use.
    pub closed spec fn buffers_busy(&self) -> Set<u32> {
        self.buffers_in_use@
    }

    /// The fixed files marked in use.
    pub closed spec fn fixed_busy(&self) -> Set<u32> {
        self.fixed_files_in_use@
    }

    /// The buffer-slot entries marked in use.
    pub closed spec fn slots_busy(&self) -> Set<u32> {
        self.buffer_slots_in_use@
    }

    /// Creates an empty registry.
    pub fn new() -> (r: Self)
        ensures
            r.fds() == Seq::<Option<i32>>::empty(),
            r.buffers() == Seq::<Option<Seq<u8>>>::empty(),
            r.fixed() == Seq::<Option<i32>>::empty(),
            r.slots() == Seq::<Option<usize>>::empty(),
            r.fds_busy() == Set::<u32>::empty(),
            r.buffers_busy() == Set::<u32>::empty(),
            r.fixed_busy() == Set::<u32>::empty(),
            r.slots_busy() == Set::<u32>::empty(),
    {
        let r = Registry {
            registered_fds: Vec::new(),
            registered_buffers: Vec::new(),
            fixed_files: Vec::new(),
            registered_buffer_slots: Vec::new(),
            fds_in_use: HashSet::new(),
            buffers_in_use: HashSet::new(),
            fixed_files_in_use: HashSet::new(),
            buffer_slots_in_use: HashSet::new(),
        };
        proof {
            assert(r.buffers() =~= Seq::<Option<Seq<u8>>>::empty());
            assert(r.slots() =~= Seq::<Option<usize>>::empty());
        }
        r
    }
}

impl Registry {
    /// The descriptor, buffer, fixed-file and buffer-slot tables other than
    /// the descriptors, and every in-use set, are as in `other`.
    pub open spec fn same_but_fds(&self, other: &Self) -> bool {
        &&& self.buffers() == other.buffers()
        &&& self.fixed() == other.fixed()
        &&& self.slots() == other.slots()
        &&& self.fds_busy() == other.fds_busy()
        &&& self.buffers_busy() == other.buffers_busy()
        &&& self.fixed_busy() == other.fixed_busy()
        &&& self.slots_busy() == other.slots_busy()
    }

    /// Every table but the buffers, and every in-use set, are as in `other`.
    pub open spec fn same_but_buffers(&self, other: &Self) -> bool {
        &&& self.fds() == other.fds()
        &&& self.fixed() == other.fixed()
        &&& self.slots() == other.slots()
        &&& self.fds_busy() == other.fds_busy()
        &&& self.buffers_busy() == other.buffers_busy()
        &&& self.fixed_busy() == other.fixed_busy()
        &&& self.slots_busy() == other.slots_busy()
    }

    /// Every table is as in `other`; of the in-use sets, all but possibly
    /// the one named by `which` (0 descriptors, 1 buffers, 2 fixed files,
    /// 3 buffer slots) are as in `other`.
    pub open spec fn same_tables(&self, other: &Self, which: int) -> bool {
        &&& self.fds() == other.fds()
        &&& self.buffers() == other.buffers()
        &&& self.fixed() == other.fixed()
        &&& self.slots() == other.slots()
        &&& which != 0 ==> self.fds_busy() == other.fds_busy()
        &&& which != 1 ==> self.buffers_busy() == other.buffers_busy()
        &&& which != 2 ==> self.fixed_busy() == other.fixed_busy()
        &&& which != 3 ==> self.slots_busy() == other.slots_busy()
    }

    /// Registers a file descriptor in the first free slot, or a new one.
    ///
    /// # Errors
    ///
    /// Returns an `InvalidInput` I/O error for a negative descriptor.
    pub fn register_fd(&mut self, fd: i32) -> (r: Result<RegisteredFd, SaferRingError>)
        ensures
            fd < 0 ==> (r matches Err(e) && invalid_input(e, "File descriptor must be non-negative"@)) && *final(self) == *old(self),
            fd >= 0 ==> (r matches Ok(h) && h.index_spec() == first_free(old(self).fds()) as u32
                && h.fd_spec() == fd) && final(self).fds() == place(old(self).fds(), fd) && final(self).same_but_fds(old(self)),
    {
        if fd < 0 {
            return Err(SaferRingError::io(IoErrorKind::InvalidInput, "File descriptor must be non-negative"));
        }
        let slot = free_slot(&self.registered_fds);
        if slot < self.registered_fds.len() {
            self.registered_fds.set(slot, Some(fd));
        } else {
            self.registered_fds.push(Some(fd));
        }
        Ok(RegisteredFd { index: slot as u32, fd })
    }

    /// Registers a buffer in the first free slot, or a new one.
    ///
    /// # Errors
    ///
    /// Returns an `InvalidInput` I/O error for an empty buffer.
    pub fn register_buffer(&mut self, buffer: Vec<u8>) -> (r: Result<RegisteredBuffer, SaferRingError>)
        ensures
            buffer@.len() == 0 ==> (r matches Err(e) && invalid_input(e, "Buffer cannot be empty"@)) && *final(self) == *old(self),
            buffer@.len() > 0 ==> (r matches Ok(h) && h.index_spec() == first_free(old(self).buffers()) as u32
                && h.size_spec() == buffer@.len()) && final(self).buffers() == place(old(self).buffers(), buffer@)
                && final(self).same_but_buffers(old(self)),
    {
        if buffer.len() == 0 {
            return Err(SaferRingError::io(IoErrorKind::InvalidInput, "Buffer cannot be empty"));
        }
        let size = buffer.len();
        let ghost bytes = buffer@;
        let slot = free_slot(&self.registered_buffers);
        proof {
            lemma_first_free_bounds(self.registered_buffers@);
            lemma_first_free_bounds(self.buffers());
            assert forall|i: int| 0 <= i < slot implies self.buffers()[i] is Some by {
                assert(self.registered_buffers@[i] is Some);
            }
            if slot < self.registered_buffers.len() {
                assert(self.buffers()[slot as int] is None);
            }
            lemma_first_free_is(self.buffers(), slot as int);
        }
        let ghost before = self.buffers();
        if slot < self.registered_buffers.len() {
            self.registered_buffers.set(slot, Some(buffer));
            proof {
                assert(self.buffers() =~= before.update(slot as int, Some(bytes)));
            }
        } else {
            self.registered_buffers.push(Some(buffer));
            proof {
                assert(self.buffers() =~= before.push(Some(bytes)));
            }
        }
        Ok(RegisteredBuffer { index: slot as u32, size })
    }

    /// Whether the handle's slot still holds its descriptor.
    pub open spec fn holds_fd(&self, h: &RegisteredFd) -> bool {
        &&& (h.index_spec() as int) < self.fds().len()
        &&& self.fds()[h.index_spec() as int] == Some(h.fd_spec())
    }

    /// Whether the handle's slot still holds a buffer of its size.
    pub open spec fn holds_buffer(&self, h: &RegisteredBuffer) -> bool {
        &&& (h.index_spec() as int) < self.buffers().len()
        &&& self.buffers()[h.index_spec() as int] matches Some(b) && b.len() == h.size_spec()
    }

    /// Unregisters a descriptor, freeing its slot.
    ///
    /// # Errors
    ///
    /// `NotRegistered` when the slot does not hold the handle's descriptor;
    /// `BufferInFlight` when it is marked in use.
    pub fn unregister_fd(&mut self, registered_fd: RegisteredFd) -> (r: Result<(), SaferRingError>)
        ensures
            !old(self).holds_fd(&registered_fd) ==> (r matches Err(SaferRingError::NotRegistered)) && *final(self)
                == *old(self),
            old(self).holds_fd(&registered_fd) && old(self).fds_busy().contains(registered_fd.index_spec()) ==> (
            r matches Err(SaferRingError::BufferInFlight)) && *final(self) == *old(self),
            old(self).holds_fd(&registered_fd) && !old(self).fds_busy().contains(registered_fd.index_spec()) ==> r
                is Ok && final(self).fds() == old(self).fds().update(registered_fd.index_spec() as int, None)
                && final(self).same_but_fds(old(self)),
    {
        let index = registered_fd.index as usize;
        if index >= self.registered_fds.len() {
            return Err(SaferRingError::NotRegistered);
        }
        match self.registered_fds[index] {
            Some(stored) => {
                if stored != registered_fd.fd {
                    return Err(SaferRingError::NotRegistered);
                }
            },
            None => {
                return Err(SaferRingError::NotRegistered);
            },
        }
        if self.fds_in_use.contains(&registered_fd.index) {
            return Err(SaferRingError::BufferInFlight);
        }
        self.registered_fds.set(index, None);
        Ok(())
    }

    /// Unregisters a buffer, freeing its slot and handing the buffer back.
    ///
    /// # Errors
    ///
    /// `NotRegistered` when the slot does not hold a buffer of the handle's
    /// size; `BufferInFlight` when it is marked in use.
    pub fn unregister_buffer(&mut self, registered_buffer: RegisteredBuffer) -> (r: Result<Vec<u8>, SaferRingError>)
        ensures
            !old(self).holds_buffer(&registered_buffer) ==> (r matches Err(SaferRingError::NotRegistered)) && *final(self) == *old(self),
            old(self).holds_buffer(&registered_buffer) && old(self).buffers_busy().contains(
                registered_buffer.index_spec(),
            ) ==> (r matches Err(SaferRingError::BufferInFlight)) && *final(self) == *old(self),
            old(self).holds_buffer(&registered_buffer) && !old(self).buffers_busy().contains(
                registered_buffer.index_spec(),
            ) ==> (r matches Ok(b) && old(self).buffers()[registered_buffer.index_spec() as int] == Some(b@))
                && final(self).buffers() == old(self).buffers().update(registered_buffer.index_spec() as int, None)
                && final(self).same_but_buffers(old(self)),
    {
        let index = registered_buffer.index as usize;
        if index >= self.registered_buffers.len() {
            return Err(SaferRingError::NotRegistered);
        }
        let ghost before = self.buffers();
        let size_matches = match &self.registered_buffers[index] {
            Some(b) => b.len() == registered_buffer.size,
            None => false,
        };
        if !size_matches {
            return Err(SaferRingError::NotRegistered);
        }
        if self.buffers_in_use.contains(&registered_buffer.index) {
            return Err(SaferRingError::BufferInFlight);
        }
        let mut taken: Option<Vec<u8>> = None;
        std::mem::swap(&mut taken, &mut self.registered_buffers[index]);
        proof {
            assert(self.buffers() =~= before.update(index as int, None));
        }
        match taken {
            Some(b) => Ok(b),
            None => Err(SaferRingError::NotRegistered),
        }
    }

    /// Marks a registered descriptor as in use by an operation.
    ///
    /// # Errors
    ///
    /// `NotRegistered` when the handle's slot is free or out of range.
    pub fn mark_fd_in_use(&mut self, registered_fd: &RegisteredFd) -> (r: Result<(), SaferRingError>)
        ensures
            ((registered_fd.index_spec() as int) < old(self).fds().len() && old(self).fds()[registered_fd.index_spec() as int]
                is Some) ==> r is Ok && final(self).fds_busy() == old(self).fds_busy().insert(registered_fd.index_spec())
                && final(self).same_tables(old(self), 0),
            !((registered_fd.index_spec() as int) < old(self).fds().len() && old(self).fds()[registered_fd.index_spec() as int]
                is Some) ==> (r matches Err(SaferRingError::NotRegistered)) && *final(self) == *old(self),
    {
        let index = registered_fd.index as usize;
        if index >= self.registered_fds.len() {
            return Err(SaferRingError::NotRegistered);
        }
        if self.registered_fds[index].is_none() {
            return Err(SaferRingError::NotRegistered);
        }
        self.fds_in_use.insert(registered_fd.index);
        Ok(())
    }

    /// Marks a descriptor as no longer in use.
    pub fn mark_fd_not_in_use(&mut self, registered_fd: &RegisteredFd)
        ensures
            final(self).fds_busy() == old(self).fds_busy().remove(registered_fd.index_spec()),
            final(self).same_tables(old(self), 0),
    {
        self.fds_in_use.remove(&registered_fd.index);
    }

    /// Marks a registered buffer as in use by an operation.
    ///
    /// # Errors
    ///
    /// `NotRegistered` when the handle's slot is free or out of range.
    pub fn mark_buffer_in_use(&mut self, registered_buffer: &RegisteredBuffer) -> (r: Result<(), SaferRingError>)
        ensures
            ((registered_buffer.index_spec() as int) < old(self).buffers().len() && old(self).buffers()[registered_buffer.index_spec() as int]
                is Some) ==> r is Ok && final(self).buffers_busy() == old(self).buffers_busy().insert(
                registered_buffer.index_spec(),
            ) && final(self).same_tables(old(self), 1),
            !((registered_buffer.index_spec() as int) < old(self).buffers().len() && old(self).buffers()[registered_buffer.index_spec() as int]
                is Some) ==> (r matches Err(SaferRingError::NotRegistered)) && *final(self) == *old(self),
    {
        let index = registered_buffer.index as usize;
        if index >= self.registered_buffers.len() {
            return Err(SaferRingError::NotRegistered);
        }
        if self.registered_buffers[index].is_none() {
            return Err(SaferRingError::NotRegistered);
        }
        self.buffers_in_use.insert(registered_buffer.index);
        Ok(())
    }

    /// Marks a buffer as no longer in use.
    pub fn mark_buffer_not_in_use(&mut self, registered_buffer: &RegisteredBuffer)
        ensures
            final(self).buffers_busy() == old(self).buffers_busy().remove(registered_buffer.index_spec()),
            final(self).same_tables(old(self), 1),
    {
        self.buffers_in_use.remove(&registered_buffer.index);
    }

    /// The number of registered descriptors.
    pub fn fd_count(&self) -> (r: usize)
        ensures
            r == count_some(self.fds()),
    {
        count_taken(&self.registered_fds)
    }

    /// The number of registered buffers.
    pub fn buffer_count(&self) -> (r: usize)
        ensures
            r == count_some(self.buffers()),
    {
        proof {
            lemma_count_view(self.registered_buffers@);
        }
        count_taken(&self.registered_buffers)
    }

    /// The number of descriptors marked in use.
    pub fn fds_in_use_count(&self) -> (r: usize)
        ensures
            r == self.fds_busy().len(),
    {
        self.fds_in_use.len()
    }

    /// The number of buffers marked in use.
    pub fn buffers_in_use_count(&self) -> (r: usize)
        ensures
            r == self.buffers_busy().len(),
    {
        self.buffers_in_use.len()
    }

    /// The check to make before the registry goes away: `None` when no
    /// descriptor, buffer, fixed file or buffer slot is marked in use,
    /// otherwise the report naming how many of each are.
    pub fn leftover_in_use(&self) -> (r: Option<String>)
        ensures
            r is None <==> (self.fds_busy().len() == 0 && self.buffers_busy().len() == 0
                && self.fixed_busy().len() == 0 && self.slots_busy().len() == 0),
            r matches Some(m) ==> m@ == in_use_message(
                self.fds_busy().len(),
                self.buffers_busy().len(),
                self.fixed_busy().len(),
                self.slots_busy().len(),
            ),
    {
        let fds = self.fds_in_use.len();
        let buffers = self.buffers_in_use.len();
        let fixed = self.fixed_files_in_use.len();
        let slots = self.buffer_slots_in_use.len();
        if fds == 0 && buffers == 0 && fixed == 0 && slots == 0 {
            return None;
        }
        let mut m = String::from_str("Registry dropped with resources in use: ");
        push_decimal(&mut m, fds as u64);
        m.append(" fds, ");
        push_decimal(&mut m, buffers as u64);
        m.append(" buffers, ");
        push_decimal(&mut m, fixed as u64);
        m.append(" fixed_files, ");
        push_decimal(&mut m, slots as u64);
        m.append(" buffer_slots");
        Some(m)
    }

    /// Whether the handle's slot still holds its descriptor.
    pub fn is_fd_registered(&self, registered_fd: &RegisteredFd) -> (r: bool)
        ensures
            r == self.holds_fd(registered_fd),
    {
        let index = registered_fd.index as usize;
        if index >= self.registered_fds.len() {
            return false;
        }
        match self.registered_fds[index] {
            Some(fd) => fd == registered_fd.fd,
            None => false,
        }
    }

    /// Whether the handle's slot still holds a buffer of its size.
    pub fn is_buffer_registered(&self, registered_buffer: &RegisteredBuffer) -> (r: bool)
        ensures
            r == self.holds_buffer(registered_buffer),
    {
        let index = registered_buffer.index as usize;
        if index >= self.registered_buffers.len() {
            return false;
        }
        match &self.registered_buffers[index] {
            Some(b) => b.len() == registered_buffer.size,
            None => false,
        }
    }

    /// The descriptor the handle names.
    ///
    /// # Errors
    ///
    /// `NotRegistered` when the slot does not hold it.
    pub fn get_raw_fd(&self, registered_fd: &RegisteredFd) -> (r: Result<i32, SaferRingError>)
        ensures
            self.holds_fd(registered_fd) ==> r == Ok::<i32, SaferRingError>(registered_fd.fd_spec()),
            !self.holds_fd(registered_fd) ==> (r matches Err(SaferRingError::NotRegistered)),
    {
        let index = registered_fd.index as usize;
        if index >= self.registered_fds.len() {
            return Err(SaferRingError::NotRegistered);
        }
        match self.registered_fds[index] {
            Some(fd) => if fd == registered_fd.fd {
                Ok(fd)
            } else {
                Err(SaferRingError::NotRegistered)
            },
            None => Err(SaferRingError::NotRegistered),
        }
    }

    /// The buffer the handle names.
    ///
    /// # Errors
    ///
    /// `NotRegistered` when the slot does not hold a buffer of its size.
    pub fn get_buffer(&self, registered_buffer: &RegisteredBuffer) -> (r: Result<&Vec<u8>, SaferRingError>)
        ensures
            self.holds_buffer(registered_buffer) ==> (r matches Ok(b) && self.buffers()[registered_buffer.index_spec() as int]
                == Some(b@)),
            !self.holds_buffer(registered_buffer) ==> (r matches Err(SaferRingError::NotRegistered)),
    {
        let index = registered_buffer.index as usize;
        if index >= self.registered_buffers.len() {
            return Err(SaferRingError::NotRegistered);
        }
        match &self.registered_buffers[index] {
            Some(b) => if b.len() == registered_buffer.size {
                Ok(b)
            } else {
                Err(SaferRingError::NotRegistered)
            },
            None => Err(SaferRingError::NotRegistered),
        }
    }
}

/// The first negative descriptor, if there is one.
pub open spec fn first_negative(fds: Seq<i32>) -> Option<i32>
    decreases fds.len(),
{
    if fds.len() == 0 {
        None
    } else if fds[0] < 0 {
        Some(fds[0])
    } else {
        first_negative(fds.drop_first())
    }
}

/// Every slot taken, with the given values in order.
pub open spec fn all_taken<T>(values: Seq<T>) -> Seq<Option<T>> {
    values.map_values(|v: T| Some(v))
}

impl Registry {
    /// Replaces the fixed-file table with the given descriptors, in order,
    /// none of them in use. An empty list changes nothing.
    ///
    /// # Errors
    ///
    /// An `InvalidInput` I/O error naming the first negative descriptor;
    /// nothing changes then.
    pub fn register_fixed_files(&mut self, fds: Vec<i32>) -> (r: Result<Vec<FixedFile>, SaferRingError>)
        ensures
            fds@.len() == 0 ==> (r matches Ok(v) && v@.len() == 0) && *final(self) == *old(self),
            fds@.len() > 0 && first_negative(fds@) is Some ==> (r matches Err(e) && invalid_input(
                e,
                "Invalid file descriptor: "@ + signed_decimal(first_negative(fds@)->0 as int),
            )) && *final(self) == *old(self),
            fds@.len() > 0 && first_negative(fds@) is None ==> (r matches Ok(v) && v@.len() == fds@.len() && (
            forall|i: int| 0 <= i < v@.len() ==> (#[trigger] v@[i]).index_spec() == i as u32 && v@[i].fd_spec()
                == fds@[i])) && final(self).fixed() == all_taken(fds@) && final(self).fixed_busy() == Set::<
                u32,
            >::empty() && final(self).fds() == old(self).fds() && final(self).buffers() == old(self).buffers()
                && final(self).slots() == old(self).slots() && final(self).fds_busy() == old(self).fds_busy()
                && final(self).buffers_busy() == old(self).buffers_busy() && final(self).slots_busy() == old(self).slots_busy(),
    {
        if fds.len() == 0 {
            return Ok(Vec::new());
        }
        let mut i: usize = 0;
        proof {
            assert(fds@.subrange(0, fds@.len() as int) =~= fds@);
        }
        while i < fds.len()
            invariant
                i <= fds.len(),
                first_negative(fds@) == first_negative(fds@.subrange(i as int, fds@.len() as int)),
            decreases fds.len() - i,
        {
            let fd = fds[i];
            proof {
                let rest = fds@.subrange(i as int, fds@.len() as int);
                assert(rest[0] == fd);
                assert(rest.drop_first() =~= fds@.subrange(i + 1, fds@.len() as int));
            }
            if fd < 0 {
                let mut message = String::from_str("Invalid file descriptor: ");
                push_signed_decimal(&mut message, fd as i64);
                return Err(SaferRingError::Io(IoError { kind: IoErrorKind::InvalidInput, message }));
            }
            i = i + 1;
        }
        self.fixed_files.clear();
        self.fixed_files_in_use.clear();
        let mut handles: Vec<FixedFile> = Vec::new();
        let mut j: usize = 0;
        while j < fds.len()
            invariant
                j <= fds.len(),
                self.fixed_files@ == all_taken(fds@.subrange(0, j as int)),
                handles@.len() == j,
                forall|k: int| 0 <= k < j ==> (#[trigger] handles@[k]).fd_spec() == fds@[k],
                forall|k: int| 0 <= k < j ==> (#[trigger] handles@[k]).index_spec() == k as u32,
                self.fixed_files_in_use@ == Set::<u32>::empty(),
                self.registered_fds@ == old(self).registered_fds@,
                self.registered_buffers@ == old(self).registered_buffers@,
                self.registered_buffer_slots@ == old(self).registered_buffer_slots@,
                self.fds_in_use@ == old(self).fds_in_use@,
                self.buffers_in_use@ == old(self).buffers_in_use@,
                self.buffer_slots_in_use@ == old(self).buffer_slots_in_use@,
            decreases fds.len() - j,
        {
            let fd = fds[j];
            self.fixed_files.push(Some(fd));
            handles.push(FixedFile { index: j as u32, fd });
            proof {
                assert(self.fixed_files@ =~= all_taken(fds@.subrange(0, j + 1)));
            }
            j = j + 1;
        }
        proof {
            assert(fds@.subrange(0, fds@.len() as int) =~= fds@);
        }
        Ok(handles)
    }

    /// Empties the fixed-file table.
    ///
    /// # Errors
    ///
    /// `BufferInFlight` when a fixed file is marked in use; nothing changes then.
    pub fn unregister_fixed_files(&mut self) -> (r: Result<(), SaferRingError>)
        ensures
            old(self).fixed_busy().len() > 0 ==> (r matches Err(SaferRingError::BufferInFlight)) && *final(self)
                == *old(self),
            old(self).fixed_busy().len() == 0 ==> r is Ok && final(self).fixed() == Seq::<Option<i32>>::empty()
                && final(self).same_tables_but_fixed(old(self)),
    {
        if self.fixed_files_in_use.len() != 0 {
            return Err(SaferRingError::BufferInFlight);
        }
        self.fixed_files.clear();
        Ok(())
    }

    /// Every table but the fixed files, and every in-use set, are as in `other`.
    pub open spec fn same_tables_but_fixed(&self, other: &Self) -> bool {
        &&& self.fds() == other.fds()
        &&& self.buffers() == other.buffers()
        &&& self.slots() == other.slots()
        &&& self.fds_busy() == other.fds_busy()
        &&& self.buffers_busy() == other.buffers_busy()
        &&& self.fixed_busy() == other.fixed_busy()
        &&& self.slots_busy() == other.slots_busy()
    }

    /// The number of fixed files.
    pub fn fixed_file_count(&self) -> (r: usize)
        ensures
            r == count_some(self.fixed()),
    {
        count_taken(&self.fixed_files)
    }

    /// The number of fixed files marked in use.
    pub fn fixed_files_in_use_count(&self) -> (r: usize)
        ensures
            r == self.fixed_busy().len(),
    {
        self.fixed_files_in_use.len()
    }

    /// Replaces the buffer-slot table with the given buffers, in order, none
    /// of them in use. An empty list changes nothing.
    pub fn register_buffer_slots(&mut self, buffers: Vec<OwnedBuffer>) -> (r: Result<Vec<RegisteredBufferSlot>, SaferRingError>)
        ensures
            buffers@.len() == 0 ==> (r matches Ok(v) && v@.len() == 0) && *final(self) == *old(self),
            buffers@.len() > 0 ==> (r matches Ok(v) && v@.len() == buffers@.len() && (forall|i: int|
                0 <= i < v@.len() ==> (#[trigger] v@[i]).index_spec() == i as u32 && v@[i].size_spec()
                    == buffers@[i].size_spec() && !v@[i].in_use_spec())) && final(self).slots() == all_taken(
                buffers@.map_values(|b: OwnedBuffer| b.size_spec()),
            ) && final(self).slots_busy() == Set::<u32>::empty() && final(self).fds() == old(self).fds()
                && final(self).buffers() == old(self).buffers() && final(self).fixed() == old(self).fixed()
                && final(self).fds_busy() == old(self).fds_busy() && final(self).buffers_busy() == old(self).buffers_busy() && final(self).fixed_busy() == old(self).fixed_busy(),
    {
        if buffers.len() == 0 {
            return Ok(Vec::new());
        }
        let ghost sizes = buffers@.map_values(|b: OwnedBuffer| b.size_spec());
        self.registered_buffer_slots.clear();
        self.buffer_slots_in_use.clear();
        let mut handles: Vec<RegisteredBufferSlot> = Vec::new();
        let mut rest = buffers;
        let ghost all = rest@;
        let mut j: usize = 0;
        let n = rest.len();
        proof {
            assert(owned_slots_view(self.registered_buffer_slots@) =~= all_taken(sizes.subrange(0, 0)));
        }
        while j < n
            invariant
                n == all.len(),
                j <= n,
                rest@ == all.subrange(j as int, n as int),
                sizes == all.map_values(|b: OwnedBuffer| b.size_spec()),
                owned_slots_view(self.registered_buffer_slots@) == all_taken(sizes.subrange(0, j as int)),
                handles@.len() == j,
                forall|k: int| 0 <= k < j ==> (#[trigger] handles@[k]).index_spec() == k as u32 && handles@[k].size_spec()
                    == sizes[k] && !handles@[k].in_use_spec(),
                self.buffer_slots_in_use@ == Set::<u32>::empty(),
                self.registered_fds@ == old(self).registered_fds@,
                self.registered_buffers@ == old(self).registered_buffers@,
                self.fixed_files@ == old(self).fixed_files@,
                self.fds_in_use@ == old(self).fds_in_use@,
                self.buffers_in_use@ == old(self).buffers_in_use@,
                self.fixed_files_in_use@ == old(self).fixed_files_in_use@,
            decreases n - j,
        {
            let buffer = rest.remove(0);
            proof {
                assert(buffer == all[j as int]);
                assert(rest@ =~= all.subrange(j + 1, n as int));
            }
            let size = buffer.size();
            let ghost bsize = buffer.size_spec();
            let ghost before_slots = self.registered_buffer_slots@;
            self.registered_buffer_slots.push(Some(buffer));
            handles.push(RegisteredBufferSlot { index: j as u32, size, in_use: false });
            proof {
                assert(sizes[j as int] == bsize);
                assert(owned_slots_view(self.registered_buffer_slots@) =~= owned_slots_view(before_slots).push(
                    Some(bsize),
                ));
                assert(all_taken(sizes.subrange(0, j + 1)) =~= all_taken(sizes.subrange(0, j as int)).push(
                    Some(sizes[j as int]),
                ));
            }
            j = j + 1;
        }
        proof {
            assert(sizes.subrange(0, n as int) =~= sizes);
        }
        Ok(handles)
    }

    /// Empties the buffer-slot table and hands back its buffers, in slot order.
    ///
    /// # Errors
    ///
    /// `BufferInFlight` when a slot is marked in use; nothing changes then.
    pub fn unregister_buffer_slots(&mut self) -> (r: Result<Vec<OwnedBuffer>, SaferRingError>)
        ensures
            old(self).slots_busy().len() > 0 ==> (r matches Err(SaferRingError::BufferInFlight)) && *final(self)
                == *old(self),
            old(self).slots_busy().len() == 0 ==> (r matches Ok(v) && v@.map_values(|b: OwnedBuffer| b.size_spec())
                == values_of(old(self).slots())) && final(self).slots() == Seq::<Option<usize>>::empty()
                && final(self).fds() == old(self).fds() && final(self).buffers() == old(self).buffers() && final(self).fixed() == old(self).fixed() && final(self).fds_busy() == old(self).fds_busy() && final(self).buffers_busy() == old(self).buffers_busy() && final(self).fixed_busy() == old(self).fixed_busy()
                && final(self).slots_busy() == old(self).slots_busy(),
    {
        if self.buffer_slots_in_use.len() != 0 {
            return Err(SaferRingError::BufferInFlight);
        }
        let mut slots: Vec<Option<OwnedBuffer>> = Vec::new();
        std::mem::swap(&mut slots, &mut self.registered_buffer_slots);
        let ghost all = owned_slots_view(slots@);
        let mut out: Vec<OwnedBuffer> = Vec::new();
        let n = slots.len();
        let mut i: usize = 0;
        let mut remaining = slots;
        proof {
            assert(all.subrange(0, 0) =~= Seq::<Option<usize>>::empty());
            assert(out@.map_values(|b: OwnedBuffer| b.size_spec()) =~= values_of(all.subrange(0, 0)));
        }
        while i < n
            invariant
                i <= n,
                n == all.len(),
                remaining@.len() == n - i,
                forall|k: int| 0 <= k < n - i ==> #[trigger] owned_slots_view(remaining@)[k] == all[k + i],
                out@.map_values(|b: OwnedBuffer| b.size_spec()) == values_of(all.subrange(0, i as int)),
            decreases n - i,
        {
            let ghost before_out = out@;
            let ghost before_rem = remaining@;
            let slot = remaining.remove(0);
            proof {
                assert(owned_slots_view(before_rem)[0] == all[i as int]);
                let next = all.subrange(0, i + 1);
                assert(next.drop_last() =~= all.subrange(0, i as int));
                assert(next.last() == all[i as int]);
                assert forall|k: int| 0 <= k < n - i - 1 implies #[trigger] owned_slots_view(remaining@)[k] == all[k + i + 1] by {
                    assert(remaining@[k] == before_rem[k + 1]);
                    assert(owned_slots_view(before_rem)[k + 1] == all[k + 1 + i]);
                }
            }
            match slot {
                Some(b) => {
                    out.push(b);
                    proof {
                        assert(out@.map_values(|b: OwnedBuffer| b.size_spec()) =~= before_out.map_values(
                            |b: OwnedBuffer| b.size_spec(),
                        ).push(all[i as int]->0));
                    }
                },
                None => {},
            }
            i = i + 1;
        }
        proof {
            assert(all.subrange(0, n as int) =~= all);
            assert(self.slots() =~= Seq::<Option<usize>>::empty());
        }
        Ok(out)
    }

    /// The number of registered buffer slots.
    pub fn buffer_slot_count(&self) -> (r: usize)
        ensures
            r == count_some(self.slots()),
    {
        proof {
            lemma_count_owned(self.registered_buffer_slots@);
        }
        count_taken(&self.registered_buffer_slots)
    }

    /// The number of buffer slots marked in use.
    pub fn buffer_slots_in_use_count(&self) -> (r: usize)
        ensures
            r == self.slots_busy().len(),
    {
        self.buffer_slots_in_use.len()
    }

    /// Marks a fixed file as in use by an operation.
    ///
    /// # Errors
    ///
    /// `NotRegistered` when its slot is free or out of range.
    pub fn mark_fixed_file_in_use(&mut self, fixed_file: &FixedFile) -> (r: Result<(), SaferRingError>)
        ensures
            ((fixed_file.index_spec() as int) < old(self).fixed().len() && old(self).fixed()[fixed_file.index_spec() as int]
                is Some) ==> r is Ok && final(self).fixed_busy() == old(self).fixed_busy().insert(fixed_file.index_spec())
                && final(self).same_tables(old(self), 2),
            !((fixed_file.index_spec() as int) < old(self).fixed().len() && old(self).fixed()[fixed_file.index_spec() as int]
                is Some) ==> (r matches Err(SaferRingError::NotRegistered)) && *final(self) == *old(self),
    {
        let index = fixed_file.index as usize;
        if index >= self.fixed_files.len() {
            return Err(SaferRingError::NotRegistered);
        }
        if self.fixed_files[index].is_none() {
            return Err(SaferRingError::NotRegistered);
        }
        self.fixed_files_in_use.insert(fixed_file.index);
        Ok(())
    }

    /// Marks a fixed file as no longer in use.
    pub fn mark_fixed_file_not_in_use(&mut self, fixed_file: &FixedFile)
        ensures
            final(self).fixed_busy() == old(self).fixed_busy().remove(fixed_file.index_spec()),
            final(self).same_tables(old(self), 2),
    {
        self.fixed_files_in_use.remove(&fixed_file.index);
    }

    /// Marks a buffer slot as in use by an operation.
    ///
    /// # Errors
    ///
    /// `NotRegistered` when the slot is free or out of range.
    pub fn mark_buffer_slot_in_use(&mut self, buffer_slot: &RegisteredBufferSlot) -> (r: Result<(), SaferRingError>)
        ensures
            ((buffer_slot.index_spec() as int) < old(self).slots().len() && old(self).slots()[buffer_slot.index_spec() as int]
                is Some) ==> r is Ok && final(self).slots_busy() == old(self).slots_busy().insert(buffer_slot.index_spec())
                && final(self).same_tables(old(self), 3),
            !((buffer_slot.index_spec() as int) < old(self).slots().len() && old(self).slots()[buffer_slot.index_spec() as int]
                is Some) ==> (r matches Err(SaferRingError::NotRegistered)) && *final(self) == *old(self),
    {
        let index = buffer_slot.index as usize;
        if index >= self.registered_buffer_slots.len() {
            return Err(SaferRingError::NotRegistered);
        }
        if self.registered_buffer_slots[index].is_none() {
            return Err(SaferRingError::NotRegistered);
        }
        self.buffer_slots_in_use.insert(buffer_slot.index);
        Ok(())
    }

    /// Marks a buffer slot as no longer in use.
    pub fn mark_buffer_slot_not_in_use(&mut self, buffer_slot: &RegisteredBufferSlot)
        ensures
            final(self).slots_busy() == old(self).slots_busy().remove(buffer_slot.index_spec()),
            final(self).same_tables(old(self), 3),
    {
        self.buffer_slots_in_use.remove(&buffer_slot.index);
    }

    /// The descriptor of a fixed file.
    ///
    /// # Errors
    ///
    /// `NotRegistered` when its slot does not hold that descriptor.
    pub fn get_fixed_file_fd(&self, fixed_file: &FixedFile) -> (r: Result<i32, SaferRingError>)
        ensures
            ((fixed_file.index_spec() as int) < self.fixed().len() && self.fixed()[fixed_file.index_spec() as int]
                == Some(fixed_file.fd_spec())) ==> r == Ok::<i32, SaferRingError>(fixed_file.fd_spec()),
            !((fixed_file.index_spec() as int) < self.fixed().len() && self.fixed()[fixed_file.index_spec() as int]
                == Some(fixed_file.fd_spec())) ==> (r matches Err(SaferRingError::NotRegistered)),
    {
        let index = fixed_file.index as usize;
        if index >= self.fixed_files.len() {
            return Err(SaferRingError::NotRegistered);
        }
        match self.fixed_files[index] {
            Some(fd) => if fd == fixed_file.fd {
                Ok(fd)
            } else {
                Err(SaferRingError::NotRegistered)
            },
            None => Err(SaferRingError::NotRegistered),
        }
    }

    /// The buffer in a slot.
    ///
    /// # Errors
    ///
    /// `NotRegistered` when the slot does not hold a buffer of its size.
    pub fn get_buffer_slot(&self, buffer_slot: &RegisteredBufferSlot) -> (r: Result<&OwnedBuffer, SaferRingError>)
        ensures
            ((buffer_slot.index_spec() as int) < self.slots().len() && self.slots()[buffer_slot.index_spec() as int]
                == Some(buffer_slot.size_spec())) ==> (r matches Ok(b) && b.size_spec() == buffer_slot.size_spec()),
            !((buffer_slot.index_spec() as int) < self.slots().len() && self.slots()[buffer_slot.index_spec() as int]
                == Some(buffer_slot.size_spec())) ==> (r matches Err(SaferRingError::NotRegistered)),
    {
        let index = buffer_slot.index as usize;
        if index >= self.registered_buffer_slots.len() {
            return Err(SaferRingError::NotRegistered);
        }
        match &self.registered_buffer_slots[index] {
            Some(b) => if b.size() == buffer_slot.size {
                Ok(b)
            } else {
                Err(SaferRingError::NotRegistered)
            },
            None => Err(SaferRingError::NotRegistered),
        }
    }

    /// Whether no resource is marked in use, so that dropping the registry
    /// leaves no operation with a dangling resource.
    pub fn has_no_resources_in_use(&self) -> (r: bool)
        ensures
            r == (self.fds_busy().len() == 0 && self.buffers_busy().len() == 0 && self.fixed_busy().len() == 0
                && self.slots_busy().len() == 0),
    {
        self.fds_in_use.len() == 0 && self.buffers_in_use.len() == 0 && self.fixed_files_in_use.len() == 0
            && self.buffer_slots_in_use.len() == 0
    }
}

proof fn lemma_count_owned(s: Seq<Option<OwnedBuffer>>)
    ensures
        count_some(owned_slots_view(s)) == count_some(s),
    decreases s.len(),
{
    if s.len() > 0 {
        lemma_count_owned(s.drop_last());
        assert(owned_slots_view(s).drop_last() =~= owned_slots_view(s.drop_last()));
    }
}

impl Default for Registry {
    fn default() -> (r: Self)
        ensures
            r.fds() == Seq::<Option<i32>>::empty(),
            r.buffers() == Seq::<Option<Seq<u8>>>::empty(),
    {
        Self::new()
    }
}

proof fn lemma_count_view(s: Seq<Option<Vec<u8>>>)
    ensures
        count_some(buffer_slots_view(s)) == count_some(s),
    decreases s.len(),
{
    if s.len() > 0 {
        lemma_count_view(s.drop_last());
        assert(buffer_slots_view(s).drop_last() =~= buffer_slots_view(s.drop_last()));
    }
}

} // verus!
