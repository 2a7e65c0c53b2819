//! Buffers whose bytes stay at one place in memory while the kernel uses them.

pub mod generation;
pub mod numa;

use vstd::prelude::*;
pub use generation::{next_generation, GenerationCounter};

verus! {

/// A heap buffer whose bytes never move: it is allocated once at its final
/// size and never grown, so the address handed to the kernel stays valid for
/// as long as the buffer lives.
///
/// Each buffer carries a generation counter that tracks lifecycle events.
#[derive(Debug)]
pub struct PinnedBuffer {
    /// The buffer's bytes, allocated once at their final length.
    data: Vec<u8>,
    /// Generation counter for tracking buffer lifecycle and reuse
    pub generation: GenerationCounter,
}

impl PinnedBuffer {
    /// The buffer's bytes.
    pub closed spec fn bytes(&self) -> Seq<u8> {
        self.data@
    }

    /// The buffer's current generation.
    pub closed spec fn gen(&self) -> u64 {
        self.generation@
    }

    /// Creates a pinned buffer holding a copy of the array's bytes.
    pub fn new<const N: usize>(data: [u8; N]) -> (r: Self)
        ensures
            r.bytes() == data@,
            r.gen() == 0,
    {
        let mut v: Vec<u8> = Vec::with_capacity(N);
        let mut i: usize = 0;
        while i < N
            invariant
                i <= N,
                data@.len() == N,
                v@ == data@.subrange(0, i as int),
            decreases N - i,
        {
            v.push(data[i]);
            i = i + 1;
            proof {
                assert(v@ =~= data@.subrange(0, i as int));
            }
        }
        proof {
            assert(data@.subrange(0, N as int) =~= data@);
        }
        PinnedBuffer { data: v, generation: GenerationCounter::new() }
    }

    /// Creates a pinned buffer from a fixed-size array.
    pub fn from_array<const N: usize>(array: [u8; N]) -> (r: Self)
        ensures
            r.bytes() == array@,
            r.gen() == 0,
    {
        Self::new(array)
    }

    /// Creates a pinned buffer of `N` zero bytes.
    pub fn zeroed<const N: usize>() -> (r: Self)
        ensures
            r.bytes() == Seq::new(N as nat, |i: int| 0u8),
            r.gen() == 0,
    {
        Self::with_capacity(N)
    }

    /// Creates a pinned buffer of `size` zero bytes.
    pub fn with_capacity(size: usize) -> (r: Self)
        ensures
            r.bytes() == Seq::new(size as nat, |i: int| 0u8),
            r.gen() == 0,
    {
        let mut v: Vec<u8> = Vec::with_capacity(size);
        let mut i: usize = 0;
        while i < size
            invariant
                i <= size,
                v@ == Seq::new(i as nat, |k: int| 0u8),
            decreases size - i,
        {
            v.push(0u8);
            i = i + 1;
            proof {
                assert(v@ =~= Seq::new(i as nat, |k: int| 0u8));
            }
        }
        PinnedBuffer { data: v, generation: GenerationCounter::new() }
    }

    /// Creates a pinned buffer that takes over the vector's bytes.
    pub fn from_vec(vec: Vec<u8>) -> (r: Self)
        ensures
            r.bytes() == vec@,
            r.gen() == 0,
    {
        PinnedBuffer { data: vec, generation: GenerationCounter::new() }
    }

    /// Creates a pinned buffer that takes over the boxed slice's bytes.
    pub fn from_boxed_slice(slice: Box<[u8]>) -> (r: Self)
        ensures
            r.bytes() == slice@,
            r.gen() == 0,
    {
        Self::from_vec(slice.into_vec())
    }

    /// Creates a pinned buffer holding a copy of the slice's bytes.
    pub fn from_slice(slice: &[u8]) -> (r: Self)
        ensures
            r.bytes() == slice@,
            r.gen() == 0,
    {
        Self::from_vec(vstd::slice::slice_to_vec(slice))
    }

    /// The buffer's bytes, which stay in place.
    pub fn as_pin(&self) -> (r: &[u8])
        ensures
            r@ == self.bytes(),
    {
        self.data.as_slice()
    }

    /// The buffer's bytes for writing, which stay in place.
    pub fn as_pin_mut(&mut self) -> (r: &mut [u8])
        ensures
            r@ == old(self).bytes(),
            final(r)@ == final(self).bytes(),
            final(self).gen() == old(self).gen(),
    {
        self.data.as_mut_slice()
    }

    /// The buffer's bytes.
    pub fn as_slice(&self) -> (r: &[u8])
        ensures
            r@ == self.bytes(),
    {
        self.data.as_slice()
    }

    /// The buffer's bytes for writing.
    pub fn as_mut_slice(&mut self) -> (r: &mut [u8])
        ensures
            r@ == old(self).bytes(),
            final(r)@ == final(self).bytes(),
            final(self).gen() == old(self).gen(),
    {
        self.data.as_mut_slice()
    }

    /// The number of bytes in the buffer.
    pub fn len(&self) -> (r: usize)
        ensures
            r == self.bytes().len(),
    {
        self.data.len()
    }

    /// Whether the buffer holds no bytes.
    pub fn is_empty(&self) -> (r: bool)
        ensures
            r == (self.bytes().len() == 0),
    {
        self.data.len() == 0
    }

    /// Returns the current generation of this buffer.
    pub fn generation(&self) -> (r: u64)
        ensures
            r == self.gen(),
    {
        self.generation.get()
    }

    /// Counts one lifecycle event.
    pub fn increment_generation(&mut self)
        ensures
            final(self).gen() == next_generation(old(self).gen()),
            final(self).bytes() == old(self).bytes(),
    {
        self.generation.increment();
    }

    /// Marks this buffer as in use for I/O, counting a lifecycle event.
    pub fn mark_in_use(&mut self)
        ensures
            final(self).gen() == next_generation(old(self).gen()),
            final(self).bytes() == old(self).bytes(),
    {
        self.generation.increment();
    }

    /// Marks this buffer as available for reuse, counting a lifecycle event.
    pub fn mark_available(&mut self)
        ensures
            final(self).gen() == next_generation(old(self).gen()),
            final(self).bytes() == old(self).bytes(),
    {
        self.generation.increment();
    }

    /// Whether this buffer is available for use; usage is not tracked, so
    /// every buffer is.
    pub fn is_available(&self) -> (r: bool)
        ensures
            r,
    {
        true
    }
}

} // verus!
