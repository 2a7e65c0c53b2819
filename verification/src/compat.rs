//! The buffering of the async read and write adapters.
//!
//! The adapters bridge caller-owned buffers and the ring's owned buffers by
//! copying. A read fills an internal buffer of `ADAPTER_BUFFER_SIZE` bytes;
//! what the caller's buffer cannot take is cached and served first on the
//! next read. A write copies as much as the internal buffer holds.

use vstd::prelude::*;

verus! {

/// Size of the internal buffer each async read or write adapter uses.
pub const ADAPTER_BUFFER_SIZE: usize = 8192;

/// Bytes read from the ring that the caller has not taken yet.
#[derive(Debug)]
pub struct ReadCache {
    cached_data: Vec<u8>,
    cached_pos: usize,
}

/// The smaller of two lengths.
pub open spec fn min_len(a: int, b: int) -> int {
    if a <= b {
        a
    } else {
        b
    }
}

impl ReadCache {
    /// The cached bytes, served from the position on.
    pub closed spec fn data_spec(&self) -> Seq<u8> {
        self.cached_data@
    }

    /// How far the cached bytes have been served.
    pub closed spec fn pos_spec(&self) -> int {
        self.cached_pos as int
    }

    /// Bytes cached and not served yet.
    pub open spec fn unserved(&self) -> Seq<u8> {
        if self.pos_spec() <= self.data_spec().len() {
            self.data_spec().subrange(self.pos_spec(), self.data_spec().len() as int)
        } else {
            Seq::empty()
        }
    }

    /// An empty cache.
    pub fn new() -> (r: Self)
        ensures
            r.data_spec() == Seq::<u8>::empty(),
            r.pos_spec() == 0,
    {
        ReadCache { cached_data: Vec::new(), cached_pos: 0 }
    }

    /// How many cached bytes are waiting to be served.
    pub fn available(&self) -> (r: usize)
        ensures
            r == self.unserved().len(),
    {
        if self.cached_pos < self.cached_data.len() {
            self.cached_data.len() - self.cached_pos
        } else {
            0
        }
    }

    /// Serves cached bytes to a caller's buffer with room for `remaining`
    /// bytes: as many as fit, from the serving position. When the cache is
    /// used up it is emptied. Gives `None` (and changes nothing) when there
    /// is nothing to serve or no room.
    pub fn serve(&mut self, remaining: usize) -> (r: Option<Vec<u8>>)
        ensures
            ({
                let data = old(self).data_spec();
                let pos = old(self).pos_spec();
                let k = min_len(data.len() - pos, remaining as int);
                if pos < data.len() && k > 0 {
                    &&& r matches Some(bytes) && bytes@ == data.subrange(pos, pos + k)
                    &&& if pos + k >= data.len() {
                        final(self).data_spec() == Seq::<u8>::empty() && final(self).pos_spec() == 0
                    } else {
                        final(self).data_spec() == data && final(self).pos_spec() == pos + k
                    }
                } else {
                    &&& r is None
                    &&& final(self).data_spec() == data
                    &&& final(self).pos_spec() == pos
                }
            }),
            r matches Some(bytes) ==> bytes@ + final(self).unserved() == old(self).unserved(),
    {
        if self.cached_pos < self.cached_data.len() {
            let available = self.cached_data.len() - self.cached_pos;
            let to_copy = if available < remaining {
                available
            } else {
                remaining
            };
            if to_copy > 0 {
                let mut out: Vec<u8> = Vec::new();
                let mut i: usize = 0;
                while i < to_copy
                    invariant
                        0 <= i <= to_copy,
                        self.cached_pos + to_copy <= self.cached_data@.len(),
                        self.cached_data@.len() <= usize::MAX,
                        out@ == self.cached_data@.subrange(
                            self.cached_pos as int,
                            self.cached_pos + i,
                        ),
                    decreases to_copy - i,
                {
                    out.push(self.cached_data[self.cached_pos + i]);
                    i = i + 1;
                }
                self.cached_pos = self.cached_pos + to_copy;
                if self.cached_pos >= self.cached_data.len() {
                    self.cached_data = Vec::new();
                    self.cached_pos = 0;
                }
                proof {
                    let data = old(self).cached_data@;
                    let pos = old(self).cached_pos as int;
                    assert(data.subrange(pos, pos + to_copy) + data.subrange(
                        pos + to_copy,
                        data.len() as int,
                    ) =~= data.subrange(pos, data.len() as int));
                    assert(self.unserved() =~= data.subrange(pos + to_copy, data.len() as int));
                }
                return Some(out);
            }
        }
        None
    }

    /// Takes the first bytes a completed read produced: the caller gets as
    /// many as its buffer has room for, and the rest is appended to the
    /// cache, whose serving position goes back to its start.
    pub fn absorb(&mut self, data: &[u8], remaining: usize) -> (r: Vec<u8>)
        ensures
            ({
                let k = min_len(data@.len() as int, remaining as int);
                &&& r@ == data@.take(k)
                &&& if k < data@.len() {
                    &&& final(self).data_spec() == old(self).data_spec() + data@.skip(k)
                    &&& final(self).pos_spec() == 0
                } else {
                    &&& final(self).data_spec() == old(self).data_spec()
                    &&& final(self).pos_spec() == old(self).pos_spec()
                }
            }),
            old(self).data_spec().len() == 0 ==> r@ + final(self).unserved() == data@,
    {
        let to_copy = if data.len() < remaining {
            data.len()
        } else {
            remaining
        };
        let mut out: Vec<u8> = Vec::new();
        let mut i: usize = 0;
        while i < to_copy
            invariant
                0 <= i <= to_copy,
                to_copy <= data@.len(),
                out@ == data@.take(i as int),
            decreases to_copy - i,
        {
            out.push(data[i]);
            proof {
                assert(data@.take(i + 1) == data@.take(i as int).push(data@[i as int]));
            }
            i = i + 1;
        }
        if to_copy < data.len() {
            let ghost start = self.cached_data@;
            let mut j: usize = to_copy;
            while j < data.len()
                invariant
                    to_copy <= j <= data@.len(),
                    self.cached_data@ == start + data@.subrange(to_copy as int, j as int),
                decreases data@.len() - j,
            {
                self.cached_data.push(data[j]);
                proof {
                    assert(data@.subrange(to_copy as int, j + 1) == data@.subrange(
                        to_copy as int,
                        j as int,
                    ).push(data@[j as int]));
                }
                j = j + 1;
            }
            self.cached_pos = 0;
            proof {
                assert(data@.take(to_copy as int) + data@.skip(to_copy as int) =~= data@);
            }
        }
        proof {
            if old(self).cached_data@.len() == 0 {
                if to_copy < data.len() {
                    assert(self.cached_data@ =~= data@.skip(to_copy as int));
                    assert(self.unserved() =~= data@.skip(to_copy as int));
                } else {
                    assert(data@.take(to_copy as int) =~= data@);
                    assert(self.unserved() =~= Seq::<u8>::empty());
                }
            }
        }
        out
    }
}

/// How many bytes of a write of `requested` bytes fit in an internal buffer
/// of `capacity` bytes: the write accepts that many.
pub fn write_chunk_len(requested: usize, capacity: usize) -> (r: usize)
    ensures
        r as int == min_len(requested as int, capacity as int),
{
    if requested < capacity {
        requested
    } else {
        capacity
    }
}

} // verus!
