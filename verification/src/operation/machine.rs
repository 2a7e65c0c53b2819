//! The operation record and its state machine.
//!
//! An operation is built in the `Building` state, handed to the kernel under
//! an identifier (`Submitted`) once it validates, and finally carries its
//! result (`Completed<T>`). Each state offers only the methods that make
//! sense in it, so an operation cannot be submitted twice or read before it
//! completes.

use std::marker::PhantomData;

use super::states::{Building, Completed, OperationState, Submitted};
use super::types::OperationType;
use crate::registry::{RegisteredBuffer, RegisteredFd};
use vstd::prelude::*;

verus! {

/// The memory an operation reads into or writes from.
#[derive(Debug)]
pub enum BufferType<'buf> {
    /// No buffer (for operations such as accept).
    NoBuffer,
    /// One borrowed buffer.
    Pinned(&'buf mut [u8]),
    /// A buffer registered with the kernel.
    Registered(RegisteredBuffer),
    /// Several borrowed buffers for vectored I/O.
    Vectored(Vec<&'buf mut [u8]>),
}

/// The file an operation works on.
#[derive(Debug)]
pub enum FdType {
    /// A plain file descriptor.
    Raw(i32),
    /// A descriptor registered with the kernel.
    Registered(RegisteredFd),
}

impl FdType {
    /// The descriptor number this names.
    pub open spec fn raw_spec(&self) -> i32 {
        match self {
            FdType::Raw(fd) => *fd,
            FdType::Registered(reg) => reg.fd_spec(),
        }
    }

    /// The descriptor number this names.
    pub fn raw(&self) -> (r: i32)
        ensures
            r == self.raw_spec(),
    {
        match self {
            FdType::Raw(fd) => *fd,
            FdType::Registered(reg) => reg.raw_fd(),
        }
    }
}

/// An I/O operation in state `S`; `'ring` ties it to the ring that runs it
/// and `'buf` to the memory it uses.
#[derive(Debug)]
pub struct Operation<'ring, 'buf, S> {
    ring: PhantomData<&'ring ()>,
    buffer: BufferType<'buf>,
    fd: FdType,
    offset: u64,
    op_type: OperationType,
    state: S,
}

impl<'ring, 'buf, S> Operation<'ring, 'buf, S> {
    /// The memory the operation uses.
    pub closed spec fn buffer_spec(&self) -> &BufferType<'buf> {
        &self.buffer
    }

    /// The file the operation works on.
    pub closed spec fn fd_spec(&self) -> &FdType {
        &self.fd
    }

    /// The byte offset in the file.
    pub closed spec fn offset_spec(&self) -> u64 {
        self.offset
    }

    /// The kind of operation.
    pub closed spec fn op_type_spec(&self) -> OperationType {
        self.op_type
    }

    /// The state the operation is in.
    pub closed spec fn state_spec(&self) -> &S {
        &self.state
    }

    /// Whether a buffer of any kind is attached.
    pub open spec fn has_buffer_spec(&self) -> bool {
        !(self.buffer_spec() is NoBuffer)
    }

    /// Whether `other` works on the same file, offset, kind and memory.
    pub open spec fn same_request<S2>(&self, other: &Operation<'ring, 'buf, S2>) -> bool {
        &&& other.buffer_spec() == self.buffer_spec()
        &&& other.fd_spec() == self.fd_spec()
        &&& other.offset_spec() == self.offset_spec()
        &&& other.op_type_spec() == self.op_type_spec()
    }

    /// Why the operation cannot be submitted as configured, if it cannot:
    /// the descriptor is unset, a buffer is missing, a vectored buffer list
    /// is empty, or the buffer shape does not match the operation kind.
    pub open spec fn validation_spec(&self) -> Result<(), Seq<char>> {
        let needs_buffer = self.op_type_spec().requires_buffer_spec();
        let vectored_kind = self.op_type_spec().is_vectored_spec();
        let vectored_buffer = self.buffer_spec() is Vectored;
        if self.fd_spec() matches FdType::Raw(fd) && fd < 0 {
            Err("File descriptor must be set"@)
        } else if needs_buffer && self.buffer_spec() is NoBuffer {
            Err("Buffer must be set for I/O operations"@)
        } else if needs_buffer && (self.buffer_spec() matches BufferType::Vectored(bufs)
            && bufs.len() == 0) {
            Err("Vectored operations require at least one buffer"@)
        } else if vectored_kind && !vectored_buffer {
            Err("Vectored operation types require vectored buffers"@)
        } else if !vectored_kind && vectored_buffer {
            Err("Non-vectored operation types cannot use vectored buffers"@)
        } else {
            Ok(())
        }
    }
}

impl<'ring, 'buf, S: OperationState> Operation<'ring, 'buf, S> {
    /// The kind of operation.
    pub fn get_type(&self) -> (r: OperationType)
        ensures
            r == self.op_type_spec(),
    {
        self.op_type
    }

    /// Whether a buffer of any kind is attached.
    pub fn has_buffer(&self) -> (r: bool)
        ensures
            r == self.has_buffer_spec(),
    {
        !matches!(self.buffer, BufferType::NoBuffer)
    }

    /// The descriptor number, read through a registered descriptor if needed.
    pub fn get_fd(&self) -> (r: i32)
        ensures
            r == self.fd_spec().raw_spec(),
    {
        self.fd.raw()
    }
}

impl<'ring, 'buf> Operation<'ring, 'buf, Building> {
    /// A fresh operation of kind `op_type`: no descriptor (-1), no buffer,
    /// offset 0.
    pub open spec fn fresh(&self, op_type: OperationType) -> bool {
        &&& self.op_type_spec() == op_type
        &&& *self.fd_spec() == FdType::Raw(-1i32)
        &&& self.offset_spec() == 0
        &&& self.buffer_spec() is NoBuffer
    }

    /// A new read operation (the default kind).
    pub fn new() -> (r: Self)
        ensures
            r.fresh(OperationType::Read),
    {
        Self::with_type(OperationType::Read)
    }

    /// A new read operation.
    pub fn read() -> (r: Self)
        ensures
            r.fresh(OperationType::Read),
    {
        Self::with_type(OperationType::Read)
    }

    /// A new vectored read operation.
    pub fn read_vectored() -> (r: Self)
        ensures
            r.fresh(OperationType::ReadVectored),
    {
        Self::with_type(OperationType::ReadVectored)
    }

    /// A new write operation.
    pub fn write() -> (r: Self)
        ensures
            r.fresh(OperationType::Write),
    {
        Self::with_type(OperationType::Write)
    }

    /// A new vectored write operation.
    pub fn write_vectored() -> (r: Self)
        ensures
            r.fresh(OperationType::WriteVectored),
    {
        Self::with_type(OperationType::WriteVectored)
    }

    /// A new accept operation.
    pub fn accept() -> (r: Self)
        ensures
            r.fresh(OperationType::Accept),
    {
        Self::with_type(OperationType::Accept)
    }

    /// A new send operation.
    pub fn send() -> (r: Self)
        ensures
            r.fresh(OperationType::Send),
    {
        Self::with_type(OperationType::Send)
    }

    /// A new receive operation.
    pub fn recv() -> (r: Self)
        ensures
            r.fresh(OperationType::Recv),
    {
        Self::with_type(OperationType::Recv)
    }

    fn with_type(op_type: OperationType) -> (r: Self)
        ensures
            r.fresh(op_type),
    {
        Operation {
            ring: PhantomData,
            buffer: BufferType::NoBuffer,
            fd: FdType::Raw(-1),
            offset: 0,
            op_type,
            state: Building,
        }
    }

    /// Sets a plain file descriptor; nothing else changes.
    pub fn fd(self, fd: i32) -> (r: Self)
        ensures
            *r.fd_spec() == FdType::Raw(fd),
            r.buffer_spec() == self.buffer_spec(),
            r.offset_spec() == self.offset_spec(),
            r.op_type_spec() == self.op_type_spec(),
    {
        let mut op = self;
        op.fd = FdType::Raw(fd);
        op
    }

    /// Sets a registered file descriptor; nothing else changes.
    pub fn registered_fd(self, registered_fd: RegisteredFd) -> (r: Self)
        ensures
            *r.fd_spec() == FdType::Registered(registered_fd),
            r.buffer_spec() == self.buffer_spec(),
            r.offset_spec() == self.offset_spec(),
            r.op_type_spec() == self.op_type_spec(),
    {
        let mut op = self;
        op.fd = FdType::Registered(registered_fd);
        op
    }

    /// Attaches one buffer; nothing else changes.
    pub fn buffer(self, buffer: &'buf mut [u8]) -> (r: Self)
        ensures
            r.buffer_spec() matches BufferType::Pinned(b) && b@ == old(buffer)@,
            r.fd_spec() == self.fd_spec(),
            r.offset_spec() == self.offset_spec(),
            r.op_type_spec() == self.op_type_spec(),
    {
        let mut op = self;
        op.buffer = BufferType::Pinned(buffer);
        op
    }

    /// Attaches a registered buffer; nothing else changes.
    pub fn registered_buffer(self, registered_buffer: RegisteredBuffer) -> (r: Self)
        ensures
            *r.buffer_spec() == BufferType::Registered(registered_buffer),
            r.fd_spec() == self.fd_spec(),
            r.offset_spec() == self.offset_spec(),
            r.op_type_spec() == self.op_type_spec(),
    {
        let mut op = self;
        op.buffer = BufferType::Registered(registered_buffer);
        op
    }

    /// Attaches several buffers for vectored I/O; nothing else changes.
    pub fn buffers(self, buffers: Vec<&'buf mut [u8]>) -> (r: Self)
        ensures
            *r.buffer_spec() == BufferType::Vectored(buffers),
            r.fd_spec() == self.fd_spec(),
            r.offset_spec() == self.offset_spec(),
            r.op_type_spec() == self.op_type_spec(),
    {
        let mut op = self;
        op.buffer = BufferType::Vectored(buffers);
        op
    }

    /// Sets the byte offset in the file; nothing else changes.
    pub fn offset(self, offset: u64) -> (r: Self)
        ensures
            r.offset_spec() == offset,
            r.buffer_spec() == self.buffer_spec(),
            r.fd_spec() == self.fd_spec(),
            r.op_type_spec() == self.op_type_spec(),
    {
        let mut op = self;
        op.offset = offset;
        op
    }

    /// The byte offset in the file.
    pub fn get_offset(&self) -> (r: u64)
        ensures
            r == self.offset_spec(),
    {
        self.offset
    }

    /// Checks that the operation can be submitted, and names the first
    /// problem otherwise.
    pub fn validate(&self) -> (r: Result<(), &'static str>)
        ensures
            match r {
                Ok(_) => self.validation_spec() is Ok,
                Err(e) => self.validation_spec() == Err::<(), Seq<char>>(e@),
            },
    {
        if let FdType::Raw(fd) = &self.fd {
            if *fd < 0 {
                return Err("File descriptor must be set");
            }
        }
        let needs_buffer = self.op_type.requires_buffer();
        if needs_buffer {
            match &self.buffer {
                BufferType::NoBuffer => {
                    return Err("Buffer must be set for I/O operations");
                },
                BufferType::Vectored(bufs) => {
                    if bufs.len() == 0 {
                        return Err("Vectored operations require at least one buffer");
                    }
                },
                _ => {},
            }
        }
        let vectored_buffer = matches!(self.buffer, BufferType::Vectored(_));
        if self.op_type.is_vectored() && !vectored_buffer {
            return Err("Vectored operation types require vectored buffers");
        }
        if !self.op_type.is_vectored() && vectored_buffer {
            return Err("Non-vectored operation types cannot use vectored buffers");
        }
        Ok(())
    }

    /// Hands the operation over under identifier `id` if it validates;
    /// otherwise reports why not.
    pub fn submit_with_id(self, id: u64) -> (r: Result<Operation<'ring, 'buf, Submitted>, &'static str>)
        ensures
            match r {
                Ok(op) => {
                    &&& self.validation_spec() is Ok
                    &&& self.same_request(&op)
                    &&& op.state_spec().id_spec() == id
                },
                Err(e) => self.validation_spec() == Err::<(), Seq<char>>(e@),
            },
    {
        match self.validate() {
            Err(e) => Err(e),
            Ok(_) => {
                Ok(Operation {
                    ring: PhantomData,
                    buffer: self.buffer,
                    fd: self.fd,
                    offset: self.offset,
                    op_type: self.op_type,
                    state: Submitted::with_id(id),
                })
            },
        }
    }
}

impl<'ring, 'buf> Default for Operation<'ring, 'buf, Building> {
    /// A new read operation, as `new` gives.
    fn default() -> (r: Self)
        ensures
            r.fresh(OperationType::Read),
    {
        Self::new()
    }
}

impl<'ring, 'buf> Operation<'ring, 'buf, Submitted> {
    /// The identifier the operation was submitted under.
    pub fn id(&self) -> (r: u64)
        ensures
            r == self.state_spec().id_spec(),
    {
        self.state.id()
    }

    /// The descriptor number, read through a registered descriptor if needed.
    pub fn fd(&self) -> (r: i32)
        ensures
            r == self.fd_spec().raw_spec(),
    {
        self.fd.raw()
    }

    /// The byte offset in the file.
    pub fn offset(&self) -> (r: u64)
        ensures
            r == self.offset_spec(),
    {
        self.offset
    }

    /// The kind of operation.
    pub fn op_type(&self) -> (r: OperationType)
        ensures
            r == self.op_type_spec(),
    {
        self.op_type
    }

    /// Whether the buffer is a registered one.
    pub fn uses_registered_buffer(&self) -> (r: bool)
        ensures
            r == (self.buffer_spec() is Registered),
    {
        matches!(self.buffer, BufferType::Registered(_))
    }

    /// Whether the descriptor is a registered one.
    pub fn uses_registered_fd(&self) -> (r: bool)
        ensures
            r == (self.fd_spec() is Registered),
    {
        matches!(self.fd, FdType::Registered(_))
    }

    /// Whether the operation uses several buffers.
    pub fn is_vectored(&self) -> (r: bool)
        ensures
            r == (self.buffer_spec() is Vectored),
    {
        matches!(self.buffer, BufferType::Vectored(_))
    }

    /// Records the operation's result; the request itself is unchanged.
    pub fn complete_with_result<T>(self, result: T) -> (r: Operation<'ring, 'buf, Completed<T>>)
        ensures
            self.same_request(&r),
            *r.state_spec().result_spec() == result,
    {
        Operation {
            ring: PhantomData,
            buffer: self.buffer,
            fd: self.fd,
            offset: self.offset,
            op_type: self.op_type,
            state: Completed::with_result(result),
        }
    }
}

impl<'ring, 'buf, T> Operation<'ring, 'buf, Completed<T>> {
    /// The result and the memory the operation used, handed back together.
    pub fn into_result(self) -> (r: (T, BufferType<'buf>))
        ensures
            r.0 == *self.state_spec().result_spec(),
            r.1 == *self.buffer_spec(),
    {
        (self.state.into_result(), self.buffer)
    }

    /// The result, and the single buffer if that is what was attached.
    pub fn into_result_with_buffer(self) -> (r: (T, Option<&'buf mut [u8]>))
        ensures
            r.0 == *self.state_spec().result_spec(),
            r.1 == (match *self.buffer_spec() {
                BufferType::Pinned(buf) => Some(buf),
                _ => None,
            }),
    {
        let (result, buffer_type) = self.into_result();
        let buffer = match buffer_type {
            BufferType::Pinned(buf) => Some(buf),
            _ => None,
        };
        (result, buffer)
    }

    /// The result, and the buffer list if the operation was vectored.
    pub fn into_result_with_vectored_buffers(self) -> (r: (T, Option<Vec<&'buf mut [u8]>>))
        ensures
            r.0 == *self.state_spec().result_spec(),
            r.1 == (match *self.buffer_spec() {
                BufferType::Vectored(bufs) => Some(bufs),
                _ => None,
            }),
    {
        let (result, buffer_type) = self.into_result();
        let buffers = match buffer_type {
            BufferType::Vectored(bufs) => Some(bufs),
            _ => None,
        };
        (result, buffers)
    }

    /// The result, left in place.
    pub fn result(&self) -> (r: &T)
        ensures
            *r == *self.state_spec().result_spec(),
    {
        self.state.result()
    }

    /// The descriptor number, read through a registered descriptor if needed.
    pub fn fd(&self) -> (r: i32)
        ensures
            r == self.fd_spec().raw_spec(),
    {
        self.fd.raw()
    }

    /// The byte offset in the file.
    pub fn offset(&self) -> (r: u64)
        ensures
            r == self.offset_spec(),
    {
        self.offset
    }

    /// The kind of operation.
    pub fn op_type(&self) -> (r: OperationType)
        ensures
            r == self.op_type_spec(),
    {
        self.op_type
    }
}

} // verus!
