//! Operation type definitions and utilities.

use vstd::prelude::*;
use vstd::string::*;

verus! {

/// Type of I/O operation.
#[derive(Debug, Clone, Copy, PartialEq, Eq, Structural, Hash)]
pub enum OperationType {
    /// Read data from a file descriptor.
    Read,
    /// Write data to a file descriptor.
    Write,
    /// Accept a connection on a listening socket.
    Accept,
    /// Send data on a socket.
    Send,
    /// Receive data from a socket.
    Recv,
    /// Vectored read into several buffers.
    ReadVectored,
    /// Vectored write from several buffers.
    WriteVectored,
}

impl OperationType {
    /// Whether operations of this type need a buffer.
    pub open spec fn requires_buffer_spec(self) -> bool {
        !(self is Accept)
    }

    /// Whether operations of this type move data into user memory.
    pub open spec fn is_read_like_spec(self) -> bool {
        self is Read || self is Recv || self is ReadVectored
    }

    /// Whether operations of this type move data out of user memory.
    pub open spec fn is_write_like_spec(self) -> bool {
        self is Write || self is Send || self is WriteVectored
    }

    /// Whether operations of this type use several buffers.
    pub open spec fn is_vectored_spec(self) -> bool {
        self is ReadVectored || self is WriteVectored
    }

    /// The short name of the operation type.
    pub open spec fn name_spec(self) -> Seq<char> {
        match self {
            OperationType::Read => "read"@,
            OperationType::Write => "write"@,
            OperationType::Accept => "accept"@,
            OperationType::Send => "send"@,
            OperationType::Recv => "recv"@,
            OperationType::ReadVectored => "readv"@,
            OperationType::WriteVectored => "writev"@,
        }
    }

    /// Returns true if this operation type requires a buffer.
    pub fn requires_buffer(self) -> (r: bool)
        ensures
            r == self.requires_buffer_spec(),
    {
        match self {
            OperationType::Read
            | OperationType::Write
            | OperationType::Send
            | OperationType::Recv
            | OperationType::ReadVectored
            | OperationType::WriteVectored => true,
            OperationType::Accept => false,
        }
    }

    /// Returns true if this operation reads data into the buffer.
    pub fn is_read_like(self) -> (r: bool)
        ensures
            r == self.is_read_like_spec(),
    {
        matches!(self, OperationType::Read | OperationType::Recv | OperationType::ReadVectored)
    }

    /// Returns true if this operation writes data from the buffer.
    pub fn is_write_like(self) -> (r: bool)
        ensures
            r == self.is_write_like_spec(),
    {
        matches!(self, OperationType::Write | OperationType::Send | OperationType::WriteVectored)
    }

    /// Returns true if this is a vectored operation.
    pub fn is_vectored(self) -> (r: bool)
        ensures
            r == self.is_vectored_spec(),
    {
        matches!(self, OperationType::ReadVectored | OperationType::WriteVectored)
    }

    /// Returns the short name of the operation type.
    pub fn to_string(&self) -> (r: String)
        ensures
            r@ == self.name_spec(),
    {
        let name = match self {
            OperationType::Read => "read",
            OperationType::Write => "write",
            OperationType::Accept => "accept",
            OperationType::Send => "send",
            OperationType::Recv => "recv",
            OperationType::ReadVectored => "readv",
            OperationType::WriteVectored => "writev",
        };
        name.to_owned()
    }
}

/// No operation type is both read-like and write-like, every vectored type is
/// one of the two, and only `Accept` needs no buffer.
pub proof fn lemma_operation_type_classes(t: OperationType)
    ensures
        !(t.is_read_like_spec() && t.is_write_like_spec()),
        t.is_vectored_spec() ==> (t.is_read_like_spec() || t.is_write_like_spec()),
        t.requires_buffer_spec() <==> (t.is_read_like_spec() || t.is_write_like_spec()),
{
}

} // verus!
