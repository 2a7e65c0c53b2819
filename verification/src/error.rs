//! Error types for safer-ring operations.

use vstd::prelude::*;
use vstd::string::*;
use crate::text::{decimal, push_decimal};

verus! {

/// The category of an I/O failure, mirroring the kinds the library reports.
#[derive(Debug, Clone, Copy, PartialEq, Eq, Structural)]
pub enum IoErrorKind {
    /// A resource was not found.
    NotFound,
    /// The operation lacked the necessary privileges.
    PermissionDenied,
    /// A parameter was incorrect.
    InvalidInput,
    /// Data was not valid for the operation.
    InvalidData,
    /// The operation would have to block.
    WouldBlock,
    /// The operation is not supported on this platform.
    Unsupported,
    /// Any other failure.
    Other,
}

/// An I/O failure: its kind and the message that describes it.
#[derive(Debug, Clone)]
pub struct IoError {
    /// What kind of failure this is.
    pub kind: IoErrorKind,
    /// The human-readable description.
    pub message: String,
}

impl IoError {
    /// Creates an I/O error of the given kind with the given message.
    pub fn new(kind: IoErrorKind, message: &str) -> (r: Self)
        ensures
            r.kind == kind,
            r.message@ == message@,
    {
        IoError { kind, message: message.to_owned() }
    }

    /// Returns the kind of this error.
    pub fn kind(&self) -> (r: IoErrorKind)
        ensures
            r == self.kind,
    {
        self.kind
    }

    /// Returns the message of this error.
    pub fn to_string(&self) -> (r: String)
        ensures
            r@ == self.message@,
    {
        self.message.clone()
    }
}

/// Result type for safer-ring operations.
pub type Result<T> = std::result::Result<T, SaferRingError>;

/// Comprehensive error type for safer-ring operations.
#[derive(Debug)]
pub enum SaferRingError {
    /// Buffer is still in flight and cannot be accessed.
    BufferInFlight,
    /// Operation is not yet completed.
    OperationPending,
    /// Ring has operations in flight and cannot be dropped.
    OperationsInFlight {
        /// Number of operations still in flight
        count: usize,
    },
    /// Invalid operation state transition.
    InvalidStateTransition,
    /// Resource is not registered.
    NotRegistered,
    /// Buffer pool is empty.
    PoolEmpty,
    /// Buffer pool lock is poisoned.
    PoolPoisoned,
    /// Failure reported by the io_uring interface.
    IoUring(IoError),
    /// Standard I/O error.
    Io(IoError),
}

impl SaferRingError {
    /// The text that describes this error.
    pub open spec fn message_spec(&self) -> Seq<char> {
        match self {
            SaferRingError::BufferInFlight => "Buffer still in flight"@,
            SaferRingError::OperationPending => "Operation not completed"@,
            SaferRingError::OperationsInFlight { count } => "Ring has "@ + decimal(
                *count as nat,
            ) + " operations in flight"@,
            SaferRingError::InvalidStateTransition => "Invalid operation state transition"@,
            SaferRingError::NotRegistered => "Resource not registered"@,
            SaferRingError::PoolEmpty => "Buffer pool is empty"@,
            SaferRingError::PoolPoisoned => "Buffer pool mutex is poisoned"@,
            SaferRingError::IoUring(e) => "io_uring error: "@ + e.message@,
            SaferRingError::Io(e) => "I/O error: "@ + e.message@,
        }
    }

    /// Renders the error as text.
    pub fn to_string(&self) -> (r: String)
        ensures
            r@ == self.message_spec(),
    {
        let mut s = String::new();
        match self {
            SaferRingError::BufferInFlight => s.append("Buffer still in flight"),
            SaferRingError::OperationPending => s.append("Operation not completed"),
            SaferRingError::OperationsInFlight { count } => {
                s.append("Ring has ");
                push_decimal(&mut s, *count as u64);
                s.append(" operations in flight");
            },
            SaferRingError::InvalidStateTransition => s.append("Invalid operation state transition"),
            SaferRingError::NotRegistered => s.append("Resource not registered"),
            SaferRingError::PoolEmpty => s.append("Buffer pool is empty"),
            SaferRingError::PoolPoisoned => s.append("Buffer pool mutex is poisoned"),
            SaferRingError::IoUring(e) => {
                s.append("io_uring error: ");
                s.append(e.message.as_str());
            },
            SaferRingError::Io(e) => {
                s.append("I/O error: ");
                s.append(e.message.as_str());
            },
        }
        proof {
            assert(s@ =~= self.message_spec());
        }
        s
    }

    /// Builds the `Io` variant from an I/O error kind and message.
    pub fn io(kind: IoErrorKind, message: &str) -> (r: Self)
        ensures
            r matches SaferRingError::Io(e) && e.kind == kind && e.message@ == message@,
    {
        SaferRingError::Io(IoError::new(kind, message))
    }
}

impl From<IoError> for SaferRingError {
    fn from(e: IoError) -> (r: Self)
        ensures
            r == SaferRingError::Io(e),
    {
        SaferRingError::Io(e)
    }
}

impl vstd::std_specs::convert::FromSpecImpl<IoError> for SaferRingError {
    open spec fn obeys_from_spec() -> bool {
        true
    }

    open spec fn from_spec(e: IoError) -> Self {
        SaferRingError::Io(e)
    }
}

} // verus!
