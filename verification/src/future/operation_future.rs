//! The decisions of the futures that wait for one submitted operation.
//!
//! Each poll asks the ring whether the operation completed. Completed: the
//! operation is consumed, its waker forgotten and its result and buffer
//! handed out. Still running: the task's waker is registered under the
//! operation's identifier. The ring could not tell: the waker is forgotten
//! and the failure reported.

use std::task::Waker;

use crate::error::{IoError, IoErrorKind, SaferRingError};
use crate::future::waker::WakerRegistry;
use crate::operation::{BufferType, Operation, Submitted};
use vstd::prelude::*;
use vstd::string::*;

verus! {

/// The outcome of polling a future.
#[derive(Debug)]
pub enum FuturePoll<T> {
    /// The future finished with this output.
    Ready(T),
    /// The future is waiting; its waker is registered.
    Pending,
}

/// The single buffer an operation used, if that is its kind of buffer.
pub open spec fn single_buffer<'buf>(buffer: BufferType<'buf>) -> Option<&'buf mut [u8]> {
    match buffer {
        BufferType::Pinned(buf) => Some(buf),
        _ => None,
    }
}

/// The error reported when the ring cannot tell whether an operation
/// completed.
pub open spec fn check_failure_message(error: SaferRingError) -> Seq<char> {
    "Error checking operation completion: "@ + error.message_spec()
}

/// A future for one submitted operation.
#[derive(Debug)]
pub struct OperationFuture<'ring, 'buf> {
    operation: Option<Operation<'ring, 'buf, Submitted>>,
}

impl<'ring, 'buf> OperationFuture<'ring, 'buf> {
    /// The operation still awaited, if the future has not finished.
    pub closed spec fn operation_spec(&self) -> Option<Operation<'ring, 'buf, Submitted>> {
        self.operation
    }

    /// A future for `operation`.
    pub fn new(operation: Operation<'ring, 'buf, Submitted>) -> (r: Self)
        ensures
            r.operation_spec() == Some(operation),
    {
        OperationFuture { operation: Some(operation) }
    }

    /// Whether the future has handed out its result.
    pub fn is_finished(&self) -> (r: bool)
        ensures
            r == (self.operation_spec() is None),
    {
        self.operation.is_none()
    }

    /// Polls with what the ring answered about the operation: `Ok(Some(..))`
    /// when it completed with that result, `Ok(None)` while it runs, `Err`
    /// when the ring could not tell. A finished future must not be polled.
    pub fn poll(
        &mut self,
        check: Result<Option<Result<i32, IoError>>, SaferRingError>,
        registry: &mut WakerRegistry,
        waker: Waker,
    ) -> (r: FuturePoll<Result<(i32, Option<&'buf mut [u8]>), IoError>>)
        requires
            old(self).operation_spec() is Some,
            old(registry).wf(),
        ensures
            final(registry).wf(),
            ({
                let op = old(self).operation_spec()->0;
                let id = op.state_spec().id_spec();
                match check {
                    Ok(Some(result)) => {
                        &&& final(self).operation_spec() is None
                        &&& final(registry)@ == old(registry)@.remove(id)
                        &&& r matches FuturePoll::Ready(out) && match result {
                            Ok(bytes) => out matches Ok((n, buf)) && n == bytes && buf == single_buffer(
                                *op.buffer_spec(),
                            ),
                            Err(e) => out == Err::<(i32, Option<&'buf mut [u8]>), IoError>(e),
                        }
                    },
                    Ok(None) => {
                        &&& final(self).operation_spec() == old(self).operation_spec()
                        &&& final(registry)@ == old(registry)@.insert(id, waker)
                        &&& r is Pending
                    },
                    Err(e) => {
                        &&& final(self).operation_spec() == old(self).operation_spec()
                        &&& final(registry)@ == old(registry)@.remove(id)
                        &&& r matches FuturePoll::Ready(Err(err)) && err.kind == IoErrorKind::Other
                            && err.message@ == check_failure_message(e)
                    },
                }
            }),
    {
        let id = match &self.operation {
            Some(op) => op.id(),
            None => 0,
        };
        match check {
            Ok(Some(result)) => {
                let op = self.operation.take().unwrap();
                let completed = op.complete_with_result(result);
                let (io_result, buffer) = completed.into_result_with_buffer();
                registry.remove_waker(id);
                match io_result {
                    Ok(bytes) => FuturePoll::Ready(Ok((bytes, buffer))),
                    Err(e) => FuturePoll::Ready(Err(e)),
                }
            },
            Ok(None) => {
                registry.register_waker(id, waker);
                FuturePoll::Pending
            },
            Err(e) => {
                registry.remove_waker(id);
                let mut message = String::new();
                message.append("Error checking operation completion: ");
                let detail = e.to_string();
                message.append(detail.as_str());
                proof {
                    reveal_strlit("Error checking operation completion: ");
                }
                FuturePoll::Ready(Err(IoError { kind: IoErrorKind::Other, message }))
            },
        }
    }

    /// Forgets the waker of an operation still awaited, as dropping the
    /// future does.
    pub fn release(&self, registry: &mut WakerRegistry)
        requires
            old(registry).wf(),
        ensures
            final(registry).wf(),
            match self.operation_spec() {
                Some(op) => final(registry)@ == old(registry)@.remove(op.state_spec().id_spec()),
                None => final(registry)@ == old(registry)@,
            },
    {
        if let Some(op) = &self.operation {
            registry.remove_waker(op.id());
        }
    }
}

/// What an I/O future completes with, once its operation's result and
/// buffer are back: the byte count with the buffer, or the operation's
/// error. A negative count, or a missing buffer, is reported as an error,
/// the latter with `missing_buffer` as its message.
pub fn complete_io<B>(result: Result<i32, IoError>, buffer: Option<B>, missing_buffer: &str) -> (r:
    Result<(usize, B), IoError>)
    ensures
        match result {
            Err(e) => r == Err::<(usize, B), IoError>(e),
            Ok(bytes) => if bytes < 0 {
                r matches Err(e) && e.kind == IoErrorKind::Other && e.message@
                    == "Unexpected negative byte count"@
            } else {
                match buffer {
                    Some(b) => r == Ok::<(usize, B), IoError>((bytes as usize, b)),
                    None => r matches Err(e) && e.kind == IoErrorKind::Other && e.message@
                        == missing_buffer@,
                }
            },
        },
{
    match result {
        Err(e) => Err(e),
        Ok(bytes) => {
            if bytes < 0 {
                return Err(IoError::new(IoErrorKind::Other, "Unexpected negative byte count"));
            }
            match buffer {
                Some(b) => Ok((bytes as usize, b)),
                None => Err(IoError::new(IoErrorKind::Other, missing_buffer)),
            }
        },
    }
}

} // verus!
