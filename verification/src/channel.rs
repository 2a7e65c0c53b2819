//! Channels through which a handle hands a buffer back when it is dropped.
//!
//! A drop may not take a lock, so a handle that goes away sends what it
//! held; the owner of the shared state collects it the next time it takes
//! its lock.

use vstd::prelude::*;

verus! {

/// The sending end of a channel, opaque to the proofs.
#[verifier::external_type_specification]
#[verifier::external_body]
#[verifier::reject_recursive_types(T)]
pub struct ExSender<T>(std::sync::mpsc::Sender<T>);

/// The receiving end of a channel, opaque to the proofs.
#[verifier::external_type_specification]
#[verifier::external_body]
#[verifier::reject_recursive_types(T)]
pub struct ExReceiver<T>(std::sync::mpsc::Receiver<T>);

/// `std::sync::mpsc::channel`: a new unbounded channel; nothing is known
/// of its ends but their types.
#[verifier::external_body]
pub(crate) fn channel<T>() -> (std::sync::mpsc::Sender<T>, std::sync::mpsc::Receiver<T>) {
    std::sync::mpsc::channel()
}

/// `Sender::send`: queues the value without blocking (std documents that it
/// never blocks; when the receiving end is gone the value is dropped with
/// the error). It does not panic, and it opens no invariant of the proofs.
#[verifier::external_body]
pub(crate) fn send<T>(sender: &std::sync::mpsc::Sender<T>, value: T)
    opens_invariants none
    no_unwind
{
    let _ = sender.send(value);
}

/// `Receiver::try_recv`: a value that was sent and not yet received, if
/// there is one; which one, and whether any, depends on the senders.
#[verifier::external_body]
pub(crate) fn try_receive<T>(receiver: &std::sync::mpsc::Receiver<T>) -> Option<T> {
    receiver.try_recv().ok()
}

} // verus!
