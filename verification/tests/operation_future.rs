use safer_ring::error::{IoError, IoErrorKind, SaferRingError};
use safer_ring::future::operation_future::{complete_io, FuturePoll, OperationFuture};
use safer_ring::future::WakerRegistry;
use safer_ring::operation::Operation;
use std::sync::atomic::{AtomicBool, Ordering};
use std::sync::Arc;
use std::task::{Wake, Waker};

struct Flag(AtomicBool);

impl Wake for Flag {
    fn wake(self: Arc<Self>) {
        self.0.store(true, Ordering::SeqCst);
    }
}

fn test_waker() -> Waker {
    Waker::from(Arc::new(Flag(AtomicBool::new(false))))
}

#[test]
fn operation_future_registers_then_completes() {
    let mut data = vec![0u8; 32];
    let op = Operation::read()
        .fd(3)
        .buffer(data.as_mut_slice())
        .submit_with_id(77)
        .unwrap();
    let mut future = OperationFuture::new(op);
    let mut registry = WakerRegistry::new();

    match future.poll(Ok(None), &mut registry, test_waker()) {
        FuturePoll::Pending => {}
        FuturePoll::Ready(_) => panic!("operation still running"),
    }
    assert_eq!(registry.waker_count(), 1);
    assert!(!future.is_finished());

    match future.poll(Ok(Some(Ok(32))), &mut registry, test_waker()) {
        FuturePoll::Ready(Ok((bytes, buffer))) => {
            assert_eq!(bytes, 32);
            assert_eq!(buffer.unwrap().len(), 32);
        }
        _ => panic!("operation should have completed"),
    }
    assert_eq!(registry.waker_count(), 0);
    assert!(future.is_finished());
}

#[test]
fn operation_future_reports_failures() {
    let op = Operation::accept().fd(4).submit_with_id(5).unwrap();
    let mut future = OperationFuture::new(op);
    let mut registry = WakerRegistry::new();
    registry.register_waker(5, test_waker());
    match future.poll(Err(SaferRingError::OperationPending), &mut registry, test_waker()) {
        FuturePoll::Ready(Err(e)) => {
            assert_eq!(e.kind(), IoErrorKind::Other);
            assert_eq!(
                e.to_string(),
                "Error checking operation completion: Operation not completed"
            );
        }
        _ => panic!("the check failed"),
    }
    assert_eq!(registry.waker_count(), 0);
    assert!(!future.is_finished());

    let failure = IoError::new(IoErrorKind::PermissionDenied, "denied");
    match future.poll(Ok(Some(Err(failure))), &mut registry, test_waker()) {
        FuturePoll::Ready(Err(e)) => assert_eq!(e.to_string(), "denied"),
        _ => panic!("the operation failed"),
    }
    assert!(future.is_finished());
}

#[test]
fn dropping_interest_forgets_the_waker() {
    let op = Operation::accept().fd(4).submit_with_id(9).unwrap();
    let future = OperationFuture::new(op);
    let mut registry = WakerRegistry::new();
    registry.register_waker(9, test_waker());
    registry.register_waker(10, test_waker());
    future.release(&mut registry);
    assert_eq!(registry.waker_count(), 1);
}

#[test]
fn io_completion_checks_count_and_buffer() {
    assert_eq!(complete_io(Ok(12), Some("buf"), "ReadFuture completed without buffer").unwrap(), (12, "buf"));
    let e = complete_io(Ok(-1), Some("buf"), "ReadFuture completed without buffer").unwrap_err();
    assert_eq!(e.to_string(), "Unexpected negative byte count");
    let e = complete_io::<&str>(Ok(3), None, "ReadFuture completed without buffer").unwrap_err();
    assert_eq!(e.to_string(), "ReadFuture completed without buffer");
    assert_eq!(e.kind(), IoErrorKind::Other);
    let e = complete_io::<&str>(Err(IoError::new(IoErrorKind::NotFound, "gone")), None, "x").unwrap_err();
    assert_eq!(e.kind(), IoErrorKind::NotFound);
}
