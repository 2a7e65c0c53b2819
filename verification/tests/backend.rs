use safer_ring::backend::epoll::{
    epoll_events, syscall_for, syscall_outcome, EpollBackend, PendingOperation, Syscall,
};
use safer_ring::backend::uring::{completion_result, submission_entry, IoUringBackend, UringEntry};
use safer_ring::error::{IoError, IoErrorKind, SaferRingError};
use safer_ring::operation::OperationType;

fn pending(op_type: OperationType, offset: u64, user_data: u64) -> PendingOperation {
    PendingOperation { op_type, fd: 5, offset, buffer_addr: 4096, buffer_len: 64, user_data }
}

#[test]
fn epoll_event_masks_follow_the_direction_of_the_operation() {
    assert_eq!(epoll_events(OperationType::Read), 0x4000_0001);
    assert_eq!(epoll_events(OperationType::Recv), 0x4000_0001);
    assert_eq!(epoll_events(OperationType::ReadVectored), 0x4000_0001);
    assert_eq!(epoll_events(OperationType::Accept), 0x4000_0001);
    assert_eq!(epoll_events(OperationType::Write), 0x4000_0004);
    assert_eq!(epoll_events(OperationType::Send), 0x4000_0004);
    assert_eq!(epoll_events(OperationType::WriteVectored), 0x4000_0004);
    assert_eq!(epoll_events(OperationType::Read), (libc::EPOLLIN | libc::EPOLLONESHOT) as u32);
}

#[test]
fn epoll_uses_positioned_calls_only_with_an_offset() {
    assert_eq!(syscall_for(&pending(OperationType::Read, 0, 1)), Syscall::Read);
    assert_eq!(syscall_for(&pending(OperationType::Read, 10, 1)), Syscall::PRead);
    assert_eq!(syscall_for(&pending(OperationType::ReadVectored, 10, 1)), Syscall::PRead);
    assert_eq!(syscall_for(&pending(OperationType::Write, 0, 1)), Syscall::Write);
    assert_eq!(syscall_for(&pending(OperationType::WriteVectored, 3, 1)), Syscall::PWrite);
    assert_eq!(syscall_for(&pending(OperationType::Recv, 3, 1)), Syscall::Recv);
    assert_eq!(syscall_for(&pending(OperationType::Send, 3, 1)), Syscall::Send);
    assert_eq!(syscall_for(&pending(OperationType::Accept, 0, 1)), Syscall::Accept);
}

#[test]
fn epoll_call_outcomes() {
    let other = IoError::new(IoErrorKind::PermissionDenied, "denied");
    assert_eq!(syscall_outcome(12, other.clone()).unwrap(), 12);
    let e = syscall_outcome(-1, other).unwrap_err();
    assert_eq!(e.kind(), IoErrorKind::PermissionDenied);
    assert_eq!(e.to_string(), "denied");
    let e = syscall_outcome(-1, IoError::new(IoErrorKind::WouldBlock, "again")).unwrap_err();
    assert_eq!(e.kind(), IoErrorKind::WouldBlock);
    assert_eq!(e.to_string(), "Operation would block unexpectedly");
}

#[test]
fn epoll_hands_out_ready_operations_in_order() {
    let mut backend = EpollBackend::new(9);
    assert_eq!(backend.epoll_fd(), 9);
    assert_eq!(backend.name(), "epoll");
    assert!(backend.check_wait().is_err());
    backend.record_submission(pending(OperationType::Read, 0, 1));
    backend.record_submission(pending(OperationType::Write, 0, 2));
    backend.record_submission(pending(OperationType::Send, 0, 3));
    assert_eq!(backend.operations_in_flight(), 3);
    assert!(backend.check_wait().is_ok());

    let taken = backend.take_ready(&[3, 7, 1, 3]);
    assert_eq!(taken.len(), 2);
    assert_eq!(taken[0].user_data, 3);
    assert_eq!(taken[1].user_data, 1);
    assert_eq!(backend.operations_in_flight(), 1);
    assert_eq!(backend.completion_queue_stats(), (1, 1024));
    assert_eq!(backend.capacity(), 1024);
}

#[test]
fn epoll_wait_with_nothing_pending_is_refused() {
    let backend = EpollBackend::new(3);
    match backend.check_wait() {
        Err(SaferRingError::Io(e)) => {
            assert_eq!(e.kind(), IoErrorKind::InvalidInput);
            assert_eq!(e.to_string(), "No operations to wait for");
        }
        other => panic!("unexpected {:?}", other),
    }
}

#[test]
fn epoll_registration_is_accepted_and_ignored() {
    let mut backend = EpollBackend::new(3);
    assert_eq!(backend.register_files(&[1, 2]).unwrap(), 0);
    assert!(backend.unregister_files().is_ok());
    assert_eq!(backend.register_buffers(&[vec![0u8; 4]]).unwrap(), 0);
    assert!(backend.unregister_buffers().is_ok());
}

#[test]
fn uring_entries_per_operation_kind() {
    let read = submission_entry(OperationType::Read, 4, 100, 4096, 512, 7).unwrap();
    assert_eq!(
        read,
        UringEntry { opcode: 22, fd: 4, addr: 4096, len: 512, offset: 100, user_data: 7 }
    );
    assert_eq!(read.opcode, io_uring::opcode::Read::CODE);
    let write = submission_entry(OperationType::Write, 4, 8, 4096, 512, 7).unwrap();
    assert_eq!(write.opcode, 23);
    assert_eq!(write.offset, 8);
    let send = submission_entry(OperationType::Send, 4, 8, 4096, 512, 7).unwrap();
    assert_eq!(send.opcode, io_uring::opcode::Send::CODE);
    assert_eq!(send.offset, 0);
    let recv = submission_entry(OperationType::Recv, 4, 8, 4096, 512, 7).unwrap();
    assert_eq!((recv.opcode, recv.offset, recv.len), (27, 0, 512));
    let accept = submission_entry(OperationType::Accept, 4, 8, 4096, 512, 7).unwrap();
    assert_eq!((accept.opcode, accept.len, accept.offset), (13, 0, 0));
    let big = submission_entry(OperationType::Read, 4, 0, 0, (1usize << 32) + 5, 1).unwrap();
    assert_eq!(big.len, 5);
}

#[test]
fn uring_refuses_vectored_operations() {
    match submission_entry(OperationType::ReadVectored, 4, 0, 0, 8, 1) {
        Err(SaferRingError::Io(e)) => {
            assert_eq!(e.kind(), IoErrorKind::Unsupported);
            assert_eq!(
                e.to_string(),
                "Operation ReadVectored not yet implemented in io_uring backend"
            );
        }
        other => panic!("unexpected {:?}", other),
    }
    match submission_entry(OperationType::WriteVectored, 4, 0, 0, 8, 1) {
        Err(SaferRingError::Io(e)) => assert_eq!(
            e.to_string(),
            "Operation WriteVectored not yet implemented in io_uring backend"
        ),
        other => panic!("unexpected {:?}", other),
    }
}

#[test]
fn uring_completion_results() {
    assert_eq!(completion_result(0), Ok(0));
    assert_eq!(completion_result(42), Ok(42));
    assert_eq!(completion_result(-11), Err(11));
}

#[test]
fn uring_in_flight_bookkeeping() {
    let mut backend = IoUringBackend::new(32, 64);
    assert_eq!(backend.name(), "io_uring");
    assert_eq!(backend.capacity(), 32);
    assert_eq!(backend.completion_queue_stats(3), (3, 64));
    match backend.check_wait() {
        Err(SaferRingError::Io(e)) => {
            assert_eq!(e.to_string(), "No operations in flight to wait for")
        }
        other => panic!("unexpected {:?}", other),
    }
    backend.record_submission(1);
    backend.record_submission(2);
    assert_eq!(backend.operations_in_flight(), 2);
    assert!(backend.check_wait().is_ok());
    assert_eq!(backend.record_completion(2, -9), (2, Err(9)));
    assert_eq!(backend.operations_in_flight(), 1);
    assert_eq!(backend.record_completion(1, 100), (1, Ok(100)));
    assert_eq!(backend.operations_in_flight(), 0);
}

#[test]
fn uring_registration_needs_something_to_register() {
    let backend = IoUringBackend::new(8, 16);
    assert_eq!(backend.check_register_files(&[3, 4]).unwrap(), 0);
    match backend.check_register_files(&[]) {
        Err(SaferRingError::Io(e)) => {
            assert_eq!(e.to_string(), "Cannot register empty file descriptor list")
        }
        other => panic!("unexpected {:?}", other),
    }
    assert_eq!(backend.check_register_buffers(2).unwrap(), 0);
    match backend.check_register_buffers(0) {
        Err(SaferRingError::Io(e)) => {
            assert_eq!(e.to_string(), "Cannot register empty buffer list")
        }
        other => panic!("unexpected {:?}", other),
    }
}
