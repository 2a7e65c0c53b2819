use safer_ring::operation::{Building, BufferType, Operation, OperationType};
use safer_ring::registry::{RegisteredBuffer, RegisteredFd};

#[test]
fn test_operation_creation() {
    let op = Operation::<'_, '_, Building>::new();
    assert_eq!(op.get_fd(), -1);
    assert_eq!(op.get_offset(), 0);
    assert_eq!(op.get_type(), OperationType::Read);
    assert!(!op.has_buffer());
}

#[test]
fn test_operation_builder_methods() {
    let op = Operation::read().fd(5).offset(1024);

    assert_eq!(op.get_fd(), 5);
    assert_eq!(op.get_offset(), 1024);
    assert_eq!(op.get_type(), OperationType::Read);
}

#[test]
fn test_operation_types() {
    assert_eq!(Operation::read().get_type(), OperationType::Read);
    assert_eq!(Operation::write().get_type(), OperationType::Write);
    assert_eq!(Operation::accept().get_type(), OperationType::Accept);
    assert_eq!(Operation::send().get_type(), OperationType::Send);
    assert_eq!(Operation::recv().get_type(), OperationType::Recv);
}

#[test]
fn test_operation_validation() {
    // Invalid: no fd set
    let op = Operation::read();
    assert!(op.validate().is_err());

    // Invalid: fd set but no buffer for I/O operation
    let op = Operation::read().fd(0);
    assert!(op.validate().is_err());

    // Valid: accept operation doesn't need buffer
    let op = Operation::accept().fd(0);
    assert!(op.validate().is_ok());
}

#[test]
fn test_operation_with_buffer() {
    let mut buffer = vec![0u8; 1024];
    let pinned = buffer.as_mut_slice();

    let op = Operation::read().fd(0).buffer(pinned);

    assert!(op.has_buffer());
    assert!(op.validate().is_ok());
}

#[test]
fn test_state_transitions() {
    let mut buffer = vec![0u8; 1024];
    let pinned = buffer.as_mut_slice();

    let op = Operation::read().fd(0).buffer(pinned);

    // Building -> Submitted
    let submitted = op.submit_with_id(42).unwrap();
    assert_eq!(submitted.id(), 42);
    assert_eq!(submitted.fd(), 0);

    // Submitted -> Completed
    let completed = submitted.complete_with_result(100i32);
    assert_eq!(*completed.result(), 100);

    // Completed -> extracted
    let (result, _buffer) = completed.into_result();
    assert_eq!(result, 100);
}

#[test]
fn test_operation_properties() {
    let mut buffer = vec![0u8; 1024];
    let pinned = buffer.as_mut_slice();

    let submitted = Operation::write()
        .fd(1)
        .offset(512)
        .buffer(pinned)
        .submit_with_id(123)
        .unwrap();

    assert_eq!(submitted.id(), 123);
    assert_eq!(submitted.fd(), 1);
    assert_eq!(submitted.offset(), 512);
    assert_eq!(submitted.op_type(), OperationType::Write);
}

#[test]
fn test_completed_operation_access() {
    let mut buffer = vec![0u8; 1024];
    let pinned = buffer.as_mut_slice();

    let completed = Operation::read()
        .fd(0)
        .buffer(pinned)
        .submit_with_id(1)
        .unwrap()
        .complete_with_result("test result".to_string());

    // Can access result by reference
    assert_eq!(completed.result(), "test result");
    assert_eq!(completed.fd(), 0);
    assert_eq!(completed.op_type(), OperationType::Read);

    // Can extract result by value
    let (result, _buffer) = completed.into_result();
    assert_eq!(result, "test result");
}

#[test]
fn test_operation_state_machine_invariants() {
    let mut buffer = vec![0u8; 1024];
    let pinned = buffer.as_mut_slice();

    let building = Operation::read().fd(0).buffer(pinned);

    // Building -> Submitted
    let submitted = building.submit_with_id(1).unwrap();
    assert_eq!(submitted.id(), 1);

    // Submitted -> Completed
    let completed = submitted.complete_with_result(42);
    assert_eq!(*completed.result(), 42);

    // Completed -> extracted
    let (result, _) = completed.into_result();
    assert_eq!(result, 42);
}

#[test]
fn test_operation_validation_rules() {
    // Missing FD
    let op = Operation::read();
    assert!(op.validate().is_err());

    // Missing buffer for I/O operations
    let op = Operation::read().fd(0);
    assert!(op.validate().is_err());

    let op = Operation::write().fd(0);
    assert!(op.validate().is_err());

    // Accept doesn't need buffer
    let op = Operation::accept().fd(0);
    assert!(op.validate().is_ok());
}

#[test]
fn test_builder_pattern_fluency() {
    // Test that the builder pattern works fluently
    let op = Operation::write().fd(1).offset(1024);

    assert_eq!(op.get_fd(), 1);
    assert_eq!(op.get_offset(), 1024);
    assert_eq!(op.get_type(), OperationType::Write);
}

#[test]
fn test_default_implementation() {
    let op1 = Operation::<'_, '_, Building>::default();
    let op2 = Operation::<'_, '_, Building>::new();

    // Both should have the same initial state
    assert_eq!(op1.get_fd(), op2.get_fd());
    assert_eq!(op1.get_offset(), op2.get_offset());
    assert_eq!(op1.get_type(), op2.get_type());
    assert_eq!(op1.has_buffer(), op2.has_buffer());
}

#[test]
fn validation_messages_name_the_first_problem() {
    assert_eq!(Operation::read().validate(), Err("File descriptor must be set"));
    assert_eq!(
        Operation::read().fd(3).validate(),
        Err("Buffer must be set for I/O operations")
    );
    assert_eq!(
        Operation::read_vectored().fd(3).buffers(Vec::new()).validate(),
        Err("Vectored operations require at least one buffer")
    );
    let mut data = vec![0u8; 8];
    assert_eq!(
        Operation::read_vectored().fd(3).buffer(data.as_mut_slice()).validate(),
        Err("Vectored operation types require vectored buffers")
    );
    let mut a = vec![0u8; 4];
    let mut b = vec![0u8; 4];
    assert_eq!(
        Operation::write()
            .fd(3)
            .buffers(vec![a.as_mut_slice(), b.as_mut_slice()])
            .validate(),
        Err("Non-vectored operation types cannot use vectored buffers")
    );
    let mut c = vec![0u8; 4];
    assert_eq!(
        Operation::write_vectored()
            .fd(3)
            .buffers(vec![c.as_mut_slice()])
            .validate(),
        Ok(())
    );
}

#[test]
fn submitting_an_invalid_operation_fails() {
    let r = Operation::recv().fd(-5).submit_with_id(7);
    assert_eq!(r.err(), Some("File descriptor must be set"));
}

#[test]
fn registered_descriptor_and_buffer_are_reported() {
    let submitted = Operation::read()
        .registered_fd(RegisteredFd::new(2, 9))
        .registered_buffer(RegisteredBuffer::new(0, 4096))
        .submit_with_id(5)
        .unwrap();
    assert_eq!(submitted.fd(), 9);
    assert!(submitted.uses_registered_fd());
    assert!(submitted.uses_registered_buffer());
    assert!(!submitted.is_vectored());
}

#[test]
fn buffers_come_back_after_completion() {
    let mut data = vec![7u8; 16];
    let completed = Operation::read()
        .fd(0)
        .buffer(data.as_mut_slice())
        .submit_with_id(1)
        .unwrap()
        .complete_with_result(16usize);
    let (n, buf) = completed.into_result_with_buffer();
    assert_eq!(n, 16);
    let buf = buf.unwrap();
    assert_eq!(buf.len(), 16);
    assert_eq!(buf[0], 7);

    let mut a = vec![1u8; 2];
    let mut b = vec![2u8; 3];
    let completed = Operation::write_vectored()
        .fd(1)
        .buffers(vec![a.as_mut_slice(), b.as_mut_slice()])
        .submit_with_id(2)
        .unwrap()
        .complete_with_result(5usize);
    let (n, bufs) = completed.into_result_with_vectored_buffers();
    assert_eq!(n, 5);
    let bufs = bufs.unwrap();
    assert_eq!(bufs.len(), 2);
    assert_eq!(bufs[1].len(), 3);

    let completed = Operation::accept()
        .fd(3)
        .submit_with_id(3)
        .unwrap()
        .complete_with_result(11i32);
    let (fd, rest) = completed.into_result();
    assert_eq!(fd, 11);
    assert!(matches!(rest, BufferType::NoBuffer));
}
