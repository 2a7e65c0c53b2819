use safer_ring::operation::OperationType;

#[test]
fn test_operation_type_properties() {
    assert!(OperationType::Read.requires_buffer());
    assert!(OperationType::Write.requires_buffer());
    assert!(!OperationType::Accept.requires_buffer());
    assert!(OperationType::Send.requires_buffer());
    assert!(OperationType::Recv.requires_buffer());
    assert!(OperationType::ReadVectored.requires_buffer());
    assert!(OperationType::WriteVectored.requires_buffer());

    assert!(OperationType::Read.is_read_like());
    assert!(!OperationType::Write.is_read_like());
    assert!(OperationType::Recv.is_read_like());
    assert!(OperationType::ReadVectored.is_read_like());
    assert!(!OperationType::WriteVectored.is_read_like());

    assert!(!OperationType::Read.is_write_like());
    assert!(OperationType::Write.is_write_like());
    assert!(OperationType::Send.is_write_like());
    assert!(!OperationType::ReadVectored.is_write_like());
    assert!(OperationType::WriteVectored.is_write_like());

    assert!(!OperationType::Read.is_vectored());
    assert!(!OperationType::Write.is_vectored());
    assert!(OperationType::ReadVectored.is_vectored());
    assert!(OperationType::WriteVectored.is_vectored());
}

#[test]
fn test_operation_type_display() {
    assert_eq!(OperationType::Read.to_string(), "read");
    assert_eq!(OperationType::Write.to_string(), "write");
    assert_eq!(OperationType::Accept.to_string(), "accept");
    assert_eq!(OperationType::Send.to_string(), "send");
    assert_eq!(OperationType::Recv.to_string(), "recv");
    assert_eq!(OperationType::ReadVectored.to_string(), "readv");
    assert_eq!(OperationType::WriteVectored.to_string(), "writev");
}

#[test]
fn accept_is_neither_read_nor_write() {
    assert!(!OperationType::Accept.is_read_like());
    assert!(!OperationType::Accept.is_write_like());
}
