use safer_ring::error::{IoError, IoErrorKind, Result, SaferRingError};

#[test]
fn buffer_in_flight() {
    let error = SaferRingError::BufferInFlight;
    assert_eq!(error.to_string(), "Buffer still in flight");
}

#[test]
fn operation_pending() {
    let error = SaferRingError::OperationPending;
    assert_eq!(error.to_string(), "Operation not completed");
}

#[test]
fn operations_in_flight() {
    let error = SaferRingError::OperationsInFlight { count: 5 };
    assert_eq!(error.to_string(), "Ring has 5 operations in flight");
}

#[test]
fn invalid_state_transition() {
    let error = SaferRingError::InvalidStateTransition;
    assert_eq!(error.to_string(), "Invalid operation state transition");
}

#[test]
fn not_registered() {
    let error = SaferRingError::NotRegistered;
    assert_eq!(error.to_string(), "Resource not registered");
}

#[test]
fn pool_empty() {
    let error = SaferRingError::PoolEmpty;
    assert_eq!(error.to_string(), "Buffer pool is empty");
}

#[test]
fn io_error_conversion() {
    let io_error = IoError::new(IoErrorKind::PermissionDenied, "Access denied");
    let safer_ring_error = SaferRingError::from(io_error);

    let SaferRingError::Io(ref e) = safer_ring_error else {
        panic!("Expected Io error variant");
    };

    assert_eq!(e.kind(), IoErrorKind::PermissionDenied);
    assert!(e.to_string().contains("Access denied"));
    assert!(safer_ring_error.to_string().contains("I/O error"));
}

#[test]
fn io_uring_error_conversion() {
    let io_error = IoError::new(IoErrorKind::InvalidInput, "Invalid argument");
    let safer_ring_error = SaferRingError::IoUring(io_error);

    let SaferRingError::IoUring(_) = safer_ring_error else {
        panic!("Expected IoUring error variant");
    };

    assert!(safer_ring_error.to_string().contains("io_uring error"));
}

#[test]
fn debug_formatting() {
    let error = SaferRingError::OperationsInFlight { count: 3 };
    let debug_str = format!("{:?}", error);

    assert!(debug_str.contains("OperationsInFlight"));
    assert!(debug_str.contains("count: 3"));
}

#[test]
fn success_case() {
    fn returns_success() -> Result<i32> {
        Ok(42)
    }

    assert_eq!(returns_success().unwrap(), 42);
}

#[test]
fn error_case() {
    fn returns_error() -> Result<i32> {
        Err(SaferRingError::BufferInFlight)
    }

    assert!(returns_error().is_err());
    match returns_error() {
        Err(SaferRingError::BufferInFlight) => {}
        _ => panic!("Expected BufferInFlight error"),
    }
}

#[test]
fn error_messages_are_exact() {
    assert_eq!(
        SaferRingError::io(IoErrorKind::NotFound, "missing").to_string(),
        "I/O error: missing"
    );
    assert_eq!(SaferRingError::PoolPoisoned.to_string(), "Buffer pool mutex is poisoned");
    assert_eq!(
        SaferRingError::OperationsInFlight { count: 1234567 }.to_string(),
        "Ring has 1234567 operations in flight"
    );
    assert_eq!(
        SaferRingError::OperationsInFlight { count: 0 }.to_string(),
        "Ring has 0 operations in flight"
    );
}
