use safer_ring::operation::{BufferOwnership, OperationTracker, OperationType};

#[test]
fn new_tracker_is_empty() {
    let tracker = OperationTracker::new();
    assert_eq!(tracker.count(), 0);
    assert!(!tracker.has_operations());
}

#[test]
fn register_and_complete_operations() {
    let mut tracker = OperationTracker::new();

    let id1 = tracker.register_operation(OperationType::Read, 0);
    assert_eq!(tracker.count(), 1);
    assert!(tracker.has_operations());
    assert_eq!(id1, 1);

    let id2 = tracker.register_operation(OperationType::Write, 1);
    assert_eq!(tracker.count(), 2);
    assert_eq!(id2, 2);

    let handle = tracker.complete_operation(id1);
    assert!(handle.is_some());
    assert_eq!(handle.unwrap().id, id1);
    assert_eq!(tracker.count(), 1);

    tracker.complete_operation(id2);
    assert_eq!(tracker.count(), 0);
    assert!(!tracker.has_operations());
}

#[test]
fn complete_nonexistent_operation() {
    let mut tracker = OperationTracker::new();
    let handle = tracker.complete_operation(999);
    assert!(handle.is_none());
}

#[test]
fn id_wraparound() {
    let mut tracker = OperationTracker::starting_at(u64::MAX);

    let id1 = tracker.register_operation(OperationType::Read, 0);
    assert_eq!(id1, u64::MAX);

    let id2 = tracker.register_operation(OperationType::Read, 0);
    assert_eq!(id2, 0); // Should wrap around
}

#[test]
fn debug_info() {
    let mut tracker = OperationTracker::new();

    tracker.register_operation(OperationType::Read, 3);
    tracker.register_operation(OperationType::Write, 4);

    let info = tracker.debug_info();
    assert_eq!(info.len(), 2);

    // Sort by ID for consistent testing
    let mut sorted_info = info;
    sorted_info.sort_by_key(|&(id, _, _)| id);

    assert_eq!(sorted_info[0], (1, OperationType::Read, 3));
    assert_eq!(sorted_info[1], (2, OperationType::Write, 4));
}

#[test]
fn registered_buffers_come_back_on_completion() {
    let mut tracker = OperationTracker::new();
    let id = tracker.register_operation_with_buffer(
        OperationType::Write,
        7,
        Some(BufferOwnership::Single(vec![1, 2, 3])),
    );
    assert!(tracker.is_operation_tracked(id));
    let handle = tracker.complete_operation(id).unwrap();
    assert_eq!(handle.fd, 7);
    assert_eq!(handle.op_type, OperationType::Write);
    match handle.buffer {
        Some(BufferOwnership::Single(data)) => assert_eq!(data, vec![1, 2, 3]),
        _ => panic!("buffer not handed back"),
    }
    assert!(!tracker.is_operation_tracked(id));
    assert!(tracker.complete_operation(id).is_none());
}
