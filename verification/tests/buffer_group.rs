use safer_ring::advanced::BufferGroup;
use safer_ring::error::{IoErrorKind, SaferRingError};

fn utilization(group: &BufferGroup) -> f64 {
    let in_use = group.buffer_count as usize - group.available_count();
    in_use as f64 / group.buffer_count as f64
}

#[test]
fn test_buffer_group_creation() {
    let group = BufferGroup::new(1, 10, 4096).unwrap();

    assert_eq!(group.group_id, 1);
    assert_eq!(group.buffer_count, 10);
    assert_eq!(group.buffer_size, 4096);
    assert_eq!(group.available_count(), 10);
    assert!(group.has_available());
    assert_eq!(utilization(&group), 0.0);
}

#[test]
fn test_buffer_allocation() {
    let mut group = BufferGroup::new(1, 5, 1024).unwrap();

    let mut buffer_ids = Vec::new();
    for _ in 0..5 {
        let id = group.get_buffer().unwrap();
        buffer_ids.push(id);
    }

    assert_eq!(group.available_count(), 0);
    assert!(!group.has_available());
    assert_eq!(utilization(&group), 1.0);
    assert!(group.get_buffer().is_none());

    for id in buffer_ids {
        group.return_buffer(id);
    }

    assert_eq!(group.available_count(), 5);
    assert!(group.has_available());
    assert_eq!(utilization(&group), 0.0);
}

#[test]
fn test_invalid_parameters() {
    assert!(BufferGroup::new(1, 0, 4096).is_err());
    assert!(BufferGroup::new(1, 10, 0).is_err());
}

#[test]
fn buffers_are_handed_out_in_order_and_returned_last() {
    let mut group = BufferGroup::new(7, 3, 16).unwrap();
    assert_eq!(group.get_buffer(), Some(0));
    assert_eq!(group.get_buffer(), Some(1));
    group.return_buffer(0);
    assert_eq!(group.get_buffer(), Some(2));
    assert_eq!(group.get_buffer(), Some(0));
    assert_eq!(group.get_buffer(), None);
}

#[test]
fn invalid_parameters_report_which() {
    match BufferGroup::new(1, 0, 4096) {
        Err(SaferRingError::Io(e)) => {
            assert_eq!(e.kind, IoErrorKind::InvalidInput);
            assert_eq!(e.message, "Buffer count must be greater than 0");
        }
        _ => panic!("expected an I/O error"),
    }
    match BufferGroup::new(1, 10, 0) {
        Err(SaferRingError::Io(e)) => {
            assert_eq!(e.kind, IoErrorKind::InvalidInput);
            assert_eq!(e.message, "Buffer size must be greater than 0");
        }
        _ => panic!("expected an I/O error"),
    }
}
