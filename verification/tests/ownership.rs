use safer_ring::buffer::GenerationCounter;
use safer_ring::error::{IoErrorKind, SaferRingError};
use safer_ring::ownership::{OwnedBuffer, SafeBuffer};

#[test]
fn test_owned_buffer_creation() {
    let buffer = OwnedBuffer::new(1024, &mut GenerationCounter::new());
    assert_eq!(buffer.size(), 1024);
    assert!(buffer.is_user_owned());
    assert_eq!(buffer.kernel_owner(), None);
}

#[test]
fn test_buffer_access_guard() {
    let buffer = OwnedBuffer::new(1024, &mut GenerationCounter::new());

    {
        let mut guard = buffer.try_access().unwrap();
        assert_eq!(guard.len(), 1024);
        guard.as_mut_slice()[0] = 42;
        guard.as_mut_slice()[1] = 24;
    }

    let guard = buffer.try_access().unwrap();
    assert_eq!(guard[0], 42);
    assert_eq!(guard[1], 24);
}

#[test]
fn test_kernel_ownership_transfer() {
    let buffer = OwnedBuffer::new(1024, &mut GenerationCounter::new());

    let size = buffer.give_to_kernel(123).unwrap();
    assert_eq!(size, 1024);
    assert!(!buffer.is_user_owned());
    assert_eq!(buffer.kernel_owner(), Some(123));

    assert!(buffer.try_access().is_none());

    assert!(buffer.give_to_kernel(456).is_err());
}

#[test]
fn test_return_from_kernel() {
    let buffer = OwnedBuffer::new(1024, &mut GenerationCounter::new());

    let _size = buffer.give_to_kernel(123).unwrap();

    buffer.return_from_kernel(123).unwrap();

    assert!(buffer.is_user_owned());
    assert!(buffer.try_access().is_some());
}

#[test]
fn test_buffer_from_slice() {
    let data = b"Hello, world!";
    let buffer = OwnedBuffer::from_slice(data, &mut GenerationCounter::new());

    assert_eq!(buffer.size(), data.len());

    let guard = buffer.try_access().unwrap();
    assert_eq!(&*guard, data);
}

#[test]
fn test_clone_handle() {
    let buffer = OwnedBuffer::new(1024, &mut GenerationCounter::new());
    let cloned = buffer.clone_handle();

    assert_eq!(buffer.size(), cloned.size());
    assert_eq!(buffer.generation(), cloned.generation());

    buffer.give_to_kernel(123).unwrap();
    assert!(!cloned.is_user_owned());
    assert_eq!(cloned.kernel_owner(), Some(123));
}

#[test]
fn mismatched_submission_is_refused_and_changes_nothing() {
    let buffer = OwnedBuffer::new(64, &mut GenerationCounter::new());
    buffer.give_to_kernel(123).unwrap();
    assert!(matches!(
        buffer.return_from_kernel(456),
        Err(SaferRingError::InvalidStateTransition)
    ));
    assert_eq!(buffer.kernel_owner(), Some(123));
    assert!(buffer.return_from_kernel(123).is_ok());
    assert!(matches!(
        buffer.return_from_kernel(123),
        Err(SaferRingError::InvalidStateTransition)
    ));
}

#[test]
fn second_hand_over_names_the_holder() {
    let buffer = OwnedBuffer::new(8, &mut GenerationCounter::new());
    buffer.give_to_kernel(77).unwrap();
    match buffer.give_to_kernel(78) {
        Err(SaferRingError::Io(e)) => {
            assert_eq!(e.kind, IoErrorKind::WouldBlock);
            assert_eq!(e.message, "Buffer already owned by kernel (operation 77)");
        }
        _ => panic!("expected WouldBlock"),
    }
}

#[test]
fn guard_blocks_hand_over_until_dropped() {
    let buffer = OwnedBuffer::from_slice(&[1, 2, 3], &mut GenerationCounter::new());
    let guard = buffer.try_access().unwrap();
    assert!(buffer.try_access().is_none());
    assert_eq!(buffer.as_ptr_and_len(), 0);
    match buffer.give_to_kernel(5) {
        Err(SaferRingError::Io(e)) => {
            assert_eq!(e.message, "Buffer ownership is currently transitioning");
        }
        _ => panic!("expected WouldBlock"),
    }
    drop(guard);
    assert_eq!(buffer.as_ptr_and_len(), 3);
    assert_eq!(SafeBuffer::give_to_kernel(&buffer, 5).unwrap(), 3);
    assert_eq!(SafeBuffer::size(&buffer), 3);
    assert!(SafeBuffer::return_from_kernel(&buffer, 5).is_ok());
    let guard = buffer.try_access().unwrap();
    assert_eq!(&*guard, &[1, 2, 3]);
}

#[test]
fn restoring_a_guard_hands_its_bytes_back() {
    let buffer = OwnedBuffer::new(16, &mut GenerationCounter::new());
    let mut guard = buffer.try_access().unwrap();
    assert_eq!(guard.len(), 16);
    guard.restore();
    assert_eq!(guard.len(), 0);
    assert!(guard.is_empty());
    drop(guard);
    assert!(buffer.is_user_owned());
    assert_eq!(buffer.try_access().unwrap().len(), 16);
}

#[test]
fn buffers_from_one_counter_have_distinct_generations() {
    let mut generations = GenerationCounter::new();
    let a = OwnedBuffer::new(16, &mut generations);
    let b = OwnedBuffer::new(16, &mut generations);
    let c = OwnedBuffer::from_slice(&[1, 2], &mut generations);
    assert_ne!(a.generation(), b.generation());
    assert_ne!(b.generation(), c.generation());
    assert_ne!(a.generation(), c.generation());
    assert_eq!(a.clone_handle().generation(), a.generation());
    assert_eq!(generations.get(), 3);
}
