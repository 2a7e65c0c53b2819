use safer_ring::buffer::{GenerationCounter, PinnedBuffer};

#[test]
fn test_pinned_buffer_new() {
    let data = [1u8, 2, 3, 4];
    let buffer = PinnedBuffer::new(data);

    assert_eq!(buffer.generation(), 0);
    assert_eq!(buffer.as_slice(), &[1, 2, 3, 4]);
}

#[test]
fn test_pinned_buffer_with_capacity() {
    let buffer = PinnedBuffer::with_capacity(1024);

    assert_eq!(buffer.len(), 1024);
    assert_eq!(buffer.generation(), 0);
    assert!(!buffer.is_empty());

    assert!(buffer.as_slice().iter().all(|&b| b == 0));
}

#[test]
fn test_pinned_buffer_from_vec() {
    let data = vec![1u8, 2, 3, 4, 5];
    let buffer = PinnedBuffer::from_vec(data);

    assert_eq!(buffer.len(), 5);
    assert_eq!(buffer.as_slice(), &[1, 2, 3, 4, 5]);
    assert_eq!(buffer.generation(), 0);
}

#[test]
fn test_pinned_buffer_from_boxed_slice() {
    let data = vec![1u8, 2, 3, 4].into_boxed_slice();
    let buffer = PinnedBuffer::from_boxed_slice(data);

    assert_eq!(buffer.len(), 4);
    assert_eq!(buffer.as_slice(), &[1, 2, 3, 4]);
}

#[test]
fn test_pinned_buffer_from_array() {
    let buffer = PinnedBuffer::from_array([1u8, 2, 3, 4]);

    assert_eq!(buffer.as_slice(), &[1, 2, 3, 4]);
    assert_eq!(buffer.generation(), 0);
}

#[test]
fn test_pinned_buffer_zeroed() {
    let buffer = PinnedBuffer::zeroed::<1024>();

    assert_eq!(buffer.as_slice().len(), 1024);
    assert!(buffer.as_slice().iter().all(|&b| b == 0));
}

#[test]
fn test_empty_buffer() {
    let buffer = PinnedBuffer::with_capacity(0);

    assert!(buffer.is_empty());
    assert_eq!(buffer.len(), 0);
}

#[test]
fn test_generation_tracking() {
    let mut buffer = PinnedBuffer::with_capacity(100);

    assert_eq!(buffer.generation(), 0);

    buffer.increment_generation();
    assert_eq!(buffer.generation(), 1);

    buffer.increment_generation();
    assert_eq!(buffer.generation(), 2);
}

#[test]
fn test_generation_wrapping() {
    let mut buffer = PinnedBuffer::with_capacity(100);

    buffer.generation.set(u64::MAX);
    assert_eq!(buffer.generation(), u64::MAX);

    buffer.increment_generation();
    assert_eq!(buffer.generation(), 0);
}

#[test]
fn test_as_mut_slice() {
    let mut buffer = PinnedBuffer::with_capacity(4);

    {
        let slice_mut = buffer.as_mut_slice();
        slice_mut[0] = 42;
        slice_mut[1] = 43;
    }

    assert_eq!(buffer.as_slice()[0], 42);
    assert_eq!(buffer.as_slice()[1], 43);
}

#[test]
fn test_pinned_references() {
    let mut buffer = PinnedBuffer::new([1u8, 2, 3, 4]);

    let pin_ref = buffer.as_pin();
    assert_eq!(&*pin_ref, &[1, 2, 3, 4]);

    let pin_mut_ref = buffer.as_pin_mut();
    assert_eq!(&*pin_mut_ref, &[1, 2, 3, 4]);
}

#[test]
fn test_debug_formatting() {
    let buffer = PinnedBuffer::new([1u8, 2, 3]);
    let debug_str = format!("{:?}", buffer);

    assert!(debug_str.contains("PinnedBuffer"));
    assert!(debug_str.contains("generation"));
}

#[test]
fn test_large_buffer() {
    let buffer = PinnedBuffer::with_capacity(1024 * 1024);

    assert_eq!(buffer.len(), 1024 * 1024);
    assert!(!buffer.is_empty());
    assert_eq!(buffer.generation(), 0);
}

#[test]
fn test_buffer_modification_through_slice() {
    let mut buffer = PinnedBuffer::from_vec(vec![0u8; 10]);

    {
        let slice_mut = buffer.as_mut_slice();
        for (i, byte) in slice_mut.iter_mut().enumerate() {
            *byte = i as u8;
        }
    }

    for (i, &byte) in buffer.as_slice().iter().enumerate() {
        assert_eq!(byte, i as u8);
    }
}

#[test]
fn mark_in_use_and_available_count_events() {
    let mut buffer = PinnedBuffer::from_slice(&[9, 8, 7]);
    assert_eq!(buffer.as_slice(), &[9, 8, 7]);
    buffer.mark_in_use();
    assert_eq!(buffer.generation(), 1);
    buffer.mark_available();
    assert_eq!(buffer.generation(), 2);
    assert!(buffer.is_available());
    assert_eq!(buffer.as_slice(), &[9, 8, 7]);
}

#[test]
fn generation_counter_basics() {
    let mut counter = GenerationCounter::new();
    assert_eq!(counter.get(), 0);
    counter.increment();
    assert_eq!(counter.get(), 1);
    counter.set(42);
    assert_eq!(counter.get(), 42);
    let copy = counter.clone();
    assert_eq!(copy.get(), 42);
    assert_eq!(GenerationCounter::default().get(), 0);
}

fn assert_send<T: Send>() {}
fn assert_sync<T: Sync>() {}

#[test]
fn test_send_sync_bounds() {
    // PinnedBuffer can move between and be shared across threads.
    assert_send::<PinnedBuffer>();
    assert_sync::<PinnedBuffer>();
}
