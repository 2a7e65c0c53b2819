use safer_ring::compat::ADAPTER_BUFFER_SIZE;

#[test]
fn test_adapter_buffer_size() {
    assert!(ADAPTER_BUFFER_SIZE > 0, "Buffer size must be positive");
    assert!(
        ADAPTER_BUFFER_SIZE <= 65536,
        "Buffer size should be reasonable"
    );
}

use safer_ring::compat::{write_chunk_len, ReadCache};

#[test]
fn read_cache_serves_what_the_caller_cannot_take_at_once() {
    let mut cache = ReadCache::new();
    assert_eq!(cache.available(), 0);
    assert!(cache.serve(16).is_none());

    let delivered = cache.absorb(&[1, 2, 3, 4, 5, 6], 4);
    assert_eq!(delivered, vec![1, 2, 3, 4]);
    assert_eq!(cache.available(), 2);

    // No room: nothing is served.
    assert!(cache.serve(0).is_none());
    assert_eq!(cache.serve(1), Some(vec![5]));
    assert_eq!(cache.serve(10), Some(vec![6]));
    assert_eq!(cache.available(), 0);
    assert!(cache.serve(10).is_none());
}

#[test]
fn read_cache_passes_everything_through_when_there_is_room() {
    let mut cache = ReadCache::new();
    assert_eq!(cache.absorb(&[9, 8, 7], 100), vec![9, 8, 7]);
    assert_eq!(cache.available(), 0);
    assert_eq!(cache.absorb(&[], 10), Vec::<u8>::new());
}

#[test]
fn writes_accept_what_the_internal_buffer_holds() {
    assert_eq!(write_chunk_len(100, ADAPTER_BUFFER_SIZE), 100);
    assert_eq!(write_chunk_len(10_000, ADAPTER_BUFFER_SIZE), 8192);
    assert_eq!(write_chunk_len(0, ADAPTER_BUFFER_SIZE), 0);
}
