use safer_ring::buffer::GenerationCounter;
use safer_ring::error::{IoErrorKind, SaferRingError};
use safer_ring::ownership::OwnedBuffer;
use safer_ring::registry::{RegisteredBuffer, RegisteredFd, Registry};

#[test]
fn tests_new_registry_is_empty() {
    let registry = Registry::new();
    assert_eq!(registry.fd_count(), 0);
    assert_eq!(registry.buffer_count(), 0);
    assert_eq!(registry.fds_in_use_count(), 0);
    assert_eq!(registry.buffers_in_use_count(), 0);
}

#[test]
fn default_registry_is_empty() {
    let registry = Registry::default();
    assert_eq!(registry.fd_count(), 0);
    assert_eq!(registry.buffer_count(), 0);
}

#[test]
fn register_valid_fd() {
    let mut registry = Registry::new();
    let result = registry.register_fd(0);
    assert!(result.is_ok());
    let registered_fd = result.unwrap();
    assert_eq!(registered_fd.index(), 0);
    assert_eq!(registered_fd.raw_fd(), 0);
    assert_eq!(registry.fd_count(), 1);
}

#[test]
fn register_multiple_fds() {
    let mut registry = Registry::new();
    let fd1 = registry.register_fd(0).unwrap();
    let fd2 = registry.register_fd(1).unwrap();
    let fd3 = registry.register_fd(2).unwrap();
    assert_eq!(fd1.index(), 0);
    assert_eq!(fd2.index(), 1);
    assert_eq!(fd3.index(), 2);
    assert_eq!(registry.fd_count(), 3);
}

#[test]
fn register_negative_fd_fails() {
    let mut registry = Registry::new();
    let result = registry.register_fd(-1);
    assert!(result.is_err());
    match result.unwrap_err() {
        SaferRingError::Io(e) => {
            assert_eq!(e.kind(), IoErrorKind::InvalidInput);
        }
        _ => panic!("Expected Io error"),
    }
}

#[test]
fn is_fd_registered_works() {
    let mut registry = Registry::new();
    let registered_fd = registry.register_fd(5).unwrap();
    assert!(registry.is_fd_registered(&registered_fd));
    assert_eq!(registry.fd_count(), 1);
}

#[test]
fn get_raw_fd_works() {
    let mut registry = Registry::new();
    let registered_fd = registry.register_fd(42).unwrap();
    let raw_fd = registry.get_raw_fd(&registered_fd).unwrap();
    assert_eq!(raw_fd, 42);
}

#[test]
fn register_valid_buffer() {
    let mut registry = Registry::new();
    let buffer = vec![0u8; 1024];
    let size = buffer.len();
    let result = registry.register_buffer(buffer);
    assert!(result.is_ok());
    let registered_buffer = result.unwrap();
    assert_eq!(registered_buffer.index(), 0);
    assert_eq!(registered_buffer.size(), size);
    assert_eq!(registry.buffer_count(), 1);
}

#[test]
fn register_multiple_buffers() {
    let mut registry = Registry::new();
    let reg1 = registry.register_buffer(vec![0u8; 512]).unwrap();
    let reg2 = registry.register_buffer(vec![0u8; 1024]).unwrap();
    let reg3 = registry.register_buffer(vec![0u8; 2048]).unwrap();
    assert_eq!(reg1.index(), 0);
    assert_eq!(reg1.size(), 512);
    assert_eq!(reg2.index(), 1);
    assert_eq!(reg2.size(), 1024);
    assert_eq!(reg3.index(), 2);
    assert_eq!(reg3.size(), 2048);
    assert_eq!(registry.buffer_count(), 3);
}

#[test]
fn register_empty_buffer_fails() {
    let mut registry = Registry::new();
    let result = registry.register_buffer(Vec::new());
    assert!(result.is_err());
    match result.unwrap_err() {
        SaferRingError::Io(e) => {
            assert_eq!(e.kind(), IoErrorKind::InvalidInput);
        }
        _ => panic!("Expected Io error"),
    }
}

#[test]
fn is_buffer_registered_works() {
    let mut registry = Registry::new();
    let registered_buffer = registry.register_buffer(vec![0u8; 1024]).unwrap();
    assert!(registry.is_buffer_registered(&registered_buffer));
    assert_eq!(registry.buffer_count(), 1);
}

#[test]
fn get_buffer_works() {
    let mut registry = Registry::new();
    let registered_buffer = registry.register_buffer(vec![42u8; 1024]).unwrap();
    let buffer_ref = registry.get_buffer(&registered_buffer).unwrap();
    assert_eq!(buffer_ref.len(), 1024);
    assert_eq!(buffer_ref[0], 42);
}

#[test]
fn unregister_fd_success() {
    let mut registry = Registry::new();
    let registered_fd = registry.register_fd(5).unwrap();
    assert_eq!(registry.fd_count(), 1);
    assert!(registry.is_fd_registered(&registered_fd));
    let result = registry.unregister_fd(registered_fd);
    assert!(result.is_ok());
    assert_eq!(registry.fd_count(), 0);
}

#[test]
fn unregister_buffer_success() {
    let mut registry = Registry::new();
    let registered_buffer = registry.register_buffer(vec![42u8; 1024]).unwrap();
    assert_eq!(registry.buffer_count(), 1);
    assert!(registry.is_buffer_registered(&registered_buffer));
    let result = registry.unregister_buffer(registered_buffer);
    assert!(result.is_ok());
    let returned_buffer = result.unwrap();
    assert_eq!(returned_buffer.len(), 1024);
    assert_eq!(returned_buffer[0], 42);
    assert_eq!(registry.buffer_count(), 0);
}

#[test]
fn unregister_fd_in_use_fails() {
    let mut registry = Registry::new();
    let registered_fd = registry.register_fd(5).unwrap();
    registry.mark_fd_in_use(&registered_fd).unwrap();
    assert_eq!(registry.fds_in_use_count(), 1);
    let result = registry.unregister_fd(registered_fd);
    assert!(result.is_err());
    match result.unwrap_err() {
        SaferRingError::BufferInFlight => {}
        _ => panic!("Expected BufferInFlight error"),
    }
    let registered_fd = RegisteredFd::new(0, 5);
    registry.mark_fd_not_in_use(&registered_fd);
}

#[test]
fn unregister_buffer_in_use_fails() {
    let mut registry = Registry::new();
    let registered_buffer = registry.register_buffer(vec![0u8; 1024]).unwrap();
    registry.mark_buffer_in_use(&registered_buffer).unwrap();
    assert_eq!(registry.buffers_in_use_count(), 1);
    let result = registry.unregister_buffer(registered_buffer);
    assert!(result.is_err());
    match result.unwrap_err() {
        SaferRingError::BufferInFlight => {}
        _ => panic!("Expected BufferInFlight error"),
    }
    let registered_buffer = RegisteredBuffer::new(0, 1024);
    registry.mark_buffer_not_in_use(&registered_buffer);
}

#[test]
fn unregister_nonexistent_fd_fails() {
    let mut registry = Registry::new();
    let fake_fd = RegisteredFd::new(999, 5);
    let result = registry.unregister_fd(fake_fd);
    assert!(result.is_err());
    match result.unwrap_err() {
        SaferRingError::NotRegistered => {}
        _ => panic!("Expected NotRegistered error"),
    }
}

#[test]
fn unregister_nonexistent_buffer_fails() {
    let mut registry = Registry::new();
    let fake_buffer = RegisteredBuffer::new(999, 1024);
    let result = registry.unregister_buffer(fake_buffer);
    assert!(result.is_err());
    match result.unwrap_err() {
        SaferRingError::NotRegistered => {}
        _ => panic!("Expected NotRegistered error"),
    }
}

#[test]
fn mark_fd_in_use_works() {
    let mut registry = Registry::new();
    let registered_fd = registry.register_fd(5).unwrap();
    assert_eq!(registry.fds_in_use_count(), 0);
    registry.mark_fd_in_use(&registered_fd).unwrap();
    assert_eq!(registry.fds_in_use_count(), 1);
    registry.mark_fd_not_in_use(&registered_fd);
    assert_eq!(registry.fds_in_use_count(), 0);
}

#[test]
fn mark_buffer_in_use_works() {
    let mut registry = Registry::new();
    let registered_buffer = registry.register_buffer(vec![0u8; 1024]).unwrap();
    assert_eq!(registry.buffers_in_use_count(), 0);
    registry.mark_buffer_in_use(&registered_buffer).unwrap();
    assert_eq!(registry.buffers_in_use_count(), 1);
    registry.mark_buffer_not_in_use(&registered_buffer);
    assert_eq!(registry.buffers_in_use_count(), 0);
}

#[test]
fn mark_nonexistent_fd_in_use_fails() {
    let mut registry = Registry::new();
    let fake_fd = RegisteredFd::new(999, 5);
    let result = registry.mark_fd_in_use(&fake_fd);
    assert!(result.is_err());
    match result.unwrap_err() {
        SaferRingError::NotRegistered => {}
        _ => panic!("Expected NotRegistered error"),
    }
}

#[test]
fn mark_nonexistent_buffer_in_use_fails() {
    let mut registry = Registry::new();
    let fake_buffer = RegisteredBuffer::new(999, 1024);
    let result = registry.mark_buffer_in_use(&fake_buffer);
    assert!(result.is_err());
    match result.unwrap_err() {
        SaferRingError::NotRegistered => {}
        _ => panic!("Expected NotRegistered error"),
    }
}

#[test]
fn fd_slot_reuse_works() {
    let mut registry = Registry::new();
    let fd1 = registry.register_fd(5).unwrap();
    assert_eq!(fd1.index(), 0);
    registry.unregister_fd(fd1).unwrap();
    let fd2 = registry.register_fd(10).unwrap();
    assert_eq!(fd2.index(), 0);
    assert_eq!(fd2.raw_fd(), 10);
}

#[test]
fn buffer_slot_reuse_works() {
    let mut registry = Registry::new();
    let reg1 = registry.register_buffer(vec![1u8; 512]).unwrap();
    assert_eq!(reg1.index(), 0);
    let _returned = registry.unregister_buffer(reg1).unwrap();
    let reg2 = registry.register_buffer(vec![2u8; 1024]).unwrap();
    assert_eq!(reg2.index(), 0);
    assert_eq!(reg2.size(), 1024);
}

#[test]
fn mixed_registration_and_slot_reuse() {
    let mut registry = Registry::new();
    let fd1 = registry.register_fd(1).unwrap();
    let fd2 = registry.register_fd(2).unwrap();
    let reg1 = registry.register_buffer(vec![0u8; 512]).unwrap();
    assert_eq!(fd1.index(), 0);
    assert_eq!(fd2.index(), 1);
    assert_eq!(reg1.index(), 0);
    registry.unregister_fd(fd1).unwrap();
    let fd3 = registry.register_fd(3).unwrap();
    assert_eq!(fd3.index(), 0);
    assert_eq!(fd3.raw_fd(), 3);
    assert!(registry.is_fd_registered(&fd2));
    assert!(registry.is_buffer_registered(&reg1));
}

#[test]
fn drop_with_no_resources_in_use_succeeds() {
    let mut registry = Registry::new();
    let registered_fd = registry.register_fd(5).unwrap();
    let registered_buffer = registry.register_buffer(vec![0u8; 1024]).unwrap();
    registry.mark_fd_in_use(&registered_fd).unwrap();
    registry.mark_buffer_in_use(&registered_buffer).unwrap();
    assert!(!registry.has_no_resources_in_use());
    registry.mark_fd_not_in_use(&registered_fd);
    registry.mark_buffer_not_in_use(&registered_buffer);
    assert!(registry.has_no_resources_in_use());
    drop(registry);
}

#[test]
fn fixed_files_replace_the_table() {
    let mut registry = Registry::new();
    let files = registry.register_fixed_files(vec![3, 4, 5]).unwrap();
    assert_eq!(files.len(), 3);
    assert_eq!(files[2].index(), 2);
    assert_eq!(files[2].raw_fd(), 5);
    assert_eq!(registry.fixed_file_count(), 3);
    registry.mark_fixed_file_in_use(&files[1]).unwrap();
    assert_eq!(registry.fixed_files_in_use_count(), 1);
    assert_eq!(registry.get_fixed_file_fd(&files[1]).unwrap(), 4);
    assert!(matches!(registry.unregister_fixed_files(), Err(SaferRingError::BufferInFlight)));
    registry.mark_fixed_file_not_in_use(&files[1]);
    assert!(registry.unregister_fixed_files().is_ok());
    assert_eq!(registry.fixed_file_count(), 0);
    assert!(matches!(registry.get_fixed_file_fd(&files[0]), Err(SaferRingError::NotRegistered)));
    assert!(registry.register_fixed_files(Vec::new()).unwrap().is_empty());
    match registry.register_fixed_files(vec![1, -7, -8]) {
        Err(SaferRingError::Io(e)) => assert_eq!(e.message, "Invalid file descriptor: -7"),
        _ => panic!("expected an I/O error"),
    }
}

#[test]
fn buffer_slots_round_trip() {
    let mut registry = Registry::new();
    let slots = registry
        .register_buffer_slots(vec![OwnedBuffer::new(16, &mut GenerationCounter::new()), OwnedBuffer::new(32, &mut GenerationCounter::new())])
        .unwrap();
    assert_eq!(slots.len(), 2);
    assert_eq!(slots[1].index(), 1);
    assert_eq!(slots[1].size(), 32);
    assert!(!slots[1].is_in_use());
    assert_eq!(registry.buffer_slot_count(), 2);
    registry.mark_buffer_slot_in_use(&slots[0]).unwrap();
    assert_eq!(registry.buffer_slots_in_use_count(), 1);
    assert_eq!(registry.get_buffer_slot(&slots[0]).unwrap().size(), 16);
    assert!(matches!(registry.unregister_buffer_slots(), Err(SaferRingError::BufferInFlight)));
    registry.mark_buffer_slot_not_in_use(&slots[0]);
    let buffers = registry.unregister_buffer_slots().unwrap();
    assert_eq!(buffers.iter().map(|b| b.size()).collect::<Vec<_>>(), vec![16, 32]);
    assert_eq!(registry.buffer_slot_count(), 0);
}

#[test]
fn leftover_check_names_what_is_still_in_use() {
    let mut registry = Registry::new();
    assert!(registry.leftover_in_use().is_none());
    let fd = registry.register_fd(3).unwrap();
    let buffer = registry.register_buffer(vec![0u8; 8]).unwrap();
    registry.mark_fd_in_use(&fd).unwrap();
    registry.mark_buffer_in_use(&buffer).unwrap();
    assert_eq!(
        registry.leftover_in_use().unwrap(),
        "Registry dropped with resources in use: 1 fds, 1 buffers, 0 fixed_files, 0 buffer_slots"
    );
    registry.mark_fd_not_in_use(&fd);
    registry.mark_buffer_not_in_use(&buffer);
    assert!(registry.leftover_in_use().is_none());
}
