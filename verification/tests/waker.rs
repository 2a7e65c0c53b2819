use safer_ring::future::WakerRegistry;
use std::sync::atomic::{AtomicBool, Ordering};
use std::sync::Arc;
use std::task::{Wake, Waker};

struct Flag(AtomicBool);

impl Wake for Flag {
    fn wake(self: Arc<Self>) {
        self.0.store(true, Ordering::SeqCst);
    }
}

fn create_test_waker() -> (Waker, Arc<Flag>) {
    let flag = Arc::new(Flag(AtomicBool::new(false)));
    (Waker::from(flag.clone()), flag)
}

fn woken(flag: &Arc<Flag>) -> bool {
    flag.0.load(Ordering::SeqCst)
}

#[test]
fn waker_new_registry_is_empty() {
    let registry = WakerRegistry::new();
    assert_eq!(registry.waker_count(), 0);
    assert!(!registry.has_wakers());
}

#[test]
fn register_and_wake_waker() {
    let mut registry = WakerRegistry::new();
    let (waker, flag) = create_test_waker();

    registry.register_waker(1, waker);
    assert_eq!(registry.waker_count(), 1);
    assert!(registry.has_wakers());

    let was_woken = registry.wake_operation(1).map(Waker::wake).is_some();
    assert!(was_woken);
    assert_eq!(registry.waker_count(), 0);
    assert!(!registry.has_wakers());

    assert!(woken(&flag));
}

#[test]
fn wake_nonexistent_operation() {
    let mut registry = WakerRegistry::new();
    let was_woken = registry.wake_operation(999).map(Waker::wake).is_some();
    assert!(!was_woken);
}

#[test]
fn remove_waker_without_waking() {
    let mut registry = WakerRegistry::new();
    let (waker, flag) = create_test_waker();

    registry.register_waker(1, waker);
    assert_eq!(registry.waker_count(), 1);

    let was_removed = registry.remove_waker(1);
    assert!(was_removed);
    assert_eq!(registry.waker_count(), 0);

    assert!(!woken(&flag));
}

#[test]
fn remove_nonexistent_waker() {
    let mut registry = WakerRegistry::new();
    let was_removed = registry.remove_waker(999);
    assert!(!was_removed);
}

#[test]
fn replace_existing_waker() {
    let mut registry = WakerRegistry::new();
    let (waker1, flag1) = create_test_waker();
    let (waker2, flag2) = create_test_waker();

    registry.register_waker(1, waker1);
    registry.register_waker(1, waker2);
    assert_eq!(registry.waker_count(), 1);

    if let Some(w) = registry.wake_operation(1) {
        w.wake();
    }

    assert!(!woken(&flag1));
    assert!(woken(&flag2));
}

#[test]
fn waker_registry_basic_functionality() {
    let mut registry = WakerRegistry::new();
    let (waker, flag) = create_test_waker();

    registry.register_waker(1, waker);
    assert_eq!(registry.waker_count(), 1);

    let was_woken = registry.wake_operation(1).map(Waker::wake).is_some();
    assert!(was_woken);
    assert_eq!(registry.waker_count(), 0);
    assert!(woken(&flag));
}

#[test]
fn waker_registry_cleanup() {
    let mut registry = WakerRegistry::new();
    let (waker, flag) = create_test_waker();

    registry.register_waker(1, waker);
    let was_removed = registry.remove_waker(1);
    assert!(was_removed);
    assert_eq!(registry.waker_count(), 0);
    assert!(!woken(&flag));
}

#[test]
fn registry_tracks_several_operations() {
    let mut registry = WakerRegistry::new();
    let (w1, f1) = create_test_waker();
    let (w2, f2) = create_test_waker();
    let (w3, f3) = create_test_waker();
    registry.register_waker(1, w1);
    registry.register_waker(2, w2);
    registry.register_waker(3, w3);
    assert_eq!(registry.waker_count(), 3);
    assert!(registry.wake_operation(2).map(Waker::wake).is_some());
    assert!(registry.wake_operation(2).is_none());
    assert!(registry.remove_waker(1));
    assert_eq!(registry.waker_count(), 1);
    assert!(registry.wake_operation(3).map(Waker::wake).is_some());
    assert!(!woken(&f1));
    assert!(woken(&f2));
    assert!(woken(&f3));
}
