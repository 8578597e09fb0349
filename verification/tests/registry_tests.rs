use sidecar_supervisor::registry::LifecycleRegistry;
use std::sync::{Arc, Mutex};

#[test]
fn new_registry_is_empty() {
    let mut registry: LifecycleRegistry<u32> = LifecycleRegistry::new();
    assert!(!registry.is_tracking());
    assert_eq!(registry.take_and_clear(), None);
}

#[test]
fn store_then_take_returns_the_handle_once() {
    let mut registry = LifecycleRegistry::new();
    registry.store(Some("child"));
    assert!(registry.is_tracking());
    assert_eq!(registry.take_and_clear(), Some("child"));
    assert!(!registry.is_tracking());
    assert_eq!(registry.take_and_clear(), None);
    assert_eq!(registry.take_and_clear(), None);
}

#[test]
fn store_of_nothing_leaves_nothing_to_take() {
    let mut registry: LifecycleRegistry<u8> = LifecycleRegistry::new();
    registry.store(None);
    assert!(!registry.is_tracking());
    assert_eq!(registry.take_and_clear(), None);
}

#[test]
fn store_overwrites_what_was_held() {
    let mut registry = LifecycleRegistry::new();
    registry.store(Some(1));
    registry.store(Some(2));
    assert_eq!(registry.take_and_clear(), Some(2));
    assert_eq!(registry.take_and_clear(), None);
    registry.store(Some(3));
    registry.store(None);
    assert_eq!(registry.take_and_clear(), None);
}

#[test]
fn a_handle_that_cannot_be_copied_is_moved_through() {
    struct Handle(String);
    let mut registry = LifecycleRegistry::new();
    registry.store(Some(Handle("pid 1".to_string())));
    let taken = registry.take_and_clear();
    assert_eq!(taken.map(|h| h.0), Some("pid 1".to_string()));
    assert!(registry.take_and_clear().is_none());
}

#[test]
fn no_order_of_calls_hands_a_handle_out_twice() {
    // Every order of one store and two takes.
    let orders: [[u8; 3]; 3] = [[0, 1, 1], [1, 0, 1], [1, 1, 0]];
    for order in orders {
        let mut registry = LifecycleRegistry::new();
        let mut handed_out = 0;
        for call in order {
            if call == 0 {
                registry.store(Some(99u32));
            } else if registry.take_and_clear() == Some(99) {
                handed_out += 1;
            }
        }
        let left = if registry.take_and_clear() == Some(99) { 1 } else { 0 };
        assert!(handed_out <= 1, "order {:?}", order);
        assert_eq!(handed_out + left, 1, "order {:?}", order);
    }
}

#[test]
fn a_shared_registry_is_drained_by_one_caller_only() {
    let shared = Arc::new(Mutex::new(LifecycleRegistry::new()));
    shared.lock().unwrap().store(Some(7u32));
    let first = shared.clone();
    let second = shared.clone();
    let a = first.lock().unwrap().take_and_clear();
    let b = second.lock().unwrap().take_and_clear();
    assert_eq!(a, Some(7));
    assert_eq!(b, None);
    assert!(!shared.lock().unwrap().is_tracking());
}
