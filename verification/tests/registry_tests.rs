use sms_verification::registry::KeyRegistry;
use std::sync::Arc;

#[test]
fn a_new_registry_is_empty() {
    let registry = KeyRegistry::new();
    assert_eq!(registry.len(), 0);
    assert!(!registry.contains("+1555"));
    assert_eq!(KeyRegistry::default().len(), 0);
}

#[test]
fn the_first_request_files_a_lock() {
    let mut registry = KeyRegistry::new();
    let _lock = registry.lock_for("+1555");
    assert_eq!(registry.len(), 1);
    assert!(registry.contains("+1555"));
    assert!(!registry.contains("+1666"));
}

#[test]
fn the_same_phone_gets_the_same_lock() {
    let mut registry = KeyRegistry::new();
    let first = registry.lock_for("+1555");
    let second = registry.lock_for("+1555");
    assert!(Arc::ptr_eq(&first, &second));
    assert_eq!(registry.len(), 1);
}

#[test]
fn different_phones_get_different_locks() {
    let mut registry = KeyRegistry::new();
    let first = registry.lock_for("+1555");
    let second = registry.lock_for("+1666");
    let empty = registry.lock_for("");
    assert!(!Arc::ptr_eq(&first, &second));
    assert!(!Arc::ptr_eq(&first, &empty));
    assert_eq!(registry.len(), 3);
    assert!(Arc::ptr_eq(&first, &registry.lock_for("+1555")));
    assert!(Arc::ptr_eq(&second, &registry.lock_for("+1666")));
    assert_eq!(registry.len(), 3);
}

#[test]
fn a_new_lock_is_free() {
    let mut registry = KeyRegistry::new();
    let lock = registry.lock_for("+1555");
    assert!(lock.try_lock().is_ok());
}

#[test]
fn a_held_lock_is_seen_through_every_handle() {
    let mut registry = KeyRegistry::new();
    let first = registry.lock_for("+1555");
    let second = registry.lock_for("+1555");
    let other = registry.lock_for("+1666");
    let guard = first.try_lock().unwrap();
    assert!(second.try_lock().is_err());
    assert!(registry.lock_for("+1555").try_lock().is_err());
    assert!(other.try_lock().is_ok());
    drop(guard);
    assert!(second.try_lock().is_ok());
}
