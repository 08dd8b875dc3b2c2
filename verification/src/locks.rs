//! The lock objects that the service hands out, one per phone number.
//!
//! The library creates and shares these locks; taking one is left to the
//! caller, who runs on the async runtime that the lock belongs to.

use std::sync::Arc;
use vstd::prelude::*;

verus! {

/// `tokio::sync::Mutex`, made known as a type whose values are carried around
/// and never looked into: nothing is claimed of what a mutex holds or of who
/// holds it.
#[verifier::external_type_specification]
#[verifier::external_body]
#[verifier::reject_recursive_types(T)]
pub struct ExMutex<T: ?Sized>(tokio::sync::Mutex<T>);

/// A lock that any number of holders of the handle may share.
pub type PhoneLock = Arc<tokio::sync::Mutex<()>>;

/// A new lock that nobody holds.
///
/// Calls `tokio::sync::Mutex::new` on the unit value. Nothing is claimed of
/// the lock that comes back.
#[verifier::external_body]
fn new_mutex() -> (mutex: tokio::sync::Mutex<()>) {
    tokio::sync::Mutex::new(())
}

/// Another handle to the lock that `lock` points to.
///
/// Calls `Arc::clone`, which makes a second pointer to the same allocation, so
/// the new handle stands for the same lock.
#[verifier::external_body]
pub(crate) fn share(lock: &PhoneLock) -> (shared: PhoneLock)
    ensures
        shared == *lock,
{
    Arc::clone(lock)
}

/// A handle to a new lock that nobody holds and nobody else shares yet.
pub(crate) fn new_lock() -> (lock: PhoneLock) {
    Arc::new(new_mutex())
}

} // verus!
