//! One lock per phone number.
//!
//! A lock is created when its phone number is first named and is never
//! removed, so every operation on one number is handed the same lock, and the
//! registry grows with the number of different phone numbers it has seen.

use crate::locks::{new_lock, share, PhoneLock};
use vstd::hash_map::StringHashMap;
use vstd::prelude::*;
use vstd::string::StringExecFns;

verus! {

/// The locks on file after the lock of `phone` was asked for: `fresh` is filed
/// under `phone` where no lock was on file for it, and nothing else changes.
pub open spec fn registry_after(
    registry: Map<Seq<char>, PhoneLock>,
    phone: Seq<char>,
    fresh: PhoneLock,
) -> Map<Seq<char>, PhoneLock> {
    if registry.contains_key(phone) {
        registry
    } else {
        registry.insert(phone, fresh)
    }
}

/// The locks on file, by phone number.
pub struct KeyRegistry {
    lockers: StringHashMap<PhoneLock>,
}

impl View for KeyRegistry {
    type V = Map<Seq<char>, PhoneLock>;

    closed spec fn view(&self) -> Map<Seq<char>, PhoneLock> {
        self.lockers@
    }
}

impl KeyRegistry {
    /// A registry without any lock.
    pub fn new() -> (registry: KeyRegistry)
        ensures
            registry@ == Map::<Seq<char>, PhoneLock>::empty(),
    {
        KeyRegistry { lockers: StringHashMap::new() }
    }

    /// Whether a lock is on file for `phone`.
    pub fn contains(&self, phone: &str) -> (known: bool)
        ensures
            known == self@.contains_key(phone@),
    {
        self.lockers.contains_key(phone)
    }

    /// The number of locks on file.
    pub fn len(&self) -> (count: usize)
        ensures
            count == self@.len(),
    {
        self.lockers.len()
    }

    /// A handle to the lock of `phone`: the one on file, or a new one that is
    /// then filed.
    pub fn lock_for(&mut self, phone: &str) -> (lock: PhoneLock)
        ensures
            final(self)@ == registry_after(old(self)@, phone@, lock),
            final(self)@.contains_key(phone@),
            final(self)@[phone@] == lock,
    {
        let known = match self.lockers.get(phone) {
            Some(lock) => Some(share(lock)),
            None => None,
        };
        match known {
            Some(lock) => lock,
            None => {
                let lock = new_lock();
                self.lockers.insert(String::from_str(phone), share(&lock));
                lock
            },
        }
    }
}

impl Default for KeyRegistry {
    fn default() -> (registry: KeyRegistry)
        ensures
            registry@ == Map::<Seq<char>, PhoneLock>::empty(),
    {
        KeyRegistry::new()
    }
}

} // verus!
