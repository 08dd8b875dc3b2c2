//! Named flags that say which phone numbers are being worked on.

use vstd::hash_map::StringHashMap;
use vstd::prelude::*;
use vstd::string::StringExecFns;

verus! {

/// Marks phone numbers as taken and as free again.
pub trait Locker {
    /// Marks `phone` as taken.
    fn lock(&mut self, phone: &str) -> Result<(), String>;

    /// Marks `phone` as free.
    fn unlock(&mut self, phone: &str) -> Result<(), String>;
}

/// What `MemoryLocker::unlock` says of a phone number that was never locked.
pub open spec fn not_found_text() -> Seq<char> {
    "phone not found"@
}

/// A locker that keeps one flag per phone number in memory. A flag is created
/// when its phone number is first named and is never removed.
pub struct MemoryLocker {
    states: StringHashMap<bool>,
}

impl View for MemoryLocker {
    type V = Map<Seq<char>, bool>;

    closed spec fn view(&self) -> Map<Seq<char>, bool> {
        self.states@
    }
}

impl MemoryLocker {
    /// Whether `phone` is marked as taken.
    pub open spec fn is_locked(&self, phone: Seq<char>) -> bool {
        self@.contains_key(phone) && self@[phone]
    }

    /// A locker without any flag.
    pub fn new() -> (locker: MemoryLocker)
        ensures
            locker@ == Map::<Seq<char>, bool>::empty(),
    {
        MemoryLocker { states: StringHashMap::new() }
    }

    /// The flag of `key`, created as free where `key` had none.
    pub fn get_or_insert_state(&mut self, key: &str) -> (state: bool)
        ensures
            old(self)@.contains_key(key@) ==> final(self)@ == old(self)@,
            !old(self)@.contains_key(key@) ==> final(self)@ == old(self)@.insert(key@, false),
            final(self)@.contains_key(key@),
            state == final(self)@[key@],
    {
        let known = match self.states.get(key) {
            Some(state) => Some(*state),
            None => None,
        };
        match known {
            Some(state) => state,
            None => {
                self.states.insert(String::from_str(key), false);
                false
            },
        }
    }
}

impl Default for MemoryLocker {
    fn default() -> (locker: MemoryLocker)
        ensures
            locker@ == Map::<Seq<char>, bool>::empty(),
    {
        MemoryLocker::new()
    }
}

impl Locker for MemoryLocker {
    /// Marks `phone` as taken, whether or not it was: this never fails and
    /// never waits.
    fn lock(&mut self, phone: &str) -> (outcome: Result<(), String>)
        ensures
            outcome is Ok,
            final(self)@ == old(self)@.insert(phone@, true),
    {
        self.states.insert(String::from_str(phone), true);
        Ok(())
    }

    /// Marks `phone` as free. Fails, and changes nothing, where `phone` was
    /// never named before.
    fn unlock(&mut self, phone: &str) -> (outcome: Result<(), String>)
        ensures
            old(self)@.contains_key(phone@) ==> outcome is Ok && final(self)@ == old(
                self,
            )@.insert(phone@, false),
            !old(self)@.contains_key(phone@) ==> final(self)@ == old(self)@ && (
            outcome matches Err(text) && text@ == not_found_text()),
    {
        if self.states.contains_key(phone) {
            self.states.insert(String::from_str(phone), false);
            Ok(())
        } else {
            Err(String::from_str("phone not found"))
        }
    }
}

} // verus!
