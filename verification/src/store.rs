//! The collaborator that keeps the current record of each phone number.

use crate::entities::SMSVerificationCode;
use vstd::prelude::*;

verus! {

/// Keeps at most one record per phone number.
///
/// A store is a handle to storage that others may share, so its methods take
/// `&self` and nothing is stated of what they return: the rules are applied to
/// whatever answer comes back.
pub trait Store {
    /// The current record of `phone`, or `None` where it has none.
    fn get(&self, phone: &str) -> Result<Option<SMSVerificationCode>, String>;

    /// Replaces the record of `phone` by one that holds `code`, stamped with
    /// the second at which it is written.
    fn put(&self, phone: &str, code: &str) -> Result<(), String>;
}

} // verus!
