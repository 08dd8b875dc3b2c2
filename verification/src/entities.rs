//! The record that the store keeps for one phone number.

use vstd::prelude::*;
use vstd::string::StringExecFns;

verus! {

/// What a stored record says, as mathematical values.
pub struct CodeRecord {
    pub phone: Seq<char>,
    pub code: Seq<char>,
    pub sent_at: int,
}

/// The current code of one phone number and the second at which it was issued.
///
/// `sent_at` counts seconds since the Unix epoch.
#[derive(Debug, Clone)]
pub struct SMSVerificationCode {
    pub phone: String,
    pub code: String,
    pub sent_at: i64,
}

impl View for SMSVerificationCode {
    type V = CodeRecord;

    open spec fn view(&self) -> CodeRecord {
        CodeRecord { phone: self.phone@, code: self.code@, sent_at: self.sent_at as int }
    }
}

impl SMSVerificationCode {
    /// The record that a store writes for `phone` when `code` is issued at
    /// `sent_at`.
    pub fn new(phone: &str, code: &str, sent_at: i64) -> (record: SMSVerificationCode)
        ensures
            record@ == (CodeRecord { phone: phone@, code: code@, sent_at: sent_at as int }),
    {
        SMSVerificationCode {
            phone: String::from_str(phone),
            code: String::from_str(code),
            sent_at,
        }
    }
}

/// The view of a record that may be absent.
pub open spec fn record_view(found: Option<SMSVerificationCode>) -> Option<CodeRecord> {
    match found {
        Some(record) => Some(record@),
        None => None,
    }
}

} // verus!
