//! The two rules on time: when a new code may be issued, and until when a
//! code is accepted.

use crate::entities::{record_view, CodeRecord, SMSVerificationCode};
use crate::errors::{own_detail, ErrorKind, Failure, ServiceError};
use vstd::prelude::*;

verus! {

/// Whether a new code must be refused at `now`: a record exists and fewer than
/// `min_interval` seconds have passed since it was issued.
pub open spec fn rate_limited(latest: Option<CodeRecord>, now: int, min_interval: int) -> bool {
    latest matches Some(record) && now - record.sent_at < min_interval
}

/// Whether `record` makes `code` valid at `now`: the record has not expired
/// and holds that very code.
pub open spec fn accepted(record: CodeRecord, code: Seq<char>, now: int, expire_after: int) -> bool {
    now <= record.sent_at + expire_after && record.code == code
}

/// What a check of `code` against the store's answer gives: the store's
/// failure, `UnknownIdentifier` where no record is on file, and otherwise
/// whether the record makes the code valid.
pub open spec fn verification(
    found: Result<Option<CodeRecord>, Seq<char>>,
    code: Seq<char>,
    now: int,
    expire_after: int,
) -> Result<bool, Failure> {
    match found {
        Err(text) => Err(Failure { kind: ErrorKind::LookupFailed, detail: text }),
        Ok(None) => Err(
            Failure {
                kind: ErrorKind::UnknownIdentifier,
                detail: own_detail(ErrorKind::UnknownIdentifier),
            },
        ),
        Ok(Some(record)) => Ok(accepted(record, code, now, expire_after)),
    }
}

/// The view of a store's answer to a lookup.
pub open spec fn lookup_view(found: Result<Option<SMSVerificationCode>, String>) -> Result<
    Option<CodeRecord>,
    Seq<char>,
> {
    match found {
        Ok(latest) => Ok(record_view(latest)),
        Err(text) => Err(text@),
    }
}

/// The view of a collaborator's answer that carries no value.
pub open spec fn outcome_view(outcome: Result<(), String>) -> Result<(), Seq<char>> {
    match outcome {
        Ok(_) => Ok(()),
        Err(text) => Err(text@),
    }
}

/// The view of the result of an issuance.
pub open spec fn sent_view(result: Result<(), ServiceError>) -> Result<(), Failure> {
    match result {
        Ok(_) => Ok(()),
        Err(error) => Err(error@),
    }
}

/// The view of the result of a check.
pub open spec fn checked_view(result: Result<bool, ServiceError>) -> Result<bool, Failure> {
    match result {
        Ok(valid) => Ok(valid),
        Err(error) => Err(error@),
    }
}

/// Decides whether a new code must be refused at `now`.
pub fn is_rate_limited(latest: &Option<SMSVerificationCode>, now: i64, min_interval: i64) -> (limited:
    bool)
    ensures
        limited == rate_limited(record_view(*latest), now as int, min_interval as int),
{
    match latest {
        Some(record) => (now as i128) - (record.sent_at as i128) < (min_interval as i128),
        None => false,
    }
}

/// Decides whether `record` makes `code` valid at `now`.
pub fn is_accepted(record: &SMSVerificationCode, code: &String, now: i64, expire_after: i64) -> (valid:
    bool)
    ensures
        valid == accepted(record@, code@, now as int, expire_after as int),
{
    (now as i128) <= (record.sent_at as i128) + (expire_after as i128) && record.code == *code
}

/// Turns the store's answer to a lookup into the result of a check of `code`.
pub fn verification_outcome(
    found: Result<Option<SMSVerificationCode>, String>,
    code: &String,
    now: i64,
    expire_after: i64,
) -> (result: Result<bool, ServiceError>)
    ensures
        checked_view(result) == verification(
            lookup_view(found),
            code@,
            now as int,
            expire_after as int,
        ),
{
    match found {
        Err(text) => Err(ServiceError::reported(ErrorKind::LookupFailed, text)),
        Ok(None) => Err(ServiceError::of_kind(ErrorKind::UnknownIdentifier)),
        Ok(Some(record)) => Ok(is_accepted(&record, code, now, expire_after)),
    }
}

} // verus!
