//! The closed set of failures that the services report.

use vstd::prelude::*;
use vstd::string::StringExecFns;

verus! {

/// Why an operation failed.
#[derive(Debug, Clone, Copy, PartialEq, Eq, Structural)]
pub enum ErrorKind {
    /// The store could not be asked for the current record.
    LookupFailed,
    /// A code was issued less than the minimum interval ago.
    RateLimited,
    /// The notifier could not deliver the code; nothing was stored.
    DeliveryFailed,
    /// The code was delivered but the store could not record it.
    PersistenceFailed,
    /// No record is on file for the phone number.
    UnknownIdentifier,
}

/// A failure: its kind, and a text for people to read.
#[derive(Debug, Clone)]
pub struct ServiceError {
    pub kind: ErrorKind,
    pub detail: String,
}

/// What a failure says, as mathematical values.
pub struct Failure {
    pub kind: ErrorKind,
    pub detail: Seq<char>,
}

impl View for ServiceError {
    type V = Failure;

    open spec fn view(&self) -> Failure {
        Failure { kind: self.kind, detail: self.detail@ }
    }
}

/// The text of a failure that the rules themselves raise; a collaborator's
/// failure carries the collaborator's own words instead.
pub open spec fn own_detail(kind: ErrorKind) -> Seq<char> {
    match kind {
        ErrorKind::RateLimited => "Too frequent"@,
        ErrorKind::UnknownIdentifier => "phone not found"@,
        ErrorKind::LookupFailed => "lookup failed"@,
        ErrorKind::DeliveryFailed => "delivery failed"@,
        ErrorKind::PersistenceFailed => "persistence failed"@,
    }
}

impl ServiceError {
    /// A failure raised by the rules, with the text that belongs to its kind.
    pub fn of_kind(kind: ErrorKind) -> (error: ServiceError)
        ensures
            error@ == (Failure { kind, detail: own_detail(kind) }),
    {
        let text = match kind {
            ErrorKind::RateLimited => "Too frequent",
            ErrorKind::UnknownIdentifier => "phone not found",
            ErrorKind::LookupFailed => "lookup failed",
            ErrorKind::DeliveryFailed => "delivery failed",
            ErrorKind::PersistenceFailed => "persistence failed",
        };
        ServiceError { kind, detail: String::from_str(text) }
    }

    /// A collaborator's failure, tagged with its kind and keeping the
    /// collaborator's words.
    pub fn reported(kind: ErrorKind, detail: String) -> (error: ServiceError)
        ensures
            error@ == (Failure { kind, detail: detail@ }),
    {
        ServiceError { kind, detail }
    }

    /// The kind of this failure.
    pub fn kind(&self) -> (kind: ErrorKind)
        ensures
            kind == self@.kind,
    {
        self.kind
    }

    /// The text of this failure.
    pub fn message(&self) -> (text: String)
        ensures
            text@ == self@.detail,
    {
        self.detail.clone()
    }
}

} // verus!
