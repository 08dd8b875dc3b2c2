//! Issuing a code, one decision at a time.
//!
//! An issuance asks the store for the current record, asks the generator for
//! a code, has the notifier deliver it and has the store record it. Each of
//! these is outside work. `SendState` says which answer the issuance is
//! waiting for, and `SendState::step` decides, from the answer, what comes
//! next. Whoever drives an issuance does the outside work that the state
//! names and hands the answer back, until the state is `Done`.

use crate::entities::{CodeRecord, SMSVerificationCode};
use crate::errors::{own_detail, ErrorKind, Failure, ServiceError};
use crate::rules::{is_rate_limited, lookup_view, outcome_view, rate_limited, sent_view};
use vstd::prelude::*;

verus! {

/// Where an issuance stands: the outside work that is due, or the result.
#[derive(Debug)]
pub enum SendState {
    /// The store is to be asked for the current record, and the clock read.
    Fetching,
    /// The generator is to be asked for a new code.
    Generating,
    /// The notifier is to deliver `code`.
    Delivering { code: String },
    /// The store is to record `code`, which was delivered.
    Persisting { code: String },
    /// Nothing is left to do.
    Done { result: Result<(), ServiceError> },
}

/// An answer from outside to the work that a state names.
#[derive(Debug)]
pub enum SendEvent {
    /// The store's answer to the lookup, and the time at which it was given.
    Fetched { found: Result<Option<SMSVerificationCode>, String>, now: i64 },
    /// The generator's new code.
    Generated { code: String },
    /// The notifier's answer.
    Delivered { outcome: Result<(), String> },
    /// The store's answer to the write.
    Persisted { outcome: Result<(), String> },
}

/// A state, as mathematical values.
pub enum SendPhase {
    Fetching,
    Generating,
    Delivering { code: Seq<char> },
    Persisting { code: Seq<char> },
    Done { result: Result<(), Failure> },
}

/// An answer, as mathematical values.
pub enum SendAnswer {
    Fetched { found: Result<Option<CodeRecord>, Seq<char>>, now: int },
    Generated { code: Seq<char> },
    Delivered { outcome: Result<(), Seq<char>> },
    Persisted { outcome: Result<(), Seq<char>> },
}

impl View for SendState {
    type V = SendPhase;

    open spec fn view(&self) -> SendPhase {
        match *self {
            SendState::Fetching => SendPhase::Fetching,
            SendState::Generating => SendPhase::Generating,
            SendState::Delivering { code } => SendPhase::Delivering { code: code@ },
            SendState::Persisting { code } => SendPhase::Persisting { code: code@ },
            SendState::Done { result } => SendPhase::Done { result: sent_view(result) },
        }
    }
}

impl View for SendEvent {
    type V = SendAnswer;

    open spec fn view(&self) -> SendAnswer {
        match *self {
            SendEvent::Fetched { found, now } => SendAnswer::Fetched {
                found: lookup_view(found),
                now: now as int,
            },
            SendEvent::Generated { code } => SendAnswer::Generated { code: code@ },
            SendEvent::Delivered { outcome } => SendAnswer::Delivered {
                outcome: outcome_view(outcome),
            },
            SendEvent::Persisted { outcome } => SendAnswer::Persisted {
                outcome: outcome_view(outcome),
            },
        }
    }
}

/// An issuance that failed with a collaborator's words.
pub open spec fn failed_with(kind: ErrorKind, text: Seq<char>) -> SendPhase {
    SendPhase::Done { result: Err(Failure { kind, detail: text }) }
}

/// Whether `answer` is the answer that `phase` is waiting for.
pub open spec fn awaits(phase: SendPhase, answer: SendAnswer) -> bool {
    match (phase, answer) {
        (SendPhase::Fetching, SendAnswer::Fetched { .. }) => true,
        (SendPhase::Generating, SendAnswer::Generated { .. }) => true,
        (SendPhase::Delivering { .. }, SendAnswer::Delivered { .. }) => true,
        (SendPhase::Persisting { .. }, SendAnswer::Persisted { .. }) => true,
        _ => false,
    }
}

/// How many answers an issuance in `phase` may still need.
pub open spec fn steps_left(phase: SendPhase) -> nat {
    match phase {
        SendPhase::Fetching => 4,
        SendPhase::Generating => 3,
        SendPhase::Delivering { .. } => 2,
        SendPhase::Persisting { .. } => 1,
        SendPhase::Done { .. } => 0,
    }
}

/// The phase that follows `phase` on `answer`.
///
/// A failed lookup ends the issuance, and so does a record younger than
/// `min_interval`; otherwise a code is generated. The code is delivered before
/// it is recorded, so a failed delivery ends the issuance with nothing
/// written. An answer that `phase` is not waiting for changes nothing.
pub open spec fn next_phase(phase: SendPhase, answer: SendAnswer, min_interval: int) -> SendPhase {
    match (phase, answer) {
        (SendPhase::Fetching, SendAnswer::Fetched { found: Err(text), .. }) => failed_with(
            ErrorKind::LookupFailed,
            text,
        ),
        (SendPhase::Fetching, SendAnswer::Fetched { found: Ok(latest), now }) => if rate_limited(
            latest,
            now,
            min_interval,
        ) {
            failed_with(ErrorKind::RateLimited, own_detail(ErrorKind::RateLimited))
        } else {
            SendPhase::Generating
        },
        (SendPhase::Generating, SendAnswer::Generated { code }) => SendPhase::Delivering { code },
        (SendPhase::Delivering { code }, SendAnswer::Delivered { outcome: Ok(_) }) => SendPhase::Persisting {
            code,
        },
        (SendPhase::Delivering { .. }, SendAnswer::Delivered { outcome: Err(text) }) => failed_with(
            ErrorKind::DeliveryFailed,
            text,
        ),
        (SendPhase::Persisting { .. }, SendAnswer::Persisted { outcome: Ok(_) }) => SendPhase::Done {
            result: Ok(()),
        },
        (SendPhase::Persisting { .. }, SendAnswer::Persisted { outcome: Err(text) }) => failed_with(
            ErrorKind::PersistenceFailed,
            text,
        ),
        _ => phase,
    }
}

/// The phase in which an issuance ends whose lookup is answered by `found` at
/// `now`, and that is given `code` by the generator, `delivery` by the
/// notifier and `persistence` by the store, as far as it comes to ask them:
/// an issuance that has ended takes no further answer.
pub open spec fn issuance_end(
    found: Result<Option<CodeRecord>, Seq<char>>,
    now: int,
    min_interval: int,
    code: Seq<char>,
    delivery: Result<(), Seq<char>>,
    persistence: Result<(), Seq<char>>,
) -> SendPhase {
    let fetched = next_phase(SendPhase::Fetching, SendAnswer::Fetched { found, now }, min_interval);
    let generated = next_phase(fetched, SendAnswer::Generated { code }, min_interval);
    let delivered = next_phase(generated, SendAnswer::Delivered { outcome: delivery }, min_interval);
    next_phase(delivered, SendAnswer::Persisted { outcome: persistence }, min_interval)
}

impl SendState {
    /// The state of an issuance that has done nothing yet.
    pub fn start() -> (state: SendState)
        ensures
            state@ == SendPhase::Fetching,
    {
        SendState::Fetching
    }

    /// The state that follows this one on `event`.
    pub fn step(self, event: SendEvent, min_interval: i64) -> (next: SendState)
        ensures
            next@ == next_phase(self@, event@, min_interval as int),
    {
        match (self, event) {
            (SendState::Fetching, SendEvent::Fetched { found: Err(text), now }) => SendState::Done {
                result: Err(ServiceError::reported(ErrorKind::LookupFailed, text)),
            },
            (SendState::Fetching, SendEvent::Fetched { found: Ok(latest), now }) => {
                if is_rate_limited(&latest, now, min_interval) {
                    SendState::Done { result: Err(ServiceError::of_kind(ErrorKind::RateLimited)) }
                } else {
                    SendState::Generating
                }
            },
            (SendState::Generating, SendEvent::Generated { code }) => SendState::Delivering { code },
            (SendState::Delivering { code }, SendEvent::Delivered { outcome: Ok(_) }) => {
                SendState::Persisting { code }
            },
            (SendState::Delivering { code }, SendEvent::Delivered { outcome: Err(text) }) => {
                SendState::Done {
                    result: Err(ServiceError::reported(ErrorKind::DeliveryFailed, text)),
                }
            },
            (SendState::Persisting { code }, SendEvent::Persisted { outcome: Ok(_) }) => {
                SendState::Done { result: Ok(()) }
            },
            (SendState::Persisting { code }, SendEvent::Persisted { outcome: Err(text) }) => {
                SendState::Done {
                    result: Err(ServiceError::reported(ErrorKind::PersistenceFailed, text)),
                }
            },
            (state, _) => state,
        }
    }
}

/// The answer that a state is waiting for brings the issuance nearer to its
/// end, and no answer takes it further from it.
pub proof fn lemma_step_progress(phase: SendPhase, answer: SendAnswer, min_interval: int)
    ensures
        awaits(phase, answer) ==> steps_left(next_phase(phase, answer, min_interval)) < steps_left(
            phase,
        ),
        !awaits(phase, answer) ==> next_phase(phase, answer, min_interval) == phase,
{
}

} // verus!
