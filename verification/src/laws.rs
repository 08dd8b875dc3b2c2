//! What the rules guarantee over a whole store, stated over a model of it.
//!
//! The model is a map from phone numbers to records. An issuance reads the
//! record of its phone number, runs through the phases of `next_phase` and,
//! where it succeeds, replaces that record by one that holds the new code and
//! the time of the issuance. A check only reads.

use crate::entities::CodeRecord;
use crate::errors::{own_detail, ErrorKind, Failure};
use crate::issuance::{failed_with, issuance_end, SendPhase};
use crate::locks::PhoneLock;
use crate::rules::{accepted, rate_limited, verification};
use crate::registry::registry_after;
use vstd::prelude::*;

verus! {

/// The records of a store, by phone number.
pub type Ledger = Map<Seq<char>, CodeRecord>;

/// The store's answer to a lookup of `phone`.
pub open spec fn lookup(ledger: Ledger, phone: Seq<char>) -> Option<CodeRecord> {
    if ledger.contains_key(phone) {
        Some(ledger[phone])
    } else {
        None
    }
}

/// The result of an issuance for `phone` on `ledger`.
pub open spec fn send_code_result(
    ledger: Ledger,
    phone: Seq<char>,
    now: int,
    min_interval: int,
    code: Seq<char>,
    delivery: Result<(), Seq<char>>,
    persistence: Result<(), Seq<char>>,
) -> Result<(), Failure> {
    issuance_end(Ok(lookup(ledger, phone)), now, min_interval, code, delivery, persistence)->result
}

/// The store after an issuance for `phone` on `ledger`: a successful issuance
/// replaces the record of `phone`, any other leaves the store as it was.
pub open spec fn ledger_after_send(
    ledger: Ledger,
    phone: Seq<char>,
    now: int,
    min_interval: int,
    code: Seq<char>,
    delivery: Result<(), Seq<char>>,
    persistence: Result<(), Seq<char>>,
) -> Ledger {
    if send_code_result(ledger, phone, now, min_interval, code, delivery, persistence) is Ok {
        ledger.insert(phone, CodeRecord { phone, code, sent_at: now })
    } else {
        ledger
    }
}

/// The result of a check of `code` for `phone` on `ledger`.
pub open spec fn check_code_result(
    ledger: Ledger,
    phone: Seq<char>,
    code: Seq<char>,
    now: int,
    expire_after: int,
) -> Result<bool, Failure> {
    verification(Ok(lookup(ledger, phone)), code, now, expire_after)
}

/// An issuance always ends, and its result is decided in this order: a record
/// younger than the minimum interval refuses it; else a failed delivery fails
/// it; else a failed write fails it; else it succeeds.
pub proof fn law_issuance_outcome(
    latest: Option<CodeRecord>,
    now: int,
    min_interval: int,
    code: Seq<char>,
    delivery: Result<(), Seq<char>>,
    persistence: Result<(), Seq<char>>,
)
    ensures
        issuance_end(Ok(latest), now, min_interval, code, delivery, persistence) == (if rate_limited(
            latest,
            now,
            min_interval,
        ) {
            failed_with(ErrorKind::RateLimited, own_detail(ErrorKind::RateLimited))
        } else {
            match (delivery, persistence) {
                (Err(text), _) => failed_with(ErrorKind::DeliveryFailed, text),
                (Ok(_), Err(text)) => failed_with(ErrorKind::PersistenceFailed, text),
                (Ok(_), Ok(_)) => SendPhase::Done { result: Ok(()) },
            }
        }),
{
}

/// An issuance that does not succeed leaves every record as it was, and one
/// that succeeds changes the record of its own phone number only.
pub proof fn law_issuance_touches_one_record(
    ledger: Ledger,
    phone: Seq<char>,
    other: Seq<char>,
    now: int,
    min_interval: int,
    code: Seq<char>,
    delivery: Result<(), Seq<char>>,
    persistence: Result<(), Seq<char>>,
)
    ensures
        send_code_result(ledger, phone, now, min_interval, code, delivery, persistence) is Err
            ==> ledger_after_send(ledger, phone, now, min_interval, code, delivery, persistence)
            == ledger,
        other != phone ==> lookup(
            ledger_after_send(ledger, phone, now, min_interval, code, delivery, persistence),
            other,
        ) == lookup(ledger, other),
{
}

/// A second issuance for the same phone number, fewer than the minimum
/// interval after one that succeeded, is refused as too frequent, whatever the
/// collaborators would have answered, and leaves the stored record as the
/// first issuance wrote it.
pub proof fn law_resend_within_interval(
    ledger: Ledger,
    phone: Seq<char>,
    min_interval: int,
    first_now: int,
    first_code: Seq<char>,
    first_delivery: Result<(), Seq<char>>,
    first_persistence: Result<(), Seq<char>>,
    second_now: int,
    second_code: Seq<char>,
    second_delivery: Result<(), Seq<char>>,
    second_persistence: Result<(), Seq<char>>,
)
    requires
        send_code_result(
            ledger,
            phone,
            first_now,
            min_interval,
            first_code,
            first_delivery,
            first_persistence,
        ) is Ok,
        second_now - first_now < min_interval,
    ensures
        ({
            let between = ledger_after_send(
                ledger,
                phone,
                first_now,
                min_interval,
                first_code,
                first_delivery,
                first_persistence,
            );
            &&& send_code_result(
                between,
                phone,
                second_now,
                min_interval,
                second_code,
                second_delivery,
                second_persistence,
            ) == Err::<(), Failure>(
                Failure {
                    kind: ErrorKind::RateLimited,
                    detail: own_detail(ErrorKind::RateLimited),
                },
            )
            &&& ledger_after_send(
                between,
                phone,
                second_now,
                min_interval,
                second_code,
                second_delivery,
                second_persistence,
            ) == between
            &&& lookup(between, phone) == Some(
                CodeRecord { phone, code: first_code, sent_at: first_now },
            )
        }),
{
}

/// A second issuance for the same phone number, at least the minimum interval
/// after one that succeeded, succeeds too where the notifier and the store do
/// their part. Its record replaces the first: the store then holds the second
/// code with the second time, and a check of the first code, where the two
/// codes differ, gives `false` at any time.
pub proof fn law_resend_after_interval(
    ledger: Ledger,
    phone: Seq<char>,
    min_interval: int,
    expire_after: int,
    first_now: int,
    first_code: Seq<char>,
    first_delivery: Result<(), Seq<char>>,
    first_persistence: Result<(), Seq<char>>,
    second_now: int,
    second_code: Seq<char>,
    check_now: int,
)
    requires
        send_code_result(
            ledger,
            phone,
            first_now,
            min_interval,
            first_code,
            first_delivery,
            first_persistence,
        ) is Ok,
        second_now - first_now >= min_interval,
    ensures
        ({
            let between = ledger_after_send(
                ledger,
                phone,
                first_now,
                min_interval,
                first_code,
                first_delivery,
                first_persistence,
            );
            let after = ledger_after_send(
                between,
                phone,
                second_now,
                min_interval,
                second_code,
                Ok(()),
                Ok(()),
            );
            &&& send_code_result(
                between,
                phone,
                second_now,
                min_interval,
                second_code,
                Ok(()),
                Ok(()),
            ) is Ok
            &&& lookup(after, phone) == Some(
                CodeRecord { phone, code: second_code, sent_at: second_now },
            )
            &&& first_code != second_code ==> check_code_result(
                after,
                phone,
                first_code,
                check_now,
                expire_after,
            ) == Ok::<bool, Failure>(false)
        }),
{
}

/// A delivery that fails uses up nothing: the store is as it was, so the next
/// issuance is judged by the record that was on file before.
pub proof fn law_failed_delivery_keeps_the_slot(
    ledger: Ledger,
    phone: Seq<char>,
    min_interval: int,
    now: int,
    code: Seq<char>,
    text: Seq<char>,
    persistence: Result<(), Seq<char>>,
)
    requires
        !rate_limited(lookup(ledger, phone), now, min_interval),
    ensures
        send_code_result(ledger, phone, now, min_interval, code, Err(text), persistence) == Err::<
            (),
            Failure,
        >(Failure { kind: ErrorKind::DeliveryFailed, detail: text }),
        ledger_after_send(ledger, phone, now, min_interval, code, Err(text), persistence) == ledger,
{
}

/// A check gives `true` exactly where a record is on file for the phone
/// number, holds the very code that is checked and has not expired; it gives
/// `false` for every other record, and the failure `UnknownIdentifier` where
/// no record is on file.
pub proof fn law_check_code(
    ledger: Ledger,
    phone: Seq<char>,
    code: Seq<char>,
    now: int,
    expire_after: int,
)
    ensures
        check_code_result(ledger, phone, code, now, expire_after) == Ok::<bool, Failure>(true) <==> (
        ledger.contains_key(phone) && ledger[phone].code == code && now <= ledger[phone].sent_at
            + expire_after),
        ledger.contains_key(phone) ==> check_code_result(ledger, phone, code, now, expire_after)
            is Ok,
        !ledger.contains_key(phone) ==> check_code_result(ledger, phone, code, now, expire_after)
            == Err::<bool, Failure>(
            Failure {
                kind: ErrorKind::UnknownIdentifier,
                detail: own_detail(ErrorKind::UnknownIdentifier),
            },
        ),
{
}

/// A code that was issued with success is accepted from the time of its
/// issuance until `expire_after` seconds later, and at no later time.
pub proof fn law_issued_code_is_accepted_until_it_expires(
    ledger: Ledger,
    phone: Seq<char>,
    min_interval: int,
    expire_after: int,
    now: int,
    code: Seq<char>,
    delivery: Result<(), Seq<char>>,
    persistence: Result<(), Seq<char>>,
    check_now: int,
)
    requires
        send_code_result(ledger, phone, now, min_interval, code, delivery, persistence) is Ok,
    ensures
        check_code_result(
            ledger_after_send(ledger, phone, now, min_interval, code, delivery, persistence),
            phone,
            code,
            check_now,
            expire_after,
        ) == Ok::<bool, Failure>(check_now <= now + expire_after),
{
}

/// Asking twice for the lock of one phone number gives the same lock, and
/// asking for the lock of one number neither removes nor replaces the lock of
/// any number.
pub proof fn law_one_lock_per_phone(
    registry: Map<Seq<char>, PhoneLock>,
    phone: Seq<char>,
    other: Seq<char>,
    first: PhoneLock,
    second: PhoneLock,
)
    ensures
        ({
            let once = registry_after(registry, phone, first);
            let twice = registry_after(once, phone, second);
            &&& once.contains_key(phone)
            &&& twice == once
            &&& registry.contains_key(other) ==> once.contains_key(other) && once[other]
                == registry[other]
            &&& other != phone ==> (once.contains_key(other) <==> registry.contains_key(other))
        }),
{
}

} // verus!
