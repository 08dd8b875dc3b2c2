//! The service: its configuration, its collaborators, and one lock per phone
//! number that was ever named.
//!
//! `Service::send_service` and `Service::verify_service` prepare one operation
//! on one phone number and hand out, with it, the lock of that number. The
//! caller takes the lock, runs the operation and releases the lock; running an
//! operation never waits.

use crate::clock::current_timestamp;
use crate::errors::{own_detail, ErrorKind, Failure, ServiceError};
use crate::generator::Generator;
use crate::issuance::{issuance_end, next_phase, SendAnswer, SendEvent, SendPhase, SendState};
use crate::locks::{share, PhoneLock};
use crate::registry::{registry_after, KeyRegistry};
use crate::entities::SMSVerificationCode;
use crate::rules::{
    checked_view, lookup_view, outcome_view, sent_view, verification, verification_outcome,
};
use crate::sender::Sender;
use crate::store::Store;
use vstd::pervasive::{arbitrary, cloned, unreached};
use vstd::prelude::*;
use vstd::string::StringExecFns;

verus! {

/// Whether `result` is one that an issuance can end with: success, or a
/// failure of one of the four kinds that an issuance knows, where a refusal
/// for frequency carries the text of its kind.
pub open spec fn issuance_result(result: Result<(), Failure>) -> bool {
    match result {
        Ok(_) => true,
        Err(failure) => {
            &&& failure.kind != ErrorKind::UnknownIdentifier
            &&& failure.kind == ErrorKind::RateLimited ==> failure.detail == own_detail(
                ErrorKind::RateLimited,
            )
        },
    }
}

/// Whether `result` is one that a check can end with: a verdict, or a failure
/// of one of the two kinds that a check knows, where a missing record carries
/// the text of its kind.
pub open spec fn check_result(result: Result<bool, Failure>) -> bool {
    match result {
        Ok(_) => true,
        Err(failure) => {
            ||| failure.kind == ErrorKind::LookupFailed
            ||| failure == (Failure {
                kind: ErrorKind::UnknownIdentifier,
                detail: own_detail(ErrorKind::UnknownIdentifier),
            })
        },
    }
}

/// The configuration, the collaborators and the locks.
pub struct Service<SD, ST, GN> where SD: Sender + Clone, ST: Store + Clone, GN: Generator + Clone {
    min_interval: i64,
    expire_after: i64,
    sender: SD,
    store: ST,
    generator: GN,
    lockers: KeyRegistry,
}

/// One issuance for one phone number, ready to run.
pub struct SendService<SD, ST, GN> where SD: Sender, ST: Store, GN: Generator {
    phone: String,
    min_interval: i64,
    sender: SD,
    store: ST,
    generator: GN,
    locker: PhoneLock,
}

/// One check of one code for one phone number, ready to run.
pub struct VerifyService<ST> where ST: Store {
    phone: String,
    code: String,
    expire_after: i64,
    store: ST,
    locker: PhoneLock,
}

impl<SD, ST, GN> Service<SD, ST, GN> where
    SD: Sender + Clone,
    ST: Store + Clone,
    GN: Generator + Clone,
 {
    /// The least number of seconds between two issuances for one phone number.
    pub closed spec fn min_interval(&self) -> i64 {
        self.min_interval
    }

    /// The number of seconds for which an issued code is accepted.
    pub closed spec fn expire_after(&self) -> i64 {
        self.expire_after
    }

    /// The notifier.
    pub closed spec fn sender(&self) -> SD {
        self.sender
    }

    /// The store.
    pub closed spec fn store(&self) -> ST {
        self.store
    }

    /// The generator.
    pub closed spec fn generator(&self) -> GN {
        self.generator
    }

    /// The locks on file, by phone number.
    pub closed spec fn lockers(&self) -> Map<Seq<char>, PhoneLock> {
        self.lockers@
    }

    /// Whether `other` has the configuration and the collaborators of this
    /// service.
    pub open spec fn same_setup(&self, other: &Self) -> bool {
        &&& self.min_interval() == other.min_interval()
        &&& self.expire_after() == other.expire_after()
        &&& self.sender() == other.sender()
        &&& self.store() == other.store()
        &&& self.generator() == other.generator()
    }

    /// A service with the given configuration and collaborators, and no lock
    /// on file.
    pub fn new(min_interval: i64, expire_after: i64, sender: SD, store: ST, generator: GN) -> (service:
        Self)
        ensures
            service.min_interval() == min_interval,
            service.expire_after() == expire_after,
            service.sender() == sender,
            service.store() == store,
            service.generator() == generator,
            service.lockers() == Map::<Seq<char>, PhoneLock>::empty(),
    {
        Service {
            min_interval,
            expire_after,
            sender,
            store,
            generator,
            lockers: KeyRegistry::new(),
        }
    }

    /// Whether a lock is on file for `phone`.
    pub fn has_locker(&self, phone: &str) -> (known: bool)
        ensures
            known == self.lockers().contains_key(phone@),
    {
        self.lockers.contains(phone)
    }

    /// Prepares an issuance for `phone`.
    ///
    /// The issuance carries the lock of `phone`, which is the same for every
    /// operation on that number, copies of the three collaborators and the
    /// minimum interval. A lock is filed for a number that had none; no lock is
    /// ever removed.
    pub fn send_service(&mut self, phone: &str) -> (service: SendService<SD, ST, GN>)
        ensures
            service.phone()@ == phone@,
            service.min_interval() == old(self).min_interval(),
            cloned(old(self).sender(), service.sender()),
            cloned(old(self).store(), service.store()),
            cloned(old(self).generator(), service.generator()),
            final(self).lockers() == registry_after(old(self).lockers(), phone@, service.locker()),
            final(self).lockers().contains_key(phone@),
            final(self).lockers()[phone@] == service.locker(),
            final(self).same_setup(old(self)),
    {
        let locker = self.lockers.lock_for(phone);
        SendService {
            phone: String::from_str(phone),
            min_interval: self.min_interval,
            sender: self.sender.clone(),
            store: self.store.clone(),
            generator: self.generator.clone(),
            locker,
        }
    }

    /// Prepares a check of `code` for `phone`.
    ///
    /// The check carries the lock of `phone`, which is the same for every
    /// operation on that number, a copy of the store and the expiry window. A
    /// lock is filed for a number that had none; no lock is ever removed.
    pub fn verify_service(&mut self, phone: &str, code: &str) -> (service: VerifyService<ST>)
        ensures
            service.phone()@ == phone@,
            service.code()@ == code@,
            service.expire_after() == old(self).expire_after(),
            cloned(old(self).store(), service.store()),
            final(self).lockers() == registry_after(old(self).lockers(), phone@, service.locker()),
            final(self).lockers().contains_key(phone@),
            final(self).lockers()[phone@] == service.locker(),
            final(self).same_setup(old(self)),
    {
        let locker = self.lockers.lock_for(phone);
        VerifyService {
            phone: String::from_str(phone),
            code: String::from_str(code),
            expire_after: self.expire_after,
            store: self.store.clone(),
            locker,
        }
    }
}

impl<SD, ST, GN> SendService<SD, ST, GN> where SD: Sender, ST: Store, GN: Generator {
    /// The phone number that the code is for.
    pub closed spec fn spec_phone(&self) -> &String {
        &self.phone
    }

    /// The least number of seconds since the last issuance.
    pub closed spec fn spec_min_interval(&self) -> i64 {
        self.min_interval
    }

    /// The lock of the phone number.
    pub closed spec fn spec_locker(&self) -> PhoneLock {
        self.locker
    }

    /// The notifier.
    pub closed spec fn sender(&self) -> SD {
        self.sender
    }

    /// The store.
    pub closed spec fn store(&self) -> ST {
        self.store
    }

    /// The generator.
    pub closed spec fn generator(&self) -> GN {
        self.generator
    }

    /// The phone number that the code is for.
    #[verifier::when_used_as_spec(spec_phone)]
    pub fn phone(&self) -> (phone: &String)
        ensures
            phone == self.spec_phone(),
    {
        &self.phone
    }

    /// The least number of seconds since the last issuance.
    #[verifier::when_used_as_spec(spec_min_interval)]
    pub fn min_interval(&self) -> (seconds: i64)
        ensures
            seconds == self.spec_min_interval(),
    {
        self.min_interval
    }

    /// A handle to the lock of the phone number.
    #[verifier::when_used_as_spec(spec_locker)]
    pub fn locker(&self) -> (lock: PhoneLock)
        ensures
            lock == self.spec_locker(),
    {
        share(&self.locker)
    }

    /// Whether `found` is an answer that the store can give to a lookup of
    /// the phone number of this issuance.
    pub open spec fn looked_up(&self, found: Result<Option<SMSVerificationCode>, String>) -> bool {
        exists|phone: &str|
            phone@ == self.phone()@ && #[trigger] call_ensures(
                ST::get,
                (&self.store(), phone),
                found,
            )
    }

    /// Whether `outcome` is an answer that the notifier can give when it is
    /// asked to deliver `code` to the phone number of this issuance.
    pub open spec fn delivered(&self, code: Seq<char>, outcome: Result<(), String>) -> bool {
        exists|phone: &str, text: &str|
            phone@ == self.phone()@ && text@ == code && #[trigger] call_ensures(
                SD::send,
                (&self.sender(), phone, text),
                outcome,
            )
    }

    /// Whether `outcome` is an answer that the store can give when it is asked
    /// to record `code` for the phone number of this issuance.
    pub open spec fn persisted(&self, code: Seq<char>, outcome: Result<(), String>) -> bool {
        exists|phone: &str, text: &str|
            phone@ == self.phone()@ && text@ == code && #[trigger] call_ensures(
                ST::put,
                (&self.store(), phone, text),
                outcome,
            )
    }

    /// Whether the collaborators can have given these answers to this
    /// issuance at the time `now`: the store was asked for the record of the
    /// phone number; where that allowed a new code, the generator was asked
    /// for one and the notifier was asked to deliver that code; and where it
    /// was delivered, the store was asked to record that same code. Of a
    /// collaborator that was not asked, nothing is said.
    pub open spec fn answered(
        &self,
        now: i64,
        found: Result<Option<SMSVerificationCode>, String>,
        code: String,
        delivery: Result<(), String>,
        persistence: Result<(), String>,
    ) -> bool {
        let fetched = next_phase(
            SendPhase::Fetching,
            SendAnswer::Fetched { found: lookup_view(found), now: now as int },
            self.min_interval() as int,
        );
        &&& self.looked_up(found)
        &&& fetched is Generating ==> {
            &&& call_ensures(GN::generate, (&self.generator(),), code)
            &&& self.delivered(code@, delivery)
            &&& delivery is Ok ==> self.persisted(code@, persistence)
        }
    }

    /// Whether `result` is what an issuance at the time `now` can give: the
    /// collaborators are asked as `answered` says, and `result` is the one in
    /// which `issuance_end` ends on their answers.
    pub open spec fn issues(&self, now: i64, result: Result<(), ServiceError>) -> bool {
        exists|
            found: Result<Option<SMSVerificationCode>, String>,
            code: String,
            delivery: Result<(), String>,
            persistence: Result<(), String>,
        |
            #![trigger self.answered(now, found, code, delivery, persistence)]
            self.answered(now, found, code, delivery, persistence) && issuance_end(
                lookup_view(found),
                now as int,
                self.min_interval() as int,
                code@,
                outcome_view(delivery),
                outcome_view(persistence),
            ) == (SendPhase::Done { result: sent_view(result) })
    }

    /// Issues a code at the time `now`.
    ///
    /// The store is asked for the record of the phone number. A failed lookup
    /// ends the issuance, and so does a record that is younger than the minimum
    /// interval, with `RateLimited`. Otherwise the generator is asked for a
    /// code, the notifier is asked to deliver it, and, once it is delivered,
    /// the store is asked to record it; the first of these that fails ends the
    /// issuance with its failure. Each answer is handed to `SendState::step`,
    /// which decides what comes next.
    pub fn send_code_at(&mut self, now: i64) -> (result: Result<(), ServiceError>)
        ensures
            old(self).issues(now, result),
            issuance_result(sent_view(result)),
            *final(self) == *old(self),
    {
        let phone = self.phone.as_str();
        let found = self.store.get(phone);
        let ghost looked = found;
        assert(self.looked_up(looked)) by {
            assert(call_ensures(ST::get, (&self.store(), phone), looked));
        }
        let state = SendState::start().step(SendEvent::Fetched { found, now }, self.min_interval);
        let state = match state {
            SendState::Done { result } => {
                assert(self.answered(now, looked, arbitrary(), arbitrary(), arbitrary()));
                return result;
            },
            waiting => waiting,
        };
        let code = self.generator.generate();
        let ghost drawn = code;
        let state = state.step(SendEvent::Generated { code }, self.min_interval);
        let outcome = match &state {
            SendState::Delivering { code } => {
                let text = code.as_str();
                let outcome = self.sender.send(phone, text);
                assert(self.delivered(drawn@, outcome)) by {
                    assert(call_ensures(SD::send, (&self.sender(), phone, text), outcome));
                }
                outcome
            },
            _ => unreached(),
        };
        let ghost delivery = outcome;
        let state = state.step(SendEvent::Delivered { outcome }, self.min_interval);
        let state = match state {
            SendState::Done { result } => {
                assert(self.answered(now, looked, drawn, delivery, arbitrary()));
                return result;
            },
            waiting => waiting,
        };
        let outcome = match &state {
            SendState::Persisting { code } => {
                let text = code.as_str();
                let outcome = self.store.put(phone, text);
                assert(self.persisted(drawn@, outcome)) by {
                    assert(call_ensures(ST::put, (&self.store(), phone, text), outcome));
                }
                outcome
            },
            _ => unreached(),
        };
        let ghost persistence = outcome;
        let state = state.step(SendEvent::Persisted { outcome }, self.min_interval);
        assert(self.answered(now, looked, drawn, delivery, persistence));
        match state {
            SendState::Done { result } => result,
            _ => unreached(),
        }
    }

    /// Issues a code now: reads the machine's clock and issues a code at the
    /// time it shows, as `send_code_at` does.
    pub fn send_code(&mut self) -> (result: Result<(), ServiceError>)
        ensures
            exists|now: i64| #[trigger] old(self).issues(now, result),
            issuance_result(sent_view(result)),
            *final(self) == *old(self),
    {
        let now = current_timestamp();
        self.send_code_at(now)
    }
}

impl<ST> VerifyService<ST> where ST: Store {
    /// The phone number that the code is checked for.
    pub closed spec fn spec_phone(&self) -> &String {
        &self.phone
    }

    /// The code that is checked.
    pub closed spec fn spec_code(&self) -> &String {
        &self.code
    }

    /// The number of seconds for which an issued code is accepted.
    pub closed spec fn spec_expire_after(&self) -> i64 {
        self.expire_after
    }

    /// The lock of the phone number.
    pub closed spec fn spec_locker(&self) -> PhoneLock {
        self.locker
    }

    /// The store.
    pub closed spec fn store(&self) -> ST {
        self.store
    }

    /// The phone number that the code is checked for.
    #[verifier::when_used_as_spec(spec_phone)]
    pub fn phone(&self) -> (phone: &String)
        ensures
            phone == self.spec_phone(),
    {
        &self.phone
    }

    /// The code that is checked.
    #[verifier::when_used_as_spec(spec_code)]
    pub fn code(&self) -> (code: &String)
        ensures
            code == self.spec_code(),
    {
        &self.code
    }

    /// The number of seconds for which an issued code is accepted.
    #[verifier::when_used_as_spec(spec_expire_after)]
    pub fn expire_after(&self) -> (seconds: i64)
        ensures
            seconds == self.spec_expire_after(),
    {
        self.expire_after
    }

    /// A handle to the lock of the phone number.
    #[verifier::when_used_as_spec(spec_locker)]
    pub fn locker(&self) -> (lock: PhoneLock)
        ensures
            lock == self.spec_locker(),
    {
        share(&self.locker)
    }

    /// Whether `found` is an answer that the store can give to a lookup of
    /// the phone number of this check.
    pub open spec fn looked_up(&self, found: Result<Option<SMSVerificationCode>, String>) -> bool {
        exists|phone: &str|
            phone@ == self.phone()@ && #[trigger] call_ensures(
                ST::get,
                (&self.store(), phone),
                found,
            )
    }

    /// Whether `result` is what a check at the time `now` can give: the store
    /// is asked for the record of the phone number, and `result` is what
    /// `verification` makes of its answer.
    pub open spec fn checks(&self, now: i64, result: Result<bool, ServiceError>) -> bool {
        exists|found: Result<Option<SMSVerificationCode>, String>| #[trigger]
            self.looked_up(found) && checked_view(result) == verification(
                lookup_view(found),
                self.code()@,
                now as int,
                self.expire_after() as int,
            )
    }

    /// Checks the code at the time `now`: asks the store for the current
    /// record and hands its answer to `verification_outcome`.
    ///
    /// The result is the failure of the lookup, `UnknownIdentifier` where the
    /// store has no record of the phone number, and otherwise whether that
    /// record holds the code and had not expired at `now`. Nothing is written.
    pub fn check_code_at(&mut self, now: i64) -> (result: Result<bool, ServiceError>)
        ensures
            old(self).checks(now, result),
            check_result(checked_view(result)),
            *final(self) == *old(self),
    {
        let phone = self.phone.as_str();
        let found = self.store.get(phone);
        let ghost answer = found;
        assert(self.looked_up(answer)) by {
            assert(call_ensures(ST::get, (&self.store(), phone), answer));
        }
        verification_outcome(found, &self.code, now, self.expire_after)
    }

    /// Checks the code now: reads the machine's clock and checks the code at
    /// the time it shows, as `check_code_at` does.
    pub fn check_code(&mut self) -> (result: Result<bool, ServiceError>)
        ensures
            exists|now: i64| #[trigger] old(self).checks(now, result),
            check_result(checked_view(result)),
            *final(self) == *old(self),
    {
        let now = current_timestamp();
        self.check_code_at(now)
    }
}

} // verus!
