use sms_verification::entities::SMSVerificationCode;
use sms_verification::errors::ErrorKind;
use sms_verification::generator::{Generator, RandomGenerator};
use sms_verification::sender::{FakeSender, Sender};
use sms_verification::service::Service;
use sms_verification::store::Store;
use std::cell::{Cell, RefCell};
use std::collections::HashMap;
use std::rc::Rc;
use std::sync::Arc;

/// A store in memory that stamps each record with the time on `clock`.
#[derive(Clone)]
struct MemoryStore {
    records: Rc<RefCell<HashMap<String, SMSVerificationCode>>>,
    clock: Rc<Cell<i64>>,
    get_fails: Rc<Cell<bool>>,
    put_fails: Rc<Cell<bool>>,
}

impl MemoryStore {
    fn new() -> Self {
        MemoryStore {
            records: Rc::new(RefCell::new(HashMap::new())),
            clock: Rc::new(Cell::new(0)),
            get_fails: Rc::new(Cell::new(false)),
            put_fails: Rc::new(Cell::new(false)),
        }
    }

    fn record(&self, phone: &str) -> Option<SMSVerificationCode> {
        self.records.borrow().get(phone).cloned()
    }
}

impl Store for MemoryStore {
    fn get(&self, phone: &str) -> Result<Option<SMSVerificationCode>, String> {
        if self.get_fails.get() {
            return Err("store is down".to_string());
        }
        Ok(self.record(phone))
    }

    fn put(&self, phone: &str, code: &str) -> Result<(), String> {
        if self.put_fails.get() {
            return Err("disk full".to_string());
        }
        let record = SMSVerificationCode::new(phone, code, self.clock.get());
        self.records.borrow_mut().insert(phone.to_string(), record);
        Ok(())
    }
}

/// A store in memory that stamps each record with the machine's time.
#[derive(Clone)]
struct WallClockStore {
    records: Rc<RefCell<HashMap<String, SMSVerificationCode>>>,
}

impl Store for WallClockStore {
    fn get(&self, phone: &str) -> Result<Option<SMSVerificationCode>, String> {
        Ok(self.records.borrow().get(phone).cloned())
    }

    fn put(&self, phone: &str, code: &str) -> Result<(), String> {
        let record = SMSVerificationCode::new(phone, code, chrono::Utc::now().timestamp());
        self.records.borrow_mut().insert(phone.to_string(), record);
        Ok(())
    }
}

/// A generator that hands out the codes it was given, in turn.
#[derive(Clone)]
struct ScriptedGenerator {
    codes: Rc<RefCell<Vec<String>>>,
}

impl ScriptedGenerator {
    fn new(codes: &[&str]) -> Self {
        let mut codes: Vec<String> = codes.iter().map(|c| c.to_string()).collect();
        codes.reverse();
        ScriptedGenerator { codes: Rc::new(RefCell::new(codes)) }
    }
}

impl Generator for ScriptedGenerator {
    fn generate(&self) -> String {
        self.codes.borrow_mut().pop().unwrap()
    }
}

/// A sender that keeps what it was asked to deliver, and fails on demand.
#[derive(Clone)]
struct RecordingSender {
    sent: Rc<RefCell<Vec<(String, String)>>>,
    fails: Rc<Cell<bool>>,
}

impl RecordingSender {
    fn new() -> Self {
        RecordingSender { sent: Rc::new(RefCell::new(Vec::new())), fails: Rc::new(Cell::new(false)) }
    }
}

impl Sender for RecordingSender {
    fn send(&self, phone: &str, code: &str) -> Result<(), String> {
        if self.fails.get() {
            return Err("no signal".to_string());
        }
        self.sent.borrow_mut().push((phone.to_string(), code.to_string()));
        Ok(())
    }
}

fn send_at(
    service: &mut Service<RecordingSender, MemoryStore, ScriptedGenerator>,
    store: &MemoryStore,
    phone: &str,
    now: i64,
) -> Result<(), ErrorKind> {
    store.clock.set(now);
    service.send_service(phone).send_code_at(now).map_err(|e| e.kind)
}

fn check_at(
    service: &mut Service<RecordingSender, MemoryStore, ScriptedGenerator>,
    phone: &str,
    code: &str,
    now: i64,
) -> Result<bool, ErrorKind> {
    service.verify_service(phone, code).check_code_at(now).map_err(|e| e.kind)
}

fn setup(
    codes: &[&str],
) -> (Service<RecordingSender, MemoryStore, ScriptedGenerator>, MemoryStore, RecordingSender) {
    let store = MemoryStore::new();
    let sender = RecordingSender::new();
    let service =
        Service::new(60, 300, sender.clone(), store.clone(), ScriptedGenerator::new(codes));
    (service, store, sender)
}

#[test]
fn scenario_send_limit_check_expire_resend() {
    let (mut service, store, sender) = setup(&["123456", "654321"]);

    assert_eq!(send_at(&mut service, &store, "+1555", 0), Ok(()));
    let record = store.record("+1555").unwrap();
    assert_eq!(record.code, "123456");
    assert_eq!(record.sent_at, 0);

    assert_eq!(send_at(&mut service, &store, "+1555", 30), Err(ErrorKind::RateLimited));
    assert_eq!(check_at(&mut service, "+1555", "123456", 30), Ok(true));
    assert_eq!(check_at(&mut service, "+1555", "123456", 301), Ok(false));

    assert_eq!(send_at(&mut service, &store, "+1555", 400), Ok(()));
    let record = store.record("+1555").unwrap();
    assert_eq!(record.code, "654321");
    assert_eq!(record.sent_at, 400);
    assert_eq!(
        *sender.sent.borrow(),
        vec![
            ("+1555".to_string(), "123456".to_string()),
            ("+1555".to_string(), "654321".to_string())
        ]
    );
}

#[test]
fn second_send_within_the_interval_is_rate_limited() {
    let (mut service, store, sender) = setup(&["111111", "222222"]);
    assert_eq!(send_at(&mut service, &store, "+1555", 1000), Ok(()));
    let result = {
        store.clock.set(1059);
        service.send_service("+1555").send_code_at(1059)
    };
    let error = result.unwrap_err();
    assert_eq!(error.kind, ErrorKind::RateLimited);
    assert_eq!(error.detail, "Too frequent");
    assert_eq!(store.record("+1555").unwrap().code, "111111");
    assert_eq!(store.record("+1555").unwrap().sent_at, 1000);
    assert_eq!(sender.sent.borrow().len(), 1);
}

#[test]
fn second_send_after_the_interval_replaces_the_record() {
    let (mut service, store, _sender) = setup(&["111111", "222222"]);
    assert_eq!(send_at(&mut service, &store, "+1555", 1000), Ok(()));
    assert_eq!(send_at(&mut service, &store, "+1555", 1060), Ok(()));
    assert_eq!(store.record("+1555").unwrap().code, "222222");
    assert_eq!(store.record("+1555").unwrap().sent_at, 1060);
    assert_eq!(check_at(&mut service, "+1555", "111111", 1060), Ok(false));
    assert_eq!(check_at(&mut service, "+1555", "222222", 1060), Ok(true));
}

#[test]
fn check_is_true_only_for_the_stored_code_before_expiry() {
    let (mut service, store, _sender) = setup(&["123456"]);
    assert_eq!(send_at(&mut service, &store, "+1555", 100), Ok(()));
    assert_eq!(check_at(&mut service, "+1555", "123456", 100), Ok(true));
    assert_eq!(check_at(&mut service, "+1555", "123456", 400), Ok(true));
    assert_eq!(check_at(&mut service, "+1555", "123456", 401), Ok(false));
    assert_eq!(check_at(&mut service, "+1555", "123457", 100), Ok(false));
    assert_eq!(check_at(&mut service, "+1555", "", 100), Ok(false));
}

#[test]
fn check_leaves_the_code_usable() {
    let (mut service, store, _sender) = setup(&["123456"]);
    assert_eq!(send_at(&mut service, &store, "+1555", 0), Ok(()));
    assert_eq!(check_at(&mut service, "+1555", "123456", 10), Ok(true));
    assert_eq!(check_at(&mut service, "+1555", "000000", 11), Ok(false));
    assert_eq!(check_at(&mut service, "+1555", "123456", 12), Ok(true));
    assert_eq!(store.record("+1555").unwrap().sent_at, 0);
}

#[test]
fn check_of_an_unknown_phone_is_unknown_identifier() {
    let (mut service, store, _sender) = setup(&["123456"]);
    assert_eq!(check_at(&mut service, "+1555", "123456", 0), Err(ErrorKind::UnknownIdentifier));
    assert_eq!(send_at(&mut service, &store, "+1555", 0), Ok(()));
    assert_eq!(check_at(&mut service, "+1666", "123456", 0), Err(ErrorKind::UnknownIdentifier));
    let error = service.verify_service("+1666", "x").check_code_at(0).unwrap_err();
    assert_eq!(error.detail, "phone not found");
}

#[test]
fn failed_delivery_stores_nothing_and_does_not_limit_the_retry() {
    let (mut service, store, sender) = setup(&["111111", "222222", "333333"]);
    assert_eq!(send_at(&mut service, &store, "+1555", 0), Ok(()));
    sender.fails.set(true);
    let error = {
        store.clock.set(100);
        service.send_service("+1555").send_code_at(100).unwrap_err()
    };
    assert_eq!(error.kind, ErrorKind::DeliveryFailed);
    assert_eq!(error.detail, "no signal");
    assert_eq!(store.record("+1555").unwrap().code, "111111");
    sender.fails.set(false);
    assert_eq!(send_at(&mut service, &store, "+1555", 101), Ok(()));
    assert_eq!(store.record("+1555").unwrap().code, "333333");
    assert_eq!(store.record("+1555").unwrap().sent_at, 101);
}

#[test]
fn failed_write_is_reported_after_the_code_was_delivered() {
    let (mut service, store, sender) = setup(&["111111"]);
    store.put_fails.set(true);
    let error = service.send_service("+1555").send_code_at(0).unwrap_err();
    assert_eq!(error.kind, ErrorKind::PersistenceFailed);
    assert_eq!(error.detail, "disk full");
    assert_eq!(sender.sent.borrow().len(), 1);
    assert!(store.record("+1555").is_none());
    assert_eq!(check_at(&mut service, "+1555", "111111", 0), Err(ErrorKind::UnknownIdentifier));
}

#[test]
fn failed_lookup_is_reported_by_both_operations() {
    let (mut service, store, sender) = setup(&["111111"]);
    store.get_fails.set(true);
    let error = service.send_service("+1555").send_code_at(0).unwrap_err();
    assert_eq!(error.kind, ErrorKind::LookupFailed);
    assert_eq!(error.detail, "store is down");
    assert!(sender.sent.borrow().is_empty());
    let error = service.verify_service("+1555", "111111").check_code_at(0).unwrap_err();
    assert_eq!(error.kind, ErrorKind::LookupFailed);
    assert_eq!(error.detail, "store is down");
}

#[test]
fn phones_are_limited_independently() {
    let (mut service, store, _sender) = setup(&["111111", "222222"]);
    assert_eq!(send_at(&mut service, &store, "+1555", 0), Ok(()));
    assert_eq!(send_at(&mut service, &store, "+1666", 1), Ok(()));
    assert_eq!(check_at(&mut service, "+1555", "111111", 2), Ok(true));
    assert_eq!(check_at(&mut service, "+1666", "222222", 2), Ok(true));
    assert_eq!(check_at(&mut service, "+1666", "111111", 2), Ok(false));
}

#[test]
fn prepared_operations_carry_the_configuration() {
    let (mut service, _store, _sender) = setup(&[]);
    let send = service.send_service("+1555");
    assert_eq!(send.phone(), "+1555");
    assert_eq!(send.min_interval(), 60);
    let verify = service.verify_service("+1555", "123456");
    assert_eq!(verify.phone(), "+1555");
    assert_eq!(verify.code(), "123456");
    assert_eq!(verify.expire_after(), 300);
}

#[test]
fn first_check_of_a_phone_keeps_the_code_it_was_given() {
    let (mut service, _store, _sender) = setup(&[]);
    assert!(!service.has_locker("+1777"));
    let verify = service.verify_service("+1777", "424242");
    assert_eq!(verify.code(), "424242");
    assert!(service.has_locker("+1777"));
}

#[test]
fn one_lock_is_filed_per_phone_and_shared_by_its_operations() {
    let (mut service, _store, _sender) = setup(&[]);
    assert!(!service.has_locker("+1555"));
    let first = service.send_service("+1555");
    assert!(service.has_locker("+1555"));
    assert!(!service.has_locker("+1666"));
    let second = service.send_service("+1555");
    let third = service.verify_service("+1555", "123456");
    let other = service.verify_service("+1666", "123456");
    assert!(service.has_locker("+1666"));
    assert!(Arc::ptr_eq(&first.locker(), &second.locker()));
    assert!(Arc::ptr_eq(&first.locker(), &third.locker()));
    assert!(!Arc::ptr_eq(&first.locker(), &other.locker()));
}

#[test]
fn a_held_lock_excludes_the_same_phone_only() {
    let (mut service, _store, _sender) = setup(&[]);
    let first = service.send_service("+1555").locker();
    let second = service.verify_service("+1555", "1").locker();
    let other = service.send_service("+1666").locker();
    let guard = first.try_lock().unwrap();
    assert!(second.try_lock().is_err());
    assert!(other.try_lock().is_ok());
    drop(guard);
    assert!(second.try_lock().is_ok());
}

#[test]
fn send_code_reads_the_machines_clock() {
    let store = WallClockStore { records: Rc::new(RefCell::new(HashMap::new())) };
    let mut service = Service::new(3600, 3600, FakeSender, store.clone(), RandomGenerator);
    assert!(service.send_service("+1555").send_code().is_ok());
    let code = store.records.borrow().get("+1555").unwrap().code.clone();
    assert_eq!(code.len(), 6);
    let error = service.send_service("+1555").send_code().unwrap_err();
    assert_eq!(error.kind, ErrorKind::RateLimited);
    assert_eq!(service.verify_service("+1555", &code).check_code().unwrap(), true);
    assert_eq!(service.verify_service("+1555", "not it").check_code().unwrap(), false);
}

#[test]
fn check_code_rejects_a_code_that_expired_long_ago() {
    let store = WallClockStore { records: Rc::new(RefCell::new(HashMap::new())) };
    store
        .records
        .borrow_mut()
        .insert("+1555".to_string(), SMSVerificationCode::new("+1555", "123456", 1_000));
    let mut service = Service::new(60, 300, FakeSender, store.clone(), RandomGenerator);
    assert_eq!(service.verify_service("+1555", "123456").check_code().unwrap(), false);
    assert!(service.send_service("+1555").send_code().is_ok());
    assert!(store.records.borrow().get("+1555").unwrap().sent_at > 1_000);
}
