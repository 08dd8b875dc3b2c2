use sms_verification::entities::SMSVerificationCode;
use sms_verification::errors::ErrorKind;
use sms_verification::issuance::{SendEvent, SendState};

fn fetched(latest: Option<SMSVerificationCode>, now: i64) -> SendEvent {
    SendEvent::Fetched { found: Ok(latest), now }
}

fn generated(code: &str) -> SendEvent {
    SendEvent::Generated { code: code.to_string() }
}

fn delivering(code: &str) -> SendState {
    SendState::Delivering { code: code.to_string() }
}

fn persisting(code: &str) -> SendState {
    SendState::Persisting { code: code.to_string() }
}

#[test]
fn an_issuance_starts_by_fetching() {
    assert!(matches!(SendState::start(), SendState::Fetching));
}

#[test]
fn no_record_leads_to_generating() {
    let next = SendState::start().step(fetched(None, 0), 60);
    assert!(matches!(next, SendState::Generating));
}

#[test]
fn an_old_record_leads_to_generating() {
    let latest = SMSVerificationCode::new("+1555", "123456", 0);
    let next = SendState::Fetching.step(fetched(Some(latest), 60), 60);
    assert!(matches!(next, SendState::Generating));
}

#[test]
fn a_young_record_ends_as_rate_limited() {
    let latest = SMSVerificationCode::new("+1555", "123456", 0);
    let next = SendState::Fetching.step(fetched(Some(latest), 59), 60);
    match next {
        SendState::Done { result: Err(error) } => {
            assert_eq!(error.kind, ErrorKind::RateLimited);
            assert_eq!(error.detail, "Too frequent");
        }
        other => panic!("unexpected state {:?}", other),
    }
}

#[test]
fn a_failed_lookup_ends_the_issuance() {
    let event = SendEvent::Fetched { found: Err("store is down".to_string()), now: 5 };
    match SendState::Fetching.step(event, 60) {
        SendState::Done { result: Err(error) } => {
            assert_eq!(error.kind, ErrorKind::LookupFailed);
            assert_eq!(error.detail, "store is down");
        }
        other => panic!("unexpected state {:?}", other),
    }
}

#[test]
fn a_generated_code_is_delivered_next() {
    match SendState::Generating.step(generated("004200"), 60) {
        SendState::Delivering { code } => assert_eq!(code, "004200"),
        other => panic!("unexpected state {:?}", other),
    }
}

#[test]
fn a_delivered_code_is_persisted_next() {
    match delivering("004200").step(SendEvent::Delivered { outcome: Ok(()) }, 60) {
        SendState::Persisting { code } => assert_eq!(code, "004200"),
        other => panic!("unexpected state {:?}", other),
    }
}

#[test]
fn a_failed_delivery_ends_the_issuance() {
    let event = SendEvent::Delivered { outcome: Err("no signal".to_string()) };
    match delivering("004200").step(event, 60) {
        SendState::Done { result: Err(error) } => {
            assert_eq!(error.kind, ErrorKind::DeliveryFailed);
            assert_eq!(error.detail, "no signal");
        }
        other => panic!("unexpected state {:?}", other),
    }
}

#[test]
fn a_persisted_code_ends_the_issuance_with_success() {
    let next = persisting("004200").step(SendEvent::Persisted { outcome: Ok(()) }, 60);
    assert!(matches!(next, SendState::Done { result: Ok(()) }));
}

#[test]
fn a_failed_write_ends_the_issuance() {
    let event = SendEvent::Persisted { outcome: Err("disk full".to_string()) };
    match persisting("004200").step(event, 60) {
        SendState::Done { result: Err(error) } => {
            assert_eq!(error.kind, ErrorKind::PersistenceFailed);
            assert_eq!(error.detail, "disk full");
        }
        other => panic!("unexpected state {:?}", other),
    }
}

#[test]
fn an_answer_that_was_not_asked_for_changes_nothing() {
    assert!(matches!(SendState::Fetching.step(generated("1"), 60), SendState::Fetching));
    assert!(matches!(
        SendState::Fetching.step(SendEvent::Delivered { outcome: Ok(()) }, 60),
        SendState::Fetching
    ));
    assert!(matches!(
        SendState::Generating.step(fetched(None, 0), 60),
        SendState::Generating
    ));
    match delivering("7").step(SendEvent::Persisted { outcome: Ok(()) }, 60) {
        SendState::Delivering { code } => assert_eq!(code, "7"),
        other => panic!("unexpected state {:?}", other),
    }
    match persisting("7").step(SendEvent::Delivered { outcome: Err("x".to_string()) }, 60) {
        SendState::Persisting { code } => assert_eq!(code, "7"),
        other => panic!("unexpected state {:?}", other),
    }
}

#[test]
fn a_finished_issuance_stays_finished() {
    let done = SendState::Done { result: Ok(()) };
    let next = done.step(fetched(None, 0), 60);
    assert!(matches!(next, SendState::Done { result: Ok(()) }));
    let next = next.step(SendEvent::Persisted { outcome: Err("late".to_string()) }, 60);
    assert!(matches!(next, SendState::Done { result: Ok(()) }));
}

#[test]
fn a_whole_issuance_takes_four_answers() {
    let state = SendState::start();
    let state = state.step(fetched(None, 1_700_000_000), 60);
    let state = state.step(generated("123456"), 60);
    let state = state.step(SendEvent::Delivered { outcome: Ok(()) }, 60);
    let state = state.step(SendEvent::Persisted { outcome: Ok(()) }, 60);
    assert!(matches!(state, SendState::Done { result: Ok(()) }));
}
