use zero2prod::confirm::confirm;
use zero2prod::domain::FormData;
use zero2prod::errors::ConfirmError;
use zero2prod::store::{SubscriberStatus, SubscriptionStore};
use zero2prod::subscription::subscribe;

const BASE_URL: &str = "http://127.0.0.1:8000";
const NOW: u64 = 1700000000;

fn store_with_pending_subscriber() -> (SubscriptionStore, String) {
    let mut store = SubscriptionStore::new();
    subscribe(
        &mut store,
        FormData {
            name: "le guin".to_string(),
            email: "ursula_le_guin@gmail.com".to_string(),
        },
        NOW,
        BASE_URL,
    )
    .unwrap();
    let token = store.tokens()[0].token.clone();
    (store, token)
}

#[test]
fn confirming_the_issued_token_confirms_the_subscriber() {
    let (mut store, token) = store_with_pending_subscriber();
    assert!(confirm(&mut store, Some(token.as_str())).is_ok());
    let rows = store.subscribers();
    assert_eq!(rows.len(), 1);
    assert_eq!(rows[0].email, "ursula_le_guin@gmail.com");
    assert_eq!(rows[0].name, "le guin");
    assert_eq!(rows[0].status, SubscriberStatus::Confirmed);
}

#[test]
fn confirming_twice_succeeds_and_changes_nothing_further() {
    let (mut store, token) = store_with_pending_subscriber();
    assert!(confirm(&mut store, Some(token.as_str())).is_ok());
    assert!(confirm(&mut store, Some(token.as_str())).is_ok());
    let rows = store.subscribers();
    assert_eq!(rows.len(), 1);
    assert_eq!(rows[0].status, SubscriberStatus::Confirmed);
    assert_eq!(store.tokens().len(), 1, "the token is not deleted by redemption");
}

#[test]
fn confirming_an_unknown_token_mutates_no_state() {
    let (mut store, _token) = store_with_pending_subscriber();
    let outcome = confirm(&mut store, Some("notavalidsubscriptiontokn"));
    match outcome {
        Err(e @ ConfirmError::TokenNotFound) => assert_eq!(e.status_code(), 400),
        _ => panic!("an unknown token was accepted"),
    }
    assert_eq!(store.subscribers()[0].status, SubscriberStatus::PendingConfirmation);
    assert_eq!(store.tokens().len(), 1);
}

#[test]
fn confirming_without_a_token_is_rejected() {
    let mut store = SubscriptionStore::new();
    let outcome = confirm(&mut store, None);
    match outcome {
        Err(e @ ConfirmError::TokenNotFound) => assert_eq!(e.status_code(), 400),
        _ => panic!("a missing token was accepted"),
    }
}

#[test]
fn the_store_resolves_tokens_to_their_owner() {
    let (store, token) = store_with_pending_subscriber();
    let owner = store.find_subscriber_by_token(token.as_str());
    assert_eq!(owner, Some(store.subscribers()[0].id));
    assert_eq!(store.find_subscriber_by_token("somethingelseentirely"), None);
}

#[test]
fn marking_an_unknown_subscriber_confirmed_fails() {
    let mut store = SubscriptionStore::new();
    assert!(store.mark_confirmed(99).is_err());
}
