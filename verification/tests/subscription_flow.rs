use zero2prod::domain::{FormData, NewSubscriber};
use zero2prod::errors::SubscribeError;
use zero2prod::store::{SubscriberStatus, SubscriptionStore};
use zero2prod::subscription::{generate_subscription_token, subscribe, subscribe_with};

const BASE_URL: &str = "http://127.0.0.1:8000";
const NOW: u64 = 1700000000;

fn valid_form() -> FormData {
    FormData {
        name: "le guin".to_string(),
        email: "ursula_le_guin@gmail.com".to_string(),
    }
}

#[test]
fn subscribe_persists_one_pending_subscriber() {
    let mut store = SubscriptionStore::new();
    let receipt = subscribe(&mut store, valid_form(), NOW, BASE_URL);
    assert!(receipt.is_ok());

    let rows = store.subscribers();
    assert_eq!(rows.len(), 1);
    assert_eq!(rows[0].email, "ursula_le_guin@gmail.com");
    assert_eq!(rows[0].name, "le guin");
    assert_eq!(rows[0].subscribed_at, NOW);
    assert_eq!(rows[0].status, SubscriberStatus::PendingConfirmation);

    let tokens = store.tokens();
    assert_eq!(tokens.len(), 1);
    assert_eq!(tokens[0].subscriber_id, rows[0].id);
}

#[test]
fn subscribe_issues_a_25_character_alphanumeric_token() {
    let mut store = SubscriptionStore::new();
    subscribe(&mut store, valid_form(), NOW, BASE_URL).unwrap();
    let token = &store.tokens()[0].token;
    assert_eq!(token.chars().count(), 25);
    assert!(token.chars().all(|c| c.is_ascii_alphanumeric()));
}

#[test]
fn subscribe_returns_the_confirmation_email_with_a_link() {
    let mut store = SubscriptionStore::new();
    let message = subscribe(&mut store, valid_form(), NOW, BASE_URL).unwrap();
    let token = store.tokens()[0].token.clone();
    let link = format!(
        "{}/subscriptions/confirm?subscription_token={}",
        BASE_URL, token
    );
    assert_eq!(message.recipient.as_str(), "ursula_le_guin@gmail.com");
    assert_eq!(message.subject, "Welcome!");
    assert!(message.html_content.contains(&link));
    assert!(message.text_content.contains(&link));
    assert_eq!(
        message.html_content,
        format!(
            "Welcome to our newsletter!<br />Click <a href=\"{}\">here</a> to confirm your subscription.",
            link
        )
    );
    assert_eq!(
        message.text_content,
        format!("Welcome to our newsletter!\nVisit {} to confirm your subscription.", link)
    );
}

#[test]
fn subscribe_rejects_invalid_fields_and_persists_nothing() {
    let cases = [
        ("", "ursula_le_guin@gmail.com", "empty name"),
        ("Ursula", "", "empty email"),
        ("Ursula", "definitely-not-an-email", "invalid email"),
        ("", "", "both empty"),
    ];
    for (name, email, description) in cases {
        let mut store = SubscriptionStore::new();
        let outcome = subscribe(
            &mut store,
            FormData {
                name: name.to_string(),
                email: email.to_string(),
            },
            NOW,
            BASE_URL,
        );
        match outcome {
            Err(e @ SubscribeError::ValidationError(_)) => {
                assert_eq!(e.status_code(), 400, "wrong status for {}", description);
            }
            _ => panic!("no validation error for {}", description),
        }
        assert_eq!(store.subscribers().len(), 0, "state changed for {}", description);
        assert_eq!(store.tokens().len(), 0, "state changed for {}", description);
    }
}

#[test]
fn subscribe_with_duplicate_id_is_an_unexpected_error() {
    let mut store = SubscriptionStore::new();
    subscribe_with(&mut store, valid_form(), 7, "tokenone", NOW, BASE_URL).unwrap();
    let form = FormData {
        name: "Ursula".to_string(),
        email: "other@example.com".to_string(),
    };
    let outcome = subscribe_with(&mut store, form, 7, "tokentwo", NOW, BASE_URL);
    match outcome {
        Err(e @ SubscribeError::UnexpectedError(_)) => {
            assert_eq!(e.status_code(), 500);
            match e {
                SubscribeError::UnexpectedError(chain) => {
                    assert_eq!(
                        chain.messages,
                        vec![
                            "Failed to insert new subscriber in the DB.".to_string(),
                            "duplicate subscriber id".to_string(),
                        ]
                    );
                }
                _ => unreachable!(),
            }
        }
        _ => panic!("duplicate subscriber id was not rejected"),
    }
    assert_eq!(store.subscribers().len(), 1);
    assert_eq!(store.tokens().len(), 1);
}

#[test]
fn subscribe_with_duplicate_token_is_an_unexpected_error() {
    let mut store = SubscriptionStore::new();
    subscribe_with(&mut store, valid_form(), 7, "sametoken", NOW, BASE_URL).unwrap();
    let form = FormData {
        name: "Ursula".to_string(),
        email: "other@example.com".to_string(),
    };
    let outcome = subscribe_with(&mut store, form, 8, "sametoken", NOW, BASE_URL);
    match outcome {
        Err(SubscribeError::UnexpectedError(chain)) => {
            assert_eq!(
                chain.messages,
                vec![
                    "Failed to store token".to_string(),
                    "duplicate subscription token".to_string(),
                ]
            );
        }
        _ => panic!("duplicate token was not rejected"),
    }
    assert_eq!(store.subscribers().len(), 1, "the paired insert was not rolled back");
    assert_eq!(store.tokens().len(), 1);
}

#[test]
fn generated_tokens_are_well_formed_and_fresh() {
    let one = generate_subscription_token();
    let two = generate_subscription_token();
    assert_eq!(one.chars().count(), 25);
    assert_eq!(two.chars().count(), 25);
    assert!(one.chars().all(|c| c.is_ascii_alphanumeric()));
    assert!(two.chars().all(|c| c.is_ascii_alphanumeric()));
    assert_ne!(one, two);
}

#[test]
fn insert_subscriber_assigns_fresh_ids() {
    let mut store = SubscriptionStore::new();
    let first = NewSubscriber::try_from(valid_form()).unwrap();
    let second = NewSubscriber::try_from(FormData {
        name: "Ursula".to_string(),
        email: "other@example.com".to_string(),
    })
    .unwrap();
    let id_one = store.insert_subscriber(&first, NOW).unwrap();
    let id_two = store.insert_subscriber(&second, NOW).unwrap();
    assert_ne!(id_one, id_two);
    let rows = store.subscribers();
    assert_eq!(rows.len(), 2);
    assert_eq!(rows[0].id, id_one);
    assert_eq!(rows[1].id, id_two);
    assert_eq!(rows[0].status, SubscriberStatus::PendingConfirmation);
    assert_eq!(rows[1].status, SubscriberStatus::PendingConfirmation);
}

#[test]
fn store_rejects_a_token_for_an_unknown_subscriber() {
    let mut store = SubscriptionStore::new();
    assert!(store.store_token(42, "sometokenvalue").is_err());
    assert_eq!(store.tokens().len(), 0);
}
