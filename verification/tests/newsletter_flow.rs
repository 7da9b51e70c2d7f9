use zero2prod::confirm::confirm;
use zero2prod::domain::FormData;
use zero2prod::errors::{error_chain_fmt, ErrorChain, PublishError};
use zero2prod::publish::{BodyData, NewsletterDispatch};
use zero2prod::store::SubscriptionStore;
use zero2prod::subscription::subscribe;

const BASE_URL: &str = "http://127.0.0.1:8000";
const NOW: u64 = 1700000000;

fn add_subscriber(store: &mut SubscriptionStore, name: &str, email: &str, confirmed: bool) {
    subscribe(
        store,
        FormData {
            name: name.to_string(),
            email: email.to_string(),
        },
        NOW,
        BASE_URL,
    )
    .unwrap();
    if confirmed {
        let token = store.tokens().last().unwrap().token.clone();
        confirm(store, Some(token.as_str())).unwrap();
    }
}

#[test]
fn newsletters_are_not_delivered_to_unconfirmed_subscribers() {
    let mut store = SubscriptionStore::new();
    add_subscriber(&mut store, "dat", "bacbia@gmai.com", false);

    let run = NewsletterDispatch::prepare(&store);
    assert!(run.next_recipient().is_none());
    assert!(run.outcome().is_ok());
}

#[test]
fn newsletters_are_delivered_to_confirmed_subscribers() {
    let mut store = SubscriptionStore::new();
    add_subscriber(&mut store, "le guin", "ursula_le_guin@gmail.com", true);

    let mut run = NewsletterDispatch::prepare(&store);
    let first = run.next_recipient().expect("no recipient offered").as_str().to_string();
    assert_eq!(first, "ursula_le_guin@gmail.com");
    run.record_sent();
    assert!(run.next_recipient().is_none(), "more than one dispatch was asked for");
    assert!(run.outcome().is_ok());
}

#[test]
fn newsletters_go_only_to_the_confirmed_subscriber() {
    let mut store = SubscriptionStore::new();
    add_subscriber(&mut store, "dat", "bacbia@gmai.com", false);
    add_subscriber(&mut store, "le guin", "ursula_le_guin@gmail.com", true);

    let mut run = NewsletterDispatch::prepare(&store);
    let first = run.next_recipient().expect("no recipient offered").as_str().to_string();
    assert_eq!(first, "ursula_le_guin@gmail.com");
    run.record_sent();
    assert!(run.next_recipient().is_none());
    assert_eq!(run.warnings().len(), 0);
    assert!(run.outcome().is_ok());
}

#[test]
fn a_dispatch_failure_aborts_the_remaining_sends() {
    let mut store = SubscriptionStore::new();
    add_subscriber(&mut store, "le guin", "ursula_le_guin@gmail.com", true);
    add_subscriber(&mut store, "dat", "bacbia@gmai.com", true);

    let mut run = NewsletterDispatch::prepare(&store);
    let first = run.next_recipient().expect("no recipient offered").as_str().to_string();
    assert_eq!(first, "ursula_le_guin@gmail.com");
    run.record_failure("the email API answered with status 500".to_string());
    assert!(
        run.next_recipient().is_none(),
        "the batch went on after a dispatch failure"
    );
    match run.outcome() {
        Err(e @ PublishError::UnexpectedError(_)) => {
            assert_eq!(e.status_code(), 500);
            match e {
                PublishError::UnexpectedError(chain) => {
                    assert_eq!(
                        chain.messages,
                        vec![
                            "Failed to send newsletter issue to ursula_le_guin@gmail.com"
                                .to_string(),
                            "the email API answered with status 500".to_string(),
                        ]
                    );
                }
            }
        }
        _ => panic!("the aborted batch did not surface an error"),
    }
}

#[test]
fn newsletters_require_title_and_both_content_parts() {
    assert!(BodyData::from_parts(None, None, None).is_none());
    assert!(BodyData::from_parts(
        None,
        Some("<h1>html</h1>".to_string()),
        Some("text".to_string())
    )
    .is_none());
    assert!(BodyData::from_parts(Some("Newsletters".to_string()), None, None).is_none());
    let body = BodyData::from_parts(
        Some("Newsletters title".to_string()),
        Some("<h1>Hello<h1>".to_string()),
        Some("plain text".to_string()),
    )
    .expect("a complete payload was rejected");
    assert_eq!(body.title, "Newsletters title");
    assert_eq!(body.content.html, "<h1>Hello<h1>");
    assert_eq!(body.content.text, "plain text");
}

#[test]
fn the_store_lists_only_confirmed_emails() {
    let mut store = SubscriptionStore::new();
    add_subscriber(&mut store, "dat", "bacbia@gmai.com", false);
    add_subscriber(&mut store, "le guin", "ursula_le_guin@gmail.com", true);

    let entries = store.list_confirmed_emails();
    assert_eq!(entries.len(), 1);
    match &entries[0] {
        Ok(email) => assert_eq!(email.as_str(), "ursula_le_guin@gmail.com"),
        Err(_) => panic!("a stored valid email failed re-validation"),
    }
}

#[test]
fn the_error_chain_renders_outermost_message_first() {
    let chain = ErrorChain {
        messages: vec!["top".to_string(), "middle".to_string(), "root".to_string()],
    };
    assert_eq!(
        error_chain_fmt(&chain),
        "top\n\nCaused by:\n\tmiddle\nCaused by:\n\troot\n"
    );
    let lone = ErrorChain {
        messages: vec!["only".to_string()],
    };
    assert_eq!(error_chain_fmt(&lone), "only\n\n");
    let empty = ErrorChain { messages: vec![] };
    assert_eq!(error_chain_fmt(&empty), "");
}
