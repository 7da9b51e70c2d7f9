use fake::faker::internet::en::SafeEmail;
use fake::Fake;
use zero2prod::domain::{FormData, NewSubscriber, SubscriberEmail, SubscriberName};

#[test]
fn empty_is_rejected() {
    let email = "".to_string();
    assert!(SubscriberEmail::parse(email).is_err());
}

#[test]
fn email_symbol_missing_is_rejected() {
    let email = "datnguyen.com".to_string();
    assert!(SubscriberEmail::parse(email).is_err());
}

#[test]
fn missing_object_is_rejected() {
    let email = "@gmail.com".to_string();
    assert!(SubscriberEmail::parse(email).is_err());
}

#[test]
fn valid_email_is_accepted() {
    let email: String = SafeEmail().fake();
    assert!(SubscriberEmail::parse(email).is_ok());
}

#[test]
fn missing_domain_is_rejected() {
    let email = "ursula@".to_string();
    assert!(SubscriberEmail::parse(email).is_err());
}

#[test]
fn accepted_email_is_kept_verbatim() {
    let email = SubscriberEmail::parse("ursula_le_guin@gmail.com".to_string()).unwrap();
    assert_eq!(email.as_str(), "ursula_le_guin@gmail.com");
}

#[test]
fn name_with_content_is_accepted() {
    let name = SubscriberName::parse("le guin".to_string()).unwrap();
    assert_eq!(name.as_str(), "le guin");
}

#[test]
fn empty_name_is_rejected() {
    assert!(SubscriberName::parse("".to_string()).is_err());
}

#[test]
fn whitespace_only_name_is_rejected() {
    assert!(SubscriberName::parse(" \t\n".to_string()).is_err());
}

#[test]
fn overlong_name_is_rejected() {
    let name = "a".repeat(257);
    assert!(SubscriberName::parse(name).is_err());
}

#[test]
fn name_of_maximal_length_is_accepted() {
    let name = "a".repeat(256);
    assert!(SubscriberName::parse(name).is_ok());
}

#[test]
fn name_with_forbidden_character_is_rejected() {
    for candidate in ["/", "(", ")", "\"", "<", ">", "\\", "{", "}"] {
        let name = format!("le {} guin", candidate);
        assert!(
            SubscriberName::parse(name).is_err(),
            "accepted a name holding {}",
            candidate
        );
    }
}

#[test]
fn rejected_email_message_names_the_input() {
    let message = SubscriberEmail::parse("datnguyen.com".to_string()).unwrap_err();
    assert_eq!(message, "datnguyen.com is invalid email format");
}

#[test]
fn rejected_name_message_is_fixed() {
    let message = SubscriberName::parse("".to_string()).unwrap_err();
    assert_eq!(message, "invalid subscriber name");
}

#[test]
fn form_error_reports_the_email_first() {
    let form = FormData {
        name: "".to_string(),
        email: "definitely-not-an-email".to_string(),
    };
    let message = NewSubscriber::try_from(form).unwrap_err();
    assert_eq!(message, "definitely-not-an-email is invalid email format");
}

#[test]
fn form_with_valid_fields_parses() {
    let form = FormData {
        name: "le guin".to_string(),
        email: "ursula_le_guin@gmail.com".to_string(),
    };
    let parsed = NewSubscriber::try_from(form).unwrap();
    assert_eq!(parsed.email.as_str(), "ursula_le_guin@gmail.com");
    assert_eq!(parsed.name.as_str(), "le guin");
}

#[test]
fn form_with_invalid_email_is_rejected() {
    let form = FormData {
        name: "Ursula".to_string(),
        email: "definitely-not-an-email".to_string(),
    };
    assert!(NewSubscriber::try_from(form).is_err());
}
