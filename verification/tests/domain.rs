use newsletter::domain::{SubscriberEmail, SubscriberName, SubscriberStatus, ValidationError};
use newsletter::secret::SecretString;
use newsletter::telemetry::{get_subscriber, init_subscriber};
use newsletter::token::issue_token;

#[test]
fn email_parse_accepts_a_plain_address() {
    let e = SubscriberEmail::parse("ursula_le_guin@gmail.com".to_string()).unwrap();
    assert_eq!(e.as_ref(), "ursula_le_guin@gmail.com");
}

#[test]
fn email_parse_rejects_text_without_an_at_sign() {
    assert!(SubscriberEmail::parse("definitely-not-an-email".to_string()).is_err());
}

#[test]
fn email_parse_rejects_empty_and_lopsided_addresses() {
    assert!(SubscriberEmail::parse(String::new()).is_err());
    assert!(SubscriberEmail::parse("@gmail.com".to_string()).is_err());
    assert!(SubscriberEmail::parse("ursula@".to_string()).is_err());
    assert!(SubscriberEmail::parse("a@b@c".to_string()).is_err());
    assert!(SubscriberEmail::parse("ursula le@gmail.com".to_string()).is_err());
}

#[test]
fn email_parse_reports_the_email_error_kind() {
    let err = SubscriberEmail::parse("nope".to_string()).err().unwrap();
    assert_eq!(err, ValidationError::InvalidEmail);
}

#[test]
fn name_parse_accepts_a_name_with_spaces() {
    let n = SubscriberName::parse("le guin".to_string()).unwrap();
    assert_eq!(n.as_ref(), "le guin");
}

#[test]
fn name_parse_rejects_empty_and_whitespace_only() {
    assert!(SubscriberName::parse(String::new()).is_err());
    assert!(SubscriberName::parse("   ".to_string()).is_err());
}

#[test]
fn name_parse_rejects_overlong_and_forbidden_characters() {
    let long = "a".repeat(257);
    assert!(SubscriberName::parse(long).is_err());
    assert!(SubscriberName::parse("a".repeat(256)).is_ok());
    assert!(SubscriberName::parse("Ursula <Le Guin>".to_string()).is_err());
    assert!(SubscriberName::parse("Ursula\"".to_string()).is_err());
    assert!(SubscriberName::parse("Ursula\\".to_string()).is_err());
    let err = SubscriberName::parse("{}".to_string()).err().unwrap();
    assert_eq!(err, ValidationError::InvalidName);
}

#[test]
fn token_is_fixed_length_alphanumeric_and_deterministic_in_the_seed() {
    let seed: Vec<u8> = (0u8..32).collect();
    let t = issue_token(&seed);
    assert_eq!(t.len(), 25);
    assert!(t.chars().all(|c| c.is_ascii_alphanumeric()));
    assert_eq!(t, "0123456789ABCDEFGHIJKLMNO");
    let again = issue_token(&seed);
    assert_eq!(t, again);
    let other = issue_token(&[61u8; 32]);
    assert_eq!(other, "z".repeat(25));
    assert_ne!(t, other);
}

#[test]
fn secret_string_redacts_and_exposes_explicitly() {
    let s = SecretString::new("SECRET-REDACTED".to_string());
    assert_eq!(s.redacted(), "[REDACTED]");
    assert_eq!(s.expose_secret().as_str(), "SECRET-REDACTED");
}

#[test]
fn status_values_are_distinct() {
    assert_ne!(SubscriberStatus::PendingConfirmation, SubscriberStatus::Confirmed);
}

#[test]
fn telemetry_drops_records_until_initialized() {
    let mut t = get_subscriber("newsletter".to_string(), "info".to_string());
    t.record("dropped line".to_string());
    assert_eq!(t.record_count(), 0);
    init_subscriber(&mut t);
    t.record("kept line".to_string());
    assert_eq!(t.record_count(), 1);
    assert_eq!(t.record_at(0).as_str(), "kept line");
}
