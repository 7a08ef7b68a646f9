use newsletter::domain::{SubscriberEmail, SubscriberName, SubscriberStatus};
use newsletter::email_client::EmailClient;
use newsletter::helpers::{error_chain_fmt, AppError};
use newsletter::secret::SecretString;
use newsletter::store::SubscriptionStore;
use newsletter::subscriptions::subscribe_form;
use newsletter::subscriptions_confirm::{confirm, ConfirmError, Parameters};
use newsletter::token::issue_token;

const APP_BASE: &str = "http://127.0.0.1:8000";

fn email_client() -> EmailClient {
    EmailClient::new(
        "http://esp.example".to_string(),
        SubscriberEmail::parse("sender@example.com".to_string()).unwrap(),
        SecretString::new("user".to_string()),
        SecretString::new("pass".to_string()),
        200,
    )
}

fn seed() -> Vec<u8> {
    (10u8..42).collect()
}

fn signed_up_store() -> SubscriptionStore {
    let mut store = SubscriptionStore::new();
    let client = email_client();
    let body = "name=le%20guin&email=ursula_le_guin%40gmail.com";
    let response = subscribe_form(&mut store, &client, APP_BASE, body, &seed());
    assert_eq!(response.status, 200);
    store
}

#[test]
fn confirming_the_issued_token_confirms_the_subscriber() {
    let mut store = signed_up_store();
    let parameters = Parameters { subscription_token: issue_token(&seed()) };
    let outcome = confirm(&mut store, &parameters);
    assert!(outcome.is_ok());
    let saved = store.subscriber_at(0);
    assert_eq!(saved.email, "ursula_le_guin@gmail.com");
    assert_eq!(saved.status, SubscriberStatus::Confirmed);
}

#[test]
fn confirming_the_same_token_twice_still_succeeds() {
    let mut store = signed_up_store();
    let parameters = Parameters { subscription_token: issue_token(&seed()) };
    assert!(confirm(&mut store, &parameters).is_ok());
    assert!(confirm(&mut store, &parameters).is_ok());
    assert_eq!(store.subscriber_at(0).status, SubscriberStatus::Confirmed);
    assert_eq!(store.subscriber_count(), 1);
    assert_eq!(store.token_count(), 1);
}

#[test]
fn unknown_and_malformed_tokens_get_the_same_not_found_outcome() {
    let mut store = signed_up_store();
    let unknown = Parameters { subscription_token: "A".repeat(25) };
    let malformed = Parameters { subscription_token: "!!! not a token ???".to_string() };
    let empty = Parameters { subscription_token: String::new() };
    for parameters in [unknown, malformed, empty] {
        let outcome = confirm(&mut store, &parameters);
        let error = outcome.unwrap_err();
        assert!(matches!(error, ConfirmError::MissingSubscriberError(_)));
        assert_eq!(error.status_code(), 404);
        assert_eq!(error.describe(), "Invalid subscription token\n");
    }
    assert_eq!(store.subscriber_at(0).status, SubscriberStatus::PendingConfirmation);
}

#[test]
fn confirm_surfaces_a_storage_outage_as_a_server_error() {
    let mut store = signed_up_store();
    store.set_available(false);
    let parameters = Parameters { subscription_token: issue_token(&seed()) };
    let outcome = confirm(&mut store, &parameters);
    let error = outcome.unwrap_err();
    assert!(matches!(error, ConfirmError::UnexpectedError(_)));
    assert_eq!(error.status_code(), 500);
    let rendered = error.describe();
    assert_eq!(
        rendered,
        "Unable to retrieve subscriber id from token\nCaused by: the storage layer is unreachable\n"
    );
    store.set_available(true);
    assert_eq!(store.subscriber_at(0).status, SubscriberStatus::PendingConfirmation);
}

#[test]
fn a_sign_up_followed_by_its_confirmation_round_trips() {
    let mut store = SubscriptionStore::new();
    let client = email_client();
    let body = "name=le%20guin&email=ursula_le_guin%40gmail.com";
    let response = subscribe_form(&mut store, &client, APP_BASE, body, &seed());
    assert_eq!(response.status, 200);
    let request = response.dispatch.unwrap();
    let marker = "subscription_token=";
    let start = request.body.find(marker).unwrap() + marker.len();
    let token: String = request.body[start..].chars().take(25).collect();
    let parameters = Parameters { subscription_token: token };
    assert!(confirm(&mut store, &parameters).is_ok());
    assert_eq!(store.subscriber_at(0).status, SubscriberStatus::Confirmed);
}

#[test]
fn error_chain_fmt_walks_the_whole_cause_chain() {
    let root = AppError::new("connection refused".to_string());
    let middle = AppError::with_cause("could not reach the database".to_string(), root);
    let outer = AppError::with_cause("failed to store the subscriber".to_string(), middle);
    let rendered = error_chain_fmt(&outer);
    assert_eq!(
        rendered,
        "failed to store the subscriber\nCaused by: could not reach the database\nCaused by: connection refused\n"
    );
}
