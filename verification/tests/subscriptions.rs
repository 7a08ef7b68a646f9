use newsletter::domain::{SubscriberEmail, SubscriberName, SubscriberStatus};
use newsletter::email_client::{delivery_result, EmailClient, SendOutcome};
use newsletter::form::parse_form;
use newsletter::secret::SecretString;
use newsletter::store::{StoreError, SubscriptionStore};
use newsletter::subscriptions::subscribe_form;
use newsletter::token::issue_token;

const APP_BASE: &str = "http://127.0.0.1:8000";
const VALID_BODY: &str = "name=le%20guin&email=ursula_le_guin%40gmail.com";

fn email_client() -> EmailClient {
    EmailClient::new(
        "http://esp.example".to_string(),
        SubscriberEmail::parse("sender@example.com".to_string()).unwrap(),
        SecretString::new("user".to_string()),
        SecretString::new("pass".to_string()),
        200,
    )
}

fn seed() -> Vec<u8> {
    (100u8..132).collect()
}

#[test]
fn parse_form_decodes_percent_escapes_and_plus() {
    let form = parse_form("name=le%20guin&email=ursula_le_guin%40gmail.com").unwrap();
    assert_eq!(form.name, "le guin");
    assert_eq!(form.email, "ursula_le_guin@gmail.com");
    let plus = parse_form("email=a%40b.example&name=le+guin").unwrap();
    assert_eq!(plus.name, "le guin");
    assert_eq!(plus.email, "a@b.example");
}

#[test]
fn parse_form_rejects_missing_fields_and_bad_escapes() {
    assert!(parse_form("").is_none());
    assert!(parse_form("name=le%20guin").is_none());
    assert!(parse_form("email=ursula%40gmail.com").is_none());
    assert!(parse_form("name=bad%zzescape&email=a%40b.example").is_none());
    assert!(parse_form("name=truncated%2&email=a%40b.example").is_none());
}

#[test]
fn subscribe_returns_a_200_for_valid_form_data() {
    let mut store = SubscriptionStore::new();
    let client = email_client();
    let response = subscribe_form(&mut store, &client, APP_BASE, VALID_BODY, &seed());
    assert_eq!(response.status, 200);
    let request = response.dispatch.unwrap();
    assert_eq!(request.method, "POST");
    assert_eq!(request.url, "http://esp.example/v3.1/send");
}

#[test]
fn subscribe_persists_the_new_subscriber() {
    let mut store = SubscriptionStore::new();
    let client = email_client();
    let response = subscribe_form(&mut store, &client, APP_BASE, VALID_BODY, &seed());
    assert_eq!(response.status, 200);
    assert_eq!(store.subscriber_count(), 1);
    let saved = store.subscriber_at(0);
    assert_eq!(saved.email, "ursula_le_guin@gmail.com");
    assert_eq!(saved.name, "le guin");
    assert_eq!(saved.status, SubscriberStatus::PendingConfirmation);
}

#[test]
fn subscribe_returns_a_400_when_data_is_missing() {
    let cases = vec![
        ("name=le%20guin", "missing the email"),
        ("email=ursula_la_guin%40@gmail.com", "missing the name"),
        ("", "missing both name and email"),
    ];
    for (body, description) in cases {
        let mut store = SubscriptionStore::new();
        let client = email_client();
        let response = subscribe_form(&mut store, &client, APP_BASE, body, &seed());
        assert_eq!(
            response.status, 400,
            "the handler did not fail with 400 Bad Request when the payload was {}.",
            description
        );
        assert!(response.dispatch.is_none());
        assert_eq!(store.subscriber_count(), 0);
    }
}

#[test]
fn subscribe_returns_a_400_when_fields_are_present_but_empty() {
    let cases = vec![
        ("name=&email=ursula_le_guin%40gmail.com", "name is empty"),
        ("name=Ursula&email=", "email is empty"),
        ("name=Ursula&email=definitely-not-an-email", "invalid email"),
    ];
    for (body, description) in cases {
        let mut store = SubscriptionStore::new();
        let client = email_client();
        let response = subscribe_form(&mut store, &client, APP_BASE, body, &seed());
        assert_eq!(
            response.status, 400,
            "the handler did not return a 400 Bad Request when the payload was {}.",
            description
        );
        assert!(response.dispatch.is_none());
        assert_eq!(store.subscriber_count(), 0);
        assert_eq!(store.token_count(), 0);
    }
}

#[test]
fn subscribe_sends_a_confirmation_email_for_valid_data() {
    let mut store = SubscriptionStore::new();
    let client = email_client();
    let response = subscribe_form(&mut store, &client, APP_BASE, VALID_BODY, &seed());
    assert_eq!(response.status, 200);
    let request = response.dispatch.unwrap();
    assert_eq!(request.url, "http://esp.example/v3.1/send");
    assert_eq!(request.method, "POST");
    assert!(request.body.contains("\"Email\":\"ursula_le_guin@gmail.com\""));
}

#[test]
fn subscribe_sends_a_confirmation_email_with_a_link() {
    let mut store = SubscriptionStore::new();
    let client = email_client();
    let response = subscribe_form(&mut store, &client, APP_BASE, VALID_BODY, &seed());
    assert_eq!(response.status, 200);
    let request = response.dispatch.unwrap();
    let token = issue_token(&seed());
    let link = format!("{}/subscriptions/confirm?subscription_token={}", APP_BASE, token);
    assert!(request.body.contains(&link));
    let text_part = request.body.split("\"TextPart\":\"").nth(1).unwrap();
    let html_part = request.body.split("\"HtmlPart\":\"").nth(1).unwrap();
    let text_body = text_part.split('\"').next().unwrap();
    let html_body = html_part.split('\"').next().unwrap();
    assert_eq!(text_body, html_body);
}

#[test]
fn subscribe_fails_if_there_is_a_fatal_database_error() {
    let mut store = SubscriptionStore::new();
    store.set_available(false);
    let client = email_client();
    let response = subscribe_form(&mut store, &client, APP_BASE, VALID_BODY, &seed());
    assert_eq!(response.status, 500);
    assert!(response.dispatch.is_none());
    store.set_available(true);
    assert_eq!(store.subscriber_count(), 0);
    assert_eq!(store.token_count(), 0);
}

#[test]
fn subscribe_rejects_a_duplicate_email_as_a_server_error() {
    let mut store = SubscriptionStore::new();
    let client = email_client();
    let first = subscribe_form(&mut store, &client, APP_BASE, VALID_BODY, &seed());
    assert_eq!(first.status, 200);
    let second = subscribe_form(&mut store, &client, APP_BASE, VALID_BODY, &[9u8; 32]);
    assert_eq!(second.status, 500);
    assert!(second.dispatch.is_none());
    assert_eq!(store.subscriber_count(), 1);
    assert_eq!(store.token_count(), 1);
}

#[test]
fn delivery_failure_leaves_the_subscriber_pending_and_the_response_unchanged() {
    let mut store = SubscriptionStore::new();
    let client = email_client();
    let response = subscribe_form(&mut store, &client, APP_BASE, VALID_BODY, &seed());
    assert_eq!(response.status, 200);
    let outcome = delivery_result(SendOutcome::Completed(500));
    assert!(outcome.is_err());
    let saved = store.subscriber_at(0);
    assert_eq!(saved.status, SubscriberStatus::PendingConfirmation);
}

#[test]
fn store_operations_enforce_their_constraints() {
    let mut store = SubscriptionStore::new();
    let email = SubscriberEmail::parse("a@b.example".to_string()).unwrap();
    let name = SubscriberName::parse("Ada".to_string()).unwrap();
    let id = store.insert_pending(&email, &name).unwrap();
    assert_eq!(store.insert_pending(&email, &name).unwrap_err(), StoreError::Conflict);
    assert!(store.store_token(id, "tok-one").is_ok());
    assert_eq!(store.store_token(id, "tok-one").unwrap_err(), StoreError::Conflict);
    assert_eq!(store.store_token(id + 1, "tok-two").unwrap_err(), StoreError::Conflict);
    assert_eq!(store.find_subscriber_by_token("tok-one").unwrap(), Some(id));
    assert_eq!(store.find_subscriber_by_token("tok-two").unwrap(), None);
    store.set_available(false);
    assert_eq!(store.insert_pending(&email, &name).unwrap_err(), StoreError::Unavailable);
    assert_eq!(store.find_subscriber_by_token("tok-one").unwrap_err(), StoreError::Unavailable);
}
