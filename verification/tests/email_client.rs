use base64::Engine;
use newsletter::domain::SubscriberEmail;
use newsletter::email_client::{delivery_result, DeliveryError, EmailClient, SendOutcome};
use newsletter::secret::SecretString;

fn email_client(base_url: &str) -> EmailClient {
    EmailClient::new(
        base_url.to_string(),
        SubscriberEmail::parse("sender@example.com".to_string()).unwrap(),
        SecretString::new("user".to_string()),
        SecretString::new("pass".to_string()),
        200,
    )
}

#[test]
fn send_email_succeeds_if_the_server_returns_200() {
    let client = email_client("http://esp.example");
    let _req = client.send_email(
        &SubscriberEmail::parse("ursula_le_guin@gmail.com".to_string()).unwrap(),
        "Welcome!",
        "body",
        "body",
    );
    let outcome = delivery_result(SendOutcome::Completed(200));
    assert!(outcome.is_ok());
}

#[test]
fn send_email_fails_if_the_server_returns_a_500() {
    let outcome = delivery_result(SendOutcome::Completed(500));
    assert!(outcome.is_err());
    assert_eq!(outcome.unwrap_err(), DeliveryError::UnexpectedStatus(500));
}

#[test]
fn send_email_times_out_if_the_server_takes_too_long() {
    let client = email_client("http://esp.example");
    let req = client.send_email(
        &SubscriberEmail::parse("ursula_le_guin@gmail.com".to_string()).unwrap(),
        "Welcome!",
        "body",
        "body",
    );
    assert_eq!(req.timeout_ms, 200);
    let outcome = delivery_result(SendOutcome::TimedOut);
    assert!(outcome.is_err());
    assert_eq!(outcome.unwrap_err(), DeliveryError::Timeout);
}

#[test]
fn a_connection_failure_is_a_delivery_error() {
    let outcome = delivery_result(SendOutcome::ConnectionFailed);
    assert_eq!(outcome.unwrap_err(), DeliveryError::Connection);
}

#[test]
fn only_2xx_statuses_count_as_delivered() {
    assert!(delivery_result(SendOutcome::Completed(204)).is_ok());
    assert!(delivery_result(SendOutcome::Completed(299)).is_ok());
    assert!(delivery_result(SendOutcome::Completed(199)).is_err());
    assert!(delivery_result(SendOutcome::Completed(300)).is_err());
    assert!(delivery_result(SendOutcome::Completed(404)).is_err());
}

#[test]
fn send_email_sends_the_expected_request() {
    let client = email_client("http://esp.example");
    let req = client.send_email(
        &SubscriberEmail::parse("ursula_le_guin@gmail.com".to_string()).unwrap(),
        "Welcome!",
        "Hello html",
        "Hello text",
    );
    assert_eq!(req.method, "POST");
    assert_eq!(req.url, "http://esp.example/v3.1/send");
    assert_eq!(req.content_type, "application/json");
    assert_eq!(
        req.authorization,
        format!(
            "Basic {}",
            base64::engine::general_purpose::STANDARD.encode("user:pass")
        )
    );
    assert_eq!(req.authorization, "Basic dXNlcjpwYXNz");
    let expected_body = "{\"From\":{\"Email\":\"sender@example.com\",\"Name\":\"sender@example.com\"},\"To\":[{\"Email\":\"ursula_le_guin@gmail.com\",\"Name\":\"ursula_le_guin@gmail.com\"}],\"Subject\":\"Welcome!\",\"TextPart\":\"Hello text\",\"HtmlPart\":\"Hello html\"}";
    assert_eq!(req.body, expected_body);
}

#[test]
fn body_escapes_json_metacharacters() {
    let client = email_client("http://esp.example");
    let req = client.send_email(
        &SubscriberEmail::parse("ursula_le_guin@gmail.com".to_string()).unwrap(),
        "A \"quoted\" subject\\with\nnewline\tand\rreturns",
        "html",
        "text",
    );
    assert!(req.body.contains(
        "\"Subject\":\"A \\\"quoted\\\" subject\\\\with\\nnewline\\tand\\rreturns\""
    ));
    assert!(!req.body.contains('\n'));
}
