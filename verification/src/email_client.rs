//! The notification client: builds the outbound transactional-email request
//! for the email-service-provider's HTTP API — URL, Basic-authorization
//! header derived from the two API keys, and the JSON body in the provider's
//! required shape — and classifies the outcome of performing such a request.
//! Performing the HTTP exchange itself is the caller's part.

use vstd::prelude::*;

use base64::Engine;

use crate::domain::SubscriberEmail;
use crate::secret::SecretString;
use crate::text::{json_escape, json_escaped};

verus! {

/// What base64's standard padded encoding yields for the given characters'
/// UTF-8 bytes.
pub uninterp spec fn base64_of(s: Seq<char>) -> Seq<char>;

/// Relies on base64's `Engine::encode` with the `STANDARD` engine (standard
/// alphabet, padded): the result is a function of the input alone, and an
/// empty input encodes to an empty string. The length bound keeps the
/// encoder's output-size computation far from overflow.
#[verifier::external_body]
fn base64_encode(input: &str) -> (r: String)
    requires
        input@.len() <= 0x0100_0000,
    ensures
        r@ == base64_of(input@),
        input@.len() == 0 ==> r@.len() == 0,
{
    base64::engine::general_purpose::STANDARD.encode(input)
}

/// Mathematical model of one outbound send request.
#[verifier::ext_equal]
pub ghost struct EmailRequestModel {
    pub method: Seq<char>,
    pub url: Seq<char>,
    pub authorization: Seq<char>,
    pub content_type: Seq<char>,
    pub body: Seq<char>,
    pub timeout_ms: u64,
}

/// One fully built outbound send request, ready to be performed: an HTTP
/// request with method, URL, `Authorization` and `Content-Type` headers, a
/// body, and the timeout that must cover the whole request/response cycle.
pub struct EmailRequest {
    pub method: String,
    pub url: String,
    pub authorization: String,
    pub content_type: String,
    pub body: String,
    pub timeout_ms: u64,
}

impl View for EmailRequest {
    type V = EmailRequestModel;

    open spec fn view(&self) -> EmailRequestModel {
        EmailRequestModel {
            method: self.method@,
            url: self.url@,
            authorization: self.authorization@,
            content_type: self.content_type@,
            body: self.body@,
            timeout_ms: self.timeout_ms,
        }
    }
}

/// Mathematical model of the client's configuration.
#[verifier::ext_equal]
pub ghost struct EmailClientModel {
    pub base_url: Seq<char>,
    pub sender: Seq<char>,
    pub key_public: Seq<char>,
    pub key_private: Seq<char>,
    pub timeout_ms: u64,
}

/// The credential pair, joined for Basic authorization.
pub open spec fn spec_credentials(c: EmailClientModel) -> Seq<char> {
    c.key_public + ":"@ + c.key_private
}

/// The `Authorization` header value the client sends.
pub open spec fn spec_authorization(c: EmailClientModel) -> Seq<char> {
    "Basic "@ + base64_of(spec_credentials(c))
}

/// The JSON body of a send request: `From` and a single-recipient `To`, each
/// with `Email` and `Name` (the name is populated with the address itself),
/// then `Subject`, `TextPart` and `HtmlPart`, in the provider's required
/// capitalization.
pub open spec fn spec_send_body(
    from: Seq<char>,
    to: Seq<char>,
    subject: Seq<char>,
    text_part: Seq<char>,
    html_part: Seq<char>,
) -> Seq<char> {
    "{\"From\":{\"Email\":\""@ + json_escaped(from) + "\",\"Name\":\""@ + json_escaped(from)
        + "\"},\"To\":[{\"Email\":\""@ + json_escaped(to) + "\",\"Name\":\""@ + json_escaped(to)
        + "\"}],\"Subject\":\""@ + json_escaped(subject) + "\",\"TextPart\":\""@ + json_escaped(
        text_part,
    ) + "\",\"HtmlPart\":\""@ + json_escaped(html_part) + "\"}"@
}

/// The complete request a send call builds.
pub open spec fn spec_send_request(
    c: EmailClientModel,
    to: Seq<char>,
    subject: Seq<char>,
    text_part: Seq<char>,
    html_part: Seq<char>,
) -> EmailRequestModel {
    EmailRequestModel {
        method: "POST"@,
        url: c.base_url + "/v3.1/send"@,
        authorization: spec_authorization(c),
        content_type: "application/json"@,
        body: spec_send_body(c.sender, to, subject, text_part, html_part),
        timeout_ms: c.timeout_ms,
    }
}

/// The client for the email-service-provider's send API.
pub struct EmailClient {
    base_url: String,
    sender: SubscriberEmail,
    api_key_public: SecretString,
    api_key_private: SecretString,
    timeout_ms: u64,
}

impl View for EmailClient {
    type V = EmailClientModel;

    closed spec fn view(&self) -> EmailClientModel {
        EmailClientModel {
            base_url: self.base_url@,
            sender: self.sender@,
            key_public: self.api_key_public@,
            key_private: self.api_key_private@,
            timeout_ms: self.timeout_ms,
        }
    }
}

impl EmailClient {
    #[verifier::type_invariant]
    closed spec fn type_inv(self) -> bool {
        self.api_key_public@.len() <= 0x0010_0000 && self.api_key_private@.len() <= 0x0010_0000
    }

    /// Configures a client. The key-length bounds only keep credential
    /// encoding far from machine limits; real keys are tiny.
    pub fn new(
        base_url: String,
        sender: SubscriberEmail,
        api_key_public: SecretString,
        api_key_private: SecretString,
        timeout_ms: u64,
    ) -> (c: EmailClient)
        requires
            api_key_public@.len() <= 0x0010_0000,
            api_key_private@.len() <= 0x0010_0000,
        ensures
            c@ == (EmailClientModel {
                base_url: base_url@,
                sender: sender@,
                key_public: api_key_public@,
                key_private: api_key_private@,
                timeout_ms,
            }),
    {
        EmailClient { base_url, sender, api_key_public, api_key_private, timeout_ms }
    }

    /// The configured timeout for one whole request/response cycle.
    pub fn timeout_ms(&self) -> (t: u64)
        ensures
            t == self@.timeout_ms,
    {
        self.timeout_ms
    }

    /// Builds the send request for one recipient. The request is returned for
    /// the caller to perform; `delivery_result` classifies what came of it.
    pub fn send_email(
        &self,
        recipient: &SubscriberEmail,
        subject: &str,
        html_part: &str,
        text_part: &str,
    ) -> (req: EmailRequest)
        ensures
            req@ == spec_send_request(self@, recipient@, subject@, text_part@, html_part@),
    {
        proof {
            use_type_invariant(self);
        }
        let mut url = self.base_url.clone();
        url.append("/v3.1/send");
        let mut creds = self.api_key_public.expose_secret().clone();
        creds.append(":");
        creds.append(self.api_key_private.expose_secret().as_str());
        proof {
            reveal_strlit(":");
        }
        let encoded = base64_encode(creds.as_str());
        let mut authorization = String::from_str("Basic ");
        authorization.append(encoded.as_str());
        let from_esc = json_escape(self.sender.as_ref());
        let to_esc = json_escape(recipient.as_ref());
        let subject_esc = json_escape(subject);
        let text_esc = json_escape(text_part);
        let html_esc = json_escape(html_part);
        let mut body = String::from_str("{\"From\":{\"Email\":\"");
        body.append(from_esc.as_str());
        body.append("\",\"Name\":\"");
        body.append(from_esc.as_str());
        body.append("\"},\"To\":[{\"Email\":\"");
        body.append(to_esc.as_str());
        body.append("\",\"Name\":\"");
        body.append(to_esc.as_str());
        body.append("\"}],\"Subject\":\"");
        body.append(subject_esc.as_str());
        body.append("\",\"TextPart\":\"");
        body.append(text_esc.as_str());
        body.append("\",\"HtmlPart\":\"");
        body.append(html_esc.as_str());
        body.append("\"}");
        let req = EmailRequest {
            method: String::from_str("POST"),
            url,
            authorization,
            content_type: String::from_str("application/json"),
            body,
            timeout_ms: self.timeout_ms,
        };
        proof {
            assert(creds@ =~= spec_credentials(self@));
            assert(req.url@ =~= self@.base_url + "/v3.1/send"@);
            assert(req.authorization@ =~= spec_authorization(self@));
            assert(req.body@ =~= spec_send_body(
                self@.sender,
                recipient@,
                subject@,
                text_part@,
                html_part@,
            ));
            assert(req@ =~= spec_send_request(
                self@,
                recipient@,
                subject@,
                text_part@,
                html_part@,
            ));
        }
        req
    }
}

/// How performing a send request ended at the transport level: a response
/// with some HTTP status, no response within the configured timeout, or a
/// connection failure.
#[derive(Clone, Copy, Debug, PartialEq, Eq, Structural)]
pub enum SendOutcome {
    Completed(u16),
    TimedOut,
    ConnectionFailed,
}

/// Failed delivery: the provider was unreachable, did not answer in time, or
/// answered with a non-success status. No automatic retry happens here;
/// retry policy is the caller's responsibility.
#[derive(Clone, Copy, Debug, PartialEq, Eq, Structural)]
pub enum DeliveryError {
    Timeout,
    Connection,
    UnexpectedStatus(u16),
}

/// Classifies a transport outcome: exactly the 2xx responses count as
/// delivered; a timeout, a connection failure, and any other status each
/// surface as the matching `DeliveryError`.
pub fn delivery_result(outcome: SendOutcome) -> (r: Result<(), DeliveryError>)
    ensures
        r is Ok <==> (outcome matches SendOutcome::Completed(s) && 200 <= s < 300),
        outcome matches SendOutcome::Completed(s) ==> if 200 <= s < 300 {
            r is Ok
        } else {
            r == Err::<(), DeliveryError>(DeliveryError::UnexpectedStatus(s))
        },
        outcome == SendOutcome::TimedOut ==> r == Err::<(), DeliveryError>(DeliveryError::Timeout),
        outcome == SendOutcome::ConnectionFailed ==> r == Err::<(), DeliveryError>(
            DeliveryError::Connection,
        ),
{
    match outcome {
        SendOutcome::Completed(s) => {
            if 200 <= s && s < 300 {
                Ok(())
            } else {
                Err(DeliveryError::UnexpectedStatus(s))
            }
        },
        SendOutcome::TimedOut => Err(DeliveryError::Timeout),
        SendOutcome::ConnectionFailed => Err(DeliveryError::Connection),
    }
}

} // verus!
