//! The sign-up orchestrator: validates incoming form data, persists the
//! subscriber as pending together with a fresh confirmation token (one atomic
//! unit of work), builds the confirmation link, and builds the notification
//! request that delivers it.
//!
//! Response policy: the request is answered with success once the
//! notification request is built and handed back for dispatch; a delivery
//! failure at the network layer is not rolled back against the persisted
//! subscriber, who then stays pending until confirmed — mirroring the
//! reference behavior, which neither compensates nor retries.

use vstd::prelude::*;

use crate::domain::{is_valid_email, is_valid_name, SubscriberEmail, SubscriberName};
use crate::email_client::{
    spec_send_request, EmailClient, EmailClientModel, EmailRequest, EmailRequestModel,
};
use crate::form::{parse_form, spec_parse_form};
use crate::store::{StoreModel, SubscriberModel, SubscriptionStore};
use crate::domain::SubscriberStatus;
use crate::token::{issue_token, spec_token, TOKEN_LENGTH};

verus! {

/// The fields of a sign-up form.
pub struct FormData {
    pub name: String,
    pub email: String,
}

/// The outcome of one sign-up request: the HTTP status to answer, and, on
/// success, the one notification request to dispatch.
pub struct SubscribeResponse {
    pub status: u16,
    pub dispatch: Option<EmailRequest>,
}

/// The confirmation link embedded in the notification: the application base
/// URL with the raw token as a query parameter.
pub open spec fn confirmation_link(base_url: Seq<char>, token: Seq<char>) -> Seq<char> {
    base_url + "/subscriptions/confirm?subscription_token="@ + token
}

/// The notification text; the HTML and plain-text bodies both carry exactly
/// this.
pub open spec fn confirmation_message(link: Seq<char>) -> Seq<char> {
    "Welcome to our newsletter! Visit "@ + link + " to confirm your subscription."@
}

/// The store after a successful sign-up: one new pending subscriber row and
/// its token mapping.
pub open spec fn subscribed_model(
    m: StoreModel,
    name: Seq<char>,
    email: Seq<char>,
    token: Seq<char>,
) -> StoreModel {
    StoreModel {
        subscribers: m.subscribers.push(
            SubscriberModel {
                id: m.next_id,
                email: email,
                name: name,
                status: SubscriberStatus::PendingConfirmation,
            },
        ),
        tokens: m.tokens.push((token, m.next_id)),
        next_id: (m.next_id + 1) as u64,
        ..m
    }
}

/// What one sign-up request does, and what it answers, given the token the
/// entropy seed yields: malformed input answers 400 and touches nothing;
/// unreachable storage, an already subscribed email, or a colliding token
/// answers 500 with nothing persisted — no partial subscriber state is left
/// behind; otherwise the subscriber and the token mapping are persisted, the
/// answer is 200, and exactly one notification request — carrying the
/// confirmation link in both bodies — is handed out for dispatch.
pub open spec fn spec_subscribe(
    m: StoreModel,
    c: EmailClientModel,
    base_url: Seq<char>,
    name: Seq<char>,
    email: Seq<char>,
    token: Seq<char>,
) -> (StoreModel, u16, Option<EmailRequestModel>) {
    if !(is_valid_name(name) && is_valid_email(email)) {
        (m, 400, None)
    } else if !m.available {
        (m, 500, None)
    } else if m.has_email(email) || m.has_token(token) {
        (m, 500, None)
    } else {
        let message = confirmation_message(confirmation_link(base_url, token));
        (
            subscribed_model(m, name, email, token),
            200,
            Some(spec_send_request(c, email, "Welcome!"@, message, message)),
        )
    }
}

/// Handles one sign-up request, exactly as `spec_subscribe` lays it out.
///
/// Response policy: a delivery failure after the request is handed out for
/// dispatch does not change the answer or roll the subscriber back.
pub fn subscribe(
    store: &mut SubscriptionStore,
    client: &EmailClient,
    app_base_url: &str,
    form: FormData,
    token_seed: &[u8],
) -> (r: SubscribeResponse)
    requires
        old(store)@.wf(),
        old(store)@.next_id < u64::MAX,
        token_seed@.len() >= TOKEN_LENGTH,
    ensures
        final(store)@.wf(),
        final(store)@ == spec_subscribe(
            old(store)@,
            client@,
            app_base_url@,
            form.name@,
            form.email@,
            spec_token(token_seed@),
        ).0,
        r.status == spec_subscribe(
            old(store)@,
            client@,
            app_base_url@,
            form.name@,
            form.email@,
            spec_token(token_seed@),
        ).1,
        (match r.dispatch {
            Some(req) => spec_subscribe(
                old(store)@,
                client@,
                app_base_url@,
                form.name@,
                form.email@,
                spec_token(token_seed@),
            ).2 == Some(req@),
            None => spec_subscribe(
                old(store)@,
                client@,
                app_base_url@,
                form.name@,
                form.email@,
                spec_token(token_seed@),
            ).2 is None,
        }),
{
    let name = match SubscriberName::parse(form.name) {
        Ok(n) => n,
        Err(_) => {
            return SubscribeResponse { status: 400, dispatch: None };
        },
    };
    let email = match SubscriberEmail::parse(form.email) {
        Ok(e) => e,
        Err(_) => {
            return SubscribeResponse { status: 400, dispatch: None };
        },
    };
    let token = issue_token(token_seed);
    match store.subscribe_transaction(&email, &name, token.as_str()) {
        Ok(_) => {},
        Err(_) => {
            return SubscribeResponse { status: 500, dispatch: None };
        },
    }
    let mut link = app_base_url.to_owned();
    link.append("/subscriptions/confirm?subscription_token=");
    link.append(token.as_str());
    let mut message = String::from_str("Welcome to our newsletter! Visit ");
    message.append(link.as_str());
    message.append(" to confirm your subscription.");
    proof {
        assert(link@ =~= confirmation_link(app_base_url@, spec_token(token_seed@)));
        assert(message@ =~= confirmation_message(
            confirmation_link(app_base_url@, spec_token(token_seed@)),
        ));
    }
    let req = client.send_email(&email, "Welcome!", message.as_str(), message.as_str());
    SubscribeResponse { status: 200, dispatch: Some(req) }
}

/// Handles one raw sign-up body, as the HTTP endpoint receives it: a body
/// missing either field, or carrying a malformed value, answers 400 and
/// touches nothing; a parsed body is handled exactly as `spec_subscribe`
/// lays it out.
pub fn subscribe_form(
    store: &mut SubscriptionStore,
    client: &EmailClient,
    app_base_url: &str,
    body: &str,
    token_seed: &[u8],
) -> (r: SubscribeResponse)
    requires
        old(store)@.wf(),
        old(store)@.next_id < u64::MAX,
        token_seed@.len() >= TOKEN_LENGTH,
    ensures
        final(store)@.wf(),
        (match spec_parse_form(body@) {
            None => r.status == 400 && r.dispatch is None && final(store)@ == old(store)@,
            Some(p) => {
                &&& final(store)@ == spec_subscribe(
                    old(store)@,
                    client@,
                    app_base_url@,
                    p.0,
                    p.1,
                    spec_token(token_seed@),
                ).0
                &&& r.status == spec_subscribe(
                    old(store)@,
                    client@,
                    app_base_url@,
                    p.0,
                    p.1,
                    spec_token(token_seed@),
                ).1
                &&& (match r.dispatch {
                    Some(req) => spec_subscribe(
                        old(store)@,
                        client@,
                        app_base_url@,
                        p.0,
                        p.1,
                        spec_token(token_seed@),
                    ).2 == Some(req@),
                    None => spec_subscribe(
                        old(store)@,
                        client@,
                        app_base_url@,
                        p.0,
                        p.1,
                        spec_token(token_seed@),
                    ).2 is None,
                })
            },
        }),
{
    match parse_form(body) {
        Some(form) => subscribe(store, client, app_base_url, form, token_seed),
        None => SubscribeResponse { status: 400, dispatch: None },
    }
}

/// Law: for every syntactically invalid email (and likewise every invalid
/// name), sign-up answers with the client-error status, creates no
/// subscriber row, and hands out no notification request.
pub proof fn lemma_invalid_input_rejected(
    m: StoreModel,
    c: EmailClientModel,
    base_url: Seq<char>,
    name: Seq<char>,
    email: Seq<char>,
    token: Seq<char>,
)
    requires
        !is_valid_email(email) || !is_valid_name(name),
    ensures
        spec_subscribe(m, c, base_url, name, email, token).1 == 400,
        spec_subscribe(m, c, base_url, name, email, token).0 == m,
        spec_subscribe(m, c, base_url, name, email, token).2 is None,
{
}

/// Law: for every valid pair whose email is not yet subscribed (and whose
/// token is fresh), sign-up with reachable storage answers success, creates
/// exactly one subscriber row — pending confirmation, carrying exactly the
/// given data — and hands out exactly one notification request, addressed to
/// that email.
pub proof fn lemma_valid_signup_creates_one_pending_subscriber(
    m: StoreModel,
    c: EmailClientModel,
    base_url: Seq<char>,
    name: Seq<char>,
    email: Seq<char>,
    token: Seq<char>,
)
    requires
        is_valid_name(name),
        is_valid_email(email),
        m.available,
        !m.has_email(email),
        !m.has_token(token),
    ensures
        spec_subscribe(m, c, base_url, name, email, token).1 == 200,
        spec_subscribe(m, c, base_url, name, email, token).0.subscribers == m.subscribers.push(
            SubscriberModel {
                id: m.next_id,
                email: email,
                name: name,
                status: SubscriberStatus::PendingConfirmation,
            },
        ),
        spec_subscribe(m, c, base_url, name, email, token).0.tokens == m.tokens.push(
            (token, m.next_id),
        ),
        spec_subscribe(m, c, base_url, name, email, token).2 matches Some(req) && req.body
            == crate::email_client::spec_send_body(
            c.sender,
            email,
            "Welcome!"@,
            confirmation_message(confirmation_link(base_url, token)),
            confirmation_message(confirmation_link(base_url, token)),
        ),
{
}

/// Law: with the storage layer unreachable, sign-up of any valid data
/// answers the server-error status and leaves no observable state behind —
/// no pending row and no notification request.
pub proof fn lemma_storage_outage_leaves_no_partial_state(
    m: StoreModel,
    c: EmailClientModel,
    base_url: Seq<char>,
    name: Seq<char>,
    email: Seq<char>,
    token: Seq<char>,
)
    requires
        is_valid_name(name),
        is_valid_email(email),
        !m.available,
    ensures
        spec_subscribe(m, c, base_url, name, email, token).1 == 500,
        spec_subscribe(m, c, base_url, name, email, token).0 == m,
        spec_subscribe(m, c, base_url, name, email, token).2 is None,
{
}

} // verus!
