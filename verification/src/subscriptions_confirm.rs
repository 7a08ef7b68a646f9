//! The confirmation handler: resolves an incoming confirmation token to a
//! subscriber and transitions that subscriber to `Confirmed`. An unknown and
//! a malformed token yield one and the same not-found outcome, so the
//! response reveals nothing about which tokens exist; confirming an already
//! confirmed subscriber succeeds without further effect.

use vstd::prelude::*;

use crate::helpers::{error_chain_fmt, spec_error_chain, AppError};
use crate::store::{token_lookup, with_confirmed, StoreError, StoreModel, SubscriptionStore};
use crate::domain::SubscriberStatus;

verus! {

/// The query parameters of a confirmation request.
pub struct Parameters {
    pub subscription_token: String,
}

/// Failure of a confirmation request: the token resolved to no subscriber,
/// or the storage layer failed underneath.
pub enum ConfirmError {
    MissingSubscriberError(String),
    UnexpectedError(AppError),
}

impl ConfirmError {
    /// The HTTP status each failure maps to.
    pub open spec fn spec_status_code(self) -> u16 {
        match self {
            ConfirmError::MissingSubscriberError(_) => 404,
            ConfirmError::UnexpectedError(_) => 500,
        }
    }

    /// The HTTP status this failure maps to: not-found for an unresolved
    /// token, internal server error for a storage fault.
    pub fn status_code(&self) -> (c: u16)
        ensures
            c == self.spec_status_code(),
    {
        match self {
            ConfirmError::MissingSubscriberError(_) => 404,
            ConfirmError::UnexpectedError(_) => 500,
        }
    }

    /// Renders the failure with its whole causal chain.
    pub fn describe(&self) -> (r: String)
        ensures
            self matches ConfirmError::MissingSubscriberError(m) ==> r@ == m@ + "\n"@,
            self matches ConfirmError::UnexpectedError(e) ==> r@ == spec_error_chain(*e),
    {
        match self {
            ConfirmError::MissingSubscriberError(m) => {
                let mut s = m.clone();
                crate::text::push_char(&mut s, '\n');
                proof {
                    reveal_strlit("\n");
                    assert(s@ =~= m@ + "\n"@);
                }
                s
            },
            ConfirmError::UnexpectedError(e) => error_chain_fmt(e),
        }
    }
}

/// The HTTP status of a finished confirmation request.
pub open spec fn response_status(r: Result<(), ConfirmError>) -> u16 {
    match r {
        Ok(_) => 200,
        Err(e) => e.spec_status_code(),
    }
}

/// What one confirmation request does to the store, and the status it
/// answers: unreachable storage answers 500 and changes nothing; a token
/// resolving to no subscriber answers 404 and changes nothing; a resolved
/// token confirms its subscriber and answers 200.
pub open spec fn spec_confirm(m: StoreModel, t: Seq<char>) -> (StoreModel, u16) {
    if !m.available {
        (m, 500)
    } else {
        match token_lookup(m.tokens, t) {
            None => (m, 404),
            Some(id) => (with_confirmed(m, id), 200),
        }
    }
}

/// Resolves the subscriber id the token maps to; `None` for any token absent
/// from the token table, with no distinction between malformed and unknown.
pub fn get_subscriber_id_from_token(
    store: &SubscriptionStore,
    subscription_token: &str,
) -> (r: Result<Option<u64>, StoreError>)
    ensures
        !store@.available ==> r == Err::<Option<u64>, StoreError>(StoreError::Unavailable),
        store@.available ==> r == Ok::<Option<u64>, StoreError>(
            token_lookup(store@.tokens, subscription_token@),
        ),
{
    store.find_subscriber_by_token(subscription_token)
}

/// Marks the subscriber confirmed; idempotent, and a success for an unknown
/// id as well.
pub fn confirm_subscriber(store: &mut SubscriptionStore, subscriber_id: u64) -> (r: Result<
    (),
    StoreError,
>)
    requires
        old(store)@.wf(),
    ensures
        final(store)@.wf(),
        !old(store)@.available ==> r == Err::<(), StoreError>(StoreError::Unavailable)
            && final(store)@ == old(store)@,
        old(store)@.available ==> r == Ok::<(), StoreError>(()) && final(store)@
            == with_confirmed(old(store)@, subscriber_id),
{
    store.mark_confirmed(subscriber_id)
}

/// Handles one confirmation request, exactly as `spec_confirm` lays it out.
pub fn confirm(store: &mut SubscriptionStore, parameters: &Parameters) -> (r: Result<
    (),
    ConfirmError,
>)
    requires
        old(store)@.wf(),
    ensures
        final(store)@.wf(),
        final(store)@ == spec_confirm(old(store)@, parameters.subscription_token@).0,
        response_status(r) == spec_confirm(old(store)@, parameters.subscription_token@).1,
        r matches Err(ConfirmError::MissingSubscriberError(m)) ==> m@
            == "Invalid subscription token"@,
        r matches Err(ConfirmError::UnexpectedError(e)) ==> e.message@
            == "Unable to retrieve subscriber id from token"@ && (e.cause matches Some(c)
            && c.message@ == "the storage layer is unreachable"@),
{
    let looked_up = match get_subscriber_id_from_token(
        store,
        parameters.subscription_token.as_str(),
    ) {
        Ok(o) => o,
        Err(_) => {
            return Err(
                ConfirmError::UnexpectedError(
                    AppError::with_cause(
                        String::from_str("Unable to retrieve subscriber id from token"),
                        AppError::new(String::from_str("the storage layer is unreachable")),
                    ),
                ),
            );
        },
    };
    let subscriber_id = match looked_up {
        Some(id) => id,
        None => {
            return Err(
                ConfirmError::MissingSubscriberError(
                    String::from_str("Invalid subscription token"),
                ),
            );
        },
    };
    match confirm_subscriber(store, subscriber_id) {
        Ok(_) => Ok(()),
        Err(_) => {
            Err(
                ConfirmError::UnexpectedError(
                    AppError::with_cause(
                        String::from_str("Failed to confirm subscriber"),
                        AppError::new(String::from_str("the storage layer is unreachable")),
                    ),
                ),
            )
        },
    }
}

/// Law: confirming a stored token succeeds and confirms the subscriber it
/// maps to, and confirming the same token again still succeeds and changes
/// nothing further — confirmation is idempotent.
pub proof fn lemma_confirm_idempotent(m: StoreModel, t: Seq<char>)
    requires
        m.available,
        token_lookup(m.tokens, t) is Some,
    ensures
        spec_confirm(m, t).1 == 200,
        forall|j: int|
            0 <= j < spec_confirm(m, t).0.subscribers.len() && (#[trigger] spec_confirm(
                m,
                t,
            ).0.subscribers[j]).id == token_lookup(m.tokens, t)->0 ==> spec_confirm(
                m,
                t,
            ).0.subscribers[j].status == SubscriberStatus::Confirmed,
        spec_confirm(spec_confirm(m, t).0, t).1 == 200,
        spec_confirm(spec_confirm(m, t).0, t).0 == spec_confirm(m, t).0,
{
    let id = choose|id: u64| token_lookup(m.tokens, t) == Some(id);
    let m1 = with_confirmed(m, id);
    assert(m1.tokens == m.tokens);
    assert(spec_confirm(m1, t).0 == with_confirmed(m1, id));
    assert(with_confirmed(m1, id).subscribers =~= m1.subscribers);
    assert(with_confirmed(m1, id) =~= m1);
}

/// Law: a successful sign-up, followed by confirmation with the very token
/// it issued, answers success and leaves exactly the new subscriber
/// confirmed.
pub proof fn lemma_signup_then_confirm(
    m: StoreModel,
    c: crate::email_client::EmailClientModel,
    base_url: Seq<char>,
    name: Seq<char>,
    email: Seq<char>,
    token: Seq<char>,
)
    requires
        m.available,
        crate::domain::is_valid_name(name),
        crate::domain::is_valid_email(email),
        !m.has_email(email),
        !m.has_token(token),
    ensures
        crate::subscriptions::spec_subscribe(m, c, base_url, name, email, token).1 == 200,
        ({
            let m1 = crate::subscriptions::spec_subscribe(m, c, base_url, name, email, token).0;
            &&& spec_confirm(m1, token).1 == 200
            &&& spec_confirm(m1, token).0.subscribers[m.subscribers.len() as int]
                == (crate::store::SubscriberModel {
                id: m.next_id,
                email: email,
                name: name,
                status: SubscriberStatus::Confirmed,
            })
        }),
{
    let m1 = crate::subscriptions::spec_subscribe(m, c, base_url, name, email, token).0;
    crate::store::lemma_token_lookup_push(m.tokens, token, m.next_id);
    let m2 = with_confirmed(m1, m.next_id);
    assert(m2.subscribers[m.subscribers.len() as int] == crate::store::confirm_record(
        m1.subscribers[m.subscribers.len() as int],
        m.next_id,
    ));
}

/// Law: every token the table does not hold — unknown or outright malformed —
/// yields one and the same outcome: the not-found status, with the store left
/// exactly as it was. Nothing distinguishes the two.
pub proof fn lemma_unknown_token_uniform(m: StoreModel, t1: Seq<char>, t2: Seq<char>)
    requires
        token_lookup(m.tokens, t1) is None,
        token_lookup(m.tokens, t2) is None,
    ensures
        spec_confirm(m, t1) == spec_confirm(m, t2),
        spec_confirm(m, t1).0 == m,
{
}

} // verus!

