//! Errors as explicit cause chains: a tagged value carrying a message and an
//! optional boxed underlying cause, with a formatting routine that walks the
//! chain so diagnostics show the original fault, not just the outer wrapper.

use vstd::prelude::*;

use crate::text::push_char;

verus! {

/// An error with a message and an optional underlying cause.
pub struct AppError {
    pub message: String,
    pub cause: Option<Box<AppError>>,
}

impl AppError {
    /// A root error: a message with no underlying cause.
    pub fn new(message: String) -> (e: AppError)
        ensures
            e.message@ == message@,
            e.cause is None,
    {
        AppError { message, cause: None }
    }

    /// Wraps `cause` with a message giving the context of the failed
    /// operation.
    pub fn with_cause(message: String, cause: AppError) -> (e: AppError)
        ensures
            e.message@ == message@,
            e.cause matches Some(c) && *c == cause,
    {
        AppError { message, cause: Some(Box::new(cause)) }
    }
}

/// The rendering of the causes below an error: one `Caused by:` line for each
/// link of the chain.
pub open spec fn spec_cause_chain(c: Option<Box<AppError>>) -> Seq<char>
    decreases c,
{
    match c {
        None => Seq::empty(),
        Some(b) => "Caused by: "@ + b.message@ + "\n"@ + spec_cause_chain(b.cause),
    }
}

/// The full rendering of an error: its own message on the first line, then
/// the whole cause chain.
pub open spec fn spec_error_chain(e: AppError) -> Seq<char> {
    e.message@ + "\n"@ + spec_cause_chain(e.cause)
}

/// Renders an error and its whole causal chain, one line per link.
pub fn error_chain_fmt(e: &AppError) -> (r: String)
    ensures
        r@ == spec_error_chain(*e),
{
    let mut r = e.message.clone();
    push_char(&mut r, '\n');
    let rest = cause_chain_fmt(&e.cause);
    r.append(rest.as_str());
    proof {
        reveal_strlit("\n");
        assert(r@ =~= spec_error_chain(*e));
    }
    r
}

/// Renders the causes below an error.
fn cause_chain_fmt(c: &Option<Box<AppError>>) -> (r: String)
    ensures
        r@ == spec_cause_chain(*c),
    decreases *c,
{
    match c {
        None => String::new(),
        Some(b) => {
            let mut s = String::from_str("Caused by: ");
            s.append(b.message.as_str());
            push_char(&mut s, '\n');
            let rest = cause_chain_fmt(&b.cause);
            s.append(rest.as_str());
            proof {
                reveal_strlit("\n");
                assert(s@ =~= spec_cause_chain(*c));
            }
            s
        },
    }
}

} // verus!
