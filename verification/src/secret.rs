//! A redacting wrapper for credentials. The raw value is reachable only
//! through the explicit `expose_secret` accessor, used solely at the point
//! where the value is encoded into an outbound request; every other reading
//! yields a fixed placeholder.

use vstd::prelude::*;

verus! {

/// A string credential that never shows its value by accident.
pub struct SecretString {
    value: String,
}

impl View for SecretString {
    type V = Seq<char>;

    closed spec fn view(&self) -> Seq<char> {
        self.value@
    }
}

impl SecretString {
    pub fn new(value: String) -> (s: SecretString)
        ensures
            s@ == value@,
    {
        SecretString { value }
    }

    /// The explicit accessor for the raw value.
    pub fn expose_secret(&self) -> (s: &String)
        ensures
            s@ == self@,
    {
        &self.value
    }

    /// The safe rendering: a fixed placeholder, never the value.
    pub fn redacted(&self) -> (s: String)
        ensures
            s@ == "[REDACTED]"@,
    {
        String::from_str("[REDACTED]")
    }
}

} // verus!
