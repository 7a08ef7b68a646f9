//! Validated value types for subscriber data: the email address and display
//! name accepted at sign-up, and the subscriber's lifecycle status.

use vstd::prelude::*;

verus! {

/// A character acceptable inside an email address: printable, with no
/// whitespace or control characters.
pub open spec fn is_printable_char(c: char) -> bool {
    (c as int) > 32
}

/// How many times `c` occurs in `s`.
pub open spec fn count_char(s: Seq<char>, c: char) -> nat
    decreases s.len(),
{
    if s.len() == 0 {
        0
    } else {
        count_char(s.drop_last(), c) + (if s.last() == c { 1nat } else { 0nat })
    }
}

/// A syntactically valid email address: bounded length, exactly one `@` with a
/// non-empty local part and a non-empty domain on either side, and no
/// whitespace or control characters anywhere. No network-level validation is
/// implied.
pub open spec fn is_valid_email(s: Seq<char>) -> bool {
    &&& 3 <= s.len() <= 320
    &&& count_char(s, '@') == 1
    &&& s[0] != '@'
    &&& s[s.len() - 1] != '@'
    &&& forall|i: int| 0 <= i < s.len() ==> is_printable_char(#[trigger] s[i])
}

pub open spec fn is_whitespace_char(c: char) -> bool {
    c == ' ' || c == '\t' || c == '\n' || c == '\r'
}

/// Characters rejected in a display name, to keep stored names free of markup
/// and quoting troubles.
pub open spec fn is_forbidden_name_char(c: char) -> bool {
    ||| c == '/'
    ||| c == '('
    ||| c == ')'
    ||| c == '"'
    ||| c == '<'
    ||| c == '>'
    ||| c == '\\'
    ||| c == '{'
    ||| c == '}'
}

/// A valid display name: non-empty (not all whitespace), at most 256
/// characters, free of forbidden characters, and free of control characters.
pub open spec fn is_valid_name(s: Seq<char>) -> bool {
    &&& 1 <= s.len() <= 256
    &&& exists|i: int| 0 <= i < s.len() && !is_whitespace_char(#[trigger] s[i])
    &&& forall|i: int|
        0 <= i < s.len() ==> !is_forbidden_name_char(#[trigger] s[i]) && (s[i] as int) >= 32
}

/// Rejection of malformed sign-up data; a client fault.
#[derive(Clone, Copy, Debug, PartialEq, Eq, Structural)]
pub enum ValidationError {
    InvalidName,
    InvalidEmail,
}

/// Lifecycle status of a subscriber. Transitions are monotonic:
/// `PendingConfirmation` may become `Confirmed`, and `Confirmed` never
/// reverts.
#[derive(Clone, Copy, Debug, PartialEq, Eq, Structural)]
pub enum SubscriberStatus {
    PendingConfirmation,
    Confirmed,
}

/// A validated email address. A value of this type is the sole representation
/// of an email once validated; downstream code never re-validates.
pub struct SubscriberEmail {
    value: String,
}

impl View for SubscriberEmail {
    type V = Seq<char>;

    closed spec fn view(&self) -> Seq<char> {
        self.value@
    }
}

impl SubscriberEmail {
    #[verifier::type_invariant]
    closed spec fn type_inv(self) -> bool {
        is_valid_email(self.value@)
    }

    /// Accepts exactly the strings satisfying `is_valid_email`.
    pub fn parse(raw: String) -> (r: Result<SubscriberEmail, ValidationError>)
        ensures
            r is Ok <==> is_valid_email(raw@),
            r matches Ok(e) ==> e@ == raw@,
            r matches Err(v) ==> v == ValidationError::InvalidEmail,
    {
        let s = raw.as_str();
        let n = s.unicode_len();
        if n < 3 || n > 320 {
            return Err(ValidationError::InvalidEmail);
        }
        let mut i: usize = 0;
        let mut at_count: usize = 0;
        while i < n
            invariant
                n == raw@.len(),
                3 <= n <= 320,
                i <= n,
                s@ == raw@,
                at_count == count_char(raw@.subrange(0, i as int), '@'),
                at_count <= i,
                forall|j: int| 0 <= j < i ==> is_printable_char(#[trigger] raw@[j]),
            decreases n - i,
        {
            let c = s.get_char(i);
            if (c as u32) <= 32 {
                return Err(ValidationError::InvalidEmail);
            }
            proof {
                assert(raw@.subrange(0, i + 1).drop_last() =~= raw@.subrange(0, i as int));
                assert(raw@.subrange(0, i + 1).last() == raw@[i as int]);
            }
            if c == '@' {
                at_count = at_count + 1;
            }
            i = i + 1;
        }
        proof {
            assert(raw@.subrange(0, n as int) =~= raw@);
        }
        if at_count != 1 {
            return Err(ValidationError::InvalidEmail);
        }
        if s.get_char(0) == '@' || s.get_char(n - 1) == '@' {
            return Err(ValidationError::InvalidEmail);
        }
        Ok(SubscriberEmail { value: raw })
    }

    /// The underlying, already validated address.
    pub fn as_ref(&self) -> (s: &str)
        ensures
            s@ == self@,
            is_valid_email(self@),
    {
        proof {
            use_type_invariant(self);
        }
        self.value.as_str()
    }

    /// The underlying, already validated address, as an owned-string borrow.
    pub fn as_string(&self) -> (s: &String)
        ensures
            s@ == self@,
            is_valid_email(self@),
    {
        proof {
            use_type_invariant(self);
        }
        &self.value
    }
}

/// A validated display name.
pub struct SubscriberName {
    value: String,
}

impl View for SubscriberName {
    type V = Seq<char>;

    closed spec fn view(&self) -> Seq<char> {
        self.value@
    }
}

impl SubscriberName {
    #[verifier::type_invariant]
    closed spec fn type_inv(self) -> bool {
        is_valid_name(self.value@)
    }

    /// Accepts exactly the strings satisfying `is_valid_name`.
    pub fn parse(raw: String) -> (r: Result<SubscriberName, ValidationError>)
        ensures
            r is Ok <==> is_valid_name(raw@),
            r matches Ok(m) ==> m@ == raw@,
            r matches Err(v) ==> v == ValidationError::InvalidName,
    {
        let s = raw.as_str();
        let n = s.unicode_len();
        if n < 1 || n > 256 {
            return Err(ValidationError::InvalidName);
        }
        let mut i: usize = 0;
        let mut has_visible: bool = false;
        while i < n
            invariant
                n == raw@.len(),
                1 <= n <= 256,
                i <= n,
                s@ == raw@,
                has_visible == exists|j: int|
                    0 <= j < i && !is_whitespace_char(#[trigger] raw@[j]),
                forall|j: int|
                    0 <= j < i ==> !is_forbidden_name_char(#[trigger] raw@[j]) && (raw@[j] as int)
                        >= 32,
            decreases n - i,
        {
            let c = s.get_char(i);
            if c == '/' || c == '(' || c == ')' || c == '"' || c == '<' || c == '>' || c == '\\'
                || c == '{' || c == '}' || (c as u32) < 32 {
                return Err(ValidationError::InvalidName);
            }
            if !(c == ' ' || c == '\t' || c == '\n' || c == '\r') {
                has_visible = true;
            }
            i = i + 1;
        }
        if !has_visible {
            return Err(ValidationError::InvalidName);
        }
        Ok(SubscriberName { value: raw })
    }

    /// The underlying, already validated name.
    pub fn as_ref(&self) -> (s: &str)
        ensures
            s@ == self@,
            is_valid_name(self@),
    {
        proof {
            use_type_invariant(self);
        }
        self.value.as_str()
    }

    /// The underlying, already validated name, as an owned-string borrow.
    pub fn as_string(&self) -> (s: &String)
        ensures
            s@ == self@,
            is_valid_name(self@),
    {
        proof {
            use_type_invariant(self);
        }
        &self.value
    }
}

} // verus!
