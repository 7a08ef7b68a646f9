//! Confirmation-token issuance: a fixed-length string over the alphanumeric
//! alphabet, derived from caller-supplied entropy. Uniqueness is not promised
//! here; the store's token-uniqueness constraint enforces it at insert time.

use vstd::prelude::*;

use crate::text::push_char;

verus! {

/// Length of every confirmation token.
pub const TOKEN_LENGTH: usize = 25;

/// Whether `c` belongs to the token alphabet: ASCII digits and letters.
pub open spec fn is_token_char(c: char) -> bool {
    ||| ('0' as int) <= (c as int) <= ('9' as int)
    ||| ('A' as int) <= (c as int) <= ('Z' as int)
    ||| ('a' as int) <= (c as int) <= ('z' as int)
}

/// The token character one entropy byte maps to: the byte, reduced into the
/// 62-symbol alphabet.
pub open spec fn token_char(b: u8) -> char {
    let r = (b % 62) as int;
    if r < 10 {
        (('0' as int) + r) as char
    } else if r < 36 {
        (('A' as int) + r - 10) as char
    } else {
        (('a' as int) + r - 36) as char
    }
}

/// The token a given entropy seed yields.
pub open spec fn spec_token(seed: Seq<u8>) -> Seq<char> {
    Seq::new(TOKEN_LENGTH as nat, |i: int| token_char(seed[i]))
}

/// Issues the confirmation token derived from `seed`. The caller supplies the
/// entropy (the first `TOKEN_LENGTH` bytes are used); drawing the seed from a
/// cryptographically secure source is what makes the token unguessable.
pub fn issue_token(seed: &[u8]) -> (t: String)
    requires
        seed@.len() >= TOKEN_LENGTH,
    ensures
        t@ == spec_token(seed@),
        t@.len() == TOKEN_LENGTH,
        forall|i: int| 0 <= i < t@.len() ==> is_token_char(#[trigger] t@[i]),
{
    let mut t = String::new();
    let mut i: usize = 0;
    while i < TOKEN_LENGTH
        invariant
            seed@.len() >= TOKEN_LENGTH,
            i <= TOKEN_LENGTH,
            t@.len() == i,
            forall|j: int| 0 <= j < i ==> t@[j] == token_char(seed@[j]),
        decreases TOKEN_LENGTH - i,
    {
        let b = seed[i];
        let r = b % 62;
        let d: u8 = if r < 10 {
            48 + r
        } else if r < 36 {
            65 + (r - 10)
        } else {
            97 + (r - 36)
        };
        let c = d as char;
        push_char(&mut t, c);
        i = i + 1;
    }
    proof {
        assert(t@ =~= spec_token(seed@));
    }
    t
}

} // verus!
