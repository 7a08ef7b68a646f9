//! The sign-up body format: `application/x-www-form-urlencoded`. A body is
//! `&`-separated segments; a `key=value` segment yields a field; values are
//! decoded with `+` as space and `%XX` as the character with that hex code
//! (ASCII only — a larger escape, or a stray `%`, makes the body malformed).
//! Of repeated fields the first occurrence counts.

use vstd::prelude::*;

use crate::subscriptions::FormData;
use crate::text::push_char;

verus! {

pub open spec fn is_hex_digit(c: char) -> bool {
    ||| ('0' as int) <= (c as int) <= ('9' as int)
    ||| ('A' as int) <= (c as int) <= ('F' as int)
    ||| ('a' as int) <= (c as int) <= ('f' as int)
}

pub open spec fn hex_value(c: char) -> int {
    if ('0' as int) <= (c as int) <= ('9' as int) {
        (c as int) - ('0' as int)
    } else if ('A' as int) <= (c as int) <= ('F' as int) {
        (c as int) - ('A' as int) + 10
    } else {
        (c as int) - ('a' as int) + 10
    }
}

/// `r` with `c` put in front, when `r` is anything at all.
pub open spec fn prepend_decoded(c: char, r: Option<Seq<char>>) -> Option<Seq<char>> {
    match r {
        None => None,
        Some(t) => Some(seq![c] + t),
    }
}

/// A form value, percent-decoded; `None` for a malformed value.
pub open spec fn form_decoded(s: Seq<char>) -> Option<Seq<char>>
    decreases s.len(),
{
    if s.len() == 0 {
        Some(Seq::<char>::empty())
    } else if s[0] == '+' {
        prepend_decoded(' ', form_decoded(s.skip(1)))
    } else if s[0] == '%' {
        if s.len() >= 3 && is_hex_digit(s[1]) && is_hex_digit(s[2]) && 16 * hex_value(s[1])
            + hex_value(s[2]) < 128 {
            prepend_decoded(
                (16 * hex_value(s[1]) + hex_value(s[2])) as char,
                form_decoded(s.skip(3)),
            )
        } else {
            None
        }
    } else {
        prepend_decoded(s[0], form_decoded(s.skip(1)))
    }
}

/// `s` split at every occurrence of `sep`; always at least one piece.
pub open spec fn split_on(s: Seq<char>, sep: char) -> Seq<Seq<char>>
    decreases s.len(),
{
    if s.len() == 0 {
        seq![Seq::<char>::empty()]
    } else {
        let rest = split_on(s.skip(1), sep);
        if s[0] == sep {
            seq![Seq::<char>::empty()] + rest
        } else {
            seq![seq![s[0]] + rest[0]] + rest.skip(1)
        }
    }
}

pub proof fn lemma_split_on_nonempty(s: Seq<char>, sep: char)
    ensures
        split_on(s, sep).len() >= 1,
    decreases s.len(),
{
    if s.len() > 0 {
        lemma_split_on_nonempty(s.skip(1), sep);
    }
}

/// Whether a segment is `key=` followed by anything.
pub open spec fn matches_key(seg: Seq<char>, key: Seq<char>) -> bool {
    seg.len() > key.len() && seg.subrange(0, key.len() as int) == key && seg[key.len() as int]
        == '='
}

/// The raw (still encoded) value of the first segment carrying `key`.
pub open spec fn lookup_raw(segs: Seq<Seq<char>>, key: Seq<char>) -> Option<Seq<char>>
    decreases segs.len(),
{
    if segs.len() == 0 {
        None
    } else if matches_key(segs[0], key) {
        Some(segs[0].skip(key.len() as int + 1))
    } else {
        lookup_raw(segs.skip(1), key)
    }
}

/// The `(name, email)` pair a body yields; `None` when either field is
/// missing or malformed.
pub open spec fn spec_parse_form(body: Seq<char>) -> Option<(Seq<char>, Seq<char>)> {
    let segs = split_on(body, '&');
    match (lookup_raw(segs, "name"@), lookup_raw(segs, "email"@)) {
        (Some(rn), Some(re)) => match (form_decoded(rn), form_decoded(re)) {
            (Some(n), Some(e)) => Some((n, e)),
            _ => None,
        },
        _ => None,
    }
}

/// The value a hex digit stands for, or `None` off the hex alphabet.
fn hex_digit_value(c: char) -> (r: Option<u8>)
    ensures
        r is Some <==> is_hex_digit(c),
        r matches Some(v) ==> v == hex_value(c),
{
    let u = c as u32;
    if 48 <= u && u <= 57 {
        Some((u - 48) as u8)
    } else if 65 <= u && u <= 70 {
        Some((u - 65 + 10) as u8)
    } else if 97 <= u && u <= 102 {
        Some((u - 97 + 10) as u8)
    } else {
        None
    }
}

/// Percent-decodes one form value.
fn decode_component(s: &str) -> (r: Option<String>)
    ensures
        (match r {
            Some(t) => form_decoded(s@) == Some(t@),
            None => form_decoded(s@) is None,
        }),
{
    let n = s.unicode_len();
    let mut out = String::new();
    let mut i: usize = 0;
    proof {
        assert(s@.skip(0) =~= s@);
        if form_decoded(s@) is Some {
            assert(Seq::<char>::empty() + form_decoded(s@)->0 =~= form_decoded(s@)->0);
        }
    }
    while i < n
        invariant
            n == s@.len(),
            i <= n,
            (match form_decoded(s@.skip(i as int)) {
                Some(rest) => form_decoded(s@) == Some(out@ + rest),
                None => form_decoded(s@) is None,
            }),
        decreases n - i,
    {
        proof {
            assert(s@.skip(i as int)[0] == s@[i as int]);
            assert(s@.skip(i as int).skip(1) =~= s@.skip(i + 1));
        }
        let c = s.get_char(i);
        let ghost prev_out = out@;
        if c == '+' {
            push_char(&mut out, ' ');
            proof {
                let rest1 = form_decoded(s@.skip(i + 1));
                if rest1 is Some {
                    assert(out@ + rest1->0 =~= prev_out + (seq![' '] + rest1->0));
                }
            }
            i = i + 1;
        } else if c == '%' {
            if n - i < 3 {
                return None;
            }
            proof {
                assert(s@.skip(i as int)[1] == s@[i + 1]);
                assert(s@.skip(i as int)[2] == s@[i + 2]);
                assert(s@.skip(i as int).skip(3) =~= s@.skip(i + 3));
            }
            let h1 = match hex_digit_value(s.get_char(i + 1)) {
                Some(v) => v,
                None => {
                    return None;
                },
            };
            let h2 = match hex_digit_value(s.get_char(i + 2)) {
                Some(v) => v,
                None => {
                    return None;
                },
            };
            let v: u16 = 16 * (h1 as u16) + (h2 as u16);
            if v >= 128 {
                return None;
            }
            let decoded = (v as u8) as char;
            push_char(&mut out, decoded);
            proof {
                let rest3 = form_decoded(s@.skip(i + 3));
                if rest3 is Some {
                    assert(out@ + rest3->0 =~= prev_out + (seq![decoded] + rest3->0));
                }
            }
            i = i + 3;
        } else {
            push_char(&mut out, c);
            proof {
                let rest1 = form_decoded(s@.skip(i + 1));
                if rest1 is Some {
                    assert(out@ + rest1->0 =~= prev_out + (seq![c] + rest1->0));
                }
            }
            i = i + 1;
        }
    }
    proof {
        assert(s@.skip(n as int) =~= Seq::<char>::empty());
        assert(out@ + Seq::<char>::empty() =~= out@);
    }
    Some(out)
}

/// Splits a body at every `&`.
fn split_form(body: &str) -> (segs: Vec<String>)
    ensures
        segs@.map_values(|p: String| p@) == split_on(body@, '&'),
{
    let n = body.unicode_len();
    let mut segs: Vec<String> = Vec::new();
    let mut cur = String::new();
    let mut i: usize = 0;
    proof {
        assert(body@.skip(0) =~= body@);
        lemma_split_on_nonempty(body@, '&');
        let r = split_on(body@, '&');
        assert(segs@.map_values(|p: String| p@) =~= Seq::<Seq<char>>::empty());
        assert(cur@ + r[0] =~= r[0]);
        assert(Seq::<Seq<char>>::empty() + seq![r[0]] + r.skip(1) =~= r);
    }
    while i < n
        invariant
            n == body@.len(),
            i <= n,
            ({
                let r = split_on(body@.skip(i as int), '&');
                split_on(body@, '&') == segs@.map_values(|p: String| p@) + seq![cur@ + r[0]]
                    + r.skip(1)
            }),
        decreases n - i,
    {
        proof {
            assert(body@.skip(i as int)[0] == body@[i as int]);
            assert(body@.skip(i as int).skip(1) =~= body@.skip(i + 1));
            lemma_split_on_nonempty(body@.skip(i + 1), '&');
        }
        let ghost prev_segs = segs@;
        let ghost prev_cur = cur@;
        let c = body.get_char(i);
        if c == '&' {
            segs.push(cur);
            cur = String::new();
            proof {
                let r = split_on(body@.skip(i + 1), '&');
                assert(segs@.map_values(|p: String| p@) =~= prev_segs.map_values(|p: String| p@)
                    + seq![prev_cur]);
                assert(prev_cur + Seq::<char>::empty() =~= prev_cur);
                assert(segs@.map_values(|p: String| p@) + seq![cur@ + r[0]] + r.skip(1)
                    =~= prev_segs.map_values(|p: String| p@) + seq![
                    prev_cur + (seq![Seq::<char>::empty()] + r)[0],
                ] + (seq![Seq::<char>::empty()] + r).skip(1));
            }
        } else {
            push_char(&mut cur, c);
            proof {
                let r = split_on(body@.skip(i + 1), '&');
                assert(cur@ + r[0] =~= prev_cur + (seq![seq![body@[i as int]] + r[0]] + r.skip(
                    1,
                ))[0]);
                assert(r.skip(1) =~= (seq![seq![body@[i as int]] + r[0]] + r.skip(1)).skip(1));
            }
        }
        i = i + 1;
    }
    proof {
        assert(body@.skip(n as int) =~= Seq::<char>::empty());
    }
    segs.push(cur);
    proof {
        assert(segs@.map_values(|p: String| p@) =~= split_on(body@, '&'));
    }
    segs
}

/// Whether `seg` is `key=` followed by anything.
fn seg_matches_key(seg: &str, key: &str) -> (b: bool)
    ensures
        b == matches_key(seg@, key@),
{
    let kn = key.unicode_len();
    let sn = seg.unicode_len();
    if sn <= kn {
        return false;
    }
    let mut j: usize = 0;
    while j < kn
        invariant
            kn == key@.len(),
            sn == seg@.len(),
            sn > kn,
            j <= kn,
            forall|t: int| 0 <= t < j ==> seg@[t] == key@[t],
        decreases kn - j,
    {
        if seg.get_char(j) != key.get_char(j) {
            proof {
                assert(seg@.subrange(0, kn as int)[j as int] != key@[j as int]);
            }
            return false;
        }
        j = j + 1;
    }
    proof {
        assert(seg@.subrange(0, kn as int) =~= key@);
    }
    seg.get_char(kn) == '='
}

/// Parses a sign-up body into its decoded `name` and `email` fields; `None`
/// for a body missing either field or carrying a malformed value.
pub fn parse_form(body: &str) -> (r: Option<FormData>)
    ensures
        (match r {
            Some(f) => spec_parse_form(body@) == Some((f.name@, f.email@)),
            None => spec_parse_form(body@) is None,
        }),
{
    let segs = split_form(body);
    let raw_name = lookup_field(&segs, "name");
    let raw_email = lookup_field(&segs, "email");
    match (raw_name, raw_email) {
        (Some(rn), Some(re)) => match (
            decode_component(rn.as_str()),
            decode_component(re.as_str()),
        ) {
            (Some(n), Some(e)) => Some(FormData { name: n, email: e }),
            _ => None,
        },
        _ => None,
    }
}

/// The raw value of the first segment carrying `key`, if any.
fn lookup_field(segs: &Vec<String>, key: &str) -> (r: Option<String>)
    ensures
        (match r {
            Some(v) => lookup_raw(segs@.map_values(|p: String| p@), key@) == Some(v@),
            None => lookup_raw(segs@.map_values(|p: String| p@), key@) is None,
        }),
{
    let ghost view = segs@.map_values(|p: String| p@);
    let n = segs.len();
    let mut i: usize = 0;
    proof {
        assert(view.skip(0) =~= view);
    }
    while i < n
        invariant
            n == segs@.len(),
            i <= n,
            view == segs@.map_values(|p: String| p@),
            lookup_raw(view, key@) == lookup_raw(view.skip(i as int), key@),
        decreases n - i,
    {
        proof {
            assert(view.skip(i as int)[0] == view[i as int]);
            assert(view.skip(i as int).skip(1) =~= view.skip(i + 1));
        }
        if seg_matches_key(segs[i].as_str(), key) {
            let kn = key.unicode_len();
            let sn = segs[i].as_str().unicode_len();
            let raw = segs[i].as_str().substring_char(kn + 1, sn);
            proof {
                assert(raw@ =~= view[i as int].skip(key@.len() as int + 1));
            }
            return Some(raw.to_owned());
        }
        i = i + 1;
    }
    None
}

} // verus!
