//! Normalisation of e-mail addresses before they are looked up or stored.

use crate::text::{
    chars_of, find_char, first_index, last_match, lowercased, rfind, trim, trimmed,
};
use vstd::prelude::*;

verus! {

/// The top-level domains after which trailing text is cut off, in the order
/// in which they are tried.
pub open spec fn known_tlds() -> Seq<Seq<char>> {
    seq![
        ".com"@,
        ".nl"@,
        ".net"@,
        ".org"@,
        ".be"@,
        ".eu"@,
        ".de"@,
        ".uk"@,
        ".edu"@,
        ".gov"@,
    ]
}

/// Where `s` is cut for `tld`: right behind the last occurrence of `tld`,
/// provided that something follows it and that it starts after the first `@`.
pub open spec fn cut_point(s: Seq<char>, tld: Seq<char>) -> Option<int> {
    match (last_match(s, tld), first_index(s, '@')) {
        (Some(i), Some(at)) => if i + tld.len() < s.len() && at < i {
            Some(i + tld.len())
        } else {
            None
        },
        _ => None,
    }
}

/// The cut point of the first of `tlds[k..]` that has one.
pub open spec fn first_cut(s: Seq<char>, tlds: Seq<Seq<char>>, k: int) -> Option<int>
    decreases tlds.len() - k,
{
    if k < 0 || k >= tlds.len() {
        None
    } else {
        match cut_point(s, tlds[k]) {
            Some(end) => Some(end),
            None => first_cut(s, tlds, k + 1),
        }
    }
}

/// `s` without one trailing dot.
pub open spec fn without_trailing_dot(s: Seq<char>) -> Seq<char> {
    if s.len() > 0 && s.last() == '.' {
        s.drop_last()
    } else {
        s
    }
}

/// An already trimmed, lower-case address with what follows its top-level
/// domain removed, or else with one trailing dot removed.
pub open spec fn normalized(s: Seq<char>) -> Seq<char> {
    match first_cut(s, known_tlds(), 0) {
        Some(end) => s.subrange(0, end),
        None => without_trailing_dot(s),
    }
}

/// The sanitised form of an e-mail address: trimmed, lower-cased, then
/// [`normalized`].
pub open spec fn sanitized(email: Seq<char>) -> Seq<char> {
    normalized(lowercased(trimmed(email)))
}

/// The `k`-th known top-level domain.
fn known_tld(k: usize) -> (r: &'static str)
    requires
        k < 10,
    ensures
        r@ == known_tlds()[k as int],
        known_tlds().len() == 10,
{
    match k {
        0 => ".com",
        1 => ".nl",
        2 => ".net",
        3 => ".org",
        4 => ".be",
        5 => ".eu",
        6 => ".de",
        7 => ".uk",
        8 => ".edu",
        _ => ".gov",
    }
}

/// Where `chars` is cut for the top-level domain `tld`, given the index of
/// its first `@`.
fn cut_for(chars: &Vec<char>, tld: &Vec<char>, at: Option<usize>) -> (r: Option<usize>)
    requires
        match at {
            Some(a) => first_index(chars@, '@') == Some(a as int),
            None => first_index(chars@, '@') is None,
        },
    ensures
        match r {
            Some(end) => cut_point(chars@, tld@) == Some(end as int) && end < chars@.len(),
            None => cut_point(chars@, tld@) is None,
        },
{
    match (rfind(chars, tld), at) {
        (Some(idx), Some(a)) => {
            if tld.len() < chars.len() - idx && a < idx {
                Some(idx + tld.len())
            } else {
                None
            }
        },
        _ => None,
    }
}

/// Normalises an address that is already trimmed and in lower case: cuts
/// off what follows a known top-level domain in the domain part, or else
/// drops one trailing dot.
pub fn normalize_email(lowered: &str) -> (r: String)
    ensures
        r@ == normalized(lowered@),
{
    let chars = chars_of(lowered);
    let at = find_char(&chars, '@');
    let mut k: usize = 0;
    while k < 10
        invariant
            k <= 10,
            known_tlds().len() == 10,
            chars@ == lowered@,
            match at {
                Some(a) => first_index(chars@, '@') == Some(a as int),
                None => first_index(chars@, '@') is None,
            },
            first_cut(chars@, known_tlds(), 0) == first_cut(chars@, known_tlds(), k as int),
        decreases 10 - k,
    {
        let tld = chars_of(known_tld(k));
        match cut_for(&chars, &tld, at) {
            Some(end) => {
                return lowered.substring_char(0, end).to_owned();
            },
            None => {},
        }
        k += 1;
    }
    let n = chars.len();
    if n > 0 && chars[n - 1] == '.' {
        lowered.substring_char(0, n - 1).to_owned()
    } else {
        lowered.to_owned()
    }
}

/// Sanitises an e-mail address: trims it, lower-cases it, and cuts off what
/// follows a known top-level domain in the domain part (`a@b.com/x` becomes
/// `a@b.com`); an address without such a tail loses one trailing dot.
pub fn sanitize_email(email: &str) -> (r: String)
    ensures
        r@ == sanitized(email@),
{
    let lowered: String = trim(email).to_lowercase();
    normalize_email(lowered.as_str())
}

} // verus!
