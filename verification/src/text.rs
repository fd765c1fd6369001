//! Character-level helpers for `&str` values, stated over `Seq<char>`.

use vstd::prelude::*;

verus! {

/// Whether `c` is white space in the sense of `char::is_whitespace`
/// (the Unicode `White_Space` property).
pub uninterp spec fn is_whitespace(c: char) -> bool;

/// The lower-case form of a text as `str::to_lowercase` computes it.
pub uninterp spec fn lowercased(s: Seq<char>) -> Seq<char>;

/// `char::is_whitespace` of std: the result is named [`is_whitespace`]; the
/// set of white-space characters is not spelled out here.
pub assume_specification[ char::is_whitespace ](c: char) -> (r: bool)
    ensures
        r == is_whitespace(c),
;

/// `str::to_lowercase` of std: the result is named [`lowercased`]. Unicode
/// case mapping depends on context, so nothing more is claimed of it.
pub assume_specification[ str::to_lowercase ](s: &str) -> (r: String)
    ensures
        r@ == lowercased(s@),
;

/// The first index at or after `from` that holds no white space
/// (`s.len()` where there is none).
pub open spec fn skip_whitespace(s: Seq<char>, from: int) -> int
    decreases s.len() - from,
{
    if 0 <= from < s.len() && is_whitespace(s[from]) {
        skip_whitespace(s, from + 1)
    } else {
        from
    }
}

/// The end of `s` once trailing white space is dropped, never below `floor`.
pub open spec fn skip_whitespace_back(s: Seq<char>, to: int, floor: int) -> int
    decreases to,
{
    if 0 <= floor < to <= s.len() && is_whitespace(s[to - 1]) {
        skip_whitespace_back(s, to - 1, floor)
    } else {
        to
    }
}

/// `s` without its leading and trailing white space.
pub open spec fn trimmed(s: Seq<char>) -> Seq<char> {
    let start = skip_whitespace(s, 0);
    s.subrange(start, skip_whitespace_back(s, s.len() as int, start))
}

/// `pat` occurs in `s` at index `i`.
pub open spec fn matches_at(s: Seq<char>, pat: Seq<char>, i: int) -> bool {
    0 <= i && i + pat.len() <= s.len() && s.subrange(i, i + pat.len()) == pat
}

/// `i` is where the last occurrence of `pat` in `s` starts.
pub open spec fn is_last_match(s: Seq<char>, pat: Seq<char>, i: int) -> bool {
    matches_at(s, pat, i) && forall|j: int| i < j ==> !matches_at(s, pat, j)
}

/// Where the last occurrence of `pat` in `s` starts, if there is one.
pub open spec fn last_match(s: Seq<char>, pat: Seq<char>) -> Option<int> {
    if exists|i: int| is_last_match(s, pat, i) {
        Some(choose|i: int| is_last_match(s, pat, i))
    } else {
        None
    }
}

/// `i` is the first index of `s` that holds `c`.
pub open spec fn is_first_index(s: Seq<char>, c: char, i: int) -> bool {
    0 <= i < s.len() && s[i] == c && forall|j: int| 0 <= j < i ==> s[j] != c
}

/// The first index of `s` that holds `c`, if `c` occurs.
pub open spec fn first_index(s: Seq<char>, c: char) -> Option<int> {
    if exists|i: int| is_first_index(s, c, i) {
        Some(choose|i: int| is_first_index(s, c, i))
    } else {
        None
    }
}

/// A last occurrence is unique, so `last_match` names it.
pub proof fn lemma_last_match_unique(s: Seq<char>, pat: Seq<char>, i: int)
    requires
        is_last_match(s, pat, i),
    ensures
        last_match(s, pat) == Some(i),
{
    let k = choose|k: int| is_last_match(s, pat, k);
    assert(is_last_match(s, pat, k));
    if k < i {
        assert(!matches_at(s, pat, i));
    }
    if i < k {
        assert(!matches_at(s, pat, k));
    }
}

/// Without any occurrence there is no last one.
pub proof fn lemma_last_match_none(s: Seq<char>, pat: Seq<char>)
    requires
        forall|j: int| !matches_at(s, pat, j),
    ensures
        last_match(s, pat) is None,
{
}

/// A first index is unique, so `first_index` names it.
pub proof fn lemma_first_index_unique(s: Seq<char>, c: char, i: int)
    requires
        is_first_index(s, c, i),
    ensures
        first_index(s, c) == Some(i),
{
    let k = choose|k: int| is_first_index(s, c, k);
    assert(is_first_index(s, c, k));
    if k < i {
        assert(s[k] != c);
    }
    if i < k {
        assert(s[i] != c);
    }
}

/// `first_index` finds a character exactly when the text contains it.
pub proof fn lemma_first_index_contains(s: Seq<char>, c: char)
    ensures
        first_index(s, c) is Some <==> s.contains(c),
        first_index(s, c) matches Some(i) ==> is_first_index(s, c, i),
    decreases s.len(),
{
    if s.contains(c) {
        let w = choose|w: int| 0 <= w < s.len() && s[w] == c;
        lemma_first_occurrence_below(s, c, w);
    }
    if let Some(i) = first_index(s, c) {
        assert(is_first_index(s, c, i));
    }
}

proof fn lemma_first_occurrence_below(s: Seq<char>, c: char, w: int)
    requires
        0 <= w < s.len(),
        s[w] == c,
    ensures
        exists|i: int| is_first_index(s, c, i),
    decreases w,
{
    if exists|j: int| 0 <= j < w && s[j] == c {
        let j = choose|j: int| 0 <= j < w && s[j] == c;
        lemma_first_occurrence_below(s, c, j);
    } else {
        assert(is_first_index(s, c, w));
    }
}

/// The characters of `s`, in order, as a vector.
pub fn chars_of(s: &str) -> (v: Vec<char>)
    ensures
        v@ == s@,
{
    let mut v: Vec<char> = Vec::new();
    for c in it: s.chars()
        invariant
            v@ == it.seq().take(it.index() as int),
            it.seq() == s@,
    {
        v.push(c);
    }
    v
}

/// `s` without leading and trailing white space, as `str::trim` gives it.
pub fn trim(s: &str) -> (r: &str)
    ensures
        r@ == trimmed(s@),
{
    let chars = chars_of(s);
    let n = chars.len();
    let mut start: usize = 0;
    while start < n && chars[start].is_whitespace()
        invariant
            n == chars@.len(),
            start <= n,
            skip_whitespace(chars@, 0) == skip_whitespace(chars@, start as int),
        decreases n - start,
    {
        start += 1;
    }
    let mut end: usize = n;
    while end > start && chars[end - 1].is_whitespace()
        invariant
            n == chars@.len(),
            start <= end <= n,
            skip_whitespace_back(chars@, n as int, start as int) == skip_whitespace_back(
                chars@,
                end as int,
                start as int,
            ),
        decreases end,
    {
        end -= 1;
    }
    s.substring_char(start, end)
}

/// Whether `s` holds the character `c`.
pub fn contains_char(s: &str, c: char) -> (r: bool)
    ensures
        r == s@.contains(c),
{
    let chars = chars_of(s);
    let found = find_char(&chars, c);
    proof {
        lemma_first_index_contains(s@, c);
    }
    found.is_some()
}

/// The first index of `chars` that holds `c`.
pub fn find_char(chars: &Vec<char>, c: char) -> (r: Option<usize>)
    ensures
        match r {
            Some(i) => first_index(chars@, c) == Some(i as int),
            None => first_index(chars@, c) is None,
        },
{
    let mut i: usize = 0;
    while i < chars.len()
        invariant
            i <= chars@.len(),
            forall|j: int| 0 <= j < i ==> chars@[j] != c,
        decreases chars@.len() - i,
    {
        if chars[i] == c {
            proof {
                lemma_first_index_unique(chars@, c, i as int);
            }
            return Some(i);
        }
        i += 1;
    }
    proof {
        assert forall|k: int| !is_first_index(chars@, c, k) by {}
    }
    None
}

/// Whether `pat` occurs in `chars` at index `i`.
pub fn matches_here(chars: &Vec<char>, pat: &Vec<char>, i: usize) -> (r: bool)
    requires
        i + pat@.len() <= chars@.len(),
    ensures
        r == matches_at(chars@, pat@, i as int),
{
    let n = chars.len();
    let mut k: usize = 0;
    while k < pat.len()
        invariant
            k <= pat@.len(),
            i + pat@.len() <= chars@.len() == n,
            forall|j: int| 0 <= j < k ==> chars@[i + j] == pat@[j],
        decreases pat@.len() - k,
    {
        if chars[i + k] != pat[k] {
            proof {
                assert(chars@.subrange(i as int, i + pat@.len())[k as int] == chars@[i + k]);
            }
            return false;
        }
        k += 1;
    }
    proof {
        assert(chars@.subrange(i as int, i + pat@.len()) =~= pat@);
    }
    true
}

/// Where the last occurrence of `pat` in `chars` starts.
pub fn rfind(chars: &Vec<char>, pat: &Vec<char>) -> (r: Option<usize>)
    ensures
        match r {
            Some(i) => last_match(chars@, pat@) == Some(i as int),
            None => last_match(chars@, pat@) is None,
        },
{
    if pat.len() > chars.len() {
        proof {
            lemma_last_match_none(chars@, pat@);
        }
        return None;
    }
    let mut i: usize = chars.len() - pat.len();
    loop
        invariant
            pat@.len() <= chars@.len(),
            i <= chars@.len() - pat@.len(),
            forall|j: int| i < j ==> !matches_at(chars@, pat@, j),
        decreases i,
    {
        if matches_here(chars, pat, i) {
            proof {
                lemma_last_match_unique(chars@, pat@, i as int);
            }
            return Some(i);
        }
        if i == 0 {
            proof {
                lemma_last_match_none(chars@, pat@);
            }
            return None;
        }
        i -= 1;
    }
}

} // verus!
