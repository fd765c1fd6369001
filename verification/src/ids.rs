//! Identifiers as they travel in tokens and links: user ids as decimal
//! text, session and token ids as UUID text.

use crate::encoding::hex_encoding;
use crate::text::chars_of;
use vstd::arithmetic::power::pow;
use vstd::prelude::*;

verus! {

/// The value of a decimal digit.
pub open spec fn digit_value(c: char) -> Option<int> {
    if '0' <= c <= '9' {
        Some(c as int - '0' as int)
    } else {
        None
    }
}

/// Every character is a decimal digit.
pub open spec fn all_digits(s: Seq<char>) -> bool {
    forall|i: int| 0 <= i < s.len() ==> digit_value(#[trigger] s[i]) is Some
}

/// The number that a run of decimal digits stands for.
pub open spec fn digits_value(s: Seq<char>) -> int
    decreases s.len(),
{
    if s.len() == 0 {
        0
    } else {
        digits_value(s.drop_last()) * 10 + digit_value(s.last())->0
    }
}

/// The number that `s` stands for as an `i32`: an optional sign, then at
/// least one digit and nothing else, within the range of the type.
pub open spec fn parsed_i32(s: Seq<char>) -> Option<int> {
    let body = unsigned_part(s);
    let value = if s.len() > 0 && s[0] == '-' {
        -digits_value(body)
    } else {
        digits_value(body)
    };
    if body.len() > 0 && all_digits(body) && i32::MIN <= value <= i32::MAX {
        Some(value)
    } else {
        None
    }
}

/// A number's text without its sign.
pub open spec fn unsigned_part(s: Seq<char>) -> Seq<char> {
    if s.len() > 0 && (s[0] == '-' || s[0] == '+') {
        s.drop_first()
    } else {
        s
    }
}

/// The decimal digits of a natural number, without leading zeros.
pub open spec fn digits(n: nat) -> Seq<char>
    decreases n,
{
    if n < 10 {
        seq!["0123456789"@[n as int]]
    } else {
        digits(n / 10).push("0123456789"@[(n % 10) as int])
    }
}

/// The decimal text of an integer, with `-` in front of a negative one.
pub open spec fn decimal(n: int) -> Seq<char> {
    if n < 0 {
        seq!['-'] + digits((-n) as nat)
    } else {
        digits(n as nat)
    }
}

/// The sixteen bytes of a 128-bit identifier, most significant first.
pub open spec fn be_bytes(id: u128) -> Seq<u8> {
    Seq::new(16, |i: int| (id as int / pow(256, (15 - i) as nat) % 256) as u8)
}

/// The text of a UUID: its 32 lower-case hexadecimal digits in groups of
/// 8, 4, 4, 4 and 12, with hyphens between them.
pub open spec fn uuid_text(id: u128) -> Seq<char> {
    let h = hex_encoding(be_bytes(id));
    h.subrange(0, 8) + seq!['-'] + h.subrange(8, 12) + seq!['-'] + h.subrange(12, 16) + seq!['-']
        + h.subrange(16, 20) + seq!['-'] + h.subrange(20, 32)
}

/// The identifier that a text stands for as `Uuid::parse_str` reads it, in
/// any of the forms that it accepts (hyphenated, simple, URN, braced).
pub uninterp spec fn uuid_parsed(text: Seq<char>) -> Option<u128>;

/// `i32::to_string` of std: the decimal digits, after `-` for a negative
/// number.
#[verifier::external_body]
pub(crate) fn i32_to_decimal(n: i32) -> (r: String)
    ensures
        r@ == decimal(n as int),
{
    n.to_string()
}

/// `Uuid::parse_str` of `uuid`, the identifier taken by `Uuid::as_u128`.
#[verifier::external_body]
pub(crate) fn uuid_from_text(text: &str) -> (r: Option<u128>)
    ensures
        r == uuid_parsed(text@),
{
    uuid::Uuid::parse_str(text).ok().map(|id| id.as_u128())
}

/// `Uuid::to_string` of `uuid` on `Uuid::from_u128(id)`: the hyphenated
/// lower-case form, which `Uuid::parse_str` reads back as `id`.
#[verifier::external_body]
pub(crate) fn uuid_to_text(id: u128) -> (r: String)
    ensures
        r@ == uuid_text(id),
        uuid_parsed(r@) == Some(id),
{
    uuid::Uuid::from_u128(id).to_string()
}

/// Reads a UUID in any of the forms that `Uuid::parse_str` accepts.
pub fn parse_uuid(text: &str) -> (r: Option<u128>)
    ensures
        r == uuid_parsed(text@),
{
    uuid_from_text(text)
}

/// Writes an identifier as a UUID in hyphenated lower-case form;
/// [`parse_uuid`] reads the text back as the same identifier.
pub fn format_uuid(id: u128) -> (r: String)
    ensures
        r@ == uuid_text(id),
        uuid_parsed(r@) == Some(id),
{
    uuid_to_text(id)
}

proof fn lemma_digits_value_prefix(s: Seq<char>, k: int)
    requires
        all_digits(s),
        0 <= k <= s.len(),
    ensures
        0 <= digits_value(s.take(k)) <= digits_value(s),
    decreases s.len() - k,
{
    if k == s.len() {
        assert(s.take(k) =~= s);
        lemma_digits_value_nonnegative(s);
    } else {
        lemma_digits_value_prefix(s, k + 1);
        assert(s.take(k + 1).drop_last() =~= s.take(k));
        assert(s.take(k + 1).last() == s[k]);
        assert(digit_value(s[k]) is Some);
        lemma_digits_value_nonnegative(s.take(k));
    }
}

proof fn lemma_digits_value_nonnegative(s: Seq<char>)
    requires
        all_digits(s),
    ensures
        0 <= digits_value(s),
    decreases s.len(),
{
    if s.len() > 0 {
        assert(digit_value(s.last()) is Some);
        lemma_digits_value_nonnegative(s.drop_last());
    }
}

/// The digits of a natural number are digits, and stand for that number.
pub proof fn lemma_digits_value(n: nat)
    ensures
        digits(n).len() > 0,
        all_digits(digits(n)),
        digits_value(digits(n)) == n,
    decreases n,
{
    reveal_strlit("0123456789");
    if n < 10 {
        let s = digits(n);
        assert(s.drop_last() =~= Seq::<char>::empty());
        assert(digits_value(s.drop_last()) == 0);
    } else {
        lemma_digits_value(n / 10);
        let s = digits(n);
        assert(s.drop_last() =~= digits(n / 10));
        assert(s.last() == "0123456789"@[(n % 10) as int]);
        assert forall|i: int| 0 <= i < s.len() implies digit_value(#[trigger] s[i]) is Some by {
            if i < s.len() - 1 {
                assert(s[i] == digits(n / 10)[i]);
            }
        }
    }
}

/// Reading back the decimal text of an `i32` gives the number.
pub proof fn lemma_parse_decimal(n: i32)
    ensures
        parsed_i32(decimal(n as int)) == Some(n as int),
{
    reveal_strlit("0123456789");
    if n < 0 {
        let m = (-(n as int)) as nat;
        lemma_digits_value(m);
        let s = decimal(n as int);
        assert(s[0] == '-');
        assert(s.drop_first() =~= digits(m));
    } else {
        lemma_digits_value(n as nat);
        let s = decimal(n as int);
        assert(s.len() > 0);
        assert(digit_value(s[0]) is Some);
    }
}

/// The value of `c` as a decimal digit.
fn digit_of(c: char) -> (r: Option<i64>)
    ensures
        match r {
            Some(d) => digit_value(c) == Some(d as int) && 0 <= d <= 9,
            None => digit_value(c) is None,
        },
{
    let code = c as u32;
    if 0x30 <= code && code <= 0x39 {
        Some((code - 0x30) as i64)
    } else {
        None
    }
}

/// Reads `s` as an `i32` in decimal, as `str::parse::<i32>` does: an
/// optional `+` or `-`, then digits only; no white space, no empty number,
/// no value out of range.
pub fn parse_i32(s: &str) -> (r: Option<i32>)
    ensures
        match r {
            Some(n) => parsed_i32(s@) == Some(n as int),
            None => parsed_i32(s@) is None,
        },
{
    let chars = chars_of(s);
    let n = chars.len();
    if n == 0 {
        return None;
    }
    let negative = chars[0] == '-';
    let start: usize = if negative || chars[0] == '+' {
        1
    } else {
        0
    };
    let ghost body = chars@.subrange(start as int, n as int);
    proof {
        if start == 0 {
            assert(body =~= chars@);
        } else {
            assert(body =~= chars@.drop_first());
        }
    }
    if start == n {
        return None;
    }
    let mut acc: i64 = 0;
    let mut i: usize = start;
    while i < n
        invariant
            start <= i <= n,
            n == chars@.len(),
            chars@ == s@,
            negative == (s@[0] == '-'),
            body == unsigned_part(s@),
            body == chars@.subrange(start as int, n as int),
            all_digits(body.take(i - start)),
            acc == digits_value(body.take(i - start)),
            0 <= acc <= 0x8000_0000,
        decreases n - i,
    {
        let d = match digit_of(chars[i]) {
            Some(d) => d,
            None => {
                proof {
                    assert(body[i - start] == chars@[i as int]);
                }
                return None;
            },
        };
        proof {
            let next = body.take(i - start + 1);
            assert(next.drop_last() =~= body.take(i - start));
            assert(next.last() == chars@[i as int]);
            assert forall|j: int| 0 <= j < next.len() implies digit_value(
                #[trigger] next[j],
            ) is Some by {
                if j < next.len() - 1 {
                    assert(next[j] == body.take(i - start)[j]);
                }
            }
        }
        acc = acc * 10 + d;
        i += 1;
        if acc > 0x8000_0000 {
            proof {
                if all_digits(body) {
                    lemma_digits_value_prefix(body, i - start);
                }
            }
            return None;
        }
    }
    proof {
        assert(body.take(n - start) =~= body);
    }
    if negative {
        Some((-acc) as i32)
    } else if acc > 0x7fff_ffff {
        None
    } else {
        Some(acc as i32)
    }
}

} // verus!
