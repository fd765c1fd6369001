//! Hexadecimal text, the form in which encrypted blobs and keys are written
//! down. The conversions are those of the `hex` crate.

use vstd::prelude::*;
use vstd::utf8::{encode_utf8, is_ascii_chars, is_ascii_chars_encode_utf8};

verus! {

/// The lower-case hexadecimal digit for a value below 16.
pub open spec fn hex_digit(n: int) -> char {
    "0123456789abcdef"@[n]
}

/// The value of a byte read as a hexadecimal digit of either case.
pub open spec fn hex_value(b: u8) -> Option<int> {
    if 0x30 <= b <= 0x39 {
        Some(b - 0x30)
    } else if 0x61 <= b <= 0x66 {
        Some(b - 0x61 + 10)
    } else if 0x41 <= b <= 0x46 {
        Some(b - 0x41 + 10)
    } else {
        None
    }
}

/// Two lower-case digits for each byte, the high half first.
pub open spec fn hex_encoding(data: Seq<u8>) -> Seq<char> {
    Seq::new(
        2 * data.len(),
        |i: int|
            hex_digit(
                if i % 2 == 0 {
                    data[i / 2] as int / 16
                } else {
                    data[i / 2] as int % 16
                },
            ),
    )
}

/// An even number of bytes, each of them a hexadecimal digit.
pub open spec fn is_hex(text: Seq<u8>) -> bool {
    text.len() % 2 == 0 && forall|i: int| 0 <= i < text.len() ==> hex_value(#[trigger] text[i]) is Some
}

/// The bytes that a hexadecimal text stands for.
pub open spec fn hex_decoding(text: Seq<u8>) -> Seq<u8> {
    Seq::new(
        text.len() / 2,
        |i: int| (hex_value(text[2 * i])->0 * 16 + hex_value(text[2 * i + 1])->0) as u8,
    )
}

/// `hex::encode`: two lower-case hexadecimal digits per input byte, taken
/// from the crate's table `0123456789abcdef`, high half first.
#[verifier::external_body]
pub(crate) fn hex_encode(data: &[u8]) -> (r: String)
    ensures
        r@ == hex_encoding(data@),
{
    hex::encode(data)
}

/// `hex::decode`: fails on an odd number of bytes or on a byte that is no
/// hexadecimal digit; otherwise each pair of digits, of either case, gives
/// one byte.
#[verifier::external_body]
pub(crate) fn hex_decode(text: &[u8]) -> (r: Option<Vec<u8>>)
    ensures
        match r {
            Some(data) => is_hex(text@) && data@ == hex_decoding(text@),
            None => !is_hex(text@),
        },
{
    hex::decode(text).ok()
}

/// Hexadecimal text is ASCII, one byte per character.
pub proof fn lemma_hex_encoding_ascii(data: Seq<u8>)
    ensures
        is_ascii_chars(hex_encoding(data)),
        encode_utf8(hex_encoding(data)).len() == 2 * data.len(),
        forall|i: int|
            0 <= i < 2 * data.len() ==> #[trigger] encode_utf8(hex_encoding(data))[i]
                == hex_encoding(data)[i] as u8,
{
    reveal_strlit("0123456789abcdef");
    let text = hex_encoding(data);
    assert forall|i: int| 0 <= i < text.len() implies '\0' <= #[trigger] text[i] <= '\u{7f}' by {
        let n = if i % 2 == 0 {
            data[i / 2] as int / 16
        } else {
            data[i / 2] as int % 16
        };
        assert(0 <= n < 16);
        assert(text[i] == hex_digit(n));
    }
    is_ascii_chars_encode_utf8(text);
}

/// Decoding the text that encodes `data` gives `data` back.
pub proof fn lemma_hex_round_trip(data: Seq<u8>)
    ensures
        is_hex(encode_utf8(hex_encoding(data))),
        hex_decoding(encode_utf8(hex_encoding(data))) == data,
{
    reveal_strlit("0123456789abcdef");
    lemma_hex_encoding_ascii(data);
    let text = hex_encoding(data);
    let bytes = encode_utf8(text);
    assert forall|i: int| 0 <= i < bytes.len() implies hex_value(#[trigger] bytes[i]) == Some(
        if i % 2 == 0 {
            data[i / 2] as int / 16
        } else {
            data[i / 2] as int % 16
        },
    ) by {
        let n = if i % 2 == 0 {
            data[i / 2] as int / 16
        } else {
            data[i / 2] as int % 16
        };
        assert(0 <= n < 16);
        assert(text[i] == hex_digit(n));
        assert(bytes[i] == text[i] as u8);
    }
    assert(hex_decoding(bytes) =~= data) by {
        assert forall|k: int| 0 <= k < data.len() implies hex_decoding(bytes)[k] == data[k] by {
            assert(hex_value(bytes[2 * k]) == Some(data[k] as int / 16));
            assert(hex_value(bytes[2 * k + 1]) == Some(data[k] as int % 16));
        }
    }
}

} // verus!
