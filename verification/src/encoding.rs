//! The text form of sealed bytes and of keys: two hex digits for each byte.

use vstd::prelude::*;
use vstd::utf8::*;

verus! {

/// The lower-case hex digit that stands for a value below 16.
pub open spec fn hex_digit(value: int) -> char {
    if value < 10 {
        (0x30 + value) as char
    } else {
        (0x57 + value) as char
    }
}

/// The hex text of `bytes`: for each byte its high digit, then its low digit.
pub open spec fn hex_chars(bytes: Seq<u8>) -> Seq<char> {
    Seq::new(
        2 * bytes.len(),
        |i: int|
            if i % 2 == 0 {
                hex_digit(bytes[i / 2] as int / 16)
            } else {
                hex_digit(bytes[i / 2] as int % 16)
            },
    )
}

/// The value of one byte of hex text; digits and letters of either case count.
pub open spec fn hex_value(c: u8) -> Option<int> {
    if 0x30 <= c <= 0x39 {
        Some(c - 0x30)
    } else if 0x61 <= c <= 0x66 {
        Some(c - 0x57)
    } else if 0x41 <= c <= 0x46 {
        Some(c - 0x37)
    } else {
        None
    }
}

/// Whether `text` is hex text: digits only, and an even number of them.
pub open spec fn is_hex(text: Seq<u8>) -> bool {
    &&& text.len() % 2 == 0
    &&& forall|i: int| 0 <= i < text.len() ==> hex_value(#[trigger] text[i]) is Some
}

/// The bytes that `text` stands for, where it is hex text.
pub open spec fn hex_bytes(text: Seq<u8>) -> Option<Seq<u8>> {
    if is_hex(text) {
        Some(
            Seq::new(
                text.len() / 2,
                |i: int|
                    (16 * hex_value(text[2 * i]).unwrap() + hex_value(
                        text[2 * i + 1],
                    ).unwrap()) as u8,
            ),
        )
    } else {
        None
    }
}

/// The bytes of a buffer, if there is one.
pub open spec fn bytes_of(bytes: Option<Vec<u8>>) -> Option<Seq<u8>> {
    match bytes {
        Some(bytes) => Some(bytes@),
        None => None,
    }
}

/// The characters of a text, if there is one.
pub open spec fn text_of(text: Option<String>) -> Option<Seq<char>> {
    match text {
        Some(text) => Some(text@),
        None => None,
    }
}

/// Hex text is plain ASCII, so as bytes it is its characters one by one.
pub proof fn lemma_hex_chars_as_bytes(bytes: Seq<u8>)
    ensures
        hex_chars(bytes).len() == 2 * bytes.len(),
        is_ascii_chars(hex_chars(bytes)),
        encode_utf8(hex_chars(bytes)).len() == 2 * bytes.len(),
        forall|i: int|
            0 <= i < 2 * bytes.len() ==> #[trigger] encode_utf8(hex_chars(bytes))[i] == hex_chars(
                bytes,
            )[i] as u8,
{
    let text = hex_chars(bytes);
    assert(is_ascii_chars(text));
    is_ascii_chars_encode_utf8(text);
}

/// Reading hex text back gives the bytes it was written from.
pub proof fn lemma_hex_round_trip(bytes: Seq<u8>)
    ensures
        hex_bytes(encode_utf8(hex_chars(bytes))) == Some(bytes),
{
    lemma_hex_chars_as_bytes(bytes);
    let text = encode_utf8(hex_chars(bytes));
    assert forall|i: int| 0 <= i < text.len() implies hex_value(#[trigger] text[i]) == Some(
        if i % 2 == 0 {
            bytes[i / 2] as int / 16
        } else {
            bytes[i / 2] as int % 16
        },
    ) by {
        assert(text[i] == hex_chars(bytes)[i] as u8);
    }
    assert(is_hex(text));
    let back = hex_bytes(text).unwrap();
    assert(back.len() == bytes.len());
    assert forall|k: int| 0 <= k < bytes.len() implies back[k] == bytes[k] by {
        assert(hex_value(text[2 * k]) == Some(bytes[k] as int / 16));
        assert(hex_value(text[2 * k + 1]) == Some(bytes[k] as int % 16));
    }
    assert(back =~= bytes);
}

/// Calls `hex::encode`, which writes each byte as two lower-case hex digits,
/// high digit first. The contract is that description, taken on trust.
#[verifier::external_body]
pub(crate) fn hex_encode(data: &[u8]) -> (text: String)
    ensures
        text@ == hex_chars(data@),
{
    ::hex::encode(data)
}

/// Calls `hex::decode`, which reads two hex digits of either case into each
/// byte and refuses text of odd length or with any other character. The
/// contract is that description, taken on trust; the detail of a refusal is
/// dropped.
#[verifier::external_body]
pub(crate) fn hex_decode(text: &[u8]) -> (r: Option<Vec<u8>>)
    ensures
        match r {
            Some(bytes) => hex_bytes(text@) == Some(bytes@),
            None => hex_bytes(text@) is None,
        },
{
    ::hex::decode(text).ok()
}

/// Calls `String::from_utf8`, which makes the given bytes a string where
/// they are valid UTF-8 and refuses them where they are not. The contract is
/// that description, taken on trust.
#[verifier::external_body]
pub(crate) fn text_from_utf8(bytes: Vec<u8>) -> (r: Option<String>)
    ensures
        match r {
            Some(text) => valid_utf8(bytes@) && encode_utf8(text@) == bytes@,
            None => !valid_utf8(bytes@),
        },
{
    String::from_utf8(bytes).ok()
}

} // verus!
