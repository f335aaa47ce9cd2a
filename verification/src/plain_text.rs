//! Text as it comes from an input stream: white space at both ends is not
//! part of the message, and the message is the UTF-8 bytes of what is left.
//!
//! Trimming changes which bytes are signed or encrypted. It is kept on
//! purpose, so that signatures and ciphertexts made from the same text
//! agree whether or not the text ended in a line break.

use vstd::prelude::*;
use vstd::utf8::{
    encode_utf8, encode_utf8_decode_utf8, is_ascii_chars, is_ascii_chars_encode_utf8,
    partial_valid_utf8, partial_valid_utf8_extend_ascii_block, valid_utf8,
};

verus! {

/// Whether `c` has the Unicode property White_Space.
pub open spec fn is_white_space(c: char) -> bool {
    let u = c as u32;
    ||| 0x0009 <= u <= 0x000D
    ||| u == 0x0020
    ||| u == 0x0085
    ||| u == 0x00A0
    ||| u == 0x1680
    ||| 0x2000 <= u <= 0x200A
    ||| u == 0x2028
    ||| u == 0x2029
    ||| u == 0x202F
    ||| u == 0x205F
    ||| u == 0x3000
}

/// `text` without the white space it starts with.
pub open spec fn trimmed_start(text: Seq<char>) -> Seq<char>
    decreases text.len(),
{
    if text.len() > 0 && is_white_space(text.first()) {
        trimmed_start(text.drop_first())
    } else {
        text
    }
}

/// `text` without the white space it ends with.
pub open spec fn trimmed_end(text: Seq<char>) -> Seq<char>
    decreases text.len(),
{
    if text.len() > 0 && is_white_space(text.last()) {
        trimmed_end(text.drop_last())
    } else {
        text
    }
}

/// `text` without the white space at either end.
pub open spec fn trimmed(text: Seq<char>) -> Seq<char> {
    trimmed_end(trimmed_start(text))
}

/// A text that neither starts nor ends with white space is its own
/// trimming.
pub proof fn lemma_trim_keeps_bare_text(text: Seq<char>)
    requires
        text.len() > 0 ==> !is_white_space(text.first()) && !is_white_space(text.last()),
    ensures
        trimmed(text) == text,
{
}

/// The message that a text input stands for: the UTF-8 bytes of the text
/// without the white space at either end.
pub open spec fn message_of(text: Seq<char>) -> Seq<u8> {
    encode_utf8(trimmed(text))
}

/// Calls `str::trim`.
///
/// Trusted: the result is the text without its leading and trailing
/// characters of the Unicode property White_Space.
#[verifier::external_body]
pub(crate) fn trim(text: &str) -> (r: &str)
    ensures
        r@ == trimmed(text@),
{
    text.trim()
}

/// Calls `String::from_utf8`.
///
/// Trusted: the call succeeds exactly on valid UTF-8, and the bytes of the
/// string it gives are the bytes it was given.
#[verifier::external_body]
pub(crate) fn utf8_string(bytes: Vec<u8>) -> (r: Option<String>)
    ensures
        r is Some <==> valid_utf8(bytes@),
        r matches Some(text) ==> encode_utf8(text@) == bytes@,
{
    String::from_utf8(bytes).ok()
}

/// The text whose characters are the given ASCII bytes, one for one.
pub open spec fn ascii_text(bytes: Seq<u8>) -> Seq<char> {
    Seq::new(bytes.len(), |i: int| bytes[i] as char)
}

/// Bytes below 128 are valid UTF-8, and the only text they encode has one
/// character for each byte.
pub proof fn lemma_ascii_bytes_are_text(bytes: Seq<u8>)
    requires
        forall|i: int| 0 <= i < bytes.len() ==> #[trigger] bytes[i] < 128,
    ensures
        valid_utf8(bytes),
        encode_utf8(ascii_text(bytes)) == bytes,
        forall|text: Seq<char>| #[trigger] encode_utf8(text) == bytes ==> text == ascii_text(bytes),
{
    assert(bytes.subrange(0, 0) =~= Seq::<u8>::empty());
    assert(partial_valid_utf8(bytes, 0));
    partial_valid_utf8_extend_ascii_block(bytes, 0, bytes.len() as int);
    assert(bytes.subrange(0, bytes.len() as int) =~= bytes);
    let text = ascii_text(bytes);
    assert(is_ascii_chars(text)) by {
        assert forall|i: int| 0 <= i < text.len() implies '\0' <= #[trigger] text[i]
            <= '\u{7f}' by {
            assert(bytes[i] < 128);
        }
    }
    is_ascii_chars_encode_utf8(text);
    assert(encode_utf8(text) =~= bytes) by {
        assert forall|i: int| 0 <= i < bytes.len() implies encode_utf8(text)[i] == bytes[i] by {
            assert(text[i] as u8 == encode_utf8(text)[i]);
            assert(bytes[i] < 128);
        }
    }
    assert forall|other: Seq<char>| #[trigger] encode_utf8(other) == bytes implies other
        == text by {
        encode_utf8_decode_utf8(other);
        encode_utf8_decode_utf8(text);
    }
}

/// The string whose characters are the given ASCII bytes.
pub fn ascii_string(bytes: Vec<u8>) -> (text: String)
    requires
        forall|i: int| 0 <= i < bytes@.len() ==> #[trigger] bytes@[i] < 128,
    ensures
        text@ == ascii_text(bytes@),
{
    proof {
        lemma_ascii_bytes_are_text(bytes@);
    }
    match utf8_string(bytes) {
        Some(text) => text,
        None => unreached(),
    }
}

/// The message bytes of a text input.
pub fn message_bytes(text: &str) -> (message: &[u8])
    ensures
        message@ == message_of(text@),
{
    trim(text).as_bytes()
}

} // verus!
