//! The transport encoding: bytes as base64 text and back, in the standard
//! alphabet with padding or in the URL-safe alphabet without.

use vstd::prelude::*;
use base64::engine::general_purpose::{STANDARD, URL_SAFE_NO_PAD};
use base64::Engine;
use crate::error::TextError;
use crate::format::Base64Format;
use crate::plain_text::{is_white_space, lemma_trim_keeps_bare_text, trim, trimmed};

verus! {

/// The base64 text of `data` in the standard alphabet, padded.
pub uninterp spec fn standard_base64(data: Seq<u8>) -> Seq<char>;

/// The base64 text of `data` in the URL-safe alphabet, not padded.
pub uninterp spec fn url_safe_base64(data: Seq<u8>) -> Seq<char>;

/// The bytes that `text` stands for in the standard alphabet, padded; or
/// nothing, where `text` is no such encoding.
pub uninterp spec fn standard_base64_decoded(text: Seq<char>) -> Option<Seq<u8>>;

/// The bytes that `text` stands for in the URL-safe alphabet, not padded;
/// or nothing, where `text` is no such encoding.
pub uninterp spec fn url_safe_base64_decoded(text: Seq<char>) -> Option<Seq<u8>>;

/// Whether `c` is a letter or a digit of ASCII: the characters that both
/// alphabets share.
pub open spec fn is_letter_or_digit(c: char) -> bool {
    'A' <= c <= 'Z' || 'a' <= c <= 'z' || '0' <= c <= '9'
}

/// Whether `c` can occur in a padded encoding in the standard alphabet.
pub open spec fn is_standard_char(c: char) -> bool {
    is_letter_or_digit(c) || c == '+' || c == '/' || c == '='
}

/// Whether `c` can occur in an unpadded encoding in the URL-safe alphabet.
pub open spec fn is_url_safe_char(c: char) -> bool {
    is_letter_or_digit(c) || c == '-' || c == '_'
}

/// Whether `c` can occur in an encoding in `format`.
pub open spec fn is_encoding_char(format: Base64Format, c: char) -> bool {
    match format {
        Base64Format::Standard => is_standard_char(c),
        Base64Format::UrlSafe => is_url_safe_char(c),
    }
}

/// How many characters the encoding of `len` bytes has: four for every
/// three bytes, and for a last group of one or two bytes either four, with
/// padding, or one more than it has bytes.
pub open spec fn encoded_len(len: nat, padded: bool) -> nat {
    if len % 3 == 0 {
        len / 3 * 4
    } else if padded {
        len / 3 * 4 + 4
    } else {
        len / 3 * 4 + len % 3 + 1
    }
}

/// Whether the encoding of `len` bytes has a length that a machine word
/// can hold.
pub open spec fn encodable(len: nat, padded: bool) -> bool {
    encoded_len(len, padded) <= usize::MAX
}

/// Whether this format pads the last group of an encoding.
pub open spec fn pads(format: Base64Format) -> bool {
    format == Base64Format::Standard
}

/// The encoding of `data` in `format`.
pub open spec fn encode_spec(format: Base64Format, data: Seq<u8>) -> Seq<char> {
    match format {
        Base64Format::Standard => standard_base64(data),
        Base64Format::UrlSafe => url_safe_base64(data),
    }
}

/// The bytes that `text` stands for in `format`, if any.
pub open spec fn decode_spec(format: Base64Format, text: Seq<char>) -> Option<Seq<u8>> {
    match format {
        Base64Format::Standard => standard_base64_decoded(text),
        Base64Format::UrlSafe => url_safe_base64_decoded(text),
    }
}

/// Calls `Engine::encode` on the engine `STANDARD`.
///
/// Trusted: the result is the padded encoding in the standard alphabet, of
/// the length that `base64::encoded_len` gives; it holds letters, digits,
/// `+`, `/` and `=` only; and decoding it gives the data back. The call
/// stops the program where that length overflows, so such data is left
/// out.
#[verifier::external_body]
fn encode_standard(data: &[u8]) -> (text: String)
    requires
        encodable(data@.len(), true),
    ensures
        text@ == standard_base64(data@),
        text@.len() == encoded_len(data@.len(), true),
        forall|i: int| 0 <= i < text@.len() ==> is_standard_char(#[trigger] text@[i]),
        standard_base64_decoded(text@) == Some(data@),
{
    STANDARD.encode(data)
}

/// Calls `Engine::encode` on the engine `URL_SAFE_NO_PAD`.
///
/// Trusted: the result is the unpadded encoding in the URL-safe alphabet,
/// of the length that `base64::encoded_len` gives; it holds letters,
/// digits, `-` and `_` only; and decoding it gives the data back. The call
/// stops the program where that length overflows, so such data is left
/// out.
#[verifier::external_body]
fn encode_url_safe(data: &[u8]) -> (text: String)
    requires
        encodable(data@.len(), false),
    ensures
        text@ == url_safe_base64(data@),
        text@.len() == encoded_len(data@.len(), false),
        forall|i: int| 0 <= i < text@.len() ==> is_url_safe_char(#[trigger] text@[i]),
        url_safe_base64_decoded(text@) == Some(data@),
{
    URL_SAFE_NO_PAD.encode(data)
}

/// Calls `Engine::decode` on the engine `STANDARD`.
///
/// Trusted: whether the call succeeds, and what it then gives, depends on
/// the text alone.
#[verifier::external_body]
fn decode_standard(text: &str) -> (r: Option<Vec<u8>>)
    ensures
        r is Some <==> standard_base64_decoded(text@) is Some,
        r matches Some(data) ==> standard_base64_decoded(text@) == Some(data@),
{
    STANDARD.decode(text).ok()
}

/// Calls `Engine::decode` on the engine `URL_SAFE_NO_PAD`.
///
/// Trusted: whether the call succeeds, and what it then gives, depends on
/// the text alone.
#[verifier::external_body]
fn decode_url_safe(text: &str) -> (r: Option<Vec<u8>>)
    ensures
        r is Some <==> url_safe_base64_decoded(text@) is Some,
        r matches Some(data) ==> url_safe_base64_decoded(text@) == Some(data@),
{
    URL_SAFE_NO_PAD.decode(text).ok()
}

/// Whether the encoding of `len` bytes fits a machine word.
fn fits_encoding(len: usize, padded: bool) -> (fits: bool)
    ensures
        fits == encodable(len as nat, padded),
{
    let groups = len / 3;
    let rest = len % 3;
    match groups.checked_mul(4) {
        None => false,
        Some(whole) => {
            if rest == 0 {
                true
            } else if padded {
                whole.checked_add(4).is_some()
            } else {
                whole.checked_add(rest + 1).is_some()
            }
        },
    }
}

/// A text made of encoding characters has no white space to trim.
pub proof fn lemma_encoding_is_bare(format: Base64Format, text: Seq<char>)
    requires
        forall|i: int| 0 <= i < text.len() ==> is_encoding_char(format, #[trigger] text[i]),
    ensures
        trimmed(text) == text,
{
    if text.len() > 0 {
        assert(is_encoding_char(format, text[0]));
        assert(is_encoding_char(format, text[text.len() - 1]));
        assert(!is_white_space(text.first()));
        assert(!is_white_space(text.last()));
    }
    lemma_trim_keeps_bare_text(text);
}

/// Encodes bytes that are known to have an encoding of representable
/// length. The text has no white space at its ends, and decoding it,
/// trimmed or not, gives the bytes back.
pub fn encode(data: &[u8], format: Base64Format) -> (text: String)
    requires
        encodable(data@.len(), pads(format)),
    ensures
        text@ == encode_spec(format, data@),
        text@.len() == encoded_len(data@.len(), pads(format)),
        forall|i: int| 0 <= i < text@.len() ==> is_encoding_char(format, #[trigger] text@[i]),
        trimmed(text@) == text@,
        decode_spec(format, text@) == Some(data@),
{
    let text = match format {
        Base64Format::Standard => encode_standard(data),
        Base64Format::UrlSafe => encode_url_safe(data),
    };
    proof {
        lemma_encoding_is_bare(format, text@);
    }
    text
}

/// Decodes text exactly as it stands, white space included.
pub fn decode(text: &str, format: Base64Format) -> (r: Result<Vec<u8>, TextError>)
    ensures
        decode_spec(format, text@) is None ==> r == Err::<Vec<u8>, TextError>(
            TextError::InvalidEncoding,
        ),
        decode_spec(format, text@) matches Some(data) ==> (r matches Ok(bytes) && bytes@
            == data),
{
    let decoded = match format {
        Base64Format::Standard => decode_standard(text),
        Base64Format::UrlSafe => decode_url_safe(text),
    };
    match decoded {
        Some(data) => Ok(data),
        None => Err(TextError::InvalidEncoding),
    }
}

/// Encodes the whole input in the given format. The only input refused is
/// one so long that the length of its encoding overflows. Decoding the
/// text, as `process_decode` does after trimming it, gives the input back.
pub fn process_encode(input: &[u8], format: Base64Format) -> (r: Result<String, TextError>)
    ensures
        encodable(input@.len(), pads(format)) ==> (r matches Ok(text) && text@ == encode_spec(
            format,
            input@,
        ) && decode_spec(format, trimmed(text@)) == Some(input@)),
        !encodable(input@.len(), pads(format)) ==> r == Err::<String, TextError>(
            TextError::InputTooLong,
        ),
{
    let padded = match format {
        Base64Format::Standard => true,
        Base64Format::UrlSafe => false,
    };
    if fits_encoding(input.len(), padded) {
        Ok(encode(input, format))
    } else {
        Err(TextError::InputTooLong)
    }
}

/// Decodes text input in the given format, after trimming the white space
/// at both of its ends.
pub fn process_decode(input: &str, format: Base64Format) -> (r: Result<Vec<u8>, TextError>)
    ensures
        decode_spec(format, trimmed(input@)) is None ==> r == Err::<Vec<u8>, TextError>(
            TextError::InvalidEncoding,
        ),
        decode_spec(format, trimmed(input@)) matches Some(data) ==> (r matches Ok(bytes)
            && bytes@ == data),
{
    decode(trim(input), format)
}

} // verus!
