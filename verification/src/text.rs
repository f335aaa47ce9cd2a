//! The operations on text, routed by format: a format tag picks the
//! algorithm, the key bytes are loaded for it, and signatures and
//! ciphertexts travel as URL-safe base64 text without padding.
//!
//! No operation keeps anything between calls. Each result depends on the
//! key bytes, the input and the format that were handed in, and on nothing
//! else, but for the random draws of key generation.

use vstd::prelude::*;
use vstd::utf8::{decode_utf8, encode_utf8_decode_utf8, encode_utf8_valid_utf8, valid_utf8};
use crate::asymmetric::{
    ed25519_point, Ed25519Signer, Ed25519Verifier, PUBLIC_KEY_LEN, SEED_LEN, SIGNATURE_LEN,
};
use crate::b64::{decode, encodable, encode, url_safe_base64, url_safe_base64_decoded};
use crate::capability::{KeyGenerator, KeyLoader, TextDecrypt, TextEncrypt, TextSign, TextVerify};
use crate::cipher::{
    lemma_decrypt_inverts_encrypt, Chacha20Poly1305Text, CIPHER_KEY_LEN, NONCE_LEN,
};
use crate::error::{KeyPart, TextError};
use crate::format::{Base64Format, TextSignFormat};
use crate::keyed_hash::{Blake3, KeyStyle, KEYED_HASH_LEN};
use crate::plain_text::{message_bytes, message_of, trim, trimmed, utf8_string};

verus! {

/// What signing `message` in `format` gives, from the raw bytes of a key:
/// the signature, or the error of a key that does not load. The cipher
/// does not sign, and nothing is said of it.
pub open spec fn sign_spec(format: TextSignFormat, key: Seq<u8>, message: Seq<u8>) -> Result<
    Seq<u8>,
    TextError,
>
    recommends
        format.signs(),
{
    match format {
        TextSignFormat::Blake3 => if Blake3::valid_key(key) {
            Ok(Blake3::sign_spec(key, message))
        } else {
            Err(
                TextError::InvalidKeyLength {
                    part: KeyPart::KeyedHashKey,
                    expected: KEYED_HASH_LEN,
                    actual: key.len() as usize,
                },
            )
        },
        TextSignFormat::Ed25519 => if Ed25519Signer::valid_key(key) {
            Ok(Ed25519Signer::sign_spec(key, message))
        } else {
            Err(
                TextError::InvalidKeyLength {
                    part: KeyPart::SigningKey,
                    expected: SEED_LEN,
                    actual: key.len() as usize,
                },
            )
        },
        TextSignFormat::ChaCha20Poly1305 => arbitrary(),
    }
}

/// What verifying `sig` against `message` in `format` gives, from the raw
/// bytes of a key: whether the signature is valid, or the error of a key
/// that does not load or of a signature that has no shape. The cipher
/// does not verify, and nothing is said of it.
pub open spec fn verify_spec(
    format: TextSignFormat,
    key: Seq<u8>,
    message: Seq<u8>,
    sig: Seq<u8>,
) -> Result<bool, TextError>
    recommends
        format.signs(),
{
    match format {
        TextSignFormat::Blake3 => if Blake3::valid_key(key) {
            Ok(Blake3::verify_spec(key, message, sig))
        } else {
            Err(
                TextError::InvalidKeyLength {
                    part: KeyPart::KeyedHashKey,
                    expected: KEYED_HASH_LEN,
                    actual: key.len() as usize,
                },
            )
        },
        TextSignFormat::Ed25519 => if key.len() != PUBLIC_KEY_LEN {
            Err(
                TextError::InvalidKeyLength {
                    part: KeyPart::VerifyingKey,
                    expected: PUBLIC_KEY_LEN,
                    actual: key.len() as usize,
                },
            )
        } else if !ed25519_point(key) {
            Err(TextError::InvalidPublicKey)
        } else if sig.len() != SIGNATURE_LEN {
            Err(
                TextError::InvalidSignatureLength {
                    expected: SIGNATURE_LEN,
                    actual: sig.len() as usize,
                },
            )
        } else {
            Ok(Ed25519Verifier::verify_spec(key, message, sig))
        },
        TextSignFormat::ChaCha20Poly1305 => arbitrary(),
    }
}

/// What verifying the signature text `sig` against `message` gives: the
/// text is decoded first, without the white space at its ends, and text
/// that is no encoding is an error whatever the key.
pub open spec fn verify_text_spec(
    format: TextSignFormat,
    key: Seq<u8>,
    message: Seq<u8>,
    sig: Seq<char>,
) -> Result<bool, TextError>
    recommends
        format.signs(),
{
    match url_safe_base64_decoded(trimmed(sig)) {
        None => Err(TextError::InvalidEncoding),
        Some(sig_bytes) => verify_spec(format, key, message, sig_bytes),
    }
}

/// The key that verifies what `key` signs: for the keyed hash the key
/// itself, for the signature the verifying key derived from the seed.
pub open spec fn verifying_key_spec(format: TextSignFormat, key: Seq<u8>) -> Seq<u8>
    recommends
        format.signs(),
{
    match format {
        TextSignFormat::Blake3 => key,
        TextSignFormat::Ed25519 => Ed25519Signer::public_key_spec(key),
        TextSignFormat::ChaCha20Poly1305 => arbitrary(),
    }
}

/// The error of a key or a nonce that does not load for the cipher, if
/// there is one. The key is looked at first.
pub open spec fn cipher_key_error(key: Seq<u8>, nonce: Seq<u8>) -> Option<TextError> {
    if !Chacha20Poly1305Text::valid_key(key) {
        Some(
            TextError::InvalidKeyLength {
                part: KeyPart::CipherKey,
                expected: CIPHER_KEY_LEN,
                actual: key.len() as usize,
            },
        )
    } else if !Chacha20Poly1305Text::valid_nonce(nonce) {
        Some(
            TextError::InvalidKeyLength {
                part: KeyPart::CipherNonce,
                expected: NONCE_LEN,
                actual: nonce.len() as usize,
            },
        )
    } else {
        None
    }
}

/// What encrypting `message` gives, from the raw bytes of key and nonce:
/// the ciphertext, or the first error on the way to it.
pub open spec fn encrypt_spec(key: Seq<u8>, nonce: Seq<u8>, message: Seq<u8>) -> Result<
    Seq<u8>,
    TextError,
> {
    match cipher_key_error(key, nonce) {
        Some(e) => Err(e),
        None => match Chacha20Poly1305Text::encrypt_spec(key, nonce, message) {
            None => Err(TextError::MessageTooLong),
            Some(ciphertext) => if encodable(ciphertext.len(), false) {
                Ok(ciphertext)
            } else {
                Err(TextError::InputTooLong)
            },
        },
    }
}

/// What decrypting the text `input` gives, from the raw bytes of key and
/// nonce: the plaintext, or the first error on the way to it.
pub open spec fn decrypt_spec(key: Seq<u8>, nonce: Seq<u8>, input: Seq<char>) -> Result<
    Seq<char>,
    TextError,
> {
    match cipher_key_error(key, nonce) {
        Some(e) => Err(e),
        None => match url_safe_base64_decoded(trimmed(input)) {
            None => Err(TextError::InvalidEncoding),
            Some(ciphertext) => match Chacha20Poly1305Text::decrypt_spec(key, nonce, ciphertext) {
                None => Err(TextError::AuthenticationFailed),
                Some(plaintext) => if valid_utf8(plaintext) {
                    Ok(decode_utf8(plaintext))
                } else {
                    Err(TextError::InvalidUtf8)
                },
            },
        },
    }
}

/// Signs text input with the key whose raw bytes are given, and renders
/// the signature as URL-safe base64 without padding.
///
/// The message is the input without the white space at its ends. The
/// format must be one that signs: the cipher does not.
///
/// The text that comes back verifies: handed to `process_text_verify` with
/// the same input and the key that verifies what `key` signs, it gives
/// `Ok(true)`, provided that key loads.
pub fn process_text_sign(input: &str, key: &[u8], format: TextSignFormat) -> (r: Result<
    String,
    TextError,
>)
    requires
        format.signs(),
    ensures
        match sign_spec(format, key@, message_of(input@)) {
            Ok(sig) => r matches Ok(text) && text@ == url_safe_base64(sig),
            Err(e) => r == Err::<String, TextError>(e),
        },
        r matches Ok(text) ==> {
            let verifying = verifying_key_spec(format, key@);
            (format == TextSignFormat::Ed25519 ==> Ed25519Verifier::valid_key(verifying))
                ==> verify_text_spec(format, verifying, message_of(input@), text@) == Ok::<
                bool,
                TextError,
            >(true)
        },
{
    let message = message_bytes(input);
    let signed = match format {
        TextSignFormat::Blake3 => {
            let signer = Blake3::load(key)?;
            signer.sign(message)?
        },
        TextSignFormat::Ed25519 => {
            let signer = Ed25519Signer::load(key)?;
            signer.sign(message)?
        },
        TextSignFormat::ChaCha20Poly1305 => unreached(),
    };
    Ok(encode(signed.as_slice(), Base64Format::UrlSafe))
}

/// Verifies text input against a signature given as URL-safe base64, with
/// the key whose raw bytes are given.
///
/// The signature text is decoded first, without the white space at its
/// ends; then the key is loaded; then the signature is checked against the
/// input without the white space at its ends. A signature that does not
/// match is `Ok(false)`. The format must be one that signs.
pub fn process_text_verify(input: &str, key: &[u8], format: TextSignFormat, sig: &str) -> (r:
    Result<bool, TextError>)
    requires
        format.signs(),
    ensures
        r == verify_text_spec(format, key@, message_of(input@), sig@),
{
    let sig_bytes = decode(trim(sig), Base64Format::UrlSafe)?;
    let message = message_bytes(input);
    match format {
        TextSignFormat::Blake3 => {
            let verifier = Blake3::load(key)?;
            verifier.verify(message, sig_bytes.as_slice())
        },
        TextSignFormat::Ed25519 => {
            let verifier = Ed25519Verifier::load(key)?;
            verifier.verify(message, sig_bytes.as_slice())
        },
        TextSignFormat::ChaCha20Poly1305 => unreached(),
    }
}

/// Whether `blobs` is what generating for `format` may give, with the
/// keyed-hash key drawn in `style`. The order of the blobs is fixed: for
/// the keyed hash the key; for the signature the seed, then the verifying
/// key derived from it; for the cipher the key, then the nonce.
pub open spec fn generated(format: TextSignFormat, style: KeyStyle, blobs: Seq<Seq<u8>>) -> bool {
    match format {
        TextSignFormat::Blake3 => Blake3::generated(style, blobs),
        TextSignFormat::Ed25519 => {
            &&& blobs.len() == 2
            &&& Ed25519Signer::valid_key(blobs[0])
            &&& blobs[1] == Ed25519Signer::public_key_spec(blobs[0])
            &&& Ed25519Verifier::valid_key(blobs[1])
        },
        TextSignFormat::ChaCha20Poly1305 => {
            &&& blobs.len() == 2
            &&& Chacha20Poly1305Text::valid_key(blobs[0])
            &&& Chacha20Poly1305Text::valid_nonce(blobs[1])
        },
    }
}

/// Generates fresh key material for `format`, with the keyed-hash key in
/// the given style.
pub fn process_text_generate_with(format: TextSignFormat, style: KeyStyle) -> (r: Result<
    Vec<Vec<u8>>,
    TextError,
>)
    ensures
        r matches Ok(blobs) && generated(format, style, blobs.deep_view()),
{
    let r = match format {
        TextSignFormat::Blake3 => Ok(Blake3::generate_with(style)),
        TextSignFormat::Ed25519 => Ed25519Signer::generate(),
        TextSignFormat::ChaCha20Poly1305 => Chacha20Poly1305Text::generate(),
    };
    proof {
        if r is Ok && format != TextSignFormat::Blake3 {
            let blobs = r->Ok_0;
            assert(blobs.deep_view()[0] == blobs@[0]@);
            assert(blobs.deep_view()[1] == blobs@[1]@);
        }
    }
    r
}

/// Generates fresh key material for `format`, with the keyed-hash key in
/// the default style.
pub fn process_text_generate(format: TextSignFormat) -> (r: Result<Vec<Vec<u8>>, TextError>)
    ensures
        r matches Ok(blobs) && generated(format, KeyStyle::Printable, blobs.deep_view()),
{
    process_text_generate_with(format, KeyStyle::default())
}

/// The file names under which generated key material is kept, in the
/// order of the blobs.
pub open spec fn key_file_names_spec(format: TextSignFormat) -> Seq<Seq<char>> {
    match format {
        TextSignFormat::Blake3 => seq!["blake3.txt"@],
        TextSignFormat::Ed25519 => seq!["ed25519.sk"@, "ed25519.pk"@],
        TextSignFormat::ChaCha20Poly1305 => seq![
            "chacha20poly1305.key"@,
            "chacha20poly1305.nonce"@,
        ],
    }
}

/// The file names under which generated key material is kept: one name
/// for each blob, in the order of the blobs.
pub fn key_file_names(format: TextSignFormat) -> (names: Vec<&'static str>)
    ensures
        names.deep_view() == key_file_names_spec(format),
{
    let mut names: Vec<&'static str> = Vec::new();
    match format {
        TextSignFormat::Blake3 => {
            names.push("blake3.txt");
        },
        TextSignFormat::Ed25519 => {
            names.push("ed25519.sk");
            names.push("ed25519.pk");
        },
        TextSignFormat::ChaCha20Poly1305 => {
            names.push("chacha20poly1305.key");
            names.push("chacha20poly1305.nonce");
        },
    }
    assert(names.deep_view() =~= key_file_names_spec(format));
    names
}

/// Encrypts text input under the key and nonce whose raw bytes are given,
/// and renders the ciphertext as URL-safe base64 without padding.
///
/// The message is the input without the white space at its ends.
///
/// The text that comes back decrypts: handed to `process_text_decrypt`
/// with the same key and nonce, it gives the input without the white
/// space at its ends.
pub fn process_text_encrypt(input: &str, key: &[u8], nonce: &[u8]) -> (r: Result<
    String,
    TextError,
>)
    ensures
        match encrypt_spec(key@, nonce@, message_of(input@)) {
            Ok(ciphertext) => r matches Ok(text) && text@ == url_safe_base64(ciphertext),
            Err(e) => r == Err::<String, TextError>(e),
        },
        r matches Ok(text) ==> decrypt_spec(key@, nonce@, text@) == Ok::<Seq<char>, TextError>(
            trimmed(input@),
        ),
{
    let cipher = Chacha20Poly1305Text::try_new(key, nonce)?;
    let ciphertext = cipher.encrypt(message_bytes(input))?;
    let r = encode_checked(ciphertext.as_slice());
    proof {
        if r is Ok {
            lemma_decrypt_inverts_encrypt(key@, nonce@, message_of(input@));
            encode_utf8_valid_utf8(trimmed(input@));
            encode_utf8_decode_utf8(trimmed(input@));
        }
    }
    r
}

/// Renders bytes as URL-safe base64, unless they are too many for that.
fn encode_checked(data: &[u8]) -> (r: Result<String, TextError>)
    ensures
        encodable(data@.len(), false) ==> (r matches Ok(text) && text@ == url_safe_base64(data@)
            && url_safe_base64_decoded(trimmed(text@)) == Some(data@)),
        !encodable(data@.len(), false) ==> r == Err::<String, TextError>(
            TextError::InputTooLong,
        ),
{
    crate::b64::process_encode(data, Base64Format::UrlSafe)
}

/// Decrypts a ciphertext given as URL-safe base64, under the key and nonce
/// whose raw bytes are given, into text.
///
/// Key and nonce are loaded first; then the input is decoded, without the
/// white space at its ends; then it is decrypted, all or nothing; then the
/// plaintext is read as UTF-8.
pub fn process_text_decrypt(input: &str, key: &[u8], nonce: &[u8]) -> (r: Result<
    String,
    TextError,
>)
    ensures
        match decrypt_spec(key@, nonce@, input@) {
            Ok(plaintext) => r matches Ok(text) && text@ == plaintext,
            Err(e) => r == Err::<String, TextError>(e),
        },
{
    let cipher = Chacha20Poly1305Text::try_new(key, nonce)?;
    let ciphertext = decode(trim(input), Base64Format::UrlSafe)?;
    let plaintext = cipher.decrypt(ciphertext.as_slice())?;
    match utf8_string(plaintext) {
        Some(text) => {
            proof {
                encode_utf8_decode_utf8(text@);
            }
            Ok(text)
        },
        None => Err(TextError::InvalidUtf8),
    }
}

/// Under any verifying key that loads, a signature of 64 bytes gets a
/// verdict and never an error: a signature that another key pair made is
/// answered with `true` or `false`, as the verification equation decides.
pub proof fn lemma_any_signature_gets_a_verdict(key: Seq<u8>, message: Seq<u8>, sig: Seq<u8>)
    requires
        Ed25519Verifier::valid_key(key),
        sig.len() == SIGNATURE_LEN,
    ensures
        verify_spec(TextSignFormat::Ed25519, key, message, sig) == Ok::<bool, TextError>(
            Ed25519Verifier::verify_spec(key, message, sig),
        ),
{
}

/// A key of the wrong byte count fails to load, whatever is to be signed
/// or verified with it: the outcome is the format error of that key, and
/// no signature and no verdict.
pub proof fn lemma_wrong_key_length_is_refused(
    format: TextSignFormat,
    key: Seq<u8>,
    message: Seq<u8>,
    sig: Seq<u8>,
)
    requires
        format.signs(),
        key.len() != 32,
    ensures
        sign_spec(format, key, message) matches Err(TextError::InvalidKeyLength { actual, .. })
            && actual == key.len() as usize,
        verify_spec(format, key, message, sig) matches Err(
            TextError::InvalidKeyLength { actual, .. },
        ) && actual == key.len() as usize,
{
}

/// A cipher key or a nonce of the wrong byte count fails to load, whatever
/// is to be encrypted or decrypted with it: the outcome is the format
/// error of that key or nonce, and no ciphertext and no plaintext.
pub proof fn lemma_wrong_cipher_key_length_is_refused(
    key: Seq<u8>,
    nonce: Seq<u8>,
    message: Seq<u8>,
    input: Seq<char>,
)
    requires
        key.len() != 32 || nonce.len() != 12,
    ensures
        encrypt_spec(key, nonce, message) matches Err(TextError::InvalidKeyLength { .. }),
        decrypt_spec(key, nonce, input) matches Err(TextError::InvalidKeyLength { .. }),
{
}

} // verus!
