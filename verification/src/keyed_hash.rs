//! Keyed-hash signing: the signature of a message is its BLAKE3 keyed
//! digest, and verifying recomputes the digest and compares.

use vstd::prelude::*;
use crate::bytes::{bytes_equal, to_array, to_vec};
use crate::capability::{KeyGenerator, KeyLoader, TextSign, TextVerify};
use crate::error::{KeyPart, TextError};
use crate::genpass::{admits, draw_password, CharClasses};

verus! {

/// Length in bytes of a keyed-hash key, and of a keyed-hash signature.
pub const KEYED_HASH_LEN: usize = 32;

/// The BLAKE3 keyed digest of `message` under `key`.
pub uninterp spec fn blake3_keyed_digest(key: Seq<u8>, message: Seq<u8>) -> Seq<u8>;

/// Calls `blake3::keyed_hash` and hands back the digest's bytes.
///
/// Trusted: the result is the keyed digest, which depends on the key and
/// the message and on nothing else.
#[verifier::external_body]
fn keyed_digest(key: &[u8; 32], message: &[u8]) -> (digest: [u8; 32])
    ensures
        digest@ == blake3_keyed_digest(key@, message@),
{
    *::blake3::keyed_hash(key, message).as_bytes()
}

/// Calls `Rng::fill_bytes` on the thread's secure generator.
///
/// Trusted, with nothing claimed: the bytes are random. The generator
/// stops the program if the operating system gives it no entropy to start
/// from.
#[verifier::external_body]
fn fresh_key() -> (key: [u8; 32]) {
    let mut key = [0u8; 32];
    ::rand::Rng::fill_bytes(&mut ::rand::rng(), &mut key);
    key
}

/// How a fresh keyed-hash key is drawn. Either way the key has 32 bytes.
#[derive(Debug, Clone, Copy, PartialEq, Eq, Structural)]
pub enum KeyStyle {
    /// Thirty-two printable characters, as a password has them. Such a key
    /// can be read and typed, but each byte carries less than six bits of
    /// entropy: the key is weaker than its length suggests.
    Printable,
    /// Thirty-two random bytes: full entropy, not printable.
    RawBytes,
}

impl Default for KeyStyle {
    /// The printable style: a key that can be read, typed and pasted.
    fn default() -> (style: KeyStyle)
        ensures
            style == KeyStyle::Printable,
    {
        KeyStyle::Printable
    }
}

/// A keyed-hash signer and verifier. One key serves both directions.
pub struct Blake3 {
    key: [u8; 32],
}

impl View for Blake3 {
    type V = Seq<u8>;

    /// The key bytes.
    closed spec fn view(&self) -> Seq<u8> {
        self.key@
    }
}

impl Blake3 {
    /// Whether `raw` can serve as a key: it has exactly 32 bytes.
    pub open spec fn valid_key(raw: Seq<u8>) -> bool {
        raw.len() == KEYED_HASH_LEN
    }

    /// What signing `message` under `key` gives.
    pub open spec fn sign_spec(key: Seq<u8>, message: Seq<u8>) -> Seq<u8> {
        blake3_keyed_digest(key, message)
    }

    /// What verifying `sig` against `message` under `key` gives.
    pub open spec fn verify_spec(key: Seq<u8>, message: Seq<u8>, sig: Seq<u8>) -> bool {
        sig == blake3_keyed_digest(key, message)
    }

    /// Wraps a key of the fixed length.
    pub fn new(key: [u8; 32]) -> (signer: Self)
        ensures
            signer@ == key@,
    {
        Self { key }
    }

    /// Takes a key from a byte slice, which must hold exactly 32 bytes.
    pub fn try_new(key: &[u8]) -> (r: Result<Self, TextError>)
        ensures
            Self::valid_key(key@) ==> (r matches Ok(signer) && signer@ == key@),
            !Self::valid_key(key@) ==> r == Err::<Self, TextError>(
                TextError::InvalidKeyLength {
                    part: KeyPart::KeyedHashKey,
                    expected: KEYED_HASH_LEN,
                    actual: key@.len() as usize,
                },
            ),
    {
        match to_array::<32>(key) {
            Some(bytes) => Ok(Blake3::new(bytes)),
            None => Err(
                TextError::InvalidKeyLength {
                    part: KeyPart::KeyedHashKey,
                    expected: KEYED_HASH_LEN,
                    actual: key.len(),
                },
            ),
        }
    }

    /// Whether `blobs` is what generating in `style` may give: one key of
    /// 32 bytes, which in the printable style is a password over all four
    /// classes of characters.
    pub open spec fn generated(style: KeyStyle, blobs: Seq<Seq<u8>>) -> bool {
        &&& blobs.len() == 1
        &&& Self::valid_key(blobs[0])
        &&& style == KeyStyle::Printable ==> admits(
            CharClasses::all(),
            KEYED_HASH_LEN as nat,
            blobs[0],
        )
    }

    /// The one blob of this algorithm: the key.
    pub fn key_blobs(key: Vec<u8>) -> (blobs: Vec<Vec<u8>>)
        ensures
            blobs.deep_view() == seq![key@],
    {
        let ghost bytes = key@;
        let mut blobs: Vec<Vec<u8>> = Vec::new();
        blobs.push(key);
        assert(blobs.deep_view()[0] == blobs@[0]@);
        assert(blobs.deep_view() =~= seq![bytes]);
        blobs
    }

    /// Draws a fresh key in the given style and hands it back as the one
    /// blob of this algorithm.
    pub fn generate_with(style: KeyStyle) -> (blobs: Vec<Vec<u8>>)
        ensures
            Self::generated(style, blobs.deep_view()),
    {
        let key = match style {
            KeyStyle::Printable => {
                let classes = CharClasses {
                    uppercase: true,
                    lowercase: true,
                    number: true,
                    symbol: true,
                };
                draw_password(KEYED_HASH_LEN, classes)
            },
            KeyStyle::RawBytes => to_vec(&fresh_key()),
        };
        Self::key_blobs(key)
    }
}

impl KeyGenerator for Blake3 {
    /// One blob: the key.
    open spec fn blob_lengths() -> Seq<nat> {
        seq![KEYED_HASH_LEN as nat]
    }

    /// Draws a fresh key in the default style, which is the printable one.
    fn generate() -> (r: Result<Vec<Vec<u8>>, TextError>)
        ensures
            r matches Ok(blobs) && Self::generated(KeyStyle::Printable, blobs.deep_view()),
    {
        Ok(Self::generate_with(KeyStyle::default()))
    }
}

impl TextSign for Blake3 {
    open spec fn signature_of(&self, message: Seq<u8>) -> Seq<u8> {
        Self::sign_spec(self@, message)
    }

    /// The signature is the 32-byte keyed digest of the message; signing
    /// never fails.
    fn sign(&self, message: &[u8]) -> (r: Result<Vec<u8>, TextError>)
        ensures
            r matches Ok(sig) && sig@ == Self::sign_spec(self@, message@) && sig@.len()
                == KEYED_HASH_LEN,
    {
        let digest = keyed_digest(&self.key, message);
        Ok(to_vec(&digest))
    }
}

impl TextVerify for Blake3 {
    /// Every byte string is taken: one of the wrong length is a mismatch.
    open spec fn well_shaped(sig: Seq<u8>) -> bool {
        true
    }

    open spec fn accepts(&self, message: Seq<u8>, sig: Seq<u8>) -> bool {
        Self::verify_spec(self@, message, sig)
    }

    /// Recomputes the digest and compares it with `sig`; never an error.
    fn verify(&self, message: &[u8], sig: &[u8]) -> (r: Result<bool, TextError>)
        ensures
            r == Ok::<bool, TextError>(Self::verify_spec(self@, message@, sig@)),
    {
        let digest = keyed_digest(&self.key, message);
        Ok(bytes_equal(&digest, sig))
    }
}

impl KeyLoader for Blake3 {
    open spec fn loadable(raw: Seq<u8>) -> bool {
        Self::valid_key(raw)
    }

    open spec fn raw_key(&self) -> Seq<u8> {
        self@
    }

    /// Loads a key from the bytes of a key source, as `try_new` does.
    fn load(raw: &[u8]) -> (r: Result<Self, TextError>)
        ensures
            !Self::valid_key(raw@) ==> r == Err::<Self, TextError>(
                TextError::InvalidKeyLength {
                    part: KeyPart::KeyedHashKey,
                    expected: KEYED_HASH_LEN,
                    actual: raw@.len() as usize,
                },
            ),
    {
        Self::try_new(raw)
    }
}

/// A signature is accepted for the message it was made for, under the key
/// that made it.
pub proof fn lemma_own_signature_is_accepted(key: Seq<u8>, message: Seq<u8>)
    requires
        Blake3::valid_key(key),
    ensures
        Blake3::verify_spec(key, message, Blake3::sign_spec(key, message)),
{
}

/// A signature made for one message is rejected for any other message,
/// unless the two messages have the same digest under the key.
pub proof fn lemma_other_message_is_rejected(key: Seq<u8>, message: Seq<u8>, other: Seq<u8>)
    requires
        Blake3::valid_key(key),
        other != message,
        blake3_keyed_digest(key, other) != blake3_keyed_digest(key, message),
    ensures
        !Blake3::verify_spec(key, other, Blake3::sign_spec(key, message)),
{
}

} // verus!
