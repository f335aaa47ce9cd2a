//! Public-key signing with Ed25519. The signing half and the verifying half
//! are two types: a verifier holds no secret and cannot sign, and a signer's
//! public half is always the one derived from its seed.

use vstd::prelude::*;
use ed25519_dalek::{Signer, Verifier};
use crate::bytes::{to_array, to_vec};
use crate::capability::{KeyGenerator, KeyLoader, TextSign, TextVerify};
use crate::error::{KeyPart, TextError};

verus! {

/// Length in bytes of a signing seed.
pub const SEED_LEN: usize = 32;

/// Length in bytes of a verifying key.
pub const PUBLIC_KEY_LEN: usize = 32;

/// Length in bytes of a signature.
pub const SIGNATURE_LEN: usize = 64;

/// The verifying key that belongs to the signing seed `seed`.
pub uninterp spec fn ed25519_public_key(seed: Seq<u8>) -> Seq<u8>;

/// The signature that the signing seed `seed` gives to `message`.
pub uninterp spec fn ed25519_signature(seed: Seq<u8>, message: Seq<u8>) -> Seq<u8>;

/// Whether the 32 bytes `key` encode a point of the curve.
pub uninterp spec fn ed25519_point(key: Seq<u8>) -> bool;

/// Whether the verification equation holds of the 64 bytes `sig`, for
/// `message`, under the verifying key `key`.
pub uninterp spec fn ed25519_valid(key: Seq<u8>, message: Seq<u8>, sig: Seq<u8>) -> bool;

/// Calls `SigningKey::from_bytes`, then `verifying_key` and `to_bytes`.
///
/// Trusted: the result is the public key derived from the seed, and it
/// encodes a point of the curve, being the compression of one.
#[verifier::external_body]
fn derive_public_key(seed: &[u8; 32]) -> (key: [u8; 32])
    ensures
        key@ == ed25519_public_key(seed@),
        ed25519_point(key@),
{
    ::ed25519_dalek::SigningKey::from_bytes(seed).verifying_key().to_bytes()
}

/// Calls `SigningKey::from_bytes`, then `Signer::sign` and `to_bytes`.
///
/// Trusted: signing is deterministic, so the result is a function of seed
/// and message; and the scheme is correct, so the verification equation
/// holds of the result under the public key derived from the same seed.
#[verifier::external_body]
fn sign_with_seed(seed: &[u8; 32], message: &[u8]) -> (sig: [u8; 64])
    ensures
        sig@ == ed25519_signature(seed@, message@),
        ed25519_valid(ed25519_public_key(seed@), message@, sig@),
{
    ::ed25519_dalek::SigningKey::from_bytes(seed).sign(message).to_bytes()
}

/// Calls `VerifyingKey::from_bytes` and tells whether it took the bytes.
///
/// Trusted: the call succeeds exactly on the encodings of curve points.
#[verifier::external_body]
fn is_curve_point(key: &[u8; 32]) -> (valid: bool)
    ensures
        valid == ed25519_point(key@),
{
    ::ed25519_dalek::VerifyingKey::from_bytes(key).is_ok()
}

/// Calls `VerifyingKey::from_bytes`, `Signature::from_bytes` and
/// `Verifier::verify`, and tells whether the signature was accepted.
///
/// Trusted: the result is the outcome of the verification equation, which
/// depends on the key, the message and the signature and on nothing else.
#[verifier::external_body]
fn check_signature(key: &[u8; 32], message: &[u8], sig: &[u8; 64]) -> (valid: bool)
    requires
        ed25519_point(key@),
    ensures
        valid == ed25519_valid(key@, message@, sig@),
{
    match ::ed25519_dalek::VerifyingKey::from_bytes(key) {
        Ok(point) => point.verify(message, &::ed25519_dalek::Signature::from_bytes(sig)).is_ok(),
        Err(_) => false,
    }
}

/// Calls `SigningKey::generate` on the thread's secure generator and hands
/// back the seed that was drawn.
///
/// Trusted, with nothing claimed: the seed is random. The generator stops
/// the program if the operating system gives it no entropy to start from.
#[verifier::external_body]
fn fresh_seed() -> (seed: [u8; 32]) {
    ::ed25519_dalek::SigningKey::generate(&mut ::rand::rng()).to_bytes()
}

/// The signing half of a key pair: the 32-byte seed.
pub struct Ed25519Signer {
    key: [u8; 32],
}

/// The verifying half of a key pair: 32 bytes that encode a curve point.
pub struct Ed25519Verifier {
    key: [u8; 32],
}

impl View for Ed25519Signer {
    type V = Seq<u8>;

    /// The seed bytes.
    closed spec fn view(&self) -> Seq<u8> {
        self.key@
    }
}

impl View for Ed25519Verifier {
    type V = Seq<u8>;

    /// The bytes of the encoded point.
    closed spec fn view(&self) -> Seq<u8> {
        self.key@
    }
}

impl Ed25519Signer {
    /// Whether `raw` can serve as a seed: it has exactly 32 bytes.
    pub open spec fn valid_key(raw: Seq<u8>) -> bool {
        raw.len() == SEED_LEN
    }

    /// What signing `message` under `seed` gives.
    pub open spec fn sign_spec(seed: Seq<u8>, message: Seq<u8>) -> Seq<u8> {
        ed25519_signature(seed, message)
    }

    /// The verifying key that matches `seed`.
    pub open spec fn public_key_spec(seed: Seq<u8>) -> Seq<u8> {
        ed25519_public_key(seed)
    }

    /// Wraps a seed of the fixed length.
    pub fn new(key: [u8; 32]) -> (signer: Self)
        ensures
            signer@ == key@,
    {
        Self { key }
    }

    /// Takes a seed from a byte slice, which must hold exactly 32 bytes.
    pub fn try_new(key: &[u8]) -> (r: Result<Self, TextError>)
        ensures
            Self::valid_key(key@) ==> (r matches Ok(signer) && signer@ == key@),
            !Self::valid_key(key@) ==> r == Err::<Self, TextError>(
                TextError::InvalidKeyLength {
                    part: KeyPart::SigningKey,
                    expected: SEED_LEN,
                    actual: key@.len() as usize,
                },
            ),
    {
        match to_array::<32>(key) {
            Some(bytes) => Ok(Ed25519Signer::new(bytes)),
            None => Err(
                TextError::InvalidKeyLength {
                    part: KeyPart::SigningKey,
                    expected: SEED_LEN,
                    actual: key.len(),
                },
            ),
        }
    }

    /// The verifying key that matches this signer.
    pub fn public_key(&self) -> (key: [u8; 32])
        ensures
            key@ == Self::public_key_spec(self@),
            Ed25519Verifier::valid_key(key@),
    {
        derive_public_key(&self.key)
    }

    /// The two blobs of the key pair that grows from `seed`: the seed
    /// itself, then the verifying key derived from it.
    pub fn keypair_blobs(seed: [u8; 32]) -> (blobs: Vec<Vec<u8>>)
        ensures
            blobs@.len() == 2,
            blobs@[0]@ == seed@,
            blobs@[1]@ == Self::public_key_spec(seed@),
            Ed25519Verifier::valid_key(blobs@[1]@),
            blobs@[0]@.len() == SEED_LEN,
            blobs@[1]@.len() == PUBLIC_KEY_LEN,
    {
        let public = derive_public_key(&seed);
        let mut blobs: Vec<Vec<u8>> = Vec::new();
        blobs.push(to_vec(&seed));
        blobs.push(to_vec(&public));
        blobs
    }
}

impl Ed25519Verifier {
    /// Whether `raw` can serve as a verifying key: it has exactly 32 bytes
    /// and they encode a point of the curve.
    pub open spec fn valid_key(raw: Seq<u8>) -> bool {
        raw.len() == PUBLIC_KEY_LEN && ed25519_point(raw)
    }

    /// What verifying `sig` against `message` under `key` gives, for a
    /// signature of the fixed length.
    pub open spec fn verify_spec(key: Seq<u8>, message: Seq<u8>, sig: Seq<u8>) -> bool {
        ed25519_valid(key, message, sig)
    }

    #[verifier::type_invariant]
    spec fn encodes_point(self) -> bool {
        ed25519_point(self.key@)
    }

    /// Wraps 32 bytes that are known to encode a curve point.
    pub fn new(key: [u8; 32]) -> (verifier: Self)
        requires
            ed25519_point(key@),
        ensures
            verifier@ == key@,
    {
        Self { key }
    }

    /// Takes a verifying key from a byte slice. The slice must hold exactly
    /// 32 bytes, and they must encode a curve point.
    pub fn try_new(key: &[u8]) -> (r: Result<Self, TextError>)
        ensures
            Self::valid_key(key@) ==> (r matches Ok(verifier) && verifier@ == key@),
            key@.len() != PUBLIC_KEY_LEN ==> r == Err::<Self, TextError>(
                TextError::InvalidKeyLength {
                    part: KeyPart::VerifyingKey,
                    expected: PUBLIC_KEY_LEN,
                    actual: key@.len() as usize,
                },
            ),
            key@.len() == PUBLIC_KEY_LEN && !ed25519_point(key@) ==> r == Err::<Self, TextError>(
                TextError::InvalidPublicKey,
            ),
    {
        match to_array::<32>(key) {
            Some(bytes) => {
                if is_curve_point(&bytes) {
                    Ok(Ed25519Verifier::new(bytes))
                } else {
                    Err(TextError::InvalidPublicKey)
                }
            },
            None => Err(
                TextError::InvalidKeyLength {
                    part: KeyPart::VerifyingKey,
                    expected: PUBLIC_KEY_LEN,
                    actual: key.len(),
                },
            ),
        }
    }
}

impl TextSign for Ed25519Signer {
    open spec fn signature_of(&self, message: Seq<u8>) -> Seq<u8> {
        Self::sign_spec(self@, message)
    }

    /// The signature has 64 bytes and is fixed by seed and message.
    /// Signing never fails, and what it returns is accepted, for the same
    /// message, under the verifying key that matches this signer.
    fn sign(&self, message: &[u8]) -> (r: Result<Vec<u8>, TextError>)
        ensures
            r matches Ok(sig) && {
                &&& sig@ == Self::sign_spec(self@, message@)
                &&& sig@.len() == SIGNATURE_LEN
                &&& Ed25519Verifier::verify_spec(Self::public_key_spec(self@), message@, sig@)
            },
    {
        let sig = sign_with_seed(&self.key, message);
        Ok(to_vec(&sig))
    }
}

impl KeyLoader for Ed25519Signer {
    open spec fn loadable(raw: Seq<u8>) -> bool {
        Self::valid_key(raw)
    }

    open spec fn raw_key(&self) -> Seq<u8> {
        self@
    }

    /// Loads a seed from the bytes of a key source, as `try_new` does.
    fn load(raw: &[u8]) -> (r: Result<Self, TextError>)
        ensures
            !Self::valid_key(raw@) ==> r == Err::<Self, TextError>(
                TextError::InvalidKeyLength {
                    part: KeyPart::SigningKey,
                    expected: SEED_LEN,
                    actual: raw@.len() as usize,
                },
            ),
    {
        Self::try_new(raw)
    }
}

impl KeyGenerator for Ed25519Signer {
    /// Two blobs: the seed, then the verifying key.
    open spec fn blob_lengths() -> Seq<nat> {
        seq![SEED_LEN as nat, PUBLIC_KEY_LEN as nat]
    }

    /// Draws a seed and derives its verifying key. Whatever seed is drawn,
    /// the second blob is the verifying key of the first.
    fn generate() -> (r: Result<Vec<Vec<u8>>, TextError>)
        ensures
            r matches Ok(blobs) && {
                &&& blobs@.len() == 2
                &&& blobs@[0]@.len() == SEED_LEN
                &&& blobs@[1]@ == Self::public_key_spec(blobs@[0]@)
                &&& Ed25519Verifier::valid_key(blobs@[1]@)
            },
    {
        let seed = fresh_seed();
        Ok(Self::keypair_blobs(seed))
    }
}

impl TextVerify for Ed25519Verifier {
    /// A signature has exactly 64 bytes.
    open spec fn well_shaped(sig: Seq<u8>) -> bool {
        sig.len() == SIGNATURE_LEN
    }

    open spec fn accepts(&self, message: Seq<u8>, sig: Seq<u8>) -> bool {
        Self::verify_spec(self@, message, sig)
    }

    /// A signature of 64 bytes is checked against the verification
    /// equation; one of any other length is a format error.
    fn verify(&self, message: &[u8], sig: &[u8]) -> (r: Result<bool, TextError>)
        ensures
            Self::well_shaped(sig@) ==> r == Ok::<bool, TextError>(
                Self::verify_spec(self@, message@, sig@),
            ),
            !Self::well_shaped(sig@) ==> r == Err::<bool, TextError>(
                TextError::InvalidSignatureLength {
                    expected: SIGNATURE_LEN,
                    actual: sig@.len() as usize,
                },
            ),
    {
        proof {
            use_type_invariant(self);
        }
        match to_array::<64>(sig) {
            Some(bytes) => Ok(check_signature(&self.key, message, &bytes)),
            None => Err(
                TextError::InvalidSignatureLength { expected: SIGNATURE_LEN, actual: sig.len() },
            ),
        }
    }
}

impl KeyLoader for Ed25519Verifier {
    open spec fn loadable(raw: Seq<u8>) -> bool {
        Self::valid_key(raw)
    }

    open spec fn raw_key(&self) -> Seq<u8> {
        self@
    }

    /// Loads a verifying key from the bytes of a key source, as `try_new`
    /// does.
    fn load(raw: &[u8]) -> (r: Result<Self, TextError>)
        ensures
            raw@.len() != PUBLIC_KEY_LEN ==> r == Err::<Self, TextError>(
                TextError::InvalidKeyLength {
                    part: KeyPart::VerifyingKey,
                    expected: PUBLIC_KEY_LEN,
                    actual: raw@.len() as usize,
                },
            ),
            raw@.len() == PUBLIC_KEY_LEN && !ed25519_point(raw@) ==> r == Err::<Self, TextError>(
                TextError::InvalidPublicKey,
            ),
    {
        Self::try_new(raw)
    }
}

} // verus!
