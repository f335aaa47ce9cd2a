//! The capabilities an algorithm may offer. Each is a trait of its own, so a
//! type offers exactly the operations that make sense for it: a verifier
//! cannot sign, and a cipher neither signs nor verifies.

use vstd::prelude::*;
use crate::error::TextError;

verus! {

/// Signing: from a whole message to a signature.
pub trait TextSign {
    /// The signature this key gives to `message`.
    spec fn signature_of(&self, message: Seq<u8>) -> Seq<u8>;

    /// Signs the whole message. The key is not changed.
    fn sign(&self, message: &[u8]) -> (r: Result<Vec<u8>, TextError>)
        ensures
            r matches Ok(sig) ==> sig@ == self.signature_of(message@),
    ;
}

/// Verification: whether a signature belongs to a message under this key.
pub trait TextVerify {
    /// Whether `sig` has the fixed shape of this algorithm's signatures.
    spec fn well_shaped(sig: Seq<u8>) -> bool;

    /// Whether `sig` is valid for exactly `message` under this key.
    spec fn accepts(&self, message: Seq<u8>, sig: Seq<u8>) -> bool;

    /// Checks a signature. A mismatch is `Ok(false)`; only a signature that
    /// cannot be brought into shape is an error.
    fn verify(&self, message: &[u8], sig: &[u8]) -> (r: Result<bool, TextError>)
        ensures
            r is Ok <==> Self::well_shaped(sig@),
            r matches Ok(valid) ==> valid == self.accepts(message@, sig@),
    ;
}

/// Loading: from the raw bytes of a key source to validated key material.
pub trait KeyLoader: Sized {
    /// Whether `raw` has the length and shape of this algorithm's key.
    spec fn loadable(raw: Seq<u8>) -> bool;

    /// The raw bytes that this key material was loaded from.
    spec fn raw_key(&self) -> Seq<u8>;

    /// Validates `raw` and keeps it. Nothing cryptographic runs on bytes
    /// that are rejected.
    fn load(raw: &[u8]) -> (r: Result<Self, TextError>)
        ensures
            r is Ok <==> Self::loadable(raw@),
            r matches Ok(key) ==> key.raw_key() == raw@,
    ;
}

/// Generation: fresh key material as a sequence of blobs in a fixed order.
pub trait KeyGenerator {
    /// The byte length of each blob, in the order in which they come.
    spec fn blob_lengths() -> Seq<nat>;

    /// Draws fresh key material from a secure random source.
    fn generate() -> (r: Result<Vec<Vec<u8>>, TextError>)
        ensures
            r matches Ok(blobs) ==> {
                &&& blobs@.len() == Self::blob_lengths().len()
                &&& forall|i: int|
                    0 <= i < blobs@.len() ==> (#[trigger] blobs@[i])@.len()
                        == Self::blob_lengths()[i]
            },
    ;
}

/// Encryption under one key and one nonce.
pub trait TextEncrypt {
    /// The ciphertext of `message`, where the cipher can take it.
    spec fn ciphertext_of(&self, message: Seq<u8>) -> Option<Seq<u8>>;

    /// Encrypts the whole message; the result carries its authentication tag.
    fn encrypt(&self, message: &[u8]) -> (r: Result<Vec<u8>, TextError>)
        ensures
            r is Ok <==> self.ciphertext_of(message@) is Some,
            r matches Ok(ct) ==> self.ciphertext_of(message@) == Some(ct@),
    ;
}

/// Decryption under one key and one nonce.
pub trait TextDecrypt {
    /// The plaintext behind `ciphertext`, where its tag matches.
    spec fn plaintext_of(&self, ciphertext: Seq<u8>) -> Option<Seq<u8>>;

    /// Decrypts all or nothing: a ciphertext whose tag does not match gives
    /// an error and no plaintext.
    fn decrypt(&self, ciphertext: &[u8]) -> (r: Result<Vec<u8>, TextError>)
        ensures
            r is Ok <==> self.plaintext_of(ciphertext@) is Some,
            r matches Ok(pt) ==> self.plaintext_of(ciphertext@) == Some(pt@),
    ;
}

} // verus!
