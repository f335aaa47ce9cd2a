//! The failures that loading keys and processing text can end in.

use vstd::prelude::*;
use vstd::string::StringExecFns;

verus! {

/// Which piece of key material an error speaks of.
#[derive(Debug, Clone, Copy, PartialEq, Eq, Structural)]
pub enum KeyPart {
    /// The shared key of the keyed hash.
    KeyedHashKey,
    /// The private seed of the signature scheme.
    SigningKey,
    /// The public point of the signature scheme.
    VerifyingKey,
    /// The symmetric key of the cipher.
    CipherKey,
    /// The nonce that accompanies the cipher key.
    CipherNonce,
}

/// Why an operation ended without a result.
#[derive(Debug, Clone, Copy, PartialEq, Eq, Structural)]
pub enum TextError {
    /// A key or nonce blob whose byte count is not the one its algorithm fixes.
    InvalidKeyLength { part: KeyPart, expected: usize, actual: usize },
    /// Thirty-two bytes that do not encode a point of the curve.
    InvalidPublicKey,
    /// A signature whose byte count is not the one its algorithm fixes.
    InvalidSignatureLength { expected: usize, actual: usize },
    /// Text that is not the transport encoding of any byte sequence.
    InvalidEncoding,
    /// A ciphertext whose authentication tag does not match.
    AuthenticationFailed,
    /// A message longer than the cipher can take under one nonce.
    MessageTooLong,
    /// Input whose transport encoding would be longer than a machine word
    /// can count.
    InputTooLong,
    /// Recovered plaintext that is not UTF-8 text.
    InvalidUtf8,
    /// A name that stands for none of the known formats.
    InvalidFormat,
    /// Data that cannot be read as comma-separated records.
    InvalidRecords,
    /// Records that the writer of the output syntax gave no text for.
    RenderFailed,
    /// A password asked for with every class of characters taken out.
    NoCharacterClass,
}

impl KeyPart {
    /// What this piece of key material is called.
    pub open spec fn name_spec(self) -> Seq<char> {
        match self {
            KeyPart::KeyedHashKey => "keyed-hash key"@,
            KeyPart::SigningKey => "signing key"@,
            KeyPart::VerifyingKey => "verifying key"@,
            KeyPart::CipherKey => "cipher key"@,
            KeyPart::CipherNonce => "cipher nonce"@,
        }
    }

    /// What this piece of key material is called.
    pub fn name(self) -> (name: &'static str)
        ensures
            name@ == self.name_spec(),
    {
        match self {
            KeyPart::KeyedHashKey => "keyed-hash key",
            KeyPart::SigningKey => "signing key",
            KeyPart::VerifyingKey => "verifying key",
            KeyPart::CipherKey => "cipher key",
            KeyPart::CipherNonce => "cipher nonce",
        }
    }
}

impl TextError {
    /// What went wrong, in words. A key error names the key.
    pub open spec fn message_spec(self) -> Seq<char> {
        match self {
            TextError::InvalidKeyLength { part, .. } => part.name_spec()
                + " has the wrong number of bytes"@,
            TextError::InvalidPublicKey => "verifying key is not a point of the curve"@,
            TextError::InvalidSignatureLength { .. } => "signature has the wrong number of bytes"@,
            TextError::InvalidEncoding => "text is not valid base64"@,
            TextError::AuthenticationFailed => "ciphertext does not match its authentication tag"@,
            TextError::MessageTooLong => "message is too long for the cipher"@,
            TextError::InputTooLong => "input is too long to encode"@,
            TextError::InvalidUtf8 => "data is not UTF-8 text"@,
            TextError::InvalidFormat => "Invalid format"@,
            TextError::InvalidRecords => "data is not comma-separated records"@,
            TextError::RenderFailed => "records could not be written"@,
            TextError::NoCharacterClass => "no class of characters is left to draw from"@,
        }
    }

    /// What went wrong, in words. A key error names the key.
    pub fn to_string(&self) -> (message: String)
        ensures
            message@ == self.message_spec(),
    {
        match self {
            TextError::InvalidKeyLength { part, .. } => String::from_str(part.name()).concat(
                " has the wrong number of bytes",
            ),
            TextError::InvalidPublicKey => String::from_str(
                "verifying key is not a point of the curve",
            ),
            TextError::InvalidSignatureLength { .. } => String::from_str(
                "signature has the wrong number of bytes",
            ),
            TextError::InvalidEncoding => String::from_str("text is not valid base64"),
            TextError::AuthenticationFailed => String::from_str(
                "ciphertext does not match its authentication tag",
            ),
            TextError::MessageTooLong => String::from_str("message is too long for the cipher"),
            TextError::InputTooLong => String::from_str("input is too long to encode"),
            TextError::InvalidUtf8 => String::from_str("data is not UTF-8 text"),
            TextError::InvalidFormat => String::from_str("Invalid format"),
            TextError::InvalidRecords => String::from_str("data is not comma-separated records"),
            TextError::RenderFailed => String::from_str("records could not be written"),
            TextError::NoCharacterClass => String::from_str(
                "no class of characters is left to draw from",
            ),
        }
    }
}

} // verus!
