//! The closed sets of formats a caller can name: the algorithm of a text
//! operation, the alphabet of the transport encoding, and the syntax that
//! records are written in.

use vstd::prelude::*;
use vstd::string::StringExecFns;
use crate::error::TextError;

verus! {

/// The text `text` with every character mapped to lower case, as Unicode
/// defines it.
pub uninterp spec fn unicode_lowercase(text: Seq<char>) -> Seq<char>;

/// Calls `str::to_lowercase`.
///
/// Trusted: the result is the lower-case mapping of the text, which depends
/// on the text alone.
#[verifier::external_body]
fn lowercase(text: &str) -> (lower: String)
    ensures
        lower@ == unicode_lowercase(text@),
{
    text.to_lowercase()
}

/// Whether `text` is, letter for letter, the name `name`.
fn is_name(text: &String, name: &str) -> (same: bool)
    ensures
        same == (text@ == name@),
{
    let wanted = String::from_str(name);
    *text == wanted
}

/// The algorithm that a text operation runs.
#[derive(Debug, Clone, Copy, PartialEq, Eq, Structural)]
pub enum TextSignFormat {
    /// Keyed hash: one shared key signs and verifies.
    Blake3,
    /// Public-key signature: a seed signs, a public key verifies.
    Ed25519,
    /// Authenticated cipher: a key and a nonce encrypt and decrypt.
    ChaCha20Poly1305,
}

/// The alphabet of the transport encoding.
#[derive(Debug, Clone, Copy, PartialEq, Eq, Structural)]
pub enum Base64Format {
    /// The standard alphabet, with padding.
    Standard,
    /// The alphabet that is safe in URLs, without padding.
    UrlSafe,
}

/// The syntax that converted records are written in.
#[derive(Debug, Clone, Copy, PartialEq, Eq, Structural)]
pub enum OutputFormat {
    Json,
    Yaml,
}

impl TextSignFormat {
    /// The name of this format.
    pub open spec fn name_spec(self) -> Seq<char> {
        match self {
            TextSignFormat::Blake3 => "blake3"@,
            TextSignFormat::Ed25519 => "ed25519"@,
            TextSignFormat::ChaCha20Poly1305 => "chacha20poly1305"@,
        }
    }

    /// The format that `text` names, whatever the case of its letters.
    pub open spec fn parse_spec(text: Seq<char>) -> Option<TextSignFormat> {
        let lower = unicode_lowercase(text);
        if lower == "blake3"@ {
            Some(TextSignFormat::Blake3)
        } else if lower == "ed25519"@ {
            Some(TextSignFormat::Ed25519)
        } else if lower == "chacha20poly1305"@ {
            Some(TextSignFormat::ChaCha20Poly1305)
        } else {
            None
        }
    }

    /// Whether this format can sign and verify. The cipher cannot: it
    /// encrypts and decrypts only.
    pub open spec fn signs(self) -> bool {
        self != TextSignFormat::ChaCha20Poly1305
    }

    /// Whether this format can sign and verify.
    pub fn can_sign(self) -> (yes: bool)
        ensures
            yes == self.signs(),
    {
        match self {
            TextSignFormat::ChaCha20Poly1305 => false,
            _ => true,
        }
    }

    /// The name of this format.
    pub fn name(self) -> (name: &'static str)
        ensures
            name@ == self.name_spec(),
    {
        match self {
            TextSignFormat::Blake3 => "blake3",
            TextSignFormat::Ed25519 => "ed25519",
            TextSignFormat::ChaCha20Poly1305 => "chacha20poly1305",
        }
    }

    /// The name of this format, as an owned string.
    pub fn to_string(&self) -> (name: String)
        ensures
            name@ == self.name_spec(),
    {
        String::from_str(self.name())
    }

    /// Reads a format name, whatever the case of its letters.
    pub fn from_str(text: &str) -> (r: Result<TextSignFormat, TextError>)
        ensures
            r == match Self::parse_spec(text@) {
                Some(format) => Ok::<TextSignFormat, TextError>(format),
                None => Err::<TextSignFormat, TextError>(TextError::InvalidFormat),
            },
    {
        let lower = lowercase(text);
        if is_name(&lower, "blake3") {
            Ok(TextSignFormat::Blake3)
        } else if is_name(&lower, "ed25519") {
            Ok(TextSignFormat::Ed25519)
        } else if is_name(&lower, "chacha20poly1305") {
            Ok(TextSignFormat::ChaCha20Poly1305)
        } else {
            Err(TextError::InvalidFormat)
        }
    }
}

impl Base64Format {
    /// The name of this format.
    pub open spec fn name_spec(self) -> Seq<char> {
        match self {
            Base64Format::Standard => "standard"@,
            Base64Format::UrlSafe => "urlsafe"@,
        }
    }

    /// The format that `text` names, whatever the case of its letters.
    pub open spec fn parse_spec(text: Seq<char>) -> Option<Base64Format> {
        let lower = unicode_lowercase(text);
        if lower == "standard"@ {
            Some(Base64Format::Standard)
        } else if lower == "urlsafe"@ {
            Some(Base64Format::UrlSafe)
        } else {
            None
        }
    }

    /// The name of this format.
    pub fn name(self) -> (name: &'static str)
        ensures
            name@ == self.name_spec(),
    {
        match self {
            Base64Format::Standard => "standard",
            Base64Format::UrlSafe => "urlsafe",
        }
    }

    /// The name of this format, as an owned string.
    pub fn to_string(&self) -> (name: String)
        ensures
            name@ == self.name_spec(),
    {
        String::from_str(self.name())
    }

    /// Reads a format name, whatever the case of its letters.
    pub fn from_str(text: &str) -> (r: Result<Base64Format, TextError>)
        ensures
            r == match Self::parse_spec(text@) {
                Some(format) => Ok::<Base64Format, TextError>(format),
                None => Err::<Base64Format, TextError>(TextError::InvalidFormat),
            },
    {
        let lower = lowercase(text);
        if is_name(&lower, "standard") {
            Ok(Base64Format::Standard)
        } else if is_name(&lower, "urlsafe") {
            Ok(Base64Format::UrlSafe)
        } else {
            Err(TextError::InvalidFormat)
        }
    }
}

impl OutputFormat {
    /// The name of this format.
    pub open spec fn name_spec(self) -> Seq<char> {
        match self {
            OutputFormat::Json => "json"@,
            OutputFormat::Yaml => "yaml"@,
        }
    }

    /// The format that `text` names, whatever the case of its letters.
    pub open spec fn parse_spec(text: Seq<char>) -> Option<OutputFormat> {
        let lower = unicode_lowercase(text);
        if lower == "json"@ {
            Some(OutputFormat::Json)
        } else if lower == "yaml"@ {
            Some(OutputFormat::Yaml)
        } else {
            None
        }
    }

    /// The name of this format.
    pub fn name(self) -> (name: &'static str)
        ensures
            name@ == self.name_spec(),
    {
        match self {
            OutputFormat::Json => "json",
            OutputFormat::Yaml => "yaml",
        }
    }

    /// The name of this format, as an owned string.
    pub fn to_string(&self) -> (name: String)
        ensures
            name@ == self.name_spec(),
    {
        String::from_str(self.name())
    }

    /// Reads a format name, whatever the case of its letters.
    pub fn from_str(text: &str) -> (r: Result<OutputFormat, TextError>)
        ensures
            r == match Self::parse_spec(text@) {
                Some(format) => Ok::<OutputFormat, TextError>(format),
                None => Err::<OutputFormat, TextError>(TextError::InvalidFormat),
            },
    {
        let lower = lowercase(text);
        if is_name(&lower, "json") {
            Ok(OutputFormat::Json)
        } else if is_name(&lower, "yaml") {
            Ok(OutputFormat::Yaml)
        } else {
            Err(TextError::InvalidFormat)
        }
    }
}

/// Reads the name of a text format, as `TextSignFormat::from_str` does.
pub fn parse_text_format(text: &str) -> (r: Result<TextSignFormat, TextError>)
    ensures
        r == match TextSignFormat::parse_spec(text@) {
            Some(format) => Ok::<TextSignFormat, TextError>(format),
            None => Err::<TextSignFormat, TextError>(TextError::InvalidFormat),
        },
{
    TextSignFormat::from_str(text)
}

/// Reads the name of a transport alphabet, as `Base64Format::from_str` does.
pub fn parse_base64_format(text: &str) -> (r: Result<Base64Format, TextError>)
    ensures
        r == match Base64Format::parse_spec(text@) {
            Some(format) => Ok::<Base64Format, TextError>(format),
            None => Err::<Base64Format, TextError>(TextError::InvalidFormat),
        },
{
    Base64Format::from_str(text)
}

/// Reads the name of an output syntax, as `OutputFormat::from_str` does.
pub fn parse_format(text: &str) -> (r: Result<OutputFormat, TextError>)
    ensures
        r == match OutputFormat::parse_spec(text@) {
            Some(format) => Ok::<OutputFormat, TextError>(format),
            None => Err::<OutputFormat, TextError>(TextError::InvalidFormat),
        },
{
    OutputFormat::from_str(text)
}

} // verus!
