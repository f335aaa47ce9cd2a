//! What a caller can ask for: the commands and their options, as plain
//! values, and the checks on the paths that options name. Whether a path
//! exists is found out elsewhere and handed in as a fact.

use vstd::prelude::*;
use vstd::string::StringExecFns;
use crate::format::{Base64Format, OutputFormat, TextSignFormat};

verus! {

/// The options of one run.
pub struct Opts {
    pub cmd: SubCommand,
}

/// The commands.
pub enum SubCommand {
    /// Convert records to another syntax.
    Csv(CsvOpt),
    /// Generate a random password.
    GenPass(GenPassOpt),
    /// Encode or decode base64.
    Base64(Base64SubCommand),
    /// Sign, verify, generate keys, encrypt or decrypt.
    Text(TextSubCommand),
}

/// Options for converting records. Separator and header flag are carried
/// for the caller; the conversion itself reads commas and takes the first
/// record as the names of the fields.
pub struct CsvOpt {
    /// Path of the input.
    pub input: String,
    /// Path of the output, if one is chosen.
    pub output: Option<String>,
    /// Syntax of the output.
    pub format: OutputFormat,
    /// Separator between the fields of a record.
    pub deliment: char,
    /// Whether the first record names the fields.
    pub header: bool,
}

/// Options for generating a password.
pub struct GenPassOpt {
    pub length: u8,
    pub no_uppercase: bool,
    pub no_lowercase: bool,
    pub no_number: bool,
    pub no_symbol: bool,
}

/// The base64 commands.
pub enum Base64SubCommand {
    Encode(Base64EncodeOpt),
    Decode(Base64DecodeOpt),
}

/// Options for encoding.
pub struct Base64EncodeOpt {
    /// Path of the input; `-` is the standard input.
    pub input: String,
    pub format: Base64Format,
}

/// Options for decoding.
pub struct Base64DecodeOpt {
    /// Path of the input; `-` is the standard input.
    pub input: String,
    pub format: Base64Format,
}

/// The text commands.
pub enum TextSubCommand {
    Sign(TextSignOpt),
    Verify(TextVerifyOpt),
    Generate(TextKeyGenerateOpt),
    Encrypt(EncryptOpt),
    Decrypt(DecryptOpt),
}

/// Options for signing.
pub struct TextSignOpt {
    /// Path of the input; `-` is the standard input.
    pub input: String,
    /// Path of the key.
    pub key: String,
    pub format: TextSignFormat,
}

/// Options for verifying.
pub struct TextVerifyOpt {
    /// Path of the input; `-` is the standard input.
    pub input: String,
    /// Path of the key.
    pub key: String,
    /// The signature, as URL-safe base64.
    pub sign: String,
    pub format: TextSignFormat,
}

/// Options for generating keys.
pub struct TextKeyGenerateOpt {
    pub format: TextSignFormat,
    /// Directory that the key files go to.
    pub output: String,
}

/// Options for encrypting.
pub struct EncryptOpt {
    /// Path of the input; `-` is the standard input.
    pub input: String,
    /// Path of the key.
    pub key: String,
    /// Path of the nonce.
    pub nonce: String,
}

/// Options for decrypting.
pub struct DecryptOpt {
    /// Path of the input; `-` is the standard input.
    pub input: String,
    /// Path of the key.
    pub key: String,
    /// Path of the nonce.
    pub nonce: String,
}

/// The HTTP commands. Serving needs the network, which is the caller's;
/// here the options are carried as plain values.
pub enum HttpSubCommand {
    /// Serve a directory over HTTP.
    Serve(HttpServeOpt),
}

/// Options for serving a directory.
pub struct HttpServeOpt {
    /// The directory to serve.
    pub dir: String,
    /// The port to listen on.
    pub port: u16,
}

/// What is known of a path that names an input.
pub struct InputFacts {
    /// Whether anything is there.
    pub exists: bool,
    /// Whether a regular file is there.
    pub is_file: bool,
}

/// What is known of a path that names an output.
pub struct OutputFacts {
    /// Whether a directory is there.
    pub is_dir: bool,
    /// The path of the directory that would hold the output, where the
    /// path has one.
    pub parent: Option<String>,
    /// Whether anything is at the parent.
    pub parent_exists: bool,
    /// Whether a directory is at the parent.
    pub parent_is_dir: bool,
}

/// What is known of a path that names a directory.
pub struct DirFacts {
    /// Whether anything is there.
    pub exists: bool,
    /// Whether a directory is there.
    pub is_dir: bool,
}

/// What checking a directory path gives.
pub open spec fn verify_path_spec(path: Seq<char>, facts: DirFacts) -> Result<
    Seq<char>,
    Seq<char>,
> {
    if facts.exists && facts.is_dir {
        Ok(path)
    } else {
        Err("Path does not exist or is not a directory"@)
    }
}

/// What checking an input path gives.
pub open spec fn verify_input_spec(filename: Seq<char>, facts: InputFacts) -> Result<
    Seq<char>,
    Seq<char>,
> {
    if filename == "-"@ {
        Ok(filename)
    } else if !facts.exists {
        Err("file is not exists: "@ + filename)
    } else if !facts.is_file {
        Err("path is not a file: "@ + filename)
    } else {
        Ok(filename)
    }
}

/// Whether the parent of an output path has to be looked at: the path has
/// one, and it is not the empty path.
pub open spec fn needs_parent(facts: OutputFacts) -> bool {
    facts.parent matches Some(parent) && parent@.len() > 0
}

/// What checking an output path gives.
pub open spec fn verify_output_spec(filename: Seq<char>, facts: OutputFacts) -> Result<
    Seq<char>,
    Seq<char>,
> {
    if facts.is_dir {
        Err("path "@ + filename + " is a directory"@)
    } else if needs_parent(facts) && !facts.parent_exists {
        Err("output drectory "@ + facts.parent->Some_0@ + " is not exists"@)
    } else if needs_parent(facts) && !facts.parent_is_dir {
        Err(filename + " the parent is not drectory"@)
    } else {
        Ok(filename)
    }
}

/// The view of a result whose two sides are strings.
pub open spec fn text_result(r: Result<String, String>) -> Result<Seq<char>, Seq<char>> {
    match r {
        Ok(text) => Ok(text@),
        Err(text) => Err(text@),
    }
}

/// Whether two strings hold the same text.
fn same_text(a: &str, b: &str) -> (same: bool)
    ensures
        same == (a@ == b@),
{
    String::from_str(a) == String::from_str(b)
}

/// Checks a path that names an input: `-`, the standard input, is always
/// taken; any other must be a file that is there.
pub fn verify_input_file(filename: &str, facts: &InputFacts) -> (r: Result<String, String>)
    ensures
        text_result(r) == verify_input_spec(filename@, *facts),
{
    if same_text(filename, "-") {
        return Ok(String::from_str("-"));
    }
    if !facts.exists {
        return Err(String::from_str("file is not exists: ").concat(filename));
    }
    if !facts.is_file {
        return Err(String::from_str("path is not a file: ").concat(filename));
    }
    Ok(String::from_str(filename))
}

/// Checks a path that names a directory: a directory must be there.
pub fn verify_path(path: &str, facts: &DirFacts) -> (r: Result<String, String>)
    ensures
        text_result(r) == verify_path_spec(path@, *facts),
{
    if facts.exists && facts.is_dir {
        Ok(String::from_str(path))
    } else {
        Err(String::from_str("Path does not exist or is not a directory"))
    }
}

/// Checks a path that names an output: it must not be a directory, and
/// the directory that would hold it must be there.
pub fn verify_output_file(filename: &str, facts: &OutputFacts) -> (r: Result<String, String>)
    ensures
        text_result(r) == verify_output_spec(filename@, *facts),
{
    if facts.is_dir {
        return Err(String::from_str("path ").concat(filename).concat(" is a directory"));
    }
    match &facts.parent {
        Some(parent) => {
            if !parent.as_str().is_empty() {
                if !facts.parent_exists {
                    return Err(
                        String::from_str("output drectory ").concat(parent.as_str()).concat(
                            " is not exists",
                        ),
                    );
                }
                if !facts.parent_is_dir {
                    return Err(String::from_str(filename).concat(" the parent is not drectory"));
                }
            }
        },
        None => {},
    }
    Ok(String::from_str(filename))
}

} // verus!
