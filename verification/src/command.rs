//! Running a command once its inputs have been read: which files a command
//! wants read, and what is left to do with the result. Reading, printing
//! and writing happen elsewhere; here the bytes come in and an effect goes
//! out.

use vstd::prelude::*;
use vstd::string::StringExecFns;
use vstd::utf8::{decode_utf8, encode_utf8_decode_utf8, valid_utf8};
use crate::b64::{
    decode, decode_spec, encodable, encode_spec, pads, process_decode, process_encode,
    url_safe_base64, url_safe_base64_decoded,
};
use crate::bytes::to_vec;
use crate::csv_convert::{convert_spec, process_csv};
use crate::error::TextError;
use crate::format::{Base64Format, OutputFormat, TextSignFormat};
use crate::genpass::{is_password, process_genpass, CharClasses};
use crate::keyed_hash::KeyStyle;
use crate::options::{
    Base64SubCommand, CsvOpt, GenPassOpt, SubCommand, TextSubCommand,
};
use crate::plain_text::{message_of, trim, trimmed, utf8_string};
use crate::text::{
    decrypt_spec, encrypt_spec, generated, key_file_names, key_file_names_spec, cipher_key_error,
    process_text_decrypt, process_text_encrypt, process_text_generate, process_text_sign,
    process_text_verify, sign_spec, verify_text_spec,
};
use crate::cipher::Chacha20Poly1305Text;

verus! {

/// What is left to do once a command has run.
pub enum Effect {
    /// Print one line of text.
    Print(String),
    /// Write a text file.
    WriteFile { path: String, content: String },
    /// Write key files into a directory: blob `i` under name `i`.
    WriteKeys { dir: String, names: Vec<&'static str>, blobs: Vec<Vec<u8>> },
}

/// The paths a command wants read, in the order in which their contents
/// are handed to it.
pub open spec fn inputs_spec(cmd: SubCommand) -> Seq<Seq<char>> {
    match cmd {
        SubCommand::Csv(opt) => seq![opt.input@],
        SubCommand::GenPass(_) => seq![],
        SubCommand::Base64(Base64SubCommand::Encode(opt)) => seq![opt.input@],
        SubCommand::Base64(Base64SubCommand::Decode(opt)) => seq![opt.input@],
        SubCommand::Text(TextSubCommand::Sign(opt)) => seq![opt.input@, opt.key@],
        SubCommand::Text(TextSubCommand::Verify(opt)) => seq![opt.input@, opt.key@],
        SubCommand::Text(TextSubCommand::Generate(_)) => seq![],
        SubCommand::Text(TextSubCommand::Encrypt(opt)) => seq![opt.input@, opt.key@, opt.nonce@],
        SubCommand::Text(TextSubCommand::Decrypt(opt)) => seq![opt.input@, opt.key@, opt.nonce@],
    }
}

/// Whether a command makes sense: signing and verifying need a format
/// that signs.
pub open spec fn runnable(cmd: SubCommand) -> bool {
    match cmd {
        SubCommand::Text(TextSubCommand::Sign(opt)) => opt.format.signs(),
        SubCommand::Text(TextSubCommand::Verify(opt)) => opt.format.signs(),
        _ => true,
    }
}

/// The text that `bytes` hold, if they are UTF-8.
pub open spec fn text_of(bytes: Seq<u8>) -> Result<Seq<char>, TextError> {
    if valid_utf8(bytes) {
        Ok(decode_utf8(bytes))
    } else {
        Err(TextError::InvalidUtf8)
    }
}

/// The path that converted records go to: the one chosen, or `output.`
/// followed by the name of the format.
pub open spec fn csv_output_spec(opt: CsvOpt) -> Seq<char> {
    match opt.output {
        Some(path) => path@,
        None => "output."@ + opt.format.name_spec(),
    }
}

/// The paths a command wants read, in the order in which their contents
/// are handed to it.
pub fn files_to_read(cmd: &SubCommand) -> (paths: Vec<String>)
    ensures
        paths.deep_view() == inputs_spec(*cmd),
{
    let mut paths: Vec<String> = Vec::new();
    match cmd {
        SubCommand::Csv(opt) => {
            paths.push(opt.input.clone());
        },
        SubCommand::GenPass(_) => {},
        SubCommand::Base64(Base64SubCommand::Encode(opt)) => {
            paths.push(opt.input.clone());
        },
        SubCommand::Base64(Base64SubCommand::Decode(opt)) => {
            paths.push(opt.input.clone());
        },
        SubCommand::Text(TextSubCommand::Sign(opt)) => {
            paths.push(opt.input.clone());
            paths.push(opt.key.clone());
        },
        SubCommand::Text(TextSubCommand::Verify(opt)) => {
            paths.push(opt.input.clone());
            paths.push(opt.key.clone());
        },
        SubCommand::Text(TextSubCommand::Generate(_)) => {},
        SubCommand::Text(TextSubCommand::Encrypt(opt)) => {
            paths.push(opt.input.clone());
            paths.push(opt.key.clone());
            paths.push(opt.nonce.clone());
        },
        SubCommand::Text(TextSubCommand::Decrypt(opt)) => {
            paths.push(opt.input.clone());
            paths.push(opt.key.clone());
            paths.push(opt.nonce.clone());
        },
    }
    assert(paths.deep_view() =~= inputs_spec(*cmd));
    paths
}

/// Whether a command makes sense.
pub fn is_runnable(cmd: &SubCommand) -> (yes: bool)
    ensures
        yes == runnable(*cmd),
{
    match cmd {
        SubCommand::Text(TextSubCommand::Sign(opt)) => opt.format.can_sign(),
        SubCommand::Text(TextSubCommand::Verify(opt)) => opt.format.can_sign(),
        _ => true,
    }
}

/// Reads bytes as UTF-8 text.
pub fn text_from(bytes: &[u8]) -> (r: Result<String, TextError>)
    ensures
        match text_of(bytes@) {
            Ok(text) => r matches Ok(s) && s@ == text,
            Err(e) => r == Err::<String, TextError>(e),
        },
{
    match utf8_string(to_vec(bytes)) {
        Some(text) => {
            proof {
                encode_utf8_decode_utf8(text@);
            }
            Ok(text)
        },
        None => Err(TextError::InvalidUtf8),
    }
}

/// The path that converted records go to.
pub fn csv_output(opt: &CsvOpt) -> (path: String)
    ensures
        path@ == csv_output_spec(*opt),
{
    match &opt.output {
        Some(path) => path.clone(),
        None => String::from_str("output.").concat(opt.format.name()),
    }
}

/// The one error that `r` may be.
pub open spec fn fails_with(r: Result<Effect, TextError>, e: TextError) -> bool {
    r == Err::<Effect, TextError>(e)
}

/// Whether `r` is the effect of printing `text`.
pub open spec fn prints(r: Result<Effect, TextError>, text: Seq<char>) -> bool {
    r matches Ok(Effect::Print(line)) && line@ == text
}

/// Whether `r` is what a base64 command gives on `input`.
///
/// Encoding prints the encoding of the input. Decoding reads the input as
/// text, decodes it without the white space at its ends, and prints the
/// bytes as text; it fails where input or bytes are not UTF-8.
pub open spec fn base64_outcome(
    cmd: Base64SubCommand,
    input: Seq<u8>,
    r: Result<Effect, TextError>,
) -> bool {
    match cmd {
        Base64SubCommand::Encode(opt) => if encodable(input.len(), pads(opt.format)) {
            prints(r, encode_spec(opt.format, input))
        } else {
            fails_with(r, TextError::InputTooLong)
        },
        Base64SubCommand::Decode(opt) => match text_of(input) {
            Err(e) => fails_with(r, e),
            Ok(text) => match decode_spec(opt.format, trimmed(text)) {
                None => fails_with(r, TextError::InvalidEncoding),
                Some(data) => match text_of(data) {
                    Err(e) => fails_with(r, e),
                    Ok(decoded) => prints(r, decoded),
                },
            },
        },
    }
}

/// The word that a verdict is printed as.
pub open spec fn verdict_text(valid: bool) -> Seq<char> {
    if valid {
        "true"@
    } else {
        "false"@
    }
}

/// Whether `r` is what a text command gives on the contents of its files.
///
/// Signing, verifying and encrypting read the input as text first, but
/// verifying decodes the signature before that. Decrypting loads key and
/// nonce before it reads the input as text. Generating hands the blobs
/// over under their file names, for the directory that was chosen.
pub open spec fn text_outcome(
    cmd: TextSubCommand,
    files: Seq<Seq<u8>>,
    r: Result<Effect, TextError>,
) -> bool {
    match cmd {
        TextSubCommand::Sign(opt) => match text_of(files[0]) {
            Err(e) => fails_with(r, e),
            Ok(input) => match sign_spec(opt.format, files[1], message_of(input)) {
                Ok(sig) => prints(r, url_safe_base64(sig)),
                Err(e) => fails_with(r, e),
            },
        },
        TextSubCommand::Verify(opt) => match url_safe_base64_decoded(trimmed(opt.sign@)) {
            None => fails_with(r, TextError::InvalidEncoding),
            Some(_) => match text_of(files[0]) {
                Err(e) => fails_with(r, e),
                Ok(input) => match verify_text_spec(
                    opt.format,
                    files[1],
                    message_of(input),
                    opt.sign@,
                ) {
                    Ok(valid) => prints(r, verdict_text(valid)),
                    Err(e) => fails_with(r, e),
                },
            },
        },
        TextSubCommand::Generate(opt) => {
            &&& r matches Ok(Effect::WriteKeys { dir, names, blobs })
            &&& dir@ == opt.output@
            &&& names.deep_view() == key_file_names_spec(opt.format)
            &&& generated(opt.format, KeyStyle::Printable, blobs.deep_view())
            &&& names@.len() == blobs@.len()
        },
        TextSubCommand::Encrypt(opt) => match text_of(files[0]) {
            Err(e) => fails_with(r, e),
            Ok(input) => match encrypt_spec(files[1], files[2], message_of(input)) {
                Ok(ciphertext) => prints(r, url_safe_base64(ciphertext)),
                Err(e) => fails_with(r, e),
            },
        },
        TextSubCommand::Decrypt(opt) => match cipher_key_error(files[1], files[2]) {
            Some(e) => fails_with(r, e),
            None => match text_of(files[0]) {
                Err(e) => fails_with(r, e),
                Ok(input) => match decrypt_spec(files[1], files[2], input) {
                    Ok(plaintext) => prints(r, plaintext),
                    Err(e) => fails_with(r, e),
                },
            },
        },
    }
}

/// Whether `r` is what converting records gives on `input`: a file of the
/// rendered records at the output path, or an error.
pub open spec fn csv_outcome(opt: CsvOpt, input: Seq<u8>, r: Result<Effect, TextError>) -> bool {
    match convert_spec(input, opt.format) {
        Err(e) => fails_with(r, e),
        Ok(text) => r matches Ok(Effect::WriteFile { path, content }) && path@ == csv_output_spec(
            opt,
        ) && content@ == text,
    }
}

/// Whether `r` is what generating a password gives: a line with a
/// password that the options admit, or the error of options that leave no
/// character to draw.
pub open spec fn genpass_outcome(opt: GenPassOpt, r: Result<Effect, TextError>) -> bool {
    let classes = CharClasses::without(
        opt.no_uppercase,
        opt.no_lowercase,
        opt.no_number,
        opt.no_symbol,
    );
    if classes.is_empty() {
        fails_with(r, TextError::NoCharacterClass)
    } else {
        r matches Ok(Effect::Print(line)) && is_password(classes, opt.length as nat, line@)
    }
}

/// Runs a base64 command on the contents of its input.
pub fn run_base64(cmd: &Base64SubCommand, input: &[u8]) -> (r: Result<Effect, TextError>)
    ensures
        base64_outcome(*cmd, input@, r),
{
    match cmd {
        Base64SubCommand::Encode(opt) => {
            let encoded = process_encode(input, opt.format)?;
            Ok(Effect::Print(encoded))
        },
        Base64SubCommand::Decode(opt) => {
            let text = text_from(input)?;
            let decoded = process_decode(text.as_str(), opt.format)?;
            let line = text_from(decoded.as_slice())?;
            Ok(Effect::Print(line))
        },
    }
}

/// Runs a text command on the contents of its files.
pub fn run_text(cmd: &TextSubCommand, files: &Vec<Vec<u8>>) -> (r: Result<Effect, TextError>)
    requires
        files@.len() == inputs_spec(SubCommand::Text(*cmd)).len(),
        runnable(SubCommand::Text(*cmd)),
    ensures
        text_outcome(*cmd, files.deep_view(), r),
{
    match cmd {
        TextSubCommand::Sign(opt) => {
            assert(files.deep_view()[0] == files@[0]@ && files.deep_view()[1] == files@[1]@);
            let input = text_from(files[0].as_slice())?;
            let signed = process_text_sign(input.as_str(), files[1].as_slice(), opt.format)?;
            Ok(Effect::Print(signed))
        },
        TextSubCommand::Verify(opt) => {
            assert(files.deep_view()[0] == files@[0]@ && files.deep_view()[1] == files@[1]@);
            let _ = decode(trim(opt.sign.as_str()), Base64Format::UrlSafe)?;
            let input = text_from(files[0].as_slice())?;
            let valid = process_text_verify(
                input.as_str(),
                files[1].as_slice(),
                opt.format,
                opt.sign.as_str(),
            )?;
            let word = if valid {
                "true"
            } else {
                "false"
            };
            Ok(Effect::Print(String::from_str(word)))
        },
        TextSubCommand::Generate(opt) => {
            let blobs = process_text_generate(opt.format)?;
            let names = key_file_names(opt.format);
            proof {
                assert(names.deep_view().len() == names@.len());
                assert(blobs.deep_view().len() == blobs@.len());
            }
            Ok(Effect::WriteKeys { dir: opt.output.clone(), names, blobs })
        },
        TextSubCommand::Encrypt(opt) => {
            assert(files.deep_view()[0] == files@[0]@ && files.deep_view()[1] == files@[1]@
                && files.deep_view()[2] == files@[2]@);
            let input = text_from(files[0].as_slice())?;
            let sealed = process_text_encrypt(
                input.as_str(),
                files[1].as_slice(),
                files[2].as_slice(),
            )?;
            Ok(Effect::Print(sealed))
        },
        TextSubCommand::Decrypt(opt) => {
            assert(files.deep_view()[0] == files@[0]@ && files.deep_view()[1] == files@[1]@
                && files.deep_view()[2] == files@[2]@);
            let _ = Chacha20Poly1305Text::try_new(files[1].as_slice(), files[2].as_slice())?;
            let input = text_from(files[0].as_slice())?;
            let opened = process_text_decrypt(
                input.as_str(),
                files[1].as_slice(),
                files[2].as_slice(),
            )?;
            Ok(Effect::Print(opened))
        },
    }
}

/// Converts the records in the contents of the input.
pub fn run_csv(opt: &CsvOpt, input: &[u8]) -> (r: Result<Effect, TextError>)
    ensures
        csv_outcome(*opt, input@, r),
{
    let content = process_csv(input, opt.format)?;
    Ok(Effect::WriteFile { path: csv_output(opt), content })
}

/// Generates a password.
pub fn run_genpass(opt: &GenPassOpt) -> (r: Result<Effect, TextError>)
    ensures
        genpass_outcome(*opt, r),
{
    let password = process_genpass(
        opt.length,
        opt.no_uppercase,
        opt.no_lowercase,
        opt.no_number,
        opt.no_symbol,
    )?;
    Ok(Effect::Print(password))
}

/// Whether `r` is what a command gives on the contents of its files.
pub open spec fn outcome(cmd: SubCommand, files: Seq<Seq<u8>>, r: Result<Effect, TextError>) -> bool {
    match cmd {
        SubCommand::Csv(opt) => csv_outcome(opt, files[0], r),
        SubCommand::GenPass(opt) => genpass_outcome(opt, r),
        SubCommand::Base64(cmd) => base64_outcome(cmd, files[0], r),
        SubCommand::Text(cmd) => text_outcome(cmd, files, r),
    }
}

/// Runs a command on the contents of the files it wanted read.
pub fn run(cmd: &SubCommand, files: &Vec<Vec<u8>>) -> (r: Result<Effect, TextError>)
    requires
        files@.len() == inputs_spec(*cmd).len(),
        runnable(*cmd),
    ensures
        outcome(*cmd, files.deep_view(), r),
{
    match cmd {
        SubCommand::Csv(opt) => {
            assert(files.deep_view()[0] == files@[0]@);
            run_csv(opt, files[0].as_slice())
        },
        SubCommand::GenPass(opt) => run_genpass(opt),
        SubCommand::Base64(base64) => {
            assert(files.deep_view()[0] == files@[0]@);
            run_base64(base64, files[0].as_slice())
        },
        SubCommand::Text(text) => run_text(text, files),
    }
}

} // verus!
