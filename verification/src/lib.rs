//! Text signing, verification and authenticated encryption over byte
//! streams that are already in memory, with key material checked on load.

pub mod asymmetric;
pub mod b64;
pub mod bytes;
pub mod capability;
pub mod cipher;
pub mod command;
pub mod csv_convert;
pub mod error;
pub mod format;
pub mod genpass;
pub mod keyed_hash;
pub mod options;
pub mod plain_text;
pub mod text;

pub use asymmetric::{Ed25519Signer, Ed25519Verifier};
pub use b64::{process_decode, process_encode};
pub use capability::{KeyGenerator, KeyLoader, TextDecrypt, TextEncrypt, TextSign, TextVerify};
pub use cipher::Chacha20Poly1305Text;
pub use command::{files_to_read, is_runnable, run, Effect};
pub use csv_convert::process_csv;
pub use error::{KeyPart, TextError};
pub use format::{
    parse_base64_format, parse_format, parse_text_format, Base64Format, OutputFormat,
    TextSignFormat,
};
pub use genpass::{process_genpass, CharClasses};
pub use keyed_hash::{Blake3, KeyStyle};
pub use options::{
    verify_input_file, verify_output_file, verify_path, Base64DecodeOpt, Base64EncodeOpt,
    Base64SubCommand, CsvOpt, DecryptOpt, DirFacts, EncryptOpt, GenPassOpt, HttpServeOpt,
    HttpSubCommand, InputFacts, Opts, OutputFacts, SubCommand, TextKeyGenerateOpt, TextSignOpt, TextSubCommand, TextVerifyOpt,
};
pub use text::{
    key_file_names, process_text_decrypt, process_text_encrypt, process_text_generate,
    process_text_generate_with, process_text_sign, process_text_verify,
};
