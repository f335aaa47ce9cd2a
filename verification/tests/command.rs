use rcli::{
    files_to_read, run, Base64DecodeOpt, Base64EncodeOpt, Base64Format, Base64SubCommand, CsvOpt,
    DecryptOpt, Effect, EncryptOpt, GenPassOpt, KeyPart, OutputFormat, SubCommand, TextError,
    TextKeyGenerateOpt, TextSignFormat, TextSignOpt, TextSubCommand, TextVerifyOpt,
};

fn printed(r: Result<Effect, TextError>) -> String {
    match r {
        Ok(Effect::Print(line)) => line,
        Ok(_) => panic!("another effect than a printed line"),
        Err(e) => panic!("an error: {:?}", e),
    }
}

fn failure(r: Result<Effect, TextError>) -> TextError {
    match r {
        Ok(_) => panic!("an effect where an error was due"),
        Err(e) => e,
    }
}

fn sign_cmd(format: TextSignFormat) -> SubCommand {
    SubCommand::Text(TextSubCommand::Sign(TextSignOpt {
        input: "-".to_string(),
        key: "key.bin".to_string(),
        format,
    }))
}

fn verify_cmd(format: TextSignFormat, sign: &str) -> SubCommand {
    SubCommand::Text(TextSubCommand::Verify(TextVerifyOpt {
        input: "message.txt".to_string(),
        key: "key.bin".to_string(),
        sign: sign.to_string(),
        format,
    }))
}

#[test]
fn commands_name_the_files_they_want_read() {
    assert_eq!(files_to_read(&sign_cmd(TextSignFormat::Blake3)), vec!["-", "key.bin"]);
    assert_eq!(files_to_read(&verify_cmd(TextSignFormat::Ed25519, "")), vec!["message.txt", "key.bin"]);
    let encrypt = SubCommand::Text(TextSubCommand::Encrypt(EncryptOpt {
        input: "a".to_string(),
        key: "b".to_string(),
        nonce: "c".to_string(),
    }));
    assert_eq!(files_to_read(&encrypt), vec!["a", "b", "c"]);
    let generate = SubCommand::Text(TextSubCommand::Generate(TextKeyGenerateOpt {
        format: TextSignFormat::Ed25519,
        output: "keys".to_string(),
    }));
    assert!(files_to_read(&generate).is_empty());
    let genpass = SubCommand::GenPass(GenPassOpt {
        length: 16,
        no_uppercase: false,
        no_lowercase: false,
        no_number: false,
        no_symbol: false,
    });
    assert!(files_to_read(&genpass).is_empty());
    let encode = SubCommand::Base64(Base64SubCommand::Encode(Base64EncodeOpt {
        input: "in.bin".to_string(),
        format: Base64Format::Standard,
    }));
    assert_eq!(files_to_read(&encode), vec!["in.bin"]);
}

#[test]
fn base64_commands_print_their_result() {
    let encode = SubCommand::Base64(Base64SubCommand::Encode(Base64EncodeOpt {
        input: "-".to_string(),
        format: Base64Format::Standard,
    }));
    assert_eq!(printed(run(&encode, &vec![b"hello world".to_vec()])), "aGVsbG8gd29ybGQ=");
    let decode = SubCommand::Base64(Base64SubCommand::Decode(Base64DecodeOpt {
        input: "-".to_string(),
        format: Base64Format::Standard,
    }));
    assert_eq!(printed(run(&decode, &vec![b"aGVsbG8gd29ybGQ=\n".to_vec()])), "hello world");
    assert_eq!(failure(run(&decode, &vec![b"/w==".to_vec()])), TextError::InvalidUtf8);
    assert_eq!(failure(run(&decode, &vec![vec![0xff]])), TextError::InvalidUtf8);
    assert_eq!(failure(run(&decode, &vec![b"?".to_vec()])), TextError::InvalidEncoding);
}

#[test]
fn signing_and_verifying_print_text_and_verdict() {
    let key = vec![0u8; 32];
    let sig = printed(run(&sign_cmd(TextSignFormat::Blake3), &vec![b"hello world\n".to_vec(), key.clone()]));
    assert_eq!(sig.len(), 43);
    let verify = verify_cmd(TextSignFormat::Blake3, &sig);
    assert_eq!(printed(run(&verify, &vec![b"hello world".to_vec(), key.clone()])), "true");
    assert_eq!(printed(run(&verify, &vec![b"hello worle".to_vec(), key.clone()])), "false");
    assert_eq!(
        failure(run(&verify, &vec![b"hello world".to_vec(), vec![0u8; 3]])),
        TextError::InvalidKeyLength { part: KeyPart::KeyedHashKey, expected: 32, actual: 3 }
    );
    assert_eq!(
        failure(run(&sign_cmd(TextSignFormat::Blake3), &vec![vec![0xc0], key.clone()])),
        TextError::InvalidUtf8
    );
    let bad = verify_cmd(TextSignFormat::Blake3, "???");
    assert_eq!(failure(run(&bad, &vec![vec![0xc0], key])), TextError::InvalidEncoding);
}

#[test]
fn generating_hands_over_named_blobs() {
    let generate = SubCommand::Text(TextSubCommand::Generate(TextKeyGenerateOpt {
        format: TextSignFormat::ChaCha20Poly1305,
        output: "keys".to_string(),
    }));
    match run(&generate, &Vec::new()) {
        Ok(Effect::WriteKeys { dir, names, blobs }) => {
            assert_eq!(dir, "keys");
            assert_eq!(names, vec!["chacha20poly1305.key", "chacha20poly1305.nonce"]);
            assert_eq!(blobs.iter().map(|b| b.len()).collect::<Vec<_>>(), vec![32, 12]);
        }
        _ => panic!("key files were due"),
    }
}

#[test]
fn encrypting_and_decrypting_print_text() {
    let encrypt = SubCommand::Text(TextSubCommand::Encrypt(EncryptOpt {
        input: "-".to_string(),
        key: "k".to_string(),
        nonce: "n".to_string(),
    }));
    let decrypt = SubCommand::Text(TextSubCommand::Decrypt(DecryptOpt {
        input: "-".to_string(),
        key: "k".to_string(),
        nonce: "n".to_string(),
    }));
    let key = vec![7u8; 32];
    let nonce = vec![8u8; 12];
    let sealed = printed(run(&encrypt, &vec![b"attack at dawn\n".to_vec(), key.clone(), nonce.clone()]));
    assert_eq!(
        printed(run(&decrypt, &vec![sealed.clone().into_bytes(), key.clone(), nonce.clone()])),
        "attack at dawn"
    );
    // decrypting looks at key and nonce before it reads the input as text
    assert_eq!(
        failure(run(&decrypt, &vec![vec![0xff], key.clone(), vec![0u8; 3]])),
        TextError::InvalidKeyLength { part: KeyPart::CipherNonce, expected: 12, actual: 3 }
    );
    assert_eq!(failure(run(&decrypt, &vec![vec![0xff], key.clone(), nonce.clone()])), TextError::InvalidUtf8);
    // encrypting reads the input as text first
    assert_eq!(failure(run(&encrypt, &vec![vec![0xff], key, vec![0u8; 3]])), TextError::InvalidUtf8);
}

#[test]
fn passwords_are_printed() {
    let genpass = SubCommand::GenPass(GenPassOpt {
        length: 20,
        no_uppercase: false,
        no_lowercase: true,
        no_number: false,
        no_symbol: true,
    });
    let password = printed(run(&genpass, &Vec::new()));
    assert_eq!(password.len(), 20);
    assert!(password.chars().all(|c| c.is_ascii_uppercase() || c.is_ascii_digit()));
    let nothing = SubCommand::GenPass(GenPassOpt {
        length: 20,
        no_uppercase: true,
        no_lowercase: true,
        no_number: true,
        no_symbol: true,
    });
    assert_eq!(failure(run(&nothing, &Vec::new())), TextError::NoCharacterClass);
}

#[test]
fn converted_records_go_to_a_file() {
    let chosen = SubCommand::Csv(CsvOpt {
        input: "in.csv".to_string(),
        output: Some("out/players.yaml".to_string()),
        format: OutputFormat::Yaml,
        deliment: ',',
        header: true,
    });
    match run(&chosen, &vec![b"Name,Kit\nAda,nine\n".to_vec()]) {
        Ok(Effect::WriteFile { path, content }) => {
            assert_eq!(path, "out/players.yaml");
            assert_eq!(content, "- Kit: nine\n  Name: Ada\n");
        }
        _ => panic!("a file was due"),
    }
    let default = SubCommand::Csv(CsvOpt {
        input: "in.csv".to_string(),
        output: None,
        format: OutputFormat::Json,
        deliment: ',',
        header: true,
    });
    match run(&default, &vec![b"Name\nAda\n".to_vec()]) {
        Ok(Effect::WriteFile { path, content }) => {
            assert_eq!(path, "output.json");
            assert_eq!(content, "[\n  {\n    \"Name\": \"Ada\"\n  }\n]");
        }
        _ => panic!("a file was due"),
    }
    assert_eq!(failure(run(&default, &vec![b"a\n1,2\n".to_vec()])), TextError::InvalidRecords);
}

#[test]
fn the_cipher_neither_signs_nor_verifies() {
    assert!(rcli::is_runnable(&sign_cmd(TextSignFormat::Blake3)));
    assert!(rcli::is_runnable(&sign_cmd(TextSignFormat::Ed25519)));
    assert!(!rcli::is_runnable(&sign_cmd(TextSignFormat::ChaCha20Poly1305)));
    assert!(!rcli::is_runnable(&verify_cmd(TextSignFormat::ChaCha20Poly1305, "")));
    assert!(TextSignFormat::Ed25519.can_sign());
    assert!(!TextSignFormat::ChaCha20Poly1305.can_sign());
}
