use rcli::{
    key_file_names, process_text_decrypt, process_text_encrypt, process_text_generate,
    process_text_generate_with, process_text_sign, process_text_verify, Blake3,
    Chacha20Poly1305Text, KeyPart, KeyStyle, TextEncrypt, TextError, TextSign, TextSignFormat,
};

fn hex(text: &str) -> Vec<u8> {
    (0..text.len() / 2).map(|i| u8::from_str_radix(&text[2 * i..2 * i + 2], 16).unwrap()).collect()
}

const SEED: &str = "9d61b19deffd5a60ba844af492ec2cc44449c5697b326919703bac031cae7f60";
const PUBLIC: &str = "d75a980182b10ab7d54bfed3c964073a0ee172f3daa62325af021a68f707511a";

#[test]
fn signing_renders_the_signature_as_url_safe_text() {
    let key = [0u8; 32];
    let text = process_text_sign("hello world", &key, TextSignFormat::Blake3).unwrap();
    assert_eq!(text, "9w1nUwM4JGplIurp2q2SwN_UvPTlEWAtlumv0dIhBHk");
    assert_eq!(text.len(), 43);
    assert!(text.chars().all(|c| c.is_ascii_alphanumeric() || c == '-' || c == '_'));
    let raw = Blake3::new(key).sign(b"hello world").unwrap();
    assert_eq!(rcli::process_decode(&text, rcli::Base64Format::UrlSafe), Ok(raw));
}

#[test]
fn signing_leaves_out_the_white_space_at_the_ends() {
    let key = [0u8; 32];
    let bare = process_text_sign("hello world", &key, TextSignFormat::Blake3).unwrap();
    assert_eq!(process_text_sign("  hello world\n", &key, TextSignFormat::Blake3), Ok(bare.clone()));
    assert_eq!(process_text_sign("\thello world\r\n\n", &key, TextSignFormat::Blake3), Ok(bare.clone()));
    assert_ne!(process_text_sign("hello  world", &key, TextSignFormat::Blake3), Ok(bare));
}

#[test]
fn a_signature_verifies_for_its_text_only() {
    let key = [0u8; 32];
    let sig = process_text_sign("hello world", &key, TextSignFormat::Blake3).unwrap();
    assert_eq!(process_text_verify("hello world", &key, TextSignFormat::Blake3, &sig), Ok(true));
    assert_eq!(process_text_verify("hello world\n", &key, TextSignFormat::Blake3, &sig), Ok(true));
    assert_eq!(
        process_text_verify("hello world", &key, TextSignFormat::Blake3, &format!(" {}\n", sig)),
        Ok(true)
    );
    assert_eq!(process_text_verify("hello worle", &key, TextSignFormat::Blake3, &sig), Ok(false));
    assert_eq!(process_text_verify("hello world", &[1u8; 32], TextSignFormat::Blake3, &sig), Ok(false));
}

#[test]
fn asymmetric_signatures_travel_as_text() {
    let sig = process_text_sign("hello world", &hex(SEED), TextSignFormat::Ed25519).unwrap();
    assert_eq!(sig.len(), 86);
    assert_eq!(process_text_verify("hello world", &hex(PUBLIC), TextSignFormat::Ed25519, &sig), Ok(true));
    assert_eq!(process_text_verify(" hello world ", &hex(PUBLIC), TextSignFormat::Ed25519, &sig), Ok(true));
    assert_eq!(process_text_verify("hello worle", &hex(PUBLIC), TextSignFormat::Ed25519, &sig), Ok(false));
    let empty = process_text_sign(" \n", &hex(SEED), TextSignFormat::Ed25519).unwrap();
    assert_eq!(
        empty,
        "5VZDAMNgrHKQhuLMgG6CioSHfx645dl02HPgZSJJAVVfuIIVkKM7rMYeOXAc-bRr0lv18FlbviRlUUFDjnoQCw"
    );
}

#[test]
fn keys_of_wrong_length_fail_before_anything_is_signed() {
    assert_eq!(
        process_text_sign("text", &[0u8; 16], TextSignFormat::Blake3),
        Err(TextError::InvalidKeyLength { part: KeyPart::KeyedHashKey, expected: 32, actual: 16 })
    );
    assert_eq!(
        process_text_sign("text", &[0u8; 64], TextSignFormat::Ed25519),
        Err(TextError::InvalidKeyLength { part: KeyPart::SigningKey, expected: 32, actual: 64 })
    );
    let sig = process_text_sign("text", &[0u8; 32], TextSignFormat::Blake3).unwrap();
    assert_eq!(
        process_text_verify("text", &[0u8; 31], TextSignFormat::Blake3, &sig),
        Err(TextError::InvalidKeyLength { part: KeyPart::KeyedHashKey, expected: 32, actual: 31 })
    );
    assert_eq!(
        process_text_verify("text", &[0u8; 31], TextSignFormat::Ed25519, &sig),
        Err(TextError::InvalidKeyLength { part: KeyPart::VerifyingKey, expected: 32, actual: 31 })
    );
}

#[test]
fn a_signature_that_is_no_base64_is_a_format_error() {
    assert_eq!(
        process_text_verify("text", &[0u8; 32], TextSignFormat::Blake3, "not base64!"),
        Err(TextError::InvalidEncoding)
    );
    // the signature is decoded before the key is looked at
    assert_eq!(
        process_text_verify("text", &[0u8; 3], TextSignFormat::Blake3, "not base64!"),
        Err(TextError::InvalidEncoding)
    );
}

#[test]
fn an_asymmetric_signature_of_wrong_length_is_a_format_error() {
    let short = process_text_sign("text", &[0u8; 32], TextSignFormat::Blake3).unwrap();
    assert_eq!(
        process_text_verify("text", &hex(PUBLIC), TextSignFormat::Ed25519, &short),
        Err(TextError::InvalidSignatureLength { expected: 64, actual: 32 })
    );
    // for the keyed hash a signature of another length is a mismatch
    let long = process_text_sign("text", &hex(SEED), TextSignFormat::Ed25519).unwrap();
    assert_eq!(process_text_verify("text", &[0u8; 32], TextSignFormat::Blake3, &long), Ok(false));
}

#[test]
fn generated_blobs_come_in_their_fixed_order() {
    let hash = process_text_generate(TextSignFormat::Blake3).unwrap();
    assert_eq!(hash.iter().map(|b| b.len()).collect::<Vec<_>>(), vec![32]);
    assert!(hash[0].iter().all(|b| (33..127).contains(b)));
    let pair = process_text_generate(TextSignFormat::Ed25519).unwrap();
    assert_eq!(pair.iter().map(|b| b.len()).collect::<Vec<_>>(), vec![32, 32]);
    let cipher = process_text_generate(TextSignFormat::ChaCha20Poly1305).unwrap();
    assert_eq!(cipher.iter().map(|b| b.len()).collect::<Vec<_>>(), vec![32, 12]);
    let raw = process_text_generate_with(TextSignFormat::Blake3, KeyStyle::RawBytes).unwrap();
    assert_eq!(raw.iter().map(|b| b.len()).collect::<Vec<_>>(), vec![32]);
}

#[test]
fn generated_keys_sign_and_verify() {
    let hash = process_text_generate(TextSignFormat::Blake3).unwrap();
    let sig = process_text_sign("hello", &hash[0], TextSignFormat::Blake3).unwrap();
    assert_eq!(process_text_verify("hello", &hash[0], TextSignFormat::Blake3, &sig), Ok(true));
    let pair = process_text_generate(TextSignFormat::Ed25519).unwrap();
    let sig = process_text_sign("hello", &pair[0], TextSignFormat::Ed25519).unwrap();
    assert_eq!(process_text_verify("hello", &pair[1], TextSignFormat::Ed25519, &sig), Ok(true));
    let other = process_text_generate(TextSignFormat::Ed25519).unwrap();
    assert_eq!(process_text_verify("hello", &other[1], TextSignFormat::Ed25519, &sig), Ok(false));
}

#[test]
fn key_files_are_named_by_position() {
    assert_eq!(key_file_names(TextSignFormat::Blake3), vec!["blake3.txt"]);
    assert_eq!(key_file_names(TextSignFormat::Ed25519), vec!["ed25519.sk", "ed25519.pk"]);
    assert_eq!(
        key_file_names(TextSignFormat::ChaCha20Poly1305),
        vec!["chacha20poly1305.key", "chacha20poly1305.nonce"]
    );
    for format in [TextSignFormat::Blake3, TextSignFormat::Ed25519, TextSignFormat::ChaCha20Poly1305] {
        assert_eq!(key_file_names(format).len(), process_text_generate(format).unwrap().len());
    }
}

#[test]
fn encrypted_text_decrypts_to_the_trimmed_input() {
    let pair = process_text_generate(TextSignFormat::ChaCha20Poly1305).unwrap();
    let sealed = process_text_encrypt("  attack at dawn\n", &pair[0], &pair[1]).unwrap();
    assert!(sealed.chars().all(|c| c.is_ascii_alphanumeric() || c == '-' || c == '_'));
    assert_eq!(sealed.len(), 40);
    assert_eq!(process_text_decrypt(&sealed, &pair[0], &pair[1]), Ok("attack at dawn".to_string()));
    assert_eq!(
        process_text_decrypt(&format!("\n{}\n", sealed), &pair[0], &pair[1]),
        Ok("attack at dawn".to_string())
    );
    let other = process_text_generate(TextSignFormat::ChaCha20Poly1305).unwrap();
    assert_eq!(
        process_text_decrypt(&sealed, &other[0], &pair[1]),
        Err(TextError::AuthenticationFailed)
    );
    assert_eq!(
        process_text_decrypt(&sealed, &pair[0], &other[1]),
        Err(TextError::AuthenticationFailed)
    );
}

#[test]
fn decrypting_reports_the_first_thing_that_is_wrong() {
    let key = [1u8; 32];
    let nonce = [2u8; 12];
    assert_eq!(
        process_text_decrypt("not base64!", &key[..5], &nonce),
        Err(TextError::InvalidKeyLength { part: KeyPart::CipherKey, expected: 32, actual: 5 })
    );
    assert_eq!(
        process_text_decrypt("not base64!", &key, &nonce[..5]),
        Err(TextError::InvalidKeyLength { part: KeyPart::CipherNonce, expected: 12, actual: 5 })
    );
    assert_eq!(process_text_decrypt("not base64!", &key, &nonce), Err(TextError::InvalidEncoding));
    assert_eq!(process_text_decrypt("AAAA", &key, &nonce), Err(TextError::AuthenticationFailed));
    assert_eq!(
        process_text_encrypt("text", &key[..5], &nonce),
        Err(TextError::InvalidKeyLength { part: KeyPart::CipherKey, expected: 32, actual: 5 })
    );
    assert_eq!(
        process_text_encrypt("text", &key, &[]),
        Err(TextError::InvalidKeyLength { part: KeyPart::CipherNonce, expected: 12, actual: 0 })
    );
}

#[test]
fn a_plaintext_that_is_no_text_is_refused() {
    let key = [1u8; 32];
    let nonce = [2u8; 12];
    let sealed = Chacha20Poly1305Text::new(key, nonce).encrypt(&[0xff, 0xfe]).unwrap();
    let text = rcli::process_encode(&sealed, rcli::Base64Format::UrlSafe).unwrap();
    assert_eq!(process_text_decrypt(&text, &key, &nonce), Err(TextError::InvalidUtf8));
}
