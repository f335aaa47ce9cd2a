use rcli::{
    Ed25519Signer, Ed25519Verifier, KeyGenerator, KeyLoader, KeyPart, TextError, TextSign,
    TextVerify,
};

fn hex(text: &str) -> Vec<u8> {
    (0..text.len() / 2).map(|i| u8::from_str_radix(&text[2 * i..2 * i + 2], 16).unwrap()).collect()
}

const SEED: &str = "9d61b19deffd5a60ba844af492ec2cc44449c5697b326919703bac031cae7f60";
const PUBLIC: &str = "d75a980182b10ab7d54bfed3c964073a0ee172f3daa62325af021a68f707511a";
const SIGNATURE: &str = "e5564300c360ac729086e2cc806e828a84877f1eb8e5d974d873e06522490155\
5fb8821590a33bacc61e39701cf9b46bd25bf5f0595bbe24655141438e7a100b";

#[test]
fn test_ed25519_sign_verify() {
    let sk = Ed25519Signer::load(&hex(SEED)).unwrap();
    let pk = Ed25519Verifier::load(&hex(PUBLIC)).unwrap();

    let data = b"hello world";
    let sig = sk.sign(&data[..]).unwrap();
    assert!(pk.verify(&data[..], &sig).unwrap());
}

#[test]
fn ed25519_signs_the_empty_message_as_the_standard_says() {
    let signer = Ed25519Signer::try_new(&hex(SEED)).unwrap();
    assert_eq!(signer.public_key().to_vec(), hex(PUBLIC));
    let sig = signer.sign(b"").unwrap();
    assert_eq!(sig.len(), 64);
    assert_eq!(sig, hex(SIGNATURE));
    let verifier = Ed25519Verifier::try_new(&hex(PUBLIC)).unwrap();
    assert_eq!(verifier.verify(b"", &sig), Ok(true));
    assert_eq!(verifier.verify(b"x", &sig), Ok(false));
}

#[test]
fn ed25519_keypair_blobs_are_seed_then_public_key() {
    let mut seed = [0u8; 32];
    seed.copy_from_slice(&hex(SEED));
    let blobs = Ed25519Signer::keypair_blobs(seed);
    assert_eq!(blobs.len(), 2);
    assert_eq!(blobs[0], hex(SEED));
    assert_eq!(blobs[1], hex(PUBLIC));
}

#[test]
fn ed25519_generated_pair_signs_and_verifies() {
    let blobs = Ed25519Signer::generate().unwrap();
    assert_eq!(blobs.len(), 2);
    assert_eq!(blobs[0].len(), 32);
    assert_eq!(blobs[1].len(), 32);
    let signer = Ed25519Signer::load(&blobs[0]).unwrap();
    let verifier = Ed25519Verifier::load(&blobs[1]).unwrap();
    assert_eq!(signer.public_key().to_vec(), blobs[1]);
    let sig = signer.sign(b"a message").unwrap();
    assert_eq!(verifier.verify(b"a message", &sig), Ok(true));
    assert_eq!(verifier.verify(b"a massage", &sig), Ok(false));
}

#[test]
fn ed25519_other_pair_does_not_verify() {
    let first = Ed25519Signer::generate().unwrap();
    let second = Ed25519Signer::generate().unwrap();
    assert_ne!(first[0], second[0]);
    let signer = Ed25519Signer::load(&first[0]).unwrap();
    let stranger = Ed25519Verifier::load(&second[1]).unwrap();
    let sig = signer.sign(b"a message").unwrap();
    assert_eq!(stranger.verify(b"a message", &sig), Ok(false));
}

#[test]
fn ed25519_altered_signature_does_not_verify() {
    let signer = Ed25519Signer::try_new(&hex(SEED)).unwrap();
    let verifier = Ed25519Verifier::try_new(&hex(PUBLIC)).unwrap();
    let mut sig = signer.sign(b"hello world").unwrap();
    sig[10] ^= 0x01;
    assert_eq!(verifier.verify(b"hello world", &sig), Ok(false));
}

#[test]
fn ed25519_signature_of_wrong_length_is_a_format_error() {
    let verifier = Ed25519Verifier::try_new(&hex(PUBLIC)).unwrap();
    assert_eq!(
        verifier.verify(b"m", &[0u8; 63]),
        Err(TextError::InvalidSignatureLength { expected: 64, actual: 63 })
    );
    assert_eq!(
        verifier.verify(b"m", &[0u8; 65]),
        Err(TextError::InvalidSignatureLength { expected: 64, actual: 65 })
    );
    assert_eq!(verifier.verify(b"m", &[0u8; 64]), Ok(false));
}

#[test]
fn ed25519_rejects_keys_of_wrong_length() {
    assert_eq!(
        Ed25519Signer::try_new(&[1u8; 31]).err(),
        Some(TextError::InvalidKeyLength { part: KeyPart::SigningKey, expected: 32, actual: 31 })
    );
    assert_eq!(
        Ed25519Signer::load(&[1u8; 64]).err(),
        Some(TextError::InvalidKeyLength { part: KeyPart::SigningKey, expected: 32, actual: 64 })
    );
    assert_eq!(
        Ed25519Verifier::try_new(&[1u8; 33]).err(),
        Some(TextError::InvalidKeyLength { part: KeyPart::VerifyingKey, expected: 32, actual: 33 })
    );
    assert_eq!(
        Ed25519Verifier::load(&[]).err(),
        Some(TextError::InvalidKeyLength { part: KeyPart::VerifyingKey, expected: 32, actual: 0 })
    );
}

#[test]
fn ed25519_rejects_bytes_that_are_no_point() {
    let mut rejected = 0;
    for first in 0u8..32 {
        let mut bytes = [0u8; 32];
        bytes[0] = first;
        match Ed25519Verifier::try_new(&bytes) {
            Ok(_) => {}
            Err(e) => {
                assert_eq!(e, TextError::InvalidPublicKey);
                rejected += 1;
            }
        }
    }
    assert!(rejected > 0);
    assert!(rejected < 32);
}
