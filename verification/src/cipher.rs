//! Authenticated encryption with ChaCha20-Poly1305 under one key and one
//! nonce, both supplied from outside. A ciphertext is the masked message
//! followed by a 16-byte tag, and decryption gives all of the plaintext or
//! none of it.
//!
//! A nonce must never serve twice with the same key for two different
//! messages. Nothing here can enforce that: it is left to the caller, who
//! keeps key and nonce together as a pair.

use vstd::prelude::*;
use chacha20poly1305::aead::{Aead, Generate, KeyInit};
use crate::bytes::{to_array, to_vec};
use crate::capability::{KeyGenerator, TextDecrypt, TextEncrypt};
use crate::error::{KeyPart, TextError};

verus! {

/// Length in bytes of a cipher key.
pub const CIPHER_KEY_LEN: usize = 32;

/// Length in bytes of a nonce.
pub const NONCE_LEN: usize = 12;

/// Length in bytes of the authentication tag that ends every ciphertext.
pub const TAG_LEN: usize = 16;

/// The byte of the ChaCha20 keystream that masks position `position` of a
/// message under `key` and `nonce`.
pub uninterp spec fn chacha20_keystream_byte(key: Seq<u8>, nonce: Seq<u8>, position: int) -> u8;

/// Byte `index` of the Poly1305 tag that `key` and `nonce` give to the
/// masked bytes `body`.
pub uninterp spec fn poly1305_tag_byte(key: Seq<u8>, nonce: Seq<u8>, body: Seq<u8>, index: int) -> u8;

/// Whether the cipher takes a message of `len` bytes under one nonce. The
/// keystream comes in blocks of 64 bytes, counted in 32 bits; the first
/// block is spent on the key of the tag and the count must not wrap, so
/// the message may take up to `0xffff_fffe` blocks, the last of them
/// partly.
pub open spec fn fits_cipher(len: nat) -> bool {
    (len + 63) / 64 <= 0xffff_fffe
}

/// Whether the cipher takes a message of `len` bytes under one nonce.
pub fn fits(len: usize) -> (yes: bool)
    ensures
        yes == fits_cipher(len as nat),
{
    let whole = len / 64;
    let blocks = if len % 64 == 0 {
        whole
    } else {
        whole + 1
    };
    blocks <= 0xffff_fffe
}

/// `data` with each byte combined, by exclusive or, with the keystream byte
/// of its position. Masking twice gives `data` back.
pub open spec fn masked(key: Seq<u8>, nonce: Seq<u8>, data: Seq<u8>) -> Seq<u8> {
    Seq::new(data.len(), |i: int| data[i] ^ chacha20_keystream_byte(key, nonce, i))
}

/// The 16-byte tag over the masked bytes `body`.
pub open spec fn tag_of(key: Seq<u8>, nonce: Seq<u8>, body: Seq<u8>) -> Seq<u8> {
    Seq::new(TAG_LEN as nat, |i: int| poly1305_tag_byte(key, nonce, body, i))
}

/// The ciphertext of `message`: its masked bytes, then the tag over them.
pub open spec fn sealed(key: Seq<u8>, nonce: Seq<u8>, message: Seq<u8>) -> Seq<u8> {
    masked(key, nonce, message) + tag_of(key, nonce, masked(key, nonce, message))
}

/// The plaintext behind `ciphertext`, if its last 16 bytes are the tag over
/// the bytes before them; nothing otherwise.
pub open spec fn opened(key: Seq<u8>, nonce: Seq<u8>, ciphertext: Seq<u8>) -> Option<Seq<u8>> {
    let body_len = ciphertext.len() - TAG_LEN;
    if body_len >= 0 && fits_cipher(body_len as nat) && ciphertext.skip(body_len) == tag_of(
        key,
        nonce,
        ciphertext.take(body_len),
    ) {
        Some(masked(key, nonce, ciphertext.take(body_len)))
    } else {
        None
    }
}

/// Calls `ChaCha20Poly1305::new` and `Aead::encrypt`, with no associated
/// data.
///
/// Trusted: on a message that the keystream can cover the call succeeds.
/// The result is 16 bytes longer than the message: each byte of the
/// message combined, by exclusive or, with the keystream byte of its
/// position, and then the 16 bytes of the tag over those masked bytes. On
/// a longer message the call stops the program or fails, so such a
/// message is left out.
#[verifier::external_body]
fn seal(key: &[u8; 32], nonce: &[u8; 12], message: &[u8]) -> (r: Option<Vec<u8>>)
    requires
        fits_cipher(message@.len()),
    ensures
        r is Some,
        r matches Some(ct) ==> {
            &&& ct@.len() == message@.len() + TAG_LEN
            &&& forall|i: int|
                0 <= i < message@.len() ==> #[trigger] ct@[i] == message@[i]
                    ^ chacha20_keystream_byte(key@, nonce@, i)
            &&& forall|i: int|
                0 <= i < TAG_LEN ==> ct@[message@.len() + i] == #[trigger] poly1305_tag_byte(
                    key@,
                    nonce@,
                    ct@.take(message@.len() as int),
                    i,
                )
        },
{
    let cipher = ::chacha20poly1305::ChaCha20Poly1305::new(&(*key).into());
    cipher.encrypt(&(*nonce).into(), message).ok()
}

/// Calls `ChaCha20Poly1305::new` and `Aead::decrypt`, with no associated
/// data.
///
/// Trusted: the call succeeds exactly when the input has 16 bytes or more
/// and the last 16 are the tag over the bytes before them. The result is
/// then those leading bytes, each combined, by exclusive or, with the
/// keystream byte of its position. Where the leading bytes are more than
/// the keystream can cover, the call stops the program or fails, so such
/// an input is left out.
#[verifier::external_body]
fn unseal(key: &[u8; 32], nonce: &[u8; 12], ciphertext: &[u8]) -> (r: Option<Vec<u8>>)
    requires
        ciphertext@.len() >= TAG_LEN ==> fits_cipher((ciphertext@.len() - TAG_LEN) as nat),
    ensures
        r is Some <==> {
            &&& ciphertext@.len() >= TAG_LEN
            &&& forall|i: int|
                0 <= i < TAG_LEN ==> ciphertext@[ciphertext@.len() - TAG_LEN + i]
                    == #[trigger] poly1305_tag_byte(
                    key@,
                    nonce@,
                    ciphertext@.take(ciphertext@.len() - TAG_LEN),
                    i,
                )
        },
        r matches Some(pt) ==> {
            &&& pt@.len() + TAG_LEN == ciphertext@.len()
            &&& forall|i: int|
                0 <= i < pt@.len() ==> #[trigger] pt@[i] == ciphertext@[i]
                    ^ chacha20_keystream_byte(key@, nonce@, i)
        },
{
    let cipher = ::chacha20poly1305::ChaCha20Poly1305::new(&(*key).into());
    cipher.decrypt(&(*nonce).into(), ciphertext).ok()
}

/// Calls `Generate::generate_from_rng` for a key and then for a nonce, on
/// the thread's secure generator.
///
/// Trusted, with nothing claimed: both are random. The generator stops the
/// program if the operating system gives it no entropy to start from.
#[verifier::external_body]
fn fresh_key_and_nonce() -> (pair: ([u8; 32], [u8; 12])) {
    let mut rng = ::rand::rng();
    let key = ::chacha20poly1305::Key::generate_from_rng(&mut rng);
    let nonce = ::chacha20poly1305::Nonce::generate_from_rng(&mut rng);
    (key.into(), nonce.into())
}

/// A cipher with its key and its nonce, which belong together.
pub struct Chacha20Poly1305Text {
    key: [u8; 32],
    nonce: [u8; 12],
}

impl Chacha20Poly1305Text {
    /// The key bytes.
    pub closed spec fn key_bytes(&self) -> Seq<u8> {
        self.key@
    }

    /// The nonce bytes.
    pub closed spec fn nonce_bytes(&self) -> Seq<u8> {
        self.nonce@
    }

    /// Whether `raw` can serve as a key: it has exactly 32 bytes.
    pub open spec fn valid_key(raw: Seq<u8>) -> bool {
        raw.len() == CIPHER_KEY_LEN
    }

    /// Whether `raw` can serve as a nonce: it has exactly 12 bytes.
    pub open spec fn valid_nonce(raw: Seq<u8>) -> bool {
        raw.len() == NONCE_LEN
    }

    /// What encrypting `message` under `key` and `nonce` gives.
    pub open spec fn encrypt_spec(key: Seq<u8>, nonce: Seq<u8>, message: Seq<u8>) -> Option<
        Seq<u8>,
    > {
        if fits_cipher(message.len()) {
            Some(sealed(key, nonce, message))
        } else {
            None
        }
    }

    /// What decrypting `ciphertext` under `key` and `nonce` gives.
    pub open spec fn decrypt_spec(key: Seq<u8>, nonce: Seq<u8>, ciphertext: Seq<u8>) -> Option<
        Seq<u8>,
    > {
        opened(key, nonce, ciphertext)
    }

    /// Pairs a key with a nonce, both of their fixed lengths.
    pub fn new(key: [u8; 32], nonce: [u8; 12]) -> (cipher: Self)
        ensures
            cipher.key_bytes() == key@,
            cipher.nonce_bytes() == nonce@,
    {
        Self { key, nonce }
    }

    /// Takes key and nonce from byte slices. The key must hold exactly 32
    /// bytes and the nonce exactly 12; the key is looked at first.
    pub fn try_new(key: &[u8], nonce: &[u8]) -> (r: Result<Self, TextError>)
        ensures
            Self::valid_key(key@) && Self::valid_nonce(nonce@) ==> (r matches Ok(cipher)
                && cipher.key_bytes() == key@ && cipher.nonce_bytes() == nonce@),
            !Self::valid_key(key@) ==> r == Err::<Self, TextError>(
                TextError::InvalidKeyLength {
                    part: KeyPart::CipherKey,
                    expected: CIPHER_KEY_LEN,
                    actual: key@.len() as usize,
                },
            ),
            Self::valid_key(key@) && !Self::valid_nonce(nonce@) ==> r == Err::<Self, TextError>(
                TextError::InvalidKeyLength {
                    part: KeyPart::CipherNonce,
                    expected: NONCE_LEN,
                    actual: nonce@.len() as usize,
                },
            ),
    {
        let key_bytes = match to_array::<32>(key) {
            Some(bytes) => bytes,
            None => {
                return Err(
                    TextError::InvalidKeyLength {
                        part: KeyPart::CipherKey,
                        expected: CIPHER_KEY_LEN,
                        actual: key.len(),
                    },
                );
            },
        };
        match to_array::<12>(nonce) {
            Some(nonce_bytes) => Ok(Chacha20Poly1305Text::new(key_bytes, nonce_bytes)),
            None => Err(
                TextError::InvalidKeyLength {
                    part: KeyPart::CipherNonce,
                    expected: NONCE_LEN,
                    actual: nonce.len(),
                },
            ),
        }
    }

    /// The two blobs of a key and nonce pair, in that order.
    pub fn pair_blobs(key: [u8; 32], nonce: [u8; 12]) -> (blobs: Vec<Vec<u8>>)
        ensures
            blobs@.len() == 2,
            blobs@[0]@ == key@,
            blobs@[1]@ == nonce@,
            blobs@[0]@.len() == CIPHER_KEY_LEN,
            blobs@[1]@.len() == NONCE_LEN,
    {
        let mut blobs: Vec<Vec<u8>> = Vec::new();
        blobs.push(to_vec(&key));
        blobs.push(to_vec(&nonce));
        blobs
    }
}

impl TextEncrypt for Chacha20Poly1305Text {
    open spec fn ciphertext_of(&self, message: Seq<u8>) -> Option<Seq<u8>> {
        Self::encrypt_spec(self.key_bytes(), self.nonce_bytes(), message)
    }

    /// The ciphertext is 16 bytes longer than the message. Encryption fails
    /// only on a message too long for the cipher, which is found out before
    /// the cipher is called.
    fn encrypt(&self, message: &[u8]) -> (r: Result<Vec<u8>, TextError>)
        ensures
            !fits_cipher(message@.len()) ==> r == Err::<Vec<u8>, TextError>(
                TextError::MessageTooLong,
            ),
            r matches Ok(ct) ==> ct@.len() == message@.len() + TAG_LEN,
    {
        if !fits(message.len()) {
            return Err(TextError::MessageTooLong);
        }
        match seal(&self.key, &self.nonce, message) {
            Some(ciphertext) => {
                proof {
                    let body = masked(self.key@, self.nonce@, message@);
                    assert(ciphertext@.take(message@.len() as int) =~= body);
                    assert(ciphertext@ =~= sealed(self.key@, self.nonce@, message@));
                }
                Ok(ciphertext)
            },
            None => Err(TextError::MessageTooLong),
        }
    }
}

impl TextDecrypt for Chacha20Poly1305Text {
    open spec fn plaintext_of(&self, ciphertext: Seq<u8>) -> Option<Seq<u8>> {
        Self::decrypt_spec(self.key_bytes(), self.nonce_bytes(), ciphertext)
    }

    /// Every failure is an authentication failure: no plaintext is
    /// released unless the tag matches.
    fn decrypt(&self, ciphertext: &[u8]) -> (r: Result<Vec<u8>, TextError>)
        ensures
            r is Err ==> r == Err::<Vec<u8>, TextError>(TextError::AuthenticationFailed),
            r matches Ok(pt) ==> pt@.len() + TAG_LEN == ciphertext@.len(),
    {
        if ciphertext.len() >= TAG_LEN && !fits(ciphertext.len() - TAG_LEN) {
            return Err(TextError::AuthenticationFailed);
        }
        let r = unseal(&self.key, &self.nonce, ciphertext);
        proof {
            let body_len = ciphertext@.len() - TAG_LEN;
            if body_len >= 0 {
                let body = ciphertext@.take(body_len);
                let tag = tag_of(self.key@, self.nonce@, body);
                if ciphertext@.skip(body_len) == tag {
                    assert forall|i: int| 0 <= i < TAG_LEN implies ciphertext@[body_len + i]
                        == poly1305_tag_byte(self.key@, self.nonce@, body, i) by {
                        assert(ciphertext@.skip(body_len)[i] == tag[i]);
                    }
                }
                if r is Some {
                    assert(ciphertext@.skip(body_len) =~= tag);
                    assert(r->Some_0@ =~= masked(self.key@, self.nonce@, body));
                }
            }
        }
        match r {
            Some(plaintext) => Ok(plaintext),
            None => Err(TextError::AuthenticationFailed),
        }
    }
}

impl KeyGenerator for Chacha20Poly1305Text {
    /// Two blobs: the key, then the nonce.
    open spec fn blob_lengths() -> Seq<nat> {
        seq![CIPHER_KEY_LEN as nat, NONCE_LEN as nat]
    }

    /// Draws a key and a nonce, independently of each other.
    fn generate() -> (r: Result<Vec<Vec<u8>>, TextError>)
        ensures
            r matches Ok(blobs) && {
                &&& blobs@.len() == 2
                &&& Self::valid_key(blobs@[0]@)
                &&& Self::valid_nonce(blobs@[1]@)
            },
    {
        let (key, nonce) = fresh_key_and_nonce();
        Ok(Self::pair_blobs(key, nonce))
    }
}

/// Decrypting what encryption gave, under the same key and nonce, recovers
/// the message exactly.
pub proof fn lemma_decrypt_inverts_encrypt(key: Seq<u8>, nonce: Seq<u8>, message: Seq<u8>)
    requires
        fits_cipher(message.len()),
    ensures
        Chacha20Poly1305Text::encrypt_spec(key, nonce, message) matches Some(ct)
            && Chacha20Poly1305Text::decrypt_spec(key, nonce, ct) == Some(message),
{
    let body = masked(key, nonce, message);
    let ct = sealed(key, nonce, message);
    let body_len = ct.len() - TAG_LEN;
    assert(body_len == message.len());
    assert(ct.take(body_len) =~= body);
    assert(ct.skip(body_len) =~= tag_of(key, nonce, body));
    assert(masked(key, nonce, body) =~= message) by {
        assert forall|i: int| 0 <= i < message.len() implies masked(key, nonce, body)[i]
            == message[i] by {
            let m = message[i];
            let k = chacha20_keystream_byte(key, nonce, i);
            assert((m ^ k) ^ k == m) by (bit_vector);
        }
    }
}

/// A ciphertext with one bit of its tag flipped is rejected: decryption
/// gives no plaintext, altered or otherwise.
pub proof fn lemma_flipped_tag_bit_is_rejected(
    key: Seq<u8>,
    nonce: Seq<u8>,
    message: Seq<u8>,
    index: int,
    bit: u8,
)
    requires
        fits_cipher(message.len()),
        0 <= index < TAG_LEN,
        bit < 8,
    ensures
        ({
            let ct = sealed(key, nonce, message);
            let at = message.len() + index;
            Chacha20Poly1305Text::decrypt_spec(key, nonce, ct.update(at, ct[at] ^ (1u8 << bit)))
                is None
        }),
{
    let body = masked(key, nonce, message);
    let ct = sealed(key, nonce, message);
    let at = message.len() + index;
    let old_byte = ct[at];
    let forged = ct.update(at, old_byte ^ (1u8 << bit));
    let body_len = forged.len() - TAG_LEN;
    assert(body_len == message.len());
    assert(forged.take(body_len) =~= body);
    assert(forged.skip(body_len)[index] == forged[at]);
    assert(tag_of(key, nonce, body)[index] == old_byte);
    assert(old_byte ^ (1u8 << bit) != old_byte) by (bit_vector)
        requires
            bit < 8,
    ;
}

/// A ciphertext that keeps the masked bytes of a genuine one but differs
/// from it anywhere in the tag is rejected.
pub proof fn lemma_altered_tag_is_rejected(
    key: Seq<u8>,
    nonce: Seq<u8>,
    message: Seq<u8>,
    forged: Seq<u8>,
)
    requires
        forged.len() == message.len() + TAG_LEN,
        forged.take(message.len() as int) == masked(key, nonce, message),
        forged != sealed(key, nonce, message),
    ensures
        Chacha20Poly1305Text::decrypt_spec(key, nonce, forged) is None,
{
    let body = masked(key, nonce, message);
    let body_len = forged.len() - TAG_LEN;
    if forged.skip(body_len) == tag_of(key, nonce, forged.take(body_len)) {
        assert(forged =~= forged.take(body_len) + forged.skip(body_len));
        assert(false);
    }
}

} // verus!
