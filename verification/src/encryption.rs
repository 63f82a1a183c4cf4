//! Confidentiality helpers built on an authenticated-encryption black box.
//!
//! Two services are offered. `encrypt_amount` / `decrypt_amount` keep a bid
//! amount confidential in transit: the amount's sixteen little-endian bytes
//! are sealed under a key derived from a master pass phrase, with a fresh
//! random nonce, and shipped as base64 text. `make_commitment` binds an
//! amount to a reveal secret: the same seal, keyed by the secret and with a
//! fixed nonce, used as a deterministic binding digest rather than for
//! transport. The AEAD itself is trusted; everything around it is verified.

use vstd::prelude::*;
use vstd::bytes::{
    lemma_auto_spec_u128_to_from_le_bytes, spec_u128_from_le_bytes, spec_u128_to_le_bytes,
    u128_from_le_bytes, u128_to_le_bytes,
};
use vstd::slice::slice_subrange;
use vstd::string::StringSliceAdditionalSpecFns;
use vstd::utf8::encode_utf8;
use aes_gcm::aead::{Aead, KeyInit};
use base64::Engine;
use crate::errors::EncryptionError;

verus! {

/// What AES-256-GCM returns for a given key, nonce and plaintext.
pub uninterp spec fn sealed_of(key: Seq<u8>, nonce: Seq<u8>, plain: Seq<u8>) -> Seq<u8>;

/// What AES-256-GCM decryption returns for a given key, nonce and ciphertext;
/// `None` where the ciphertext does not authenticate under that key and nonce.
pub uninterp spec fn opened_of(key: Seq<u8>, nonce: Seq<u8>, text: Seq<u8>) -> Option<Seq<u8>>;

/// What base64's standard-alphabet encoding returns for a given byte string.
pub uninterp spec fn b64_of(data: Seq<u8>) -> Seq<char>;

/// What base64's standard-alphabet decoding returns for a given text;
/// `None` where the text is not valid base64.
pub uninterp spec fn b64_decoded_of(text: Seq<char>) -> Option<Seq<u8>>;

/// What hex::encode returns for a given byte string.
pub uninterp spec fn hex_of(data: Seq<u8>) -> Seq<char>;

/// Relies on aes_gcm's Aes256Gcm. Encryption applies a key stream derived
/// from key and nonce and appends a sixteen-byte authentication tag, so it is
/// a deterministic function of key, nonce and plaintext, it cannot fail for
/// plaintexts far below the cipher's size bound, and decrypting the result
/// with the same key and nonce recomputes the same tag and key stream and so
/// returns the plaintext.
#[verifier::external_body]
fn aead_seal(key: &[u8], nonce: &[u8], plain: &[u8]) -> (r: Vec<u8>)
    requires
        key@.len() == 32,
        nonce@.len() == 12,
        plain@.len() <= 0xffff_ffff,
    ensures
        r@ == sealed_of(key@, nonce@, plain@),
        r@.len() == plain@.len() + 16,
        opened_of(key@, nonce@, r@) == Some(plain@),
{
    let cipher = aes_gcm::Aes256Gcm::new_from_slice(key).unwrap();
    let nonce = aes_gcm::Nonce::from_slice(nonce);
    cipher.encrypt(nonce, plain).unwrap()
}

/// Relies on aes_gcm's Aes256Gcm. Decryption is a deterministic function of
/// key, nonce and ciphertext, and fails exactly where the ciphertext does not
/// authenticate under them.
#[verifier::external_body]
fn aead_open(key: &[u8], nonce: &[u8], text: &[u8]) -> (r: Option<Vec<u8>>)
    requires
        key@.len() == 32,
        nonce@.len() == 12,
    ensures
        (r is Some) == (opened_of(key@, nonce@, text@) is Some),
        r matches Some(p) ==> opened_of(key@, nonce@, text@) == Some(p@),
{
    let cipher = aes_gcm::Aes256Gcm::new_from_slice(key).unwrap();
    let nonce = aes_gcm::Nonce::from_slice(nonce);
    cipher.decrypt(nonce, text).ok()
}

/// Relies on base64's standard-alphabet engine: encoding is a deterministic
/// function of the input bytes, and decoding an encoded value gives back
/// exactly those bytes.
#[verifier::external_body]
fn b64_encode(data: &Vec<u8>) -> (r: String)
    ensures
        r@ == b64_of(data@),
        b64_decoded_of(r@) == Some(data@),
{
    base64::engine::general_purpose::STANDARD.encode(data)
}

/// Relies on base64's standard-alphabet engine: decoding is a deterministic
/// function of the input text, failing exactly on text that is not valid
/// base64.
#[verifier::external_body]
fn b64_decode(text: &str) -> (r: Option<Vec<u8>>)
    ensures
        (r is Some) == (b64_decoded_of(text@) is Some),
        r matches Some(v) ==> b64_decoded_of(text@) == Some(v@),
{
    base64::engine::general_purpose::STANDARD.decode(text).ok()
}

/// Relies on hex::encode: two lowercase hex digits for each input byte, a
/// deterministic function of the bytes alone.
#[verifier::external_body]
fn hex_encode(data: &Vec<u8>) -> (r: String)
    ensures
        r@ == hex_of(data@),
        r@.len() == 2 * data@.len(),
{
    hex::encode(data)
}

/// Relies on rand's OsRng: fills a buffer from the operating system's
/// randomness source. Nothing is assumed of the values beyond the length.
#[verifier::external_body]
fn random_bytes(len: usize) -> (r: Vec<u8>)
    requires
        len <= 64,
    ensures
        r@.len() == len,
{
    let mut buf = vec![0u8; len];
    rand::RngCore::fill_bytes(&mut rand::rngs::OsRng, buf.as_mut_slice());
    buf
}

/// The 32-byte key derived from a pass phrase: its UTF-8 bytes, truncated at
/// 32 bytes or padded with zero bytes up to that length.
pub open spec fn spec_derive_key(master: Seq<u8>) -> Seq<u8> {
    Seq::new(32, |i: int| if i < master.len() { master[i] } else { 0u8 })
}

/// Simple 32-byte key derivation (pad with zeros / truncate).
pub fn derive_key(master_key: &str) -> (key: Vec<u8>)
    ensures
        key@ == spec_derive_key(master_key.spec_bytes()),
{
    let bytes = master_key.as_bytes();
    let mut key: Vec<u8> = Vec::new();
    let mut i: usize = 0;
    while i < 32
        invariant
            i <= 32,
            bytes@ == master_key.spec_bytes(),
            key@.len() == i,
            forall|j: int|
                0 <= j < i ==> key@[j] == (if j < bytes@.len() {
                    bytes@[j]
                } else {
                    0u8
                }),
        decreases 32 - i,
    {
        if i < bytes.len() {
            key.push(bytes[i]);
        } else {
            key.push(0);
        }
        i += 1;
    }
    assert(key@ =~= spec_derive_key(master_key.spec_bytes()));
    key
}

/// The fixed all-zero nonce used when the seal serves as a binding digest.
pub open spec fn spec_zero_nonce() -> Seq<u8> {
    Seq::new(12, |i: int| 0u8)
}

fn zero_nonce() -> (r: Vec<u8>)
    ensures
        r@ == spec_zero_nonce(),
{
    let mut r: Vec<u8> = Vec::new();
    let mut i: usize = 0;
    while i < 12
        invariant
            i <= 12,
            r@.len() == i,
            forall|j: int| 0 <= j < i ==> r@[j] == 0u8,
        decreases 12 - i,
    {
        r.push(0);
        i += 1;
    }
    assert(r@ =~= spec_zero_nonce());
    r
}

/// The amount's value as sixteen little-endian bytes, two's complement.
pub open spec fn spec_amount_bytes(amount: i128) -> Seq<u8> {
    spec_u128_to_le_bytes(amount as u128)
}

/// The commitment that binds an amount to a reveal secret: the amount's
/// sixteen little-endian bytes, sealed under the key derived from the secret
/// with the fixed all-zero nonce. Deterministic, so a reveal is checked by
/// recomputing it.
pub open spec fn spec_commitment(amount: i128, secret: Seq<char>) -> Seq<u8> {
    sealed_of(spec_derive_key(encode_utf8(secret)), spec_zero_nonce(), spec_amount_bytes(amount))
}

/// Build the commitment a bidder submits for `amount`, bound to `secret`.
pub fn make_commitment(amount: i128, secret: &str) -> (c: Vec<u8>)
    ensures
        c@ == spec_commitment(amount, secret@),
{
    let key = derive_key(secret);
    let nonce = zero_nonce();
    let plain = u128_to_le_bytes(#[verifier::truncate] (amount as u128));
    aead_seal(key.as_slice(), nonce.as_slice(), plain.as_slice())
}

/// What decrypting a transport-sealed amount yields, including the exact
/// error kind for each way the input can be malformed.
pub open spec fn spec_decrypt_amount(text: Seq<char>, master: Seq<u8>) -> Result<
    i128,
    EncryptionError,
> {
    match b64_decoded_of(text) {
        None => Err(EncryptionError::Base64),
        Some(data) => if data.len() < 12 {
            Err(EncryptionError::InvalidData)
        } else {
            match opened_of(spec_derive_key(master), data.take(12), data.skip(12)) {
                None => Err(EncryptionError::Aes),
                Some(plain) => if plain.len() != 16 {
                    Err(EncryptionError::InvalidData)
                } else {
                    Ok(spec_u128_from_le_bytes(plain) as i128)
                },
            }
        },
    }
}

/// Encrypt an amount for transport with AES-256-GCM under a fresh random
/// nonce. Returns the base64 text of nonce followed by ciphertext, and the
/// nonce as hex text. Decrypting the first result under the same master key
/// gives the amount back.
pub fn encrypt_amount(amount: i128, master_key: &str) -> (r: Result<
    (String, String),
    EncryptionError,
>)
    ensures
        r is Ok,
        r matches Ok((encrypted, nonce_hex)) ==> spec_decrypt_amount(
            encrypted@,
            master_key.spec_bytes(),
        ) == Ok::<i128, EncryptionError>(amount) && nonce_hex@.len() == 24,
{
    let key = derive_key(master_key);
    let nonce = random_bytes(12);
    let plain = u128_to_le_bytes(#[verifier::truncate] (amount as u128));
    let sealed = aead_seal(key.as_slice(), nonce.as_slice(), plain.as_slice());

    let mut data = nonce.clone();
    let mut i: usize = 0;
    while i < sealed.len()
        invariant
            i <= sealed@.len(),
            data@ == nonce@ + sealed@.take(i as int),
        decreases sealed@.len() - i,
    {
        data.push(sealed[i]);
        i += 1;
    }
    assert(data@ == nonce@ + sealed@) by {
        assert(sealed@.take(sealed@.len() as int) =~= sealed@);
    }

    let encrypted = b64_encode(&data);
    let nonce_hex = hex_encode(&nonce);

    proof {
        assert(data@.take(12) =~= nonce@);
        assert(data@.skip(12) =~= sealed@);
        lemma_auto_spec_u128_to_from_le_bytes();
        assert(spec_u128_from_le_bytes(spec_u128_to_le_bytes(amount as u128)) == amount as u128);
        assert(((amount as u128) as i128) == amount) by (bit_vector);
    }

    Ok((encrypted, nonce_hex))
}

/// Decrypt a transport-sealed amount: base64-decode, split off the twelve
/// nonce bytes, open the ciphertext under the master key, and read the
/// sixteen plaintext bytes as a little-endian amount. The nonce travels
/// inside the sealed text, so the separate key argument is not consulted.
pub fn decrypt_amount(encrypted_base64: &str, _decryption_key: &str, master_key: &str) -> (r:
    Result<i128, EncryptionError>)
    ensures
        r == spec_decrypt_amount(encrypted_base64@, master_key.spec_bytes()),
{
    let data = match b64_decode(encrypted_base64) {
        Some(d) => d,
        None => {
            return Err(EncryptionError::Base64);
        },
    };
    if data.len() < 12 {
        return Err(EncryptionError::InvalidData);
    }
    let nonce = slice_subrange(data.as_slice(), 0, 12);
    let text = slice_subrange(data.as_slice(), 12, data.len());
    assert(nonce@ =~= data@.take(12));
    assert(text@ =~= data@.skip(12));

    let key = derive_key(master_key);
    let plain = match aead_open(key.as_slice(), nonce, text) {
        Some(p) => p,
        None => {
            return Err(EncryptionError::Aes);
        },
    };
    if plain.len() != 16 {
        return Err(EncryptionError::InvalidData);
    }
    let value = u128_from_le_bytes(plain.as_slice());
    Ok(#[verifier::truncate] (value as i128))
}

} // verus!
