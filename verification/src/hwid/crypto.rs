//! Sealing of hardware identifiers: AES-256-GCM under the program's key, with
//! a fresh nonce for each identifier, written in URL-safe base64.

use crate::utils::text::text_from_utf8;
use aes_gcm::aead::{Aead, AeadCore, KeyInit, OsRng};
use aes_gcm::{Aes256Gcm, Key, Nonce};
use base64::engine::general_purpose::URL_SAFE_NO_PAD;
use base64::Engine;
use sha2::{Digest, Sha256};
use vstd::prelude::*;
use vstd::slice::slice_to_vec;
use vstd::string::StringSliceAdditionalSpecFns;
use vstd::utf8::{decode_utf8, encode_utf8, valid_utf8};

verus! {

/// The length of a key.
pub const KEY_SIZE: usize = 32;

/// The length of a nonce.
pub const NONCE_SIZE: usize = 12;

/// The length of the tag that ends a ciphertext.
pub const TAG_SIZE: usize = 16;

/// How much of an identifier's digest stands for it where sealing fails.
pub const DIGEST_PREFIX: usize = 16;

/// The longest run of bytes that is written in base64.
pub const MAX_ENCODED_BYTES: usize = 0x3000_0000;

/// The longest identifier that is sealed.
pub const MAX_ID_BYTES: usize = 0x2000_0000;

/// The SHA-256 digest of a message.
pub uninterp spec fn sha256_of(message: Seq<u8>) -> Seq<u8>;

/// What AES-256-GCM makes of a message under a key and a nonce, with no
/// associated data: the ciphertext followed by its tag, or nothing where the
/// cipher refuses the message.
pub uninterp spec fn sealed(key: Seq<u8>, nonce: Seq<u8>, message: Seq<u8>) -> Option<Seq<u8>>;

/// What AES-256-GCM recovers from a ciphertext with its tag under a key and a
/// nonce, with no associated data, or nothing where the tag does not fit.
pub uninterp spec fn opened(key: Seq<u8>, nonce: Seq<u8>, ciphertext: Seq<u8>) -> Option<Seq<u8>>;

/// URL-safe base64 without padding.
pub uninterp spec fn base64url_of(bytes: Seq<u8>) -> Seq<char>;

/// The bytes that a text stands for in URL-safe base64 without padding, or
/// nothing where it is no such text.
pub uninterp spec fn base64url_decoded(text: Seq<char>) -> Option<Seq<u8>>;

/// Calls `Sha256::digest`, which gives the SHA-256 digest of the data: 32
/// bytes.
#[verifier::external_body]
fn sha256(data: &[u8]) -> (digest: Vec<u8>)
    ensures
        digest@ == sha256_of(data@),
        digest@.len() == KEY_SIZE,
{
    Sha256::digest(data).to_vec()
}

/// Calls `Aes256Gcm::generate_nonce` with the operating system's random
/// number generator, which gives twelve random bytes.
#[verifier::external_body]
fn random_nonce() -> (nonce: Vec<u8>)
    ensures
        nonce@.len() == NONCE_SIZE,
{
    Aes256Gcm::generate_nonce(&mut OsRng).to_vec()
}

/// Makes the cipher of the key with `Aes256Gcm::new` and calls its
/// `Aead::encrypt` with the nonce and the message, without associated data:
/// the result is the encrypted message followed by its tag of sixteen bytes,
/// or nothing where the message is too long for the cipher. A key that is
/// not 32 bytes long or a nonce that is not 12 bytes long makes
/// `GenericArray::from_slice` panic.
#[verifier::external_body]
fn aes_gcm_seal(key: &[u8], nonce: &[u8], message: &[u8]) -> (ciphertext: Option<Vec<u8>>)
    requires
        key@.len() == KEY_SIZE,
        nonce@.len() == NONCE_SIZE,
    ensures
        ciphertext is Some <==> sealed(key@, nonce@, message@) is Some,
        ciphertext matches Some(bytes) ==> sealed(key@, nonce@, message@) == Some(bytes@)
            && bytes@.len() == message@.len() + TAG_SIZE,
{
    let cipher = Aes256Gcm::new(Key::<Aes256Gcm>::from_slice(key));
    match cipher.encrypt(Nonce::from_slice(nonce), message) {
        Ok(bytes) => Some(bytes),
        Err(_) => None,
    }
}

/// Makes the cipher of the key with `Aes256Gcm::new` and calls its
/// `Aead::decrypt` with the nonce and the ciphertext, without associated
/// data: the result is the message, or nothing where the tag at the end of
/// the ciphertext does not fit. A key that is not 32 bytes long or a nonce
/// that is not 12 bytes long makes `GenericArray::from_slice` panic.
#[verifier::external_body]
fn aes_gcm_open(key: &[u8], nonce: &[u8], ciphertext: &[u8]) -> (message: Option<Vec<u8>>)
    requires
        key@.len() == KEY_SIZE,
        nonce@.len() == NONCE_SIZE,
    ensures
        message is Some <==> opened(key@, nonce@, ciphertext@) is Some,
        message matches Some(bytes) ==> opened(key@, nonce@, ciphertext@) == Some(bytes@),
{
    let cipher = Aes256Gcm::new(Key::<Aes256Gcm>::from_slice(key));
    match cipher.decrypt(Nonce::from_slice(nonce), ciphertext) {
        Ok(bytes) => Some(bytes),
        Err(_) => None,
    }
}

/// Calls `Engine::encode` of `URL_SAFE_NO_PAD`. It panics where the length
/// of the text would not fit in `usize`.
#[verifier::external_body]
fn base64url_encode(bytes: &[u8]) -> (text: String)
    requires
        bytes@.len() <= MAX_ENCODED_BYTES,
    ensures
        text@ == base64url_of(bytes@),
{
    URL_SAFE_NO_PAD.encode(bytes)
}

/// Calls `Engine::decode` of `URL_SAFE_NO_PAD`.
#[verifier::external_body]
fn base64url_decode(text: &str) -> (bytes: Option<Vec<u8>>)
    ensures
        bytes is Some <==> base64url_decoded(text@) is Some,
        bytes matches Some(decoded) ==> base64url_decoded(text@) == Some(decoded@),
{
    match URL_SAFE_NO_PAD.decode(text) {
        Ok(decoded) => Some(decoded),
        Err(_) => None,
    }
}

/// The key under which identifiers are sealed: the digest of the program's
/// key phrase.
pub open spec fn master_key_bytes() -> Seq<u8> {
    sha256_of(encode_utf8("tanakai-security-key-never-share-this-key-12345"@))
}

/// The key under which identifiers are sealed.
fn master_key() -> (key: Vec<u8>)
    ensures
        key@ == master_key_bytes(),
        key@.len() == KEY_SIZE,
{
    sha256("tanakai-security-key-never-share-this-key-12345".as_bytes())
}

/// An identifier sealed with a nonce: the nonce and the ciphertext in
/// base64. Where the cipher refuses the identifier, the start of its digest
/// stands for it.
pub open spec fn sealed_id(id: Seq<u8>, nonce: Seq<u8>) -> Seq<char> {
    match sealed(master_key_bytes(), nonce, id) {
        Some(ciphertext) => base64url_of(nonce + ciphertext),
        None => base64url_of(sha256_of(id).take(DIGEST_PREFIX as int)),
    }
}

/// The identifier that a sealed text holds: the text in base64 is a nonce
/// and a ciphertext that is not empty, the cipher accepts the two, and what
/// it recovers is UTF-8.
pub open spec fn opened_id(text: Seq<char>) -> Option<Seq<char>> {
    match base64url_decoded(text) {
        Some(data) => if data.len() <= NONCE_SIZE {
            None
        } else {
            match opened(
                master_key_bytes(),
                data.take(NONCE_SIZE as int),
                data.skip(NONCE_SIZE as int),
            ) {
                Some(message) => if valid_utf8(message) {
                    Some(decode_utf8(message))
                } else {
                    None
                },
                None => None,
            }
        },
        None => None,
    }
}

/// Whether `text` is what sealing `id` gives with some nonce.
pub open spec fn seals(text: Seq<char>, id: Seq<char>) -> bool {
    exists|nonce: Seq<u8>|
        nonce.len() == NONCE_SIZE && text == #[trigger] sealed_id(encode_utf8(id), nonce)
}

/// Seals an identifier with the given nonce.
pub fn seal_id(id: &str, nonce: &[u8]) -> (text: String)
    requires
        nonce@.len() == NONCE_SIZE,
        id.spec_bytes().len() <= MAX_ID_BYTES,
    ensures
        text@ == sealed_id(id.spec_bytes(), nonce@),
{
    let key = master_key();
    match aes_gcm_seal(key.as_slice(), nonce, id.as_bytes()) {
        Some(ciphertext) => {
            let mut result = slice_to_vec(nonce);
            result.extend_from_slice(ciphertext.as_slice());
            assert(result@ =~= nonce@ + ciphertext@);
            base64url_encode(result.as_slice())
        },
        None => {
            let digest = sha256(id.as_bytes());
            let prefix = &digest.as_slice()[0..DIGEST_PREFIX];
            base64url_encode(prefix)
        },
    }
}

/// Seals an identifier with a fresh nonce.
pub fn encrypt_id(id: &str) -> (text: String)
    requires
        id.spec_bytes().len() <= MAX_ID_BYTES,
    ensures
        seals(text@, id@),
{
    let nonce = random_nonce();
    seal_id(id, nonce.as_slice())
}

/// The identifier that a sealed text holds.
pub fn decrypt_id(encrypted_id: &str) -> (id: Option<String>)
    ensures
        id is Some <==> opened_id(encrypted_id@) is Some,
        id matches Some(text) ==> opened_id(encrypted_id@) == Some(text@),
{
    let encrypted_data = match base64url_decode(encrypted_id) {
        Some(data) => data,
        None => {
            return None;
        },
    };
    if encrypted_data.len() <= NONCE_SIZE {
        return None;
    }
    let key = master_key();
    let data = encrypted_data.as_slice();
    match aes_gcm_open(key.as_slice(), &data[0..NONCE_SIZE], &data[NONCE_SIZE..data.len()]) {
        Some(message) => text_from_utf8(message),
        None => None,
    }
}

} // verus!
