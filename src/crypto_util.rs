use vstd::prelude::*;
use vstd::string::StringExecFns;
use vstd::utf8::{decode_utf8, encode_utf8, valid_utf8};
use crate::auth::has_prefix;
use aes_gcm::aead::{Aead, KeyInit};
use aes_gcm::{Aes256Gcm, Key, Nonce};
use base64::Engine;
use base64::engine::general_purpose;

verus! {

broadcast use vstd::utf8::encode_utf8_valid_utf8, vstd::utf8::encode_utf8_decode_utf8;

/// Length in bytes of an AES-256 key.
pub const KEY_SIZE: usize = 32;

/// Length in bytes of the nonce stored in front of each ciphertext.
pub const NONCE_SIZE: usize = 12;

/// Length in bytes of the authentication tag appended to each ciphertext.
pub const TAG_SIZE: usize = 16;

/// The longest plaintext that AES-GCM accepts, in bytes.
pub const PLAINTEXT_MAX: u64 = 68719476736;

/// The standard Base64 text of `b`.
pub uninterp spec fn base64_of(b: Seq<u8>) -> Seq<char>;

/// The bytes that the standard Base64 text `s` stands for, if it is valid.
pub uninterp spec fn base64_bytes(s: Seq<char>) -> Option<Seq<u8>>;

/// The AES-256-GCM ciphertext, tag appended, of `plaintext`.
pub uninterp spec fn aes_gcm_sealed(key: Seq<u8>, nonce: Seq<u8>, plaintext: Seq<u8>) -> Seq<u8>;

/// The plaintext of an AES-256-GCM ciphertext, if its tag authenticates it.
pub uninterp spec fn aes_gcm_opened(key: Seq<u8>, nonce: Seq<u8>, ciphertext: Seq<u8>) -> Option<
    Seq<u8>,
>;

/// Relies on rand::random: any array of bytes may come back.
pub assume_specification<T>[ rand::random::<T> ]() -> (r: T)
    where
        rand::distributions::Standard: rand::distributions::Distribution<T>,
;

/// Relies on base64's standard engine `encode`: padded output of four
/// characters per started group of three bytes, which `decode` turns back
/// into the same bytes.
#[verifier::external_body]
fn base64_encode(b: &[u8]) -> (r: String)
    ensures
        r@ == base64_of(b@),
        base64_bytes(r@) == Some(b@),
        r@.len() == 4 * ((b@.len() + 2) / 3),
{
    general_purpose::STANDARD.encode(b)
}

/// Relies on base64's standard engine `decode`; the error is its description.
#[verifier::external_body]
fn base64_decode(s: &str) -> (r: Result<Vec<u8>, String>)
    ensures
        r is Ok <==> base64_bytes(s@) is Some,
        r matches Ok(v) ==> base64_bytes(s@) == Some(v@),
{
    general_purpose::STANDARD.decode(s).map_err(|e| e.to_string())
}

/// Relies on `Aead::encrypt` of aes-gcm's `Aes256Gcm` with no associated
/// data: it fails only on a plaintext longer than its limit, the ciphertext
/// is as long as the plaintext with the 16-byte tag appended, and `decrypt`
/// under the same key and nonce gives the plaintext back.
#[verifier::external_body]
fn aes_gcm_seal(key: &[u8], nonce: &[u8], plaintext: &[u8]) -> (r: Result<Vec<u8>, String>)
    requires
        key@.len() == KEY_SIZE,
        nonce@.len() == NONCE_SIZE,
    ensures
        plaintext@.len() <= PLAINTEXT_MAX ==> r is Ok,
        r matches Ok(c) ==> c@.len() == plaintext@.len() + TAG_SIZE,
        r matches Ok(c) ==> c@ == aes_gcm_sealed(key@, nonce@, plaintext@) && aes_gcm_opened(
            key@,
            nonce@,
            c@,
        ) == Some(plaintext@),
{
    let cipher = Aes256Gcm::new(Key::<Aes256Gcm>::from_slice(key));
    cipher.encrypt(Nonce::from_slice(nonce), plaintext).map_err(|e| e.to_string())
}

/// Relies on `Aead::decrypt` of aes-gcm's `Aes256Gcm` with no associated
/// data.
#[verifier::external_body]
fn aes_gcm_open(key: &[u8], nonce: &[u8], ciphertext: &[u8]) -> (r: Result<Vec<u8>, String>)
    requires
        key@.len() == KEY_SIZE,
        nonce@.len() == NONCE_SIZE,
    ensures
        r is Ok <==> aes_gcm_opened(key@, nonce@, ciphertext@) is Some,
        r matches Ok(p) ==> aes_gcm_opened(key@, nonce@, ciphertext@) == Some(p@),
{
    let cipher = Aes256Gcm::new(Key::<Aes256Gcm>::from_slice(key));
    cipher.decrypt(Nonce::from_slice(nonce), ciphertext).map_err(|e| e.to_string())
}

/// Relies on `String::from_utf8`: it accepts exactly the valid UTF-8 byte
/// sequences.
#[verifier::external_body]
fn string_from_utf8(b: Vec<u8>) -> (r: Result<String, String>)
    ensures
        r is Ok <==> valid_utf8(b@),
        r matches Ok(s) ==> s@ == decode_utf8(b@),
{
    String::from_utf8(b).map_err(|e| e.to_string())
}

/// Whether `password` matches the bcrypt hash `hash`, if the hash is well formed.
pub uninterp spec fn bcrypt_check(password: Seq<u8>, hash: Seq<char>) -> Option<bool>;

/// Relies on `bcrypt::hash`: the salt is random, and whatever it was,
/// `bcrypt::verify` accepts the password against the hash produced.
#[verifier::external_body]
pub(crate) fn bcrypt_hash(password: &str, cost: u32) -> (r: Result<String, String>)
    ensures
        r matches Ok(h) ==> bcrypt_check(encode_utf8(password@), h@) == Some(true),
{
    bcrypt::hash(password, cost).map_err(|e| e.to_string())
}

/// Relies on `bcrypt::verify`, which fails on a malformed hash.
#[verifier::external_body]
pub(crate) fn bcrypt_verify(password: &str, hash: &str) -> (r: Result<bool, String>)
    ensures
        r is Ok <==> bcrypt_check(encode_utf8(password@), hash@) is Some,
        r matches Ok(b) ==> bcrypt_check(encode_utf8(password@), hash@) == Some(b),
{
    bcrypt::verify(password.as_bytes(), hash).map_err(|e| e.to_string())
}

/// The stored form of `password` under `key` with `nonce`: the nonce and the
/// ciphertext, in standard Base64.
pub open spec fn sealed_text(key: Seq<u8>, nonce: Seq<u8>, password: Seq<char>) -> Seq<char> {
    base64_of(nonce + aes_gcm_sealed(key, nonce, encode_utf8(password)))
}

/// The plaintext of `b`, a nonce followed by an AES-256-GCM ciphertext,
/// if its tag authenticates it under `key`.
pub open spec fn opened_bytes(key: Seq<u8>, b: Seq<u8>) -> Option<Seq<u8>> {
    aes_gcm_opened(key, b.subrange(0, NONCE_SIZE as int), b.subrange(NONCE_SIZE as int, b.len() as int))
}

/// The password that the stored text `text` holds under `key`, if it
/// decodes, authenticates and is valid UTF-8.
pub open spec fn opened_text(key: Seq<u8>, text: Seq<char>) -> Option<Seq<char>> {
    match base64_bytes(text) {
        None => None,
        Some(b) => if b.len() < NONCE_SIZE {
            None
        } else {
            match opened_bytes(key, b) {
                None => None,
                Some(p) => if valid_utf8(p) {
                    Some(decode_utf8(p))
                } else {
                    None
                },
            }
        },
    }
}

pub open spec fn encryption_failed_prefix() -> Seq<char> {
    "Encryption failed: "@
}

pub open spec fn base64_failed_prefix() -> Seq<char> {
    "Base64 decode failed: "@
}

pub open spec fn invalid_data_text() -> Seq<char> {
    "Invalid encrypted data"@
}

pub open spec fn decryption_failed_prefix() -> Seq<char> {
    "Decryption failed: "@
}

pub open spec fn utf8_failed_prefix() -> Seq<char> {
    "UTF-8 conversion failed: "@
}

/// Length in characters of the stored form of a password whose UTF-8
/// encoding is `n` bytes long.
pub open spec fn sealed_len(n: nat) -> nat {
    4 * ((NONCE_SIZE + n + TAG_SIZE + 2) / 3) as nat
}

/// The UTF-8 encoding of a text has at least one byte per character.
proof fn lemma_utf8_len_at_least(chars: Seq<char>)
    ensures
        encode_utf8(chars).len() >= chars.len(),
    decreases chars.len(),
{
    if chars.len() > 0 {
        lemma_utf8_len_at_least(chars.drop_first());
    }
}

/// A message made of `prefix` followed by `detail` starts with `prefix`.
proof fn lemma_message_prefix(prefix: Seq<char>, detail: Seq<char>)
    ensures
        has_prefix(prefix + detail, prefix),
{
    assert((prefix + detail).subrange(0, prefix.len() as int) =~= prefix);
}

/// Encrypts `password` under `key` with `nonce`: the nonce and the
/// ciphertext, in standard Base64. The stored text is longer than the
/// password, so it never equals it.
pub fn seal_password(key: &[u8], nonce: &[u8], password: &str) -> (r: Result<String, String>)
    requires
        key@.len() == KEY_SIZE,
        nonce@.len() == NONCE_SIZE,
    ensures
        encode_utf8(password@).len() <= PLAINTEXT_MAX ==> r is Ok,
        r matches Ok(c) ==> c@ == sealed_text(key@, nonce@, password@),
        r matches Ok(c) ==> opened_text(key@, c@) == Some(password@),
        r matches Ok(c) ==> c@.len() == sealed_len(encode_utf8(password@).len()),
        r matches Ok(c) ==> c@ != password@,
        r matches Err(m) ==> has_prefix(m@, encryption_failed_prefix()),
{
    let ciphertext = match aes_gcm_seal(key, nonce, password.as_bytes()) {
        Ok(c) => c,
        Err(e) => {
            let m = String::from_str("Encryption failed: ").concat(e.as_str());
            proof {
                lemma_message_prefix("Encryption failed: "@, e@);
            }
            return Err(m);
        },
    };
    let mut combined: Vec<u8> = Vec::new();
    combined.extend_from_slice(nonce);
    combined.extend_from_slice(ciphertext.as_slice());
    assert(combined@ =~= nonce@ + ciphertext@);
    assert(combined@.subrange(0, NONCE_SIZE as int) =~= nonce@);
    assert(combined@.subrange(NONCE_SIZE as int, combined@.len() as int) =~= ciphertext@);
    let text = base64_encode(combined.as_slice());
    proof {
        let n = encode_utf8(password@).len();
        lemma_utf8_len_at_least(password@);
        assert(combined@.len() == NONCE_SIZE + n + TAG_SIZE);
        assert(4 * ((NONCE_SIZE + n + TAG_SIZE + 2) / 3) > n) by (nonlinear_arith)
            requires
                NONCE_SIZE == 12,
                TAG_SIZE == 16,
        ;
        assert(text@.len() > password@.len());
    }
    Ok(text)
}

/// Encrypts `password` under `key` with a fresh random nonce. Whatever nonce
/// was drawn, the result opens to `password` under the same key and differs
/// from it.
pub fn encrypt_password(key: &[u8], password: &str) -> (r: Result<String, String>)
    requires
        key@.len() == KEY_SIZE,
    ensures
        encode_utf8(password@).len() <= PLAINTEXT_MAX ==> r is Ok,
        r matches Ok(c) ==> opened_text(key@, c@) == Some(password@),
        r matches Ok(c) ==> exists|n: Seq<u8>| n.len() == NONCE_SIZE && c@ == sealed_text(key@, n, password@),
        r matches Ok(c) ==> c@.len() == sealed_len(encode_utf8(password@).len()),
        r matches Ok(c) ==> c@ != password@,
        r matches Err(m) ==> has_prefix(m@, encryption_failed_prefix()),
{
    let nonce_bytes: [u8; 12] = rand::random();
    seal_password(key, nonce_bytes.as_slice(), password)
}

/// Recovers the password that `encrypted_password` holds under `key`; each
/// way of failing has its own message.
pub fn decrypt_password(key: &[u8], encrypted_password: &str) -> (r: Result<String, String>)
    requires
        key@.len() == KEY_SIZE,
    ensures
        r is Ok <==> opened_text(key@, encrypted_password@) is Some,
        r matches Ok(s) ==> opened_text(key@, encrypted_password@) == Some(s@),
        base64_bytes(encrypted_password@) is None ==> (r matches Err(m) && has_prefix(
            m@,
            base64_failed_prefix(),
        )),
        base64_bytes(encrypted_password@) matches Some(b) && b.len() < NONCE_SIZE ==> (
        r matches Err(m) && m@ == invalid_data_text()),
        base64_bytes(encrypted_password@) is Some && base64_bytes(encrypted_password@)->Some_0.len()
            >= NONCE_SIZE && opened_bytes(key@, base64_bytes(encrypted_password@)->Some_0) is None
            ==> (r matches Err(m) && has_prefix(m@, decryption_failed_prefix())),
        base64_bytes(encrypted_password@) is Some && base64_bytes(encrypted_password@)->Some_0.len()
            >= NONCE_SIZE && opened_bytes(key@, base64_bytes(encrypted_password@)->Some_0) is Some
            && !valid_utf8(opened_bytes(key@, base64_bytes(encrypted_password@)->Some_0)->Some_0)
            ==> (r matches Err(m) && has_prefix(m@, utf8_failed_prefix())),
{
    let combined = match base64_decode(encrypted_password) {
        Ok(b) => b,
        Err(e) => {
            let m = String::from_str("Base64 decode failed: ").concat(e.as_str());
            proof {
                lemma_message_prefix("Base64 decode failed: "@, e@);
            }
            return Err(m);
        },
    };
    if combined.len() < NONCE_SIZE {
        return Err(String::from_str("Invalid encrypted data"));
    }
    let (nonce_bytes, ciphertext) = combined.as_slice().split_at(NONCE_SIZE);
    let plaintext = match aes_gcm_open(key, nonce_bytes, ciphertext) {
        Ok(p) => p,
        Err(e) => {
            let m = String::from_str("Decryption failed: ").concat(e.as_str());
            proof {
                lemma_message_prefix("Decryption failed: "@, e@);
            }
            return Err(m);
        },
    };
    match string_from_utf8(plaintext) {
        Ok(s) => Ok(s),
        Err(e) => {
            let m = String::from_str("UTF-8 conversion failed: ").concat(e.as_str());
            proof {
                lemma_message_prefix("UTF-8 conversion failed: "@, e@);
            }
            Err(m)
        },
    }
}

} // verus!
