//! The authenticated-encryption engine: AES-256-GCM with a caller-supplied
//! 96-bit nonce, reached through trusted wrappers.
use vstd::prelude::*;

verus! {

use aes_gcm::aead::{Aead, NewAead};
use crate::text::bytes_eq;

/// Largest plaintext the mode accepts (its `P_MAX`).
pub const MAX_PLAINTEXT_LEN: u64 = 0x10_0000_0000;

/// The ciphertext-with-tag that sealing a plaintext under a key and nonce
/// produces. AES-GCM is deterministic in these three inputs.
pub uninterp spec fn gcm_seal(key: Seq<u8>, nonce: Seq<u8>, plaintext: Seq<u8>) -> Seq<u8>;

/// What opening a ciphertext-with-tag under a key and nonce yields: the
/// plaintext, or nothing when authentication fails.
pub uninterp spec fn gcm_open(key: Seq<u8>, nonce: Seq<u8>, ciphertext: Seq<u8>) -> Option<Seq<u8>>;

/// Relies on aes_gcm::Aes256Gcm encryption: for a 32-byte key, a 12-byte
/// nonce and a plaintext within the mode's limit it succeeds; the result is a
/// function of those three inputs alone, is 16 bytes (the tag) longer than
/// the plaintext, and opening it under the same key and nonce yields the
/// plaintext back.
#[verifier::external_body]
pub fn encrypt(data: &[u8], key: &[u8], iv: &[u8]) -> (r: Result<Vec<u8>, String>)
    requires
        key@.len() == 32,
        iv@.len() == 12,
        data@.len() <= MAX_PLAINTEXT_LEN,
    ensures
        match r {
            Ok(c) => c@ == gcm_seal(key@, iv@, data@) && c@.len() == data@.len() + 16 && gcm_open(
                key@,
                iv@,
                c@,
            ) == Some(data@),
            Err(_) => false,
        },
{
    let encrypting_key = aes_gcm::Key::from_slice(key);
    let cipher = aes_gcm::Aes256Gcm::new(encrypting_key);
    let nonce = aes_gcm::Nonce::from_slice(iv);
    cipher.encrypt(nonce, data.as_ref()).map_err(|e| format!("Encrypt data failed: {:?}", e))
}

/// Relies on aes_gcm::Aes256Gcm decryption: for a 32-byte key and a 12-byte
/// nonce, success and the plaintext depend on the ciphertext alone, and a
/// ciphertext is accepted only when it is exactly what sealing the returned
/// plaintext produces.
#[verifier::external_body]
pub fn decrypt(encrypted_data: &[u8], key: &[u8], iv: &[u8]) -> (r: Result<Vec<u8>, String>)
    requires
        key@.len() == 32,
        iv@.len() == 12,
    ensures
        match r {
            Ok(p) => gcm_open(key@, iv@, encrypted_data@) == Some(p@) && encrypted_data@
                == gcm_seal(key@, iv@, p@),
            Err(_) => gcm_open(key@, iv@, encrypted_data@) is None,
        },
{
    let decrypting_key = aes_gcm::Key::from_slice(key);
    let cipher = aes_gcm::Aes256Gcm::new(decrypting_key);
    let nonce = aes_gcm::Nonce::from_slice(iv);
    cipher.decrypt(nonce, encrypted_data.as_ref()).map_err(
        |e| format!("Decrypt data failed: {:?}", e),
    )
}

/// Round trip: decrypting what `encrypt` produced, under the same key and
/// nonce, always succeeds and yields the original plaintext.
pub fn encrypt_then_decrypt(data: &[u8], key: &[u8], iv: &[u8]) -> (r: Vec<u8>)
    requires
        key@.len() == 32,
        iv@.len() == 12,
        data@.len() <= MAX_PLAINTEXT_LEN,
    ensures
        r@ == data@,
{
    let sealed = encrypt(data, key, iv).unwrap();
    decrypt(sealed.as_slice(), key, iv).unwrap()
}

/// Tamper detection: a ciphertext other than the one sealing `original`
/// produced either fails to decrypt or yields a different plaintext; the
/// original is never passed off as the content of an altered ciphertext.
pub fn decrypt_detects_change(original: &[u8], altered: &[u8], key: &[u8], iv: &[u8]) -> (r: Result<
    Vec<u8>,
    String,
>)
    requires
        key@.len() == 32,
        iv@.len() == 12,
        altered@ != gcm_seal(key@, iv@, original@),
    ensures
        match r {
            Ok(p) => p@ != original@,
            Err(_) => true,
        },
{
    decrypt(altered, key, iv)
}

/// Seals `original` and, where `altered` differs from that ciphertext,
/// decrypts it: tamper detection then promises the result is never the
/// original plaintext. Where `altered` is the untouched ciphertext, nothing
/// is decrypted and the comparison says so.
pub fn decrypt_if_altered(original: &[u8], altered: &[u8], key: &[u8], iv: &[u8]) -> (r: Option<
    Result<Vec<u8>, String>,
>)
    requires
        key@.len() == 32,
        iv@.len() == 12,
        original@.len() <= MAX_PLAINTEXT_LEN,
    ensures
        match r {
            None => altered@ == gcm_seal(key@, iv@, original@),
            Some(res) => altered@ != gcm_seal(key@, iv@, original@) && (match res {
                Ok(p) => p@ != original@,
                Err(_) => true,
            }),
        },
{
    let sealed = encrypt(original, key, iv).unwrap();
    if bytes_eq(sealed.as_slice(), altered) {
        None
    } else {
        Some(decrypt_detects_change(original, altered, key, iv))
    }
}

} // verus!
