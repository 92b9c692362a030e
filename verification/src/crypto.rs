//! The cryptographic building blocks that protect configuration data:
//! SHA2-256 digests of passphrases, AES-256-GCM sealing under a key that is
//! derived deterministically from a 32 byte unlock code, and URL safe base64
//! (without padding) text encoding.
//!
//! The primitives come from the `sha2`, `aes-gcm`, `rand` and `base64` crates;
//! each call goes through one trusted wrapper below. Everything built on top of
//! them is verified.

use crate::errors::OSTCError;
use aes_gcm::{aead::Aead, AeadCore, Aes256Gcm, KeyInit};
use base64::{prelude::BASE64_URL_SAFE_NO_PAD, Engine};
use rand::{rngs::StdRng, SeedableRng};
use sha2::{Digest, Sha256};
use vstd::prelude::*;

verus! {

/// Largest plaintext (in bytes) that AES-256-GCM accepts: 2^36.
pub const AES_GCM_MAX_PLAINTEXT: u64 = 68719476736;

/// Length in bytes of the authentication tag that AES-256-GCM appends.
pub const AES_GCM_TAG_LEN: u64 = 16;

// ****************************************************************************
// Names for what the outside functions compute
// ****************************************************************************

/// The SHA2-256 digest of `data`.
pub uninterp spec fn sha256_digest(data: Seq<u8>) -> Seq<u8>;

/// The URL safe, unpadded base64 text of `bytes`.
pub uninterp spec fn base64url_encoding(bytes: Seq<u8>) -> Seq<char>;

/// The bytes that URL safe, unpadded base64 `text` stands for, or `None` when
/// `text` is not such base64.
pub uninterp spec fn base64url_decoding(text: Seq<char>) -> Option<Seq<u8>>;

/// The 32 key bytes followed by the 12 nonce bytes that AES-256-GCM draws from
/// the standard random generator seeded with `seed`.
pub uninterp spec fn seeded_key_material(seed: Seq<u8>) -> Seq<u8>;

/// The AES-256-GCM ciphertext (with its tag appended) of `plaintext` under
/// `key` and `nonce`, without associated data.
pub uninterp spec fn aes256gcm_sealed(key: Seq<u8>, nonce: Seq<u8>, plaintext: Seq<u8>) -> Seq<u8>;

/// The text that AES-GCM errors (`aead::Error`) display.
pub open spec fn aead_error_text() -> Seq<char> {
    "aead::Error"@
}

// ****************************************************************************
// Trusted wrappers
// ****************************************************************************

/// Calls `sha2::Sha256::digest`. Claimed: the result is the SHA2-256 digest of
/// the input, which depends on the input alone.
#[verifier::external_body]
pub(crate) fn sha256(data: &[u8]) -> (digest: [u8; 32])
    ensures
        digest@ == sha256_digest(data@),
{
    Sha256::digest(data).into()
}

/// Calls `base64::Engine::encode` on the URL safe, unpadded engine. Claimed:
/// the text is the named encoding of the input. The engine panics when the
/// encoded length overflows `usize`, which the bound on the input rules out.
#[verifier::external_body]
pub(crate) fn base64url_encode(bytes: &[u8]) -> (text: String)
    requires
        bytes@.len() <= usize::MAX / 2,
    ensures
        text@ == base64url_encoding(bytes@),
{
    BASE64_URL_SAFE_NO_PAD.encode(bytes)
}

/// Calls `base64::Engine::decode` on the URL safe, unpadded engine. Claimed:
/// the result is the named decoding of the text, and decoding the engine's own
/// encoding of some bytes gives those bytes back (base64 is a lossless
/// encoding). The error carries the engine's message.
#[verifier::external_body]
pub(crate) fn base64url_decode(text: &str) -> (res: Result<Vec<u8>, String>)
    ensures
        match res {
            Ok(bytes) => base64url_decoding(text@) == Some(bytes@),
            Err(_) => base64url_decoding(text@) is None,
        },
        forall|bytes: Seq<u8>|
            text@ == base64url_encoding(bytes) ==> res is Ok && res->Ok_0@ == bytes,
{
    BASE64_URL_SAFE_NO_PAD.decode(text).map_err(|e| e.to_string())
}

/// Calls `rand::rngs::StdRng::from_seed`, then `Aes256Gcm::generate_key` and
/// `Aes256Gcm::generate_nonce` on that generator, as AES-256-GCM key derivation
/// from an unlock code. Claimed: key and nonce are the first 32 and the next 12
/// bytes of the named key material of the seed; the generator is deterministic
/// for a given seed.
#[verifier::external_body]
pub(crate) fn seeded_key_and_nonce(seed: &[u8; 32]) -> (res: ([u8; 32], [u8; 12]))
    ensures
        res.0@ + res.1@ == seeded_key_material(seed@),
{
    let mut rng = StdRng::from_seed(*seed);
    let key = Aes256Gcm::generate_key(&mut rng);
    let nonce = Aes256Gcm::generate_nonce(&mut rng);
    (key.into(), nonce.into())
}

/// Calls `aes_gcm::Aes256Gcm::encrypt` (with `Aes256Gcm::new` on the key).
/// Claimed: encryption succeeds exactly when the plaintext is at most 2^36
/// bytes, and then gives the named ciphertext, which is the plaintext length
/// plus the 16 byte tag. The error carries the crate's message (`aead::Error`
/// displays as a fixed text).
#[verifier::external_body]
pub(crate) fn aes256gcm_encrypt(key: &[u8; 32], nonce: &[u8; 12], plaintext: &[u8]) -> (res: Result<
    Vec<u8>,
    String,
>)
    ensures
        res is Ok <==> plaintext@.len() <= AES_GCM_MAX_PLAINTEXT,
        res matches Ok(c) ==> c@ == aes256gcm_sealed(key@, nonce@, plaintext@),
        res matches Ok(c) ==> c@.len() == plaintext@.len() + AES_GCM_TAG_LEN,
        res matches Err(e) ==> e@ == aead_error_text(),
{
    let cipher = Aes256Gcm::new(aes_gcm::Key::<Aes256Gcm>::from_slice(key));
    cipher.encrypt(aes_gcm::Nonce::from_slice(nonce), plaintext).map_err(|e| e.to_string())
}

/// Calls `aes_gcm::Aes256Gcm::decrypt` (with `Aes256Gcm::new` on the key).
/// Claimed: a successful decryption gives a plaintext whose sealing under the
/// same key and nonce is exactly the ciphertext (GCM decryption inverts the
/// counter mode and accepts only a matching tag), and the sealing of a
/// plaintext of at most 2^36 bytes always decrypts to that plaintext. Which
/// other ciphertexts fail is not stated; the error carries the crate's message
/// (`aead::Error` displays as a fixed text).
#[verifier::external_body]
pub(crate) fn aes256gcm_decrypt(key: &[u8; 32], nonce: &[u8; 12], ciphertext: &[u8]) -> (res: Result<
    Vec<u8>,
    String,
>)
    ensures
        res matches Ok(p) ==> aes256gcm_sealed(key@, nonce@, p@) == ciphertext@,
        forall|p: Seq<u8>|
            p.len() <= AES_GCM_MAX_PLAINTEXT && ciphertext@ == aes256gcm_sealed(key@, nonce@, p)
                ==> res is Ok && res->Ok_0@ == p,
        res matches Err(e) ==> e@ == aead_error_text(),
{
    let cipher = Aes256Gcm::new(aes_gcm::Key::<Aes256Gcm>::from_slice(key));
    cipher.decrypt(aes_gcm::Nonce::from_slice(nonce), ciphertext).map_err(|e| e.to_string())
}

// ****************************************************************************
// Verified protection of data with unlock codes
// ****************************************************************************

/// AES-256-GCM key derived from a 32 byte unlock code.
pub open spec fn unlock_key(unlock: Seq<u8>) -> Seq<u8> {
    seeded_key_material(unlock).subrange(0, 32)
}

/// AES-256-GCM nonce derived from a 32 byte unlock code.
pub open spec fn unlock_nonce(unlock: Seq<u8>) -> Seq<u8> {
    seeded_key_material(unlock).subrange(32, 44)
}

proof fn lemma_split_key_material(unlock: Seq<u8>, key: Seq<u8>, nonce: Seq<u8>)
    requires
        key.len() == 32,
        nonce.len() == 12,
        key + nonce == seeded_key_material(unlock),
    ensures
        key == unlock_key(unlock),
        nonce == unlock_nonce(unlock),
{
    assert(key =~= (key + nonce).subrange(0, 32));
    assert(nonce =~= (key + nonce).subrange(32, 44));
}

/// What [unlock_code_encrypt] produces for `input` under `unlock`.
pub open spec fn unlock_code_ciphertext(unlock: Seq<u8>, input: Seq<u8>) -> Seq<u8> {
    aes256gcm_sealed(unlock_key(unlock), unlock_nonce(unlock), input)
}

/// Creates an AES-256 key from the hash of the unlock code and attempts to encrypt using it
pub fn unlock_code_encrypt(unlock: &[u8; 32], input: &[u8]) -> (res: Result<Vec<u8>, OSTCError>)
    ensures
        res is Ok <==> input@.len() <= AES_GCM_MAX_PLAINTEXT,
        res matches Ok(c) ==> c@ == unlock_code_ciphertext(unlock@, input@),
        res matches Ok(c) ==> c@.len() == input@.len() + AES_GCM_TAG_LEN,
        res matches Err(e) ==> e matches OSTCError::Encrypt(msg) && msg@
            == "Couldn't encrypt data. Reason: "@ + aead_error_text(),
{
    let (key, nonce) = seeded_key_and_nonce(unlock);
    proof {
        lemma_split_key_material(unlock@, key@, nonce@);
    }
    match aes256gcm_encrypt(&key, &nonce, input) {
        Ok(encrypted) => Ok(encrypted),
        Err(reason) => Err(
            OSTCError::Encrypt("Couldn't encrypt data. Reason: ".to_owned().concat(reason.as_str())),
        ),
    }
}

/// The message of a failed decryption under an unlock code.
pub open spec fn decrypt_failure_text() -> Seq<char> {
    "Couldn't decrypt data, likely due to incorrect unlock code! Reason: "@ + aead_error_text()
}

/// Creates an AES-256 key from the hash of the unlock code and attempts to decrypt using it.
///
/// Decrypting, under the same unlock code, what [unlock_code_encrypt] produced
/// gives back the original input.
pub fn unlock_code_decrypt(unlock: &[u8; 32], input: &[u8]) -> (res: Result<Vec<u8>, OSTCError>)
    ensures
        res matches Ok(p) ==> unlock_code_ciphertext(unlock@, p@) == input@,
        forall|p: Seq<u8>|
            p.len() <= AES_GCM_MAX_PLAINTEXT && input@ == unlock_code_ciphertext(unlock@, p)
                ==> (res matches Ok(q) && q@ == p),
        res matches Err(e) ==> e matches OSTCError::Decrypt(msg) && msg@
            == decrypt_failure_text(),
{
    let (key, nonce) = seeded_key_and_nonce(unlock);
    proof {
        lemma_split_key_material(unlock@, key@, nonce@);
    }
    match aes256gcm_decrypt(&key, &nonce, input) {
        Ok(decrypted) => Ok(decrypted),
        Err(reason) => Err(
            OSTCError::Decrypt(
                "Couldn't decrypt data, likely due to incorrect unlock code! Reason: ".to_owned().concat(
                    reason.as_str(),
                ),
            ),
        ),
    }
}

} // verus!
