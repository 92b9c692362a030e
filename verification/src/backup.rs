//! Backup and restore of a profile's configuration.
//!
//! An export serialises the configuration, encrypts it under the SHA2-256
//! digest of a passphrase and stores the ciphertext as URL safe base64 text.
//! An import reverses these steps with the same passphrase.

use crate::crypto::{
    aead_error_text, decrypt_failure_text,
    base64url_decode, base64url_decoding, base64url_encode, base64url_encoding, sha256, sha256_digest,
    unlock_code_ciphertext, unlock_code_decrypt, unlock_code_encrypt, AES_GCM_MAX_PLAINTEXT,
    AES_GCM_TAG_LEN,
};
use crate::config::ConfigProtectionType;
use crate::errors::OSTCError;
use crate::secured_config::{SecuredConfigFormat, SecuredConfigSealing};
use vstd::prelude::*;
use vstd::string::StringSliceAdditionalSpecFns;

verus! {

/// The 32 byte unlock code that protects an export made with `passphrase`
/// (the UTF-8 bytes of the passphrase).
pub open spec fn export_unlock_code(passphrase: Seq<u8>) -> Seq<u8> {
    sha256_digest(passphrase)
}

/// The file content that an export of `serialized` under `passphrase` writes.
pub open spec fn exported_config_text(passphrase: Seq<u8>, serialized: Seq<u8>) -> Seq<char> {
    base64url_encoding(unlock_code_ciphertext(export_unlock_code(passphrase), serialized))
}

/// Encrypts a serialised configuration under a passphrase and encodes the
/// ciphertext as the text of an export file.
pub fn seal_exported_config(passphrase: &str, serialized: &[u8]) -> (res: Result<String, OSTCError>)
    requires
        serialized@.len() + AES_GCM_TAG_LEN <= usize::MAX / 2,
    ensures
        res is Ok <==> serialized@.len() <= AES_GCM_MAX_PLAINTEXT,
        res matches Ok(text) ==> text@ == exported_config_text(passphrase.spec_bytes(), serialized@),
        res matches Err(e) ==> e matches OSTCError::Encrypt(msg) && msg@
            == "Couldn't encrypt data. Reason: "@ + aead_error_text(),
{
    let seed = passphrase_unlock_code(passphrase);
    let secured = unlock_code_encrypt(&seed, serialized)?;
    Ok(base64url_encode(secured.as_slice()))
}

/// Decodes the text of an export file and decrypts it with a passphrase,
/// giving back the serialised configuration.
///
/// Opening, with the same passphrase, what [seal_exported_config] produced
/// gives back exactly the configuration that was exported.
pub fn open_exported_config(passphrase: &str, content: &str) -> (res: Result<Vec<u8>, OSTCError>)
    ensures
        base64url_decoding(content@) is None ==> res matches Err(OSTCError::Base64(_)),
        res matches Ok(p) ==> base64url_decoding(content@) matches Some(c)
            && unlock_code_ciphertext(export_unlock_code(passphrase.spec_bytes()), p@) == c,
        forall|p: Seq<u8>|
            p.len() <= AES_GCM_MAX_PLAINTEXT && content@ == exported_config_text(
                passphrase.spec_bytes(),
                p,
            ) ==> res is Ok && res->Ok_0@ == p,
        res matches Err(e) ==> e is Base64 || (e matches OSTCError::Decrypt(msg) && msg@
            == decrypt_failure_text()),
{
    let decoded = match base64url_decode(content) {
        Ok(decoded) => decoded,
        Err(reason) => return Err(OSTCError::Base64(reason)),
    };
    let seed = passphrase_unlock_code(passphrase);
    unlock_code_decrypt(&seed, decoded.as_slice())
}

/// The unlock code for a passphrase: the SHA2-256 digest of its UTF-8 bytes.
pub fn passphrase_unlock_code(passphrase: &str) -> (code: [u8; 32])
    ensures
        code@ == export_unlock_code(passphrase.spec_bytes()),
{
    sha256(passphrase.as_bytes())
}

/// The 32 bytes of an unlock code as a vector.
fn code_to_vec(code: &[u8; 32]) -> (v: Vec<u8>)
    ensures
        v@ == code@,
{
    let mut v: Vec<u8> = Vec::new();
    let mut i: usize = 0;
    while i < 32
        invariant
            i <= 32,
            v@ == code@.take(i as int),
        decreases 32 - i,
    {
        v.push(code[i]);
        i = i + 1;
        assert(v@ =~= code@.take(i as int));
    }
    assert(code@.take(32) =~= code@);
    v
}

/// Protects the serialised secured configuration of an imported backup for
/// storage in the profile: with the hardware token when the imported
/// configuration uses one, otherwise under the unlock code of the new
/// unlock passphrase chosen for the profile.
///
/// Unlocking the result with the new passphrase's unlock code
/// ([crate::secured_config::UnlockCode::from_string]) gives the
/// configuration back (see [SecuredConfigFormat::unlock]).
pub fn reseal_imported_config(
    protection: &ConfigProtectionType,
    new_passphrase: &str,
    serialized: &[u8],
) -> (res: Result<SecuredConfigSealing, OSTCError>)
    requires
        serialized@.len() + AES_GCM_TAG_LEN <= usize::MAX / 2,
    ensures
        match *protection {
            ConfigProtectionType::Token(t) => res matches Ok(
                SecuredConfigSealing::NeedsToken { token },
            ) && token@ == t@,
            _ => if serialized@.len() <= AES_GCM_MAX_PLAINTEXT {
                res matches Ok(
                    SecuredConfigSealing::Sealed(SecuredConfigFormat::PasswordEncrypted { data }),
                ) && data@ == base64url_encoding(
                    unlock_code_ciphertext(export_unlock_code(new_passphrase.spec_bytes()), serialized@),
                )
            } else {
                res matches Err(OSTCError::Encrypt(msg)) && msg@ == "Couldn't encrypt data. Reason: "@
                    + aead_error_text()
            },
        },
{
    let code = passphrase_unlock_code(new_passphrase);
    let unlock = code_to_vec(&code);
    proof {
        assert(unlock@.subrange(0, 32) =~= unlock@);
    }
    SecuredConfigFormat::seal(serialized, protection.token(), Some(&unlock))
}

} // verus!
