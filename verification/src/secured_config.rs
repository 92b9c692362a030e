//! Secured configuration information that is stored in the OS Secure Storage
//!
//! * If using hardware tokens, then the data is encrypted/decrypted using the hardware token
//! * If no hardware token, then may be using a passphrase to protect the data
//! * If no hardware token, and no passphrase, then is in plaintext in the OS Secure Store
//!
//! This module decides how the serialised secured configuration is protected
//! and encoded for storage, and reverses those steps when loading it. The
//! hardware token operations themselves, the OS secure store and JSON
//! (de)serialisation are performed by the caller.

use crate::crypto::{
    aead_error_text,
    decrypt_failure_text,
    base64url_decode, base64url_decoding, base64url_encode, base64url_encoding, sha256,
    sha256_digest, unlock_code_ciphertext, unlock_code_decrypt, unlock_code_encrypt,
    AES_GCM_MAX_PLAINTEXT, AES_GCM_TAG_LEN,
};
use crate::config::KeyTypes;
use crate::errors::OSTCError;
use crate::logs::UtcTimestamp;
use vstd::prelude::*;
use vstd::std_specs::convert::FromSpecImpl;
use vstd::string::StringSliceAdditionalSpecFns;

verus! {

/// Is always a SHA2-256 hash of a user provided passphrase
pub struct UnlockCode([u8; 32]);

impl View for UnlockCode {
    type V = Seq<u8>;

    closed spec fn view(&self) -> Seq<u8> {
        self.0@
    }
}

impl UnlockCode {
    /// The unlock code of a passphrase: the SHA2-256 digest of its UTF-8 bytes.
    pub fn from_string(s: &str) -> (code: Self)
        ensures
            code@ == sha256_digest(s.spec_bytes()),
    {
        UnlockCode(sha256(s.as_bytes()))
    }

    /// The 32 bytes of the unlock code.
    pub fn bytes(&self) -> (b: &[u8; 32])
        ensures
            b@ == self@,
    {
        &self.0
    }
}

/// Methods of protecting the secured configuration
#[derive(Clone, Copy, Debug, Default, PartialEq, Eq, Structural)]
pub enum ProtectionMethod {
    TokenEncrypted,
    PasswordEncrypted,
    PlainText,
    #[default]
    Unknown,
}

/// Where did the source for the Key Material come from?
#[derive(Debug)]
pub enum KeySourceMaterial {
    /// Sourced from BIP32 derivative, Path for this key
    Derived { path: String },
    /// Sourced from an external Key Import
    /// multiencoded private key
    /// Key Material will be stored in the OS Secure Store
    Imported { seed: String },
}

impl Clone for KeySourceMaterial {
    fn clone(&self) -> (copy: Self)
        ensures
            copy == *self,
    {
        match self {
            KeySourceMaterial::Derived { path } => KeySourceMaterial::Derived { path: path.clone() },
            KeySourceMaterial::Imported { seed } => KeySourceMaterial::Imported { seed: seed.clone() },
        }
    }
}

/// Information that is required for each key stored
#[derive(Debug)]
pub struct KeyInfoConfig {
    /// Where did the keys being used come from?
    pub path: KeySourceMaterial,
    /// When was this key first created?
    pub create_time: UtcTimestamp,
    /// What the key is used for
    pub purpose: KeyTypes,
}

impl Clone for KeyInfoConfig {
    fn clone(&self) -> (copy: Self)
        ensures
            copy == *self,
    {
        KeyInfoConfig { path: self.path.clone(), create_time: self.create_time, purpose: self.purpose }
    }
}

/// Secured configuration: the sensitive settings of a profile, kept in the
/// OS secure store.
#[derive(Debug)]
pub struct SecuredConfig {
    /// base64 encoded BIP32 private seed
    pub bip32_seed: String,
    /// Key information containing path info, by DID verification method ID
    /// (one entry per ID)
    pub key_info: Vec<(String, KeyInfoConfig)>,
    /// How the configuration was protected when it was loaded
    pub protection_method: ProtectionMethod,
}

/// Three possible formats to store the secured configuration
/// 1. TokenEncrypted - Encrypted using a hardware token
/// 2. PasswordEncrypted - Encrypted from a derived key from a password/PIN
/// 3. PlainText - No Encryption at all - USE AT YOUR OWN RISK!
///
/// NOTE: All strings are BASE64 encoded
#[derive(Clone, Debug)]
pub enum SecuredConfigFormat {
    /// Hardware token encrypted data
    TokenEncrypted {
        /// Encrypted Session Key
        esk: String,
        /// Encrypted data using esk
        data: String,
    },
    /// Password/PIN Protected data
    PasswordEncrypted {
        /// Encrypted data using AES-256 from derived key
        data: String,
    },
    /// Plaintext data - dangerous!
    PlainText {
        /// Plaintext data that can be Serialized into the secured configuration
        text: String,
    },
}

/// The protection method that a stored format stands for.
pub open spec fn protection_method_of(format: SecuredConfigFormat) -> ProtectionMethod {
    match format {
        SecuredConfigFormat::TokenEncrypted { .. } => ProtectionMethod::TokenEncrypted,
        SecuredConfigFormat::PasswordEncrypted { .. } => ProtectionMethod::PasswordEncrypted,
        SecuredConfigFormat::PlainText { .. } => ProtectionMethod::PlainText,
    }
}

impl From<SecuredConfigFormat> for ProtectionMethod {
    fn from(format: SecuredConfigFormat) -> (method: ProtectionMethod) {
        match format {
            SecuredConfigFormat::TokenEncrypted { .. } => ProtectionMethod::TokenEncrypted,
            SecuredConfigFormat::PasswordEncrypted { .. } => ProtectionMethod::PasswordEncrypted,
            SecuredConfigFormat::PlainText { .. } => ProtectionMethod::PlainText,
        }
    }
}

impl FromSpecImpl<SecuredConfigFormat> for ProtectionMethod {
    open spec fn obeys_from_spec() -> bool {
        true
    }

    open spec fn from_spec(format: SecuredConfigFormat) -> ProtectionMethod {
        protection_method_of(format)
    }
}

/// How far protecting a serialised secured configuration got.
#[derive(Debug)]
pub enum SecuredConfigSealing {
    /// The data must still be encrypted with the hardware token `token`; the
    /// results are then stored with [SecuredConfigFormat::token_encrypted].
    NeedsToken { token: String },
    /// The data is protected and encoded, ready for the OS secure store.
    Sealed(SecuredConfigFormat),
}

/// What remains to be done after unlocking a stored format.
#[derive(Debug)]
pub enum UnlockedSecuredConfig {
    /// The data must still be decrypted with the hardware token `token`, using
    /// the encrypted session key `esk`.
    NeedsToken { token: String, esk: Vec<u8>, data: Vec<u8> },
    /// The serialised secured configuration.
    Serialized(Vec<u8>),
}

impl SecuredConfigFormat {
    /// Protects a serialised secured configuration as its settings ask:
    /// with the hardware token when a token is configured, otherwise under the
    /// unlock code (its first 32 bytes) when one is given, otherwise as plain
    /// (base64 encoded) text.
    pub fn seal(input: &[u8], token: Option<&String>, unlock: Option<&Vec<u8>>) -> (res: Result<
        SecuredConfigSealing,
        OSTCError,
    >)
        requires
            unlock matches Some(u) ==> u@.len() >= 32,
            input@.len() + AES_GCM_TAG_LEN <= usize::MAX / 2,
        ensures
            match token {
                Some(t) => res matches Ok(SecuredConfigSealing::NeedsToken { token: n }) && n@ == t@,
                None => match unlock {
                    Some(u) => if input@.len() <= AES_GCM_MAX_PLAINTEXT {
                        res matches Ok(
                            SecuredConfigSealing::Sealed(SecuredConfigFormat::PasswordEncrypted { data }),
                        ) && data@ == base64url_encoding(
                            unlock_code_ciphertext(u@.subrange(0, 32), input@),
                        )
                    } else {
                        res matches Err(OSTCError::Encrypt(msg)) && msg@
                            == "Couldn't encrypt data. Reason: "@ + aead_error_text()
                    },
                    None => res matches Ok(
                        SecuredConfigSealing::Sealed(SecuredConfigFormat::PlainText { text }),
                    ) && text@ == base64url_encoding(input@),
                },
            },
    {
        if let Some(token) = token {
            Ok(SecuredConfigSealing::NeedsToken { token: token.clone() })
        } else if let Some(unlock) = unlock {
            let code = first_32_bytes(unlock);
            let encrypted = unlock_code_encrypt(&code, input)?;
            Ok(
                SecuredConfigSealing::Sealed(
                    SecuredConfigFormat::PasswordEncrypted {
                        data: base64url_encode(encrypted.as_slice()),
                    },
                ),
            )
        } else {
            Ok(
                SecuredConfigSealing::Sealed(
                    SecuredConfigFormat::PlainText { text: base64url_encode(input) },
                ),
            )
        }
    }

    /// Stores the output of the hardware token encryption.
    pub fn token_encrypted(esk: &[u8], data: &[u8]) -> (format: SecuredConfigFormat)
        requires
            esk@.len() <= usize::MAX / 2,
            data@.len() <= usize::MAX / 2,
        ensures
            format matches SecuredConfigFormat::TokenEncrypted { esk: e, data: d }
                && e@ == base64url_encoding(esk@) && d@ == base64url_encoding(data@),
    {
        SecuredConfigFormat::TokenEncrypted {
            esk: base64url_encode(esk),
            data: base64url_encode(data),
        }
    }

    /// Undoes the encoding and the unlock code protection of a stored format.
    ///
    /// A token encrypted format needs a token identifier, a password encrypted
    /// format needs the unlock code; what was stored by [Self::seal] (or
    /// [Self::token_encrypted]) is given back.
    pub fn unlock(&self, token: Option<&String>, unlock: Option<&UnlockCode>) -> (res: Result<
        UnlockedSecuredConfig,
        OSTCError,
    >)
        ensures
            match *self {
                SecuredConfigFormat::TokenEncrypted { esk, data } => match token {
                    None => res matches Err(OSTCError::Config(msg)) && msg@
                        == "Secured Config is Token Encrypted, but no token identifier has been provided!"@,
                    Some(t) => match (base64url_decoding(esk@), base64url_decoding(data@)) {
                        (Some(e), Some(d)) => res matches Ok(
                            UnlockedSecuredConfig::NeedsToken { token: n, esk: re, data: rd },
                        ) && n@ == t@ && re@ == e && rd@ == d,
                        _ => res matches Err(OSTCError::Base64(_)),
                    },
                },
                SecuredConfigFormat::PasswordEncrypted { data } => match unlock {
                    None => res matches Err(OSTCError::Config(msg)) && msg@
                        == "Secured Config is Password Encrypted, but no unlock code has been provided!"@,
                    Some(code) => match base64url_decoding(data@) {
                        None => res matches Err(OSTCError::Base64(_)),
                        Some(c) => {
                            &&& res matches Ok(UnlockedSecuredConfig::Serialized(p))
                                ==> unlock_code_ciphertext(code@, p@) == c
                            &&& res matches Err(e) ==> e matches OSTCError::Decrypt(msg)
                                && msg@ == password_decrypt_failure_text()
                            &&& res matches Ok(r) ==> r is Serialized
                        },
                    },
                },
                SecuredConfigFormat::PlainText { text } => match base64url_decoding(text@) {
                    None => res matches Err(OSTCError::Base64(_)),
                    Some(b) => res matches Ok(UnlockedSecuredConfig::Serialized(p)) && p@ == b,
                },
            },
            // What was stored is given back.
            forall|x: Seq<u8>|
                #![trigger base64url_encoding(x)]
                (*self matches SecuredConfigFormat::PlainText { text } && text@
                    == base64url_encoding(x)) ==> res is Ok && res->Ok_0
                    is Serialized && res->Ok_0->Serialized_0@ == x,
            forall|x: Seq<u8>|
                #![trigger unlock_code_ciphertext(unlock->Some_0@, x)]
                (*self matches SecuredConfigFormat::PasswordEncrypted { data } && unlock is Some
                    && x.len() <= AES_GCM_MAX_PLAINTEXT && data@ == base64url_encoding(
                    unlock_code_ciphertext(unlock->Some_0@, x),
                )) ==> res is Ok && res->Ok_0 is Serialized && res->Ok_0->Serialized_0@ == x,
    {
        match self {
            SecuredConfigFormat::TokenEncrypted { esk, data } => {
                if let Some(token) = token {
                    let esk = match base64url_decode(esk.as_str()) {
                        Ok(esk) => esk,
                        Err(reason) => return Err(OSTCError::Base64(reason)),
                    };
                    let data = match base64url_decode(data.as_str()) {
                        Ok(data) => data,
                        Err(reason) => return Err(OSTCError::Base64(reason)),
                    };
                    Ok(UnlockedSecuredConfig::NeedsToken { token: token.clone(), esk, data })
                } else {
                    Err(
                        OSTCError::Config(
                            "Secured Config is Token Encrypted, but no token identifier has been provided!".to_owned(),
                        ),
                    )
                }
            },
            SecuredConfigFormat::PasswordEncrypted { data } => {
                if let Some(unlock) = unlock {
                    let encrypted = match base64url_decode(data.as_str()) {
                        Ok(encrypted) => encrypted,
                        Err(reason) => return Err(OSTCError::Base64(reason)),
                    };
                    match unlock_code_decrypt(unlock.bytes(), encrypted.as_slice()) {
                        Ok(decrypted) => Ok(UnlockedSecuredConfig::Serialized(decrypted)),
                        Err(OSTCError::Decrypt(reason)) => Err(
                            OSTCError::Decrypt(
                                "Couldn't decrypt password encrypted SecuredConfig. Reason: ".to_owned().concat(
                                    reason.as_str(),
                                ),
                            ),
                        ),
                        Err(other) => Err(other),
                    }
                } else {
                    Err(
                        OSTCError::Config(
                            "Secured Config is Password Encrypted, but no unlock code has been provided!".to_owned(),
                        ),
                    )
                }
            },
            SecuredConfigFormat::PlainText { text } => {
                match base64url_decode(text.as_str()) {
                    Ok(bytes) => Ok(UnlockedSecuredConfig::Serialized(bytes)),
                    Err(reason) => Err(OSTCError::Base64(reason)),
                }
            },
        }
    }
}

/// The message when a password encrypted secured configuration does not
/// decrypt under the unlock code given.
pub open spec fn password_decrypt_failure_text() -> Seq<char> {
    "Couldn't decrypt password encrypted SecuredConfig. Reason: "@ + decrypt_failure_text()
}

/// The first 32 bytes of `bytes`.
fn first_32_bytes(bytes: &Vec<u8>) -> (out: [u8; 32])
    requires
        bytes@.len() >= 32,
    ensures
        out@ == bytes@.subrange(0, 32),
{
    let mut out = [0u8; 32];
    let mut i: usize = 0;
    while i < 32
        invariant
            i <= 32,
            bytes@.len() >= 32,
            forall|j: int| 0 <= j < i ==> out@[j] == bytes@[j],
        decreases 32 - i,
    {
        out[i] = bytes[i];
        i = i + 1;
    }
    assert(out@ =~= bytes@.subrange(0, 32));
    out
}

} // verus!
