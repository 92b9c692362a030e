//! Common error types for LKMV

use vstd::prelude::*;

verus! {

/// Linux Kernel Maintainer Verification Errors
#[derive(Debug)]
pub enum LKMVError {
    /// A DIDComm message type URL that LKMV does not know.
    InvalidMessage(String),

    /// Key material for the given key identifier is missing.
    MissingSecretKeyMaterial(String),

    /// The configuration could not be located, read or understood.
    Config(String),

    /// Serialising or deserialising a structure failed.
    Serde(String),
}

/// Errors raised while protecting or unprotecting secured configuration.
#[derive(Debug)]
pub enum OSTCError {
    /// The secured configuration and the unlocking material do not fit together.
    Config(String),

    /// Encrypting data failed.
    Encrypt(String),

    /// Decrypting data failed (most often a wrong unlock code).
    Decrypt(String),

    /// Stored text was not valid URL safe base64.
    Base64(String),

    /// A hardware token operation failed.
    Token(String),

    /// Serialising or deserialising a structure failed.
    Serde(String),
}

} // verus!
