//! Configuration settings of a profile: how it is protected, which kinds of
//! keys it holds, and where its public configuration file lives.

use crate::errors::LKMVError;
use crate::logs::Logs;
use vstd::prelude::*;

verus! {

/// How is the config protected?
#[derive(Clone, Debug)]
pub enum ConfigProtectionType {
    /// Requires a hardware token with the Token ID to unlock config
    /// Will need to provide the USER PIN to the token
    Token(String),
    /// Requires an unlock passphrase to unlock config
    /// Will need to provide the unlock passphrase
    Encrypted,
    /// Is not encrypted in any way
    Plaintext,
}

impl Default for ConfigProtectionType {
    fn default() -> (protection: Self)
        ensures
            protection is Encrypted,
    {
        ConfigProtectionType::Encrypted
    }
}

impl ConfigProtectionType {
    /// The identifier of the hardware token that protects the configuration,
    /// if a token does.
    pub fn token(&self) -> (token: Option<&String>)
        ensures
            match *self {
                ConfigProtectionType::Token(t) => token == Some(&t),
                _ => token is None,
            },
    {
        if let ConfigProtectionType::Token(token) = self {
            Some(token)
        } else {
            None
        }
    }
}

/// If the token requires interaction then these methods help with user interaction
/// touch_notify() is called before the token may require touch
/// touch_completed() is called after the token operation has been completed
pub trait TokenInteractions {
    /// Notifies application that a token touch is required
    fn touch_notify(&self);

    /// Notifies application that token has completed it's operation
    fn touch_completed(&self);
}

/// Configuration data of a profile that is not sensitive, stored in
/// plaintext on disk.
#[derive(Clone, Debug)]
pub struct PublicConfig {
    /// Identifier for a hardware token if being used
    pub token_id: Option<String>,
    /// Use an unlock code if hardware token isn't being used?
    /// true: Will take a unlock code --> Sha256 hash --> decrypt key
    /// false: Plain text retrieval from the OS Secure Store
    pub unlock_code: bool,
    /// Persona DID
    pub persona_did: String,
    /// Mediator DID
    pub mediator_did: String,
    /// Human friendly name to use when referring to ourself
    pub friendly_name: String,
    /// Linux Organisation DID
    pub lk_did: String,
    /// Log of what happened to the profile
    pub logs: Logs,
    /// The encrypted private part of the configuration, if saved
    pub private: Option<String>,
}

// ****************************************************************************
// Key Types
// ****************************************************************************

/// Key Types used within lkmv
#[derive(Clone, Copy, Debug, PartialEq, Eq, Structural)]
pub enum KeyTypes {
    PersonaSigning,
    PersonaAuthentication,
    PersonaEncryption,
    PersonaOther,
    RelationshipVerification,
    RelationshipEncryption,
    WebVHManagement,
    Unknown,
}

impl Default for KeyTypes {
    fn default() -> (key_type: Self)
        ensures
            key_type == KeyTypes::Unknown,
    {
        KeyTypes::Unknown
    }
}

/// The text shown for a key type.
pub open spec fn key_type_text(k: KeyTypes) -> Seq<char> {
    match k {
        KeyTypes::PersonaSigning => "Persona Signing Key"@,
        KeyTypes::PersonaAuthentication => "Persona Authentication Key"@,
        KeyTypes::PersonaEncryption => "Persona Encryption Key"@,
        KeyTypes::PersonaOther => "Persona Other Key"@,
        KeyTypes::RelationshipVerification => "Relationship Verification Key"@,
        KeyTypes::RelationshipEncryption => "Relationship Encryption Key"@,
        KeyTypes::WebVHManagement => "Web VH Management Key"@,
        KeyTypes::Unknown => "Unknown Key Type"@,
    }
}

impl KeyTypes {
    /// The text shown for this key type.
    pub fn to_string(&self) -> (s: String)
        ensures
            s@ == key_type_text(*self),
    {
        let s = match self {
            KeyTypes::PersonaSigning => "Persona Signing Key",
            KeyTypes::PersonaAuthentication => "Persona Authentication Key",
            KeyTypes::PersonaEncryption => "Persona Encryption Key",
            KeyTypes::PersonaOther => "Persona Other Key",
            KeyTypes::RelationshipVerification => "Relationship Verification Key",
            KeyTypes::RelationshipEncryption => "Relationship Encryption Key",
            KeyTypes::WebVHManagement => "Web VH Management Key",
            KeyTypes::Unknown => "Unknown Key Type",
        };
        s.to_owned()
    }
}

// ****************************************************************************
// Location of the public configuration file
// ****************************************************************************

/// The directory that holds the configuration files, given the value of the
/// `LKMV_CONFIG_PATH` environment variable and the user's home directory:
/// the variable's value (with a trailing `/` added when it has none), else
/// `.config/lkmv/` under the home directory.
pub open spec fn config_dir(env_path: Option<Seq<char>>, home: Option<Seq<char>>) -> Option<
    Seq<char>,
> {
    match env_path {
        Some(p) => Some(
            if p.len() > 0 && p.last() == '/' {
                p
            } else {
                p + "/"@
            },
        ),
        None => match home {
            Some(h) => Some(h + "/.config/lkmv/"@),
            None => None,
        },
    }
}

/// The name of a profile's configuration file: `config.json` for the
/// `default` profile, `config-<profile>.json` otherwise.
pub open spec fn config_file_name(profile: Seq<char>) -> Seq<char> {
    if profile == "default"@ {
        "config.json"@
    } else {
        "config-"@ + profile + ".json"@
    }
}

/// Determines where the config file of `profile` is located.
/// `env_path` is the value of the `LKMV_CONFIG_PATH` environment variable (if
/// set) and `home` the user's home directory (if known).
pub fn get_config_path(env_path: Option<String>, home: Option<String>, profile: &str) -> (res:
    Result<String, LKMVError>)
    ensures
        match config_dir(
            match env_path {
                Some(p) => Some(p@),
                None => None,
            },
            match home {
                Some(h) => Some(h@),
                None => None,
            },
        ) {
            Some(dir) => res matches Ok(path) && path@ == dir + config_file_name(profile@),
            None => res matches Err(LKMVError::Config(msg)) && msg@
                == "Couldn't determine Home directory"@,
        },
{
    let path = if let Some(config_path) = env_path {
        let n = config_path.as_str().unicode_len();
        if n > 0 && config_path.as_str().get_char(n - 1) == '/' {
            config_path
        } else {
            config_path.concat("/")
        }
    } else if let Some(home) = home {
        home.concat("/.config/lkmv/")
    } else {
        return Err(LKMVError::Config("Couldn't determine Home directory".to_owned()));
    };

    if profile.to_owned() == "default".to_owned() {
        Ok(path.concat("config.json"))
    } else {
        Ok(path.concat("config-").concat(profile).concat(".json"))
    }
}

} // verus!
