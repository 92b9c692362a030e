use lkmv::backup::{
    open_exported_config, passphrase_unlock_code, reseal_imported_config, seal_exported_config,
};
use lkmv::config::ConfigProtectionType;
use lkmv::crypto::{unlock_code_decrypt, unlock_code_encrypt};
use lkmv::errors::OSTCError;
use lkmv::secured_config::{
    ProtectionMethod, SecuredConfigFormat, SecuredConfigSealing, UnlockCode, UnlockedSecuredConfig,
};

fn hex(bytes: &[u8]) -> String {
    bytes.iter().map(|b| format!("{:02x}", b)).collect()
}

#[test]
fn unlock_code_is_sha256_of_passphrase() {
    let code = UnlockCode::from_string("abc");
    assert_eq!(
        hex(code.bytes()),
        "ba7816bf8f01cfea414140de5dae2223b00361a396177a9cb410ff61f20015ad"
    );
    assert_eq!(&passphrase_unlock_code("abc"), code.bytes());
}

#[test]
fn unlock_code_encryption_round_trip() {
    let key = [7u8; 32];
    let data = b"{\"bip32_seed\":\"seed\"}".to_vec();
    let sealed = unlock_code_encrypt(&key, &data).unwrap();
    assert_eq!(sealed.len(), data.len() + 16);
    assert_ne!(sealed[..data.len()], data[..]);
    assert_eq!(unlock_code_decrypt(&key, &sealed).unwrap(), data);
    // Deterministic for the same unlock code.
    assert_eq!(unlock_code_encrypt(&key, &data).unwrap(), sealed);
}

#[test]
fn unlock_code_decryption_with_wrong_code_fails() {
    let sealed = unlock_code_encrypt(&[1u8; 32], b"secret").unwrap();
    assert!(matches!(unlock_code_decrypt(&[2u8; 32], &sealed), Err(OSTCError::Decrypt(_))));
    let mut tampered = sealed.clone();
    tampered[0] ^= 1;
    assert!(matches!(unlock_code_decrypt(&[1u8; 32], &tampered), Err(OSTCError::Decrypt(_))));
    assert!(matches!(unlock_code_decrypt(&[1u8; 32], &[0u8; 5]), Err(OSTCError::Decrypt(_))));
}

#[test]
fn export_then_import_gives_back_the_configuration() {
    let config = b"{\"pc\":{},\"sc\":{}}".to_vec();
    let text = seal_exported_config("MyPassphrase", &config).unwrap();
    assert!(text.chars().all(|c| c.is_ascii_alphanumeric() || c == '-' || c == '_'));
    assert_eq!(open_exported_config("MyPassphrase", &text).unwrap(), config);
}

#[test]
fn import_with_other_passphrase_fails() {
    let text = seal_exported_config("MyPassphrase", b"settings").unwrap();
    assert!(matches!(open_exported_config("Other", &text), Err(OSTCError::Decrypt(_))));
}

#[test]
fn import_of_non_base64_fails() {
    assert!(matches!(open_exported_config("MyPassphrase", "not base64!"), Err(OSTCError::Base64(_))));
}

#[test]
fn plaintext_secured_config_is_base64_of_the_input() {
    match SecuredConfigFormat::seal(b"hello", None, None).unwrap() {
        SecuredConfigSealing::Sealed(SecuredConfigFormat::PlainText { text }) => {
            assert_eq!(text, "aGVsbG8");
            let format = SecuredConfigFormat::PlainText { text };
            match format.unlock(None, None).unwrap() {
                UnlockedSecuredConfig::Serialized(bytes) => assert_eq!(bytes, b"hello"),
                other => panic!("unexpected {:?}", other),
            }
        }
        other => panic!("unexpected {:?}", other),
    }
}

#[test]
fn password_secured_config_round_trip() {
    let code = UnlockCode::from_string("unlock me");
    let unlock = code.bytes().to_vec();
    let input = b"{\"bip32_seed\":\"abc\",\"key_info\":{}}".to_vec();
    let format = match SecuredConfigFormat::seal(&input, None, Some(&unlock)).unwrap() {
        SecuredConfigSealing::Sealed(format @ SecuredConfigFormat::PasswordEncrypted { .. }) => format,
        other => panic!("unexpected {:?}", other),
    };
    assert_eq!(ProtectionMethod::from(format.clone()), ProtectionMethod::PasswordEncrypted);
    match format.unlock(None, Some(&code)).unwrap() {
        UnlockedSecuredConfig::Serialized(bytes) => assert_eq!(bytes, input),
        other => panic!("unexpected {:?}", other),
    }
    let wrong = UnlockCode::from_string("wrong");
    assert!(matches!(format.unlock(None, Some(&wrong)), Err(OSTCError::Decrypt(_))));
    assert!(matches!(format.unlock(None, None), Err(OSTCError::Config(_))));
}

#[test]
fn password_sealing_uses_first_32_bytes_of_unlock_material() {
    let mut long = vec![9u8; 32];
    long.extend_from_slice(b"ignored tail");
    let code_bytes = [9u8; 32];
    let sealed = SecuredConfigFormat::seal(b"x", None, Some(&long)).unwrap();
    let expected = unlock_code_encrypt(&code_bytes, b"x").unwrap();
    match sealed {
        SecuredConfigSealing::Sealed(SecuredConfigFormat::PasswordEncrypted { data }) => {
            let other = SecuredConfigFormat::seal(b"x", None, Some(&code_bytes.to_vec())).unwrap();
            match other {
                SecuredConfigSealing::Sealed(SecuredConfigFormat::PasswordEncrypted { data: d2 }) => {
                    assert_eq!(data, d2)
                }
                o => panic!("unexpected {:?}", o),
            }
            assert_eq!(expected.len(), 17);
        }
        other => panic!("unexpected {:?}", other),
    }
}

#[test]
fn token_secured_config_needs_the_token() {
    let token = "000F:12345678".to_string();
    match SecuredConfigFormat::seal(b"data", Some(&token), None).unwrap() {
        SecuredConfigSealing::NeedsToken { token: t } => assert_eq!(t, token),
        other => panic!("unexpected {:?}", other),
    }
    let format = SecuredConfigFormat::token_encrypted(b"session key", b"encrypted data");
    assert_eq!(ProtectionMethod::from(format.clone()), ProtectionMethod::TokenEncrypted);
    match format.unlock(Some(&token), None).unwrap() {
        UnlockedSecuredConfig::NeedsToken { token: t, esk, data } => {
            assert_eq!(t, token);
            assert_eq!(esk, b"session key");
            assert_eq!(data, b"encrypted data");
        }
        other => panic!("unexpected {:?}", other),
    }
    assert!(matches!(format.unlock(None, None), Err(OSTCError::Config(_))));
}

#[test]
fn corrupted_secured_config_text_is_a_base64_error() {
    let plain = SecuredConfigFormat::PlainText { text: "***".to_string() };
    assert!(matches!(plain.unlock(None, None), Err(OSTCError::Base64(_))));
    let token = SecuredConfigFormat::TokenEncrypted { esk: "!!".to_string(), data: "AA".to_string() };
    assert!(matches!(token.unlock(Some(&"t".to_string()), None), Err(OSTCError::Base64(_))));
    let pw = SecuredConfigFormat::PasswordEncrypted { data: "@@".to_string() };
    let code = UnlockCode::from_string("x");
    assert!(matches!(pw.unlock(None, Some(&code)), Err(OSTCError::Base64(_))));
}

#[test]
fn protection_method_of_each_format() {
    assert_eq!(
        ProtectionMethod::from(SecuredConfigFormat::PlainText { text: String::new() }),
        ProtectionMethod::PlainText
    );
    assert_eq!(ProtectionMethod::default(), ProtectionMethod::Unknown);
}

#[test]
fn imported_config_is_resealed_under_the_new_passphrase() {
    let serialized = b"{\"bip32_seed\":\"abc\"}".to_vec();
    let sealed = match reseal_imported_config(&ConfigProtectionType::Encrypted, "new pass", &serialized).unwrap() {
        SecuredConfigSealing::Sealed(format) => format,
        other => panic!("unexpected {:?}", other),
    };
    match sealed.unlock(None, Some(&UnlockCode::from_string("new pass"))).unwrap() {
        UnlockedSecuredConfig::Serialized(bytes) => assert_eq!(bytes, serialized),
        other => panic!("unexpected {:?}", other),
    }
    assert!(sealed.unlock(None, Some(&UnlockCode::from_string("import pass"))).is_err());
    match reseal_imported_config(&ConfigProtectionType::Token("0006:42".to_string()), "p", &serialized).unwrap() {
        SecuredConfigSealing::NeedsToken { token } => assert_eq!(token, "0006:42"),
        other => panic!("unexpected {:?}", other),
    }
}
