use lkmv::page_text::{did_keys_lines, token_list_lines, DerivedKeysDisplay, KeyDisplay, TokenInfo};
use lkmv::setup_flow::PersonaKey;

fn token(ident: &str, name: Option<&str>) -> TokenInfo {
    TokenInfo {
        ident: ident.to_string(),
        manufacturer: "Yubico".to_string(),
        cardholder_name: name.map(|n| n.to_string()),
    }
}

#[test]
fn token_list_with_tokens() {
    let lines = token_list_lines(&vec![], &vec![token("0006:1", Some("Ada")), token("0006:2", None)], 1);
    assert_eq!(
        lines,
        vec![
            "Select token to use from detected hardware tokens:",
            "",
            "[ ] Card: 0006:1 Manufacturer: Yubico CardHolder Name: Ada",
            "[\u{2713}] Card: 0006:2 Manufacturer: Yubico CardHolder Name: NOT SET",
            "[ ] Do not use a hardware token",
            "",
            "[R] to rescan for tokens  |  [TAB] to select  |  [ENTER] to continue with selected",
        ]
    );
}

#[test]
fn token_list_without_tokens_shows_errors() {
    let lines = token_list_lines(&vec!["pcsc unavailable".to_string()], &vec![], 0);
    assert_eq!(
        lines,
        vec![
            "ERROR: pcsc unavailable",
            "",
            "No hardware tokens were detected. Ensure tokens are plugged in and rescan.",
            "",
            "[R] to rescan for tokens  |  [ENTER] to continue with no tokens",
        ]
    );
}

#[test]
fn did_keys_page_lines() {
    let key = |t: &str, k: &str| KeyDisplay { key_type: t.to_string(), public_key: k.to_string() };
    let keys = DerivedKeysDisplay {
        signing: key("Ed25519", "z6Mk1"),
        authentication: key("Ed25519", "z6Mk2"),
        decryption: key("X25519", "z6LS3"),
    };
    let lines = did_keys_lines(Some(&keys), Some(PersonaKey::Authentication));
    assert_eq!(lines.len(), 14);
    assert_eq!(lines[2], "Signing Key (Ed25519) created:");
    assert_eq!(lines[3], "\u{1f511} z6Mk1  [1] to copy");
    assert_eq!(lines[6], "\u{1f511} z6Mk2  [2] to copy  (copied!)");
    assert_eq!(lines[7], "");
    assert_eq!(lines[8], "Decryption Key (X25519) created:");
    assert_eq!(lines[13], "[ENTER] Continue to next step");
    let lines = did_keys_lines(None, None);
    assert_eq!(lines[2], "ERROR: Expected to see DID Keys, instead they don't exist!");
    assert_eq!(lines.len(), 6);
}
