use lkmv::config::{get_config_path, ConfigProtectionType, KeyTypes};
use lkmv::errors::LKMVError;
use lkmv::logs::{LogFamily, LogMessage, Logs, UtcTimestamp};

fn home() -> Option<String> {
    Some("/home/ada".to_string())
}

#[test]
fn default_profile_config_lives_in_home_config_dir() {
    assert_eq!(
        get_config_path(None, home(), "default").unwrap(),
        "/home/ada/.config/lkmv/config.json"
    );
}

#[test]
fn named_profile_config_file_carries_the_profile_name() {
    assert_eq!(
        get_config_path(None, home(), "profile-1").unwrap(),
        "/home/ada/.config/lkmv/config-profile-1.json"
    );
}

#[test]
fn config_path_environment_variable_overrides_home() {
    assert_eq!(
        get_config_path(Some("/etc/lkmv".to_string()), home(), "default").unwrap(),
        "/etc/lkmv/config.json"
    );
    assert_eq!(
        get_config_path(Some("/etc/lkmv/".to_string()), None, "work").unwrap(),
        "/etc/lkmv/config-work.json"
    );
    assert_eq!(get_config_path(Some(String::new()), None, "default").unwrap(), "/config.json");
}

#[test]
fn config_path_without_home_is_an_error() {
    assert!(matches!(get_config_path(None, None, "default"), Err(LKMVError::Config(_))));
}

#[test]
fn protection_token_identifier() {
    let token = ConfigProtectionType::Token("000F:1234".to_string());
    assert_eq!(token.token(), Some(&"000F:1234".to_string()));
    assert_eq!(ConfigProtectionType::Encrypted.token(), None);
    assert_eq!(ConfigProtectionType::Plaintext.token(), None);
    assert!(matches!(ConfigProtectionType::default(), ConfigProtectionType::Encrypted));
}

#[test]
fn key_type_texts() {
    assert_eq!(KeyTypes::PersonaSigning.to_string(), "Persona Signing Key");
    assert_eq!(KeyTypes::PersonaAuthentication.to_string(), "Persona Authentication Key");
    assert_eq!(KeyTypes::PersonaEncryption.to_string(), "Persona Encryption Key");
    assert_eq!(KeyTypes::PersonaOther.to_string(), "Persona Other Key");
    assert_eq!(KeyTypes::RelationshipVerification.to_string(), "Relationship Verification Key");
    assert_eq!(KeyTypes::RelationshipEncryption.to_string(), "Relationship Encryption Key");
    assert_eq!(KeyTypes::WebVHManagement.to_string(), "Web VH Management Key");
    assert_eq!(KeyTypes::Unknown.to_string(), "Unknown Key Type");
    assert_eq!(KeyTypes::default(), KeyTypes::Unknown);
}

#[test]
fn log_family_texts() {
    assert_eq!(LogFamily::Relationship.to_string(), "RELATIONSHIP");
    assert_eq!(LogFamily::Contact.to_string(), "CONTACT");
    assert_eq!(LogFamily::Task.to_string(), "TASK");
    assert_eq!(LogFamily::Config.to_string(), "CONFIG");
}

#[test]
fn default_log_keeps_one_hundred_entries() {
    let logs = Logs::default();
    assert_eq!(logs.limit, 100);
    assert!(logs.messages.is_empty());
}

#[test]
fn log_drops_oldest_entry_when_full() {
    let mut logs = Logs::default();
    for i in 0..101 {
        logs.insert(LogFamily::Task, format!("message {i}"));
    }
    assert_eq!(logs.messages.len(), 100);
    assert_eq!(logs.messages.front().unwrap().message, "message 1");
    assert_eq!(logs.messages.back().unwrap().message, "message 100");
    assert_eq!(logs.messages.back().unwrap().type_, LogFamily::Task);
}

#[test]
fn log_with_room_keeps_every_entry() {
    let mut logs = Logs::default();
    logs.insert(LogFamily::Config, "first".to_string());
    logs.insert(LogFamily::Contact, "second".to_string());
    assert_eq!(logs.messages.len(), 2);
    assert_eq!(logs.messages[0].message, "first");
    assert_eq!(logs.messages[1].type_, LogFamily::Contact);
}

#[test]
fn log_with_zero_limit_keeps_nothing() {
    let mut logs = Logs { messages: Default::default(), limit: 0 };
    logs.insert(LogFamily::Task, "dropped".to_string());
    assert!(logs.messages.is_empty());
}

#[test]
fn overfull_log_keeps_only_the_newest_entries() {
    let entry = |m: &str| LogMessage {
        created: UtcTimestamp { secs: 0, nanos: 0 },
        type_: LogFamily::Relationship,
        message: m.to_string(),
    };
    let mut logs = Logs { messages: Default::default(), limit: 1 };
    logs.messages.push_back(entry("a"));
    logs.messages.push_back(entry("b"));
    logs.push_entry(entry("c"));
    assert_eq!(logs.messages.len(), 1);
    assert_eq!(logs.messages[0].message, "c");
}

#[test]
fn insert_brings_an_overfull_log_back_within_its_limit() {
    let entry = |m: &str| LogMessage {
        created: UtcTimestamp { secs: 0, nanos: 0 },
        type_: LogFamily::Config,
        message: m.to_string(),
    };
    let mut logs = Logs::default();
    logs.limit = 2;
    logs.messages.push_back(entry("a"));
    logs.messages.push_back(entry("b"));
    logs.messages.push_back(entry("c"));
    logs.messages.push_back(entry("d"));
    logs.insert(LogFamily::Task, "e".to_string());
    assert_eq!(logs.messages.len(), 2);
    assert_eq!(logs.messages[0].message, "d");
    assert_eq!(logs.messages[1].message, "e");
    logs.limit = 0;
    logs.insert(LogFamily::Task, "f".to_string());
    assert!(logs.messages.is_empty());
}
