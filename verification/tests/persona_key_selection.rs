use lkmv::config::KeyTypes;
use lkmv::errors::LKMVError;
use lkmv::logs::UtcTimestamp;
use lkmv::persona_keys::{find_key_info, persona_key_ids, persona_key_sources};
use lkmv::secured_config::{KeyInfoConfig, KeySourceMaterial};

fn ids(v: &[&str]) -> Vec<String> {
    v.iter().map(|s| s.to_string()).collect()
}

fn info(path: &str, secs: i64) -> KeyInfoConfig {
    KeyInfoConfig {
        path: KeySourceMaterial::Derived { path: path.to_string() },
        create_time: UtcTimestamp { secs, nanos: 0 },
        purpose: KeyTypes::PersonaSigning,
    }
}

fn config_error(res: Result<impl std::fmt::Debug, LKMVError>) -> String {
    match res {
        Err(LKMVError::Config(m)) => m,
        other => panic!("unexpected {:?}", other),
    }
}

#[test]
fn persona_key_ids_take_the_first_of_each() {
    let (s, a, d) = persona_key_ids(&ids(&["#key-1", "#key-9"]), &ids(&["#key-2"]), &ids(&["#key-3"])).unwrap();
    assert_eq!((s.as_str(), a.as_str(), d.as_str()), ("#key-1", "#key-2", "#key-3"));
}

#[test]
fn persona_key_ids_report_the_first_missing_method() {
    assert_eq!(
        config_error(persona_key_ids(&ids(&[]), &ids(&[]), &ids(&[]))),
        "DID Document does not contain any assertion methods!"
    );
    assert_eq!(
        config_error(persona_key_ids(&ids(&["a"]), &ids(&[]), &ids(&[]))),
        "DID Document does not contain any authentication methods!"
    );
    assert_eq!(
        config_error(persona_key_ids(&ids(&["a"]), &ids(&["b"]), &ids(&[]))),
        "DID Document does not contain any key agreements!"
    );
}

#[test]
fn key_info_lookup_finds_or_names_the_key() {
    let entries = vec![("#key-1".to_string(), info("m/1'/0'/0'", 5)), ("#key-2".to_string(), info("m/1'/0'/1'", 6))];
    let found = find_key_info(&entries, "#key-2").unwrap();
    assert_eq!(found.create_time.secs, 6);
    assert_eq!(config_error(find_key_info(&entries, "#key-7")), "Couldn't find key info in lkmv Config for (#key-7)");
}

#[test]
fn persona_key_sources_in_order() {
    let entries = vec![
        ("#key-1".to_string(), info("m/1'/0'/0'", 1)),
        ("#key-2".to_string(), info("m/1'/0'/1'", 2)),
        ("#key-3".to_string(), info("m/1'/0'/2'", 3)),
    ];
    let (s, a, d) = persona_key_sources(&ids(&["#key-1"]), &ids(&["#key-2"]), &ids(&["#key-3"]), &entries).unwrap();
    assert_eq!(s.id, "#key-1");
    assert_eq!(a.created.secs, 2);
    assert!(matches!(d.source, KeySourceMaterial::Derived { ref path } if path == "m/1'/0'/2'"));
    assert_eq!(
        config_error(persona_key_sources(&ids(&["#key-1"]), &ids(&["#key-5"]), &ids(&[]), &entries)),
        "Couldn't find key info in lkmv Config for (#key-5)"
    );
}
