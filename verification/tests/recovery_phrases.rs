use lkmv::recovery_phrase::BIP32_39;

const ZERO_PHRASE: &str = "abandon abandon abandon abandon abandon abandon abandon abandon abandon abandon abandon about";

const LEGAL_WINNER_PHRASE: &str = "legal winner thank year wave sausage worth useful legal winner thank year wave sausage worth useful legal winner thank year wave sausage worth title";

#[test]
fn twelve_word_phrase_recovers_zero_entropy() {
    let seed = BIP32_39::from_mnemonic(ZERO_PHRASE).unwrap();
    assert_eq!(seed.to_entropy(), vec![0u8; 16]);
    assert_eq!(seed.word_count(), 12);
    assert_eq!(seed.get_mnemonic_string(), ZERO_PHRASE);
}

#[test]
fn twenty_four_word_phrase_recovers_its_entropy() {
    let seed = BIP32_39::from_mnemonic(LEGAL_WINNER_PHRASE).unwrap();
    assert_eq!(seed.to_entropy(), vec![0x7fu8; 32]);
    assert_eq!(seed.word_count(), 24);
    assert_eq!(seed.get_mnemonic_string(), LEGAL_WINNER_PHRASE);
}

#[test]
fn generated_seed_has_twenty_four_words_and_round_trips() {
    let seed = BIP32_39::default();
    assert_eq!(seed.to_entropy().len(), 32);
    assert_eq!(seed.word_count(), 24);
    let phrase = seed.get_mnemonic_string();
    assert_eq!(phrase.split(' ').count(), 24);
    let recovered = BIP32_39::from_mnemonic(&phrase).unwrap();
    assert_eq!(recovered.to_entropy(), seed.to_entropy());
    assert_eq!(seed.clone().to_entropy(), seed.to_entropy());
}

#[test]
fn two_generated_seeds_differ() {
    assert_ne!(BIP32_39::default().to_entropy(), BIP32_39::default().to_entropy());
}

#[test]
fn phrase_with_bad_checksum_is_refused() {
    let phrase = "abandon abandon abandon abandon abandon abandon abandon abandon abandon abandon abandon abandon";
    assert!(BIP32_39::from_mnemonic(phrase).is_err());
}

#[test]
fn phrase_with_unknown_word_is_refused() {
    assert!(BIP32_39::from_mnemonic("not a recovery phrase at all").is_err());
}

#[test]
fn seed_from_drawn_entropy() {
    let seed = BIP32_39::from_entropy([0x7f; 32]);
    assert_eq!(seed.to_entropy(), vec![0x7fu8; 32]);
    assert_eq!(seed.get_mnemonic_string(), LEGAL_WINNER_PHRASE);
}
