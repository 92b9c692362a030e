//! The BIP39 recovery phrase from which all key material of a profile is
//! derived.
//!
//! The phrase encodes the entropy that seeds the BIP32 key derivation. It is
//! shown to the user once, and typing it in again recovers the same entropy,
//! and with it the same DID secrets.

use bip39::Mnemonic;
use rand::RngCore;
use vstd::prelude::*;

verus! {

/// Entropy lengths (in bytes) that BIP39 phrases encode: 16, 20, 24, 28 or
/// 32 bytes (12 to 24 words).
pub open spec fn valid_entropy_len(len: nat) -> bool {
    16 <= len <= 32 && len % 4 == 0
}

/// The English BIP39 words that encode `entropy`.
pub uninterp spec fn bip39_english_words(entropy: Seq<u8>) -> Seq<Seq<char>>;

/// What parsing the BIP39 phrase `phrase` gives: the entropy it encodes, or
/// the text of the error that makes it invalid.
pub uninterp spec fn bip39_phrase_parse(phrase: Seq<char>) -> Result<Seq<u8>, Seq<char>>;

/// The entropy that the BIP39 phrase `phrase` encodes, or `None` when it is
/// not a valid phrase.
pub open spec fn bip39_phrase_entropy(phrase: Seq<char>) -> Option<Seq<u8>> {
    match bip39_phrase_parse(phrase) {
        Ok(entropy) => Some(entropy),
        Err(_) => None,
    }
}

/// Words separated by single spaces.
pub open spec fn join_words(words: Seq<Seq<char>>) -> Seq<char>
    decreases words.len(),
{
    if words.len() == 0 {
        Seq::empty()
    } else if words.len() == 1 {
        words[0]
    } else {
        join_words(words.drop_last()) + " "@ + words.last()
    }
}

/// Calls `bip39::Mnemonic::from_entropy` and reads the mnemonic's words.
/// Claimed: it succeeds exactly for the entropy lengths that BIP39 allows,
/// and then gives the named words, three words for every four bytes of
/// entropy.
#[verifier::external_body]
fn mnemonic_words(entropy: &[u8]) -> (res: Result<Vec<String>, String>)
    ensures
        res is Ok <==> valid_entropy_len(entropy@.len()),
        res matches Ok(words) ==> words@.map_values(|w: String| w@) == bip39_english_words(
            entropy@,
        ),
        res matches Ok(words) ==> words@.len() == entropy@.len() * 3 / 4,
{
    Mnemonic::from_entropy(entropy).map(|m| m.words().map(|w| w.to_string()).collect()).map_err(
        |e| e.to_string(),
    )
}

/// Calls `bip39::Mnemonic::parse` and reads the mnemonic's entropy
/// (`Mnemonic::to_entropy`). Claimed: the result is the named parse of the
/// phrase (its entropy, or the text the parse error displays), of a length that BIP39 allows, and the words of some entropy,
/// separated by single spaces, parse back to that entropy.
#[verifier::external_body]
fn phrase_entropy(phrase: &str) -> (res: Result<Vec<u8>, String>)
    ensures
        match res {
            Ok(entropy) => bip39_phrase_parse(phrase@) == Ok::<Seq<u8>, Seq<char>>(entropy@),
            Err(reason) => bip39_phrase_parse(phrase@) == Err::<Seq<u8>, Seq<char>>(reason@),
        },
        res matches Ok(entropy) ==> valid_entropy_len(entropy@.len()),
        forall|entropy: Seq<u8>|
            valid_entropy_len(entropy.len()) && phrase@ == join_words(
                bip39_english_words(entropy),
            ) ==> res is Ok && res->Ok_0@ == entropy,
{
    Mnemonic::parse(phrase).map(|m| m.to_entropy()).map_err(|e| e.to_string())
}

/// Calls `rand::RngCore::fill_bytes` on `rand::thread_rng()`. Nothing is
/// claimed of the bytes.
#[verifier::external_body]
fn random_entropy() -> [u8; 32] {
    let mut entropy = [0u8; 32];
    rand::thread_rng().fill_bytes(&mut entropy);
    entropy
}

/// Joins words with single spaces.
fn join_with_spaces(words: &Vec<String>) -> (joined: String)
    ensures
        joined@ == join_words(words@.map_values(|w: String| w@)),
{
    let ghost views = words@.map_values(|w: String| w@);
    let mut joined = String::new();
    let mut i: usize = 0;
    while i < words.len()
        invariant
            i <= words@.len(),
            views == words@.map_values(|w: String| w@),
            joined@ == join_words(views.take(i as int)),
        decreases words@.len() - i,
    {
        assert(views.take(i + 1).drop_last() =~= views.take(i as int));
        if i == 0 {
            joined = words[i].clone();
        } else {
            joined = joined.concat(" ").concat(words[i].as_str());
        }
        i = i + 1;
    }
    assert(views.take(words@.len() as int) =~= views);
    joined
}

/// The BIP32 seed of a profile, as the entropy of its BIP39 recovery phrase.
#[derive(Debug)]
#[allow(non_camel_case_types)]
pub struct BIP32_39 {
    entropy: Vec<u8>,
}

impl Clone for BIP32_39 {
    fn clone(&self) -> (copy: Self)
        ensures
            copy@ == self@,
    {
        proof {
            use_type_invariant(self);
        }
        BIP32_39 { entropy: self.entropy.clone() }
    }
}

impl View for BIP32_39 {
    type V = Seq<u8>;

    closed spec fn view(&self) -> Seq<u8> {
        self.entropy@
    }
}

impl Default for BIP32_39 {
    /// A new seed from 256 bits of fresh entropy (a 24 word phrase).
    fn default() -> (seed: Self)
        ensures
            seed@.len() == 32,
    {
        BIP32_39::from_entropy(random_entropy())
    }
}

impl BIP32_39 {
    #[verifier::type_invariant]
    spec fn entropy_len_is_valid(self) -> bool {
        valid_entropy_len(self.entropy@.len())
    }

    /// The seed for 256 bits of entropy (a 24 word phrase).
    pub fn from_entropy(entropy: [u8; 32]) -> (seed: Self)
        ensures
            seed@ == entropy@,
    {
        let mut bytes: Vec<u8> = Vec::new();
        let mut i: usize = 0;
        while i < 32
            invariant
                i <= 32,
                bytes@ == entropy@.take(i as int),
            decreases 32 - i,
        {
            bytes.push(entropy[i]);
            i = i + 1;
            assert(bytes@ =~= entropy@.take(i as int));
        }
        assert(entropy@.take(32) =~= entropy@);
        BIP32_39 { entropy: bytes }
    }

    /// Recovers the seed from a recovery phrase.
    ///
    /// Typing in the phrase that [Self::get_mnemonic_string] showed recovers the
    /// same seed.
    pub fn from_mnemonic(phrase: &str) -> (res: Result<Self, String>)
        ensures
            match res {
                Ok(seed) => bip39_phrase_entropy(phrase@) == Some(seed@),
                Err(reason) => bip39_phrase_parse(phrase@) == Err::<Seq<u8>, Seq<char>>(reason@),
            },
            forall|entropy: Seq<u8>|
                valid_entropy_len(entropy.len()) && phrase@ == join_words(
                    bip39_english_words(entropy),
                ) ==> res is Ok && res->Ok_0@ == entropy,
    {
        match phrase_entropy(phrase) {
            Ok(entropy) => Ok(BIP32_39 { entropy }),
            Err(reason) => Err(reason),
        }
    }

    /// The entropy that seeds the BIP32 key derivation.
    pub fn to_entropy(&self) -> (entropy: Vec<u8>)
        ensures
            entropy@ == self@,
            valid_entropy_len(entropy@.len()),
    {
        proof {
            use_type_invariant(self);
        }
        self.entropy.clone()
    }

    /// Returns a string representing the mnemonic words representing the BIP32 seed
    pub fn get_mnemonic_string(&self) -> (phrase: String)
        ensures
            phrase@ == join_words(bip39_english_words(self@)),
    {
        proof {
            use_type_invariant(self);
        }
        match mnemonic_words(self.entropy.as_slice()) {
            Ok(words) => join_with_spaces(&words),
            Err(_) => {
                proof {
                    assert(false);
                }
                String::new()
            },
        }
    }

    /// The number of words of the recovery phrase.
    pub fn word_count(&self) -> (count: usize)
        ensures
            count == self@.len() * 3 / 4,
            count == bip39_english_words(self@).len(),
    {
        proof {
            use_type_invariant(self);
        }
        match mnemonic_words(self.entropy.as_slice()) {
            Ok(words) => {
                assert(words@.map_values(|w: String| w@).len() == words@.len());
                words.len()
            },
            Err(_) => {
                proof {
                    assert(false);
                }
                0
            },
        }
    }
}

} // verus!
