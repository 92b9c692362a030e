//! Picking the persona DID's keys: the first assertion method (signing), the
//! first authentication method and the first key agreement (encryption) of
//! the persona's DID document, each with the key information the profile
//! keeps for it.
//!
//! Looking up the secret of each key in the DIDComm secrets resolver is done
//! by the caller, for the key IDs returned here.

use crate::errors::LKMVError;
use crate::logs::UtcTimestamp;
use crate::secured_config::{KeyInfoConfig, KeySourceMaterial};
use vstd::prelude::*;

verus! {

/// The message when the DID document has no assertion method.
pub open spec fn no_assertion_text() -> Seq<char> {
    "DID Document does not contain any assertion methods!"@
}

/// The message when the DID document has no authentication method.
pub open spec fn no_authentication_text() -> Seq<char> {
    "DID Document does not contain any authentication methods!"@
}

/// The message when the DID document has no key agreement.
pub open spec fn no_key_agreement_text() -> Seq<char> {
    "DID Document does not contain any key agreements!"@
}

/// The message when the profile keeps no key information for key `id`.
pub open spec fn missing_key_info_text(id: Seq<char>) -> Seq<char> {
    "Couldn't find key info in lkmv Config for ("@ + id + ")"@
}

/// The key information kept for key `id`: that of the first entry with that
/// key ID.
pub open spec fn key_info_lookup(entries: Seq<(String, KeyInfoConfig)>, id: Seq<char>) -> Option<
    KeyInfoConfig,
>
    decreases entries.len(),
{
    if entries.len() == 0 {
        None
    } else if entries[0].0@ == id {
        Some(entries[0].1)
    } else {
        key_info_lookup(entries.drop_first(), id)
    }
}

/// The IDs of the persona's keys: the first assertion method, the first
/// authentication method and the first key agreement. A document without one
/// of them is refused, naming the first kind that is missing.
pub fn persona_key_ids(
    assertion: &Vec<String>,
    authentication: &Vec<String>,
    key_agreement: &Vec<String>,
) -> (res: Result<(String, String, String), LKMVError>)
    ensures
        assertion@.len() == 0 ==> (res matches Err(LKMVError::Config(m)) && m@
            == no_assertion_text()),
        assertion@.len() > 0 && authentication@.len() == 0 ==> (res matches Err(
            LKMVError::Config(m),
        ) && m@ == no_authentication_text()),
        assertion@.len() > 0 && authentication@.len() > 0 && key_agreement@.len() == 0
            ==> (res matches Err(LKMVError::Config(m)) && m@ == no_key_agreement_text()),
        assertion@.len() > 0 && authentication@.len() > 0 && key_agreement@.len() > 0
            ==> (res matches Ok(ids) && ids.0 == assertion@[0] && ids.1 == authentication@[0]
            && ids.2 == key_agreement@[0]),
{
    if assertion.len() == 0 {
        return Err(LKMVError::Config("DID Document does not contain any assertion methods!".to_owned()));
    }
    if authentication.len() == 0 {
        return Err(
            LKMVError::Config("DID Document does not contain any authentication methods!".to_owned()),
        );
    }
    if key_agreement.len() == 0 {
        return Err(LKMVError::Config("DID Document does not contain any key agreements!".to_owned()));
    }
    Ok((assertion[0].clone(), authentication[0].clone(), key_agreement[0].clone()))
}

/// The key information kept for key `id`, or the configuration error that
/// names the key.
pub fn find_key_info(entries: &Vec<(String, KeyInfoConfig)>, id: &str) -> (res: Result<
    KeyInfoConfig,
    LKMVError,
>)
    ensures
        match key_info_lookup(entries@, id@) {
            Some(info) => res == Ok::<KeyInfoConfig, LKMVError>(info),
            None => res matches Err(LKMVError::Config(m)) && m@ == missing_key_info_text(id@),
        },
{
    let key = id.to_owned();
    let mut i: usize = 0;
    assert(entries@.subrange(0, entries@.len() as int) =~= entries@);
    while i < entries.len()
        invariant
            i <= entries@.len(),
            key@ == id@,
            key_info_lookup(entries@, id@) == key_info_lookup(
                entries@.subrange(i as int, entries@.len() as int),
                id@,
            ),
        decreases entries@.len() - i,
    {
        let ghost rest = entries@.subrange(i as int, entries@.len() as int);
        assert(rest[0] == entries@[i as int]);
        if entries[i].0 == key {
            return Ok(entries[i].1.clone());
        }
        assert(rest.drop_first() =~= entries@.subrange(i + 1, entries@.len() as int));
        i = i + 1;
    }
    assert(entries@.subrange(i as int, entries@.len() as int).len() == 0);
    Err(LKMVError::Config("Couldn't find key info in lkmv Config for (".to_owned().concat(id).concat(")")))
}

/// One persona key: its ID, where its key material came from and when it was
/// created.
#[derive(Clone, Debug)]
pub struct PersonaKeySource {
    pub id: String,
    pub source: KeySourceMaterial,
    pub created: UtcTimestamp,
}

/// What [persona_key_sources] gives for the key `id`, when key
/// information is kept for it.
pub open spec fn key_source_of(id: String, info: KeyInfoConfig) -> PersonaKeySource {
    PersonaKeySource { id, source: info.path, created: info.create_time }
}

/// The signing, authentication and encryption keys of the persona with their
/// key information, in that order; the first missing method or key
/// information is reported.
pub fn persona_key_sources(
    assertion: &Vec<String>,
    authentication: &Vec<String>,
    key_agreement: &Vec<String>,
    key_info: &Vec<(String, KeyInfoConfig)>,
) -> (res: Result<(PersonaKeySource, PersonaKeySource, PersonaKeySource), LKMVError>)
    ensures
        ({
            let lookup = |id: String| key_info_lookup(key_info@, id@);
            if assertion@.len() == 0 {
                res matches Err(LKMVError::Config(m)) && m@ == no_assertion_text()
            } else if lookup(assertion@[0]) is None {
                res matches Err(LKMVError::Config(m)) && m@ == missing_key_info_text(
                    assertion@[0]@,
                )
            } else if authentication@.len() == 0 {
                res matches Err(LKMVError::Config(m)) && m@ == no_authentication_text()
            } else if lookup(authentication@[0]) is None {
                res matches Err(LKMVError::Config(m)) && m@ == missing_key_info_text(
                    authentication@[0]@,
                )
            } else if key_agreement@.len() == 0 {
                res matches Err(LKMVError::Config(m)) && m@ == no_key_agreement_text()
            } else if lookup(key_agreement@[0]) is None {
                res matches Err(LKMVError::Config(m)) && m@ == missing_key_info_text(
                    key_agreement@[0]@,
                )
            } else {
                res == Ok::<(PersonaKeySource, PersonaKeySource, PersonaKeySource), LKMVError>(
                    (
                        key_source_of(assertion@[0], lookup(assertion@[0])->Some_0),
                        key_source_of(authentication@[0], lookup(authentication@[0])->Some_0),
                        key_source_of(key_agreement@[0], lookup(key_agreement@[0])->Some_0),
                    ),
                )
            }
        }),
{
    if assertion.len() == 0 {
        return Err(LKMVError::Config("DID Document does not contain any assertion methods!".to_owned()));
    }
    let signing_id = assertion[0].clone();
    let signing = find_key_info(key_info, signing_id.as_str())?;
    if authentication.len() == 0 {
        return Err(
            LKMVError::Config("DID Document does not contain any authentication methods!".to_owned()),
        );
    }
    let authentication_id = authentication[0].clone();
    let auth = find_key_info(key_info, authentication_id.as_str())?;
    if key_agreement.len() == 0 {
        return Err(LKMVError::Config("DID Document does not contain any key agreements!".to_owned()));
    }
    let decryption_id = key_agreement[0].clone();
    let dec = find_key_info(key_info, decryption_id.as_str())?;
    Ok(
        (
            PersonaKeySource { id: signing_id, source: signing.path, created: signing.create_time },
            PersonaKeySource { id: authentication_id, source: auth.path, created: auth.create_time },
            PersonaKeySource { id: decryption_id, source: dec.path, created: dec.create_time },
        ),
    )
}

} // verus!
