use vstd::prelude::*;

use crate::storage::indexed_store::IndexedStore;
use crate::types::error::{describe, ContractError};
use crate::types::validator_configuration::ValidatorConfiguration;

verus! {

/// The store of configurations is well formed and holds each configuration under
/// `validator-validation_type`.
pub open spec fn configurations_keyed(store: &IndexedStore<ValidatorConfiguration>) -> bool {
    &&& store.well_formed()
    &&& forall|k: Seq<char>| #[trigger] store@.contains_key(k) ==> store@[k].key_of() == k
}

/// Adds a configuration under its key; fails if one with that key exists.
pub fn insert_validator_configuration(
    store: &mut IndexedStore<ValidatorConfiguration>,
    configuration: ValidatorConfiguration,
) -> (r: Result<(), ContractError>)
    requires
        configurations_keyed(old(store)),
    ensures
        configurations_keyed(final(store)),
        r is Ok <==> !old(store)@.contains_key(configuration.key_of()),
        r is Ok ==> final(store)@ == old(store)@.insert(configuration.key_of(), configuration),
        r is Err ==> r->Err_0 is RecordAlreadyExists && final(store)@ == old(store)@,
{
    let key = configuration.storage_key();
    if store.contains(key.as_str()) {
        Err(
            ContractError::RecordAlreadyExists {
                explanation: describe("a validator configuration already exists with key", key.as_str()),
            },
        )
    } else {
        store.replace(key, configuration);
        Ok(())
    }
}

/// Replaces the configuration stored under the same key; fails if there is none.
pub fn update_validator_configuration(
    store: &mut IndexedStore<ValidatorConfiguration>,
    configuration: ValidatorConfiguration,
) -> (r: Result<(), ContractError>)
    requires
        configurations_keyed(old(store)),
    ensures
        configurations_keyed(final(store)),
        r is Ok <==> old(store)@.contains_key(configuration.key_of()),
        r is Ok ==> final(store)@ == old(store)@.insert(configuration.key_of(), configuration),
        r is Err ==> r->Err_0 is RecordNotFound && final(store)@ == old(store)@,
{
    let key = configuration.storage_key();
    if store.contains(key.as_str()) {
        store.replace(key, configuration);
        Ok(())
    } else {
        Err(
            ContractError::RecordNotFound {
                explanation: describe("no validator configuration exists with key", key.as_str()),
            },
        )
    }
}

/// Stores a configuration under its key, in place of any stored there.
pub fn store_validator_configuration(
    store: &mut IndexedStore<ValidatorConfiguration>,
    configuration: ValidatorConfiguration,
)
    requires
        configurations_keyed(old(store)),
    ensures
        configurations_keyed(final(store)),
        final(store)@ == old(store)@.insert(configuration.key_of(), configuration),
{
    let key = configuration.storage_key();
    store.replace(key, configuration);
}

/// The configuration stored under `key`; fails if there is none.
pub fn get_validator_configuration<'a>(
    store: &'a IndexedStore<ValidatorConfiguration>,
    key: &str,
) -> (r: Result<&'a ValidatorConfiguration, ContractError>)
    requires
        configurations_keyed(store),
    ensures
        r is Err <==> !store@.contains_key(key@),
        r matches Ok(v) ==> *v == store@[key@],
        r matches Err(e) ==> e is RecordNotFound,
{
    match store.maybe_load(key) {
        Some(v) => Ok(v),
        None => Err(
            ContractError::RecordNotFound {
                explanation: describe("no validator configuration exists with key", key),
            },
        ),
    }
}

/// The configuration stored under `key`, if any.
pub fn may_get_validator_configuration<'a>(
    store: &'a IndexedStore<ValidatorConfiguration>,
    key: &str,
) -> (r: Option<&'a ValidatorConfiguration>)
    requires
        configurations_keyed(store),
    ensures
        r is None <==> !store@.contains_key(key@),
        r matches Some(v) ==> *v == store@[key@],
{
    store.maybe_load(key)
}

} // verus!
