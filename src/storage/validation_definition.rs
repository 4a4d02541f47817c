use vstd::prelude::*;

use crate::storage::indexed_store::IndexedStore;
use crate::types::error::{describe, ContractError};
use crate::types::validation_definition::ValidationDefinition;

verus! {

/// The store of definitions is well formed and holds each definition under its lower-case type.
pub open spec fn definitions_keyed(store: &IndexedStore<ValidationDefinition>) -> bool {
    &&& store.well_formed()
    &&& forall|k: Seq<char>| #[trigger] store@.contains_key(k) ==> store@[k].key_of() == k
}

/// Adds a definition under its key; fails if one with that key exists.
pub fn insert_validation_definition(
    store: &mut IndexedStore<ValidationDefinition>,
    definition: ValidationDefinition,
) -> (r: Result<(), ContractError>)
    requires
        definitions_keyed(old(store)),
    ensures
        definitions_keyed(final(store)),
        r is Ok <==> !old(store)@.contains_key(definition.key_of()),
        r is Ok ==> final(store)@ == old(store)@.insert(definition.key_of(), definition),
        r is Err ==> r->Err_0 is RecordAlreadyExists && final(store)@ == old(store)@,
{
    let key = definition.storage_key();
    if store.contains(key.as_str()) {
        Err(
            ContractError::RecordAlreadyExists {
                explanation: describe("a validation definition already exists with type", key.as_str()),
            },
        )
    } else {
        store.replace(key, definition);
        Ok(())
    }
}

/// Replaces the definition stored under the same key; fails if there is none.
pub fn update_validation_definition(
    store: &mut IndexedStore<ValidationDefinition>,
    definition: ValidationDefinition,
) -> (r: Result<(), ContractError>)
    requires
        definitions_keyed(old(store)),
    ensures
        definitions_keyed(final(store)),
        r is Ok <==> old(store)@.contains_key(definition.key_of()),
        r is Ok ==> final(store)@ == old(store)@.insert(definition.key_of(), definition),
        r is Err ==> r->Err_0 is RecordNotFound && final(store)@ == old(store)@,
{
    let key = definition.storage_key();
    if store.contains(key.as_str()) {
        store.replace(key, definition);
        Ok(())
    } else {
        Err(
            ContractError::RecordNotFound {
                explanation: describe("no validation definition exists with type", key.as_str()),
            },
        )
    }
}

/// Stores a definition under its key, in place of any stored there.
pub fn store_validation_definition(
    store: &mut IndexedStore<ValidationDefinition>,
    definition: ValidationDefinition,
)
    requires
        definitions_keyed(old(store)),
    ensures
        definitions_keyed(final(store)),
        final(store)@ == old(store)@.insert(definition.key_of(), definition),
{
    let key = definition.storage_key();
    store.replace(key, definition);
}

/// The definition stored under `key`; fails if there is none.
pub fn get_validation_definition<'a>(store: &'a IndexedStore<ValidationDefinition>, key: &str) -> (r:
    Result<&'a ValidationDefinition, ContractError>)
    requires
        definitions_keyed(store),
    ensures
        r is Err <==> !store@.contains_key(key@),
        r matches Ok(v) ==> *v == store@[key@],
        r matches Err(e) ==> e is RecordNotFound,
{
    match store.maybe_load(key) {
        Some(v) => Ok(v),
        None => Err(
            ContractError::RecordNotFound {
                explanation: describe("no validation definition exists with type", key),
            },
        ),
    }
}

/// The definition stored under `key`, if any.
pub fn may_get_validation_definition<'a>(
    store: &'a IndexedStore<ValidationDefinition>,
    key: &str,
) -> (r: Option<&'a ValidationDefinition>)
    requires
        definitions_keyed(store),
    ensures
        r is None <==> !store@.contains_key(key@),
        r matches Some(v) ==> *v == store@[key@],
{
    store.maybe_load(key)
}

/// Removes and returns the definition stored under `key`; fails if there is none.
pub fn delete_validation_definition_by_key(
    store: &mut IndexedStore<ValidationDefinition>,
    key: &str,
) -> (r: Result<ValidationDefinition, ContractError>)
    requires
        definitions_keyed(old(store)),
    ensures
        definitions_keyed(final(store)),
        r is Ok <==> old(store)@.contains_key(key@),
        r matches Ok(v) ==> v == old(store)@[key@],
        r matches Err(e) ==> e is RecordNotFound,
        final(store)@ == old(store)@.remove(key@),
{
    match store.remove(key) {
        Some(v) => Ok(v),
        None => Err(
            ContractError::RecordNotFound {
                explanation: describe("no validation definition exists with type", key),
            },
        ),
    }
}

} // verus!
