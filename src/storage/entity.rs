use vstd::prelude::*;

use crate::storage::indexed_store::IndexedStore;
use crate::types::entity::EntityDetail;
use crate::types::error::{describe, ContractError};

verus! {

/// The store of entities is well formed and holds each entity under its address.
pub open spec fn entities_keyed(store: &IndexedStore<EntityDetail>) -> bool {
    &&& store.well_formed()
    &&& forall|k: Seq<char>| #[trigger] store@.contains_key(k) ==> store@[k].address@ == k
}

/// Adds an entity under its address; fails if one with that address exists.
pub fn insert_entity(store: &mut IndexedStore<EntityDetail>, entity: EntityDetail) -> (r: Result<
    (),
    ContractError,
>)
    requires
        entities_keyed(old(store)),
    ensures
        entities_keyed(final(store)),
        r is Ok <==> !old(store)@.contains_key(entity.address@),
        r is Ok ==> final(store)@ == old(store)@.insert(entity.address@, entity),
        r is Err ==> r->Err_0 is RecordAlreadyExists && final(store)@ == old(store)@,
{
    let key = entity.address.clone();
    let address = entity.address.clone();
    if store.insert(key, entity) {
        Ok(())
    } else {
        Err(
            ContractError::RecordAlreadyExists {
                explanation: describe("an entity already exists with address", address.as_str()),
            },
        )
    }
}

/// Replaces the entity stored under the same address and returns the one replaced; fails if
/// there is none.
pub fn update_entity(store: &mut IndexedStore<EntityDetail>, entity: EntityDetail) -> (r: Result<
    EntityDetail,
    ContractError,
>)
    requires
        entities_keyed(old(store)),
    ensures
        entities_keyed(final(store)),
        r is Ok <==> old(store)@.contains_key(entity.address@),
        r matches Ok(v) ==> v == old(store)@[entity.address@] && final(store)@ == old(
            store,
        )@.insert(entity.address@, entity),
        r is Err ==> r->Err_0 is RecordNotFound && final(store)@ == old(store)@,
{
    let ghost address = entity.address@;
    match store.remove(entity.address.as_str()) {
        Some(previous) => {
            let key = entity.address.clone();
            store.replace(key, entity);
            assert(store@ =~= old(store)@.insert(address, entity));
            Ok(previous)
        },
        None => {
            assert(store@ =~= old(store)@);
            Err(
                ContractError::RecordNotFound {
                    explanation: describe("no entity exists with address", entity.address.as_str()),
                },
            )
        },
    }
}

/// The entity stored under `address`; fails if there is none.
pub fn get_entity<'a>(store: &'a IndexedStore<EntityDetail>, address: &str) -> (r: Result<
    &'a EntityDetail,
    ContractError,
>)
    requires
        entities_keyed(store),
    ensures
        r is Err <==> !store@.contains_key(address@),
        r matches Ok(v) ==> *v == store@[address@],
        r matches Err(e) ==> e is RecordNotFound,
{
    match store.maybe_load(address) {
        Some(v) => Ok(v),
        None => Err(
            ContractError::RecordNotFound {
                explanation: describe("no entity exists with address", address),
            },
        ),
    }
}

/// The entity stored under `address`, if any.
pub fn may_get_entity<'a>(store: &'a IndexedStore<EntityDetail>, address: &str) -> (r: Option<
    &'a EntityDetail,
>)
    requires
        entities_keyed(store),
    ensures
        r is None <==> !store@.contains_key(address@),
        r matches Some(v) ==> *v == store@[address@],
{
    store.maybe_load(address)
}

/// Removes the entity stored under `address`; fails if there is none.
pub fn delete_entity_by_id(store: &mut IndexedStore<EntityDetail>, address: &str) -> (r: Result<
    (),
    ContractError,
>)
    requires
        entities_keyed(old(store)),
    ensures
        entities_keyed(final(store)),
        r is Ok <==> old(store)@.contains_key(address@),
        final(store)@ == old(store)@.remove(address@),
        r matches Err(e) ==> e is RecordNotFound,
{
    match store.remove(address) {
        Some(_) => Ok(()),
        None => Err(
            ContractError::RecordNotFound {
                explanation: describe("no entity exists with address", address),
            },
        ),
    }
}

} // verus!
