use vstd::prelude::*;

use crate::storage::entity::insert_entity;
use crate::storage::state::{same_but_entities, same_contents, ContractStorage};
use crate::types::entity::EntityDetail;
use crate::types::error::{describe, ContractError};
use crate::types::msg::{Env, MessageInfo};
use crate::util::constants::{ENTITY_ADDRESSES_KEY, EVENT_TYPE_KEY};
use crate::util::event_attributes::{with_metadata, EventAdditionalMetadata, EventAttributes, EventType};
use crate::util::helpers::{entity_changes, get_entity_update};
use crate::util::response::Response;
use crate::util::text::compare_text;

verus! {

/// Whether the caller may write the entity of `address`: settings are stored and the caller is
/// that address or the admin.
pub open spec fn entity_writer(storage: &ContractStorage, info: MessageInfo, address: Seq<char>) -> bool {
    &&& storage.contract_info is Some
    &&& (info.sender@ == address || info.sender@ == storage.contract_info->Some_0.admin@)
}

fn check_entity_writer(storage: &ContractStorage, info: &MessageInfo, address: &str) -> (r: Result<
    (),
    ContractError,
>)
    ensures
        r is Ok <==> entity_writer(storage, *info, address@),
        r matches Err(e) ==> (storage.contract_info is None ==> e is StorageError),
        r matches Err(e) ==> (storage.contract_info is Some ==> e is Unauthorized),
{
    match &storage.contract_info {
        None => Err(
            ContractError::StorageError {
                message: String::from_str("no contract settings are stored"),
            },
        ),
        Some(ci) => {
            if compare_text(info.sender.as_str(), address) != 0 && compare_text(
                info.sender.as_str(),
                ci.admin.as_str(),
            ) != 0 {
                Err(
                    ContractError::Unauthorized {
                        reason: String::from_str(
                            "must be the contract admin to write an entity with a different address",
                        ),
                    },
                )
            } else {
                Ok(())
            }
        },
    }
}

/// Stores a new entity under its address, by that address or the admin; fails, changing
/// nothing, if an entity with that address exists.
pub fn create_new_entity(
    storage: &mut ContractStorage,
    env: &Env,
    info: &MessageInfo,
    entity: EntityDetail,
) -> (r: Result<Response, ContractError>)
    requires
        old(storage).well_formed(),
    ensures
        final(storage).well_formed(),
        r is Ok <==> entity_writer(old(storage), *info, entity.address@)
            && !old(storage).entities@.contains_key(entity.address@),
        entity_writer(old(storage), *info, entity.address@) && r is Err ==> (r matches Err(e)
            && e is RecordAlreadyExists),
        r is Ok ==> final(storage).entities@ == old(storage).entities@.insert(entity.address@, entity)
            && same_but_entities(final(storage), old(storage)),
        r matches Ok(resp) ==> resp.directives@.len() == 0 && resp.attributes@ == seq![
            (EVENT_TYPE_KEY@, EventType::AddEntity.name_text()),
            (ENTITY_ADDRESSES_KEY@, entity.address@),
        ],
        r is Err ==> same_contents(final(storage), old(storage)),
{
    match check_entity_writer(storage, info, entity.address.as_str()) {
        Ok(()) => {},
        Err(e) => {
            return Err(e);
        },
    }
    let addresses = vec![entity.address.clone()];
    match insert_entity(&mut storage.entities, entity) {
        Ok(()) => {},
        Err(e) => {
            return Err(e);
        },
    }
    proof {
        crate::util::text::lemma_join_one(addresses.deep_view(), ", "@);
    }
    let attributes = EventAttributes::new(EventType::AddEntity).set_entity_addresses(&addresses);
    Ok(Response { attributes, directives: Vec::new(), data: None })
}

/// Replaces the entity stored under the same address, by that address or the admin, and
/// publishes the fields that changed; fails, changing nothing, if there is none.
pub fn update_existing_entity(
    storage: &mut ContractStorage,
    env: &Env,
    info: &MessageInfo,
    entity: EntityDetail,
) -> (r: Result<Response, ContractError>)
    requires
        old(storage).well_formed(),
    ensures
        final(storage).well_formed(),
        r is Ok <==> entity_writer(old(storage), *info, entity.address@)
            && old(storage).entities@.contains_key(entity.address@),
        entity_writer(old(storage), *info, entity.address@) && r is Err ==> (r matches Err(e)
            && e is RecordNotFound),
        r is Ok ==> final(storage).entities@ == old(storage).entities@.insert(entity.address@, entity)
            && same_but_entities(final(storage), old(storage)),
        r matches Ok(resp) ==> resp.directives@.len() == 0,
        r matches Ok(resp) ==> exists|m: EventAdditionalMetadata|
            m.well_formed() && m@ == entity_changes(old(storage).entities@[entity.address@], entity)
                && resp.attributes@ == with_metadata(
                seq![(EVENT_TYPE_KEY@, EventType::UpdateEntity.name_text())],
                m,
            ),
        r is Err ==> same_contents(final(storage), old(storage)),
{
    match check_entity_writer(storage, info, entity.address.as_str()) {
        Ok(()) => {},
        Err(e) => {
            return Err(e);
        },
    }
    let ghost given = entity;
    let address = entity.address.clone();
    let previous = match storage.entities.remove(address.as_str()) {
        Some(p) => p,
        None => {
            assert(storage.entities@ =~= old(storage).entities@);
            return Err(
                ContractError::RecordNotFound {
                    explanation: describe(
                        "no entity exists with address",
                        address.as_str(),
                    ),
                },
            );
        },
    };
    let changes = get_entity_update(&previous, &entity);
    storage.entities.replace(address, entity);
    assert(storage.entities@ =~= old(storage).entities@.insert(given.address@, given));
    let attributes = EventAttributes::new(EventType::UpdateEntity).set_additional_metadata(&changes);
    Ok(Response { attributes, directives: Vec::new(), data: None })
}

} // verus!
