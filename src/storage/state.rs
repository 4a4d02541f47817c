use vstd::prelude::*;

use crate::storage::entity::entities_keyed;
use crate::storage::indexed_store::IndexedStore;
use crate::storage::request::requests_keyed;
use crate::storage::validation_definition::definitions_keyed;
use crate::storage::validator_configuration::configurations_keyed;
use crate::types::contract_info::ContractInfo;
use crate::types::entity::EntityDetail;
use crate::types::error::ContractError;
use crate::types::request::validation_request::ValidationRequestOrder;
use crate::types::validation_definition::ValidationDefinition;
use crate::types::validator_configuration::ValidatorConfiguration;

verus! {

/// Everything the contract stores: its settings and its four repositories, each in a key
/// space of its own.
pub struct ContractStorage {
    pub contract_info: Option<ContractInfo>,
    pub requests: IndexedStore<ValidationRequestOrder>,
    pub definitions: IndexedStore<ValidationDefinition>,
    pub configurations: IndexedStore<ValidatorConfiguration>,
    pub entities: IndexedStore<EntityDetail>,
}

impl ContractStorage {
    /// Every repository is well formed and holds each record under its own key.
    pub open spec fn well_formed(&self) -> bool {
        &&& requests_keyed(&self.requests)
        &&& definitions_keyed(&self.definitions)
        &&& configurations_keyed(&self.configurations)
        &&& entities_keyed(&self.entities)
    }

    /// Storage with no settings and no records.
    pub fn new() -> (r: Self)
        ensures
            r.well_formed(),
            r.contract_info is None,
            r.requests@ == Map::<Seq<char>, ValidationRequestOrder>::empty(),
            r.definitions@ == Map::<Seq<char>, ValidationDefinition>::empty(),
            r.configurations@ == Map::<Seq<char>, ValidatorConfiguration>::empty(),
            r.entities@ == Map::<Seq<char>, EntityDetail>::empty(),
    {
        ContractStorage {
            contract_info: None,
            requests: IndexedStore::new(),
            definitions: IndexedStore::new(),
            configurations: IndexedStore::new(),
            entities: IndexedStore::new(),
        }
    }
}

/// Two storages hold the same settings and records.
pub open spec fn same_contents(a: &ContractStorage, b: &ContractStorage) -> bool {
    &&& a.contract_info == b.contract_info
    &&& a.requests@ == b.requests@
    &&& a.definitions@ == b.definitions@
    &&& a.configurations@ == b.configurations@
    &&& a.entities@ == b.entities@
}

/// Two storages hold the same settings and records but for the validation requests.
pub open spec fn same_but_requests(a: &ContractStorage, b: &ContractStorage) -> bool {
    &&& a.contract_info == b.contract_info
    &&& a.definitions@ == b.definitions@
    &&& a.configurations@ == b.configurations@
    &&& a.entities@ == b.entities@
}

/// Two storages hold the same settings and records but for the validation definitions.
pub open spec fn same_but_definitions(a: &ContractStorage, b: &ContractStorage) -> bool {
    &&& a.contract_info == b.contract_info
    &&& a.requests@ == b.requests@
    &&& a.configurations@ == b.configurations@
    &&& a.entities@ == b.entities@
}

/// Two storages hold the same settings and records but for the validator configurations.
pub open spec fn same_but_configurations(a: &ContractStorage, b: &ContractStorage) -> bool {
    &&& a.contract_info == b.contract_info
    &&& a.requests@ == b.requests@
    &&& a.definitions@ == b.definitions@
    &&& a.entities@ == b.entities@
}

/// Two storages hold the same settings and records but for the entities.
pub open spec fn same_but_entities(a: &ContractStorage, b: &ContractStorage) -> bool {
    &&& a.contract_info == b.contract_info
    &&& a.requests@ == b.requests@
    &&& a.definitions@ == b.definitions@
    &&& a.configurations@ == b.configurations@
}

/// Two storages hold the same records; their settings may differ.
pub open spec fn same_records(a: &ContractStorage, b: &ContractStorage) -> bool {
    &&& a.requests@ == b.requests@
    &&& a.definitions@ == b.definitions@
    &&& a.configurations@ == b.configurations@
    &&& a.entities@ == b.entities@
}

/// Stores the settings, in place of any stored before.
pub fn set_contract_info(storage: &mut ContractStorage, contract_info: ContractInfo) -> (r: Result<
    (),
    ContractError,
>)
    ensures
        r is Ok,
        final(storage).contract_info == Some(contract_info),
        final(storage).requests == old(storage).requests,
        final(storage).definitions == old(storage).definitions,
        final(storage).configurations == old(storage).configurations,
        final(storage).entities == old(storage).entities,
{
    storage.contract_info = Some(contract_info);
    Ok(())
}

/// The stored settings; fails if none were stored.
pub fn get_contract_info(storage: &ContractStorage) -> (r: Result<&ContractInfo, ContractError>)
    ensures
        r is Ok <==> storage.contract_info is Some,
        r matches Ok(info) ==> *info == storage.contract_info->Some_0,
        r matches Err(e) ==> e is StorageError,
{
    match &storage.contract_info {
        Some(info) => Ok(info),
        None => Err(
            ContractError::StorageError { message: String::from_str("no contract settings are stored") },
        ),
    }
}

/// The stored settings, if any.
pub fn may_get_contract_info(storage: &ContractStorage) -> (r: Option<&ContractInfo>)
    ensures
        r is Some <==> storage.contract_info is Some,
        r matches Some(info) ==> *info == storage.contract_info->Some_0,
{
    match &storage.contract_info {
        Some(info) => Some(info),
        None => None,
    }
}

} // verus!
