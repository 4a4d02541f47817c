use vstd::prelude::*;

use crate::execute::entity::{create_new_entity, entity_writer, update_existing_entity};
use crate::execute::update_settings::{settings_update_valid, update_settings, updated_settings};
use crate::execute::validation_definition::{
    admin_call, create_new_validation_definition, definition_of, definition_update_succeeds,
    merged_definition,
    delete_validation_definition, update_existing_validation_definition,
};
use crate::execute::validation_request::{
    create_request_for_validation, delete_request_for_validation, update_request_for_validation,
    update_succeeds, updated_requests,
};
use crate::execute::validator_configuration::{
    configuration_of, create_new_validator_configuration, subject_or_admin_call,
    update_existing_validator_configuration,
};
use crate::migrate::{migrate_contract, migrated, valid_migration_target};
use crate::storage::state::{
    same_but_configurations, same_but_definitions, same_but_entities, same_but_requests,
    same_contents, same_records, ContractStorage,
};
use crate::types::validator_configuration::{configuration_key, ValidatorConfiguration};
use crate::util::create_request_utilities::new_request_order;
use crate::util::text::lower_of;
use crate::types::contract_info::{CONTRACT_TYPE, CONTRACT_VERSION};
use crate::types::entity::EntityDetail;
use crate::types::error::ContractError;
use crate::types::msg::{Env, MessageInfo, MigrateMsg};
use crate::types::request::settings_update::SettingsUpdate;
use crate::types::request::validation_definition::{
    ValidationDefinitionCreationRequest, ValidationDefinitionUpdateRequest,
};
use crate::types::request::validation_request::{ValidationRequest, ValidationRequestUpdate};
use crate::types::request::validator_configuration::{
    ValidatorConfigurationCreationRequest, ValidatorConfigurationUpdateRequest,
};
use crate::util::response::Response;

verus! {

/// The operations that change the contract's storage, one variant each.
#[derive(Clone, Debug, PartialEq, Eq)]
pub enum ExecuteMsg {
    CreateEntity { entity: EntityDetail },
    UpdateEntity { entity: EntityDetail },
    CreateValidationDefinition { request: ValidationDefinitionCreationRequest },
    UpdateValidationDefinition { request: ValidationDefinitionUpdateRequest },
    DeleteValidationDefinition { validation_type: String },
    RequestValidation { request: ValidationRequest },
    UpdateValidationRequest { request: ValidationRequestUpdate },
    DeleteValidationRequest { id: String },
    CreateValidatorConfiguration { request: ValidatorConfigurationCreationRequest },
    UpdateValidatorConfiguration { request: ValidatorConfigurationUpdateRequest },
    UpdateSettings { update: SettingsUpdate },
}

/// Whether an operation succeeds on storage `s`: exactly when the operation it names does.
pub open spec fn execute_succeeds(s: &ContractStorage, info: MessageInfo, msg: ExecuteMsg) -> bool {
    match msg {
        ExecuteMsg::CreateEntity { entity } => entity_writer(s, info, entity.address@)
            && !s.entities@.contains_key(entity.address@),
        ExecuteMsg::UpdateEntity { entity } => entity_writer(s, info, entity.address@)
            && s.entities@.contains_key(entity.address@),
        ExecuteMsg::CreateValidationDefinition { request } => admin_call(s, info)
            && !s.definitions@.contains_key(lower_of(request.validation_type@)),
        ExecuteMsg::UpdateValidationDefinition { request } => definition_update_succeeds(
            s,
            info,
            request,
        ),
        ExecuteMsg::DeleteValidationDefinition { validation_type } => admin_call(s, info)
            && s.definitions@.contains_key(validation_type@),
        ExecuteMsg::RequestValidation { request } => !s.requests@.contains_key(request.id@)
            && s.contract_info is Some && new_request_order(request, info.sender).is_complete(),
        ExecuteMsg::UpdateValidationRequest { request } => update_succeeds(s.requests@, request),
        ExecuteMsg::DeleteValidationRequest { id } => s.requests@.contains_key(id@),
        ExecuteMsg::CreateValidatorConfiguration { request } => subject_or_admin_call(
            s,
            info,
            request.validator@,
        ) && s.entities@.contains_key(request.validator@) && !s.configurations@.contains_key(
            configuration_key(request.validator@, request.validation_type@),
        ),
        ExecuteMsg::UpdateValidatorConfiguration { request } => subject_or_admin_call(
            s,
            info,
            request.validator@,
        ) && request.validation_costs is Some && s.configurations@.contains_key(
            configuration_key(request.validator@, request.validation_type@),
        ),
        ExecuteMsg::UpdateSettings { update } => settings_update_valid(update)
            && s.contract_info is Some && info.sender@ == s.contract_info->Some_0.admin@
            && info.funds@.len() == 0,
    }
}

/// What a successful operation leaves in storage: what the operation it names stores.
pub open spec fn executed(
    before: &ContractStorage,
    after: &ContractStorage,
    info: MessageInfo,
    msg: ExecuteMsg,
) -> bool {
    match msg {
        ExecuteMsg::CreateEntity { entity } => after.entities@ == before.entities@.insert(
            entity.address@,
            entity,
        ) && same_but_entities(after, before),
        ExecuteMsg::UpdateEntity { entity } => after.entities@ == before.entities@.insert(
            entity.address@,
            entity,
        ) && same_but_entities(after, before),
        ExecuteMsg::CreateValidationDefinition { request } => after.definitions@
            == before.definitions@.insert(lower_of(request.validation_type@), definition_of(request))
            && same_but_definitions(after, before),
        ExecuteMsg::UpdateValidationDefinition { request } => same_but_definitions(after, before)
            && after.definitions@ == match request.new_key() {
            Some(k) => before.definitions@.remove(request.old_key()).insert(
                k,
                merged_definition(before.definitions@[request.old_key()], request),
            ),
            None => before.definitions@.insert(
                request.old_key(),
                merged_definition(before.definitions@[request.old_key()], request),
            ),
        },
        ExecuteMsg::DeleteValidationDefinition { validation_type } => after.definitions@
            == before.definitions@.remove(validation_type@) && same_but_definitions(after, before),
        ExecuteMsg::RequestValidation { request } => after.requests@ == before.requests@.insert(
            request.id@,
            new_request_order(request, info.sender),
        ) && same_but_requests(after, before),
        ExecuteMsg::UpdateValidationRequest { request } => after.requests@ == updated_requests(
            before.requests@,
            request,
        ) && same_but_requests(after, before),
        ExecuteMsg::DeleteValidationRequest { id } => after.requests@ == before.requests@.remove(
            id@,
        ) && same_but_requests(after, before),
        ExecuteMsg::CreateValidatorConfiguration { request } => after.configurations@
            == before.configurations@.insert(
            configuration_key(request.validator@, request.validation_type@),
            configuration_of(request),
        ) && same_but_configurations(after, before),
        ExecuteMsg::UpdateValidatorConfiguration { request } => after.configurations@
            == before.configurations@.insert(
            configuration_key(request.validator@, request.validation_type@),
            ValidatorConfiguration {
                validation_costs: request.validation_costs->Some_0,
                validation_type: request.validation_type,
                validator: request.validator,
            },
        ) && same_but_configurations(after, before),
        ExecuteMsg::UpdateSettings { update } => after.contract_info == Some(
            updated_settings(before.contract_info->Some_0, update),
        ) && same_records(after, before),
    }
}

/// Carries out the operation that `msg` names. It succeeds exactly when that operation does and
/// then stores what that operation stores; every operation is all or nothing: when it fails,
/// the storage holds exactly what it held before.
pub fn execute(storage: &mut ContractStorage, env: &Env, info: &MessageInfo, msg: ExecuteMsg) -> (r:
    Result<Response, ContractError>)
    requires
        old(storage).well_formed(),
    ensures
        final(storage).well_formed(),
        r is Ok <==> execute_succeeds(old(storage), *info, msg),
        r is Ok ==> executed(old(storage), final(storage), *info, msg),
        r is Err ==> same_contents(final(storage), old(storage)),
{
    match msg {
        ExecuteMsg::CreateEntity { entity } => create_new_entity(&mut *storage, env, info, entity),
        ExecuteMsg::UpdateEntity { entity } => update_existing_entity(&mut *storage, env, info, entity),
        ExecuteMsg::CreateValidationDefinition { request } => create_new_validation_definition(&mut *storage,
            env,
            info,
            request,
        ),
        ExecuteMsg::UpdateValidationDefinition { request } => update_existing_validation_definition(&mut *storage,
            env,
            info,
            request,
        ),
        ExecuteMsg::DeleteValidationDefinition { validation_type } => delete_validation_definition(&mut *storage,
            env,
            info,
            validation_type.as_str(),
        ),
        ExecuteMsg::RequestValidation { request } => create_request_for_validation(&mut *storage,
            env,
            info,
            request,
        ),
        ExecuteMsg::UpdateValidationRequest { request } => update_request_for_validation(&mut *storage,
            env,
            info,
            request,
        ),
        ExecuteMsg::DeleteValidationRequest { id } => delete_request_for_validation(&mut *storage,
            env,
            info,
            id.as_str(),
        ),
        ExecuteMsg::CreateValidatorConfiguration { request } => create_new_validator_configuration(&mut *storage,
            env,
            info,
            request,
        ),
        ExecuteMsg::UpdateValidatorConfiguration { request } => update_existing_validator_configuration(&mut *storage,
            env,
            info,
            request,
        ),
        ExecuteMsg::UpdateSettings { update } => {
            let r = update_settings(&mut *storage, info, update);
            proof {
                if r is Ok {
                    assert(storage.requests@ == old(storage).requests@);
                }
            }
            r
        },
    }
}

/// Migrates the stored settings to this code's type and version: it succeeds exactly when
/// settings are stored and this code may take them over, and then only the stored version
/// changes, to this code's.
pub fn migrate(storage: &mut ContractStorage, msg: MigrateMsg) -> (r: Result<Response, ContractError>)
    requires
        old(storage).well_formed(),
    ensures
        final(storage).well_formed(),
        old(storage).contract_info is None ==> r is Err,
        old(storage).contract_info matches Some(ci) ==> (r is Ok <==> valid_migration_target(
            ci,
            CONTRACT_TYPE@,
            CONTRACT_VERSION@,
        )),
        r is Ok ==> (final(storage).contract_info matches Some(n) && migrated(
            old(storage).contract_info->Some_0,
            n,
            CONTRACT_VERSION@,
        )),
        r is Ok ==> same_records(final(storage), old(storage)),
        r is Err ==> same_contents(final(storage), old(storage)),
{
    match msg {
        MigrateMsg::ContractUpgrade => migrate_contract(&mut *storage, CONTRACT_TYPE, CONTRACT_VERSION),
    }
}

} // verus!
