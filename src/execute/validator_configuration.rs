use vstd::prelude::*;

use crate::storage::state::{same_but_configurations, same_contents, ContractStorage};
use crate::storage::validator_configuration::insert_validator_configuration;
use crate::types::error::{describe, ContractError};
use crate::types::msg::{Env, MessageInfo};
use crate::types::request::validator_configuration::{
    ValidatorConfigurationCreationRequest, ValidatorConfigurationUpdateRequest,
};
use crate::types::validator_configuration::{configuration_key, ValidatorConfiguration};
use crate::util::constants::{EVENT_TYPE_KEY, VALIDATION_TYPE_KEY, VALIDATOR_ADDRESS_KEY};
use crate::util::event_attributes::{with_metadata, EventAdditionalMetadata, EventAttributes, EventType};
use crate::util::helpers::{
    check_funds_are_empty, get_validator_configuration_update, validator_configuration_changes,
};
use crate::util::response::Response;
use crate::util::text::compare_text;

verus! {

/// Whether a caller may act for `subject`: settings are stored, no funds are attached, and the
/// caller is `subject` itself or the admin.
pub open spec fn subject_or_admin_call(
    storage: &ContractStorage,
    info: MessageInfo,
    subject: Seq<char>,
) -> bool {
    &&& info.funds@.len() == 0
    &&& storage.contract_info is Some
    &&& (info.sender@ == subject || info.sender@ == storage.contract_info->Some_0.admin@)
}

/// The error of a call that `subject_or_admin_call` refuses: `InvalidFunds` with funds
/// attached, `StorageError` without settings, `Unauthorized` for any other caller.
pub open spec fn subject_or_admin_refusal(
    storage: &ContractStorage,
    info: MessageInfo,
    e: ContractError,
) -> bool {
    if info.funds@.len() != 0 {
        e is InvalidFunds
    } else if storage.contract_info is None {
        e is StorageError
    } else {
        e is Unauthorized
    }
}

fn check_subject_or_admin(storage: &ContractStorage, info: &MessageInfo, subject: &str) -> (r: Result<
    (),
    ContractError,
>)
    ensures
        r is Ok <==> subject_or_admin_call(storage, *info, subject@),
        r matches Err(e) ==> subject_or_admin_refusal(storage, *info, e),
{
    match check_funds_are_empty(&info.funds) {
        Ok(()) => {},
        Err(e) => {
            return Err(e);
        },
    }
    match &storage.contract_info {
        None => Err(
            ContractError::StorageError {
                message: String::from_str("no contract settings are stored"),
            },
        ),
        Some(ci) => {
            if compare_text(info.sender.as_str(), subject) != 0 && compare_text(
                info.sender.as_str(),
                ci.admin.as_str(),
            ) != 0 {
                Err(
                    ContractError::Unauthorized {
                        reason: String::from_str(
                            "must be the contract admin to act for a different address",
                        ),
                    },
                )
            } else {
                Ok(())
            }
        },
    }
}

/// The configuration that a creation request describes.
pub open spec fn configuration_of(request: ValidatorConfigurationCreationRequest) -> ValidatorConfiguration {
    ValidatorConfiguration {
        validation_costs: request.validation_costs,
        validation_type: request.validation_type,
        validator: request.validator,
    }
}

/// Creates a validator's configuration for a validation type, stored under
/// `validator-validation_type`. Without funds, by the validator or the admin; fails, changing
/// nothing, with `InvalidRequest` if no entity is stored for the validator, and with
/// `RecordAlreadyExists` if the validator has a configuration for the type.
pub fn create_new_validator_configuration(
    storage: &mut ContractStorage,
    env: &Env,
    info: &MessageInfo,
    request: ValidatorConfigurationCreationRequest,
) -> (r: Result<Response, ContractError>)
    requires
        old(storage).well_formed(),
    ensures
        final(storage).well_formed(),
        r is Ok <==> subject_or_admin_call(old(storage), *info, request.validator@)
            && old(storage).entities@.contains_key(request.validator@)
            && !old(storage).configurations@.contains_key(
            configuration_key(request.validator@, request.validation_type@),
        ),
        !subject_or_admin_call(old(storage), *info, request.validator@) ==> (r matches Err(e)
            && subject_or_admin_refusal(old(storage), *info, e)),
        subject_or_admin_call(old(storage), *info, request.validator@)
            && !old(storage).entities@.contains_key(request.validator@) ==> (r matches Err(e)
            && e is InvalidRequest),
        subject_or_admin_call(old(storage), *info, request.validator@)
            && old(storage).entities@.contains_key(request.validator@) && r is Err ==> (r matches Err(
            e,
        ) && e is RecordAlreadyExists),
        r is Ok ==> final(storage).configurations@ == old(storage).configurations@.insert(
            configuration_key(request.validator@, request.validation_type@),
            configuration_of(request),
        ) && same_but_configurations(final(storage), old(storage)),
        r matches Ok(resp) ==> resp.directives@.len() == 0 && resp.attributes@ == seq![
            (EVENT_TYPE_KEY@, EventType::AddValidatorConfiguration.name_text()),
            (VALIDATION_TYPE_KEY@, request.validation_type@),
            (VALIDATOR_ADDRESS_KEY@, request.validator@),
        ],
        r is Err ==> same_contents(final(storage), old(storage)),
{
    match check_subject_or_admin(storage, info, request.validator.as_str()) {
        Ok(()) => {},
        Err(e) => {
            return Err(e);
        },
    }
    if !storage.entities.contains(request.validator.as_str()) {
        return Err(
            ContractError::InvalidRequest {
                message: describe("no entity is stored with the address", request.validator.as_str()),
            },
        );
    }
    let validation_type = request.validation_type.clone();
    let validator = request.validator.clone();
    let configuration = ValidatorConfiguration {
        validation_costs: request.validation_costs,
        validation_type: request.validation_type,
        validator: request.validator,
    };
    match insert_validator_configuration(&mut storage.configurations, configuration) {
        Ok(()) => {},
        Err(e) => {
            return Err(e);
        },
    }
    let attributes = EventAttributes::new(EventType::AddValidatorConfiguration).set_validation_type(
        validation_type.as_str(),
    ).set_validator(validator.as_str());
    Ok(Response { attributes, directives: Vec::new(), data: None })
}

/// Replaces a validator's costs for a validation type. Without funds, by the validator or the
/// admin; fails, changing nothing, with `InvalidRequest` if no new costs are given (checked
/// before the lookup), and with `RecordNotFound` if no such configuration is stored.
pub fn update_existing_validator_configuration(
    storage: &mut ContractStorage,
    env: &Env,
    info: &MessageInfo,
    request: ValidatorConfigurationUpdateRequest,
) -> (r: Result<Response, ContractError>)
    requires
        old(storage).well_formed(),
    ensures
        final(storage).well_formed(),
        r is Ok <==> subject_or_admin_call(old(storage), *info, request.validator@)
            && request.validation_costs is Some && old(storage).configurations@.contains_key(
            configuration_key(request.validator@, request.validation_type@),
        ),
        !subject_or_admin_call(old(storage), *info, request.validator@) ==> (r matches Err(e)
            && subject_or_admin_refusal(old(storage), *info, e)),
        subject_or_admin_call(old(storage), *info, request.validator@)
            && request.validation_costs is None ==> (r matches Err(e) && e is InvalidRequest),
        subject_or_admin_call(old(storage), *info, request.validator@)
            && request.validation_costs is Some && r is Err ==> (r matches Err(e)
            && e is RecordNotFound),
        r is Ok ==> final(storage).configurations@ == old(storage).configurations@.insert(
            configuration_key(request.validator@, request.validation_type@),
            ValidatorConfiguration {
                validation_costs: request.validation_costs->Some_0,
                validation_type: request.validation_type,
                validator: request.validator,
            },
        ) && same_but_configurations(final(storage), old(storage)),
        r matches Ok(resp) ==> resp.directives@.len() == 0,
        r matches Ok(resp) ==> exists|m: EventAdditionalMetadata|
            m.well_formed() && m@ == validator_configuration_changes(
                old(storage).configurations@[configuration_key(request.validator@, request.validation_type@)],
                ValidatorConfiguration {
                    validation_costs: request.validation_costs->Some_0,
                    validation_type: request.validation_type,
                    validator: request.validator,
                },
            ) && resp.attributes@ == with_metadata(
                seq![
                    (EVENT_TYPE_KEY@, EventType::UpdateValidatorConfiguration.name_text()),
                    (VALIDATION_TYPE_KEY@, request.validation_type@),
                    (VALIDATOR_ADDRESS_KEY@, request.validator@),
                ],
                m,
            ),
        r is Err ==> same_contents(final(storage), old(storage)),
{
    match check_subject_or_admin(storage, info, request.validator.as_str()) {
        Ok(()) => {},
        Err(e) => {
            return Err(e);
        },
    }
    let costs = match request.validation_costs {
        Some(c) => c,
        None => {
            return Err(
                ContractError::InvalidRequest {
                    message: String::from_str(
                        "at least one change to the existing validator configuration must be specified",
                    ),
                },
            );
        },
    };
    let key = crate::types::validator_configuration::make_configuration_key(
        request.validator.as_str(),
        request.validation_type.as_str(),
    );
    let old_configuration = match storage.configurations.maybe_load(key.as_str()) {
        Some(c) => c,
        None => {
            return Err(
                ContractError::RecordNotFound {
                    explanation: describe("no validator configuration exists with key", key.as_str()),
                },
            );
        },
    };
    let new_configuration = ValidatorConfiguration {
        validation_costs: costs,
        validation_type: request.validation_type,
        validator: request.validator,
    };
    let changes = get_validator_configuration_update(old_configuration, &new_configuration);
    let attributes = EventAttributes::new(EventType::UpdateValidatorConfiguration).set_validation_type(
        new_configuration.validation_type.as_str(),
    ).set_validator(new_configuration.validator.as_str()).set_additional_metadata(&changes);
    storage.configurations.replace(key, new_configuration);
    Ok(Response { attributes, directives: Vec::new(), data: None })
}

} // verus!
