use vstd::prelude::*;

use crate::storage::state::{same_but_definitions, same_contents, ContractStorage};
use crate::storage::validation_definition::{
    delete_validation_definition_by_key, insert_validation_definition,
};
use crate::types::contract_info::ContractInfo;
use crate::types::error::{describe, ContractError};
use crate::types::msg::{Env, MessageInfo};
use crate::types::request::validation_definition::{
    ValidationDefinitionCreationRequest, ValidationDefinitionUpdateRequest,
};
use crate::types::validation_definition::ValidationDefinition;
use crate::util::constants::{EVENT_TYPE_KEY, VALIDATION_TYPE_KEY};
use crate::util::event_attributes::{with_metadata, EventAdditionalMetadata, EventAttributes, EventType};
use crate::util::functions::generate_validation_definition_attribute_name;
use crate::util::helpers::{
    check_admin_only, check_funds_are_empty, get_validation_definition_update,
    validation_definition_changes,
};
use crate::util::response::{Directive, Response, ResponseData};
use crate::util::text::{compare_text, lower_of};

verus! {

/// Whether the caller may manage definitions: settings are stored, the caller is their admin,
/// and no funds are attached.
pub open spec fn admin_call(storage: &ContractStorage, info: MessageInfo) -> bool {
    &&& storage.contract_info is Some
    &&& info.sender@ == storage.contract_info->Some_0.admin@
    &&& info.funds@.len() == 0
}

/// The error of a call that `admin_call` refuses: `StorageError` without settings,
/// `Unauthorized` for another caller, `InvalidFunds` with funds attached.
pub open spec fn admin_refusal(storage: &ContractStorage, info: MessageInfo, e: ContractError) -> bool {
    if storage.contract_info is None {
        e is StorageError
    } else if info.sender@ != storage.contract_info->Some_0.admin@ {
        e is Unauthorized
    } else {
        e is InvalidFunds
    }
}

fn validate_request(storage: &ContractStorage, info: &MessageInfo) -> (r: Result<(), ContractError>)
    ensures
        r is Ok <==> admin_call(storage, *info),
        r matches Err(e) ==> admin_refusal(storage, *info, e),
{
    match check_admin_only(storage, info.sender.as_str()) {
        Ok(()) => {},
        Err(e) => {
            return Err(e);
        },
    }
    check_funds_are_empty(&info.funds)
}

/// The definition that a creation request describes; an absent flag means enabled.
pub open spec fn definition_of(request: ValidationDefinitionCreationRequest) -> ValidationDefinition {
    ValidationDefinition {
        validation_type: request.validation_type,
        display_name: request.display_name,
        enabled: match request.enabled {
            Some(e) => e,
            None => true,
        },
    }
}

/// Whether the directives bind `"<validation_type>.<bind_name>"` to the contract, unless the
/// request asks not to.
pub open spec fn binds_type_name(
    directives: Seq<Directive>,
    request: ValidationDefinitionCreationRequest,
    info: ContractInfo,
    contract_addr: Seq<char>,
) -> bool {
    if request.bind_name == Some(false) {
        directives.len() == 0
    } else {
        directives.len() == 1 && (directives[0] matches Directive::BindName { name, address } && name@
            == request.validation_type@ + seq!['.'] + info.bind_name@ && address@ == contract_addr)
    }
}

/// Creates a validation definition under its lower-case type and, unless asked not to, binds
/// the type as a name under the contract's naming root. Admin only, without funds; fails,
/// changing nothing, if a definition with the same key exists.
pub fn create_new_validation_definition(
    storage: &mut ContractStorage,
    env: &Env,
    info: &MessageInfo,
    request: ValidationDefinitionCreationRequest,
) -> (r: Result<Response, ContractError>)
    requires
        old(storage).well_formed(),
    ensures
        final(storage).well_formed(),
        r is Ok <==> admin_call(old(storage), *info) && !old(storage).definitions@.contains_key(
            lower_of(request.validation_type@),
        ),
        !admin_call(old(storage), *info) ==> (r matches Err(e) && admin_refusal(old(storage), *info, e)),
        admin_call(old(storage), *info) && r is Err ==> (r matches Err(e) && e is RecordAlreadyExists),
        r is Ok ==> final(storage).definitions@ == old(storage).definitions@.insert(
            lower_of(request.validation_type@),
            definition_of(request),
        ) && same_but_definitions(final(storage), old(storage)),
        r matches Ok(resp) ==> binds_type_name(
            resp.directives@,
            request,
            old(storage).contract_info->Some_0,
            env.contract_address@,
        ) && resp.attributes@ == seq![
            (EVENT_TYPE_KEY@, EventType::AddValidationDefinition.name_text()),
            (VALIDATION_TYPE_KEY@, request.validation_type@),
        ],
        r matches Ok(resp) ==> resp.data == Some(ResponseData::Definition(definition_of(request))),
        r is Err ==> same_contents(final(storage), old(storage)),
{
    match validate_request(storage, info) {
        Ok(()) => {},
        Err(e) => {
            return Err(e);
        },
    }
    let bind_root = match &storage.contract_info {
        Some(ci) => ci.bind_name.clone(),
        None => {
            return Err(ContractError::GenericError { message: String::new() });
        },
    };
    let validation_type = request.validation_type.clone();
    let bind = match request.bind_name {
        Some(b) => b,
        None => true,
    };
    let definition = ValidationDefinition {
        validation_type: request.validation_type,
        display_name: request.display_name,
        enabled: match request.enabled {
            Some(e) => e,
            None => true,
        },
    };
    let created = definition.duplicate();
    match insert_validation_definition(&mut storage.definitions, definition) {
        Ok(()) => {},
        Err(e) => {
            return Err(e);
        },
    }
    let mut directives: Vec<Directive> = Vec::new();
    if bind {
        let name = generate_validation_definition_attribute_name(
            validation_type.as_str(),
            bind_root.as_str(),
        );
        directives.push(Directive::BindName { name, address: env.contract_address.clone() });
    }
    let attributes = EventAttributes::new(EventType::AddValidationDefinition).set_validation_type(
        validation_type.as_str(),
    );
    Ok(Response { attributes, directives, data: Some(ResponseData::Definition(created)) })
}

/// The definition that an update makes of a stored one: each field that the request gives
/// replaces the stored one, every other field is kept.
pub open spec fn merged_definition(
    before: ValidationDefinition,
    request: ValidationDefinitionUpdateRequest,
) -> ValidationDefinition {
    ValidationDefinition {
        validation_type: match request.new_validation_type {
            Some(t) => t,
            None => before.validation_type,
        },
        display_name: match request.new_display_name {
            Some(n) => Some(n),
            None => before.display_name,
        },
        enabled: match request.enabled {
            Some(e) => e,
            None => before.enabled,
        },
    }
}

/// Whether an update of a definition is carried out: the caller may manage definitions, a
/// definition is stored under the current key, and either it is renamed to a key that differs
/// from the current one and is free, or, without a rename, some field changes.
pub open spec fn definition_update_succeeds(
    storage: &ContractStorage,
    info: MessageInfo,
    request: ValidationDefinitionUpdateRequest,
) -> bool {
    let definitions = storage.definitions@;
    &&& admin_call(storage, info)
    &&& definitions.contains_key(request.old_key())
    &&& match request.new_key() {
        Some(k) => k != request.old_key() && !definitions.contains_key(k),
        None => !validation_definition_changes(
            definitions[request.old_key()],
            merged_definition(definitions[request.old_key()], request),
        ).is_empty(),
    }
}

/// An in-place update whose given fields already hold their stored values changes nothing and
/// is refused.
pub proof fn lemma_definition_no_op_refused(
    storage: &ContractStorage,
    info: MessageInfo,
    request: ValidationDefinitionUpdateRequest,
)
    requires
        request.new_validation_type is None,
        storage.definitions@.contains_key(request.old_key()),
        merged_definition(storage.definitions@[request.old_key()], request)
            == storage.definitions@[request.old_key()],
    ensures
        !definition_update_succeeds(storage, info, request),
{
    let before = storage.definitions@[request.old_key()];
    assert(validation_definition_changes(before, before) =~= Set::empty());
}

/// Updates a validation definition: each field that the request gives replaces the stored one,
/// every other field is kept. With a new type the definition moves to its key, as one step;
/// without one, it is replaced in place. Admin only,
/// without funds; fails, changing nothing, with `RecordNotFound` if no definition is stored
/// under the current key, and with `InvalidRequest` if the new key is the current one or is
/// taken, or, without a new type, nothing changes.
pub fn update_existing_validation_definition(
    storage: &mut ContractStorage,
    env: &Env,
    info: &MessageInfo,
    request: ValidationDefinitionUpdateRequest,
) -> (r: Result<Response, ContractError>)
    requires
        old(storage).well_formed(),
    ensures
        final(storage).well_formed(),
        r is Ok <==> definition_update_succeeds(old(storage), *info, request),
        !admin_call(old(storage), *info) ==> (r matches Err(e) && admin_refusal(old(storage), *info, e)),
        admin_call(old(storage), *info) && !old(storage).definitions@.contains_key(request.old_key())
            ==> (r matches Err(e) && e is RecordNotFound),
        admin_call(old(storage), *info) && old(storage).definitions@.contains_key(request.old_key())
            && r is Err ==> (r matches Err(e) && e is InvalidRequest),
        r is Ok ==> same_but_definitions(final(storage), old(storage)) && final(storage).definitions@
            == match request.new_key() {
            Some(k) => old(storage).definitions@.remove(request.old_key()).insert(
                k,
                merged_definition(old(storage).definitions@[request.old_key()], request),
            ),
            None => old(storage).definitions@.insert(
                request.old_key(),
                merged_definition(old(storage).definitions@[request.old_key()], request),
            ),
        },
        r matches Ok(resp) ==> resp.directives@.len() == 0,
        r matches Ok(resp) ==> exists|m: EventAdditionalMetadata|
            m.well_formed() && m@ == validation_definition_changes(
                old(storage).definitions@[request.old_key()],
                merged_definition(old(storage).definitions@[request.old_key()], request),
            ) && resp.attributes@ == with_metadata(
                seq![
                    (EVENT_TYPE_KEY@, EventType::UpdateValidationDefinition.name_text()),
                    (
                        VALIDATION_TYPE_KEY@,
                        merged_definition(
                            old(storage).definitions@[request.old_key()],
                            request,
                        ).validation_type@,
                    ),
                ],
                m,
            ),
        r is Err ==> same_contents(final(storage), old(storage)),
{
    match validate_request(storage, info) {
        Ok(()) => {},
        Err(e) => {
            return Err(e);
        },
    }
    let old_key = request.old_storage_key();
    let old_definition = match storage.definitions.maybe_load(old_key.as_str()) {
        Some(d) => d,
        None => {
            return Err(
                ContractError::RecordNotFound {
                    explanation: describe("no validation definition exists with type", old_key.as_str()),
                },
            );
        },
    };
    let maybe_new_key = request.maybe_get_new_storage_key();
    let new_definition = ValidationDefinition {
        validation_type: match &request.new_validation_type {
            Some(t) => t.clone(),
            None => old_definition.validation_type.clone(),
        },
        display_name: match request.new_display_name {
            Some(n) => Some(n),
            None => match &old_definition.display_name {
                Some(n) => Some(n.clone()),
                None => None,
            },
        },
        enabled: match request.enabled {
            Some(e) => e,
            None => old_definition.enabled,
        },
    };
    let changes = get_validation_definition_update(old_definition, &new_definition);
    match &maybe_new_key {
        Some(new_key) => {
            if compare_text(new_key.as_str(), old_key.as_str()) == 0 {
                return Err(
                    ContractError::InvalidRequest {
                        message: String::from_str(
                            "cannot specify a new validation type which is the same as the old one",
                        ),
                    },
                );
            }
            if storage.definitions.contains(new_key.as_str()) {
                return Err(
                    ContractError::InvalidRequest {
                        message: describe("a validation definition already exists with type", new_key.as_str()),
                    },
                );
            }
        },
        None => {
            if !changes.has_metadata() {
                return Err(
                    ContractError::InvalidRequest {
                        message: describe(
                            "no actual changes were specified to the validation definition with type",
                            old_key.as_str(),
                        ),
                    },
                );
            }
        },
    }
    let ghost defs = storage.definitions@;
    let event_type = new_definition.validation_type.clone();
    match maybe_new_key {
        Some(new_key) => {
            let _ = storage.definitions.remove(old_key.as_str());
            storage.definitions.replace(new_key, new_definition);
        },
        None => {
            storage.definitions.replace(old_key, new_definition);
        },
    }
    let attributes = EventAttributes::new(EventType::UpdateValidationDefinition).set_validation_type(
        event_type.as_str(),
    ).set_additional_metadata(&changes);
    Ok(Response { attributes, directives: Vec::new(), data: None })
}

/// Deletes the validation definition stored under `key`. Admin only, without funds; fails,
/// changing nothing, if there is none.
pub fn delete_validation_definition(
    storage: &mut ContractStorage,
    env: &Env,
    info: &MessageInfo,
    key: &str,
) -> (r: Result<Response, ContractError>)
    requires
        old(storage).well_formed(),
    ensures
        final(storage).well_formed(),
        r is Ok <==> admin_call(old(storage), *info) && old(storage).definitions@.contains_key(key@),
        !admin_call(old(storage), *info) ==> (r matches Err(e) && admin_refusal(old(storage), *info, e)),
        admin_call(old(storage), *info) && r is Err ==> (r matches Err(e) && e is RecordNotFound),
        r is Ok ==> final(storage).definitions@ == old(storage).definitions@.remove(key@)
            && same_but_definitions(final(storage), old(storage)),
        r matches Ok(resp) ==> resp.directives@.len() == 0,
        r matches Ok(resp) ==> resp.data == Some(
            ResponseData::Definition(old(storage).definitions@[key@]),
        ),
        r is Err ==> same_contents(final(storage), old(storage)),
{
    match validate_request(storage, info) {
        Ok(()) => {},
        Err(e) => {
            return Err(e);
        },
    }
    match delete_validation_definition_by_key(&mut storage.definitions, key) {
        Ok(deleted) => Ok(
            Response {
                attributes: EventAttributes::new(EventType::DeleteValidationDefinition),
                directives: Vec::new(),
                data: Some(ResponseData::Definition(deleted)),
            },
        ),
        Err(e) => {
            assert(storage.definitions@ =~= old(storage).definitions@);
            Err(e)
        },
    }
}

} // verus!
