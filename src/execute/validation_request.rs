use vstd::prelude::*;

use crate::storage::request::{delete_request_by_id, insert_request};
use crate::storage::state::{same_but_requests, same_contents, ContractStorage};
use crate::types::error::{describe, ContractError};
use crate::types::msg::{Env, MessageInfo};
use crate::types::request::validation_request::{
    ValidationRequest, ValidationRequestOrder, ValidationRequestUpdate,
};
use crate::util::constants::{EVENT_TYPE_KEY, VALIDATION_REQUEST_ID_KEY};
use crate::util::create_request_utilities::{
    creation_fee_decided, creation_fee_type, form_validation_request, new_request_order,
    ValidationRequestCreationResponse, ValidationRequestType,
};
use crate::util::event_attributes::{with_metadata, EventAdditionalMetadata, EventAttributes, EventType};
use crate::types::contract_info::ContractInfo;
use crate::util::fees::{charge_view, fee_charge, get_custom_fee_amount_display};
use crate::util::helpers::{
    get_validation_request_update, lemma_request_changes_empty, merged_request, request_changes,
    same_validators,
};
use crate::types::coin::coins_view;
use crate::util::response::{Directive, Response, ResponseData};
use crate::util::text::compare_text;

verus! {

/// Whether the directives are exactly the creation fee of the settings `info`: none for a zero
/// fee, otherwise one charge of exactly that fee.
pub open spec fn creation_fee_charged(
    directives: Seq<Directive>,
    info: ContractInfo,
    contract_addr: Seq<char>,
) -> bool {
    if info.create_request_nhash_fee == 0 {
        directives.len() == 0
    } else {
        directives.len() == 1 && (directives[0] matches Directive::ChargeFee(c) && charge_view(c)
            == fee_charge(creation_fee_type(), info, contract_addr, info.create_request_nhash_fee))
    }
}

/// Creates a validation request: it is stored under its id, owned by the sender, in status
/// `Requested`, and the creation fee of the settings is charged where it is not zero.
/// Fails, changing nothing, if the id is taken, no settings are stored, or the request lacks an
/// id or a scope.
pub fn create_request_for_validation(
    storage: &mut ContractStorage,
    env: &Env,
    info: &MessageInfo,
    request: ValidationRequest,
) -> (r: Result<Response, ContractError>)
    requires
        old(storage).well_formed(),
    ensures
        final(storage).well_formed(),
        r is Ok <==> !old(storage).requests@.contains_key(request.id@)
            && old(storage).contract_info is Some && new_request_order(
            request,
            info.sender,
        ).is_complete(),
        old(storage).requests@.contains_key(request.id@) ==> (r matches Err(e)
            && e is RecordAlreadyExists),
        !old(storage).requests@.contains_key(request.id@) && old(storage).contract_info is None ==> (
        r matches Err(e) && e is StorageError),
        !old(storage).requests@.contains_key(request.id@) && old(storage).contract_info is Some
            && !new_request_order(request, info.sender).is_complete() ==> (r matches Err(e)
            && e is InvalidRequest),
        r is Ok ==> final(storage).requests@ == old(storage).requests@.insert(
            request.id@,
            new_request_order(request, info.sender),
        ) && same_but_requests(final(storage), old(storage)),
        r matches Ok(resp) ==> (resp.data matches Some(ResponseData::Request(o)) && o.same_as(
            &new_request_order(request, info.sender),
        )),
        r matches Ok(resp) ==> creation_fee_charged(
            resp.directives@,
            old(storage).contract_info->Some_0,
            env.contract_address@,
        ),
        r is Err ==> same_contents(final(storage), old(storage)),
{
    if storage.requests.contains(request.id.as_str()) {
        return Err(
            ContractError::RecordAlreadyExists {
                explanation: describe("a validation request already exists with id", request.id.as_str()),
            },
        );
    }
    let formed = form_validation_request(storage, env, info, request, ValidationRequestType::New);
    let ValidationRequestCreationResponse { request_order, messages, request_fee_msg } = match formed {
        Ok(f) => f,
        Err(e) => {
            return Err(e);
        },
    };
    let created = request_order.duplicate();
    let ghost fee = request_fee_msg;
    assert(creation_fee_decided(fee, old(storage).contract_info->Some_0, env.contract_address@));
    let inserted = insert_request(&mut storage.requests, request_order);
    assert(inserted is Ok);
    let mut attributes = EventAttributes::new(EventType::AddValidationRequest);
    let mut directives = messages;
    match request_fee_msg {
        Some(charge) => {
            let display = get_custom_fee_amount_display(&charge);
            attributes = attributes.add_attribute("request_creation_fee_charged", display.as_str());
            directives.push(Directive::ChargeFee(charge));
        },
        None => {},
    }
    assert(creation_fee_charged(directives@, old(storage).contract_info->Some_0, env.contract_address@));
    Ok(Response { attributes, directives, data: Some(ResponseData::Request(created)) })
}

/// Whether an update of a validation request is carried out: the request exists, the request it
/// becomes is complete, and either it is renamed to an id that differs from its own and is free,
/// or, without a rename, some field changes.
pub open spec fn update_succeeds(
    requests: Map<Seq<char>, ValidationRequestOrder>,
    update: ValidationRequestUpdate,
) -> bool {
    let current = update.current_id@;
    &&& requests.contains_key(current)
    &&& merged_request(requests[current], update).is_complete()
    &&& match update.new_id {
        Some(id) => id@ != current && !requests.contains_key(id@),
        None => !request_changes(requests[current], merged_request(requests[current], update)).is_empty(),
    }
}

/// What the stored requests become after a successful update.
pub open spec fn updated_requests(
    requests: Map<Seq<char>, ValidationRequestOrder>,
    update: ValidationRequestUpdate,
) -> Map<Seq<char>, ValidationRequestOrder> {
    let current = update.current_id@;
    let merged = merged_request(requests[current], update);
    match update.new_id {
        Some(id) => requests.remove(current).insert(id@, merged),
        None => requests.insert(current, merged),
    }
}

/// Updates a validation request: every field that the update gives replaces the stored one.
/// With a new id the request moves to it, as one step; without one, it is replaced in place.
/// Fails, changing nothing, with `RecordNotFound` if no request has the current id, and with
/// `InvalidRequest` if the result lacks an id or a scope, the new id is the current one or is
/// taken, or, without a new id, nothing changes. No fee is charged.
pub fn update_request_for_validation(
    storage: &mut ContractStorage,
    env: &Env,
    info: &MessageInfo,
    request: ValidationRequestUpdate,
) -> (r: Result<Response, ContractError>)
    requires
        old(storage).well_formed(),
    ensures
        final(storage).well_formed(),
        r is Ok <==> update_succeeds(old(storage).requests@, request),
        !old(storage).requests@.contains_key(request.current_id@) ==> (r matches Err(e)
            && e is RecordNotFound),
        old(storage).requests@.contains_key(request.current_id@) && r is Err ==> (r matches Err(e)
            && e is InvalidRequest),
        request.new_id matches Some(id) && id@ == request.current_id@ ==> r is Err,
        r is Ok ==> final(storage).requests@ == updated_requests(old(storage).requests@, request)
            && same_but_requests(final(storage), old(storage)),
        r matches Ok(resp) ==> resp.directives@.len() == 0,
        r matches Ok(resp) ==> exists|m: EventAdditionalMetadata|
            m.well_formed() && m@ == request_changes(
                old(storage).requests@[request.current_id@],
                merged_request(old(storage).requests@[request.current_id@], request),
            ) && resp.attributes@ == with_metadata(
                seq![
                    (EVENT_TYPE_KEY@, EventType::UpdateValidationRequest.name_text()),
                    (VALIDATION_REQUEST_ID_KEY@, merged_request(old(storage).requests@[request.current_id@], request).id@),
                ],
                m,
            ),
        r is Err ==> same_contents(final(storage), old(storage)),
{
    let ghost requests = storage.requests@;
    let current = request.current_id.as_str();
    let old_request = match storage.requests.maybe_load(current) {
        Some(o) => o,
        None => {
            return Err(
                ContractError::RecordNotFound {
                    explanation: describe("no validation request exists with id", current),
                },
            );
        },
    };
    let ghost before = *old_request;
    let ghost merged = merged_request(before, request);
    // The request that the update makes must be complete.
    let has_id = match &request.new_id {
        Some(id) => id.as_str().unicode_len() != 0,
        None => old_request.id.as_str().unicode_len() != 0,
    };
    let has_scope = match &request.new_scopes {
        Some(scopes) => scopes.len() != 0,
        None => old_request.scopes.len() != 0,
    };
    if !has_id || old_request.owner.as_str().unicode_len() == 0 || !has_scope {
        return Err(
            ContractError::InvalidRequest {
                message: describe("the updated request would lack an id, owner or scope", current),
            },
        );
    }
    let changes = get_validation_request_update(old_request, &request);
    match &request.new_id {
        Some(id) => {
            if compare_text(id.as_str(), current) == 0 {
                return Err(
                    ContractError::InvalidRequest {
                        message: String::from_str(
                            "cannot specify a new ID which is the same as the old ID",
                        ),
                    },
                );
            }
            if storage.requests.contains(id.as_str()) {
                return Err(
                    ContractError::InvalidRequest {
                        message: describe("a validation request already exists with id", id.as_str()),
                    },
                );
            }
        },
        None => {
            if !changes.has_metadata() {
                return Err(
                    ContractError::InvalidRequest {
                        message: describe(
                            "no actual changes were specified to the validation request with id",
                            current,
                        ),
                    },
                );
            }
        },
    }
    let ValidationRequestUpdate { current_id, new_id, new_scopes, new_allowed_validators, new_quote } =
        request;
    let removed = storage.requests.remove(current_id.as_str());
    let stored = match removed {
        Some(o) => o,
        None => {
            assert(false);
            return Err(ContractError::GenericError { message: String::new() });
        },
    };
    assert(stored == before);
    let ValidationRequestOrder { id, owner, scopes, allowed_validators, quote, status } = stored;
    let merged_order = ValidationRequestOrder {
        id: match new_id {
            Some(n) => n,
            None => id,
        },
        owner,
        scopes: match new_scopes {
            Some(s) => s,
            None => scopes,
        },
        allowed_validators: match new_allowed_validators {
            Some(v) => Some(v),
            None => allowed_validators,
        },
        quote: match new_quote {
            Some(q) => q,
            None => quote,
        },
        status,
    };
    assert(merged_order == merged);
    let target_id = merged_order.id.clone();
    let inserted = insert_request(&mut storage.requests, merged_order);
    assert(inserted is Ok);
    assert(storage.requests@ =~= updated_requests(requests, request));
    let attributes = EventAttributes::new(EventType::UpdateValidationRequest).set_validation_request_id(
        target_id.as_str(),
    ).set_additional_metadata(&changes);
    Ok(Response { attributes, directives: Vec::new(), data: None })
}

/// Once a request has been created under an id, creating another under the same id is refused
/// with `RecordAlreadyExists`: the requests that the first creation leaves hold that id.
pub proof fn lemma_create_twice_refused(
    requests: Map<Seq<char>, ValidationRequestOrder>,
    first: ValidationRequestOrder,
    second: ValidationRequest,
)
    requires
        first.id@ == second.id@,
    ensures
        requests.insert(first.id@, first).contains_key(second.id@),
{
}

/// An update of a stored request that does not rename it succeeds exactly when the scopes it
/// gives, if any, are not empty and at least one field changes: the scopes, the allowed
/// validators or the quote. On success the published diff holds the fields that differ, and no
/// others.
pub proof fn lemma_in_place_update_needs_a_change(
    requests: Map<Seq<char>, ValidationRequestOrder>,
    update: ValidationRequestUpdate,
)
    requires
        update.new_id is None,
        requests.contains_key(update.current_id@),
        requests[update.current_id@].is_complete(),
    ensures
        ({
            let before = requests[update.current_id@];
            let after = merged_request(before, update);
            update_succeeds(requests, update) <==> (update.new_scopes matches Some(s) ==> s@.len()
                > 0) && !(before.scopes.deep_view() == after.scopes.deep_view() && same_validators(
                before.allowed_validators,
                after.allowed_validators,
            ) && coins_view(before.quote@) == coins_view(after.quote@))
        }),
{
    let before = requests[update.current_id@];
    let after = merged_request(before, update);
    lemma_request_changes_empty(before, after);
}

/// A rename to the request's own id is refused, whatever else the update changes.
pub proof fn lemma_rename_to_same_id_refused(
    requests: Map<Seq<char>, ValidationRequestOrder>,
    update: ValidationRequestUpdate,
)
    requires
        update.new_id matches Some(id) && id@ == update.current_id@,
    ensures
        !update_succeeds(requests, update),
{
}

/// Deletes the validation request stored under `id`; fails, changing nothing, if there is none.
pub fn delete_request_for_validation(
    storage: &mut ContractStorage,
    env: &Env,
    info: &MessageInfo,
    id: &str,
) -> (r: Result<Response, ContractError>)
    requires
        old(storage).well_formed(),
    ensures
        final(storage).well_formed(),
        r is Ok <==> old(storage).requests@.contains_key(id@),
        r matches Err(e) ==> e is RecordNotFound,
        final(storage).requests@ == old(storage).requests@.remove(id@),
        same_but_requests(final(storage), old(storage)),
        r matches Ok(resp) ==> resp.directives@.len() == 0 && resp.attributes@ == seq![
            (EVENT_TYPE_KEY@, EventType::DeleteValidationRequest.name_text()),
        ],
        r is Err ==> same_contents(final(storage), old(storage)),
{
    match delete_request_by_id(&mut storage.requests, id) {
        Ok(()) => Ok(
            Response {
                attributes: EventAttributes::new(EventType::DeleteValidationRequest),
                directives: Vec::new(),
                data: None,
            },
        ),
        Err(e) => {
            assert(storage.requests@ =~= old(storage).requests@);
            Err(e)
        },
    }
}

} // verus!
