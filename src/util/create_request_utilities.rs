use vstd::prelude::*;

use crate::storage::state::ContractStorage;
use crate::types::contract_info::ContractInfo;
use crate::types::error::ContractError;
use crate::types::msg::{Env, MessageInfo};
use crate::types::request::validation_request::{
    ValidationRequest, ValidationRequestOrder, ValidationRequestStatus,
};
use crate::util::fees::{charge_view, fee_charge, generate_contract_fee_msg, FeeCharge};
use crate::util::response::Directive;
use crate::util::text::{join_strings, join_text};

verus! {

/// Whether a request is being created or changed.
#[derive(Clone, Copy, Debug, PartialEq, Eq, Structural)]
pub enum ValidationRequestType {
    New,
    Update,
}

/// A formed request order with the side effects that its creation brings.
pub struct ValidationRequestCreationResponse {
    pub request_order: ValidationRequestOrder,
    pub messages: Vec<Directive>,
    pub request_fee_msg: Option<FeeCharge>,
}

/// The label of the fee charged when a request is created.
pub open spec fn creation_fee_type() -> Seq<char> {
    "validation request creation"@
}

/// The order that a submitted request becomes: owned by its sender, in status `Requested`.
pub open spec fn new_request_order(request: ValidationRequest, owner: String) -> ValidationRequestOrder {
    ValidationRequestOrder {
        id: request.id,
        owner: owner,
        scopes: request.scopes,
        allowed_validators: request.allowed_validators,
        quote: request.quote,
        status: ValidationRequestStatus::Requested,
    }
}

/// Whether a fee decision matches the creation fee of the settings `info`: none for a zero fee,
/// otherwise one charge of exactly that fee.
pub open spec fn creation_fee_decided(
    charge: Option<FeeCharge>,
    info: ContractInfo,
    contract_addr: Seq<char>,
) -> bool {
    if info.create_request_nhash_fee == 0 {
        charge is None
    } else {
        charge matches Some(c) && charge_view(c) == fee_charge(
            creation_fee_type(),
            info,
            contract_addr,
            info.create_request_nhash_fee,
        )
    }
}

/// The creation fee that the settings schedule.
fn creation_fee_of(c: &ContractInfo) -> (fee: u128)
    ensures
        fee == c.create_request_nhash_fee,
{
    c.create_request_nhash_fee
}

/// The checks that an order fails, each as its message, in the order id, owner, scope.
pub open spec fn order_problems(order: ValidationRequestOrder) -> Seq<Seq<char>> {
    (if order.id@.len() == 0 {
        seq!["request order is missing ID"@]
    } else {
        Seq::empty()
    }) + (if order.owner@.len() == 0 {
        seq!["request order is missing owner"@]
    } else {
        Seq::empty()
    }) + (if order.scopes@.len() == 0 {
        seq!["request order is missing a scope"@]
    } else {
        Seq::empty()
    })
}

/// Fails unless the order has an id, an owner and a scope, with a message that lists every
/// failed check, joined with ", ".
pub fn validate_request_order(request_order: &ValidationRequestOrder) -> (r: Result<(), ContractError>)
    ensures
        r is Ok <==> request_order.is_complete(),
        r matches Err(e) ==> e is InvalidRequest,
        r matches Err(ContractError::InvalidRequest { message }) ==> message@ == join_text(
            order_problems(*request_order),
            ", "@,
        ),
{
    let mut errors: Vec<String> = Vec::new();
    let ghost o = *request_order;
    let ghost p1: Seq<Seq<char>> = if o.id@.len() == 0 {
        seq!["request order is missing ID"@]
    } else {
        Seq::empty()
    };
    let ghost p2: Seq<Seq<char>> = if o.owner@.len() == 0 {
        seq!["request order is missing owner"@]
    } else {
        Seq::empty()
    };
    let ghost p3: Seq<Seq<char>> = if o.scopes@.len() == 0 {
        seq!["request order is missing a scope"@]
    } else {
        Seq::empty()
    };
    if request_order.id.as_str().unicode_len() == 0 {
        errors.push(String::from_str("request order is missing ID"));
    }
    assert(errors.deep_view() =~= p1);
    if request_order.owner.as_str().unicode_len() == 0 {
        errors.push(String::from_str("request order is missing owner"));
    }
    assert(errors.deep_view() =~= p1 + p2);
    if request_order.scopes.len() == 0 {
        errors.push(String::from_str("request order is missing a scope"));
    }
    assert(errors.deep_view() =~= p1 + p2 + p3);
    if errors.len() != 0 {
        Err(ContractError::InvalidRequest { message: join_strings(&errors, ", ") })
    } else {
        Ok(())
    }
}

/// Forms the stored order of a submitted request, with the creation fee where the request is
/// new; fails if no settings are stored (for a new request) or the order is incomplete.
pub fn form_validation_request(
    storage: &ContractStorage,
    env: &Env,
    info: &MessageInfo,
    request: ValidationRequest,
    request_type: ValidationRequestType,
) -> (r: Result<ValidationRequestCreationResponse, ContractError>)
    ensures
        request_type is New && storage.contract_info is None ==> (r matches Err(e)
            && e is StorageError),
        !(request_type is New && storage.contract_info is None) ==> (r is Ok <==> new_request_order(
            request,
            info.sender,
        ).is_complete()),
        !(request_type is New && storage.contract_info is None) ==> (r matches Err(e)
            ==> e is InvalidRequest),
        r matches Ok(resp) ==> resp.request_order == new_request_order(request, info.sender)
            && resp.messages@.len() == 0,
        r matches Ok(resp) ==> (request_type is Update ==> resp.request_fee_msg is None),
        r matches Ok(resp) ==> (request_type is New ==> creation_fee_decided(
            resp.request_fee_msg,
            storage.contract_info->Some_0,
            env.contract_address@,
        )),
{
    let request_fee_msg = match request_type {
        ValidationRequestType::New => {
            match generate_contract_fee_msg(
                "validation request creation",
                storage,
                env.contract_address.as_str(),
                creation_fee_of,
            ) {
                Ok(charge) => charge,
                Err(e) => {
                    return Err(e);
                },
            }
        },
        ValidationRequestType::Update => None,
    };
    let request_order = ValidationRequestOrder {
        id: request.id,
        owner: info.sender.clone(),
        scopes: request.scopes,
        allowed_validators: request.allowed_validators,
        quote: request.quote,
        status: ValidationRequestStatus::Requested,
    };
    match validate_request_order(&request_order) {
        Ok(()) => {},
        Err(e) => {
            return Err(e);
        },
    }
    Ok(ValidationRequestCreationResponse { request_order, messages: Vec::new(), request_fee_msg })
}

} // verus!
