use vstd::prelude::*;

use crate::storage::state::{same_contents, same_records, ContractStorage};
use crate::types::contract_info::{ContractInfo, CONTRACT_TYPE, CONTRACT_VERSION};
use crate::types::error::ContractError;
use crate::types::msg::{Env, InstantiateMsg, MessageInfo};
use crate::util::constants::{CONTRACT_INFO_KEY, EVENT_TYPE_KEY};
use crate::util::event_attributes::{contract_info_text, EventAttributes, EventType};
use crate::util::helpers::check_funds_are_empty;
use crate::util::response::{Directive, Response};
use crate::util::text::{is_blank, join_strings, trimmed_is_empty};

verus! {

/// Whether instantiation settings are well formed: neither the naming root nor the contract
/// name is blank.
pub open spec fn instantiate_msg_valid(msg: InstantiateMsg) -> bool {
    !is_blank(msg.bind_name@) && !is_blank(msg.contract_name@)
}

/// Fails, naming each blank field, if the naming root or the contract name is blank.
pub fn validate_instantiate_msg(msg: &InstantiateMsg) -> (r: Result<(), ContractError>)
    ensures
        r is Ok <==> instantiate_msg_valid(*msg),
        r matches Err(e) ==> e is InvalidInstantiation,
{
    let mut errors: Vec<String> = Vec::new();
    if trimmed_is_empty(msg.bind_name.as_str()) {
        errors.push(String::from_str("bind_name value was empty"));
    }
    if trimmed_is_empty(msg.contract_name.as_str()) {
        errors.push(String::from_str("contract_name value was empty"));
    }
    if errors.len() != 0 {
        Err(ContractError::InvalidInstantiation { message: join_strings(&errors, ", ") })
    } else {
        Ok(())
    }
}

/// The settings that instantiation stores: the sender becomes the admin.
pub open spec fn instantiated_settings(info: ContractInfo, sender: String, msg: InstantiateMsg) -> bool {
    &&& info.admin == sender
    &&& info.bind_name == msg.bind_name
    &&& info.contract_name == msg.contract_name
    &&& info.contract_type@ == CONTRACT_TYPE@
    &&& info.contract_version@ == CONTRACT_VERSION@
    &&& info.create_request_nhash_fee == msg.create_request_nhash_fee
}

/// Instantiates the contract: the sender becomes the admin, the settings are stored, and the
/// naming root is bound to the contract. Fails, changing nothing, with `InvalidFunds` if funds
/// are attached and with `InvalidInstantiation` if the naming root or contract name is blank.
pub fn instantiate_contract(
    storage: &mut ContractStorage,
    env: &Env,
    info: &MessageInfo,
    msg: InstantiateMsg,
) -> (r: Result<Response, ContractError>)
    requires
        old(storage).well_formed(),
    ensures
        final(storage).well_formed(),
        r is Ok <==> info.funds@.len() == 0 && instantiate_msg_valid(msg),
        info.funds@.len() != 0 ==> (r matches Err(e) && e is InvalidFunds),
        info.funds@.len() == 0 && !instantiate_msg_valid(msg) ==> (r matches Err(e)
            && e is InvalidInstantiation),
        r is Ok ==> (final(storage).contract_info matches Some(ci) && instantiated_settings(
            ci,
            info.sender,
            msg,
        )) && same_records(final(storage), old(storage)),
        r matches Ok(resp) ==> resp.directives@.len() == 1 && (resp.directives@[0] matches Directive::BindName {
            name,
            address,
        } && name@ == msg.bind_name@ && address@ == env.contract_address@),
        r matches Ok(resp) ==> resp.attributes@ == seq![
            (EVENT_TYPE_KEY@, EventType::InstantiateContract.name_text()),
            (CONTRACT_INFO_KEY@, contract_info_text(final(storage).contract_info->Some_0)),
        ],
        r is Err ==> same_contents(final(storage), old(storage)),
{
    match check_funds_are_empty(&info.funds) {
        Ok(()) => {},
        Err(e) => {
            return Err(e);
        },
    }
    match validate_instantiate_msg(&msg) {
        Ok(()) => {},
        Err(e) => {
            return Err(e);
        },
    }
    let bind_name = msg.bind_name.clone();
    let contract_info = ContractInfo::new(
        info.sender.clone(),
        msg.bind_name,
        msg.contract_name,
        Some(msg.create_request_nhash_fee),
    );
    let attributes = EventAttributes::new(EventType::InstantiateContract).set_contract_info(
        &contract_info,
    );
    storage.contract_info = Some(contract_info);
    let directives = vec![Directive::BindName { name: bind_name, address: env.contract_address.clone() }];
    Ok(Response { attributes, directives, data: None })
}

} // verus!
